//! Protocol steps that leave a trace: each operation of the admin channel
//! and of the consent handshake together with the entry that records it
//! in the audit ledger.
//!
//! An entry names the step and its outcome, never a nonce, a signature or
//! a key.

use crate::admin::{
    admin_get_nonce, admin_unlock, admin_unlock_outcome, consent_outcome, is_token,
    request_user_consent, state_after_challenge, state_after_request, state_after_unlock,
    text_view, verify_user_consent_and_authorize, ADMIN_NONCE_CHARS, CONSENT_NONCE_CHARS,
};
use crate::error::{kind_label, outcome_of, TrustError, TrustErrorView};
use crate::logs::{append_event, next_entry, AuditLedger, LogEntryView};
use crate::security::AppState;
use vstd::prelude::*;
use vstd::string::StringExecFns;

verus! {

/// How an outcome is written into an event: `ok`, or `failed: ` and the
/// name of the error's kind.
pub open spec fn outcome_label(outcome: Result<bool, TrustErrorView>) -> Seq<char> {
    match outcome {
        Ok(_) => "ok"@,
        Err(e) => "failed: "@ + kind_label(e.kind),
    }
}

/// The event that records the issue of an admin challenge.
pub open spec fn challenge_event() -> Seq<char> {
    "admin.nonce issued"@
}

/// The event that records an unlock attempt.
pub open spec fn unlock_event(outcome: Result<bool, TrustErrorView>) -> Seq<char> {
    "admin.unlock "@ + outcome_label(outcome)
}

/// The event that records a request for consent.
pub open spec fn consent_request_event(user_id: Seq<char>, action: Seq<char>) -> Seq<char> {
    "consent.request "@ + user_id + ": "@ + action
}

/// The event that records the verification of a consent.
pub open spec fn consent_verify_event(
    user_id: Seq<char>,
    outcome: Result<bool, TrustErrorView>,
) -> Seq<char> {
    "consent.verify "@ + user_id + ": "@ + outcome_label(outcome)
}

/// The ledger after `event` has been recorded at time `ts`: one entry
/// longer, unless no identifier is left for the entry.
pub open spec fn recorded(
    entries: Seq<LogEntryView>,
    event: Seq<char>,
    ts: Seq<char>,
) -> Seq<LogEntryView> {
    if entries.len() > 0 && entries.last().id == i64::MAX {
        entries
    } else {
        entries.push(next_entry(entries, event, ts))
    }
}

/// Records `event` at time `ts`. A ledger that has no identifier left
/// stays as it is.
pub fn record(event: String, ts: String, ledger: &mut AuditLedger)
    ensures
        final(ledger)@ == recorded(old(ledger)@, event@, ts@),
{
    let _ = append_event(event, ts, ledger);
}

/// Writes an outcome as it appears in an event.
pub fn outcome_text(outcome: &Result<bool, TrustError>) -> (text: String)
    ensures
        text@ == outcome_label(outcome_of(*outcome)),
{
    match outcome {
        Ok(_) => "ok".to_owned(),
        Err(e) => {
            let mut text = "failed: ".to_owned();
            text.append(e.kind_name());
            text
        },
    }
}

/// Writes the event of an unlock attempt with the given outcome.
pub fn unlock_event_text(outcome: &Result<bool, TrustError>) -> (event: String)
    ensures
        event@ == unlock_event(outcome_of(*outcome)),
{
    let mut event = "admin.unlock ".to_owned();
    event.append(outcome_text(outcome).as_str());
    event
}

/// Writes the event of a request for the consent of `user_id` to
/// `action`.
pub fn consent_request_event_text(user_id: &str, action: &str) -> (event: String)
    ensures
        event@ == consent_request_event(user_id@, action@),
{
    let mut event = "consent.request ".to_owned();
    event.append(user_id);
    event.append(": ");
    event.append(action);
    event
}

/// Writes the event of the verification of a consent of `user_id` with
/// the given outcome.
pub fn consent_verify_event_text(
    user_id: &str,
    outcome: &Result<bool,
    TrustError>,
) -> (event: String)
    ensures
        event@ == consent_verify_event(user_id@, outcome_of(*outcome)),
{
    let mut event = "consent.verify ".to_owned();
    event.append(user_id);
    event.append(": ");
    event.append(outcome_text(outcome).as_str());
    event
}

/// Issues a fresh admin challenge, as `admin_get_nonce` does, and records
/// that at time `ts`.
pub fn admin_get_nonce_recorded(
    ts: String,
    state: &mut AppState,
    ledger: &mut AuditLedger,
) -> (issued: Result<String, TrustError>)
    ensures
        issued matches Ok(nonce) && is_token(nonce@, ADMIN_NONCE_CHARS as nat) && final(state)@
            == state_after_challenge(old(state)@, nonce@),
        final(ledger)@ == recorded(old(ledger)@, challenge_event(), ts@),
{
    let issued = admin_get_nonce(state);
    record("admin.nonce issued".to_owned(), ts, ledger);
    issued
}

/// Attempts to unlock the admin mode, as `admin_unlock` does, and records
/// the attempt with its outcome at time `ts`, be it a success or a
/// failure.
pub fn admin_unlock_recorded(
    signature_b64: String,
    trust_anchor_pem: Option<&str>,
    ts: String,
    state: &mut AppState,
    ledger: &mut AuditLedger,
) -> (unlocked: Result<bool, TrustError>)
    ensures
        outcome_of(unlocked) == admin_unlock_outcome(
            old(state)@,
            signature_b64@,
            text_view(trust_anchor_pem),
        ),
        final(state)@ == state_after_unlock(old(state)@, outcome_of(unlocked)),
        final(ledger)@ == recorded(old(ledger)@, unlock_event(outcome_of(unlocked)), ts@),
{
    let unlocked = admin_unlock(signature_b64, trust_anchor_pem, state);
    record(unlock_event_text(&unlocked), ts, ledger);
    unlocked
}

/// Asks `user_id` for consent to `action`, as `request_user_consent`
/// does, and records the request at time `ts`.
pub fn request_user_consent_recorded(
    user_id: String,
    action: String,
    ts: String,
    state: &mut AppState,
    ledger: &mut AuditLedger,
) -> (requested: Result<(String, String), TrustError>)
    ensures
        requested matches Ok(pair) && pair.0@ == user_id@ && is_token(
            pair.1@,
            CONSENT_NONCE_CHARS as nat,
        ) && final(state)@ == state_after_request(old(state)@, user_id@, pair.1@),
        final(ledger)@ == recorded(old(ledger)@, consent_request_event(user_id@, action@), ts@),
{
    let event = consent_request_event_text(user_id.as_str(), action.as_str());
    let requested = request_user_consent(user_id, action, state);
    record(event, ts, ledger);
    requested
}

/// Verifies a user's consent, as `verify_user_consent_and_authorize`
/// does, and records the verification with its outcome at time `ts`, be
/// it a success or a failure.
pub fn verify_user_consent_recorded(
    user_id: String,
    consent_nonce: String,
    user_signature_b64: String,
    user_pubkey_b64: String,
    ts: String,
    state: &AppState,
    ledger: &mut AuditLedger,
) -> (authorized: Result<bool, TrustError>)
    ensures
        outcome_of(authorized) == consent_outcome(
            state@,
            user_id@,
            consent_nonce@,
            user_signature_b64@,
            user_pubkey_b64@,
        ),
        final(ledger)@ == recorded(
            old(ledger)@,
            consent_verify_event(user_id@, outcome_of(authorized)),
            ts@,
        ),
{
    let name = user_id.clone();
    let authorized = verify_user_consent_and_authorize(
        user_id,
        consent_nonce,
        user_signature_b64,
        user_pubkey_b64,
        state,
    );
    record(consent_verify_event_text(name.as_str(), &authorized), ts, ledger);
    authorized
}

/// Recording adds one entry at most and changes none: the ledger before
/// is a prefix of the ledger after, and the entry that is added, if any,
/// carries the event and names the old head as its predecessor.
pub proof fn lemma_recording_only_appends(
    entries: Seq<LogEntryView>,
    event: Seq<char>,
    ts: Seq<char>,
)
    ensures
        entries.len() <= recorded(entries, event, ts).len() <= entries.len() + 1,
        recorded(entries, event, ts).take(entries.len() as int) == entries,
        recorded(entries, event, ts).len() == entries.len() + 1 ==> recorded(
            entries,
            event,
            ts,
        ).last() == next_entry(entries, event, ts),
        (entries.len() == 0 || entries.last().id < i64::MAX) ==> recorded(entries, event, ts).len()
            == entries.len() + 1,
{
}

} // verus!
