//! The admin challenge-response protocol and the consent handshake.
//!
//! To unlock the admin mode, the operator asks for a challenge, signs it
//! with the admin key and hands the signature in. A challenge serves one
//! attempt: whatever the attempt's outcome, the challenge is gone after it.
//!
//! To act on a user's data, the admin asks for that user's consent. The
//! request leaves a nonce bound to the user in the one pending slot; the
//! user signs the nonce; the signature is accepted only together with the
//! very user name and nonce that are pending.

use crate::bytes::{bytes_eq, text_eq, to_array};
use crate::error::{outcome_of, ErrorKind, TrustError, TrustErrorView};
use crate::pem::{payload, pem_payload};
use crate::primitives::{
    base64_decode, base64_decoded, ed25519_key_valid, ed25519_verifies, fresh_token,
    is_token_char, key_is_valid, signature_verifies, spki_decode, spki_ed25519_key, KEY_LEN,
    SIGNATURE_LEN,
};
use crate::security::{AppState, AppStateView};
use crate::users::{
    has_identity, identity_of, not_found_error, IdentityDirectory, IdentityRecordView,
};
use vstd::prelude::*;
use vstd::utf8::encode_utf8;

verus! {

/// Number of characters of an admin challenge.
pub const ADMIN_NONCE_CHARS: usize = 24;

/// Number of characters of a consent nonce.
pub const CONSENT_NONCE_CHARS: usize = 20;

/// An unlock was attempted with no challenge outstanding.
pub open spec fn no_nonce_error() -> TrustErrorView {
    TrustErrorView { kind: ErrorKind::Protocol, detail: "no nonce"@ }
}

/// A consent was handed in with no request pending.
pub open spec fn no_pending_consent_error() -> TrustErrorView {
    TrustErrorView { kind: ErrorKind::Protocol, detail: "no pending consent"@ }
}

/// A consent was handed in for another user or nonce than the pending
/// ones.
pub open spec fn nonce_mismatch_error() -> TrustErrorView {
    TrustErrorView { kind: ErrorKind::Protocol, detail: "nonce mismatch"@ }
}

/// A signature was not base64 text of 64 bytes.
pub open spec fn malformed_signature_error() -> TrustErrorView {
    TrustErrorView { kind: ErrorKind::Auth, detail: "malformed signature"@ }
}

/// A signature did not verify.
pub open spec fn rejected_signature_error() -> TrustErrorView {
    TrustErrorView { kind: ErrorKind::Auth, detail: "signature rejected"@ }
}

/// A public key was not valid base64 text.
pub open spec fn key_encoding_error() -> TrustErrorView {
    TrustErrorView { kind: ErrorKind::Format, detail: "pk encoding"@ }
}

/// A public key did not have 32 bytes.
pub open spec fn key_size_error() -> TrustErrorView {
    TrustErrorView { kind: ErrorKind::Format, detail: "pk size"@ }
}

/// The 32 bytes of a public key were no verifying key.
pub open spec fn malformed_key_error() -> TrustErrorView {
    TrustErrorView { kind: ErrorKind::Auth, detail: "malformed public key"@ }
}

/// The admin trust anchor was not provisioned.
pub open spec fn anchor_missing_error() -> TrustErrorView {
    TrustErrorView { kind: ErrorKind::Config, detail: "admin_public.pem missing"@ }
}

/// The admin trust anchor did not hold an Ed25519 public key.
pub open spec fn anchor_malformed_error() -> TrustErrorView {
    TrustErrorView { kind: ErrorKind::Config, detail: "admin_public.pem malformed"@ }
}

/// The signature that base64 text stands for, if it stands for 64 bytes.
pub open spec fn decoded_signature(signature_b64: Seq<char>) -> Option<Seq<u8>> {
    match base64_decoded(encode_utf8(signature_b64)) {
        Some(bytes) => if bytes.len() == SIGNATURE_LEN {
            Some(bytes)
        } else {
            None
        },
        None => None,
    }
}

/// The verifying key that base64 text stands for, or the reason why it
/// stands for none.
pub open spec fn claimed_key(pubkey_b64: Seq<char>) -> Result<Seq<u8>, TrustErrorView> {
    match base64_decoded(encode_utf8(pubkey_b64)) {
        None => Err(key_encoding_error()),
        Some(bytes) => if bytes.len() != KEY_LEN {
            Err(key_size_error())
        } else if !ed25519_key_valid(bytes) {
            Err(malformed_key_error())
        } else {
            Ok(bytes)
        },
    }
}

/// The admin key that the PEM text of a trust anchor holds: the key of the
/// public-key document that the text's payload is the base64 of.
pub open spec fn trust_anchor_key(pem: Seq<char>) -> Option<Seq<u8>> {
    match base64_decoded(pem_payload(encode_utf8(pem))) {
        Some(der) => spki_ed25519_key(der),
        None => None,
    }
}

/// The verdict on a signature that base64 text stands for, over `message`
/// under the verifying key `key`.
pub open spec fn signature_verdict(
    key: Seq<u8>,
    message: Seq<char>,
    signature_b64: Seq<char>,
) -> Result<bool, TrustErrorView> {
    match decoded_signature(signature_b64) {
        None => Err(malformed_signature_error()),
        Some(signature) => if ed25519_key_valid(key) && ed25519_verifies(
            key,
            encode_utf8(message),
            signature,
        ) {
            Ok(true)
        } else {
            Err(rejected_signature_error())
        },
    }
}

/// The verdict on an unlock attempt against the challenge `nonce`. The
/// signature is looked at first, then the trust anchor, then whether the
/// anchor's key accepts the signature over the challenge.
pub open spec fn admin_verdict(
    nonce: Seq<char>,
    signature_b64: Seq<char>,
    anchor_pem: Option<Seq<char>>,
) -> Result<bool, TrustErrorView> {
    if decoded_signature(signature_b64) is None {
        Err(malformed_signature_error())
    } else {
        match anchor_pem {
            None => Err(anchor_missing_error()),
            Some(pem) => match trust_anchor_key(pem) {
                None => Err(anchor_malformed_error()),
                Some(key) => signature_verdict(key, nonce, signature_b64),
            },
        }
    }
}

/// What an unlock attempt returns in a given state.
pub open spec fn admin_unlock_outcome(
    state: AppStateView,
    signature_b64: Seq<char>,
    anchor_pem: Option<Seq<char>>,
) -> Result<bool, TrustErrorView> {
    match state.admin_nonce {
        None => Err(no_nonce_error()),
        Some(nonce) => admin_verdict(nonce, signature_b64, anchor_pem),
    }
}

/// The state after an unlock attempt with the given outcome: the challenge
/// is gone, and the admin mode is unlocked if it was before or if the
/// attempt succeeded.
pub open spec fn state_after_unlock(
    state: AppStateView,
    outcome: Result<bool, TrustErrorView>,
) -> AppStateView {
    AppStateView {
        admin_nonce: None,
        admin_unlocked: state.admin_unlocked || outcome is Ok,
        ..state
    }
}

/// The state after `nonce` has been issued as the admin challenge: it
/// replaces any challenge that was outstanding.
pub open spec fn state_after_challenge(state: AppStateView, nonce: Seq<char>) -> AppStateView {
    AppStateView { admin_nonce: Some(nonce), ..state }
}

/// The state after consent has been asked of `user_id` with `nonce`: the
/// request replaces any that was pending.
pub open spec fn state_after_request(
    state: AppStateView,
    user_id: Seq<char>,
    nonce: Seq<char>,
) -> AppStateView {
    AppStateView { pending_user_consent: Some((user_id, nonce)), ..state }
}

/// What handing in a consent returns in a given state. The pending slot
/// must hold the very user and nonce that are handed in; then the claimed
/// key is parsed, then the signature, and at last the signature is
/// verified over the nonce.
pub open spec fn consent_outcome(
    state: AppStateView,
    user_id: Seq<char>,
    nonce: Seq<char>,
    signature_b64: Seq<char>,
    pubkey_b64: Seq<char>,
) -> Result<bool, TrustErrorView> {
    match state.pending_user_consent {
        None => Err(no_pending_consent_error()),
        Some(pending) => if pending.0 != user_id || pending.1 != nonce {
            Err(nonce_mismatch_error())
        } else {
            match claimed_key(pubkey_b64) {
                Err(e) => Err(e),
                Ok(key) => signature_verdict(key, nonce, signature_b64),
            }
        },
    }
}

/// The claimed public key is not the one registered for the user.
pub open spec fn key_mismatch_error() -> TrustErrorView {
    TrustErrorView { kind: ErrorKind::Auth, detail: "public key mismatch"@ }
}

/// What handing in a consent returns when the claimed key is held against
/// the identity directory: as `consent_outcome`, but the user must be
/// registered and the claimed key must be the registered one before the
/// signature is looked at.
pub open spec fn registered_consent_outcome(
    state: AppStateView,
    records: Seq<IdentityRecordView>,
    user_id: Seq<char>,
    nonce: Seq<char>,
    signature_b64: Seq<char>,
    pubkey_b64: Seq<char>,
) -> Result<bool, TrustErrorView> {
    match state.pending_user_consent {
        None => Err(no_pending_consent_error()),
        Some(pending) => if pending.0 != user_id || pending.1 != nonce {
            Err(nonce_mismatch_error())
        } else {
            match claimed_key(pubkey_b64) {
                Err(e) => Err(e),
                Ok(key) => if !has_identity(records, user_id) {
                    Err(not_found_error())
                } else if identity_of(records, user_id).verifying_key != key {
                    Err(key_mismatch_error())
                } else {
                    signature_verdict(key, nonce, signature_b64)
                },
            }
        },
    }
}

/// The view of an optional text.
pub open spec fn text_view(text: Option<&str>) -> Option<Seq<char>> {
    match text {
        Some(t) => Some(t@),
        None => None,
    }
}

/// Whether `nonce` is a token of `len` characters from the URL-safe
/// alphabet.
pub open spec fn is_token(nonce: Seq<char>, len: nat) -> bool {
    &&& nonce.len() == len
    &&& forall|i: int| 0 <= i < nonce.len() ==> is_token_char(#[trigger] nonce[i])
}

/// Makes a signature of what base64 decoding gave: 64 bytes, or it is
/// malformed.
pub fn signature_from(decoded: Option<Vec<u8>>) -> (signature: Result<[u8; 64], TrustError>)
    ensures
        signature is Ok <==> (decoded matches Some(v) && v@.len() == SIGNATURE_LEN),
        match signature {
            Ok(bytes) => decoded matches Some(v) && v@ == bytes@,
            Err(e) => {
                &&& decoded matches Some(v) ==> v@.len() != SIGNATURE_LEN
                &&& e@ == malformed_signature_error()
            },
        },
{
    match decoded {
        Some(bytes) => match to_array::<64>(bytes.as_slice()) {
            Some(signature) => Ok(signature),
            None => Err(TrustError::new(ErrorKind::Auth, "malformed signature")),
        },
        None => Err(TrustError::new(ErrorKind::Auth, "malformed signature")),
    }
}

/// Decodes a signature from base64 text.
pub fn decode_signature(signature_b64: &str) -> (signature: Result<[u8; 64], TrustError>)
    ensures
        match signature {
            Ok(bytes) => decoded_signature(signature_b64@) == Some(bytes@),
            Err(e) => decoded_signature(signature_b64@) is None && e@
                == malformed_signature_error(),
        },
{
    signature_from(base64_decode(signature_b64.as_bytes()))
}

/// Makes a public key of what base64 decoding gave: 32 bytes, or the
/// matching format error.
pub fn key_bytes_from(decoded: Option<Vec<u8>>) -> (key: Result<[u8; 32], TrustError>)
    ensures
        key is Ok <==> (decoded matches Some(v) && v@.len() == KEY_LEN),
        match key {
            Ok(bytes) => decoded matches Some(v) && v@ == bytes@,
            Err(e) => match decoded {
                Some(v) => v@.len() != KEY_LEN && e@ == key_size_error(),
                None => e@ == key_encoding_error(),
            },
        },
{
    match decoded {
        Some(bytes) => match to_array::<32>(bytes.as_slice()) {
            Some(key) => Ok(key),
            None => Err(TrustError::new(ErrorKind::Format, "pk size")),
        },
        None => Err(TrustError::new(ErrorKind::Format, "pk encoding")),
    }
}

/// Decodes a verifying key from base64 text.
pub fn decode_public_key(pubkey_b64: &str) -> (key: Result<[u8; 32], TrustError>)
    ensures
        match key {
            Ok(bytes) => claimed_key(pubkey_b64@) == Ok::<Seq<u8>, TrustErrorView>(bytes@),
            Err(e) => claimed_key(pubkey_b64@) == Err::<Seq<u8>, TrustErrorView>(e@),
        },
{
    match key_bytes_from(base64_decode(pubkey_b64.as_bytes())) {
        Ok(key) => if key_is_valid(&key) {
            Ok(key)
        } else {
            Err(TrustError::new(ErrorKind::Auth, "malformed public key"))
        },
        Err(e) => Err(e),
    }
}

/// Turns the verifier's answer into the result of a verification.
pub fn verdict_from(accepted: bool) -> (verdict: Result<bool, TrustError>)
    ensures
        match verdict {
            Ok(authorized) => accepted && authorized,
            Err(e) => !accepted && e@ == rejected_signature_error(),
        },
{
    if accepted {
        Ok(true)
    } else {
        Err(TrustError::new(ErrorKind::Auth, "signature rejected"))
    }
}

/// Verifies a signature, given as base64 text, over `message` under the
/// verifying key `key`.
pub fn check_signature(key: &[u8; 32], message: &str, signature_b64: &str) -> (verdict: Result<
    bool,
    TrustError,
>)
    ensures
        outcome_of(verdict) == signature_verdict(key@, message@, signature_b64@),
{
    match decode_signature(signature_b64) {
        Ok(signature) => verdict_from(signature_verifies(key, message.as_bytes(), &signature)),
        Err(e) => Err(e),
    }
}

/// Reads the admin public key from the PEM text of the trust anchor.
pub fn load_admin_pubkey(pem: &str) -> (key: Result<[u8; 32], TrustError>)
    ensures
        match key {
            Ok(bytes) => trust_anchor_key(pem@) == Some(bytes@) && ed25519_key_valid(bytes@),
            Err(e) => trust_anchor_key(pem@) is None && e@ == anchor_malformed_error(),
        },
{
    let body = payload(pem.as_bytes());
    let found = match base64_decode(body.as_slice()) {
        Some(der) => spki_decode(der.as_slice()),
        None => None,
    };
    match found {
        Some(key) => Ok(key),
        None => Err(TrustError::new(ErrorKind::Config, "admin_public.pem malformed")),
    }
}

/// Judges an unlock attempt against the challenge `nonce`.
pub fn judge_unlock(
    nonce: &str,
    signature_b64: &str,
    trust_anchor_pem: Option<&str>,
) -> (verdict: Result<bool, TrustError>)
    ensures
        outcome_of(verdict) == admin_verdict(nonce@, signature_b64@, text_view(trust_anchor_pem)),
{
    match decode_signature(signature_b64) {
        Err(e) => Err(e),
        Ok(_) => match trust_anchor_pem {
            None => Err(TrustError::new(ErrorKind::Config, "admin_public.pem missing")),
            Some(pem) => match load_admin_pubkey(pem) {
                Err(e) => Err(e),
                Ok(key) => check_signature(&key, nonce, signature_b64),
            },
        },
    }
}

/// Makes `nonce` the outstanding admin challenge, in place of any earlier
/// one.
pub fn install_admin_nonce(nonce: String, state: &mut AppState)
    ensures
        final(state)@ == state_after_challenge(old(state)@, nonce@),
{
    state.admin_nonce = Some(nonce);
}

/// Issues a fresh admin challenge: a random token of 24 URL-safe
/// characters, which replaces any challenge that was outstanding.
pub fn admin_get_nonce(state: &mut AppState) -> (issued: Result<String, TrustError>)
    ensures
        issued matches Ok(nonce) && is_token(nonce@, ADMIN_NONCE_CHARS as nat) && final(state)@
            == state_after_challenge(old(state)@, nonce@),
{
    let nonce = fresh_token(ADMIN_NONCE_CHARS);
    install_admin_nonce(nonce.clone(), state);
    Ok(nonce)
}

/// Takes the outstanding challenge out of the state.
pub fn take_admin_nonce(state: &mut AppState) -> (nonce: Option<String>)
    ensures
        final(state)@ == (AppStateView { admin_nonce: None, ..old(state)@ }),
        match nonce {
            Some(n) => old(state)@.admin_nonce == Some(n@),
            None => old(state)@.admin_nonce is None,
        },
{
    let mut nonce: Option<String> = None;
    core::mem::swap(&mut state.admin_nonce, &mut nonce);
    nonce
}

/// Records the verdict on an unlock attempt: a success unlocks the admin
/// mode, a failure leaves the flag as it was.
pub fn settle_unlock(verdict: Result<bool, TrustError>, state: &mut AppState) -> (unlocked: Result<
    bool,
    TrustError,
>)
    ensures
        outcome_of(unlocked) == outcome_of(verdict),
        final(state)@ == (AppStateView {
            admin_unlocked: old(state)@.admin_unlocked || verdict is Ok,
            ..old(state)@
        }),
{
    if verdict.is_ok() {
        state.admin_unlocked = true;
    }
    verdict
}

/// Attempts to unlock the admin mode with a signature over the outstanding
/// challenge. The attempt needs a challenge and uses it up, whatever
/// comes of it. The signature must be base64 text of 64 bytes and must
/// verify under the key of the trust anchor, whose PEM text is handed in
/// (or nothing, where it is not provisioned).
pub fn admin_unlock(
    signature_b64: String,
    trust_anchor_pem: Option<&str>,
    state: &mut AppState,
) -> (unlocked: Result<bool, TrustError>)
    ensures
        outcome_of(unlocked) == admin_unlock_outcome(
            old(state)@,
            signature_b64@,
            text_view(trust_anchor_pem),
        ),
        final(state)@ == state_after_unlock(old(state)@, outcome_of(unlocked)),
{
    match take_admin_nonce(state) {
        None => Err(TrustError::new(ErrorKind::Protocol, "no nonce")),
        Some(nonce) => {
            let verdict = judge_unlock(nonce.as_str(), signature_b64.as_str(), trust_anchor_pem);
            settle_unlock(verdict, state)
        },
    }
}

/// Whether the admin mode is unlocked.
pub fn admin_status(state: &AppState) -> (status: Result<bool, TrustError>)
    ensures
        status == Ok::<bool, TrustError>(state@.admin_unlocked),
{
    Ok(state.admin_unlocked)
}

/// Makes the pair of `user_id` and `nonce` the pending consent request, in
/// place of any earlier one.
pub fn install_consent_request(user_id: String, nonce: String, state: &mut AppState)
    ensures
        final(state)@ == state_after_request(old(state)@, user_id@, nonce@),
{
    state.pending_user_consent = Some((user_id, nonce));
}

/// Asks `user_id` for consent to `action`: mints a random nonce of 20
/// URL-safe characters and leaves it, bound to the user, as the one
/// pending request. Returns the user and the nonce to be signed.
pub fn request_user_consent(
    user_id: String,
    action: String,
    state: &mut AppState,
) -> (requested: Result<(String, String), TrustError>)
    ensures
        requested matches Ok(pair) && pair.0@ == user_id@ && is_token(
            pair.1@,
            CONSENT_NONCE_CHARS as nat,
        ) && final(state)@ == state_after_request(old(state)@, user_id@, pair.1@),
{
    let nonce = fresh_token(CONSENT_NONCE_CHARS);
    install_consent_request(user_id.clone(), nonce.clone(), state);
    Ok((user_id, nonce))
}

/// Whether the pending consent request is for `user_id` with `nonce`.
pub fn pending_matches(user_id: &str, nonce: &str, state: &AppState) -> (matched: Result<
    (),
    TrustError,
>)
    ensures
        match matched {
            Ok(_) => state@.pending_user_consent == Some((user_id@, nonce@)),
            Err(e) => match state@.pending_user_consent {
                None => e@ == no_pending_consent_error(),
                Some(pending) => pending != (user_id@, nonce@) && e@ == nonce_mismatch_error(),
            },
        },
{
    match &state.pending_user_consent {
        None => Err(TrustError::new(ErrorKind::Protocol, "no pending consent")),
        Some(pending) => {
            if text_eq(pending.0.as_str(), user_id) && text_eq(pending.1.as_str(), nonce) {
                Ok(())
            } else {
                Err(TrustError::new(ErrorKind::Protocol, "nonce mismatch"))
            }
        },
    }
}

/// Verifies a user's consent: the request must be the pending one, user
/// and nonce alike; the claimed public key must be base64 text of a
/// 32-byte verifying key; and the signature must verify over the nonce
/// under that key. The pending request stays in place.
pub fn verify_user_consent_and_authorize(
    user_id: String,
    consent_nonce: String,
    user_signature_b64: String,
    user_pubkey_b64: String,
    state: &AppState,
) -> (authorized: Result<bool, TrustError>)
    ensures
        outcome_of(authorized) == consent_outcome(
            state@,
            user_id@,
            consent_nonce@,
            user_signature_b64@,
            user_pubkey_b64@,
        ),
{
    match pending_matches(user_id.as_str(), consent_nonce.as_str(), state) {
        Err(e) => Err(e),
        Ok(_) => match decode_public_key(user_pubkey_b64.as_str()) {
            Err(e) => Err(e),
            Ok(key) => check_signature(&key, consent_nonce.as_str(), user_signature_b64.as_str()),
        },
    }
}

/// Verifies a user's consent against the identity directory: as
/// `verify_user_consent_and_authorize`, but the user must be registered
/// and the claimed public key must be the one that is registered for the
/// user.
pub fn verify_user_consent_registered(
    user_id: String,
    consent_nonce: String,
    user_signature_b64: String,
    user_pubkey_b64: String,
    state: &AppState,
    directory: &IdentityDirectory,
) -> (authorized: Result<bool, TrustError>)
    ensures
        outcome_of(authorized) == registered_consent_outcome(
            state@,
            directory@,
            user_id@,
            consent_nonce@,
            user_signature_b64@,
            user_pubkey_b64@,
        ),
{
    match pending_matches(user_id.as_str(), consent_nonce.as_str(), state) {
        Err(e) => Err(e),
        Ok(_) => match decode_public_key(user_pubkey_b64.as_str()) {
            Err(e) => Err(e),
            Ok(key) => match directory.find(user_id.as_str()) {
                None => Err(TrustError::new(ErrorKind::NotFound, "unknown identity")),
                Some(record) => {
                    if bytes_eq(record.verifying_key.as_slice(), key.as_slice()) {
                        check_signature(
                            &key,
                            consent_nonce.as_str(),
                            user_signature_b64.as_str(),
                        )
                    } else {
                        Err(TrustError::new(ErrorKind::Auth, "public key mismatch"))
                    }
                },
            },
        },
    }
}

/// Holding the claimed key against the directory only refuses more: a
/// consent that it accepts is accepted without the directory too, and is
/// signed under the key that is registered for the user.
pub proof fn lemma_registered_consent_is_stricter(
    state: AppStateView,
    records: Seq<IdentityRecordView>,
    user_id: Seq<char>,
    nonce: Seq<char>,
    signature_b64: Seq<char>,
    pubkey_b64: Seq<char>,
)
    requires
        registered_consent_outcome(state, records, user_id, nonce, signature_b64, pubkey_b64)
            is Ok,
    ensures
        consent_outcome(state, user_id, nonce, signature_b64, pubkey_b64) is Ok,
        has_identity(records, user_id),
        claimed_key(pubkey_b64) == Ok::<Seq<u8>, TrustErrorView>(
            identity_of(records, user_id).verifying_key,
        ),
        signature_verdict(identity_of(records, user_id).verifying_key, nonce, signature_b64)
            is Ok,
{
}

/// A challenge serves one attempt. After an unlock attempt, whatever came
/// of it, a second attempt without a fresh challenge fails for want of
/// one, whatever signature and trust anchor it brings.
pub proof fn lemma_challenge_is_single_use(
    state: AppStateView,
    signature_b64: Seq<char>,
    anchor_pem: Option<Seq<char>>,
    next_signature_b64: Seq<char>,
    next_anchor_pem: Option<Seq<char>>,
)
    ensures
        admin_unlock_outcome(
            state_after_unlock(state, admin_unlock_outcome(state, signature_b64, anchor_pem)),
            next_signature_b64,
            next_anchor_pem,
        ) == Err::<bool, TrustErrorView>(no_nonce_error()),
{
}

/// The admin mode, once unlocked, stays unlocked: neither a new challenge
/// nor a failed attempt locks it again. And it is unlocked after an
/// attempt only if it was before or the attempt succeeded.
pub proof fn lemma_unlock_is_monotonic(
    state: AppStateView,
    nonce: Seq<char>,
    outcome: Result<bool, TrustErrorView>,
)
    ensures
        state.admin_unlocked ==> state_after_challenge(state, nonce).admin_unlocked,
        state.admin_unlocked ==> state_after_unlock(state, outcome).admin_unlocked,
        state_after_unlock(state, outcome).admin_unlocked ==> state.admin_unlocked || outcome
            is Ok,
{
}

/// A signature over an earlier challenge does not unlock against a later
/// one unless it verifies over the later one too: the verdict depends on
/// the outstanding challenge alone, and a new challenge replaces the old.
pub proof fn lemma_new_challenge_replaces_old(
    state: AppStateView,
    old_nonce: Seq<char>,
    new_nonce: Seq<char>,
    signature_b64: Seq<char>,
    anchor_pem: Option<Seq<char>>,
)
    ensures
        admin_unlock_outcome(
            state_after_challenge(state_after_challenge(state, old_nonce), new_nonce),
            signature_b64,
            anchor_pem,
        ) == admin_verdict(new_nonce, signature_b64, anchor_pem),
{
}

/// Consent is bound to the request. When the user or the nonce handed in
/// differs from the pair that was requested last, verification fails with
/// a protocol error, whatever the signature and the key.
pub proof fn lemma_consent_is_bound_to_request(
    state: AppStateView,
    requested_user: Seq<char>,
    requested_nonce: Seq<char>,
    user_id: Seq<char>,
    nonce: Seq<char>,
    signature_b64: Seq<char>,
    pubkey_b64: Seq<char>,
)
    requires
        user_id != requested_user || nonce != requested_nonce,
    ensures
        consent_outcome(
            state_after_request(state, requested_user, requested_nonce),
            user_id,
            nonce,
            signature_b64,
            pubkey_b64,
        ) == Err::<bool, TrustErrorView>(nonce_mismatch_error()),
{
}

/// With no request pending, every consent is refused.
pub proof fn lemma_consent_needs_request(
    state: AppStateView,
    user_id: Seq<char>,
    nonce: Seq<char>,
    signature_b64: Seq<char>,
    pubkey_b64: Seq<char>,
)
    requires
        state.pending_user_consent is None,
    ensures
        consent_outcome(state, user_id, nonce, signature_b64, pubkey_b64) == Err::<
            bool,
            TrustErrorView,
        >(no_pending_consent_error()),
{
}

} // verus!
