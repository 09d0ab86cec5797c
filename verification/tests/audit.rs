use base64::engine::general_purpose::STANDARD;
use base64::Engine;
use ed25519_dalek::{Signer, SigningKey};
use promptpilot_core::admin::{install_consent_request, verify_user_consent_registered};
use promptpilot_core::audit::{
    admin_get_nonce_recorded, admin_unlock_recorded, consent_request_event_text,
    consent_verify_event_text, outcome_text, record, request_user_consent_recorded,
    unlock_event_text, verify_user_consent_recorded,
};
use promptpilot_core::error::{ErrorKind, TrustError};
use promptpilot_core::logs::{append_event, get_admin_log_head, verify_chain, AuditLedger};
use promptpilot_core::security::AppState;
use promptpilot_core::users::{create_profile, IdentityDirectory, IdentityRecord};

const ANCHOR: &str = "-----BEGIN PUBLIC KEY-----\nMCowBQYDK2VwAyEA11qYAYKxCrfVS/7TyWQHOg7hcvPapiMlrwIaaPcHURo=\n-----END PUBLIC KEY-----\n";

const SECRET: [u8; 32] = [
    157, 97, 177, 157, 239, 253, 90, 96, 186, 132, 74, 244, 146, 236, 44, 196, 68, 73, 197, 105,
    123, 50, 105, 25, 112, 59, 172, 3, 28, 174, 127, 96,
];

fn sign_text(key: &SigningKey, message: &str) -> String {
    STANDARD.encode(key.sign(message.as_bytes()).to_bytes())
}

fn events(ledger: &AuditLedger) -> Vec<String> {
    ledger.entries().iter().map(|e| e.event.clone()).collect()
}

#[test]
fn outcomes_are_written_by_kind() {
    assert_eq!(outcome_text(&Ok(true)), "ok");
    assert_eq!(outcome_text(&Err(TrustError::new(ErrorKind::Auth, "x"))), "failed: AuthError");
    assert_eq!(unlock_event_text(&Ok(true)), "admin.unlock ok");
    assert_eq!(
        unlock_event_text(&Err(TrustError::new(ErrorKind::Protocol, "no nonce"))),
        "admin.unlock failed: ProtocolError"
    );
    assert_eq!(consent_request_event_text("alice", "export"), "consent.request alice: export");
    assert_eq!(consent_verify_event_text("alice", &Ok(true)), "consent.verify alice: ok");
    assert_eq!(
        consent_verify_event_text("bob", &Err(TrustError::new(ErrorKind::Format, "pk size"))),
        "consent.verify bob: failed: FormatError"
    );
}

#[test]
fn admin_steps_are_recorded_with_their_outcome() {
    let key = SigningKey::from_bytes(&SECRET);
    let mut state = AppState::default();
    let mut ledger = AuditLedger::new();
    let err = admin_unlock_recorded("AAAA".to_string(), Some(ANCHOR), "t0".to_string(), &mut state, &mut ledger)
        .unwrap_err();
    assert_eq!(err.kind, ErrorKind::Protocol);
    let nonce = admin_get_nonce_recorded("t1".to_string(), &mut state, &mut ledger).unwrap();
    assert_eq!(state.admin_nonce, Some(nonce.clone()));
    let err = admin_unlock_recorded("AAAA".to_string(), Some(ANCHOR), "t2".to_string(), &mut state, &mut ledger)
        .unwrap_err();
    assert_eq!(err.kind, ErrorKind::Auth);
    let nonce = admin_get_nonce_recorded("t3".to_string(), &mut state, &mut ledger).unwrap();
    let ok = admin_unlock_recorded(sign_text(&key, &nonce), Some(ANCHOR), "t4".to_string(), &mut state, &mut ledger)
        .unwrap();
    assert!(ok);
    assert!(state.admin_unlocked);
    assert_eq!(
        events(&ledger),
        vec![
            "admin.unlock failed: ProtocolError",
            "admin.nonce issued",
            "admin.unlock failed: AuthError",
            "admin.nonce issued",
            "admin.unlock ok",
        ]
    );
    assert_eq!(ledger.entries()[4].ts, "t4");
    assert!(verify_chain(ledger.entries()).valid);
    for entry in ledger.entries().iter() {
        assert!(!entry.event.contains(&nonce));
    }
}

#[test]
fn consent_steps_are_recorded_with_their_outcome() {
    let key = SigningKey::from_bytes(&[42u8; 32]);
    let public = STANDARD.encode(key.verifying_key().to_bytes());
    let mut state = AppState::default();
    let mut ledger = AuditLedger::new();
    let (user, nonce) = request_user_consent_recorded(
        "alice".to_string(),
        "read history".to_string(),
        "t0".to_string(),
        &mut state,
        &mut ledger,
    )
    .unwrap();
    assert_eq!(user, "alice");
    assert_eq!(state.pending_user_consent, Some(("alice".to_string(), nonce.clone())));
    let err = verify_user_consent_recorded(
        "bob".to_string(),
        nonce.clone(),
        sign_text(&key, &nonce),
        public.clone(),
        "t1".to_string(),
        &state,
        &mut ledger,
    )
    .unwrap_err();
    assert_eq!(err.kind, ErrorKind::Protocol);
    let ok = verify_user_consent_recorded(
        "alice".to_string(),
        nonce.clone(),
        sign_text(&key, &nonce),
        public,
        "t2".to_string(),
        &state,
        &mut ledger,
    )
    .unwrap();
    assert!(ok);
    assert_eq!(
        events(&ledger),
        vec![
            "consent.request alice: read history",
            "consent.verify bob: failed: ProtocolError",
            "consent.verify alice: ok",
        ]
    );
    assert!(verify_chain(ledger.entries()).valid);
}

#[test]
fn recording_appends_to_what_is_there() {
    let mut ledger = AuditLedger::new();
    append_event("first".to_string(), "t".to_string(), &mut ledger).unwrap();
    let head = get_admin_log_head(&ledger).unwrap();
    record("second".to_string(), "u".to_string(), &mut ledger);
    assert_eq!(ledger.len(), 2);
    assert_eq!(ledger.entries()[0].event, "first");
    assert_eq!(ledger.entries()[1].event, "second");
    assert_eq!(ledger.entries()[1].hash_prev, head);
    assert_eq!(ledger.entries()[1].id, 2);
}

#[test]
fn recording_leaves_a_full_ledger_as_it_is() {
    let mut first = AuditLedger::new();
    append_event("a".to_string(), "t".to_string(), &mut first).unwrap();
    let mut entries = first.entries().clone();
    entries[0].id = i64::MAX;
    let mut full = AuditLedger::restore(entries).unwrap();
    let mut state = AppState::default();
    let nonce = admin_get_nonce_recorded("t".to_string(), &mut state, &mut full).unwrap();
    assert_eq!(state.admin_nonce, Some(nonce));
    assert_eq!(full.len(), 1);
    assert_eq!(full.entries()[0].event, "a");
}

#[test]
fn consent_against_the_directory_needs_the_registered_key() {
    let mut directory = IdentityDirectory::new();
    let profile = create_profile(
        "alice".to_string(),
        "Alice".to_string(),
        "pw".to_string(),
        &mut directory,
    )
    .unwrap();
    let blob = directory.find("alice").unwrap().encrypted_key.clone();
    let secret = promptpilot_core::users::decrypt_identity(&blob, "pw").unwrap();
    let mut bytes = [0u8; 32];
    bytes.copy_from_slice(&secret);
    let alice = SigningKey::from_bytes(&bytes);
    let mallory = SigningKey::from_bytes(&[9u8; 32]);
    let mut state = AppState::default();
    install_consent_request("alice".to_string(), "n-1".to_string(), &mut state);
    let check = |user: &str, nonce: &str, key: &SigningKey, public: &str, state: &AppState| {
        verify_user_consent_registered(
            user.to_string(),
            nonce.to_string(),
            sign_text(key, nonce),
            public.to_string(),
            state,
            &directory,
        )
        .map_err(|e| (e.kind, e.detail))
    };
    assert_eq!(check("alice", "n-1", &alice, &profile.pubkey_b64, &state), Ok(true));
    let forged = STANDARD.encode(mallory.verifying_key().to_bytes());
    assert_eq!(
        check("alice", "n-1", &mallory, &forged, &state),
        Err((ErrorKind::Auth, "public key mismatch".to_string()))
    );
    assert_eq!(
        check("alice", "n-1", &mallory, &profile.pubkey_b64, &state),
        Err((ErrorKind::Auth, "signature rejected".to_string()))
    );
    assert_eq!(
        check("alice", "n-2", &alice, &profile.pubkey_b64, &state),
        Err((ErrorKind::Protocol, "nonce mismatch".to_string()))
    );
    assert_eq!(
        check("alice", "n-1", &alice, "@@", &state),
        Err((ErrorKind::Format, "pk encoding".to_string()))
    );
    install_consent_request("bob".to_string(), "n-3".to_string(), &mut state);
    assert_eq!(
        check("bob", "n-3", &mallory, &forged, &state),
        Err((ErrorKind::NotFound, "unknown identity".to_string()))
    );
    let _ = IdentityRecord {
        user_id: String::new(),
        display_name: String::new(),
        verifying_key: [0u8; 32],
        encrypted_key: Vec::new(),
    };
}
