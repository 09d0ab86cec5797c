use promptpilot_core::bytes::{bytes_eq, text_eq, to_array};
use promptpilot_core::error::{ErrorKind, TrustError};
use promptpilot_core::pem::payload;
use promptpilot_core::policy::{policy_check, Capability};
use promptpilot_core::rag::chunk_text;
use promptpilot_core::security::{data_dir, db_path, load_config, AppState};
use promptpilot_core::ui::{
    cached_answer_style, check_answer_style, get_answer_style, set_answer_style,
};

#[test]
fn state_starts_locked_and_empty() {
    let state = AppState::default();
    assert!(!state.admin_unlocked);
    assert_eq!(state.admin_nonce, None);
    assert_eq!(state.pending_user_consent, None);
    assert_eq!(state.answer_style, "");
}

#[test]
fn paths_are_joined_with_a_slash() {
    assert_eq!(db_path("/home/u/.local/share/promptpilot", "profiles.db"), "/home/u/.local/share/promptpilot/profiles.db");
    assert_eq!(db_path("a", "b/c"), "a/b/c");
    assert_eq!(db_path("", ""), "/");
    assert_eq!(data_dir("/home/u/.local/share"), "/home/u/.local/share/promptpilot");
}

#[test]
fn configuration_loads() {
    assert!(load_config().is_ok());
}

#[test]
fn error_message_names_kind_and_detail() {
    let kinds = [
        (ErrorKind::Config, "ConfigError"),
        (ErrorKind::Credential, "CredentialError"),
        (ErrorKind::Protocol, "ProtocolError"),
        (ErrorKind::Auth, "AuthError"),
        (ErrorKind::Storage, "StorageError"),
        (ErrorKind::Format, "FormatError"),
        (ErrorKind::NotFound, "NotFoundError"),
    ];
    for (kind, name) in kinds.iter() {
        let e = TrustError::new(*kind, "what happened");
        assert_eq!(e.kind, *kind);
        assert_eq!(e.detail, "what happened");
        assert_eq!(e.kind_name(), *name);
        assert_eq!(e.message(), format!("{}: what happened", name));
        let copy = e.clone();
        assert_eq!(copy.kind, e.kind);
        assert_eq!(copy.detail, e.detail);
    }
}

#[test]
fn listed_capabilities_are_allowed() {
    let names = [
        "admin.unlock",
        "admin.view_logs",
        "user.create_profile",
        "user.unlock_profile",
        "consent.request",
        "consent.verify",
        "logs.append",
        "logs.read",
        "settings.write",
    ];
    for name in names.iter() {
        assert_eq!(policy_check(name.to_string()).unwrap(), true);
        let capability = Capability::parse(name).unwrap();
        assert_eq!(capability.name(), *name);
    }
    assert_eq!(Capability::parse("logs.read"), Some(Capability::LogsRead));
    assert_eq!(Capability::AdminViewLogs.name(), "admin.view_logs");
}

#[test]
fn other_capabilities_are_not_allowed() {
    for name in ["", "admin", "admin.unlock ", "Admin.unlock", "logs.delete", "settings.read"].iter() {
        assert_eq!(policy_check(name.to_string()).unwrap(), false);
        assert_eq!(Capability::parse(name), None);
    }
}

#[test]
fn answer_style_must_be_a_known_one() {
    for style in ["STAR", "QUANT", "HYBRID"].iter() {
        assert!(check_answer_style(style).is_ok());
        let mut state = AppState::default();
        set_answer_style(style.to_string(), &mut state).unwrap();
        assert_eq!(state.answer_style, *style);
    }
    for style in ["", "star", "STAR ", "OTHER"].iter() {
        let mut state = AppState::default();
        state.answer_style = "QUANT".to_string();
        let err = set_answer_style(style.to_string(), &mut state).unwrap_err();
        assert_eq!(err.kind, ErrorKind::Format);
        assert_eq!(err.detail, format!("Unknown style: {}", style));
        assert_eq!(state.answer_style, "QUANT");
    }
}

#[test]
fn answer_style_comes_from_cache_then_store_then_default() {
    let mut state = AppState::default();
    assert_eq!(cached_answer_style(&state), None);
    assert_eq!(get_answer_style(None, &mut state).unwrap(), "STAR");
    assert_eq!(state.answer_style, "STAR");
    assert_eq!(cached_answer_style(&state), Some("STAR".to_string()));
    assert_eq!(get_answer_style(Some("QUANT".to_string()), &mut state).unwrap(), "STAR");
    let mut state = AppState::default();
    assert_eq!(get_answer_style(Some("HYBRID".to_string()), &mut state).unwrap(), "HYBRID");
    assert_eq!(state.answer_style, "HYBRID");
    assert_eq!(get_answer_style(None, &mut state).unwrap(), "HYBRID");
}

#[test]
fn text_is_chunked_with_overlap() {
    assert_eq!(chunk_text("abcdefghij", 4, 1), vec!["abcd", "defg", "ghij"]);
    assert_eq!(chunk_text("abcdefghijk", 4, 1), vec!["abcd", "defg", "ghij", "jk"]);
    assert_eq!(chunk_text("abcdefgh", 4, 0), vec!["abcd", "efgh"]);
    assert_eq!(chunk_text("abcdefghi", 4, 0), vec!["abcd", "efgh", "i"]);
    assert_eq!(chunk_text("abcde", 3, 2), vec!["abc", "bcd", "cde"]);
    assert_eq!(chunk_text("äöüß€", 2, 1), vec!["äö", "öü", "üß", "ß€"]);
}

#[test]
fn short_text_is_one_chunk_and_empty_text_is_none() {
    assert_eq!(chunk_text("", 500, 80).len(), 0);
    assert_eq!(chunk_text("abc", 500, 80), vec!["abc"]);
    assert_eq!(chunk_text("abcd", 4, 3), vec!["abcd"]);
    let text: String = std::iter::repeat('x').take(1000).collect();
    let chunks = chunk_text(&text, 500, 80);
    assert_eq!(chunks.iter().map(|c| c.len()).collect::<Vec<_>>(), vec![500, 500, 160]);
}

#[test]
fn pem_payload_drops_armor_and_line_ends() {
    assert_eq!(payload(b""), b"");
    assert_eq!(payload(b"abc"), b"abc");
    assert_eq!(payload(b"-----BEGIN X-----\nabc\ndef\n-----END X-----\n"), b"abcdef");
    assert_eq!(payload(b"-----BEGIN X-----\r\nabc\r\ndef\r\n-----END X-----"), b"abcdef");
    assert_eq!(payload(b"----\nab\n\ncd"), b"----abcd");
    assert_eq!(payload(b"ab\r"), b"ab\r");
    assert_eq!(payload(b"a\rb\n"), b"a\rb");
    assert_eq!(payload(b"\n\n-----\n"), b"");
    assert_eq!(payload(b" -----x\n"), b" -----x");
}

#[test]
fn arrays_are_taken_from_slices_of_their_length() {
    assert_eq!(to_array::<4>(&[1, 2, 3, 4]), Some([1, 2, 3, 4]));
    assert_eq!(to_array::<4>(&[1, 2, 3]), None);
    assert_eq!(to_array::<4>(&[1, 2, 3, 4, 5]), None);
    assert_eq!(to_array::<0>(&[]), Some([]));
    assert!(text_eq("", ""));
    assert!(text_eq("héllo", "héllo"));
    assert!(!text_eq("hello", "hellp"));
    assert!(!text_eq("hello", "hell"));
    assert!(bytes_eq(&[], &[]));
    assert!(bytes_eq(&[1, 2, 3], &[1, 2, 3]));
    assert!(!bytes_eq(&[1, 2, 3], &[1, 2, 4]));
    assert!(!bytes_eq(&[1, 2, 3], &[1, 2]));
}
