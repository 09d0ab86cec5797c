use promptpilot_core::error::ErrorKind;
use promptpilot_core::hex::to_hex;
use promptpilot_core::logs::{
    append_event, chain_hash, get_admin_log_head, get_recent_logs, head_hash, verify_chain,
    AuditLedger, ChainReport, LogEntry, GENESIS, MAX_RECENT,
};
use sha2::{Digest, Sha256};

fn ledger_of(events: &[&str]) -> AuditLedger {
    let mut ledger = AuditLedger::new();
    for (i, event) in events.iter().enumerate() {
        append_event(event.to_string(), format!("t{}", i), &mut ledger).unwrap();
    }
    ledger
}

fn stored(ledger: &AuditLedger) -> Vec<LogEntry> {
    ledger.entries().clone()
}

#[test]
fn hex_is_lower_case_two_digits_a_byte() {
    assert_eq!(to_hex(&[]), "");
    assert_eq!(to_hex(&[0x00, 0x0a, 0xab, 0xff, 0x10, 0x99]), "000aabff1099");
}

#[test]
fn chain_hash_is_sha256_of_prev_then_event() {
    assert_eq!(
        chain_hash("GENESIS", "login"),
        "df2f7dca97e8c04584bd4976fd9eb2d84567d43ab4599a8790bcc40c733c563e"
    );
    assert_eq!(
        chain_hash("GENESIS", "héllo"),
        "649c24f3a05df4661e98a343430dbe5f41df2097aafbccd8bd24b851c118e2ec"
    );
    let mut hasher = Sha256::new();
    hasher.update("abc".as_bytes());
    hasher.update("def".as_bytes());
    let digest = hasher.finalize();
    let expected: String = digest.iter().map(|b| format!("{:02x}", b)).collect();
    assert_eq!(chain_hash("abc", "def"), expected);
    assert_eq!(chain_hash("ab", "cdef"), expected);
    assert_ne!(chain_hash("abc", "deg"), expected);
}

#[test]
fn empty_ledger_has_the_sentinel_as_head() {
    let ledger = AuditLedger::new();
    assert_eq!(GENESIS, "GENESIS");
    assert_eq!(get_admin_log_head(&ledger).unwrap(), "GENESIS");
    assert_eq!(head_hash(&ledger), None);
    assert_eq!(ledger.len(), 0);
    assert!(get_recent_logs(10, &ledger).unwrap().is_empty());
}

#[test]
fn first_entry_names_the_sentinel() {
    let mut ledger = AuditLedger::new();
    let hash = append_event("login".to_string(), "2024-01-01 00:00:00".to_string(), &mut ledger)
        .unwrap();
    assert_eq!(hash, "df2f7dca97e8c04584bd4976fd9eb2d84567d43ab4599a8790bcc40c733c563e");
    let entries = ledger.entries();
    assert_eq!(entries.len(), 1);
    assert_eq!(entries[0].id, 1);
    assert_eq!(entries[0].ts, "2024-01-01 00:00:00");
    assert_eq!(entries[0].event, "login");
    assert_eq!(entries[0].hash_prev, "GENESIS");
    assert_eq!(entries[0].hash_curr, hash);
    assert_eq!(get_admin_log_head(&ledger).unwrap(), hash);
    assert_eq!(head_hash(&ledger), Some(hash));
}

#[test]
fn each_entry_names_the_hash_before_it() {
    let mut ledger = AuditLedger::new();
    let first = append_event("login".to_string(), "t0".to_string(), &mut ledger).unwrap();
    let second = append_event("logout".to_string(), "t1".to_string(), &mut ledger).unwrap();
    assert_eq!(second, "c37a761ca90d1568b43b4f67bf9d32023aed250f5894bd6416310576611f5f5f");
    let entries = ledger.entries();
    assert_eq!(entries[1].id, 2);
    assert_eq!(entries[1].hash_prev, first);
    assert_eq!(entries[1].hash_curr, second);
    assert_eq!(get_admin_log_head(&ledger).unwrap(), second);
}

#[test]
fn any_sequence_of_appends_verifies() {
    let sequences: [&[&str]; 4] = [
        &[],
        &["one"],
        &["a", "a", "a"],
        &["admin.unlock ok", "consent.request alice", "", "ünïcödé", "consent.verify alice"],
    ];
    for events in sequences.iter() {
        let ledger = ledger_of(events);
        assert_eq!(ledger.len(), events.len());
        let report = verify_chain(ledger.entries());
        assert_eq!(report, ChainReport { valid: true, broken_at: None });
        for (i, entry) in ledger.entries().iter().enumerate() {
            assert_eq!(entry.id, i as i64 + 1);
            assert_eq!(entry.event, events[i]);
        }
    }
}

#[test]
fn changed_event_is_found_at_its_entry() {
    let ledger = ledger_of(&["a", "b", "c", "d"]);
    for position in 0..4usize {
        let mut entries = stored(&ledger);
        entries[position].event = "forged".to_string();
        let report = verify_chain(&entries);
        assert!(!report.valid);
        assert_eq!(report.broken_at, Some(position as i64 + 1));
    }
}

#[test]
fn changed_predecessor_hash_is_found_at_its_entry() {
    let ledger = ledger_of(&["a", "b", "c", "d"]);
    for position in 0..4usize {
        let mut entries = stored(&ledger);
        entries[position].hash_prev = chain_hash("x", "y");
        let report = verify_chain(&entries);
        assert_eq!(report, ChainReport { valid: false, broken_at: Some(position as i64 + 1) });
    }
    let mut entries = stored(&ledger);
    entries[0].hash_prev = String::new();
    assert_eq!(verify_chain(&entries).broken_at, Some(1));
}

#[test]
fn changed_hash_is_found_at_its_entry() {
    let ledger = ledger_of(&["a", "b", "c"]);
    let mut entries = stored(&ledger);
    entries[1].hash_curr = chain_hash("x", "y");
    assert_eq!(verify_chain(&entries), ChainReport { valid: false, broken_at: Some(2) });
}

#[test]
fn removed_entry_is_found_at_the_one_after_it() {
    let ledger = ledger_of(&["a", "b", "c"]);
    let mut entries = stored(&ledger);
    entries.remove(1);
    assert_eq!(verify_chain(&entries), ChainReport { valid: false, broken_at: Some(3) });
    let mut entries = stored(&ledger);
    entries.remove(0);
    assert_eq!(verify_chain(&entries), ChainReport { valid: false, broken_at: Some(2) });
}

#[test]
fn first_of_two_changes_is_reported() {
    let ledger = ledger_of(&["a", "b", "c", "d"]);
    let mut entries = stored(&ledger);
    entries[3].event = "x".to_string();
    entries[1].event = "y".to_string();
    assert_eq!(verify_chain(&entries).broken_at, Some(2));
}

#[test]
fn recent_entries_come_newest_first() {
    let ledger = ledger_of(&["a", "b", "c", "d", "e"]);
    let recent = get_recent_logs(3, &ledger).unwrap();
    let events: Vec<&str> = recent.iter().map(|e| e.event.as_str()).collect();
    assert_eq!(events, vec!["e", "d", "c"]);
    let ids: Vec<i64> = recent.iter().map(|e| e.id).collect();
    assert_eq!(ids, vec![5, 4, 3]);
    assert_eq!(recent[0].hash_prev, recent[1].hash_curr);
    assert_eq!(recent[0].ts, "t4");
    assert_eq!(get_recent_logs(0, &ledger).unwrap().len(), 0);
    assert_eq!(get_recent_logs(5, &ledger).unwrap().len(), 5);
    assert_eq!(get_recent_logs(6, &ledger).unwrap().len(), 5);
}

#[test]
fn recent_entries_are_capped_at_one_hundred() {
    assert_eq!(MAX_RECENT, 100);
    let mut ledger = AuditLedger::new();
    for i in 0..150 {
        append_event(format!("event {}", i), String::new(), &mut ledger).unwrap();
    }
    assert_eq!(get_recent_logs(99, &ledger).unwrap().len(), 99);
    assert_eq!(get_recent_logs(100, &ledger).unwrap().len(), 100);
    assert_eq!(get_recent_logs(101, &ledger).unwrap().len(), 100);
    let all = get_recent_logs(u32::MAX, &ledger).unwrap();
    assert_eq!(all.len(), 100);
    assert_eq!(all[0].event, "event 149");
    assert_eq!(all[99].event, "event 50");
}

#[test]
fn restore_accepts_an_intact_chain_and_goes_on_from_it() {
    let ledger = ledger_of(&["a", "b", "c"]);
    let mut restored = AuditLedger::restore(stored(&ledger)).unwrap();
    assert_eq!(restored.len(), 3);
    assert_eq!(
        get_admin_log_head(&restored).unwrap(),
        get_admin_log_head(&ledger).unwrap()
    );
    let head = get_admin_log_head(&restored).unwrap();
    append_event("d".to_string(), "t".to_string(), &mut restored).unwrap();
    assert_eq!(restored.entries()[3].id, 4);
    assert_eq!(restored.entries()[3].hash_prev, head);
    assert!(verify_chain(restored.entries()).valid);
    assert_eq!(AuditLedger::restore(Vec::new()).unwrap().len(), 0);
}

#[test]
fn restore_keeps_gaps_in_the_identifiers() {
    let ledger = ledger_of(&["a", "b"]);
    let mut entries = stored(&ledger);
    entries[0].id = 10;
    entries[1].id = 20;
    let mut restored = AuditLedger::restore(entries).unwrap();
    append_event("c".to_string(), "t".to_string(), &mut restored).unwrap();
    assert_eq!(restored.entries()[2].id, 21);
}

#[test]
fn restore_refuses_a_broken_chain() {
    let ledger = ledger_of(&["a", "b", "c"]);
    let mut entries = stored(&ledger);
    entries[1].event = "forged".to_string();
    let err = AuditLedger::restore(entries).unwrap_err();
    assert_eq!(err.kind, ErrorKind::Storage);
    assert_eq!(err.detail, "audit chain is broken");
}

#[test]
fn restore_refuses_identifiers_that_do_not_increase() {
    let ledger = ledger_of(&["a", "b", "c"]);
    let mut entries = stored(&ledger);
    entries[2].id = 2;
    assert!(verify_chain(&entries).valid);
    let err = AuditLedger::restore(entries).unwrap_err();
    assert_eq!(err.kind, ErrorKind::Storage);
    let mut entries = stored(&ledger);
    entries[0].id = 5;
    assert_eq!(AuditLedger::restore(entries).unwrap_err().kind, ErrorKind::Storage);
}

#[test]
fn append_fails_when_no_identifier_is_left() {
    let ledger = ledger_of(&["a"]);
    let mut entries = stored(&ledger);
    entries[0].id = i64::MAX;
    let mut full = AuditLedger::restore(entries).unwrap();
    let head = get_admin_log_head(&full).unwrap();
    let err = append_event("b".to_string(), "t".to_string(), &mut full).unwrap_err();
    assert_eq!(err.kind, ErrorKind::Storage);
    assert_eq!(err.detail, "audit ledger is full");
    assert_eq!(full.len(), 1);
    assert_eq!(get_admin_log_head(&full).unwrap(), head);
}

#[test]
fn no_hash_is_the_sentinel() {
    for (prev, event) in [("", ""), ("GENESIS", ""), ("GENESIS", "GENESIS")].iter() {
        let hash = chain_hash(prev, event);
        assert_eq!(hash.len(), 64);
        assert_ne!(hash, GENESIS);
        assert!(hash.chars().all(|c| c.is_ascii_digit() || ('a'..='f').contains(&c)));
    }
}
