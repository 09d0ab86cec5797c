//! The audit ledger: an append-only chain of events in which every entry
//! commits to its predecessor by a hash.

use crate::error::{ErrorKind, TrustError, TrustErrorView};
use crate::hex::{hex_text, lemma_hex_text_is_injective, lemma_hex_text_shape, to_hex};
use crate::primitives::{sha256, sha256_digest};
use crate::text::{capped, capped_at};
use vstd::prelude::*;
use vstd::utf8::encode_utf8;

verus! {

/// What the first entry of a chain names as its predecessor. No hash ever
/// equals it.
pub const GENESIS: &'static str = "GENESIS";

/// The most entries that one read of the ledger returns.
pub const MAX_RECENT: u32 = 100;

/// One entry of the ledger, as it is stored.
#[derive(Debug)]
pub struct LogEntry {
    pub id: i64,
    pub ts: String,
    pub event: String,
    pub hash_prev: String,
    pub hash_curr: String,
}

/// Mathematical value of a `LogEntry`.
pub struct LogEntryView {
    pub id: int,
    pub ts: Seq<char>,
    pub event: Seq<char>,
    pub hash_prev: Seq<char>,
    pub hash_curr: Seq<char>,
}

impl View for LogEntry {
    type V = LogEntryView;

    open spec fn view(&self) -> LogEntryView {
        LogEntryView {
            id: self.id as int,
            ts: self.ts@,
            event: self.event@,
            hash_prev: self.hash_prev@,
            hash_curr: self.hash_curr@,
        }
    }
}

impl Clone for LogEntry {
    fn clone(&self) -> (copy: Self)
        ensures
            copy@ == self@,
    {
        LogEntry {
            id: self.id,
            ts: self.ts.clone(),
            event: self.event.clone(),
            hash_prev: self.hash_prev.clone(),
            hash_curr: self.hash_curr.clone(),
        }
    }
}

/// The values of a sequence of stored entries.
pub open spec fn log_view(entries: Seq<LogEntry>) -> Seq<LogEntryView> {
    Seq::new(entries.len(), |i: int| entries[i]@)
}

/// The hash that links an entry to its predecessor: the hexadecimal text
/// of the SHA-256 digest of the predecessor's hash followed by the event,
/// both as UTF-8.
pub open spec fn link_hash(prev: Seq<char>, event: Seq<char>) -> Seq<char> {
    hex_text(sha256(encode_utf8(prev) + encode_utf8(event)))
}

/// The predecessor hash that entry `i` has to name: the sentinel for the
/// first entry, the hash of the entry before it otherwise.
pub open spec fn expected_prev(entries: Seq<LogEntryView>, i: int) -> Seq<char> {
    if i == 0 {
        GENESIS@
    } else {
        entries[i - 1].hash_curr
    }
}

/// Whether entry `i` names the right predecessor and carries the hash of
/// its own content.
pub open spec fn entry_intact(entries: Seq<LogEntryView>, i: int) -> bool {
    &&& entries[i].hash_prev == expected_prev(entries, i)
    &&& entries[i].hash_curr == link_hash(entries[i].hash_prev, entries[i].event)
}

/// Whether every entry of the chain is intact.
pub open spec fn chain_intact(entries: Seq<LogEntryView>) -> bool {
    forall|i: int| 0 <= i < entries.len() ==> entry_intact(entries, i)
}

/// Whether entry `i` is the first one that is not intact.
pub open spec fn is_first_broken(entries: Seq<LogEntryView>, i: int) -> bool {
    &&& 0 <= i < entries.len()
    &&& !entry_intact(entries, i)
    &&& forall|j: int| 0 <= j < i ==> entry_intact(entries, j)
}

/// The position of the first entry that is not intact, if there is one.
pub open spec fn first_broken(entries: Seq<LogEntryView>) -> Option<int> {
    if chain_intact(entries) {
        None
    } else {
        Some(choose|i: int| is_first_broken(entries, i))
    }
}

/// What a check of the chain reports: that the chain is valid, or the
/// identifier of the first entry that is not intact.
pub open spec fn report_of(entries: Seq<LogEntryView>) -> (bool, Option<int>) {
    match first_broken(entries) {
        None => (true, None),
        Some(i) => (false, Some(entries[i].id)),
    }
}

/// Whether every entry has a larger identifier than the one before it.
pub open spec fn ids_increasing(entries: Seq<LogEntryView>) -> bool {
    forall|i: int| 0 < i < entries.len() ==> entries[i - 1].id < (#[trigger] entries[i]).id
}

/// The head of the chain: the hash of the last entry, or the sentinel when
/// there is none.
pub open spec fn head_of(entries: Seq<LogEntryView>) -> Seq<char> {
    if entries.len() == 0 {
        GENESIS@
    } else {
        entries.last().hash_curr
    }
}

/// The entry that appending `event` at time `ts` adds to `entries`.
pub open spec fn next_entry(
    entries: Seq<LogEntryView>,
    event: Seq<char>,
    ts: Seq<char>,
) -> LogEntryView {
    LogEntryView {
        id: if entries.len() == 0 {
            1
        } else {
            entries.last().id + 1
        },
        ts,
        event,
        hash_prev: head_of(entries),
        hash_curr: link_hash(head_of(entries), event),
    }
}

/// How many entries a read with the given limit returns from a ledger of
/// `len` entries.
pub open spec fn recent_count(len: nat, limit: u32) -> nat {
    let granted = capped_at(limit, MAX_RECENT) as nat;
    if granted <= len {
        granted
    } else {
        len
    }
}

/// The newest entries of the ledger, newest first, as a read with the
/// given limit returns them.
pub open spec fn recent_of(entries: Seq<LogEntryView>, limit: u32) -> Seq<LogEntryView> {
    Seq::new(recent_count(entries.len(), limit), |i: int| entries[entries.len() - 1 - i])
}

/// The outcome of checking a chain.
#[derive(Clone, Copy, Debug, PartialEq, Eq, Structural)]
pub struct ChainReport {
    /// Whether every entry is intact.
    pub valid: bool,
    /// The identifier of the first entry that is not.
    pub broken_at: Option<i64>,
}

/// The ledger is full: the last identifier cannot be followed by another.
pub open spec fn ledger_full_error() -> TrustErrorView {
    TrustErrorView { kind: ErrorKind::Storage, detail: "audit ledger is full"@ }
}

/// The stored entries do not form an intact chain with increasing
/// identifiers.
pub open spec fn ledger_broken_error() -> TrustErrorView {
    TrustErrorView { kind: ErrorKind::Storage, detail: "audit chain is broken"@ }
}

/// The audit ledger. Its chain is intact and its identifiers increase,
/// whatever sequence of operations built it.
#[derive(Debug)]
pub struct AuditLedger {
    entries: Vec<LogEntry>,
}

impl View for AuditLedger {
    type V = Seq<LogEntryView>;

    closed spec fn view(&self) -> Seq<LogEntryView> {
        log_view(self.entries@)
    }
}

impl AuditLedger {
    #[verifier::type_invariant]
    spec fn well_formed(&self) -> bool {
        &&& chain_intact(log_view(self.entries@))
        &&& ids_increasing(log_view(self.entries@))
    }

    /// The empty ledger.
    pub fn new() -> (ledger: AuditLedger)
        ensures
            ledger@ == Seq::<LogEntryView>::empty(),
    {
        let ledger = AuditLedger { entries: Vec::new() };
        ledger
    }

    /// Takes over entries read from storage, oldest first, after checking
    /// that they form an intact chain with increasing identifiers.
    pub fn restore(entries: Vec<LogEntry>) -> (restored: Result<AuditLedger, TrustError>)
        ensures
            match restored {
                Ok(ledger) => {
                    &&& ledger@ == log_view(entries@)
                    &&& chain_intact(log_view(entries@))
                    &&& ids_increasing(log_view(entries@))
                },
                Err(e) => {
                    &&& !(chain_intact(log_view(entries@)) && ids_increasing(log_view(entries@)))
                    &&& e@ == ledger_broken_error()
                },
            },
    {
        let report = verify_chain(&entries);
        if !report.valid {
            return Err(TrustError::new(ErrorKind::Storage, "audit chain is broken"));
        }
        let mut i: usize = 1;
        while i < entries.len()
            invariant
                1 <= i,
                forall|j: int|
                    0 < j < i && j < entries@.len() ==> log_view(entries@)[j - 1].id < (
                    #[trigger] log_view(entries@)[j]).id,
            decreases entries@.len() - i,
        {
            if entries[i - 1].id >= entries[i].id {
                assert(!(log_view(entries@)[i - 1].id < log_view(entries@)[i as int].id));
                return Err(TrustError::new(ErrorKind::Storage, "audit chain is broken"));
            }
            i += 1;
        }
        Ok(AuditLedger { entries })
    }

    /// The entries of the ledger, oldest first.
    pub fn entries(&self) -> (entries: &Vec<LogEntry>)
        ensures
            log_view(entries@) == self@,
            chain_intact(self@),
            ids_increasing(self@),
    {
        proof {
            use_type_invariant(self);
        }
        &self.entries
    }

    /// The number of entries.
    pub fn len(&self) -> (len: usize)
        ensures
            len == self@.len(),
    {
        self.entries.len()
    }
}

/// Computes the hash that links an entry with the given event to the
/// predecessor hash `prev`.
pub fn chain_hash(prev: &str, event: &str) -> (hash: String)
    ensures
        hash@ == link_hash(prev@, event@),
{
    let mut data: Vec<u8> = Vec::new();
    data.extend_from_slice(prev.as_bytes());
    data.extend_from_slice(event.as_bytes());
    assert(data@ =~= encode_utf8(prev@) + encode_utf8(event@));
    let digest = sha256_digest(data.as_slice());
    to_hex(digest.as_slice())
}

/// The hash of the last entry, if there is one.
pub fn head_hash(ledger: &AuditLedger) -> (head: Option<String>)
    ensures
        match head {
            Some(hash) => ledger@.len() > 0 && hash@ == ledger@.last().hash_curr,
            None => ledger@.len() == 0,
        },
{
    let count = ledger.entries.len();
    if count == 0 {
        None
    } else {
        Some(ledger.entries[count - 1].hash_curr.clone())
    }
}

/// The head of the chain: the hash of the last entry, or the sentinel for
/// an empty ledger.
pub fn get_admin_log_head(ledger: &AuditLedger) -> (head: Result<String, TrustError>)
    ensures
        head matches Ok(hash) && hash@ == head_of(ledger@),
{
    match head_hash(ledger) {
        Some(hash) => Ok(hash),
        None => Ok(GENESIS.to_owned()),
    }
}

/// Appends `event`, recorded at time `ts`, to the ledger and returns the
/// new head. The new entry names the old head as its predecessor and gets
/// the identifier after the last one. Reading the head and adding the
/// entry are one step, for the ledger is borrowed exclusively. Fails,
/// leaving the ledger as it was, only when no identifier is left.
pub fn append_event(event: String, ts: String, ledger: &mut AuditLedger) -> (appended: Result<
    String,
    TrustError,
>)
    ensures
        match appended {
            Ok(hash) => {
                &&& old(ledger)@.len() > 0 ==> old(ledger)@.last().id < i64::MAX
                &&& final(ledger)@ == old(ledger)@.push(next_entry(old(ledger)@, event@, ts@))
                &&& hash@ == link_hash(head_of(old(ledger)@), event@)
            },
            Err(e) => {
                &&& old(ledger)@.len() > 0 && old(ledger)@.last().id == i64::MAX
                &&& final(ledger)@ == old(ledger)@
                &&& e@ == ledger_full_error()
            },
        },
{
    proof {
        use_type_invariant(&*ledger);
    }
    let count = ledger.entries.len();
    let id: i64 = if count == 0 {
        1
    } else {
        let last = ledger.entries[count - 1].id;
        if last == i64::MAX {
            return Err(TrustError::new(ErrorKind::Storage, "audit ledger is full"));
        }
        last + 1
    };
    let prev = match head_hash(ledger) {
        Some(hash) => hash,
        None => GENESIS.to_owned(),
    };
    let curr = chain_hash(prev.as_str(), event.as_str());
    let head = curr.clone();
    let entry = LogEntry { id, ts, event, hash_prev: prev, hash_curr: curr };
    let mut entries: Vec<LogEntry> = Vec::new();
    core::mem::swap(&mut ledger.entries, &mut entries);
    proof {
        let before = log_view(entries@);
        let after = log_view(entries@.push(entry));
        assert(after =~= before.push(entry@));
        lemma_append_keeps_chain(before, event@, ts@);
    }
    entries.push(entry);
    core::mem::swap(&mut ledger.entries, &mut entries);
    Ok(head)
}

/// The newest entries of the ledger, newest first: as many as `limit`
/// asks for, but no more than `MAX_RECENT`.
pub fn get_recent_logs(limit: u32, ledger: &AuditLedger) -> (recent: Result<
    Vec<LogEntry>,
    TrustError,
>)
    ensures
        recent matches Ok(entries) && log_view(entries@) == recent_of(ledger@, limit)
            && entries@.len() == recent_count(ledger@.len(), limit),
{
    let safe_limit: u32 = capped(limit, MAX_RECENT);
    let count = ledger.entries.len();
    let wanted: usize = if (safe_limit as usize) <= count {
        safe_limit as usize
    } else {
        count
    };
    let mut entries: Vec<LogEntry> = Vec::new();
    let mut i: usize = 0;
    while i < wanted
        invariant
            i <= wanted <= count,
            count == ledger.entries@.len(),
            wanted == recent_count(ledger@.len(), limit),
            entries@.len() == i,
            forall|j: int| 0 <= j < i ==> entries@[j]@ == ledger@[count - 1 - j],
        decreases wanted - i,
    {
        entries.push(ledger.entries[count - 1 - i].clone());
        i += 1;
    }
    Ok(entries)
}

/// Checks a chain of stored entries, oldest first: each entry must name
/// the hash of the entry before it (the first one the sentinel) and carry
/// the hash recomputed from its predecessor hash and its event. Reports
/// the identifier of the first entry that does not.
pub fn verify_chain(entries: &Vec<LogEntry>) -> (report: ChainReport)
    ensures
        report.valid == chain_intact(log_view(entries@)),
        report.valid == report_of(log_view(entries@)).0,
        match report.broken_at {
            Some(id) => report_of(log_view(entries@)).1 == Some(id as int),
            None => report_of(log_view(entries@)).1 is None,
        },
{
    let ghost chain = log_view(entries@);
    let mut expected = GENESIS.to_owned();
    let mut i: usize = 0;
    while i < entries.len()
        invariant
            i <= entries@.len(),
            chain == log_view(entries@),
            forall|j: int| 0 <= j < i ==> entry_intact(chain, j),
            expected@ == expected_prev(chain, i as int),
        decreases entries@.len() - i,
    {
        let entry = &entries[i];
        let recomputed = chain_hash(entry.hash_prev.as_str(), entry.event.as_str());
        if !(entry.hash_prev == expected) || !(entry.hash_curr == recomputed) {
            proof {
                lemma_first_broken(chain, i as int);
            }
            return ChainReport { valid: false, broken_at: Some(entry.id) };
        }
        expected = entry.hash_curr.clone();
        i += 1;
    }
    ChainReport { valid: true, broken_at: None }
}

/// Appending keeps an intact chain intact and its identifiers increasing.
pub proof fn lemma_append_keeps_chain(entries: Seq<LogEntryView>, event: Seq<char>, ts: Seq<char>)
    requires
        chain_intact(entries),
    ensures
        chain_intact(entries.push(next_entry(entries, event, ts))),
        ids_increasing(entries) ==> ids_increasing(entries.push(next_entry(entries, event, ts))),
{
    let after = entries.push(next_entry(entries, event, ts));
    assert forall|i: int| 0 <= i < after.len() implies entry_intact(after, i) by {
        if i < entries.len() {
            assert(entry_intact(entries, i));
        }
    }
}

/// The ledger that a sequence of appends builds from the empty one. Each
/// element is an event with the time it was recorded at.
pub open spec fn ledger_after(appends: Seq<(Seq<char>, Seq<char>)>) -> Seq<LogEntryView>
    decreases appends.len(),
{
    if appends.len() == 0 {
        Seq::empty()
    } else {
        let before = ledger_after(appends.drop_last());
        before.push(next_entry(before, appends.last().0, appends.last().1))
    }
}

/// Whatever is appended, and in whatever order, the resulting chain is
/// intact, its identifiers increase, and it holds one entry for each
/// append.
pub proof fn lemma_appends_build_intact_chain(appends: Seq<(Seq<char>, Seq<char>)>)
    ensures
        chain_intact(ledger_after(appends)),
        report_of(ledger_after(appends)) == (true, None::<int>),
        ids_increasing(ledger_after(appends)),
        ledger_after(appends).len() == appends.len(),
    decreases appends.len(),
{
    if appends.len() > 0 {
        lemma_appends_build_intact_chain(appends.drop_last());
        lemma_append_keeps_chain(
            ledger_after(appends.drop_last()),
            appends.last().0,
            appends.last().1,
        );
    }
}

/// The head of the empty ledger is the sentinel, and the first entry that
/// is appended names the sentinel as its predecessor.
pub proof fn lemma_chain_starts_at_genesis(event: Seq<char>, ts: Seq<char>)
    ensures
        head_of(Seq::<LogEntryView>::empty()) == GENESIS@,
        next_entry(Seq::<LogEntryView>::empty(), event, ts).hash_prev == GENESIS@,
        next_entry(Seq::<LogEntryView>::empty(), event, ts).id == 1,
{
}

/// No link hash equals the sentinel: a hash has an even number of
/// characters, the sentinel has seven.
pub proof fn lemma_genesis_is_no_hash(prev: Seq<char>, event: Seq<char>)
    ensures
        link_hash(prev, event) != GENESIS@,
{
    reveal_strlit("GENESIS");
    lemma_hex_text_shape(sha256(encode_utf8(prev) + encode_utf8(event)));
}

/// A chain has one first broken entry at most.
pub proof fn lemma_first_broken_is_unique(entries: Seq<LogEntryView>, i: int, j: int)
    requires
        is_first_broken(entries, i),
        is_first_broken(entries, j),
    ensures
        i == j,
{
}

/// Where entry `i` is the first broken one, it is what a check finds.
pub proof fn lemma_first_broken(entries: Seq<LogEntryView>, i: int)
    requires
        is_first_broken(entries, i),
    ensures
        !chain_intact(entries),
        first_broken(entries) == Some(i),
        report_of(entries) == (false, Some(entries[i].id)),
{
    let found = choose|k: int| is_first_broken(entries, k);
    lemma_first_broken_is_unique(entries, i, found);
}

/// Replacing the stored event of entry `i` of an intact chain breaks the
/// chain at entry `i` and at none before it, unless the entry's content
/// with the replacement has the very SHA-256 digest that it had before.
pub proof fn lemma_changed_event_breaks_chain(
    entries: Seq<LogEntryView>,
    i: int,
    event: Seq<char>,
)
    requires
        chain_intact(entries),
        0 <= i < entries.len(),
        sha256(encode_utf8(entries[i].hash_prev) + encode_utf8(event)) != sha256(
            encode_utf8(entries[i].hash_prev) + encode_utf8(entries[i].event),
        ),
    ensures
        report_of(entries.update(i, LogEntryView { event, ..entries[i] })) == (
            false,
            Some(entries[i].id),
        ),
{
    let changed = entries.update(i, LogEntryView { event, ..entries[i] });
    assert(entry_intact(entries, i));
    if link_hash(entries[i].hash_prev, event) == entries[i].hash_curr {
        lemma_hex_text_is_injective(
            sha256(encode_utf8(entries[i].hash_prev) + encode_utf8(event)),
            sha256(encode_utf8(entries[i].hash_prev) + encode_utf8(entries[i].event)),
        );
    }
    assert forall|j: int| 0 <= j < i implies entry_intact(changed, j) by {
        assert(entry_intact(entries, j));
    }
    lemma_first_broken(changed, i);
}

/// Replacing the stored hash of entry `i` of an intact chain by any other
/// value breaks the chain at entry `i` and at none before it.
pub proof fn lemma_changed_hash_breaks_chain(
    entries: Seq<LogEntryView>,
    i: int,
    hash_curr: Seq<char>,
)
    requires
        chain_intact(entries),
        0 <= i < entries.len(),
        hash_curr != entries[i].hash_curr,
    ensures
        report_of(entries.update(i, LogEntryView { hash_curr, ..entries[i] })) == (
            false,
            Some(entries[i].id),
        ),
{
    let changed = entries.update(i, LogEntryView { hash_curr, ..entries[i] });
    assert(entry_intact(entries, i));
    assert forall|j: int| 0 <= j < i implies entry_intact(changed, j) by {
        assert(entry_intact(entries, j));
    }
    lemma_first_broken(changed, i);
}

/// Replacing the stored predecessor hash of entry `i` of an intact chain
/// by any other value breaks the chain at entry `i` and at none before
/// it.
pub proof fn lemma_changed_prev_breaks_chain(
    entries: Seq<LogEntryView>,
    i: int,
    hash_prev: Seq<char>,
)
    requires
        chain_intact(entries),
        0 <= i < entries.len(),
        hash_prev != entries[i].hash_prev,
    ensures
        report_of(entries.update(i, LogEntryView { hash_prev, ..entries[i] })) == (
            false,
            Some(entries[i].id),
        ),
{
    let changed = entries.update(i, LogEntryView { hash_prev, ..entries[i] });
    assert(entry_intact(entries, i));
    assert forall|j: int| 0 <= j < i implies entry_intact(changed, j) by {
        assert(entry_intact(entries, j));
    }
    lemma_first_broken(changed, i);
}

} // verus!
