//! The payload of PEM text.
//!
//! A PEM document is base64 text between two armor lines that start with
//! five dashes. Its payload is what is left when the armor lines and all
//! line endings are taken out.

use vstd::prelude::*;
use vstd::slice::slice_subrange;

verus! {

/// The line feed.
pub const LF: u8 = 10;

/// The carriage return.
pub const CR: u8 = 13;

/// The dash that armor lines start with.
pub const DASH: u8 = 45;

/// How many dashes make a line an armor line.
pub const ARMOR_DASHES: usize = 5;

/// The number of bytes before the first line feed of `text`, or the length
/// of `text` when it holds none.
pub open spec fn line_len(text: Seq<u8>) -> int
    decreases text.len(),
{
    if text.len() == 0 || text[0] == LF {
        0
    } else {
        1 + line_len(text.drop_first())
    }
}

/// The first line of `text` without its line ending: the bytes before the
/// first line feed, less a carriage return that stands right before it.
pub open spec fn first_line(text: Seq<u8>) -> Seq<u8> {
    let n = line_len(text);
    if n < text.len() && n > 0 && text[n - 1] == CR {
        text.subrange(0, n - 1)
    } else {
        text.subrange(0, n)
    }
}

/// What follows the first line of `text` and its line feed.
pub open spec fn after_first_line(text: Seq<u8>) -> Seq<u8> {
    let n = line_len(text);
    if n < text.len() {
        text.subrange(n + 1, text.len() as int)
    } else {
        Seq::empty()
    }
}

/// Whether `line` starts with five dashes.
pub open spec fn is_armor(line: Seq<u8>) -> bool {
    &&& line.len() >= ARMOR_DASHES
    &&& forall|i: int| 0 <= i < ARMOR_DASHES ==> line[i] == DASH
}

/// The payload of `text`: its lines, armor lines left out, one after the
/// other without their line endings.
pub open spec fn pem_payload(text: Seq<u8>) -> Seq<u8>
    decreases text.len(),
{
    if text.len() == 0 {
        Seq::empty()
    } else {
        let line = first_line(text);
        let kept = if is_armor(line) {
            Seq::empty()
        } else {
            line
        };
        proof {
            lemma_line_len(text);
        }
        kept + pem_payload(after_first_line(text))
    }
}

/// The first line ends at the first line feed.
pub proof fn lemma_line_len(text: Seq<u8>)
    ensures
        0 <= line_len(text) <= text.len(),
        line_len(text) < text.len() ==> text[line_len(text)] == LF,
        forall|i: int| 0 <= i < line_len(text) ==> text[i] != LF,
    decreases text.len(),
{
    if text.len() > 0 && text[0] != LF {
        let rest = text.drop_first();
        lemma_line_len(rest);
        assert forall|i: int| 0 <= i < line_len(text) implies text[i] != LF by {
            if i > 0 {
                assert(text[i] == rest[i - 1]);
            }
        }
    }
}

/// A position that is or follows the end of the text, or holds the first
/// line feed, is where the first line ends.
pub proof fn lemma_line_ends_at(text: Seq<u8>, n: int)
    requires
        0 <= n <= text.len(),
        n < text.len() ==> text[n] == LF,
        forall|i: int| 0 <= i < n ==> text[i] != LF,
    ensures
        line_len(text) == n,
{
    lemma_line_len(text);
}

/// Whether the line `text[start..stop]` starts with five dashes.
fn line_is_armor(text: &[u8], start: usize, stop: usize) -> (armor: bool)
    requires
        start <= stop <= text@.len(),
    ensures
        armor == is_armor(text@.subrange(start as int, stop as int)),
{
    let ghost line = text@.subrange(start as int, stop as int);
    if stop - start < ARMOR_DASHES {
        return false;
    }
    let mut i: usize = 0;
    while i < ARMOR_DASHES
        invariant
            i <= ARMOR_DASHES,
            start + ARMOR_DASHES <= stop <= text@.len(),
            line == text@.subrange(start as int, stop as int),
            forall|j: int| 0 <= j < i ==> line[j] == DASH,
        decreases ARMOR_DASHES - i,
    {
        if text[start + i] != DASH {
            assert(line[i as int] != DASH);
            return false;
        }
        i += 1;
    }
    true
}

/// Extracts the payload of PEM text.
pub fn payload(text: &[u8]) -> (body: Vec<u8>)
    ensures
        body@ == pem_payload(text@),
{
    let len = text.len();
    let mut body: Vec<u8> = Vec::new();
    let mut start: usize = 0;
    assert(text@.subrange(0, len as int) =~= text@);
    while start < len
        invariant
            start <= len,
            len == text@.len(),
            pem_payload(text@) == body@ + pem_payload(text@.subrange(start as int, len as int)),
        decreases len - start,
    {
        let ghost rest = text@.subrange(start as int, len as int);
        let mut end: usize = start;
        while end < len && text[end] != LF
            invariant
                start <= end <= len,
                len == text@.len(),
                forall|j: int| start <= j < end ==> text@[j] != LF,
            decreases len - end,
        {
            end += 1;
        }
        let stop: usize = if end < len && end > start && text[end - 1] == CR {
            end - 1
        } else {
            end
        };
        let next: usize = if end < len {
            end + 1
        } else {
            end
        };
        proof {
            lemma_line_ends_at(rest, end - start);
            assert(first_line(rest) =~= text@.subrange(start as int, stop as int));
            assert(after_first_line(rest) =~= text@.subrange(next as int, len as int));
        }
        let ghost before = body@;
        if !line_is_armor(text, start, stop) {
            body.extend_from_slice(slice_subrange(text, start, stop));
        }
        assert(body@ + pem_payload(text@.subrange(next as int, len as int)) =~= before
            + pem_payload(rest));
        start = next;
    }
    body
}

} // verus!
