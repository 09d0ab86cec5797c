//! Documents for retrieval: splitting them into overlapping chunks, and
//! laying retrieved chunks out as context for a prompt.

use crate::text::{decimal, decimal_text, signed_decimal, signed_decimal_text};
use vstd::prelude::*;
use vstd::string::{StrSliceExecFns, StringExecFns};

verus! {

/// The number of characters of a chunk of an ingested document.
pub const CHUNK_CHARS: usize = 500;

/// The number of characters that a chunk repeats of the one before it.
pub const CHUNK_OVERLAP: usize = 80;

/// The most chunks that one retrieval returns.
pub const MAX_RETRIEVED: u32 = 20;

/// Where chunk `k` starts: each chunk starts `size - overlap` characters
/// after the one before it.
pub open spec fn chunk_start(k: int, size: int, overlap: int) -> int {
    k * (size - overlap)
}

/// Chunk `k` of `chars`: `size` characters from its start, or what is left
/// of the text where that is less.
pub open spec fn chunk_of(chars: Seq<char>, k: int, size: int, overlap: int) -> Seq<char> {
    let start = chunk_start(k, size, overlap);
    let end = if start + size <= chars.len() {
        start + size
    } else {
        chars.len() as int
    };
    chars.subrange(start, end)
}

/// Whether `chunks` is the chunking of `chars`: no chunk for an empty
/// text; otherwise the chunks in order, the last one being the first that
/// reaches the end of the text.
pub open spec fn is_chunking(
    chars: Seq<char>,
    size: int,
    overlap: int,
    chunks: Seq<Seq<char>>,
) -> bool {
    &&& chars.len() == 0 ==> chunks.len() == 0
    &&& chars.len() > 0 ==> chunks.len() > 0 && chunk_start(chunks.len() - 1, size, overlap)
        + size >= chars.len()
    &&& forall|k: int|
        0 <= k < chunks.len() - 1 ==> #[trigger] chunk_start(k, size, overlap) + size
            < chars.len()
    &&& forall|k: int|
        0 <= k < chunks.len() ==> #[trigger] chunks[k] == chunk_of(chars, k, size, overlap)
}

/// The texts of a sequence of strings.
pub open spec fn texts_of(chunks: Seq<String>) -> Seq<Seq<char>> {
    Seq::new(chunks.len(), |i: int| chunks[i]@)
}

/// Splits `text` into chunks of `chunk_chars` characters, each chunk
/// repeating the last `overlap` characters of the one before it. The
/// overlap has to be smaller than a chunk, or the chunks would not
/// advance.
pub fn chunk_text(text: &str, chunk_chars: usize, overlap: usize) -> (chunks: Vec<String>)
    requires
        overlap < chunk_chars,
    ensures
        is_chunking(text@, chunk_chars as int, overlap as int, texts_of(chunks@)),
{
    let len = text.unicode_len();
    let mut chunks: Vec<String> = Vec::new();
    let mut start: usize = 0;
    let ghost size = chunk_chars as int;
    let ghost lap = overlap as int;
    while start < len
        invariant_except_break
            start == chunk_start(chunks@.len() as int, size, lap),
            chunks@.len() == 0 ==> start == 0,
            chunks@.len() > 0 ==> start < len,
            chunks@.len() > 0 ==> chunk_start(chunks@.len() - 1, size, lap) + size < len,
        invariant
            len == text@.len(),
            size == chunk_chars as int,
            lap == overlap as int,
            lap < size,
            forall|k: int|
                0 <= k < chunks@.len() - 1 ==> #[trigger] chunk_start(k, size, lap) + size < len,
            forall|k: int|
                0 <= k < chunks@.len() ==> #[trigger] texts_of(chunks@)[k] == chunk_of(
                    text@,
                    k,
                    size,
                    lap,
                ),
        ensures
            is_chunking(text@, size, lap, texts_of(chunks@)),
        decreases len - start,
    {
        let end: usize = if chunk_chars >= len - start {
            len
        } else {
            start + chunk_chars
        };
        let ghost count = chunks@.len() as int;
        let ghost before = texts_of(chunks@);
        chunks.push(text.substring_char(start, end).to_owned());
        proof {
            let after = texts_of(chunks@);
            assert forall|k: int| 0 <= k < chunks@.len() implies #[trigger] after[k] == chunk_of(
                text@,
                k,
                size,
                lap,
            ) by {
                if k < count {
                    assert(after[k] == before[k]);
                }
            }
        }
        if end == len {
            break ;
        }
        assert((count + 1) * (size - lap) == count * (size - lap) + (size - lap))
            by (nonlinear_arith);
        start = end - overlap;
    }
    chunks
}

/// A retrieved chunk as it enters a prompt: the document it is from and
/// its text.
#[derive(Debug)]
pub struct ContextChunk {
    pub filename: String,
    pub content: String,
}

/// Mathematical value of a `ContextChunk`.
pub struct ContextChunkView {
    pub filename: Seq<char>,
    pub content: Seq<char>,
}

impl View for ContextChunk {
    type V = ContextChunkView;

    open spec fn view(&self) -> ContextChunkView {
        ContextChunkView { filename: self.filename@, content: self.content@ }
    }
}

/// The values of a sequence of chunks.
pub open spec fn chunks_view(chunks: Seq<ContextChunk>) -> Seq<ContextChunkView> {
    Seq::new(chunks.len(), |i: int| chunks[i]@)
}

/// The paragraph of chunk number `i`, counted from zero: its number from
/// one in square brackets, its source in parentheses, and its text on the
/// next line.
pub open spec fn context_entry(i: nat, chunk: ContextChunkView) -> Seq<char> {
    "["@ + decimal_text(i + 1) + "] (from: "@ + chunk.filename + ")\n"@ + chunk.content
}

/// The context made of `chunks`: their paragraphs in order, with an empty
/// line between two of them.
pub open spec fn context_of(chunks: Seq<ContextChunkView>) -> Seq<char>
    decreases chunks.len(),
{
    if chunks.len() == 0 {
        Seq::empty()
    } else if chunks.len() == 1 {
        context_entry(0, chunks[0])
    } else {
        context_of(chunks.drop_last()) + "\n\n"@ + context_entry(
            (chunks.len() - 1) as nat,
            chunks.last(),
        )
    }
}

/// The label of a document in a listing: its name and the number of its
/// chunks.
pub open spec fn doc_label_text(name: Seq<char>, count: int) -> Seq<char> {
    name + " ("@ + signed_decimal_text(count) + " chunks)"@
}

/// Lays retrieved chunks out as the context of a prompt.
pub fn context_text(chunks: &Vec<ContextChunk>) -> (context: String)
    ensures
        context@ == context_of(chunks_view(chunks@)),
{
    let mut context = String::new();
    let mut i: usize = 0;
    let ghost all = chunks_view(chunks@);
    while i < chunks.len()
        invariant
            i <= chunks@.len(),
            all == chunks_view(chunks@),
            context@ == context_of(all.take(i as int)),
        decreases chunks@.len() - i,
    {
        if i > 0 {
            context.append("\n\n");
        }
        context.append("[");
        context.append(decimal((i + 1) as u64).as_str());
        context.append("] (from: ");
        context.append(chunks[i].filename.as_str());
        context.append(")\n");
        context.append(chunks[i].content.as_str());
        assert(all.take(i + 1).drop_last() =~= all.take(i as int));
        i += 1;
    }
    assert(all.take(i as int) =~= all);
    context
}

/// Labels a document with the number of its chunks.
pub fn doc_label(name: &str, count: i64) -> (label: String)
    ensures
        label@ == doc_label_text(name@, count as int),
{
    let mut label = name.to_owned();
    label.append(" (");
    label.append(signed_decimal(count).as_str());
    label.append(" chunks)");
    label
}

} // verus!
