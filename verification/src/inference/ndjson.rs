//! Lines in a stream of bytes that arrives in chunks.
//!
//! A line is complete only once its newline has arrived, so where the chunks
//! are cut does not matter: a partial tail stays buffered for the next chunk.

use vstd::prelude::*;
use crate::text;

verus! {

/// `bytes` as text, with what is not UTF-8 replaced.
pub uninterp spec fn utf8_lossy_text(bytes: Seq<u8>) -> Seq<char>;

/// `String::from_utf8_lossy`. The text is a function of the bytes alone, named
/// [`utf8_lossy_text`]; bytes that are valid UTF-8 are decoded as they stand.
#[verifier::external_body]
pub(crate) fn utf8_lossy(bytes: &[u8]) -> (decoded: String)
    ensures
        decoded@ == utf8_lossy_text(bytes@),
        vstd::utf8::valid_utf8(bytes@) ==> decoded@ == vstd::utf8::decode_utf8(bytes@),
{
    String::from_utf8_lossy(bytes).into_owned()
}

/// The text of `bytes`: decoded as they stand where they are UTF-8, else with
/// what is not replaced.
pub open spec fn text_of(bytes: Seq<u8>) -> Seq<char> {
    if vstd::utf8::valid_utf8(bytes) {
        vstd::utf8::decode_utf8(bytes)
    } else {
        utf8_lossy_text(bytes)
    }
}

/// The byte that ends a line.
pub const NEWLINE: u8 = 10;

/// Where the first line of `bytes` ends, if it is complete.
pub open spec fn line_end(bytes: Seq<u8>) -> int {
    text::first_of(bytes, NEWLINE) as int
}

/// Whether a complete line stands in `bytes`.
pub open spec fn has_line(bytes: Seq<u8>) -> bool {
    line_end(bytes) < bytes.len()
}

/// The text of the first line of `bytes`, without the white space around it.
pub open spec fn first_line(bytes: Seq<u8>) -> Seq<char> {
    text::trim(text_of(bytes.take(line_end(bytes) + 1)))
}

/// What follows the first line of `bytes`.
pub open spec fn after_line(bytes: Seq<u8>) -> Seq<u8> {
    bytes.skip(line_end(bytes) + 1)
}

/// The texts of the complete lines of `bytes` that are not blank.
pub open spec fn line_texts(bytes: Seq<u8>) -> Seq<Seq<char>>
    decreases bytes.len(),
{
    if !has_line(bytes) {
        seq![]
    } else if first_line(bytes).len() == 0 {
        line_texts(after_line(bytes))
    } else {
        seq![first_line(bytes)] + line_texts(after_line(bytes))
    }
}

/// What follows the last newline of `bytes`.
pub open spec fn tail(bytes: Seq<u8>) -> Seq<u8>
    decreases bytes.len(),
{
    if !has_line(bytes) {
        bytes
    } else {
        tail(after_line(bytes))
    }
}

proof fn lemma_line_end_of_longer(a: Seq<u8>, b: Seq<u8>)
    requires
        has_line(a),
    ensures
        line_end(a + b) == line_end(a),
        has_line(a + b),
        first_line(a + b) == first_line(a),
        after_line(a + b) == after_line(a) + b,
{
    text::lemma_first_of(a, NEWLINE);
    text::lemma_first_of_is(a + b, NEWLINE, line_end(a));
    assert((a + b).take(line_end(a) + 1) =~= a.take(line_end(a) + 1));
    assert((a + b).skip(line_end(a) + 1) =~= a.skip(line_end(a) + 1) + b);
}

/// Where a stream of bytes is cut into chunks does not change its lines: the
/// lines of both chunks are those of the first, and then those of what the
/// first left over together with the second.
pub proof fn law_lines_ignore_chunking(a: Seq<u8>, b: Seq<u8>)
    ensures
        line_texts(a + b) == line_texts(a) + line_texts(tail(a) + b),
        tail(a + b) == tail(tail(a) + b),
    decreases a.len(),
{
    if has_line(a) {
        lemma_line_end_of_longer(a, b);
        law_lines_ignore_chunking(after_line(a), b);
        assert(line_texts(a + b) =~= line_texts(a) + line_texts(tail(a) + b));
    } else {
        assert(line_texts(a) + line_texts(a + b) =~= line_texts(a + b));
    }
}

/// A line that is complete stays so; without one, the bytes are their own tail.
pub proof fn lemma_line_of_longer(a: Seq<u8>, b: Seq<u8>)
    ensures
        has_line(a) ==> has_line(a + b),
        !has_line(a) ==> tail(a) == a,
{
    if has_line(a) {
        lemma_line_end_of_longer(a, b);
    }
}

/// Where the first bytes hold no line, what follows the last newline of all
/// lies behind it in the second.
pub proof fn lemma_tail_is_short(a: Seq<u8>, b: Seq<u8>)
    requires
        !has_line(a),
        has_line(a + b),
    ensures
        tail(a + b).len() < b.len(),
{
    text::lemma_first_of(a, NEWLINE);
    text::lemma_first_of(a + b, NEWLINE);
    let end = line_end(a + b);
    if end < a.len() {
        assert((a + b)[end] == a[end]);
    }
    lemma_tail_is_no_longer(after_line(a + b));
}

proof fn lemma_tail_is_no_longer(bytes: Seq<u8>)
    ensures
        tail(bytes).len() <= bytes.len(),
    decreases bytes.len(),
{
    if has_line(bytes) {
        lemma_tail_is_no_longer(after_line(bytes));
    }
}

/// What stays buffered holds no complete line: taking lines out leaves none
/// behind.
pub proof fn law_tail_holds_no_line(bytes: Seq<u8>)
    ensures
        !has_line(tail(bytes)),
        line_texts(tail(bytes)) == Seq::<Seq<char>>::empty(),
        tail(tail(bytes)) == tail(bytes),
    decreases bytes.len(),
{
    if has_line(bytes) {
        law_tail_holds_no_line(after_line(bytes));
    }
}

/// Bytes that have arrived and not been read as lines.
#[derive(Debug)]
pub struct LineBuffer {
    buffered: Vec<u8>,
}

impl View for LineBuffer {
    type V = Seq<u8>;

    closed spec fn view(&self) -> Seq<u8> {
        self.buffered@
    }
}

impl LineBuffer {
    pub fn new() -> (buffer: LineBuffer)
        ensures
            buffer@ == Seq::<u8>::empty(),
    {
        LineBuffer { buffered: Vec::new() }
    }

    /// Adds a chunk at the end.
    pub fn extend(&mut self, chunk: &[u8])
        ensures
            final(self)@ == old(self)@ + chunk@,
    {
        let ghost before = self.buffered@;
        self.buffered.extend_from_slice(chunk);
        assert(self.buffered@ =~= before + chunk@);
    }

    /// The number of bytes in the buffer.
    pub fn len(&self) -> (len: usize)
        ensures
            len == self@.len(),
    {
        self.buffered.len()
    }

    fn position(&self) -> (found: Option<usize>)
        ensures
            found matches Some(at) ==> at == line_end(self@) && has_line(self@),
            found is None ==> !has_line(self@),
    {
        let mut i: usize = 0;
        while i < self.buffered.len()
            invariant
                i <= self.buffered@.len(),
                forall|k: int| 0 <= k < i ==> self.buffered@[k] != NEWLINE,
            decreases self.buffered.len() - i,
        {
            if self.buffered[i] == NEWLINE {
                proof {
                    text::lemma_first_of_is(self.buffered@, NEWLINE, i as int);
                }
                return Some(i);
            }
            i = i + 1;
        }
        proof {
            text::lemma_first_of_is(self.buffered@, NEWLINE, i as int);
        }
        None
    }

    /// Whether a complete line stands in the buffer.
    pub fn has_newline(&self) -> (yes: bool)
        ensures
            yes == has_line(self@),
    {
        self.position().is_some()
    }

    /// Takes the next line that is not blank out of the buffer, together with
    /// the blank ones before it; without one, nothing but the tail is left.
    pub fn next_line(&mut self) -> (line: Option<String>)
        ensures
            match line {
                Some(line) => line_texts(old(self)@) == seq![line@] + line_texts(final(self)@),
                None => line_texts(old(self)@).len() == 0 && final(self)@ == tail(old(self)@),
            },
            tail(final(self)@) == tail(old(self)@),
            line is Some ==> final(self)@.len() < old(self)@.len(),
    {
        loop
            invariant
                line_texts(self@) == line_texts(old(self)@),
                tail(self@) == tail(old(self)@),
                self@.len() <= old(self)@.len(),
            decreases self@.len(),
        {
            match self.position() {
                None => {
                    return None;
                },
                Some(at) => {
                    let ghost before = self@;
                    let len = self.buffered.len();
                    assert(at < len);
                    let rest = self.buffered.split_off(at + 1);
                    let line = utf8_lossy(self.buffered.as_slice());
                    self.buffered = rest;
                    proof {
                        assert(before.subrange(0, at + 1) =~= before.take(at + 1));
                        assert(self@ =~= after_line(before));
                    }
                    match line_of(line.as_str()) {
                        Some(text) => {
                            return Some(text);
                        },
                        None => {},
                    }
                },
            }
        }
    }
}

/// The text of a decoded line without the white space around it, if anything
/// is left.
pub fn line_of(decoded: &str) -> (line: Option<String>)
    ensures
        match line {
            Some(line) => line@ == text::trim(decoded@) && line@.len() > 0,
            None => text::trim(decoded@).len() == 0,
        },
{
    let trimmed = text::trimmed(decoded);
    if trimmed.is_empty() {
        None
    } else {
        Some(trimmed.to_owned())
    }
}

/// Lines are read one by one: a newline ends a line, whose text is given
/// unless it is blank, and what follows is read by itself. Without a newline
/// there is no line.
pub proof fn law_lines_end_at_newlines(line: Seq<u8>, rest: Seq<u8>)
    requires
        !line.contains(10u8),
    ensures
        line_texts(line) == Seq::<Seq<char>>::empty(),
        tail(line) == line,
        ({
            let text = text::trim(text_of(line.push(10u8)));
            line_texts(line + seq![10u8] + rest) == if text.len() == 0 {
                line_texts(rest)
            } else {
                seq![text] + line_texts(rest)
            }
        }),
        tail(line + seq![10u8] + rest) == tail(rest),
        has_line(line + seq![10u8] + rest) && !has_line(line),
{
    let n = line.len() as int;
    assert forall|k: int| 0 <= k < n implies line[k] != 10u8 by {
        assert(line.contains(line[k]));
    }
    text::lemma_first_of_is(line, NEWLINE, n);
    let all = line + seq![10u8] + rest;
    text::lemma_first_of_is(all, NEWLINE, n);
    assert(all.take(n + 1) =~= line.push(10u8));
    assert(all.skip(n + 1) =~= rest);
}

/// Bytes that are UTF-8 are read as the characters that they encode.
pub proof fn law_valid_bytes_are_decoded(bytes: Seq<u8>)
    requires
        vstd::utf8::valid_utf8(bytes),
    ensures
        text_of(bytes) == vstd::utf8::decode_utf8(bytes),
{
}

/// A buffer gives its lines out one after the other: first the one at its
/// front, and then those of what follows it. What is left at the end is what
/// follows the last newline.
pub proof fn law_buffer_gives_its_lines_out(
    buffer: &mut LineBuffer,
    front: Seq<u8>,
    rest: Seq<u8>,
    line: Option<String>,
)
    requires
        !front.contains(10u8),
        old(buffer)@ == front + seq![10u8] + rest,
        call_ensures(LineBuffer::next_line, (buffer,), line),
    ensures
        text::trim(text_of(front.push(10u8))).len() > 0 ==> {
            &&& line matches Some(said) && said@ == text::trim(text_of(front.push(10u8)))
            &&& line_texts(final(buffer)@) == line_texts(rest)
        },
        tail(final(buffer)@) == tail(rest),
        line is None ==> final(buffer)@ == tail(rest) && line_texts(rest).len() == 0,
{
    law_lines_end_at_newlines(front, rest);
    if text::trim(text_of(front.push(10u8))).len() > 0 {
        let all = line_texts(old(buffer)@);
        assert(all[0] == text::trim(text_of(front.push(10u8))));
        assert(all.skip(1) =~= line_texts(rest));
        assert((seq![line->0@] + line_texts(final(buffer)@)).skip(1) =~= line_texts(
            final(buffer)@,
        ));
    }
}

/// A chunk is added behind what is there, whole.
pub proof fn law_chunks_are_kept_whole(
    buffer: &mut LineBuffer,
    chunk: &[u8],
    len: usize,
    holds_line: bool,
)
    requires
        call_ensures(LineBuffer::extend, (buffer, chunk), ()),
        call_ensures(LineBuffer::len, (&*old(buffer),), len),
        call_ensures(LineBuffer::has_newline, (&*old(buffer),), holds_line),
    ensures
        final(buffer)@ == old(buffer)@ + chunk@,
        len == old(buffer)@.len(),
        holds_line <==> old(buffer)@.contains(10u8),
{
    text::lemma_first_of(old(buffer)@, NEWLINE);
    if old(buffer)@.contains(10u8) {
        let at = choose|i: int| 0 <= i < old(buffer)@.len() && old(buffer)@[i] == 10u8;
        assert(old(buffer)@[at] == NEWLINE);
    }
}

} // verus!
