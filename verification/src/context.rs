//! The context window of a match: the matched text with up to a hundred
//! characters on each side, clipped at the ends of the document.

use vstd::prelude::*;
use vstd::string::*;
use vstd::utf8::*;

verus! {

/// How many characters are shown on each side of a match.
pub const CONTEXT_CHARS: usize = 100;

/// Whether `start..end` is a range of byte offsets into the encoding of
/// `text` that begins and ends between two characters.
pub open spec fn is_span(text: Seq<char>, start: int, end: int) -> bool {
    &&& 0 <= start <= end <= encode_utf8(text).len()
    &&& is_char_boundary(encode_utf8(text), start)
    &&& is_char_boundary(encode_utf8(text), end)
}

/// The number of characters of `text` that lie before the byte offset
/// `offset`.
pub open spec fn chars_before(text: Seq<char>, offset: int) -> int {
    decode_utf8(encode_utf8(text).subrange(0, offset)).len() as int
}

/// The text between two byte offsets.
pub open spec fn text_between(text: Seq<char>, start: int, end: int) -> Seq<char> {
    decode_utf8(encode_utf8(text).subrange(start, end))
}

/// Where the window of a match that begins at character `first` begins.
pub open spec fn window_start(first: int) -> int {
    if first > CONTEXT_CHARS {
        first - CONTEXT_CHARS
    } else {
        0
    }
}

/// Where the window of a match that ends before character `last` ends, in a
/// text of `total` characters.
pub open spec fn window_end(last: int, total: int) -> int {
    if total - last > CONTEXT_CHARS {
        last + CONTEXT_CHARS
    } else {
        total
    }
}

/// The context window of the match at bytes `start..end` of `text`.
pub open spec fn context_of(text: Seq<char>, start: int, end: int) -> Seq<char> {
    text.subrange(
        window_start(chars_before(text, start)),
        window_end(chars_before(text, end), text.len() as int),
    )
}

/// A character boundary of a text is one of each piece that is cut at a
/// character boundary and holds it.
proof fn lemma_boundary_in_piece(bytes: Seq<u8>, from: int, to: int, index: int)
    requires
        valid_utf8(bytes),
        0 <= from <= index <= to <= bytes.len(),
        is_char_boundary(bytes, from),
        is_char_boundary(bytes, to),
        is_char_boundary(bytes, index),
    ensures
        valid_utf8(bytes.subrange(from, to)),
        is_char_boundary(bytes.subrange(from, to), index - from),
{
    let head = bytes.subrange(0, to);
    valid_utf8_split(bytes, to);
    assert(valid_utf8(head));
    if from < to {
        is_char_boundary_iff_not_is_continuation_byte(bytes, from);
        assert(head[from] == bytes[from]);
        is_char_boundary_iff_not_is_continuation_byte(head, from);
    } else {
        is_char_boundary_start_end_of_seq(head);
    }
    assert(is_char_boundary(head, from));
    valid_utf8_split(head, from);
    let piece = bytes.subrange(from, to);
    assert(head.subrange(from, head.len() as int) =~= piece);
    assert(valid_utf8(piece));
    if index < to {
        is_char_boundary_iff_not_is_continuation_byte(bytes, index);
        assert(piece[index - from] == bytes[index]);
        is_char_boundary_iff_not_is_continuation_byte(piece, index - from);
    } else {
        is_char_boundary_start_end_of_seq(piece);
    }
}

/// A span cuts its text in three: what lies before the match, the match, and
/// what lies behind it.
pub proof fn lemma_span_cuts(text: Seq<char>, start: int, end: int)
    requires
        is_span(text, start, end),
    ensures
        0 <= chars_before(text, start) <= chars_before(text, end) <= text.len(),
        text.subrange(0, chars_before(text, start)) == text_between(text, 0, start),
        text.subrange(chars_before(text, start), chars_before(text, end)) == text_between(
            text,
            start,
            end,
        ),
{
    let bytes = encode_utf8(text);
    encode_utf8_valid_utf8(text);
    encode_utf8_decode_utf8(text);
    is_char_boundary_start_end_of_seq(bytes);
    let head = bytes.subrange(0, end);
    lemma_boundary_in_piece(bytes, 0, end, start);
    decode_utf8_split(bytes, end);
    decode_utf8_split(head, start);
    assert(head.subrange(0, start) =~= bytes.subrange(0, start));
    assert(head.subrange(start, head.len() as int) =~= bytes.subrange(start, end));
    let a = decode_utf8(bytes.subrange(0, start));
    let b = decode_utf8(bytes.subrange(start, end));
    let c = decode_utf8(bytes.subrange(end, bytes.len() as int));
    assert(decode_utf8(head) =~= a + b);
    assert(text =~= (a + b) + c);
    assert(text.subrange(0, a.len() as int) =~= a);
    assert(text.subrange(a.len() as int, (a.len() + b.len()) as int) =~= b);
}

/// The context window holds the match, reaches at most a hundred characters
/// beyond it on each side, and is shorter on a side only where the document
/// ends there.
pub proof fn lemma_context_window(text: Seq<char>, start: int, end: int)
    requires
        is_span(text, start, end),
    ensures
        ({
            let first = chars_before(text, start);
            let last = chars_before(text, end);
            let from = window_start(first);
            let to = window_end(last, text.len() as int);
            &&& 0 <= from <= first <= last <= to <= text.len()
            &&& context_of(text, start, end).len() == to - from
            &&& context_of(text, start, end).len() <= (last - first) + 2 * CONTEXT_CHARS
            &&& context_of(text, start, end).subrange(first - from, last - from) == text_between(
                text,
                start,
                end,
            )
            &&& from == 0 || first - from == CONTEXT_CHARS
            &&& to == text.len() || to - last == CONTEXT_CHARS
        }),
{
    lemma_span_cuts(text, start, end);
    let first = chars_before(text, start);
    let last = chars_before(text, end);
    let from = window_start(first);
    let to = window_end(last, text.len() as int);
    assert(context_of(text, start, end).subrange(first - from, last - from) =~= text.subrange(
        first,
        last,
    ));
}

/// Counts the characters of `content` before the byte offset `offset`.
pub fn count_chars_before(content: &str, offset: usize) -> (count: usize)
    requires
        0 <= offset <= content.spec_bytes().len(),
        is_char_boundary(content.spec_bytes(), offset as int),
    ensures
        count == chars_before(content@, offset as int),
{
    let (head, _) = content.split_at(offset);
    proof {
        encode_utf8_decode_utf8(head@);
    }
    head.unicode_len()
}

/// Cuts the context window of the match at bytes `start..end` out of
/// `content`.
pub fn context_window(content: &str, start: usize, end: usize) -> (context: String)
    requires
        is_span(content@, start as int, end as int),
    ensures
        context@ == context_of(content@, start as int, end as int),
{
    proof {
        lemma_span_cuts(content@, start as int, end as int);
    }
    let first = count_chars_before(content, start);
    let last = count_chars_before(content, end);
    let total = content.unicode_len();
    let from = if first > CONTEXT_CHARS {
        first - CONTEXT_CHARS
    } else {
        0
    };
    let to = if total - last > CONTEXT_CHARS {
        last + CONTEXT_CHARS
    } else {
        total
    };
    String::from_str(content.substring_char(from, to))
}

} // verus!
