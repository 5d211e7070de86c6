//! Small verified helpers on strings: equality, concatenation and decimal
//! rendering of integers.

use vstd::prelude::*;
use vstd::string::*;
use vstd::utf8::*;

verus! {

/// Two strings with the same UTF-8 encoding hold the same characters.
pub proof fn lemma_encoding_is_injective(a: Seq<char>, b: Seq<char>)
    requires
        encode_utf8(a) == encode_utf8(b),
    ensures
        a == b,
{
    encode_utf8_decode_utf8(a);
    encode_utf8_decode_utf8(b);
}

/// Compares two strings character by character.
pub fn str_eq(a: &str, b: &str) -> (same: bool)
    ensures
        same == (a@ == b@),
{
    let x = a.as_bytes();
    let y = b.as_bytes();
    if x.len() != y.len() {
        return false;
    }
    let n = x.len();
    let mut i: usize = 0;
    while i < n
        invariant
            i <= n,
            n == x@.len(),
            n == y@.len(),
            x@ == encode_utf8(a@),
            y@ == encode_utf8(b@),
            forall|k: int| 0 <= k < i ==> x@[k] == y@[k],
        decreases n - i,
    {
        if x[i] != y[i] {
            return false;
        }
        i += 1;
    }
    proof {
        assert(x@ =~= y@);
        lemma_encoding_is_injective(a@, b@);
    }
    true
}

/// The character that stands for a decimal digit.
pub open spec fn digit_char(d: int) -> char {
    if d == 0 {
        '0'
    } else if d == 1 {
        '1'
    } else if d == 2 {
        '2'
    } else if d == 3 {
        '3'
    } else if d == 4 {
        '4'
    } else if d == 5 {
        '5'
    } else if d == 6 {
        '6'
    } else if d == 7 {
        '7'
    } else if d == 8 {
        '8'
    } else {
        '9'
    }
}

/// The decimal digits of `n`, most significant first, without leading zeros.
pub open spec fn decimal_digits(n: nat) -> Seq<char>
    decreases n,
{
    if n < 10 {
        seq![digit_char(n as int)]
    } else {
        decimal_digits(n / 10).push(digit_char((n % 10) as int))
    }
}

/// The one-character string of the last decimal digit of a number.
pub fn digit_str(n: u64) -> (s: &'static str)
    ensures
        s@ == seq![digit_char((n % 10) as int)],
{
    let d = n % 10;
    proof {
        reveal_strlit("0");
        reveal_strlit("1");
        reveal_strlit("2");
        reveal_strlit("3");
        reveal_strlit("4");
        reveal_strlit("5");
        reveal_strlit("6");
        reveal_strlit("7");
        reveal_strlit("8");
        reveal_strlit("9");
    }
    let s = if d == 0 {
        "0"
    } else if d == 1 {
        "1"
    } else if d == 2 {
        "2"
    } else if d == 3 {
        "3"
    } else if d == 4 {
        "4"
    } else if d == 5 {
        "5"
    } else if d == 6 {
        "6"
    } else if d == 7 {
        "7"
    } else if d == 8 {
        "8"
    } else {
        "9"
    };
    s
}

/// Renders `n` in decimal.
pub fn decimal(n: u64) -> (text: String)
    ensures
        text@ == decimal_digits(n as nat),
    decreases n,
{
    if n < 10 {
        String::from_str(digit_str(n))
    } else {
        let mut head = decimal(n / 10);
        head.append(digit_str(n % 10));
        head
    }
}

/// `head` followed by `tail`.
pub fn joined(head: &str, tail: &str) -> (text: String)
    ensures
        text@ == head@ + tail@,
{
    let mut text = String::from_str(head);
    text.append(tail);
    text
}

/// The characters of each string of a list.
pub open spec fn texts(list: Seq<String>) -> Seq<Seq<char>> {
    Seq::new(list.len(), |i: int| list[i]@)
}

/// Copies a list of strings.
pub fn copy_strings(list: &[String]) -> (copy: Vec<String>)
    ensures
        texts(copy@) == texts(list@),
{
    let mut copy: Vec<String> = Vec::new();
    let mut i: usize = 0;
    while i < list.len()
        invariant
            i <= list.len(),
            copy@.len() == i,
            forall|k: int| 0 <= k < i ==> copy@[k]@ == list@[k]@,
        decreases list.len() - i,
    {
        copy.push(list[i].clone());
        i += 1;
    }
    copy
}

/// Copies an optional string.
pub fn copy_optional(text: &Option<String>) -> (copy: Option<String>)
    ensures
        optional_text(copy) == optional_text(*text),
{
    match text {
        Some(t) => Some(t.clone()),
        None => None,
    }
}

/// The characters of an optional string.
pub open spec fn optional_text(text: Option<String>) -> Option<Seq<char>> {
    match text {
        Some(t) => Some(t@),
        None => None,
    }
}

/// Encoding a concatenation gives the concatenation of the encodings.
pub proof fn lemma_encode_concat(a: Seq<char>, b: Seq<char>)
    ensures
        encode_utf8(a + b) == encode_utf8(a) + encode_utf8(b),
    decreases a.len(),
{
    if a.len() == 0 {
    } else {
        lemma_encode_concat(a.drop_first(), b);
        assert((a + b).drop_first() =~= a.drop_first() + b);
    }
}

/// The most bytes of a captured stream that a result keeps.
pub const STREAM_LIMIT: usize = 1_048_576;

/// What ends a stream that was cut short.
pub open spec fn truncation_marker() -> Seq<char> {
    "...<truncated>"@
}

/// The bytes that the marker takes.
pub const MARKER_BYTES: usize = 14;

/// The last character boundary of `bytes` at or before `budget`.
pub open spec fn cut_point(bytes: Seq<u8>, budget: int) -> int
    decreases budget,
{
    if budget <= 0 {
        0
    } else if is_char_boundary(bytes, budget) {
        budget
    } else {
        cut_point(bytes, budget - 1)
    }
}

/// A stream as a result holds it: whole where it fits in the limit, else its
/// longest prefix of whole characters that leaves room for the marker,
/// followed by the marker.
pub open spec fn clipped(stream: Seq<char>) -> Seq<char> {
    let bytes = encode_utf8(stream);
    if bytes.len() <= STREAM_LIMIT {
        stream
    } else {
        decode_utf8(bytes.subrange(0, cut_point(bytes, STREAM_LIMIT - MARKER_BYTES)))
            + truncation_marker()
    }
}

/// A stream fits a result when its encoding is within the limit.
pub open spec fn fits(stream: Seq<char>) -> bool {
    encode_utf8(stream).len() <= STREAM_LIMIT
}

proof fn lemma_cut_point_bounds(bytes: Seq<u8>, budget: int)
    requires
        valid_utf8(bytes),
        0 <= budget <= bytes.len(),
    ensures
        0 <= cut_point(bytes, budget) <= budget,
        is_char_boundary(bytes, cut_point(bytes, budget)),
    decreases budget,
{
    is_char_boundary_start_end_of_seq(bytes);
    if budget > 0 && !is_char_boundary(bytes, budget) {
        lemma_cut_point_bounds(bytes, budget - 1);
    }
}

proof fn lemma_marker_bytes()
    ensures
        encode_utf8(truncation_marker()).len() == MARKER_BYTES,
{
    reveal_strlit("...<truncated>");
    let m = truncation_marker();
    assert(is_ascii_chars(m));
    is_ascii_chars_encode_utf8(m);
}

/// No character takes more than four bytes.
pub proof fn lemma_encoding_length(text: Seq<char>)
    ensures
        encode_utf8(text).len() <= 4 * text.len(),
    decreases text.len(),
{
    if text.len() > 0 {
        lemma_encoding_length(text.drop_first());
    }
}

/// A text of at most a quarter of the limit in characters fits.
pub proof fn lemma_short_text_fits(text: Seq<char>)
    requires
        4 * text.len() <= STREAM_LIMIT,
    ensures
        fits(text),
{
    lemma_encoding_length(text);
}

/// Every clipped stream fits, and clipping leaves a stream that fits as it is.
pub proof fn lemma_clipped_fits(stream: Seq<char>)
    ensures
        fits(clipped(stream)),
        fits(stream) ==> clipped(stream) == stream,
        !fits(stream) ==> exists|kept: Seq<char>|
            #![trigger kept + truncation_marker()]
            clipped(stream) == kept + truncation_marker() && kept.is_prefix_of(stream),
{
    let bytes = encode_utf8(stream);
    if bytes.len() > STREAM_LIMIT {
        encode_utf8_valid_utf8(stream);
        let cut = cut_point(bytes, STREAM_LIMIT - MARKER_BYTES);
        lemma_cut_point_bounds(bytes, STREAM_LIMIT - MARKER_BYTES);
        valid_utf8_split(bytes, cut);
        decode_utf8_split(bytes, cut);
        encode_utf8_decode_utf8(stream);
        let head = bytes.subrange(0, cut);
        let kept = decode_utf8(head);
        decode_utf8_encode_utf8(head);
        lemma_encode_concat(kept, truncation_marker());
        lemma_marker_bytes();
        let rest = decode_utf8(bytes.subrange(cut, bytes.len() as int));
        assert(stream == kept + rest);
        assert(kept.is_prefix_of(stream));
    }
}

/// Cuts a captured stream down to what a result may hold.
pub fn truncate_stream(stream: &str) -> (out: String)
    ensures
        out@ == clipped(stream@),
        fits(out@),
{
    let raw = stream.as_bytes();
    proof {
        lemma_clipped_fits(stream@);
        encode_utf8_valid_utf8(stream@);
    }
    if raw.len() <= STREAM_LIMIT {
        return String::from_str(stream);
    }
    let ghost bytes = encode_utf8(stream@);
    let mut cut: usize = STREAM_LIMIT - MARKER_BYTES;
    while !stream.is_char_boundary(cut)
        invariant
            cut <= STREAM_LIMIT - MARKER_BYTES,
            bytes == encode_utf8(stream@),
            valid_utf8(bytes),
            cut_point(bytes, STREAM_LIMIT - MARKER_BYTES) == cut_point(bytes, cut as int),
        decreases cut,
    {
        proof {
            is_char_boundary_start_end_of_seq(bytes);
        }
        cut -= 1;
    }
    let (head, _) = stream.split_at(cut);
    proof {
        is_char_boundary_start_end_of_seq(bytes);
        encode_utf8_decode_utf8(head@);
    }
    joined(head, "...<truncated>")
}

/// Appends a copy of `item` to a list of strings.
pub fn push_text(list: &mut Vec<String>, item: &str)
    ensures
        texts(final(list)@) == texts(old(list)@).push(item@),
{
    list.push(String::from_str(item));
}

/// Moves the strings of `more` to the end of `list`.
pub fn push_all(list: &mut Vec<String>, more: Vec<String>)
    ensures
        texts(final(list)@) == texts(old(list)@) + texts(more@),
{
    let mut more = more;
    list.append(&mut more);
}

/// A whole number in decimal, with a minus sign where it is negative.
pub open spec fn signed_digits(n: int) -> Seq<char> {
    if n < 0 {
        seq!['-'] + decimal_digits((-n) as nat)
    } else {
        decimal_digits(n as nat)
    }
}

/// Renders `n` in decimal.
pub fn signed_decimal(n: i32) -> (text: String)
    ensures
        text@ == signed_digits(n as int),
{
    if n < 0 {
        proof {
            reveal_strlit("-");
        }
        let magnitude: i64 = -(n as i64);
        let digits = decimal(magnitude as u64);
        joined("-", digits.as_str())
    } else {
        decimal(n as u64)
    }
}

} // verus!
