//! The smallest pieces of the grammar: white space, words, names, text literals and
//! numbers.

use vstd::prelude::*;
use vstd::slice::slice_subrange;
use vstd::string::*;

verus! {

/// What a scan for a number's text found at the head of some bytes.
#[derive(Clone, Copy, PartialEq, Eq, Debug, Structural)]
pub enum Lexeme {
    /// So many bytes spell a number.
    Taken(usize),
    /// No number starts here.
    Absent,
    /// A number starts here and breaks off in its exponent.
    Broken,
}

/// What `nom::number::complete::recognize_float` makes of `input`: how many bytes at its
/// head it recognizes as a number, or that it finds none, or that it fails for good.
pub uninterp spec fn float_lexeme(input: Seq<u8>) -> Lexeme;

/// Calls `nom::number::complete::recognize_float` on `input`. The bytes that it recognizes
/// are a prefix of `input`; an error that nom marks as a failure is a number that breaks
/// off, any other error is no number.
#[verifier::external_body]
pub(crate) fn recognize_float(input: &[u8]) -> (r: Lexeme)
    ensures
        r == float_lexeme(input@),
        r matches Lexeme::Taken(n) ==> n <= input@.len(),
{
    match nom::number::complete::recognize_float::<&[u8], nom::error::Error<&[u8]>>(input) {
        Ok((_, text)) => Lexeme::Taken(text.len()),
        Err(nom::Err::Failure(_)) => Lexeme::Broken,
        Err(_) => Lexeme::Absent,
    }
}

/// Whether `b` is a space, a tab, a carriage return or a line feed.
pub open spec fn is_space(b: u8) -> bool {
    b == ' ' as u8 || b == '\t' as u8 || b == '\r' as u8 || b == '\n' as u8
}

/// Whether `b` is an ASCII letter.
pub open spec fn is_alpha(b: u8) -> bool {
    ('a' as u8 <= b && b <= 'z' as u8) || ('A' as u8 <= b && b <= 'Z' as u8)
}

/// Whether `b` can stand inside a name: an ASCII letter, a decimal digit or `_`.
pub open spec fn is_word(b: u8) -> bool {
    is_alpha(b) || ('0' as u8 <= b && b <= '9' as u8) || b == '_' as u8
}

/// The position after the white space that starts at `pos`.
pub open spec fn spaces(input: Seq<u8>, pos: int) -> int
    decreases input.len() - pos,
{
    if 0 <= pos < input.len() && is_space(input[pos]) {
        spaces(input, pos + 1)
    } else {
        pos
    }
}

/// The position after the bytes that can stand inside a name and start at `pos`.
pub open spec fn word_end(input: Seq<u8>, pos: int) -> int
    decreases input.len() - pos,
{
    if 0 <= pos < input.len() && is_word(input[pos]) {
        word_end(input, pos + 1)
    } else {
        pos
    }
}

/// The position of the first `"` from `pos` on, or the end of the input.
pub open spec fn quote_at(input: Seq<u8>, pos: int) -> int
    decreases input.len() - pos,
{
    if 0 <= pos < input.len() && input[pos] != '"' as u8 {
        quote_at(input, pos + 1)
    } else {
        pos
    }
}

/// Whether the byte at `pos` is `c`.
pub open spec fn byte_is(input: Seq<u8>, pos: int, c: u8) -> bool {
    0 <= pos < input.len() && input[pos] == c
}

/// The position after `word`, where `word` stands at `pos`.
pub open spec fn tag_spec(input: Seq<u8>, pos: int, word: Seq<u8>) -> Option<int> {
    if 0 <= pos && pos + word.len() <= input.len() && input.subrange(pos, pos + word.len()) == word {
        Some(pos + word.len())
    } else {
        None
    }
}

/// The position after `word` and the white space around it, where `word` stands after the
/// white space at `pos`.
pub open spec fn token_spec(input: Seq<u8>, pos: int, word: Seq<u8>) -> Option<int> {
    match tag_spec(input, spaces(input, pos), word) {
        Some(p) => Some(spaces(input, p)),
        None => None,
    }
}

/// The position after the name that starts at `pos`: a letter or `_`, and then the bytes
/// that can stand inside a name.
pub open spec fn identifier_spec(input: Seq<u8>, pos: int) -> Option<int> {
    if 0 <= pos < input.len() && (is_alpha(input[pos]) || input[pos] == '_' as u8) {
        Some(word_end(input, pos + 1))
    } else {
        None
    }
}

/// `s` with each pair of bytes `a`, `b` replaced by the byte `with`, the pairs being taken
/// from the left and not overlapping.
pub open spec fn replace_pair(s: Seq<u8>, a: u8, b: u8, with: u8) -> Seq<u8>
    decreases s.len(),
{
    if s.len() < 2 {
        s
    } else if s[0] == a && s[1] == b {
        seq![with] + replace_pair(s.skip(2), a, b, with)
    } else {
        seq![s[0]] + replace_pair(s.skip(1), a, b, with)
    }
}

/// The text that the body of a text literal means: first each `\\` becomes one backslash,
/// then each backslash before `n` becomes, with it, a line feed.
pub open spec fn unescape_spec(body: Seq<u8>) -> Seq<u8> {
    replace_pair(replace_pair(body, '\\' as u8, '\\' as u8, '\\' as u8), '\\' as u8, 'n' as u8, '\n' as u8)
}

/// Skips the white space at `pos`.
pub fn multispace0(input: &[u8], pos: usize) -> (r: usize)
    requires
        pos <= input@.len(),
    ensures
        r == spaces(input@, pos as int),
        pos <= r <= input@.len(),
{
    let mut i: usize = pos;
    while i < input.len() && (input[i] == ' ' as u8 || input[i] == '\t' as u8 || input[i] == '\r' as u8 || input[i] == '\n' as u8)
        invariant
            pos <= i <= input@.len(),
            spaces(input@, pos as int) == spaces(input@, i as int),
        decreases input@.len() - i,
    {
        i += 1;
    }
    i
}

/// Skips the bytes at `pos` that can stand inside a name.
fn word_run(input: &[u8], pos: usize) -> (r: usize)
    requires
        pos <= input@.len(),
    ensures
        r == word_end(input@, pos as int),
        pos <= r <= input@.len(),
{
    let mut i: usize = pos;
    while i < input.len() && (('a' as u8 <= input[i] && input[i] <= 'z' as u8) || ('A' as u8 <= input[i] && input[i] <= 'Z' as u8) || ('0' as u8 <= input[i] && input[i] <= '9' as u8) || input[i] == '_' as u8)
        invariant
            pos <= i <= input@.len(),
            word_end(input@, pos as int) == word_end(input@, i as int),
        decreases input@.len() - i,
    {
        i += 1;
    }
    i
}

/// Finds the first `"` from `pos` on.
pub fn find_quote(input: &[u8], pos: usize) -> (r: usize)
    requires
        pos <= input@.len(),
    ensures
        r == quote_at(input@, pos as int),
        pos <= r <= input@.len(),
{
    let mut i: usize = pos;
    while i < input.len() && input[i] != '"' as u8
        invariant
            pos <= i <= input@.len(),
            quote_at(input@, pos as int) == quote_at(input@, i as int),
        decreases input@.len() - i,
    {
        i += 1;
    }
    i
}

/// Whether the byte at `pos` is `c`.
pub fn char_at(input: &[u8], pos: usize, c: char) -> (r: bool)
    requires
        c as u32 <= 127,
    ensures
        r == byte_is(input@, pos as int, c as u8),
        r ==> pos < input@.len() <= usize::MAX,
{
    pos < input.len() && input[pos] == c as u8
}

/// Recognizes `word` at `pos`.
pub fn tag(input: &[u8], pos: usize, word: &str) -> (r: Option<usize>)
    requires
        pos <= input@.len(),
    ensures
        match r {
            Some(p) => tag_spec(input@, pos as int, word.spec_bytes()) == Some(p as int) && pos <= p <= input@.len(),
            None => tag_spec(input@, pos as int, word.spec_bytes()) is None,
        },
{
    let bytes = word.as_bytes();
    if bytes.len() > input.len() - pos {
        return None;
    }
    let mut i: usize = 0;
    while i < bytes.len()
        invariant
            i <= bytes@.len(),
            bytes@ == word.spec_bytes(),
            pos + bytes@.len() <= input@.len() <= usize::MAX,
            forall|j: int| 0 <= j < i ==> input@[pos + j] == bytes@[j],
        decreases bytes@.len() - i,
    {
        if input[pos + i] != bytes[i] {
            assert(input@.subrange(pos as int, pos + bytes@.len())[i as int] != bytes@[i as int]);
            return None;
        }
        i += 1;
    }
    assert(input@.subrange(pos as int, pos + bytes@.len()) =~= bytes@);
    Some(pos + bytes.len())
}

/// Recognizes `word` with white space around it.
pub fn token(input: &[u8], pos: usize, word: &str) -> (r: Option<usize>)
    requires
        pos <= input@.len(),
    ensures
        match r {
            Some(p) => token_spec(input@, pos as int, word.spec_bytes()) == Some(p as int) && pos <= p <= input@.len(),
            None => token_spec(input@, pos as int, word.spec_bytes()) is None,
        },
{
    let start = multispace0(input, pos);
    match tag(input, start, word) {
        Some(p) => Some(multispace0(input, p)),
        None => None,
    }
}

/// Recognizes a name at `pos`.
pub fn identifier(input: &[u8], pos: usize) -> (r: Option<usize>)
    requires
        pos <= input@.len(),
    ensures
        match r {
            Some(p) => identifier_spec(input@, pos as int) == Some(p as int) && pos < p <= input@.len(),
            None => identifier_spec(input@, pos as int) is None,
        },
{
    if pos < input.len() && (('a' as u8 <= input[pos] && input[pos] <= 'z' as u8) || ('A' as u8 <= input[pos] && input[pos] <= 'Z' as u8) || input[pos] == '_' as u8) {
        Some(word_run(input, pos + 1))
    } else {
        None
    }
}

/// Replaces each pair of bytes `a`, `b` in `s` by the byte `with`.
pub fn replace(s: &[u8], a: u8, b: u8, with: u8) -> (r: Vec<u8>)
    ensures
        r@ == replace_pair(s@, a, b, with),
{
    let mut out: Vec<u8> = Vec::new();
    let mut i: usize = 0;
    assert(s@.skip(0) =~= s@);
    while i < s.len()
        invariant
            i <= s@.len(),
            replace_pair(s@, a, b, with) == out@ + replace_pair(s@.skip(i as int), a, b, with),
        decreases s@.len() - i,
    {
        let ghost rest = s@.skip(i as int);
        if i + 1 < s.len() && s[i] == a && s[i + 1] == b {
            assert(rest.skip(2) =~= s@.skip(i + 2));
            assert(out@ + (seq![with] + replace_pair(rest.skip(2), a, b, with)) =~= out@.push(with) + replace_pair(rest.skip(2), a, b, with));
            out.push(with);
            i += 2;
        } else {
            proof {
                assert(rest.skip(1) =~= s@.skip(i + 1));
                if rest.len() >= 2 {
                    assert(out@ + (seq![rest[0]] + replace_pair(rest.skip(1), a, b, with)) =~= out@.push(rest[0]) + replace_pair(
                        rest.skip(1),
                        a,
                        b,
                        with,
                    ));
                } else {
                    assert(rest =~= seq![rest[0]]);
                    assert(replace_pair(rest.skip(1), a, b, with) =~= Seq::<u8>::empty());
                    assert(out@ + rest =~= out@.push(rest[0]) + Seq::<u8>::empty());
                }
            }
            out.push(s[i]);
            i += 1;
        }
    }
    assert(replace_pair(s@.skip(i as int), a, b, with) =~= Seq::<u8>::empty());
    assert(out@ + Seq::<u8>::empty() =~= out@);
    out
}

/// The text that the body of a text literal means.
pub fn unescape(body: &[u8]) -> (r: Vec<u8>)
    ensures
        r@ == unescape_spec(body@),
{
    let first = replace(body, '\\' as u8, '\\' as u8, '\\' as u8);
    replace(first.as_slice(), '\\' as u8, 'n' as u8, '\n' as u8)
}

/// What `recognize_float` makes of the input from `pos` on.
pub fn float_at(input: &[u8], pos: usize) -> (r: Lexeme)
    requires
        pos <= input@.len(),
    ensures
        r == float_lexeme(input@.skip(pos as int)),
        r matches Lexeme::Taken(n) ==> pos + n <= input@.len(),
{
    let rest = slice_subrange(input, pos, input.len());
    assert(input@.subrange(pos as int, input@.len() as int) =~= input@.skip(pos as int));
    recognize_float(rest)
}

} // verus!
