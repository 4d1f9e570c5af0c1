//! Byte strings: comparing, joining, and reading and writing integers.

use vstd::prelude::*;

verus! {

/// How one text stands to another.
#[derive(Clone, Copy, PartialEq, Eq, Debug, Structural)]
pub enum Order {
    Less,
    Equal,
    Greater,
    /// Neither before, nor after, nor equal: only numbers can be so.
    Unordered,
}

/// The order of two byte strings: byte by byte from the left, a proper prefix first.
pub open spec fn lex_order(a: Seq<u8>, b: Seq<u8>) -> Order
    decreases a.len(),
{
    if a.len() == 0 {
        if b.len() == 0 {
            Order::Equal
        } else {
            Order::Less
        }
    } else if b.len() == 0 {
        Order::Greater
    } else if a[0] < b[0] {
        Order::Less
    } else if a[0] > b[0] {
        Order::Greater
    } else {
        lex_order(a.drop_first(), b.drop_first())
    }
}

/// The number that a string of decimal digits spells; 0 for the empty string.
pub open spec fn digits_value(s: Seq<u8>) -> int
    decreases s.len(),
{
    if s.len() == 0 {
        0
    } else {
        digits_value(s.drop_last()) * 10 + (s.last() - '0' as u8)
    }
}

/// Whether every byte of `s` is a decimal digit.
pub open spec fn all_digits(s: Seq<u8>) -> bool {
    forall|i: int| 0 <= i < s.len() ==> '0' as u8 <= #[trigger] s[i] <= '9' as u8
}

/// The integer that `s` spells: a sign `+` or `-` or none, then one decimal digit or more,
/// and nothing else; none where `s` is not of that form or the number is outside `i64`.
pub open spec fn integer_of(s: Seq<u8>) -> Option<i64> {
    let signed = s.len() > 0 && (s[0] == '-' as u8 || s[0] == '+' as u8);
    let body = if signed {
        s.skip(1)
    } else {
        s
    };
    let n = if signed && s[0] == '-' as u8 {
        -digits_value(body)
    } else {
        digits_value(body)
    };
    if body.len() > 0 && all_digits(body) && i64::MIN <= n <= i64::MAX {
        Some(n as i64)
    } else {
        None
    }
}

/// The decimal digits of `n`, without leading zeros.
pub open spec fn digits_of(n: nat) -> Seq<u8>
    decreases n,
{
    if n < 10 {
        seq![('0' as u8 + n) as u8]
    } else {
        digits_of(n / 10).push(('0' as u8 + n % 10) as u8)
    }
}

/// How `n` is written in decimal: `-` before a negative number, no sign otherwise.
pub open spec fn decimal_of(n: int) -> Seq<u8> {
    if n < 0 {
        seq!['-' as u8] + digits_of((-n) as nat)
    } else {
        digits_of(n as nat)
    }
}

/// What std's `Debug` writes for the text that `bytes` spell as UTF-8, or for the bytes
/// themselves where they spell none.
pub uninterp spec fn quoted_text(bytes: Seq<u8>) -> Seq<u8>;

/// Whether two byte strings hold the same bytes.
pub fn same_bytes(a: &[u8], b: &[u8]) -> (r: bool)
    ensures
        r == (a@ == b@),
{
    if a.len() != b.len() {
        return false;
    }
    let mut i: usize = 0;
    while i < a.len()
        invariant
            i <= a.len(),
            a.len() == b.len(),
            forall|j: int| 0 <= j < i ==> a@[j] == b@[j],
        decreases a.len() - i,
    {
        if a[i] != b[i] {
            return false;
        }
        i += 1;
    }
    assert(a@ =~= b@);
    true
}

/// A copy of the bytes of `s` from `from` up to `to`.
pub fn copy_range(s: &[u8], from: usize, to: usize) -> (r: Vec<u8>)
    requires
        from <= to <= s@.len(),
    ensures
        r@ == s@.subrange(from as int, to as int),
{
    let mut out: Vec<u8> = Vec::new();
    let mut i: usize = from;
    while i < to
        invariant
            from <= i <= to <= s@.len(),
            out@ == s@.subrange(from as int, i as int),
        decreases to - i,
    {
        out.push(s[i]);
        assert(out@ =~= s@.subrange(from as int, i + 1));
        i += 1;
    }
    out
}

/// The bytes of `a` followed by those of `b`.
pub fn joined(a: &[u8], b: &[u8]) -> (r: Vec<u8>)
    ensures
        r@ == a@ + b@,
{
    let mut out = copy_range(a, 0, a.len());
    assert(a@.subrange(0, a@.len() as int) =~= a@);
    let mut i: usize = 0;
    while i < b.len()
        invariant
            i <= b.len(),
            out@ == a@ + b@.subrange(0, i as int),
        decreases b.len() - i,
    {
        out.push(b[i]);
        assert(out@ =~= a@ + b@.subrange(0, i + 1));
        i += 1;
    }
    assert(b@.subrange(0, b@.len() as int) =~= b@);
    out
}

/// Appends the bytes of `b` to `out`.
pub fn append(out: &mut Vec<u8>, b: &[u8])
    ensures
        final(out)@ == old(out)@ + b@,
{
    let mut i: usize = 0;
    while i < b.len()
        invariant
            i <= b.len(),
            out@ == old(out)@ + b@.subrange(0, i as int),
        decreases b.len() - i,
    {
        out.push(b[i]);
        assert(out@ =~= old(out)@ + b@.subrange(0, i + 1));
        i += 1;
    }
    assert(b@.subrange(0, b@.len() as int) =~= b@);
}

/// Compares two byte strings as `lex_order` says.
pub fn text_order(a: &[u8], b: &[u8]) -> (r: Order)
    ensures
        r == lex_order(a@, b@),
{
    let mut i: usize = 0;
    assert(a@.skip(0) =~= a@ && b@.skip(0) =~= b@);
    while i < a.len() && i < b.len()
        invariant
            i <= a.len(),
            i <= b.len(),
            lex_order(a@, b@) == lex_order(a@.skip(i as int), b@.skip(i as int)),
        decreases a.len() - i,
    {
        if a[i] < b[i] {
            return Order::Less;
        }
        if a[i] > b[i] {
            return Order::Greater;
        }
        assert(a@.skip(i as int).drop_first() =~= a@.skip(i + 1));
        assert(b@.skip(i as int).drop_first() =~= b@.skip(i + 1));
        i += 1;
    }
    if i < b.len() {
        Order::Less
    } else if i < a.len() {
        Order::Greater
    } else {
        Order::Equal
    }
}

/// A string of decimal digits without its last byte is a string of decimal digits.
proof fn lemma_digits_shorter(s: Seq<u8>)
    requires
        all_digits(s),
        s.len() > 0,
    ensures
        all_digits(s.drop_last()),
{
    assert forall|i: int| 0 <= i < s.drop_last().len() implies '0' as u8 <= #[trigger] s.drop_last()[i] <= '9' as u8 by {
        assert(s.drop_last()[i] == s[i]);
    }
}

/// A string of decimal digits spells no negative number.
proof fn lemma_digits_value_sign(s: Seq<u8>)
    requires
        all_digits(s),
    ensures
        digits_value(s) >= 0,
    decreases s.len(),
{
    if s.len() > 0 {
        lemma_digits_shorter(s);
        lemma_digits_value_sign(s.drop_last());
        assert('0' as u8 <= s[s.len() - 1]);
    }
}

/// The first digits of a string of decimal digits spell no greater number than the whole.
proof fn lemma_digits_value_grows(s: Seq<u8>, k: int)
    requires
        all_digits(s),
        0 <= k <= s.len(),
    ensures
        digits_value(s.subrange(0, k)) <= digits_value(s),
    decreases s.len(),
{
    if k == s.len() {
        assert(s.subrange(0, k) =~= s);
    } else {
        lemma_digits_shorter(s);
        lemma_digits_value_grows(s.drop_last(), k);
        lemma_digits_value_sign(s.drop_last());
        assert(s.drop_last().subrange(0, k) =~= s.subrange(0, k));
        assert('0' as u8 <= s[s.len() - 1]);
    }
}

/// Reads `text` as an integer, as `integer_of` says.
pub fn parse_integer(text: &[u8]) -> (r: Option<i64>)
    ensures
        r == integer_of(text@),
{
    let n = text.len();
    if n == 0 {
        return None;
    }
    let negative = text[0] == '-' as u8;
    let start: usize = if text[0] == '-' as u8 || text[0] == '+' as u8 {
        1
    } else {
        0
    };
    let ghost body = if start == 1 {
        text@.skip(1)
    } else {
        text@
    };
    if start == n {
        return None;
    }
    let mut acc: i64 = 0;
    let mut i: usize = start;
    assert(body.subrange(0, 0) =~= Seq::<u8>::empty());
    while i < n
        invariant
            start <= i <= n,
            n == text@.len(),
            n > 0,
            start <= 1,
            (start == 1) == (text@[0] == '-' as u8 || text@[0] == '+' as u8),
            body == (if start == 1 {
                text@.skip(1)
            } else {
                text@
            }),
            all_digits(body.subrange(0, i - start)),
            acc == -digits_value(body.subrange(0, i - start)),
            acc <= 0,
        decreases n - i,
    {
        let b = text[i];
        let ghost before = body.subrange(0, i - start);
        let ghost after = body.subrange(0, i + 1 - start);
        proof {
            assert(body[i - start] == b);
            assert(after.drop_last() =~= before);
            assert(after.last() == b);
        }
        if b < '0' as u8 || b > '9' as u8 {
            assert(!all_digits(body));
            return None;
        }
        let next: i128 = (acc as i128) * 10 - ((b - '0' as u8) as i128);
        proof {
            assert(all_digits(after)) by {
                assert forall|j: int| 0 <= j < after.len() implies '0' as u8 <= #[trigger] after[j] <= '9' as u8 by {
                    if j < before.len() {
                        assert(after[j] == before[j]);
                    }
                }
            }
            assert(next == -digits_value(after));
        }
        if next < i64::MIN as i128 {
            proof {
                if all_digits(body) {
                    lemma_digits_value_grows(body, i + 1 - start);
                }
            }
            return None;
        }
        acc = next as i64;
        i += 1;
    }
    assert(body.subrange(0, n - start) =~= body);
    if negative {
        Some(acc)
    } else if acc == i64::MIN {
        None
    } else {
        Some(-acc)
    }
}

/// The decimal digit that stands for `d`.
fn digit(d: u64) -> (r: u8)
    requires
        d < 10,
    ensures
        r == ('0' as u8 + d) as u8,
{
    '0' as u8 + d as u8
}

/// Writes `n` in decimal, as `decimal_of` says.
pub fn decimal(n: i64) -> (r: Vec<u8>)
    ensures
        r@ == decimal_of(n as int),
{
    let whole: u64 = if n < 0 {
        (-(n as i128)) as u64
    } else {
        n as u64
    };
    let mut m: u64 = whole;
    let mut rev: Vec<u8> = Vec::new();
    let ghost mut tail: Seq<u8> = Seq::empty();
    assert(digits_of(whole as nat) + tail =~= digits_of(whole as nat));
    while m >= 10
        invariant
            digits_of(whole as nat) == digits_of(m as nat) + tail,
            rev@.len() == tail.len(),
            forall|j: int| 0 <= j < tail.len() ==> rev@[j] == tail[tail.len() - 1 - j],
        decreases m,
    {
        let d = digit(m % 10);
        proof {
            let longer = seq![d] + tail;
            assert(digits_of(m as nat) == digits_of((m / 10) as nat).push(d));
            assert(digits_of((m / 10) as nat).push(d) + tail =~= digits_of((m / 10) as nat) + longer);
            assert forall|j: int| 0 <= j < longer.len() implies rev@.push(d)[j] == longer[longer.len() - 1 - j] by {
                if j < tail.len() {
                    assert(longer[longer.len() - 1 - j] == tail[tail.len() - 1 - j]);
                }
            }
            tail = longer;
        }
        rev.push(d);
        m = m / 10;
    }
    let mut out: Vec<u8> = Vec::new();
    if n < 0 {
        out.push('-' as u8);
    }
    out.push(digit(m));
    let ghost head = out@;
    assert(decimal_of(n as int) =~= head + tail);
    let mut k: usize = rev.len();
    assert(tail.subrange(0, 0) =~= Seq::<u8>::empty());
    assert(head + Seq::<u8>::empty() =~= head);
    while k > 0
        invariant
            k <= rev@.len(),
            rev@.len() == tail.len(),
            forall|j: int| 0 <= j < tail.len() ==> rev@[j] == tail[tail.len() - 1 - j],
            out@ == head + tail.subrange(0, tail.len() - k),
        decreases k,
    {
        k -= 1;
        out.push(rev[k]);
        assert(out@ =~= head + tail.subrange(0, tail.len() - k));
    }
    assert(tail.subrange(0, tail.len() as int) =~= tail);
    out
}

/// Formats with std's `Debug` the text that `bytes` spell, or the bytes themselves where
/// they spell none.
#[verifier::external_body]
pub(crate) fn quote(bytes: &[u8]) -> (r: Vec<u8>)
    ensures
        r@ == quoted_text(bytes@),
{
    match std::str::from_utf8(bytes) {
        Ok(text) => format!("{:?}", text).into_bytes(),
        Err(_) => format!("{:?}", bytes).into_bytes(),
    }
}

} // verus!
