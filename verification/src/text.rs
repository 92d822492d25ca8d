//! Decimal rendering and parsing of `OSStatus` values, plus the small string
//! helpers the error messages are built from.

use vstd::prelude::*;

verus! {

/// The ASCII digit for `d` (`0 <= d < 10`).
pub open spec fn digit_char(d: int) -> char {
    (d + 48) as char
}

/// Whether `c` is one of the ASCII digits `0`..`9`.
pub open spec fn is_digit(c: char) -> bool {
    '0' <= c && c <= '9'
}

/// The decimal digits of `n`, most significant first, without leading zeros.
pub open spec fn nat_digits(n: nat) -> Seq<char>
    decreases n,
{
    if n < 10 {
        seq![digit_char(n as int)]
    } else {
        nat_digits(n / 10).push(digit_char((n % 10) as int))
    }
}

/// How Rust's `Display` renders an integer: a `-` for negatives, then the
/// decimal digits of the magnitude.
pub open spec fn decimal(n: int) -> Seq<char> {
    if n < 0 {
        seq!['-'] + nat_digits((-n) as nat)
    } else {
        nat_digits(n as nat)
    }
}

/// The value of a run of decimal digits.
pub open spec fn digits_value(s: Seq<char>) -> int
    decreases s.len(),
{
    if s.len() == 0 {
        0
    } else {
        digits_value(s.drop_last()) * 10 + (s.last() as int - 48)
    }
}

pub open spec fn all_digits(s: Seq<char>) -> bool {
    forall|i: int| 0 <= i < s.len() ==> is_digit(#[trigger] s[i])
}

/// What `str::parse::<i32>()` accepts: an optional `+` or `-`, then one or
/// more ASCII digits, with the value in range of `i32`.
pub open spec fn parse_i32(s: Seq<char>) -> Option<i32> {
    let negative = s.len() > 0 && s[0] == '-';
    let signed = s.len() > 0 && (s[0] == '-' || s[0] == '+');
    let body = if signed { s.drop_first() } else { s };
    if body.len() == 0 || !all_digits(body) {
        None
    } else {
        let v = if negative { -digits_value(body) } else { digits_value(body) };
        if i32::MIN <= v <= i32::MAX {
            Some(v as i32)
        } else {
            None
        }
    }
}

/// Appends one character to a string (`String::push`).
#[verifier::external_body]
pub(crate) fn push_char(s: &mut String, c: char)
    ensures
        final(s)@ == old(s)@.push(c),
{
    s.push(c);
}

fn push_digits(s: &mut String, m: u64)
    ensures
        final(s)@ == old(s)@ + nat_digits(m as nat),
    decreases m,
{
    if m >= 10 {
        push_digits(s, m / 10);
    }
    let d: u8 = (m % 10) as u8;
    push_char(s, (d + 48) as char);
    proof {
        assert(nat_digits(m as nat) == if m < 10 {
            seq![digit_char(m as int)]
        } else {
            nat_digits((m / 10) as nat).push(digit_char((m % 10) as int))
        });
    }
}

/// Appends the decimal rendering of `n` to `s`.
pub fn push_decimal(s: &mut String, n: i64)
    ensures
        final(s)@ == old(s)@ + decimal(n as int),
{
    if n < 0 {
        push_char(s, '-');
        let m: u64 = if n == i64::MIN {
            9223372036854775808u64
        } else {
            (-n) as u64
        };
        push_digits(s, m);
        assert(old(s)@.push('-') + nat_digits(m as nat) =~= old(s)@ + (seq!['-'] + nat_digits(
            m as nat,
        )));
    } else {
        push_digits(s, n as u64);
    }
}

/// Appends the decimal rendering of an unsigned count to `s`.
pub fn push_unsigned(s: &mut String, n: u64)
    ensures
        final(s)@ == old(s)@ + decimal(n as int),
{
    push_digits(s, n);
}

/// The decimal rendering of an `i32`, as `i32::to_string` gives it.
pub fn decimal_string(n: i32) -> (r: String)
    ensures
        r@ == decimal(n as int),
{
    let mut s = String::new();
    push_decimal(&mut s, n as i64);
    assert(Seq::<char>::empty() + decimal(n as int) =~= decimal(n as int));
    s
}


proof fn lemma_digits_value_monotone(s: Seq<char>)
    requires
        all_digits(s),
        s.len() > 0,
    ensures
        digits_value(s) >= digits_value(s.drop_last()),
        digits_value(s) >= 0,
    decreases s.len(),
{
    if s.len() > 1 {
        assert(all_digits(s.drop_last()));
        lemma_digits_value_monotone(s.drop_last());
    }
}

proof fn lemma_digits_value_nonneg(s: Seq<char>)
    requires
        all_digits(s),
    ensures
        digits_value(s) >= 0,
{
    if s.len() > 0 {
        lemma_digits_value_monotone(s);
    }
}

/// Parses an `i32` the way `str::parse::<i32>()` does; `None` where it errs.
pub fn parse_i32_text(s: &str) -> (r: Option<i32>)
    ensures
        r == parse_i32(s@),
{
    let len = s.unicode_len();
    let mut start: usize = 0;
    let mut negative = false;
    if len > 0 {
        let c = s.get_char(0);
        if c == '-' {
            negative = true;
            start = 1;
        } else if c == '+' {
            start = 1;
        }
    }
    let ghost body = s@.subrange(start as int, len as int);
    proof {
        if start == 1 {
            assert(body =~= s@.drop_first());
        } else {
            assert(body =~= s@);
        }
    }
    if start >= len {
        return None;
    }
    // `acc` holds the value of the digits read so far while it stays at or
    // below 2^31; past that the text is out of range whatever follows.
    let limit: u64 = 2147483648;
    let mut acc: u64 = 0;
    let mut over = false;
    let mut i = start;
    while i < len
        invariant
            start <= i <= len,
            len == s@.len(),
            body == s@.subrange(start as int, len as int),
            all_digits(s@.subrange(start as int, i as int)),
            !over ==> acc as int == digits_value(s@.subrange(start as int, i as int)),
            !over ==> acc <= limit,
            over ==> digits_value(s@.subrange(start as int, i as int)) > limit,
            limit == 2147483648,
            start == (if s@.len() > 0 && (s@[0] == '-' || s@[0] == '+') { 1int } else { 0int }),
            negative == (s@.len() > 0 && s@[0] == '-'),
        decreases len - i,
    {
        let c = s.get_char(i);
        if !('0' <= c && c <= '9') {
            proof {
                assert(!is_digit(c));
                assert(body[i - start] == s@[i as int]);
                assert(!is_digit(body[i - start]));
                assert(!all_digits(body));
            }
            return None;
        }
        let ghost prev = s@.subrange(start as int, i as int);
        let ghost next = s@.subrange(start as int, i + 1);
        proof {
            assert(next.drop_last() =~= prev);
            assert(next.last() == c);
            assert forall|k: int| 0 <= k < next.len() implies is_digit(#[trigger] next[k]) by {
                if k < prev.len() {
                    assert(next[k] == prev[k]);
                }
            }
            lemma_digits_value_nonneg(prev);
        }
        let d: u64 = (c as u32 - 48) as u64;
        if !over {
            let v = acc * 10 + d;
            if v > limit {
                over = true;
            } else {
                acc = v;
            }
        }
        i = i + 1;
    }
    proof {
        assert(s@.subrange(start as int, len as int) == body);
    }
    if over {
        return None;
    }
    if negative {
        let v: i64 = -(acc as i64);
        Some(v as i32)
    } else if acc <= 2147483647 {
        Some(acc as i32)
    } else {
        None
    }
}


proof fn lemma_nat_digits(m: nat)
    ensures
        nat_digits(m).len() > 0,
        all_digits(nat_digits(m)),
        digits_value(nat_digits(m)) == m,
    decreases m,
{
    if m >= 10 {
        lemma_nat_digits(m / 10);
        let prefix = nat_digits(m / 10);
        let whole = prefix.push(digit_char((m % 10) as int));
        assert(whole.drop_last() =~= prefix);
        assert(whole.last() as int == (m % 10) + 48);
        assert(digits_value(whole) == digits_value(prefix) * 10 + (m % 10));
        assert(nat_digits(m) == whole);
        assert(m == (m / 10) * 10 + m % 10);
        assert forall|i: int| 0 <= i < whole.len() implies is_digit(#[trigger] whole[i]) by {
            if i < prefix.len() {
                assert(whole[i] == prefix[i]);
            }
        }
    } else {
        let whole = nat_digits(m);
        assert(whole.drop_last() =~= Seq::<char>::empty());
        assert(whole.last() as int == m + 48);
        assert(digits_value(whole.drop_last()) == 0);
        assert(digits_value(whole) == m);
    }
}

/// Rendering an `i32` in decimal and parsing the text back gives the same
/// value: the status an asynchronous completion reports as text is the status
/// the awaiting caller receives.
pub proof fn lemma_parse_decimal_round_trip(n: i32)
    ensures
        parse_i32(decimal(n as int)) == Some(n),
{
    if n < 0 {
        let m = (-n) as nat;
        lemma_nat_digits(m);
        let t = seq!['-'] + nat_digits(m);
        assert(t.drop_first() =~= nat_digits(m));
        assert(t[0] == '-');
    } else {
        lemma_nat_digits(n as nat);
        let t = nat_digits(n as nat);
        assert(is_digit(t[0]));
    }
}

/// The bytes of a C string buffer before its first NUL (all of them when
/// there is none).
pub open spec fn spec_until_nul(buf: Seq<u8>) -> Seq<u8>
    decreases buf.len(),
{
    if buf.len() == 0 || buf[0] == 0 {
        Seq::empty()
    } else {
        seq![buf[0]] + spec_until_nul(buf.drop_first())
    }
}

/// Cuts a C string buffer filled by the native side at its first NUL.
pub fn until_nul(buf: &Vec<u8>) -> (r: Vec<u8>)
    ensures
        r@ == spec_until_nul(buf@),
{
    let mut end: usize = 0;
    while end < buf.len() && buf[end] != 0
        invariant
            end <= buf@.len(),
            forall|k: int| 0 <= k < end ==> buf@[k] != 0,
        decreases buf@.len() - end,
    {
        end = end + 1;
    }
    let mut out: Vec<u8> = Vec::new();
    let mut i: usize = 0;
    while i < end
        invariant
            i <= end <= buf@.len(),
            out@ == buf@.subrange(0, i as int),
        decreases end - i,
    {
        out.push(buf[i]);
        i = i + 1;
        assert(out@ =~= buf@.subrange(0, i as int));
    }
    proof {
        lemma_until_nul(buf@, end as int);
    }
    out
}

/// The prefix before the first NUL, given where that NUL is.
proof fn lemma_until_nul(buf: Seq<u8>, end: int)
    requires
        0 <= end <= buf.len(),
        forall|k: int| 0 <= k < end ==> buf[k] != 0,
        end == buf.len() || buf[end] == 0,
    ensures
        spec_until_nul(buf) == buf.subrange(0, end),
    decreases end,
{
    if end == 0 {
        assert(buf.subrange(0, 0) =~= Seq::<u8>::empty());
    } else {
        let rest = buf.drop_first();
        assert forall|k: int| 0 <= k < end - 1 implies rest[k] != 0 by {
            assert(rest[k] == buf[k + 1]);
        }
        if end < buf.len() {
            assert(rest[end - 1] == buf[end]);
        }
        lemma_until_nul(rest, end - 1);
        assert(seq![buf[0]] + rest.subrange(0, end - 1) =~= buf.subrange(0, end));
    }
}

/// The buffer size asked of `CFStringGetCString` for a string of `len`
/// UTF-16 units: four bytes a unit plus the NUL, or nothing when that size is
/// negative.
pub fn c_string_capacity(len: isize) -> (r: usize)
    requires
        isize::MIN <= len * 4 + 1 <= isize::MAX,
    ensures
        len * 4 + 1 < 0 ==> r == 0,
        len * 4 + 1 >= 0 ==> r == len * 4 + 1,
{
    let n: isize = len * 4 + 1;
    if n < 0 {
        0
    } else {
        n as usize
    }
}

/// The buffer size used to read a RAW-processing parameter's text of `len`
/// UTF-16 units (four bytes a unit plus the NUL); none for a negative
/// length. Lengths whose size would not fit a `usize` are not taken.
pub fn parameter_text_capacity(len: isize) -> (r: Option<usize>)
    requires
        len < 0 || len * 4 < usize::MAX,
    ensures
        len < 0 ==> r is None,
        len >= 0 ==> r == Some((len * 4 + 1) as usize),
{
    if len < 0 {
        return None;
    }
    let n: usize = len as usize;
    Some(n * 4 + 1)
}

} // verus!
