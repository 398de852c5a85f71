//! Decimal numbers written in ASCII digits.
use vstd::prelude::*;
use vstd::utf8::{encode_utf8, is_ascii_chars, is_ascii_chars_encode_utf8};
use vstd::string::StringExecFns;

verus! {

/// ASCII '0'.
pub const DIGIT_ZERO: u8 = 48;

/// ASCII '9'.
pub const DIGIT_NINE: u8 = 57;

/// ASCII '+'.
pub const PLUS_SIGN: u8 = 43;

pub open spec fn is_digit(b: u8) -> bool {
    DIGIT_ZERO <= b <= DIGIT_NINE
}

pub open spec fn all_digits(s: Seq<u8>) -> bool {
    forall|i: int| 0 <= i < s.len() ==> is_digit(#[trigger] s[i])
}

/// The number that the digits `s` write in base ten.
pub open spec fn dec_value(s: Seq<u8>) -> nat
    decreases s.len(),
{
    if s.len() == 0 {
        0
    } else {
        dec_value(s.drop_last()) * 10 + (s.last() - DIGIT_ZERO) as nat
    }
}

/// The character of decimal digit `d`.
pub open spec fn digit_char(d: nat) -> char {
    if d == 0 {
        '0'
    } else if d == 1 {
        '1'
    } else if d == 2 {
        '2'
    } else if d == 3 {
        '3'
    } else if d == 4 {
        '4'
    } else if d == 5 {
        '5'
    } else if d == 6 {
        '6'
    } else if d == 7 {
        '7'
    } else if d == 8 {
        '8'
    } else {
        '9'
    }
}

/// The decimal digits of `n`, without leading zeros ("0" for zero).
pub open spec fn decimal_chars(n: nat) -> Seq<char>
    decreases n,
{
    if n < 10 {
        seq![digit_char(n)]
    } else {
        decimal_chars(n / 10).push(digit_char(n % 10))
    }
}

/// The text of decimal digit `d`.
fn digit_str(d: u32) -> (r: &'static str)
    requires
        d < 10,
    ensures
        r@ == seq![digit_char(d as nat)],
{
    proof {
        reveal_strlit("0");
        reveal_strlit("1");
        reveal_strlit("2");
        reveal_strlit("3");
        reveal_strlit("4");
        reveal_strlit("5");
        reveal_strlit("6");
        reveal_strlit("7");
        reveal_strlit("8");
        reveal_strlit("9");
    }
    if d == 0 {
        "0"
    } else if d == 1 {
        "1"
    } else if d == 2 {
        "2"
    } else if d == 3 {
        "3"
    } else if d == 4 {
        "4"
    } else if d == 5 {
        "5"
    } else if d == 6 {
        "6"
    } else if d == 7 {
        "7"
    } else if d == 8 {
        "8"
    } else {
        "9"
    }
}

fn append_decimal(out: &mut String, n: u32)
    ensures
        final(out)@ == old(out)@ + decimal_chars(n as nat),
    decreases n,
{
    if n >= 10 {
        append_decimal(out, n / 10);
    }
    out.append(digit_str(n % 10));
    assert(out@ =~= old(out)@ + decimal_chars(n as nat));
}

/// The decimal text of `n`, without leading zeros ("0" for zero).
pub fn decimal_text(n: u32) -> (r: String)
    ensures
        r@ == decimal_chars(n as nat),
{
    let mut out = String::new();
    append_decimal(&mut out, n);
    assert(out@ =~= decimal_chars(n as nat));
    out
}

proof fn lemma_decimal_chars_value(n: nat)
    ensures
        is_ascii_chars(decimal_chars(n)),
        decimal_chars(n).len() >= 1,
        decimal_chars(n)[0] != '+',
        all_digits(Seq::new(decimal_chars(n).len(), |i: int| decimal_chars(n)[i] as u8)),
        dec_value(Seq::new(decimal_chars(n).len(), |i: int| decimal_chars(n)[i] as u8)) == n,
    decreases n,
{
    let cs = decimal_chars(n);
    let bs = Seq::new(cs.len(), |i: int| cs[i] as u8);
    if n < 10 {
        assert(bs.drop_last() =~= Seq::<u8>::empty());
        assert(dec_value(Seq::<u8>::empty()) == 0);
    } else {
        lemma_decimal_chars_value(n / 10);
        let ps = decimal_chars(n / 10);
        let pb = Seq::new(ps.len(), |i: int| ps[i] as u8);
        assert(bs.drop_last() =~= pb);
        assert(cs[0] == ps[0]);
        assert forall|i: int| 0 <= i < bs.len() implies is_digit(#[trigger] bs[i]) by {
            if i < bs.len() - 1 {
                assert(bs[i] == pb[i]);
            }
        }
        assert(n == (n / 10) * 10 + n % 10);
    }
}

/// The decimal text of a number parses back to that number.
pub proof fn lemma_decimal_text_parses(n: u32)
    ensures
        parse_u32_spec(encode_utf8(decimal_chars(n as nat))) == Some(n),
{
    let cs = decimal_chars(n as nat);
    lemma_decimal_chars_value(n as nat);
    is_ascii_chars_encode_utf8(cs);
    assert(encode_utf8(cs) =~= Seq::new(cs.len(), |i: int| cs[i] as u8));
}

/// What `s` denotes as an unsigned 32-bit decimal number: an optional '+'
/// followed by one or more digits, of value at most `u32::MAX`.
pub open spec fn parse_u32_spec(s: Seq<u8>) -> Option<u32> {
    let digits = if s.len() > 0 && s[0] == PLUS_SIGN {
        s.drop_first()
    } else {
        s
    };
    if digits.len() > 0 && all_digits(digits) && dec_value(digits) <= u32::MAX {
        Some(dec_value(digits) as u32)
    } else {
        None
    }
}

/// What `s` denotes as an IPv4 address octet: "0", or one to three digits
/// without a leading zero, of value at most 255.
pub open spec fn parse_octet_spec(s: Seq<u8>) -> Option<u8> {
    if 1 <= s.len() <= 3 && all_digits(s) && (s.len() == 1 || s[0] != DIGIT_ZERO) && dec_value(s) <= 255 {
        Some(dec_value(s) as u8)
    } else {
        None
    }
}

proof fn lemma_dec_value_grows(s: Seq<u8>, i: int)
    requires
        0 <= i <= s.len(),
        all_digits(s),
    ensures
        dec_value(s.take(i)) <= dec_value(s),
    decreases s.len() - i,
{
    if i < s.len() {
        lemma_dec_value_grows(s, i + 1);
        assert(s.take(i + 1).drop_last() =~= s.take(i));
        assert(is_digit(s[i]));
    } else {
        assert(s.take(i) =~= s);
    }
}

/// Reads the digits `s[from..]`, failing on a non-digit, on no digits, or
/// where the value exceeds `limit`.
fn read_digits(s: &[u8], from: usize, limit: u32) -> (r: Option<u32>)
    requires
        from <= s@.len(),
    ensures
        ({
            let d = s@.subrange(from as int, s@.len() as int);
            r == if d.len() > 0 && all_digits(d) && dec_value(d) <= limit {
                Some(dec_value(d) as u32)
            } else {
                None::<u32>
            }
        }),
{
    let ghost d = s@.subrange(from as int, s@.len() as int);
    if from == s.len() {
        return None;
    }
    let mut i: usize = from;
    while i < s.len()
        invariant
            from <= i <= s@.len(),
            d == s@.subrange(from as int, s@.len() as int),
            forall|j: int| from <= j < i ==> is_digit(#[trigger] s@[j]),
        decreases s@.len() - i,
    {
        if !(DIGIT_ZERO <= s[i] && s[i] <= DIGIT_NINE) {
            assert(!is_digit(d[i - from]));
            return None;
        }
        i = i + 1;
    }
    assert(all_digits(d));
    let mut v: u64 = 0;
    let mut k: usize = from;
    while k < s.len()
        invariant
            from <= k <= s@.len(),
            d == s@.subrange(from as int, s@.len() as int),
            all_digits(d),
            v == dec_value(d.take(k - from)),
            v <= limit,
        decreases s@.len() - k,
    {
        assert(d.take(k - from + 1).drop_last() =~= d.take(k - from));
        assert(d.take(k - from + 1).last() == s@[k as int]);
        assert(is_digit(d[k - from]));
        let next: u64 = v * 10 + (s[k] - DIGIT_ZERO) as u64;
        if next > limit as u64 {
            proof {
                lemma_dec_value_grows(d, k - from + 1);
            }
            return None;
        }
        v = next;
        k = k + 1;
    }
    assert(d.take(k - from) =~= d);
    Some(v as u32)
}

/// Parses an unsigned 32-bit decimal number (see [`parse_u32_spec`]).
pub fn parse_u32(s: &[u8]) -> (r: Option<u32>)
    ensures
        r == parse_u32_spec(s@),
{
    if s.len() > 0 && s[0] == PLUS_SIGN {
        assert(s@.subrange(1, s@.len() as int) =~= s@.drop_first());
        read_digits(s, 1, u32::MAX)
    } else {
        assert(s@.subrange(0, s@.len() as int) =~= s@);
        read_digits(s, 0, u32::MAX)
    }
}

/// Parses an IPv4 address octet (see [`parse_octet_spec`]).
pub fn parse_octet(s: &[u8]) -> (r: Option<u8>)
    ensures
        r == parse_octet_spec(s@),
{
    if s.len() == 0 || s.len() > 3 || (s.len() > 1 && s[0] == DIGIT_ZERO) {
        return None;
    }
    assert(s@.subrange(0, s@.len() as int) =~= s@);
    match read_digits(s, 0, 255) {
        Some(v) => Some(v as u8),
        None => None,
    }
}

} // verus!
