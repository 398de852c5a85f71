//! Autonomous system number (ASN).
use vstd::prelude::*;

use vstd::string::StringSliceAdditionalSpecFns;

use vstd::string::StringExecFns;

use crate::decimal::{decimal_chars, decimal_text, parse_u32, parse_u32_spec};

verus! {

/// Autonomous system number (ASN): a number in one of the assigned ranges,
/// or "unspecified" (written as the number 0).
#[derive(Debug, Clone, Copy, PartialEq, Eq, Structural, PartialOrd, Ord, Hash)]
pub struct Asn(AsnData);

#[derive(Debug, Clone, Copy, PartialEq, Eq, Structural, PartialOrd, Ord, Hash)]
enum AsnData {
    Unspecified,
    Specified(u32),
}

/// Error to indicate an invalid ASN for any reason, most typically being
/// because it is within the reserved space.
#[derive(Debug, Clone)]
#[non_exhaustive]
pub struct InvalidAsn;

/// Whether `value` lies in one of the ranges of assignable ASNs.
pub open spec fn valid_asn_range(value: u32) -> bool {
    (1 <= value <= 23455) || (23457 <= value <= 64495) || (131072 <= value <= 4294967294)
}

/// Whether `value` is a valid ASN: 0 ("unspecified") or an assignable one.
pub open spec fn valid_asn(value: u32) -> bool {
    value == 0 || valid_asn_range(value)
}

/// Whether `value` lies in one of the ranges of assignable ASNs.
pub fn is_valid_asn_range(value: u32) -> (r: bool)
    ensures
        r == valid_asn_range(value),
{
    (value >= 1 && value <= 23455) || (value >= 23457 && value <= 64495) || (value >= 131072 && value
        <= 4294967294)
}

impl Asn {
    /// The number this ASN stands for, 0 when unspecified.
    pub closed spec fn spec_u32(&self) -> u32 {
        match self.0 {
            AsnData::Specified(n) => n,
            AsnData::Unspecified => 0,
        }
    }

    /// Every ASN holds a valid number; 0 only as "unspecified".
    pub closed spec fn wf(&self) -> bool {
        match self.0 {
            AsnData::Specified(n) => valid_asn_range(n),
            AsnData::Unspecified => true,
        }
    }

    /// The canonical text of this ASN: `AS<n>` or `unspecified`.
    pub open spec fn spec_text(&self) -> Seq<char> {
        if self.spec_u32() == 0 {
            seq!['u', 'n', 's', 'p', 'e', 'c', 'i', 'f', 'i', 'e', 'd']
        } else {
            seq!['A', 'S'] + decimal_chars(self.spec_u32() as nat)
        }
    }

    /// Create a valid ASN from a number known to be valid.
    pub fn from_static(value: u32) -> (r: Self)
        requires
            valid_asn(value),
        ensures
            r.wf(),
            r.spec_u32() == value,
    {
        if value == 0 {
            return Asn(AsnData::Unspecified);
        }
        Asn(AsnData::Specified(value))
    }

    /// The ASN of an AS with an unspecified number, or of a router that can
    /// route to the AS of a given ASN.
    pub fn unspecified() -> (r: Self)
        ensures
            r.wf(),
            r.spec_u32() == 0,
    {
        Asn(AsnData::Unspecified)
    }

    /// Return [`Asn`] as u32, 0 when unspecified.
    pub fn as_u32(&self) -> (r: u32)
        ensures
            r == self.spec_u32(),
    {
        match self.0 {
            AsnData::Specified(n) => n,
            AsnData::Unspecified => 0,
        }
    }

    /// Whether this ASN is "unspecified", and so stands for any AS.
    pub fn is_any(&self) -> (r: bool)
        requires
            self.wf(),
        ensures
            r == (self.spec_u32() == 0),
    {
        match self.0 {
            AsnData::Specified(_) => false,
            AsnData::Unspecified => true,
        }
    }

    /// Validates `value` as an ASN: 0 gives "unspecified", a number in an
    /// assignable range gives that ASN, any other number fails.
    pub fn try_from_u32(value: u32) -> (r: Result<Self, InvalidAsn>)
        ensures
            r is Ok <==> valid_asn(value),
            r is Ok ==> r->Ok_0.wf() && r->Ok_0.spec_u32() == value,
    {
        if value == 0 {
            return Ok(Asn(AsnData::Unspecified));
        }
        if is_valid_asn_range(value) {
            Ok(Asn(AsnData::Specified(value)))
        } else {
            Err(InvalidAsn)
        }
    }

    /// Parses a decimal number (an optional '+' and digits) and validates it
    /// as an ASN.
    pub fn try_from_bytes(value: &[u8]) -> (r: Result<Self, InvalidAsn>)
        ensures
            r is Ok <==> parse_u32_spec(value@) is Some && valid_asn(parse_u32_spec(value@)->Some_0),
            r is Ok ==> r->Ok_0.wf() && r->Ok_0.spec_u32() == parse_u32_spec(value@)->Some_0,
    {
        match parse_u32(value) {
            Some(n) => Asn::try_from_u32(n),
            None => Err(InvalidAsn),
        }
    }

    /// Parses a decimal number (an optional '+' and digits) and validates it
    /// as an ASN.
    pub fn try_from_str(value: &str) -> (r: Result<Self, InvalidAsn>)
        ensures
            r is Ok <==> parse_u32_spec(value.spec_bytes()) is Some && valid_asn(
                parse_u32_spec(value.spec_bytes())->Some_0,
            ),
            r is Ok ==> r->Ok_0.wf() && r->Ok_0.spec_u32() == parse_u32_spec(value.spec_bytes())->Some_0,
    {
        Asn::try_from_bytes(value.as_bytes())
    }

    /// The canonical text of this ASN: `AS<n>` or `unspecified`.
    pub fn to_text(&self) -> (r: String)
        requires
            self.wf(),
        ensures
            r@ == self.spec_text(),
    {
        match self.0 {
            AsnData::Specified(n) => {
                let prefix = "AS".to_string();
                proof {
                    reveal_strlit("AS");
                }
                let digits = decimal_text(n);
                prefix.concat(digits.as_str())
            },
            AsnData::Unspecified => {
                let r = "unspecified".to_string();
                proof {
                    reveal_strlit("unspecified");
                }
                r
            },
        }
    }
}

/// Two valid ASNs that stand for the same number are the same ASN.
pub proof fn lemma_asn_eq(a: Asn, b: Asn)
    requires
        a.wf(),
        b.wf(),
        a.spec_u32() == b.spec_u32(),
    ensures
        a == b,
{
}

/// The bare decimal digits of a valid ASN's number parse back to that ASN:
/// they denote the same number, which is valid, and every valid ASN with
/// that number equals `a`.
pub proof fn lemma_digits_parse_back(a: Asn)
    requires
        a.wf(),
    ensures
        parse_u32_spec(vstd::utf8::encode_utf8(decimal_chars(a.spec_u32() as nat))) == Some(a.spec_u32()),
        valid_asn(a.spec_u32()),
        forall|b: Asn| b.wf() && b.spec_u32() == a.spec_u32() ==> b == a,
{
    crate::decimal::lemma_decimal_text_parses(a.spec_u32());
    assert forall|b: Asn| b.wf() && b.spec_u32() == a.spec_u32() implies b == a by {
        lemma_asn_eq(a, b);
    }
}

/// The canonical text of an ASN never parses back as an ASN: it starts
/// with a letter, where a number allows only a sign or a digit.
pub proof fn lemma_text_does_not_parse(a: Asn)
    ensures
        parse_u32_spec(vstd::utf8::encode_utf8(a.spec_text())) is None,
{
    let t = a.spec_text();
    let c = t[0];
    assert(c == 'A' || c == 'u');
    assert(vstd::utf8::encode_utf8(t) == vstd::utf8::encode_scalar(c as u32) + vstd::utf8::encode_utf8(t.drop_first()));
    assert((65u32 & 0x7Fu32) == 65u32) by (bit_vector);
    assert((117u32 & 0x7Fu32) == 117u32) by (bit_vector);
    let b = vstd::utf8::encode_utf8(t);
    assert(b[0] == 65u8 || b[0] == 117u8);
}

} // verus!
