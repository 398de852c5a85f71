use rama::asn::Asn;
use rama::decimal::decimal_text;

#[test]
fn asn_zero_is_unspecified() {
    let asn = Asn::try_from_u32(0).unwrap();
    assert_eq!(asn, Asn::unspecified());
    assert!(asn.is_any());
    assert_eq!(asn.as_u32(), 0);
    assert_eq!(asn.to_text(), "unspecified");
}

#[test]
fn asn_reserved_gap_fails() {
    assert!(Asn::try_from_u32(23456).is_err());
    assert!(Asn::try_from_str("23456").is_err());
}

#[test]
fn asn_largest_valid_succeeds() {
    let asn = Asn::try_from_u32(4294967294).unwrap();
    assert_eq!(asn.as_u32(), 4294967294);
    assert!(!asn.is_any());
    assert!(Asn::try_from_u32(4294967295).is_err());
}

#[test]
fn asn_range_edges() {
    for ok in [1u32, 23455, 23457, 64495, 131072] {
        assert_eq!(Asn::try_from_u32(ok).unwrap().as_u32(), ok);
    }
    for bad in [64496u32, 100000, 131071] {
        assert!(Asn::try_from_u32(bad).is_err());
    }
}

#[test]
fn asn_from_static() {
    assert_eq!(Asn::from_static(0), Asn::unspecified());
    assert_eq!(Asn::from_static(15169).as_u32(), 15169);
}

#[test]
fn asn_text_and_parse_are_asymmetric() {
    let asn = Asn::try_from_u32(15169).unwrap();
    let text = asn.to_text();
    assert_eq!(text, "AS15169");
    assert!(Asn::try_from_str(&text).is_err());
    assert!(Asn::try_from_str(&Asn::unspecified().to_text()).is_err());
    assert_eq!(Asn::try_from_str("15169").unwrap(), asn);
}

#[test]
fn asn_parse_forms() {
    assert_eq!(Asn::try_from_str("+15169").unwrap().as_u32(), 15169);
    assert_eq!(Asn::try_from_str("0").unwrap(), Asn::unspecified());
    assert!(Asn::try_from_str("").is_err());
    assert!(Asn::try_from_str("+").is_err());
    assert!(Asn::try_from_str("-1").is_err());
    assert!(Asn::try_from_str(" 1").is_err());
    assert!(Asn::try_from_str("4294967296").is_err());
    assert!(Asn::try_from_str("99999999999999999999").is_err());
    assert_eq!(Asn::try_from_bytes(b"64495").unwrap().as_u32(), 64495);
    assert!(Asn::try_from_bytes(&[0xff, 0x31]).is_err());
}

#[test]
fn decimal_text_digits() {
    assert_eq!(decimal_text(0), "0");
    assert_eq!(decimal_text(7), "7");
    assert_eq!(decimal_text(10), "10");
    assert_eq!(decimal_text(4294967295), "4294967295");
}

#[test]
fn asn_bare_digits_parse_back() {
    for n in [0u32, 1, 23455, 23457, 64495, 131072, 4294967294] {
        let asn = Asn::try_from_u32(n).unwrap();
        assert_eq!(Asn::try_from_str(&decimal_text(asn.as_u32())).unwrap(), asn);
        assert!(Asn::try_from_str(&asn.to_text()).is_err());
    }
}
