use mev_share_client::selector::{FunctionSelector, SelectorError};

#[test]
fn selector_text_is_prefixed_lowercase_hex() {
    let s = FunctionSelector([0xa9, 0x05, 0x9c, 0xbb]);
    assert_eq!(s.to_string(), "0xa9059cbb");
    assert_eq!(s.hex_encode(), "a9059cbb");
}

#[test]
fn selector_parses_with_and_without_prefix() {
    assert_eq!(FunctionSelector::parse("0xa9059cbb").unwrap().0, [0xa9, 0x05, 0x9c, 0xbb]);
    assert_eq!(FunctionSelector::parse("A9059CBB").unwrap().0, [0xa9, 0x05, 0x9c, 0xbb]);
    assert_eq!(FunctionSelector::parse("00000000").unwrap().0, [0, 0, 0, 0]);
}

#[test]
fn selector_of_wrong_length_is_refused() {
    assert_eq!(FunctionSelector::parse("0x1234"), Err(SelectorError::WrongLength));
    assert_eq!(FunctionSelector::parse("0xa9059cbb00"), Err(SelectorError::WrongLength));
    assert_eq!(FunctionSelector::parse(""), Err(SelectorError::WrongLength));
    assert_eq!(FunctionSelector::parse("0x0xa9059cbb"), Err(SelectorError::WrongLength));
}

#[test]
fn selector_with_non_hex_digit_is_refused() {
    assert_eq!(FunctionSelector::parse("0xzz059cbb"), Err(SelectorError::InvalidHex));
    assert_eq!(FunctionSelector::parse("a9059cbg"), Err(SelectorError::InvalidHex));
}

#[test]
fn selector_text_round_trips() {
    let s = FunctionSelector::from_bytes([0x00, 0xff, 0x10, 0x7e]);
    let back = FunctionSelector::parse(&s.to_string()).unwrap();
    assert_eq!(back, s);
    assert!(back.eq_bytes(&[0x00, 0xff, 0x10, 0x7e]));
    assert!(!back.eq_bytes(&[0x00, 0xff, 0x10, 0x7f]));
    assert_eq!(back.as_bytes(), [0x00, 0xff, 0x10, 0x7e]);
}

#[test]
fn selector_from_slice_needs_four_bytes() {
    assert_eq!(FunctionSelector::from_slice(&[1, 2, 3, 4]), Some(FunctionSelector([1, 2, 3, 4])));
    assert_eq!(FunctionSelector::from_slice(&[1, 2, 3]), None);
    assert_eq!(FunctionSelector::from_slice(&[1, 2, 3, 4, 5]), None);
}
