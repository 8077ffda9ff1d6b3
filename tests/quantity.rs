use mev_share_client::quantity::{parse_quantity, quantity_text};

#[test]
fn quantity_text_has_no_leading_zeros() {
    assert_eq!(quantity_text(0x100), "0x100");
    assert_eq!(quantity_text(0), "0x0");
    assert_eq!(quantity_text(15), "0xf");
    assert_eq!(quantity_text(16), "0x10");
    assert_eq!(quantity_text(u64::MAX), "0xffffffffffffffff");
}

#[test]
fn quantity_parses_either_case() {
    assert_eq!(parse_quantity("0x100"), Some(256));
    assert_eq!(parse_quantity("0xFF"), Some(255));
    assert_eq!(parse_quantity("0x0"), Some(0));
    assert_eq!(parse_quantity("0xffffffffffffffff"), Some(u64::MAX));
}

#[test]
fn malformed_quantity_is_refused() {
    assert_eq!(parse_quantity("0x"), None);
    assert_eq!(parse_quantity("100"), None);
    assert_eq!(parse_quantity("0X10"), None);
    assert_eq!(parse_quantity("0x1g"), None);
    assert_eq!(parse_quantity("0x10000000000000000"), None);
}

#[test]
fn quantity_round_trips() {
    for n in [0u64, 1, 9, 10, 255, 256, 0xdead_beef, 1 << 63, u64::MAX] {
        assert_eq!(parse_quantity(&quantity_text(n)), Some(n));
    }
}
