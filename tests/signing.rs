use mev_share_client::signing::{
    attach_signature, signature_header, signing_message, SigningError, SIGNATURE_HEADER,
};

const ADDRESS: [u8; 20] = [
    0x5a, 0xae, 0xb6, 0x05, 0x3f, 0x3e, 0x94, 0xc9, 0xb9, 0xa0, 0x9f, 0x33, 0x66, 0x94, 0x35, 0xe7,
    0xef, 0x1b, 0xea, 0xed,
];

#[test]
fn signing_message_of_empty_body() {
    assert_eq!(
        signing_message(&[]),
        "0xc5d2460186f7233c927e7db2dcc703c0e500b653ca82273b7bfad8045d85a470"
    );
}

#[test]
fn signing_message_is_deterministic() {
    let body = br#"{"jsonrpc":"2.0","id":0,"method":"mev_sendBundle","params":[]}"#;
    let a = signing_message(body);
    let b = signing_message(body);
    assert_eq!(a, b);
    assert_eq!(a.len(), 66);
    assert_ne!(a, signing_message(b"other"));
}

#[test]
fn header_value_has_checksummed_address_and_hex_signature() {
    let h = signature_header(&ADDRESS, &[0x01, 0xab, 0xff]);
    assert_eq!(h, "0x5aAeb6053F3E94C9b9A09f33669435E7Ef1BeAed:0x01abff");
}

#[test]
fn header_address_component_is_signer_address_for_every_signature() {
    for sig in [vec![0u8; 65], vec![7u8; 65], vec![0xfe, 0x01]] {
        let h = signature_header(&ADDRESS, &sig);
        let (addr, rest) = h.split_once(':').unwrap();
        assert_eq!(addr, "0x5aAeb6053F3E94C9b9A09f33669435E7Ef1BeAed");
        assert_eq!(rest.len(), 2 + 2 * sig.len());
    }
}

#[test]
fn signer_failure_forwards_nothing() {
    let r = attach_signature(b"body".to_vec(), &ADDRESS, Err(SigningError::SignerFailed));
    assert!(matches!(r, Err(SigningError::SignerFailed)));
}

#[test]
fn signature_is_attached_to_unmodified_body() {
    let r = attach_signature(b"body".to_vec(), &ADDRESS, Ok(vec![0xde, 0xad])).unwrap();
    assert_eq!(r.body, b"body".to_vec());
    assert_eq!(r.header_name, SIGNATURE_HEADER);
    assert_eq!(r.header_name, "x-flashbots-signature");
    assert_eq!(r.header_value, "0x5aAeb6053F3E94C9b9A09f33669435E7Ef1BeAed:0xdead");
}
