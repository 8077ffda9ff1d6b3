use mev_share_client::json::{
    bool_json, bundle_to_json, data_json, decimal_text, hints_to_json, inclusion_to_json,
    quantity_json, string_json,
};
use mev_share_client::types::{
    Bundle, BundleTx, HintPreference, InclusionParams, PrivacyParams, ProtocolVersion, Refund,
    RefundConfig, ValidityParams,
};

fn hash_hex(b: u8) -> String {
    format!("{:02x}", b).repeat(32)
}

#[test]
fn minimal_bundle_has_block_0x100_and_omits_absent_fields() {
    let b = Bundle {
        version: ProtocolVersion::V1,
        inclusion: InclusionParams { block: 0x100, max_block: None },
        body: vec![BundleTx::TxHash { hash: [0xab; 32] }],
        validity: None,
        privacy: None,
    };
    let expected = format!(
        "{{\"version\":\"v0.1\",\"inclusion\":{{\"block\":\"0x100\"}},\"body\":[{{\"hash\":\"0x{}\"}}]}}",
        hash_hex(0xab)
    );
    assert_eq!(bundle_to_json(&b), expected);
}

#[test]
fn full_bundle_keeps_body_order_and_all_fields() {
    let b = Bundle {
        version: ProtocolVersion::V1,
        inclusion: InclusionParams { block: 16, max_block: Some(20) },
        body: vec![
            BundleTx::Tx { tx: vec![0x02, 0xf8], can_revert: true },
            BundleTx::TxHash { hash: [0x01; 32] },
        ],
        validity: Some(ValidityParams {
            refund: Some(vec![Refund { body_idx: 1, percent: 90 }]),
            refund_config: Some(vec![RefundConfig { address: "0xabc".to_string(), percent: 100 }]),
        }),
        privacy: Some(PrivacyParams {
            hints: Some(HintPreference {
                calldata: Some(true),
                contract_address: None,
                function_selector: Some(false),
                logs: None,
                tx_hash: Some(true),
            }),
            builders: vec!["flashbots".to_string(), "titan".to_string()],
        }),
    };
    let mut expected = String::new();
    expected.push_str("{\"version\":\"v0.1\",\"inclusion\":{\"block\":\"0x10\",\"maxBlock\":\"0x14\"},");
    expected.push_str(&format!("\"body\":[{{\"tx\":\"0x02f8\",\"canRevert\":true}},{{\"hash\":\"0x{}\"}}],", hash_hex(0x01)));
    expected.push_str("\"validity\":{\"refund\":[{\"bodyIdx\":1,\"percent\":90}],");
    expected.push_str("\"refundConfig\":[{\"address\":\"0xabc\",\"percent\":100}]},");
    expected.push_str("\"privacy\":{\"hints\":{\"calldata\":true,\"functionSelector\":false,\"txHash\":true},");
    expected.push_str("\"builders\":[\"flashbots\",\"titan\"]}}");
    assert_eq!(bundle_to_json(&b), expected);
}

#[test]
fn empty_lists_and_objects() {
    let b = Bundle {
        version: ProtocolVersion::V1,
        inclusion: InclusionParams { block: 0, max_block: None },
        body: vec![],
        validity: Some(ValidityParams { refund: None, refund_config: Some(vec![]) }),
        privacy: Some(PrivacyParams { hints: None, builders: vec![] }),
    };
    assert_eq!(
        bundle_to_json(&b),
        "{\"version\":\"v0.1\",\"inclusion\":{\"block\":\"0x0\"},\"body\":[],\"validity\":{\"refundConfig\":[]},\"privacy\":{\"builders\":[]}}"
    );
}

#[test]
fn strings_are_escaped() {
    assert_eq!(string_json("a\"b\\c\n"), "\"a\\\"b\\\\c\\u000a\"");
    assert_eq!(string_json(""), "\"\"");
    assert_eq!(string_json("é"), "\"é\"");
}

#[test]
fn scalar_texts() {
    assert_eq!(decimal_text(0), "0");
    assert_eq!(decimal_text(1234), "1234");
    assert_eq!(decimal_text(u64::MAX), "18446744073709551615");
    assert_eq!(bool_json(true), "true");
    assert_eq!(bool_json(false), "false");
    assert_eq!(data_json(&[0x00, 0xff]), "\"0x00ff\"");
    assert_eq!(quantity_json(0x100), "\"0x100\"");
    assert_eq!(inclusion_to_json(&InclusionParams { block: 1, max_block: Some(2) }), "{\"block\":\"0x1\",\"maxBlock\":\"0x2\"}");
    let none = HintPreference { calldata: None, contract_address: None, function_selector: None, logs: None, tx_hash: None };
    assert_eq!(hints_to_json(&none), "{}");
}
