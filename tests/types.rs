use mev_share_client::types::{
    Bundle, BundleError, BundleTx, EventHistoryParams, InclusionParams, ProtocolVersion,
    SendBundleResponse, SendBundleResult,
};

#[test]
fn send_bundle_result_carries_response_hash() {
    let response = SendBundleResponse { bundle_hash: "0xdead".to_string() };
    let r = SendBundleResult::from_response(&response);
    assert_eq!(r.bundle_hash, "0xdead");
}

#[test]
fn history_params_builders_set_only_their_fields() {
    let p = EventHistoryParams::default().with_block_start(10);
    assert_eq!(p.block_start, Some(10));
    assert_eq!(p.block_end, None);
    let p = p.with_block_end(20).with_limit(5).with_offset(2);
    assert_eq!((p.block_start, p.block_end, p.limit, p.offset), (Some(10), Some(20), Some(5), Some(2)));
    assert_eq!(p.timestamp_start, None);
    let p = p.with_timestamp_start(100).with_timestamp_end(200);
    assert_eq!((p.timestamp_start, p.timestamp_end), (Some(100), Some(200)));
}

#[test]
fn history_params_range_builders() {
    let p = EventHistoryParams::default().with_block_range(1, 2).with_timestamp_range(3, 4);
    assert_eq!(p.block_start, Some(1));
    assert_eq!(p.block_end, Some(2));
    assert_eq!(p.timestamp_start, Some(3));
    assert_eq!(p.timestamp_end, Some(4));
    assert_eq!(p.limit, None);
    assert_eq!(p.offset, None);
}

#[test]
fn protocol_version_defaults_to_v1() {
    assert_eq!(ProtocolVersion::default(), ProtocolVersion::V1);
}

fn bundle_with(body: Vec<BundleTx>) -> Bundle {
    Bundle {
        version: ProtocolVersion::V1,
        inclusion: InclusionParams { block: 0x100, max_block: None },
        body,
        validity: None,
        privacy: None,
    }
}

#[test]
fn bundle_without_body_is_refused() {
    assert_eq!(bundle_with(vec![]).validate(), Err(BundleError::EmptyBody));
}

#[test]
fn bundle_with_body_is_accepted() {
    let b = bundle_with(vec![
        BundleTx::TxHash { hash: [0xab; 32] },
        BundleTx::Tx { tx: vec![0x02, 0xf8], can_revert: false },
    ]);
    assert_eq!(b.validate(), Ok(()));
    assert_eq!(b.inclusion.block, 256);
    assert!(matches!(b.body[0], BundleTx::TxHash { .. }));
}
