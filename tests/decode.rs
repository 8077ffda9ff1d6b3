use mev_share_client::decode::parse_inclusion;
use mev_share_client::json::inclusion_to_json;
use mev_share_client::types::InclusionParams;

#[test]
fn inclusion_without_max_block_reads_back_as_absent() {
    let p = parse_inclusion("{\"block\":\"0x100\"}").unwrap();
    assert_eq!(p.block, 256);
    assert_eq!(p.max_block, None);
}

#[test]
fn inclusion_with_max_block_reads_back() {
    let p = parse_inclusion("{\"block\":\"0x1\",\"maxBlock\":\"0xff\"}").unwrap();
    assert_eq!(p.block, 1);
    assert_eq!(p.max_block, Some(255));
}

#[test]
fn inclusion_round_trips() {
    for (block, max_block) in [(0u64, None), (16, Some(20)), (u64::MAX, Some(0)), (0x100, None)] {
        let text = inclusion_to_json(&InclusionParams { block, max_block });
        let back = parse_inclusion(&text).unwrap();
        assert_eq!((back.block, back.max_block), (block, max_block));
    }
}

#[test]
fn non_canonical_inclusion_is_refused() {
    assert!(parse_inclusion("{\"block\":\"0x0100\"}").is_none());
    assert!(parse_inclusion("{\"block\":\"0X100\"}").is_none());
    assert!(parse_inclusion("{ \"block\":\"0x100\"}").is_none());
    assert!(parse_inclusion("{\"block\":\"0x100\"").is_none());
    assert!(parse_inclusion("{\"block\":\"0x100\"}x").is_none());
    assert!(parse_inclusion("{\"block\":\"0x1\",\"maxBlock\":\"0x2\",}").is_none());
    assert!(parse_inclusion("{\"block\":0x100}").is_none());
    assert!(parse_inclusion("").is_none());
}
