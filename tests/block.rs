use cosmos::block::{
    block_info_from, lowest_height_hint, transaction_hashes, BlockError, RawBlock, RawBlockResponse,
    RawHeader, Timestamp,
};

fn response(height: i64, txs: Vec<Vec<u8>>) -> RawBlockResponse {
    RawBlockResponse {
        block_id_hash: Some(vec![0x0a, 0xff, 0x10]),
        block: Some(RawBlock {
            header: Some(RawHeader { height, time: Some(Timestamp { seconds: 1_700_000_000, nanos: 5 }) }),
            txs: Some(txs),
        }),
    }
}

#[test]
fn transaction_hashes_are_upper_hex_sha256() {
    let hashes = transaction_hashes(&vec![b"abc".to_vec(), vec![]]);
    assert_eq!(
        hashes,
        vec![
            "BA7816BF8F01CFEA414140DE5DAE2223B00361A396177A9CB410FF61F20015AD".to_owned(),
            "E3B0C44298FC1C149AFBF4C8996FB92427AE41E4649B934CA495991B7852B855".to_owned(),
        ]
    );
}

#[test]
fn block_info_summarises_response() {
    let info = block_info_from(response(42, vec![b"abc".to_vec()]), Some(42)).unwrap();
    assert_eq!(info.height, 42);
    assert_eq!(info.block_hash, "0AFF10");
    assert_eq!(info.timestamp, Timestamp { seconds: 1_700_000_000, nanos: 5 });
    assert_eq!(info.txhashes.len(), 1);
    let latest = block_info_from(response(7, vec![]), None).unwrap();
    assert_eq!(latest.height, 7);
    assert!(latest.txhashes.is_empty());
}

#[test]
fn block_info_rejects_other_height() {
    assert_eq!(
        block_info_from(response(41, vec![]), Some(42)).unwrap_err(),
        BlockError::HeightMismatch { got: 41, expected: 42 }
    );
}

#[test]
fn block_info_reports_missing_parts() {
    let mut r = response(1, vec![]);
    r.block_id_hash = None;
    assert_eq!(block_info_from(r, None).unwrap_err(), BlockError::MissingBlockId);
    let mut r = response(1, vec![]);
    r.block = None;
    assert_eq!(block_info_from(r, None).unwrap_err(), BlockError::MissingBlock);
    let mut r = response(1, vec![]);
    r.block.as_mut().unwrap().header = None;
    assert_eq!(block_info_from(r, None).unwrap_err(), BlockError::MissingHeader);
    let mut r = response(1, vec![]);
    r.block.as_mut().unwrap().header.as_mut().unwrap().time = None;
    assert_eq!(block_info_from(r, None).unwrap_err(), BlockError::MissingTime);
    let mut r = response(1, vec![]);
    r.block.as_mut().unwrap().txs = None;
    assert_eq!(block_info_from(r, None).unwrap_err(), BlockError::MissingData);
}

#[test]
fn lowest_height_hint_phrasings() {
    assert_eq!(
        lowest_height_hint("height 1 is not available, lowest height is 2600001"),
        Some(2600001)
    );
    assert_eq!(
        lowest_height_hint("failed to load state at height 1; version does not exist (latest height: 5, base height: 130)"),
        Some(130)
    );
    assert_eq!(lowest_height_hint("lowest height is  \t77)\n"), Some(77));
    assert_eq!(lowest_height_hint("lowest height is 77 )"), None);
    assert_eq!(lowest_height_hint("lowest height is soon"), None);
    assert_eq!(lowest_height_hint("something else"), None);
    assert_eq!(lowest_height_hint("lowest height is 5 lowest height is 6"), Some(5));
    assert_eq!(lowest_height_hint("lowest height is -3"), Some(-3));
}
