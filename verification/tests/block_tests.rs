use tracker_engine::block::{
    reassemble, BLOCK_LEN, BLOCK_SIZE, CRC_INDEX, PACKETS_IN_BLOCK,
};
use tracker_engine::crc::compute_crc16;
use tracker_engine::errors::BlockError;

fn make_block(payload: &[u8]) -> Vec<u8> {
    assert_eq!(payload.len(), BLOCK_SIZE);
    let mut block = vec![126u8, 6, 0, 0];
    block.extend_from_slice(payload);
    let c = compute_crc16(&block[1..CRC_INDEX]);
    block.push((c >> 8) as u8);
    block.push(c as u8);
    while block.len() < BLOCK_LEN {
        block.push(0);
    }
    block
}

fn sample_payload() -> Vec<u8> {
    (0..BLOCK_SIZE).map(|i| (i * 7 + 3) as u8).collect()
}

#[test]
fn block_constants_are_consistent() {
    assert_eq!(PACKETS_IN_BLOCK, 206);
    assert_eq!(BLOCK_SIZE, 4096);
    assert_eq!(BLOCK_LEN, 4120);
    assert_eq!(CRC_INDEX, 4100);
    assert_eq!(CRC_INDEX, BLOCK_SIZE + 4);
}

#[test]
fn valid_block_reassembles_to_its_payload() {
    let payload = sample_payload();
    let block = make_block(&payload);
    let out = reassemble(&block).unwrap();
    assert_eq!(out.len(), BLOCK_SIZE);
    assert_eq!(out, payload);
}

#[test]
fn flipping_one_payload_bit_is_crc_mismatch() {
    let payload = sample_payload();
    for pos in [0usize, 1000, 4095] {
        for bit in [0u8, 3, 7] {
            let mut corrupted = payload.clone();
            corrupted[pos] ^= 1 << bit;
            let block = make_block(&payload);
            let mut bad = block.clone();
            bad[4 + pos] = corrupted[pos];
            assert!(matches!(reassemble(&bad), Err(BlockError::CrcMismatch { .. })));
        }
    }
}

#[test]
fn crc_mismatch_reports_both_values() {
    let payload = sample_payload();
    let mut block = make_block(&payload);
    block[100] ^= 0x10;
    let expected = compute_crc16(&block[1..CRC_INDEX]);
    let actual = ((block[CRC_INDEX] as u16) << 8) | (block[CRC_INDEX + 1] as u16);
    assert_eq!(reassemble(&block), Err(BlockError::CrcMismatch { expected, actual }));
}

#[test]
fn block_with_wrong_tag_is_rejected() {
    let mut block = make_block(&sample_payload());
    block[0] = 0;
    assert_eq!(reassemble(&block), Err(BlockError::BadTag { tag: 0 }));
}

#[test]
fn block_with_wrong_opcode_is_rejected() {
    let mut block = make_block(&sample_payload());
    block[1] = 5;
    assert_eq!(reassemble(&block), Err(BlockError::BadOpcode { opcode: 5 }));
}
