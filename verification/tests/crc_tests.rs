use tracker_engine::crc::{compute_crc, compute_crc16};

#[test]
fn crc_of_empty_input_is_zero() {
    assert_eq!(compute_crc16(&[]), 0);
}

#[test]
fn crc_is_deterministic() {
    let data = [1u8, 2, 3, 4, 5, 250, 251, 252];
    assert_eq!(compute_crc16(&data), compute_crc16(&data));
}

#[test]
fn crc_is_order_sensitive() {
    assert_ne!(compute_crc16(&[1u8, 2]), compute_crc16(&[2u8, 1]));
    assert_ne!(compute_crc16(&[10u8, 20, 30]), compute_crc16(&[30u8, 20, 10]));
}

#[test]
fn crc_single_bytes_match_lookup_table() {
    // Known entries of the standard 256-entry CRC-16/XMODEM lookup table:
    // the checksum of the single byte `b` is the table entry at index `b`.
    assert_eq!(compute_crc16(&[0]), 0);
    assert_eq!(compute_crc16(&[1]), 4129);
    assert_eq!(compute_crc16(&[2]), 8258);
    assert_eq!(compute_crc16(&[3]), 12387);
    assert_eq!(compute_crc16(&[16]), 4657);
    assert_eq!(compute_crc16(&[128]), 37256);
    assert_eq!(compute_crc16(&[254]), 3793);
    assert_eq!(compute_crc16(&[255]), 7920);
}

#[test]
fn crc_matches_xmodem_check_value() {
    // The standard check input of CRC-16/XMODEM.
    assert_eq!(compute_crc16(b"123456789"), 0x31C3);
}

#[test]
fn crc_bytes_are_big_endian_split() {
    let c = compute_crc16(b"123456789");
    let parts = compute_crc(b"123456789");
    assert_eq!(parts[0], (c >> 8) as u8);
    assert_eq!(parts[1], c as u8);
    assert_eq!(compute_crc(&[]), [0u8, 0]);
}
