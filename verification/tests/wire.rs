//! ICMP echo wire format: packet bytes, checksum, reply matching.

use nping::{build_echo_request, checksum, is_matching_reply, ICMP_PACKET_SIZE};

#[test]
fn echo_request_has_the_icmp_echo_layout() {
    let p = build_echo_request(0x1234, 0x0102);
    assert_eq!(p.len(), ICMP_PACKET_SIZE);
    assert_eq!(p[0], 8); // echo request
    assert_eq!(p[1], 0); // code
    assert_eq!(&p[4..6], &[0x12, 0x34]); // identifier, big-endian
    assert_eq!(&p[6..8], &[0x01, 0x02]); // sequence, big-endian
    assert!(p[8..].iter().all(|&b| b == 0)); // zeroed payload
}

#[test]
fn checksum_matches_a_hand_computed_value() {
    // words: 0x0800 (type/code), 0x0000 (checksum), 0x1234, 0x0102, zeros
    // sum = 0x0800 + 0x1234 + 0x0102 = 0x1b36; one's complement = 0xe4c9
    let p = build_echo_request(0x1234, 0x0102);
    assert_eq!(&p[2..4], &[0xe4, 0xc9]);
}

#[test]
fn checksum_folds_end_around_carries() {
    // 0xffff + 0xffff = 0x1fffe; fold: 0xfffe + 1 = 0xffff;
    // one's complement = 0x0000
    let data: Vec<u8> = vec![0xff, 0xff, 0xff, 0xff];
    assert_eq!(checksum(&data), 0x0000);
}

#[test]
fn checksum_handles_an_odd_trailing_byte() {
    // words: 0x0102, 0x0300 (trailing byte as high half); sum = 0x0402
    let data: Vec<u8> = vec![0x01, 0x02, 0x03];
    assert_eq!(checksum(&data), !0x0402u16);
}

#[test]
fn packet_sums_to_all_ones_with_its_checksum_in_place() {
    // the receiver's validation: including the checksum word, the
    // end-around-carry sum of a valid packet is 0xffff
    let p = build_echo_request(0xbeef, 0x7a21);
    let mut sum: u32 = 0;
    for w in p.chunks(2) {
        sum += u32::from(w[0]) << 8 | u32::from(w[1]);
    }
    while sum >> 16 != 0 {
        sum = (sum & 0xffff) + (sum >> 16);
    }
    assert_eq!(sum, 0xffff);
}

fn reply_bytes(icmp_type: u8, identifier: u16, seq: u16) -> Vec<u8> {
    let mut p = vec![0u8; 16];
    p[0] = icmp_type;
    p[4] = (identifier >> 8) as u8;
    p[5] = (identifier & 0xff) as u8;
    p[6] = (seq >> 8) as u8;
    p[7] = (seq & 0xff) as u8;
    p
}

#[test]
fn matching_accepts_the_answering_reply() {
    let r = reply_bytes(0, 0x1234, 7);
    assert!(is_matching_reply(&r, 0x1234, 7));
}

#[test]
fn matching_rejects_wrong_identifier_with_correct_sequence() {
    let r = reply_bytes(0, 0x1234, 7);
    assert!(!is_matching_reply(&r, 0x1235, 7));
}

#[test]
fn matching_rejects_stale_sequence_with_correct_identifier() {
    let r = reply_bytes(0, 0x1234, 7);
    assert!(!is_matching_reply(&r, 0x1234, 6));
}

#[test]
fn matching_rejects_wrong_message_type() {
    // an echo request (type 8) with the right fields is not a reply
    let r = reply_bytes(8, 0x1234, 7);
    assert!(!is_matching_reply(&r, 0x1234, 7));
}

#[test]
fn matching_rejects_a_truncated_packet() {
    let r = vec![0u8; 7];
    assert!(!is_matching_reply(&r, 0, 0));
}
