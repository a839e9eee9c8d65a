//! ICMP echo wire format: packet construction, the ICMP checksum, and
//! reply filtering by message type, identifier and sequence number.
//!
//! An echo request is type 8, code 0, a 16-bit checksum, a 16-bit
//! identifier and a 16-bit sequence number, all big-endian, followed by
//! the payload. The checksum is the one's complement of the
//! end-around-carry sum of the packet's big-endian 16-bit words, with the
//! checksum field itself zeroed during computation.

use vstd::prelude::*;

verus! {

/// ICMP message type of an echo request.
pub const ICMP_ECHO_REQUEST: u8 = 8;

/// ICMP message type of an echo reply.
pub const ICMP_ECHO_REPLY: u8 = 0;

/// Size in bytes of the echo requests this library builds: the 8-byte
/// ICMP header followed by a zeroed payload.
pub const ICMP_PACKET_SIZE: usize = 64;

/// The big-endian 16-bit word at byte offset `i`.
pub open spec fn be16_at(s: Seq<u8>, i: int) -> int {
    s[i] * 0x100 + s[i + 1]
}

/// Sum of the big-endian 16-bit words of `s` from byte offset `i` on; an
/// odd trailing byte counts as the high byte of a final word.
pub open spec fn word_sum_from(s: Seq<u8>, i: int) -> int
    decreases s.len() - i,
{
    if i < 0 || i >= s.len() {
        0
    } else if i + 1 == s.len() {
        s[i] * 0x100
    } else {
        s[i] * 0x100 + s[i + 1] + word_sum_from(s, i + 2)
    }
}

/// Sum of all big-endian 16-bit words of a packet.
pub open spec fn word_sum(s: Seq<u8>) -> int {
    word_sum_from(s, 0)
}

/// One end-around-carry step: fold the bits above 16 back into the low
/// 16 bits.
pub open spec fn fold16(x: int) -> int {
    x % 0x10000 + x / 0x10000
}

/// The ICMP checksum of a packet whose checksum field holds zero: the
/// one's complement of the end-around-carry sum of its big-endian 16-bit
/// words. Two folds settle every carry of a word sum below 2^32.
pub open spec fn icmp_checksum(s: Seq<u8>) -> int {
    0xffff - fold16(fold16(word_sum(s)))
}

/// A well-formed echo request carrying `identifier` and `seq`: correct
/// type, code and checksum, and a zeroed payload.
pub open spec fn echo_request_wf(s: Seq<u8>, identifier: u16, seq: u16) -> bool {
    &&& s.len() == ICMP_PACKET_SIZE
    &&& s[0] == ICMP_ECHO_REQUEST
    &&& s[1] == 0
    &&& be16_at(s, 2) == icmp_checksum(s.update(2, 0u8).update(3, 0u8))
    &&& be16_at(s, 4) == identifier
    &&& be16_at(s, 6) == seq
    &&& forall|i: int| 8 <= i < s.len() ==> s[i] == 0
}

/// The ICMP checksum of `data`, whose checksum field must already be
/// zeroed (or absent).
pub fn checksum(data: &[u8]) -> (ck: u16)
    requires
        data@.len() <= 0xffff,
    ensures
        ck == icmp_checksum(data@),
{
    let n: usize = data.len();
    let mut sum: u64 = 0;
    let mut i: usize = 0;
    while i + 1 < n
        invariant
            n == data@.len() <= 0xffff,
            i <= n,
            i % 2 == 0,
            sum + word_sum_from(data@, i as int) == word_sum(data@),
            sum <= (i as int) * 0x8000,
        decreases n - i,
    {
        let w: u64 = (data[i] as u64) * 0x100 + (data[i + 1] as u64);
        sum = sum + w;
        i = i + 2;
    }
    if i < n {
        sum = sum + (data[i] as u64) * 0x100;
        i = i + 1;
    }
    assert(word_sum_from(data@, i as int) == 0);
    assert(sum == word_sum(data@));
    assert(sum < 0x1_0000_0000);
    let f1: u64 = sum % 0x10000 + sum / 0x10000;
    let f2: u64 = f1 % 0x10000 + f1 / 0x10000;
    assert(f1 <= 0x1fffe);
    assert(f2 <= 0xffff);
    (0xffff - f2) as u16
}

/// An echo request for `identifier` and `seq`: type, code, identifier,
/// sequence and checksum fields set, payload zeroed.
pub fn build_echo_request(identifier: u16, seq: u16) -> (p: Vec<u8>)
    ensures
        echo_request_wf(p@, identifier, seq),
{
    let mut p: Vec<u8> = Vec::new();
    let mut i: usize = 0;
    while i < ICMP_PACKET_SIZE
        invariant
            i <= ICMP_PACKET_SIZE,
            p@.len() == i,
            forall|j: int| 0 <= j < i ==> p@[j] == 0u8,
        decreases ICMP_PACKET_SIZE - i,
    {
        p.push(0u8);
        i = i + 1;
    }
    p[0] = ICMP_ECHO_REQUEST;
    p[4] = (identifier / 0x100) as u8;
    p[5] = (identifier % 0x100) as u8;
    p[6] = (seq / 0x100) as u8;
    p[7] = (seq % 0x100) as u8;
    let ghost zeroed = p@;
    let ck: u16 = checksum(p.as_slice());
    p[2] = (ck / 0x100) as u8;
    p[3] = (ck % 0x100) as u8;
    proof {
        assert(p@.update(2, 0u8).update(3, 0u8) =~= zeroed);
        assert(be16_at(p@, 2) == ck) by {
            assert(p@[2] == ck / 0x100 && p@[3] == ck % 0x100);
        };
    }
    p
}

/// Whether `s` is an echo reply answering the request sent with
/// `identifier` and `seq`: long enough for the ICMP header, of reply
/// type, and matching on both fields.
pub open spec fn reply_matches(s: Seq<u8>, identifier: u16, seq: u16) -> bool {
    &&& s.len() >= 8
    &&& s[0] == ICMP_ECHO_REPLY
    &&& be16_at(s, 4) == identifier
    &&& be16_at(s, 6) == seq
}

/// Whether a received packet is the echo reply to the request sent with
/// `identifier` and `seq`. Any other packet — wrong type, wrong
/// identifier or wrong sequence — is no reply for this probe.
pub fn is_matching_reply(packet: &[u8], identifier: u16, seq: u16) -> (r: bool)
    ensures
        r == reply_matches(packet@, identifier, seq),
{
    if packet.len() < 8 {
        return false;
    }
    if packet[0] != ICMP_ECHO_REPLY {
        return false;
    }
    let id: u32 = (packet[4] as u32) * 0x100 + (packet[5] as u32);
    let sq: u32 = (packet[6] as u32) * 0x100 + (packet[7] as u32);
    id == identifier as u32 && sq == seq as u32
}

/// A reply with the right sequence number but another identifier is
/// rejected.
pub proof fn lemma_match_rejects_wrong_identifier(s: Seq<u8>, sent_id: u16, other_id: u16, seq: u16)
    requires
        reply_matches(s, sent_id, seq),
        other_id != sent_id,
    ensures
        !reply_matches(s, other_id, seq),
{
}

/// A reply with the right identifier but a stale sequence number is
/// rejected.
pub proof fn lemma_match_rejects_stale_sequence(s: Seq<u8>, identifier: u16, sent_seq: u16, other_seq: u16)
    requires
        reply_matches(s, identifier, sent_seq),
        other_seq != sent_seq,
    ensures
        !reply_matches(s, identifier, other_seq),
{
}

} // verus!
