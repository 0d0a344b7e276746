//! Building and reading ICMP / ICMPv6 echo messages as raw bytes.
//!
//! Echo messages share one layout: type (offset 0), code (offset 1),
//! checksum (offsets 2..4), identifier (offsets 4..6) and sequence number
//! (offsets 6..8), all multi-byte fields big-endian, followed by the
//! payload. For IPv4 the request carries the internet checksum over the
//! whole message; for IPv6 the checksum is left to the transport, which
//! computes it from the pseudo-header as the protocol demands.

use crate::checksum::checksum_spec;
use crate::checksum::fold_carries;
use crate::checksum::folded_total;
use crate::checksum::internet_checksum;
use crate::checksum::lemma_fold_carries_properties;
use crate::checksum::lemma_word_sum_bounds;
use crate::checksum::lemma_word_sum_skip_difference;
use crate::checksum::word_at;
use crate::checksum::word_count;
use crate::checksum::word_sum;
use vstd::arithmetic::div_mod::lemma_fundamental_div_mod;
use vstd::prelude::*;

verus! {

/// ICMP message type of an IPv4 echo request.
pub const ECHO_REQUEST_V4_TYPE: u8 = 8;

/// ICMP message type of an IPv4 echo reply.
pub const ECHO_REPLY_V4_TYPE: u8 = 0;

/// ICMPv6 message type of an echo request.
pub const ECHO_REQUEST_V6_TYPE: u8 = 128;

/// ICMPv6 message type of an echo reply.
pub const ECHO_REPLY_V6_TYPE: u8 = 129;

/// Byte length of the echo header up to and including the sequence number.
pub const ECHO_HEADER_LEN: usize = 8;

/// Largest message this library will build: the IP total-length field caps
/// a packet at 65535 bytes.
pub const MAX_PACKET_LEN: usize = 0xffff;

/// The 16-bit big-endian value stored at byte offset `i`.
pub open spec fn be16_at(data: Seq<u8>, i: int) -> int {
    data[i] * 256 + data[i + 1]
}

/// The identifier and sequence number read out of an echo reply.
#[derive(Clone, Copy, Debug, PartialEq, Eq, Structural)]
pub struct EchoReply {
    /// The session identifier echoed back by the destination.
    pub identifier: u16,
    /// The probe sequence number echoed back by the destination.
    pub sequence: u16,
}

/// What a well-formed IPv4 echo request looks like: type 8, code 0, the
/// given identifier and sequence number, a zero payload, and the internet
/// checksum over the whole message stored at offset 2 (word index 1).
pub open spec fn valid_echo_request_v4(
    p: Seq<u8>,
    identifier: u16,
    sequence: u16,
    size: int,
) -> bool {
    &&& p.len() == size
    &&& p[0] == ECHO_REQUEST_V4_TYPE
    &&& p[1] == 0
    &&& be16_at(p, 2) == checksum_spec(p, 1)
    &&& be16_at(p, 4) == identifier
    &&& be16_at(p, 6) == sequence
    &&& forall|i: int| 8 <= i < size ==> p[i] == 0
}

/// What this library sends as an ICMPv6 echo request: type 128 and every
/// other byte zero. Identifier, sequence number and checksum stay zero;
/// the checksum is computed by the transport per IPv6 semantics.
pub open spec fn valid_echo_request_v6(p: Seq<u8>, size: int) -> bool {
    &&& p.len() == size
    &&& p[0] == ECHO_REQUEST_V6_TYPE
    &&& forall|i: int| 1 <= i < size ==> p[i] == 0
}

/// How an inbound ICMP (IPv4) message reads as an echo reply: `Some` with
/// its identifier and sequence number exactly when the message is long
/// enough and its type byte says echo reply.
pub open spec fn spec_parse_echo_reply_v4(p: Seq<u8>) -> Option<EchoReply> {
    if p.len() >= 8 && p[0] == ECHO_REPLY_V4_TYPE {
        Some(
            EchoReply {
                identifier: be16_at(p, 4) as u16,
                sequence: be16_at(p, 6) as u16,
            },
        )
    } else {
        None
    }
}

/// Whether an inbound ICMPv6 message is an echo reply: its type byte alone
/// decides.
pub open spec fn spec_is_echo_reply_v6(p: Seq<u8>) -> bool {
    p.len() >= 1 && p[0] == ECHO_REPLY_V6_TYPE
}

/// Two byte sequences of one length that agree everywhere but at offsets 2
/// and 3 have the same word sum when word index 1 (those two bytes) is
/// skipped.
proof fn lemma_word_sum_ignores_checksum_field(a: Seq<u8>, b: Seq<u8>, n: int)
    requires
        a.len() == b.len(),
        forall|i: int| 0 <= i < a.len() && i != 2 && i != 3 ==> a[i] == b[i],
    ensures
        word_sum(a, 1, n) == word_sum(b, 1, n),
    decreases n,
{
    if n > 0 {
        lemma_word_sum_ignores_checksum_field(a, b, n - 1);
        if n - 1 != 1 {
            assert(word_at(a, n - 1) == word_at(b, n - 1));
        }
    }
}

/// Law: the checksum stored in a well-formed IPv4 echo request verifies
/// on receive. The one's-complement fold of the sum of all its 16-bit
/// words, the checksum word included, comes to 0xffff, which is what a
/// receiver demands of an intact message.
pub proof fn lemma_request_v4_checksum_verifies(
    p: Seq<u8>,
    identifier: u16,
    sequence: u16,
    size: int,
)
    requires
        valid_echo_request_v4(p, identifier, sequence, size),
        size >= 8,
    ensures
        folded_total(p) == 0xffff,
{
    let n = word_count(p);
    let s = word_sum(p, 1, n);
    let c = be16_at(p, 2);
    lemma_word_sum_bounds(p, 1, n);
    lemma_fold_carries_properties(s);
    lemma_word_sum_skip_difference(p, 1, n);
    assert(word_at(p, 1) == c);
    let t = word_sum(p, -1, n);
    assert(t == s + c);
    assert(c == 0xffff - fold_carries(s));
    lemma_fold_carries_properties(t);
    let d = s - fold_carries(s);
    lemma_fundamental_div_mod(d, 0xffff);
    let k = d / 0xffff;
    assert(t == 0xffff * (k + 1)) by {
        assert(d == 0xffff * k);
    }
    let ft = fold_carries(t);
    lemma_fundamental_div_mod(t - ft, 0xffff);
    let m = (t - ft) / 0xffff;
    assert(t - ft == 0xffff * m);
    assert(ft == 0xffff * (k + 1 - m));
    assert(t > 0);
    assert(ft > 0);
    assert(ft == 0xffff) by {
        let j = k + 1 - m;
        assert(ft == 0xffff * j);
        assert(0 < ft <= 0xffff);
        if j <= 0 {
            assert(0xffff * j <= 0);
        }
        if j >= 2 {
            assert(0xffff * j >= 2 * 0xffff);
        }
    }
}

/// Builds an IPv4 echo request of `size` bytes for the given session
/// identifier and probe sequence number, checksummed and ready to send.
pub fn build_echo_request_v4(identifier: u16, sequence: u16, size: usize) -> (p: Vec<u8>)
    requires
        ECHO_HEADER_LEN <= size <= MAX_PACKET_LEN,
    ensures
        valid_echo_request_v4(p@, identifier, sequence, size as int),
{
    let mut p: Vec<u8> = Vec::new();
    let mut i: usize = 0;
    while i < size
        invariant
            i <= size,
            p@.len() == i,
            forall|j: int| 0 <= j < i ==> p@[j] == 0,
        decreases size - i,
    {
        p.push(0u8);
        i = i + 1;
    }
    p[0] = ECHO_REQUEST_V4_TYPE;
    p[4] = (identifier / 256) as u8;
    p[5] = (identifier % 256) as u8;
    p[6] = (sequence / 256) as u8;
    p[7] = (sequence % 256) as u8;
    let ghost before: Seq<u8> = p@;
    let c: u16 = internet_checksum(p.as_slice(), 1);
    p[2] = (c / 256) as u8;
    p[3] = (c % 256) as u8;
    proof {
        lemma_word_sum_ignores_checksum_field(p@, before, word_count(p@));
    }
    p
}

/// Builds the ICMPv6 echo request of `size` bytes that this library sends:
/// type 128, everything else zero.
pub fn build_echo_request_v6(size: usize) -> (p: Vec<u8>)
    requires
        ECHO_HEADER_LEN <= size <= MAX_PACKET_LEN,
    ensures
        valid_echo_request_v6(p@, size as int),
{
    let mut p: Vec<u8> = Vec::new();
    let mut i: usize = 0;
    while i < size
        invariant
            i <= size,
            p@.len() == i,
            forall|j: int| 0 <= j < i ==> p@[j] == 0,
        decreases size - i,
    {
        p.push(0u8);
        i = i + 1;
    }
    p[0] = ECHO_REQUEST_V6_TYPE;
    p
}

/// Reads an inbound ICMP (IPv4) message as an echo reply, or `None` when it
/// is no echo reply (too short, or another message type).
pub fn parse_echo_reply_v4(p: &[u8]) -> (r: Option<EchoReply>)
    ensures
        r == spec_parse_echo_reply_v4(p@),
{
    if p.len() >= 8 && p[0] == ECHO_REPLY_V4_TYPE {
        let identifier: u16 = (p[4] as u16) * 256 + (p[5] as u16);
        let sequence: u16 = (p[6] as u16) * 256 + (p[7] as u16);
        Some(EchoReply { identifier, sequence })
    } else {
        None
    }
}

/// Whether an inbound ICMPv6 message is an echo reply.
pub fn is_echo_reply_v6(p: &[u8]) -> (b: bool)
    ensures
        b == spec_is_echo_reply_v6(p@),
{
    p.len() >= 1 && p[0] == ECHO_REPLY_V6_TYPE
}

} // verus!
