use rustyping::checksum::internet_checksum;
use rustyping::dest::Destination;
use rustyping::packet::build_echo_request_v4;
use rustyping::packet::build_echo_request_v6;
use rustyping::packet::is_echo_reply_v6;
use rustyping::packet::parse_echo_reply_v4;
use rustyping::probe::keep_or_timeout;
use rustyping::probe::wait_step;
use rustyping::probe::WaitStep;

fn v4() -> Destination {
    Destination::V4 { octets: [192, 0, 2, 1] }
}

fn v6() -> Destination {
    Destination::V6 { segments: [0x2001, 0xdb8, 0, 0, 0, 0, 0, 1] }
}

/// Receiver-side view of the internet checksum: the one's-complement sum
/// of all 16-bit words of a checksummed message folds to 0xffff.
fn ones_complement_total(data: &[u8]) -> u32 {
    let mut sum: u32 = 0;
    let mut i = 0;
    while i < data.len() {
        let hi = data[i] as u32;
        let lo = if i + 1 < data.len() { data[i + 1] as u32 } else { 0 };
        sum += hi * 256 + lo;
        i += 2;
    }
    while sum > 0xffff {
        sum = (sum >> 16) + (sum & 0xffff);
    }
    sum
}

#[test]
fn checksum_exact_value() {
    let data = [8u8, 0, 0, 0, 0x12, 0x34, 0x00, 0x01];
    assert_eq!(internet_checksum(&data, 1), 0xe5ca);
}

#[test]
fn checksum_folds_carries() {
    let data = [0xffu8, 0xff, 0xff, 0xff];
    assert_eq!(internet_checksum(&data, 7), 0);
}

#[test]
fn checksum_odd_length_pads_low_byte() {
    let data = [0x01u8, 0x02, 0x03];
    assert_eq!(internet_checksum(&data, 5), 0xfbfd);
}

#[test]
fn checksum_skips_the_skip_word() {
    let with_field = [8u8, 0, 0xde, 0xad, 0x12, 0x34, 0x00, 0x01];
    let without_field = [8u8, 0, 0, 0, 0x12, 0x34, 0x00, 0x01];
    assert_eq!(
        internet_checksum(&with_field, 1),
        internet_checksum(&without_field, 1)
    );
}

#[test]
fn request_v4_layout() {
    let p = build_echo_request_v4(0xabcd, 0x0102, 64);
    assert_eq!(p.len(), 64);
    assert_eq!(p[0], 8);
    assert_eq!(p[1], 0);
    assert_eq!(p[2], 0x4b);
    assert_eq!(p[3], 0x30);
    assert_eq!(p[4], 0xab);
    assert_eq!(p[5], 0xcd);
    assert_eq!(p[6], 0x01);
    assert_eq!(p[7], 0x02);
    assert!(p[8..].iter().all(|&b| b == 0));
}

#[test]
fn request_v4_checksum_verifies_on_receive() {
    let p = build_echo_request_v4(0x5a5a, 7, 64);
    assert_eq!(ones_complement_total(&p), 0xffff);
    let q = build_echo_request_v4(0xffff, 0xffff, 9);
    assert_eq!(ones_complement_total(&q), 0xffff);
}

#[test]
fn request_v6_layout() {
    let p = build_echo_request_v6(64);
    assert_eq!(p.len(), 64);
    assert_eq!(p[0], 128);
    assert!(p[1..].iter().all(|&b| b == 0));
}

#[test]
fn parse_reply_reads_fields() {
    let p = [0u8, 0, 0, 0, 0xab, 0xcd, 0x00, 0x07];
    let r = parse_echo_reply_v4(&p).unwrap();
    assert_eq!(r.identifier, 0xabcd);
    assert_eq!(r.sequence, 7);
}

#[test]
fn parse_reply_rejects_other_types_and_short_data() {
    let request = [8u8, 0, 0, 0, 0xab, 0xcd, 0x00, 0x07];
    assert!(parse_echo_reply_v4(&request).is_none());
    let short = [0u8, 0, 0, 0, 0xab, 0xcd, 0x00];
    assert!(parse_echo_reply_v4(&short).is_none());
}

#[test]
fn reply_v6_type_byte_decides() {
    assert!(is_echo_reply_v6(&[129u8, 0, 0, 0]));
    assert!(!is_echo_reply_v6(&[128u8, 0, 0, 0]));
    assert!(!is_echo_reply_v6(&[]));
}

#[test]
fn wait_matching_reply_succeeds_with_elapsed_rtt() {
    let reply = [0u8, 0, 0, 0, 0xab, 0xcd, 0x00, 0x05];
    let s = wait_step(&v4(), 0xabcd, 5, 2_000_000, 12_345, &reply);
    assert_eq!(s, WaitStep::Reply(12_345));
}

#[test]
fn wait_stale_reply_is_ignored() {
    // A reply for an already-superseded sequence number arrives; the loop
    // keeps waiting for the current probe with the unspent budget.
    let stale = [0u8, 0, 0, 0, 0xab, 0xcd, 0x00, 0x04];
    let s = wait_step(&v4(), 0xabcd, 5, 2_000_000, 500_000, &stale);
    assert_eq!(s, WaitStep::KeepWaiting(1_500_000));
}

#[test]
fn wait_greater_sequence_is_the_fault() {
    let ahead = [0u8, 0, 0, 0, 0xab, 0xcd, 0x00, 0x06];
    let s = wait_step(&v4(), 0xabcd, 5, 2_000_000, 500_000, &ahead);
    assert_eq!(s, WaitStep::Fault);
}

#[test]
fn wait_foreign_identifier_is_ignored() {
    let foreign = [0u8, 0, 0, 0, 0x11, 0x22, 0x00, 0x05];
    let s = wait_step(&v4(), 0xabcd, 5, 2_000_000, 500_000, &foreign);
    assert_eq!(s, WaitStep::KeepWaiting(1_500_000));
}

#[test]
fn wait_other_traffic_never_resets_the_budget() {
    let unrelated = [3u8, 1, 0, 0, 0, 0, 0, 0];
    let s = wait_step(&v4(), 0xabcd, 5, 2_000_000, 1_999_999, &unrelated);
    assert_eq!(s, WaitStep::KeepWaiting(1));
}

#[test]
fn wait_past_deadline_times_out() {
    let unrelated = [3u8, 1, 0, 0, 0, 0, 0, 0];
    let s = wait_step(&v4(), 0xabcd, 5, 2_000_000, 2_000_001, &unrelated);
    assert_eq!(s, WaitStep::TimedOut);
    assert_eq!(keep_or_timeout(2_000_000, 2_000_001), WaitStep::TimedOut);
    assert_eq!(keep_or_timeout(2_000_000, 2_000_000), WaitStep::KeepWaiting(0));
}

#[test]
fn wait_v6_accepts_any_echo_reply_unfiltered() {
    // The IPv6 path accepts the first echo reply without identifier or
    // sequence filtering, unlike IPv4. This test pins that asymmetry: it
    // fails if ICMPv6 matching is ever tightened.
    let mismatched = [129u8, 0, 0, 0, 0x77, 0x77, 0x77, 0x77];
    let s = wait_step(&v6(), 0xabcd, 5, 2_000_000, 42_000, &mismatched);
    assert_eq!(s, WaitStep::Reply(42_000));
}

#[test]
fn wait_v6_ignores_non_replies() {
    let request = [128u8, 0, 0, 0, 0, 0, 0, 0];
    let s = wait_step(&v6(), 0xabcd, 5, 2_000_000, 500_000, &request);
    assert_eq!(s, WaitStep::KeepWaiting(1_500_000));
}
