//! Classifying inbound packets while one probe is in flight.
//!
//! After a probe is sent, the exchange waits for its reply under a deadline.
//! Every inbound packet is held against the probe: the awaited reply ends
//! the wait with the round-trip time, anything else leaves the wait running
//! with the budget that remains. The budget is recomputed from the elapsed
//! time after every packet, so unrelated traffic never stretches the
//! deadline.

use crate::dest::Destination;
use crate::packet::is_echo_reply_v6;
use crate::packet::parse_echo_reply_v4;
use crate::packet::spec_is_echo_reply_v6;
use crate::packet::spec_parse_echo_reply_v4;
use vstd::prelude::*;

verus! {

/// What the receive-and-filter loop decides after one inbound packet.
#[derive(Clone, Copy, Debug, PartialEq, Eq, Structural)]
pub enum WaitStep {
    /// The awaited reply arrived; the probe succeeded with this round-trip
    /// time in microseconds.
    Reply(u64),
    /// The time budget is spent; the probe timed out: a valid, expected
    /// outcome, not an error.
    TimedOut,
    /// A reply carried this session's identifier with a sequence number
    /// strictly greater than the one awaited. With a single probe in
    /// flight that cannot legitimately happen: an internal-consistency
    /// fault, fatal to the session and distinct from a transport failure.
    Fault,
    /// The packet was not the awaited reply; keep waiting, with this much
    /// of the budget (microseconds) left.
    KeepWaiting(u64),
}

/// The deadline arithmetic shared by both protocol variants: once the
/// elapsed time passes the timeout the probe is over, otherwise the wait
/// goes on with exactly the unspent part of the budget.
pub open spec fn spec_keep_or_timeout(timeout_us: u64, elapsed_us: u64) -> WaitStep {
    if elapsed_us > timeout_us {
        WaitStep::TimedOut
    } else {
        WaitStep::KeepWaiting((timeout_us - elapsed_us) as u64)
    }
}

/// The IPv4 decision: an echo reply with this session's identifier and the
/// awaited sequence number is the answer; one with the identifier and a
/// greater sequence number is the consistency fault; one with the
/// identifier and a lesser sequence number is a stale reply to an earlier,
/// already timed-out probe and is ignored, as is everything else.
pub open spec fn spec_wait_step_v4(
    identifier: u16,
    sequence: u16,
    timeout_us: u64,
    elapsed_us: u64,
    packet: Seq<u8>,
) -> WaitStep {
    match spec_parse_echo_reply_v4(packet) {
        Option::Some(reply) => {
            if reply.identifier == identifier && reply.sequence == sequence {
                WaitStep::Reply(elapsed_us)
            } else if reply.identifier == identifier && reply.sequence > sequence {
                WaitStep::Fault
            } else {
                spec_keep_or_timeout(timeout_us, elapsed_us)
            }
        },
        Option::None => spec_keep_or_timeout(timeout_us, elapsed_us),
    }
}

/// The IPv6 decision: the first inbound echo reply is accepted as the
/// answer outright, without identifier or sequence filtering. This
/// looseness mirrors the tool's IPv4/IPv6 asymmetry and is kept visible
/// here on purpose; a test pins it down.
pub open spec fn spec_wait_step_v6(timeout_us: u64, elapsed_us: u64, packet: Seq<u8>) -> WaitStep {
    if spec_is_echo_reply_v6(packet) {
        WaitStep::Reply(elapsed_us)
    } else {
        spec_keep_or_timeout(timeout_us, elapsed_us)
    }
}

/// The per-family decision for one inbound packet, at the session's single
/// dispatch point.
pub open spec fn spec_wait_step(
    destination: Destination,
    identifier: u16,
    sequence: u16,
    timeout_us: u64,
    elapsed_us: u64,
    packet: Seq<u8>,
) -> WaitStep {
    if destination is V4 {
        spec_wait_step_v4(identifier, sequence, timeout_us, elapsed_us, packet)
    } else {
        spec_wait_step_v6(timeout_us, elapsed_us, packet)
    }
}

/// Decides what an inbound packet means for the probe in flight:
/// `identifier` and `sequence` name the probe, `elapsed_us` is the time
/// since it was sent, `timeout_us` its whole budget.
pub fn wait_step(
    destination: &Destination,
    identifier: u16,
    sequence: u16,
    timeout_us: u64,
    elapsed_us: u64,
    packet: &[u8],
) -> (s: WaitStep)
    ensures
        s == spec_wait_step(*destination, identifier, sequence, timeout_us, elapsed_us, packet@),
{
    if destination.is_v4() {
        match parse_echo_reply_v4(packet) {
            Option::Some(reply) => {
                if reply.identifier == identifier && reply.sequence == sequence {
                    WaitStep::Reply(elapsed_us)
                } else if reply.identifier == identifier && reply.sequence > sequence {
                    WaitStep::Fault
                } else {
                    keep_or_timeout(timeout_us, elapsed_us)
                }
            },
            Option::None => keep_or_timeout(timeout_us, elapsed_us),
        }
    } else {
        if is_echo_reply_v6(packet) {
            WaitStep::Reply(elapsed_us)
        } else {
            keep_or_timeout(timeout_us, elapsed_us)
        }
    }
}

/// Applies the deadline arithmetic when no packet decided the probe: used
/// both after an unrelated packet and when the transport's own wait came
/// back empty-handed.
pub fn keep_or_timeout(timeout_us: u64, elapsed_us: u64) -> (s: WaitStep)
    ensures
        s == spec_keep_or_timeout(timeout_us, elapsed_us),
{
    if elapsed_us > timeout_us {
        WaitStep::TimedOut
    } else {
        WaitStep::KeepWaiting(timeout_us - elapsed_us)
    }
}

} // verus!
