//! The session configuration, fixed once before the loop starts.

use crate::dest::Destination;
use vstd::prelude::*;

verus! {

/// The least probe interval granted to an unprivileged sender, in
/// microseconds (200 ms): the anti-flooding floor.
pub const MIN_UNPRIVILEGED_INTERVAL_US: u64 = 200_000;

/// The configuration of one session. Intervals and timeouts are
/// non-negative by type, in microseconds; `count` of 0 means an unbounded
/// probe sequence.
#[derive(Clone, Copy, Debug, PartialEq, Eq)]
pub struct Config {
    /// Where the probes go; fixes the protocol variant for the session.
    pub destination: Destination,
    /// How many probes to send; 0 means unbounded.
    pub count: u16,
    /// The spacing between probe cycles, microseconds.
    pub interval_us: u64,
    /// The per-probe reply budget, microseconds.
    pub timeout_us: u64,
}

/// The interval a sender is actually granted: an unprivileged sender
/// without the explicit unrestricted capability cannot flood, so a request
/// below the floor is raised to it; everyone else keeps what they asked.
pub open spec fn spec_granted_interval(
    interval_us: u64,
    privileged: bool,
    unrestricted: bool,
) -> u64 {
    if interval_us < MIN_UNPRIVILEGED_INTERVAL_US && !privileged && !unrestricted {
        MIN_UNPRIVILEGED_INTERVAL_US
    } else {
        interval_us
    }
}

impl Config {
    /// Builds the configuration, applying the anti-flooding clamp once,
    /// here and never again per probe: `privileged` says whether the
    /// sender may flood (the superuser may), `unrestricted` grants that
    /// capability explicitly.
    pub fn new(
        destination: Destination,
        count: u16,
        interval_us: u64,
        timeout_us: u64,
        privileged: bool,
        unrestricted: bool,
    ) -> (c: Config)
        ensures
            c.destination == destination,
            c.count == count,
            c.timeout_us == timeout_us,
            c.interval_us == spec_granted_interval(interval_us, privileged, unrestricted),
    {
        let granted: u64 = if interval_us < MIN_UNPRIVILEGED_INTERVAL_US && !privileged
            && !unrestricted {
            MIN_UNPRIVILEGED_INTERVAL_US
        } else {
            interval_us
        };
        Config { destination, count, interval_us: granted, timeout_us }
    }

    /// Builds the configuration for the calling process, asking the
    /// system whether it runs as the superuser. Whatever the answer: the
    /// granted interval is never below the requested one, it is at most
    /// raised to the floor, and a request at or above the floor, or one
    /// under the unrestricted capability, passes unchanged.
    pub fn for_current_user(
        destination: Destination,
        count: u16,
        interval_us: u64,
        timeout_us: u64,
        unrestricted: bool,
    ) -> (c: Config)
        ensures
            c.destination == destination,
            c.count == count,
            c.timeout_us == timeout_us,
            c.interval_us == interval_us || c.interval_us == MIN_UNPRIVILEGED_INTERVAL_US,
            c.interval_us >= interval_us,
            interval_us >= MIN_UNPRIVILEGED_INTERVAL_US ==> c.interval_us == interval_us,
            unrestricted ==> c.interval_us == interval_us,
    {
        let privileged: bool = current_uid() == 0;
        Config::new(destination, count, interval_us, timeout_us, privileged, unrestricted)
    }
}

/// Relies on nix::unistd::getuid for the real user id of the calling
/// process; 0 is the superuser. The value depends on the environment, so
/// nothing is promised of it.
#[verifier::external_body]
fn current_uid() -> u32 {
    nix::unistd::getuid().as_raw()
}

} // verus!
