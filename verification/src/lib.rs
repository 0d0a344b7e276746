//! Round-trip latency measurement over ICMP/ICMPv4 and ICMPv6 echo probes.
//!
//! The library holds the protocol and bookkeeping logic of a `ping`-style
//! tool: building echo-request packets with a correct internet checksum,
//! classifying inbound packets against the probe currently awaited,
//! per-probe deadline arithmetic, pacing, and the running session
//! statistics with their final report. The raw transport, signal handling
//! and terminal output live outside the library and drive it with plain
//! values.

pub mod checksum;
pub mod config;
pub mod dest;
pub mod packet;
pub mod probe;
pub mod session;
pub mod stats;
