//! The probe sequence as one deterministic fold.
//!
//! The run loop sends one probe per sequence number, observes cancellation
//! only at iteration boundaries (an in-flight probe always completes or
//! times out first), folds every completed probe into the statistics, and
//! stops at the configured count, at the cancellation point, or at the
//! first fatal outcome. `run_session` is that loop over a given list of
//! outcomes; a live driver makes the same decisions probe by probe with
//! `more_probes_wanted`, the statistics recorders and `pacing_wait_us`.

use crate::stats::SessionStats;
use vstd::prelude::*;

verus! {

/// The outcome of one probe exchange.
#[derive(Clone, Copy, Debug, PartialEq, Eq, Structural)]
pub enum ProbeOutcome {
    /// A reply answered the probe after this many microseconds.
    Success(u64),
    /// No reply within the timeout: a valid, expected outcome.
    Timeout,
    /// The transport could not send or receive at all. The session cannot
    /// make progress, so this aborts the loop.
    TransportError,
    /// A reply outran the awaited sequence number: the internal-
    /// consistency fault, fatal and distinct from a transport failure.
    ConsistencyFault,
}

/// How a session ended.
#[derive(Clone, Copy, Debug, PartialEq, Eq, Structural)]
pub enum SessionEnd {
    /// The configured probe count was reached.
    CountReached,
    /// Cancellation was observed at an iteration boundary.
    Cancelled,
    /// A probe hit a transport failure and the loop aborted.
    TransportFailed,
    /// A probe hit the internal-consistency fault and the loop aborted.
    Faulted,
}

/// Whether an outcome aborts the session.
pub open spec fn is_fatal(o: ProbeOutcome) -> bool {
    o is TransportError || o is ConsistencyFault
}

/// The end a fatal outcome gives the session.
pub open spec fn fatal_end(o: ProbeOutcome) -> SessionEnd {
    if o is TransportError {
        SessionEnd::TransportFailed
    } else {
        SessionEnd::Faulted
    }
}

/// The successful round-trip times of a run of outcomes, in order.
pub open spec fn success_rtts(s: Seq<ProbeOutcome>) -> Seq<u64>
    decreases s.len(),
{
    if s.len() == 0 {
        Seq::empty()
    } else {
        let rest = success_rtts(s.drop_last());
        match s.last() {
            ProbeOutcome::Success(rtt) => rest.push(rtt),
            _ => rest,
        }
    }
}

/// How many probes a session may complete before its bounds stop it: the
/// probe count (where one is set; 0 means unbounded) or the cancellation
/// point, whichever comes first.
pub open spec fn probe_bound(count: u16, cancel_after: Option<u64>) -> int
    recommends
        count > 0 || cancel_after is Some,
{
    match cancel_after {
        Option::Some(k) => if count > 0 && (count as int) < k {
            count as int
        } else {
            k as int
        },
        Option::None => count as int,
    }
}

/// The end of a session that ran all the way to its bound. Cancellation is
/// observed before the count at the top of an iteration, so when the two
/// coincide the session counts as cancelled.
pub open spec fn bound_end(count: u16, cancel_after: Option<u64>) -> SessionEnd {
    if cancel_after matches Option::Some(k) && k == probe_bound(count, cancel_after) {
        SessionEnd::Cancelled
    } else {
        SessionEnd::CountReached
    }
}

/// Everything the session loop promises of its result. With `n` the number
/// of probes completed: no fatal outcome occurs before `n`; the history is
/// exactly the successful round-trip times of the first `n` outcomes (with
/// the counters and aggregates that `SessionStats::consistent` ties to
/// it); and either the bound itself stopped the loop, or the outcome at
/// `n` is fatal and named by the end. These clauses determine the result
/// uniquely (`lemma_session_deterministic`).
pub open spec fn session_post(
    count: u16,
    outcomes: Seq<ProbeOutcome>,
    cancel_after: Option<u64>,
    stats: SessionStats,
    end: SessionEnd,
) -> bool {
    let b = probe_bound(count, cancel_after);
    let n = stats.spec_transmitted() as int;
    &&& stats.consistent()
    &&& 0 <= n <= b
    &&& forall|j: int| 0 <= j < n ==> !is_fatal(#[trigger] outcomes[j])
    &&& stats.rtts() == success_rtts(outcomes.take(n))
    &&& (n == b ==> end == bound_end(count, cancel_after))
    &&& (n < b ==> n < outcomes.len() && is_fatal(outcomes[n]) && end == fatal_end(
        outcomes[n],
    ))
}

/// Runs a whole probe sequence over the given outcomes, one per sequence
/// number: `count` probes (0 means unbounded), with cancellation observed
/// at the top of iteration `k` where `cancel_after` is `Some(k)`. The
/// outcome list must cover every probe the bounds admit; an unbounded,
/// never-cancelled session never terminates, so one of the two bounds is
/// required.
pub fn run_session(count: u16, outcomes: &Vec<ProbeOutcome>, cancel_after: Option<u64>) -> (r: (
    SessionStats,
    SessionEnd,
))
    requires
        count > 0 || cancel_after is Some,
        probe_bound(count, cancel_after) <= outcomes@.len(),
    ensures
        session_post(count, outcomes@, cancel_after, r.0, r.1),
{
    let ghost b: int = probe_bound(count, cancel_after);
    let n_outcomes: usize = outcomes.len();
    let mut stats = SessionStats::new();
    let mut i: usize = 0;
    loop
        invariant
            count > 0 || cancel_after is Some,
            b == probe_bound(count, cancel_after),
            b <= outcomes@.len(),
            outcomes@.len() == n_outcomes,
            i <= b,
            stats.consistent(),
            stats.spec_transmitted() == i,
            forall|j: int| 0 <= j < i ==> !is_fatal(#[trigger] outcomes@[j]),
            stats.rtts() == success_rtts(outcomes@.take(i as int)),
        decreases b - i,
    {
        if let Option::Some(k) = cancel_after {
            if i as u64 >= k {
                return (stats, SessionEnd::Cancelled);
            }
        }
        if count > 0 && i >= count as usize {
            return (stats, SessionEnd::CountReached);
        }
        let outcome: ProbeOutcome = outcomes[i];
        match outcome {
            ProbeOutcome::TransportError => {
                return (stats, SessionEnd::TransportFailed);
            },
            ProbeOutcome::ConsistencyFault => {
                return (stats, SessionEnd::Faulted);
            },
            ProbeOutcome::Timeout => {
                stats.record_timeout();
            },
            ProbeOutcome::Success(rtt) => {
                stats.record_success(rtt);
            },
        }
        proof {
            assert(outcomes@.take(i + 1).drop_last() =~= outcomes@.take(i as int));
            assert(outcomes@.take(i + 1).last() == outcomes@[i as int]);
        }
        i = i + 1;
    }
}

/// Whether the whole session counts as a success: a fatal end is a
/// failure, and so is a run whose probes all went unanswered; a session
/// of zero probes succeeds.
pub open spec fn spec_session_success(stats: SessionStats, end: SessionEnd) -> bool {
    &&& end is CountReached || end is Cancelled
    &&& !(stats.spec_transmitted() > 0 && stats.spec_received() == 0)
}

/// The session's final verdict, from its statistics and its end.
pub fn session_succeeded(stats: &SessionStats, end: &SessionEnd) -> (ok: bool)
    ensures
        ok == spec_session_success(*stats, *end),
{
    let normal: bool = match end {
        SessionEnd::CountReached => true,
        SessionEnd::Cancelled => true,
        SessionEnd::TransportFailed => false,
        SessionEnd::Faulted => false,
    };
    normal && stats.session_success()
}

/// The loop's continuation test, read at the top of every iteration after
/// the cancellation flag: probes keep flowing while the count is
/// unbounded (0) or the next sequence number is still below it.
pub fn more_probes_wanted(count: u16, next_sequence: u16) -> (b: bool)
    ensures
        b == (count == 0 || next_sequence < count),
{
    count == 0 || next_sequence < count
}

/// How long the loop must still wait before the next probe so that probes
/// are spaced `interval_us` apart: the part of the interval this cycle has
/// not already used up. A cycle that outran the interval waits nothing.
pub fn pacing_wait_us(interval_us: u64, elapsed_us: u64) -> (w: u64)
    ensures
        w == (if elapsed_us < interval_us {
            (interval_us - elapsed_us) as u64
        } else {
            0u64
        }),
{
    if elapsed_us < interval_us {
        interval_us - elapsed_us
    } else {
        0
    }
}

/// Law: a bounded session of `count` probes that is never cancelled and
/// meets no fatal outcome completes all `count` probes, exactly.
pub proof fn lemma_bounded_count_exact(
    count: u16,
    outcomes: Seq<ProbeOutcome>,
    stats: SessionStats,
    end: SessionEnd,
)
    requires
        count > 0,
        forall|j: int| 0 <= j < count ==> !is_fatal(#[trigger] outcomes[j]),
        session_post(count, outcomes, Option::None, stats, end),
    ensures
        stats.spec_transmitted() == count,
        end == SessionEnd::CountReached,
{
    let n = stats.spec_transmitted() as int;
    if n < count {
        assert(is_fatal(outcomes[n]));
        assert(!is_fatal(outcomes[n]));
    }
}

/// Law: the session fold is deterministic. Two results of the same probe
/// count, outcome list and cancellation point agree in every observable
/// part of the statistics and in how the session ended; in particular,
/// rerunning a session over the same recorded outcomes reproduces it.
pub proof fn lemma_session_deterministic(
    count: u16,
    outcomes: Seq<ProbeOutcome>,
    cancel_after: Option<u64>,
    s1: SessionStats,
    e1: SessionEnd,
    s2: SessionStats,
    e2: SessionEnd,
)
    requires
        session_post(count, outcomes, cancel_after, s1, e1),
        session_post(count, outcomes, cancel_after, s2, e2),
    ensures
        s1.spec_transmitted() == s2.spec_transmitted(),
        s1.spec_received() == s2.spec_received(),
        s1.spec_sequence() == s2.spec_sequence(),
        s1.spec_total_rtt() == s2.spec_total_rtt(),
        s1.spec_min_rtt() == s2.spec_min_rtt(),
        s1.spec_max_rtt() == s2.spec_max_rtt(),
        s1.rtts() == s2.rtts(),
        e1 == e2,
{
    let n1 = s1.spec_transmitted() as int;
    let n2 = s2.spec_transmitted() as int;
    if n1 < n2 {
        assert(is_fatal(outcomes[n1]));
        assert(!is_fatal(outcomes[n1]));
    }
    if n2 < n1 {
        assert(is_fatal(outcomes[n2]));
        assert(!is_fatal(outcomes[n2]));
    }
    assert(n1 == n2);
}

/// Relies on rand's `random` for drawing values from the standard
/// distribution of a type.
pub assume_specification<T>[ rand::random::<T> ]() -> (r: T)
    where
        rand::distr::StandardUniform: rand::distr::Distribution<T>,
;

/// Draws the random identifier that marks every probe of one session.
/// Relies on rand::random; the value is random, so nothing is promised of
/// it, and every caller must work with any identifier.
pub fn fresh_identifier() -> u16 {
    rand::random::<u16>()
}

} // verus!
