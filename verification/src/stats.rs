//! Running session statistics and the final report.
//!
//! One `SessionStats` value lives for the whole run. The loop folds exactly
//! one completed probe into it at a time, a success with its round-trip
//! time or a timeout, and reads the report once the loop has exited. All
//! times are microseconds; the averages and percentages are truncating
//! integer divisions.

use vstd::arithmetic::div_mod::lemma_div_is_ordered;
use vstd::arithmetic::div_mod::lemma_div_multiples_vanish;
use vstd::arithmetic::div_mod::lemma_div_pos_is_pos;
use vstd::prelude::*;

verus! {

/// The sum of a sequence of round-trip times.
pub open spec fn rtt_sum(s: Seq<u64>) -> int
    decreases s.len(),
{
    if s.len() == 0 {
        0
    } else {
        rtt_sum(s.drop_last()) + s.last()
    }
}

/// The least element of a non-empty sequence of round-trip times.
pub open spec fn rtt_min(s: Seq<u64>) -> u64
    recommends
        s.len() > 0,
    decreases s.len(),
{
    if s.len() <= 1 {
        s[0]
    } else {
        let m = rtt_min(s.drop_last());
        if s.last() < m {
            s.last()
        } else {
            m
        }
    }
}

/// The greatest element of a non-empty sequence of round-trip times.
pub open spec fn rtt_max(s: Seq<u64>) -> u64
    recommends
        s.len() > 0,
    decreases s.len(),
{
    if s.len() <= 1 {
        s[0]
    } else {
        let m = rtt_max(s.drop_last());
        if s.last() > m {
            s.last()
        } else {
            m
        }
    }
}

/// The loss percentage of a finished sequence: 100 when nothing was sent,
/// otherwise the unanswered share of the transmitted probes, as a
/// percentage truncated toward zero.
pub open spec fn spec_loss_percent(transmitted: u64, received: u64) -> int {
    if transmitted == 0 {
        100
    } else {
        (transmitted - received) * 100 / (transmitted as int)
    }
}

/// The reported average round-trip time: the accumulated total divided by
/// the number of sequence numbers used, microseconds truncated toward
/// zero; zero when no probe was ever sent.
pub open spec fn spec_avg_rtt(total_rtt: u128, sequence: u16) -> int {
    if sequence == 0 {
        0
    } else {
        total_rtt as int / (sequence as int)
    }
}

/// The statistics of one session. `transmitted` counts every completed
/// probe, `received` only those a matching reply answered; `min_rtt`,
/// `max_rtt` and `total_rtt` cover the successful round-trip times alone
/// and the first two stay unset until a reply arrives; `sequence` is the
/// next sequence number to send, wrapping at the protocol's 16-bit width.
pub struct SessionStats {
    transmitted: u64,
    received: u64,
    min_rtt: Option<u64>,
    max_rtt: Option<u64>,
    total_rtt: u128,
    sequence: u16,
    history: Ghost<Seq<u64>>,
}

impl SessionStats {
    /// How many probes were completed, success or timeout alike.
    pub closed spec fn spec_transmitted(self) -> u64 {
        self.transmitted
    }

    /// How many probes a matching reply answered.
    pub closed spec fn spec_received(self) -> u64 {
        self.received
    }

    /// The next sequence number the loop would send.
    pub closed spec fn spec_sequence(self) -> u16 {
        self.sequence
    }

    /// The sum of all successful round-trip times, in microseconds.
    pub closed spec fn spec_total_rtt(self) -> u128 {
        self.total_rtt
    }

    /// The least successful round-trip time, unset until a reply arrived.
    pub closed spec fn spec_min_rtt(self) -> Option<u64> {
        self.min_rtt
    }

    /// The greatest successful round-trip time, unset until a reply
    /// arrived.
    pub closed spec fn spec_max_rtt(self) -> Option<u64> {
        self.max_rtt
    }

    /// The successful round-trip times in the order they were recorded.
    pub closed spec fn rtts(self) -> Seq<u64> {
        self.history@
    }

    /// What holds of every statistics value this library hands out: the
    /// counters and aggregates are exactly those of the recorded history.
    pub open spec fn consistent(self) -> bool {
        &&& self.spec_received() <= self.spec_transmitted()
        &&& self.rtts().len() == self.spec_received()
        &&& self.spec_total_rtt() == rtt_sum(self.rtts())
        &&& self.spec_min_rtt() == (if self.rtts().len() == 0 {
            Option::<u64>::None
        } else {
            Option::Some(rtt_min(self.rtts()))
        })
        &&& self.spec_max_rtt() == (if self.rtts().len() == 0 {
            Option::<u64>::None
        } else {
            Option::Some(rtt_max(self.rtts()))
        })
        &&& self.spec_sequence() == self.spec_transmitted() % 0x10000
    }

    #[verifier::type_invariant]
    spec fn type_inv(self) -> bool {
        self.consistent()
    }

    /// The empty statistics a session starts from.
    pub fn new() -> (s: SessionStats)
        ensures
            s.consistent(),
            s.spec_transmitted() == 0,
            s.spec_received() == 0,
            s.spec_sequence() == 0,
            s.spec_total_rtt() == 0,
            s.spec_min_rtt() is None,
            s.spec_max_rtt() is None,
            s.rtts() == Seq::<u64>::empty(),
    {
        SessionStats {
            transmitted: 0,
            received: 0,
            min_rtt: Option::None,
            max_rtt: Option::None,
            total_rtt: 0,
            sequence: 0,
            history: Ghost(Seq::empty()),
        }
    }

    /// Folds a timed-out probe in: one more transmission, the next
    /// sequence number, nothing else moves.
    pub fn record_timeout(&mut self)
        requires
            old(self).spec_transmitted() < u64::MAX,
        ensures
            final(self).consistent(),
            final(self).spec_transmitted() == old(self).spec_transmitted() + 1,
            final(self).spec_received() == old(self).spec_received(),
            final(self).spec_total_rtt() == old(self).spec_total_rtt(),
            final(self).spec_min_rtt() == old(self).spec_min_rtt(),
            final(self).spec_max_rtt() == old(self).spec_max_rtt(),
            final(self).rtts() == old(self).rtts(),
            final(self).spec_sequence() == next_sequence(old(self).spec_sequence()),
    {
        proof {
            use_type_invariant(&*self);
        }
        let seq2: u16 = if self.sequence == 0xffff {
            0
        } else {
            self.sequence + 1
        };
        *self = SessionStats {
            transmitted: self.transmitted + 1,
            received: self.received,
            min_rtt: self.min_rtt,
            max_rtt: self.max_rtt,
            total_rtt: self.total_rtt,
            sequence: seq2,
            history: self.history,
        };
    }

    /// Folds a successful probe in: one more transmission and reception,
    /// the round-trip time joins the history, the total, and the running
    /// minimum and maximum (a first reply sets both).
    pub fn record_success(&mut self, rtt: u64)
        requires
            old(self).spec_transmitted() < u64::MAX,
        ensures
            final(self).consistent(),
            final(self).spec_transmitted() == old(self).spec_transmitted() + 1,
            final(self).spec_received() == old(self).spec_received() + 1,
            final(self).spec_total_rtt() == old(self).spec_total_rtt() + rtt,
            final(self).spec_min_rtt() == Option::Some(
                merge_min(old(self).spec_min_rtt(), rtt),
            ),
            final(self).spec_max_rtt() == Option::Some(
                merge_max(old(self).spec_max_rtt(), rtt),
            ),
            final(self).rtts() == old(self).rtts().push(rtt),
            final(self).spec_sequence() == next_sequence(old(self).spec_sequence()),
    {
        proof {
            use_type_invariant(&*self);
            lemma_rtt_sum_bound(self.history@);
            lemma_rtt_push(self.history@, rtt);
            assert(self.history@.len() * (u64::MAX as int) <= (u64::MAX - 1) * (
            u64::MAX as int));
        }
        let seq2: u16 = if self.sequence == 0xffff {
            0
        } else {
            self.sequence + 1
        };
        let new_min: u64 = match self.min_rtt {
            Option::Some(m) => if rtt < m {
                rtt
            } else {
                m
            },
            Option::None => rtt,
        };
        let new_max: u64 = match self.max_rtt {
            Option::Some(m) => if rtt > m {
                rtt
            } else {
                m
            },
            Option::None => rtt,
        };
        *self = SessionStats {
            transmitted: self.transmitted + 1,
            received: self.received + 1,
            min_rtt: Option::Some(new_min),
            max_rtt: Option::Some(new_max),
            total_rtt: self.total_rtt + (rtt as u128),
            sequence: seq2,
            history: Ghost(self.history@.push(rtt)),
        };
    }

    /// How many probes were completed.
    pub fn transmitted(&self) -> (t: u64)
        ensures
            t == self.spec_transmitted(),
    {
        self.transmitted
    }

    /// How many probes were answered.
    pub fn received(&self) -> (r: u64)
        ensures
            r == self.spec_received(),
    {
        self.received
    }

    /// The next sequence number to send.
    pub fn sequence(&self) -> (s: u16)
        ensures
            s == self.spec_sequence(),
    {
        self.sequence
    }

    /// The sum of all successful round-trip times, microseconds.
    pub fn total_rtt_us(&self) -> (t: u128)
        ensures
            t == self.spec_total_rtt(),
    {
        self.total_rtt
    }

    /// The least successful round-trip time, if any reply arrived.
    pub fn min_rtt(&self) -> (m: Option<u64>)
        ensures
            m == self.spec_min_rtt(),
    {
        self.min_rtt
    }

    /// The greatest successful round-trip time, if any reply arrived.
    pub fn max_rtt(&self) -> (m: Option<u64>)
        ensures
            m == self.spec_max_rtt(),
    {
        self.max_rtt
    }

    /// The least round-trip time as the report prints it: zero when it was
    /// never set.
    pub fn min_rtt_us(&self) -> (m: u64)
        ensures
            m == (match self.spec_min_rtt() {
                Option::Some(v) => v,
                Option::None => 0u64,
            }),
    {
        match self.min_rtt {
            Option::Some(v) => v,
            Option::None => 0,
        }
    }

    /// The greatest round-trip time as the report prints it: zero when it
    /// was never set.
    pub fn max_rtt_us(&self) -> (m: u64)
        ensures
            m == (match self.spec_max_rtt() {
                Option::Some(v) => v,
                Option::None => 0u64,
            }),
    {
        match self.max_rtt {
            Option::Some(v) => v,
            Option::None => 0,
        }
    }

    /// The loss percentage of the session so far, truncated toward zero;
    /// it always lies between 0 and 100.
    pub fn loss_percent(&self) -> (l: u64)
        ensures
            l == spec_loss_percent(self.spec_transmitted(), self.spec_received()),
            l <= 100,
    {
        proof {
            use_type_invariant(&*self);
            lemma_loss_percent_bounds(self.transmitted, self.received);
        }
        if self.transmitted == 0 {
            100
        } else {
            (((self.transmitted - self.received) as u128 * 100) / (self.transmitted as u128)) as u64
        }
    }

    /// The average round-trip time the report prints: the accumulated
    /// total divided by the sequence numbers used, microseconds truncated
    /// toward zero, zero when no probe was sent.
    pub fn avg_rtt_us(&self) -> (a: u128)
        ensures
            a == spec_avg_rtt(self.spec_total_rtt(), self.spec_sequence()),
    {
        if self.sequence == 0 {
            0
        } else {
            self.total_rtt / (self.sequence as u128)
        }
    }

    /// Whether the statistics alone call the session a success: it failed
    /// exactly when probes were sent and not one was answered.
    pub fn session_success(&self) -> (ok: bool)
        ensures
            ok == !(self.spec_transmitted() > 0 && self.spec_received() == 0),
    {
        !(self.transmitted > 0 && self.received == 0)
    }
}

/// The sequence number after `s`, wrapping at the protocol's 16-bit width.
pub open spec fn next_sequence(s: u16) -> u16 {
    if s == 0xffff {
        0u16
    } else {
        (s + 1) as u16
    }
}

/// What a fresh reply does to the running minimum.
pub open spec fn merge_min(current: Option<u64>, rtt: u64) -> u64 {
    match current {
        Option::Some(m) => if rtt < m {
            rtt
        } else {
            m
        },
        Option::None => rtt,
    }
}

/// What a fresh reply does to the running maximum.
pub open spec fn merge_max(current: Option<u64>, rtt: u64) -> u64 {
    match current {
        Option::Some(m) => if rtt > m {
            rtt
        } else {
            m
        },
        Option::None => rtt,
    }
}

/// Appending a round-trip time grows the sum by it and merges it into the
/// minimum and maximum.
pub proof fn lemma_rtt_push(s: Seq<u64>, x: u64)
    ensures
        rtt_sum(s.push(x)) == rtt_sum(s) + x,
        rtt_min(s.push(x)) == (if s.len() == 0 {
            x
        } else {
            merge_min(Option::Some(rtt_min(s)), x)
        }),
        rtt_max(s.push(x)) == (if s.len() == 0 {
            x
        } else {
            merge_max(Option::Some(rtt_max(s)), x)
        }),
{
    assert(s.push(x).drop_last() =~= s);
    assert(s.push(x).last() == x);
}

/// A sum of 64-bit round-trip times is bounded by their count times the
/// largest 64-bit value.
pub proof fn lemma_rtt_sum_bound(s: Seq<u64>)
    ensures
        0 <= rtt_sum(s) <= s.len() * (u64::MAX as int),
    decreases s.len(),
{
    if s.len() > 0 {
        lemma_rtt_sum_bound(s.drop_last());
    }
}

/// The minimum of a non-empty history bounds every entry from below and is
/// itself one of the entries.
pub proof fn lemma_rtt_min_le_all(s: Seq<u64>)
    requires
        s.len() > 0,
    ensures
        forall|i: int| 0 <= i < s.len() ==> rtt_min(s) <= #[trigger] s[i],
        exists|i: int| 0 <= i < s.len() && s[i] == rtt_min(s),
    decreases s.len(),
{
    if s.len() > 1 {
        lemma_rtt_min_le_all(s.drop_last());
        assert forall|i: int| 0 <= i < s.len() implies rtt_min(s) <= #[trigger] s[i] by {
            if i < s.len() - 1 {
                assert(s.drop_last()[i] == s[i]);
            }
        }
        if s.last() >= rtt_min(s.drop_last()) {
            let j = choose|j: int|
                0 <= j < s.drop_last().len() && s.drop_last()[j] == rtt_min(s.drop_last());
            assert(s.drop_last()[j] == s[j]);
            assert(s[j] == rtt_min(s));
        } else {
            assert(s[s.len() - 1] == rtt_min(s));
        }
    } else {
        assert(s[0] == rtt_min(s));
    }
}

/// The maximum of a non-empty history bounds every entry from above and is
/// itself one of the entries.
pub proof fn lemma_rtt_max_ge_all(s: Seq<u64>)
    requires
        s.len() > 0,
    ensures
        forall|i: int| 0 <= i < s.len() ==> #[trigger] s[i] <= rtt_max(s),
        exists|i: int| 0 <= i < s.len() && s[i] == rtt_max(s),
    decreases s.len(),
{
    if s.len() > 1 {
        lemma_rtt_max_ge_all(s.drop_last());
        assert forall|i: int| 0 <= i < s.len() implies #[trigger] s[i] <= rtt_max(s) by {
            if i < s.len() - 1 {
                assert(s.drop_last()[i] == s[i]);
            }
        }
        if s.last() <= rtt_max(s.drop_last()) {
            let j = choose|j: int|
                0 <= j < s.drop_last().len() && s.drop_last()[j] == rtt_max(s.drop_last());
            assert(s.drop_last()[j] == s[j]);
            assert(s[j] == rtt_max(s));
        } else {
            assert(s[s.len() - 1] == rtt_max(s));
        }
    } else {
        assert(s[0] == rtt_max(s));
    }
}

/// Law: however many probes were answered of those sent, the loss
/// percentage lies between 0 and 100.
pub proof fn lemma_loss_percent_bounds(transmitted: u64, received: u64)
    requires
        received <= transmitted,
    ensures
        0 <= spec_loss_percent(transmitted, received) <= 100,
{
    if transmitted > 0 {
        let t = transmitted as int;
        let d = (transmitted - received) as int;
        lemma_div_pos_is_pos(d * 100, t);
        lemma_div_is_ordered(d * 100, t * 100, t);
        lemma_div_multiples_vanish(100, t);
    }
}

/// Law: of any statistics value this library hands out, no more probes
/// were answered than were sent, and its loss percentage lies between 0
/// and 100.
pub proof fn lemma_counters_ordered(stats: SessionStats)
    requires
        stats.consistent(),
    ensures
        stats.spec_received() <= stats.spec_transmitted(),
        0 <= spec_loss_percent(stats.spec_transmitted(), stats.spec_received()) <= 100,
{
    lemma_loss_percent_bounds(stats.spec_transmitted(), stats.spec_received());
}

/// Law: of any statistics value this library hands out, the recorded
/// minimum bounds every successful round-trip time from below and the
/// maximum from above, and both were themselves recorded.
pub proof fn lemma_min_max_bound(stats: SessionStats)
    requires
        stats.consistent(),
        stats.spec_received() > 0,
    ensures
        stats.spec_min_rtt() == Option::Some(rtt_min(stats.rtts())),
        stats.spec_max_rtt() == Option::Some(rtt_max(stats.rtts())),
        forall|i: int|
            0 <= i < stats.rtts().len() ==> rtt_min(stats.rtts()) <= #[trigger] stats.rtts()[i]
                && stats.rtts()[i] <= rtt_max(stats.rtts()),
        exists|i: int| 0 <= i < stats.rtts().len() && stats.rtts()[i] == rtt_min(stats.rtts()),
        exists|i: int| 0 <= i < stats.rtts().len() && stats.rtts()[i] == rtt_max(stats.rtts()),
{
    lemma_rtt_min_le_all(stats.rtts());
    lemma_rtt_max_ge_all(stats.rtts());
}

} // verus!
