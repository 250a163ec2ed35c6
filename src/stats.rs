use vstd::prelude::*;
use crate::outcome::{ProbeOutcome, samples_of};

verus! {

/// Number of replies among the samples.
pub open spec fn received_in(s: Seq<Option<u64>>) -> nat
    decreases s.len(),
{
    if s.len() == 0 {
        0
    } else {
        received_in(s.drop_last()) + if s.last() is Some { 1nat } else { 0nat }
    }
}

/// Number of lost probes (transport errors and timeouts) among the samples.
pub open spec fn lost_in(s: Seq<Option<u64>>) -> nat
    decreases s.len(),
{
    if s.len() == 0 {
        0
    } else {
        lost_in(s.drop_last()) + if s.last() is None { 1nat } else { 0nat }
    }
}

/// Sum of the round-trip times of the replies.
pub open spec fn rtt_sum(s: Seq<Option<u64>>) -> nat
    decreases s.len(),
{
    if s.len() == 0 {
        0
    } else {
        rtt_sum(s.drop_last()) + match s.last() {
            Some(r) => r as nat,
            None => 0nat,
        }
    }
}

/// Smallest round-trip time of the replies; `u64::MAX` when there is none.
pub open spec fn rtt_min(s: Seq<Option<u64>>) -> u64
    decreases s.len(),
{
    if s.len() == 0 {
        u64::MAX
    } else {
        let m = rtt_min(s.drop_last());
        match s.last() {
            Some(r) => if r < m { r } else { m },
            None => m,
        }
    }
}

/// Largest round-trip time of the replies; 0 when there is none.
pub open spec fn rtt_max(s: Seq<Option<u64>>) -> u64
    decreases s.len(),
{
    if s.len() == 0 {
        0
    } else {
        let m = rtt_max(s.drop_last());
        match s.last() {
            Some(r) => if r > m { r } else { m },
            None => m,
        }
    }
}

/// Loss in hundredths of a percent: `100 * lost / sent` percent, rounded
/// down, and 0 when nothing was sent.
pub open spec fn loss_basis_points(sent: nat, lost: nat) -> nat {
    if sent == 0 {
        0
    } else {
        10000 * lost / sent
    }
}

/// Every probe is either received or lost: `received + lost == sent`.
pub proof fn lemma_received_plus_lost(s: Seq<Option<u64>>)
    ensures
        received_in(s) + lost_in(s) == s.len(),
    decreases s.len(),
{
    if s.len() > 0 {
        lemma_received_plus_lost(s.drop_last());
    }
}

/// With no replies there is no round-trip time to sum and none above 0.
pub proof fn lemma_nothing_received(s: Seq<Option<u64>>)
    requires
        received_in(s) == 0,
    ensures
        rtt_sum(s) == 0,
        rtt_max(s) == 0,
        rtt_min(s) == u64::MAX,
    decreases s.len(),
{
    if s.len() > 0 {
        lemma_nothing_received(s.drop_last());
    }
}

proof fn lemma_sum_between(s: Seq<Option<u64>>)
    requires
        received_in(s) > 0,
    ensures
        rtt_min(s) * received_in(s) <= rtt_sum(s),
        rtt_sum(s) <= rtt_max(s) * received_in(s),
    decreases s.len(),
{
    let p = s.drop_last();
    let n = received_in(p) as int;
    let lo = rtt_min(p) as int;
    let hi = rtt_max(p) as int;
    let lo2 = rtt_min(s) as int;
    let hi2 = rtt_max(s) as int;
    let t = rtt_sum(p) as int;
    match s.last() {
        Some(r) => {
            assert(received_in(s) == n + 1);
            assert(rtt_sum(s) == t + r);
            if n == 0 {
                lemma_nothing_received(p);
                assert(lo2 == r && hi2 == r);
                assert(lo2 * 1 == r);
            } else {
                lemma_sum_between(p);
                assert(lo2 <= lo && lo2 <= r);
                assert(hi2 >= hi && hi2 >= r);
                assert(lo2 * (n + 1) <= t + r) by (nonlinear_arith)
                    requires lo2 <= lo, lo2 <= r, n >= 0, lo * n <= t;
                assert(t + r <= hi2 * (n + 1)) by (nonlinear_arith)
                    requires hi <= hi2, r <= hi2, n >= 0, t <= hi * n;
            }
        },
        None => {
            assert(received_in(s) == n);
            assert(rtt_sum(s) == t);
            assert(lo2 == lo && hi2 == hi);
            lemma_sum_between(p);
        },
    }
}

/// Whenever something was received, the smallest round-trip time is at most
/// the mean, and the mean at most the largest.
pub proof fn lemma_rtt_order(s: Seq<Option<u64>>)
    requires
        received_in(s) > 0,
    ensures
        rtt_min(s) <= rtt_sum(s) / received_in(s) <= rtt_max(s),
{
    lemma_sum_between(s);
    let n = received_in(s) as int;
    let lo = rtt_min(s) as int;
    let hi = rtt_max(s) as int;
    let t = rtt_sum(s) as int;
    assert(lo <= t / n <= hi) by (nonlinear_arith)
        requires n > 0, lo * n <= t, t <= hi * n;
}

/// The sum of the round-trip times is at most `u64::MAX` for each sample.
pub proof fn lemma_sum_bound(s: Seq<Option<u64>>)
    ensures
        rtt_sum(s) <= s.len() * (u64::MAX as nat),
    decreases s.len(),
{
    if s.len() > 0 {
        lemma_sum_bound(s.drop_last());
        assert(s.len() * (u64::MAX as nat) == (s.len() - 1) * (u64::MAX as nat) + u64::MAX)
            by (nonlinear_arith);
    }
}

/// Loss is 100% when every probe was lost, and 0% when none was.
pub proof fn lemma_loss_extremes(sent: nat)
    requires
        sent > 0,
    ensures
        loss_basis_points(sent, sent) == 10000,
        loss_basis_points(sent, 0) == 0,
{
    assert(10000 * sent / sent == 10000) by (nonlinear_arith)
        requires sent > 0;
}

/// Final statistics of a run.
#[derive(Clone, Copy, Debug, PartialEq, Eq, Structural)]
pub struct PingStatistics {
    pub sent: u16,
    pub received: u16,
    pub lost: u16,
    /// Loss in hundredths of a percent (5000 is 50%).
    pub loss_basis_points: u32,
    /// Round-trip times in microseconds; all 0 when nothing was received.
    pub min_rtt_us: u64,
    pub max_rtt_us: u64,
    /// The mean, rounded down.
    pub avg_rtt_us: u64,
}

impl PingStatistics {
    /// These statistics are those of the sample sequence `s`.
    pub open spec fn describes(&self, s: Seq<Option<u64>>) -> bool {
        let rec = received_in(s);
        &&& self.sent as nat == s.len()
        &&& self.received as nat == rec
        &&& self.lost as nat == lost_in(s)
        &&& self.loss_basis_points as nat == loss_basis_points(s.len(), lost_in(s))
        &&& self.min_rtt_us == if rec == 0 { 0 } else { rtt_min(s) }
        &&& self.max_rtt_us == if rec == 0 { 0 } else { rtt_max(s) }
        &&& self.avg_rtt_us as nat == if rec == 0 { 0 } else { rtt_sum(s) / rec }
    }
}

/// In the statistics of any run with a reply, the minimum is at most the
/// mean and the mean at most the maximum; every probe is received or lost.
pub proof fn lemma_statistics_rtt_order(st: PingStatistics, s: Seq<Option<u64>>)
    requires
        st.describes(s),
        st.received > 0,
    ensures
        st.min_rtt_us <= st.avg_rtt_us <= st.max_rtt_us,
        st.received + st.lost == st.sent,
{
    lemma_rtt_order(s);
    lemma_received_plus_lost(s);
}

/// Running statistics, updated once per probe.
pub struct Tally {
    sent: u16,
    received: u16,
    lost: u16,
    min_rtt_us: u64,
    max_rtt_us: u64,
    sum_rtt_us: u128,
    samples: Ghost<Seq<Option<u64>>>,
}

impl View for Tally {
    type V = Seq<Option<u64>>;

    closed spec fn view(&self) -> Seq<Option<u64>> {
        self.samples@
    }
}

impl Tally {
    pub closed spec fn wf(&self) -> bool {
        let s = self.samples@;
        &&& self.sent as nat == s.len()
        &&& self.received as nat == received_in(s)
        &&& self.lost as nat == lost_in(s)
        &&& self.min_rtt_us == rtt_min(s)
        &&& self.max_rtt_us == rtt_max(s)
        &&& self.sum_rtt_us as nat == rtt_sum(s)
    }

    pub fn new() -> (r: Tally)
        ensures
            r.wf(),
            r@ == Seq::<Option<u64>>::empty(),
    {
        Tally {
            sent: 0,
            received: 0,
            lost: 0,
            min_rtt_us: u64::MAX,
            max_rtt_us: 0,
            sum_rtt_us: 0,
            samples: Ghost(Seq::empty()),
        }
    }

    /// Folds one probe's outcome into the statistics.
    pub fn record(&mut self, outcome: &ProbeOutcome)
        requires
            old(self).wf(),
            old(self)@.len() < u16::MAX,
        ensures
            final(self).wf(),
            final(self)@ == old(self)@.push(outcome.sample()),
            received_in(final(self)@) + lost_in(final(self)@) == final(self)@.len(),
    {
        let ghost s = self.samples@;
        let ghost s2 = s.push(outcome.sample());
        proof {
            lemma_received_plus_lost(s);
            lemma_sum_bound(s);
            assert(s2.drop_last() =~= s);
            assert(s.len() * (u64::MAX as nat) + u64::MAX <= u128::MAX) by (nonlinear_arith)
                requires s.len() < u16::MAX;
        }
        self.sent = self.sent + 1;
        match outcome {
            ProbeOutcome::Reply(reply) => {
                let rtt = reply.rtt_us;
                self.received = self.received + 1;
                if rtt < self.min_rtt_us {
                    self.min_rtt_us = rtt;
                }
                if rtt > self.max_rtt_us {
                    self.max_rtt_us = rtt;
                }
                self.sum_rtt_us = self.sum_rtt_us + rtt as u128;
            },
            _ => {
                self.lost = self.lost + 1;
            },
        }
        self.samples = Ghost(s2);
        proof {
            lemma_received_plus_lost(s2);
        }
    }

    /// Probes attempted so far.
    pub fn sent(&self) -> (r: u16)
        requires
            self.wf(),
        ensures
            r as nat == self@.len(),
    {
        self.sent
    }

    /// Replies received so far.
    pub fn received(&self) -> (r: u16)
        requires
            self.wf(),
        ensures
            r as nat == received_in(self@),
    {
        self.received
    }

    /// Probes lost so far.
    pub fn lost(&self) -> (r: u16)
        requires
            self.wf(),
        ensures
            r as nat == lost_in(self@),
    {
        self.lost
    }

    /// The final statistics of the probes recorded so far.
    pub fn finish(&self) -> (r: PingStatistics)
        requires
            self.wf(),
        ensures
            r.describes(self@),
    {
        let ghost s = self.samples@;
        proof {
            lemma_received_plus_lost(s);
        }
        let loss_basis_points: u32 = if self.sent == 0 {
            0
        } else {
            proof {
                assert(10000 * (self.lost as nat) <= 10000 * (u16::MAX as nat)) by (nonlinear_arith)
                    requires self.lost <= u16::MAX;
            }
            (10000 * (self.lost as u32)) / (self.sent as u32)
        };
        if self.received == 0 {
            PingStatistics {
                sent: self.sent,
                received: 0,
                lost: self.lost,
                loss_basis_points,
                min_rtt_us: 0,
                max_rtt_us: 0,
                avg_rtt_us: 0,
            }
        } else {
            proof {
                lemma_rtt_order(s);
            }
            let avg = self.sum_rtt_us / (self.received as u128);
            PingStatistics {
                sent: self.sent,
                received: self.received,
                lost: self.lost,
                loss_basis_points,
                min_rtt_us: self.min_rtt_us,
                max_rtt_us: self.max_rtt_us,
                avg_rtt_us: avg as u64,
            }
        }
    }
}

/// Statistics of a whole sequence of outcomes, independent of timing.
pub fn summarize(outcomes: &Vec<ProbeOutcome>) -> (r: PingStatistics)
    requires
        outcomes.len() <= u16::MAX,
    ensures
        r.describes(samples_of(outcomes@)),
{
    let mut tally = Tally::new();
    let mut i: usize = 0;
    while i < outcomes.len()
        invariant
            i <= outcomes.len() <= u16::MAX,
            tally.wf(),
            tally@ == samples_of(outcomes@.take(i as int)),
        decreases outcomes.len() - i,
    {
        tally.record(&outcomes[i]);
        i = i + 1;
        assert(outcomes@.take(i as int) =~= outcomes@.take(i - 1).push(outcomes@[i - 1]));
        assert(samples_of(outcomes@.take(i as int)) =~= samples_of(outcomes@.take(i - 1)).push(
            outcomes@[i - 1].sample(),
        ));
    }
    assert(outcomes@.take(i as int) =~= outcomes@);
    tally.finish()
}

} // verus!
