use vstd::prelude::*;
use crate::config::ProbeConfig;
use crate::outcome::ProbeOutcome;
use crate::stats::{PingStatistics, Tally, received_in, lost_in};

verus! {

/// The echo identifier of every session: fixed for the process's lifetime.
pub const ECHO_IDENTIFIER: u16 = 123;

/// What the probe loop asks its driver to do next.
#[derive(Clone, Copy, Debug, PartialEq, Eq, Structural)]
pub enum Step {
    /// Wait `wait_ms`, then run one exchange with echo sequence `sequence`,
    /// given up after `timeout_ms`, and hand its outcome back.
    Send { sequence: u16, wait_ms: u64, timeout_ms: u64 },
    /// Every probe has run: take the statistics.
    Finished,
}

/// The pause before probe `i`: none before the first, the interval before
/// each later one, however long the previous exchange took.
pub open spec fn wait_before(i: nat, interval_ms: u64) -> nat {
    if i == 0 {
        0
    } else {
        interval_ms as nat
    }
}

/// The step that follows `i` recorded probes.
pub open spec fn step_at(i: nat, config: ProbeConfig) -> Step {
    if i >= config.count {
        Step::Finished
    } else {
        Step::Send {
            sequence: i as u16,
            wait_ms: wait_before(i, config.interval_ms) as u64,
            timeout_ms: config.timeout_ms,
        }
    }
}

/// Total time spent waiting before the first `n` probes.
pub open spec fn total_wait(n: nat, interval_ms: u64) -> nat
    decreases n,
{
    if n == 0 {
        0
    } else {
        total_wait((n - 1) as nat, interval_ms) + wait_before((n - 1) as nat, interval_ms)
    }
}

/// Pacing: a run of `n` probes waits `(n - 1)` intervals in all, not `n`.
pub proof fn lemma_pacing(n: nat, interval_ms: u64)
    requires
        n >= 1,
    ensures
        total_wait(n, interval_ms) == (n - 1) * (interval_ms as nat),
    decreases n,
{
    if n > 1 {
        lemma_pacing((n - 1) as nat, interval_ms);
        assert((n - 1) * (interval_ms as nat) == (n - 2) * (interval_ms as nat) + interval_ms)
            by (nonlinear_arith)
            requires n >= 2;
    } else {
        assert(total_wait(0, interval_ms) == 0);
        assert(0 * (interval_ms as nat) == 0) by (nonlinear_arith);
    }
}

/// The decisions of a run: which probe comes next, after how long a pause,
/// and the statistics of the outcomes handed back so far.
pub struct ProbeLoop {
    config: ProbeConfig,
    tally: Tally,
}

impl ProbeLoop {
    pub closed spec fn spec_config(&self) -> ProbeConfig {
        self.config
    }

    /// The samples of the outcomes recorded so far, in order.
    pub closed spec fn samples(&self) -> Seq<Option<u64>> {
        self.tally@
    }

    pub closed spec fn wf(&self) -> bool {
        &&& self.config.is_valid()
        &&& self.tally.wf()
        &&& self.tally@.len() <= self.config.count
    }

    pub fn new(config: ProbeConfig) -> (r: ProbeLoop)
        requires
            config.is_valid(),
        ensures
            r.wf(),
            r.spec_config() == config,
            r.samples() == Seq::<Option<u64>>::empty(),
    {
        ProbeLoop { config, tally: Tally::new() }
    }

    /// The next step: probe number `i` (its sequence number is `i`) while
    /// fewer than `count` outcomes are recorded, then the end.
    pub fn next_step(&self) -> (r: Step)
        requires
            self.wf(),
        ensures
            r == step_at(self.samples().len(), self.spec_config()),
    {
        let i = self.tally.sent();
        if i >= self.config.count {
            Step::Finished
        } else {
            let wait_ms = if i == 0 {
                0
            } else {
                self.config.interval_ms
            };
            Step::Send { sequence: i, wait_ms, timeout_ms: self.config.timeout_ms }
        }
    }

    /// Records the outcome of the probe that `next_step` asked for.
    pub fn record(&mut self, outcome: &ProbeOutcome)
        requires
            old(self).wf(),
            old(self).samples().len() < old(self).spec_config().count,
        ensures
            final(self).wf(),
            final(self).spec_config() == old(self).spec_config(),
            final(self).samples() == old(self).samples().push(outcome.sample()),
            received_in(final(self).samples()) + lost_in(final(self).samples())
                == final(self).samples().len(),
    {
        self.tally.record(outcome);
    }

    /// The statistics of the probes recorded so far.
    pub fn finish(&self) -> (r: PingStatistics)
        requires
            self.wf(),
        ensures
            r.describes(self.samples()),
    {
        self.tally.finish()
    }
}

} // verus!
