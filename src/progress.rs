use vstd::prelude::*;

verus! {

/// Number of completed samples between two progress reports of a render.
pub const REPORT_PERIOD: u64 = 1000;

/// Counts the samples that a render has completed and decides when a progress
/// report is due: each time the count reaches a multiple of the period.
pub struct ProgressCounter {
    completed: u64,
    period: u64,
}

impl ProgressCounter {
    pub closed spec fn completed_spec(&self) -> nat {
        self.completed as nat
    }

    pub closed spec fn period_spec(&self) -> nat {
        self.period as nat
    }

    pub closed spec fn wf(&self) -> bool {
        self.period > 0
    }

    /// A counter at zero that reports every `period` samples; `None` for a
    /// period of zero.
    pub fn every(period: u64) -> (r: Option<ProgressCounter>)
        ensures
            r is Some <==> period > 0,
            r is Some ==> r->0.wf() && r->0.completed_spec() == 0 && r->0.period_spec()
                == period,
    {
        if period == 0 {
            None
        } else {
            Some(ProgressCounter { completed: 0, period })
        }
    }

    /// A counter at zero that reports every thousand samples.
    pub fn new() -> (r: ProgressCounter)
        ensures
            r.wf(),
            r.completed_spec() == 0,
            r.period_spec() == REPORT_PERIOD,
    {
        ProgressCounter { completed: 0, period: REPORT_PERIOD }
    }

    pub fn completed(&self) -> (r: u64)
        ensures
            r == self.completed_spec(),
    {
        self.completed
    }

    pub fn period(&self) -> (r: u64)
        ensures
            r == self.period_spec(),
    {
        self.period
    }

    /// Records one completed sample. Returns the new count where it reaches a
    /// multiple of the period, which is when a report is due, and `None`
    /// otherwise. A counter at `u64::MAX` stays there and reports nothing.
    pub fn record_sample(&mut self) -> (r: Option<u64>)
        requires
            old(self).wf(),
        ensures
            final(self).wf(),
            final(self).period_spec() == old(self).period_spec(),
            old(self).completed_spec() < u64::MAX ==> final(self).completed_spec() == old(
                self,
            ).completed_spec() + 1,
            old(self).completed_spec() == u64::MAX ==> final(self).completed_spec() == old(
                self,
            ).completed_spec(),
            r is Some <==> old(self).completed_spec() < u64::MAX && final(self).completed_spec()
                % final(self).period_spec() == 0,
            r is Some ==> r->0 == final(self).completed_spec(),
    {
        if self.completed == u64::MAX {
            return None;
        }
        self.completed = self.completed + 1;
        if self.completed % self.period == 0 {
            Some(self.completed)
        } else {
            None
        }
    }
}

} // verus!
