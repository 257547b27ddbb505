//! Cycle accounting over host-supplied instruction counters.
//!
//! The host's instruction counter is read by the surrounding layer and
//! handed in as plain numbers; the monitor only records labeled marks and
//! renders the report, so everything here is a pure function of the numbers
//! it was given. Counter values never decrease, which the monitor keeps as
//! its invariant.

use vstd::prelude::*;

use crate::text::{spec_decimal, u64_to_string};
use vstd::string::{StringExecFns, StrSliceExecFns};

verus! {

/// Whether the marks at and after `prev` never decrease.
pub open spec fn marks_monotone(prev: u64, cps: Seq<(String, u64)>) -> bool
    decreases cps.len(),
{
    if cps.len() == 0 {
        true
    } else {
        prev <= cps[0].1 && marks_monotone(cps[0].1, cps.drop_first())
    }
}

/// The newest mark, or `prev` when none was recorded.
pub open spec fn latest_mark_of(prev: u64, cps: Seq<(String, u64)>) -> u64 {
    if cps.len() == 0 {
        prev
    } else {
        cps.last().1
    }
}

/// The report lines from `prev` onward: each mark's label and its distance
/// from the mark before it.
pub open spec fn spec_report_lines(prev: u64, cps: Seq<(String, u64)>) -> Seq<char>
    decreases cps.len(),
{
    if cps.len() == 0 {
        Seq::empty()
    } else {
        cps[0].0@ + ": "@ + spec_decimal(cps[0].1 - prev) + " cycles\n"@ + spec_report_lines(
            cps[0].1,
            cps.drop_first(),
        )
    }
}

/// The whole report: the total consumed up to `now`, then one line per mark.
pub open spec fn spec_report(start: u64, cps: Seq<(String, u64)>, now: u64) -> Seq<char> {
    "Performance Report (Total cycles: "@ + spec_decimal(now - start) + ")\n"@
        + spec_report_lines(start, cps)
}

/// A newer mark keeps the marks monotone.
proof fn lemma_monotone_push(prev: u64, cps: Seq<(String, u64)>, p: (String, u64))
    requires
        marks_monotone(prev, cps),
        p.1 >= latest_mark_of(prev, cps),
    ensures
        marks_monotone(prev, cps.push(p)),
    decreases cps.len(),
{
    if cps.len() == 0 {
        assert(cps.push(p)[0] == p);
        assert(cps.push(p).drop_first() =~= Seq::<(String, u64)>::empty());
        assert(marks_monotone(p.1, Seq::<(String, u64)>::empty()));
    } else {
        assert(cps.push(p).drop_first() =~= cps.drop_first().push(p));
        if cps.len() > 1 {
            assert(cps.drop_first().last() == cps.last());
        }
        lemma_monotone_push(cps[0].1, cps.drop_first(), p);
        assert(cps.push(p)[0] == cps[0]);
        assert(marks_monotone(cps.push(p)[0].1, cps.push(p).drop_first()));
    }
    assert(prev <= cps.push(p)[0].1);
}

/// The newest mark never lies before `prev`.
proof fn lemma_latest_ge_prev(prev: u64, cps: Seq<(String, u64)>)
    requires
        marks_monotone(prev, cps),
    ensures
        latest_mark_of(prev, cps) >= prev,
    decreases cps.len(),
{
    if cps.len() > 0 {
        lemma_latest_ge_prev(cps[0].1, cps.drop_first());
        if cps.len() > 1 {
            assert(cps.drop_first().last() == cps.last());
        }
    }
}

/// Records labeled marks of a non-decreasing counter and renders them.
pub struct PerformanceMonitor {
    start_cycles: u64,
    checkpoints: Vec<(String, u64)>,
}

impl PerformanceMonitor {
    /// The counter value the monitor was started at.
    pub closed spec fn start_spec(&self) -> u64 {
        self.start_cycles
    }

    /// The recorded marks, in order.
    pub closed spec fn checkpoints_spec(&self) -> Seq<(String, u64)> {
        self.checkpoints@
    }

    /// Marks never decrease, starting from the start value.
    pub open spec fn wf(&self) -> bool {
        marks_monotone(self.start_spec(), self.checkpoints_spec())
    }

    /// The newest recorded counter value.
    pub open spec fn latest_mark(&self) -> u64 {
        latest_mark_of(self.start_spec(), self.checkpoints_spec())
    }

    /// Starts monitoring at the given counter value.
    pub fn new(start_cycles: u64) -> (r: Self)
        ensures
            r.wf(),
            r.start_spec() == start_cycles,
            r.checkpoints_spec() == Seq::<(String, u64)>::empty(),
    {
        PerformanceMonitor { start_cycles, checkpoints: Vec::new() }
    }

    /// Records one labeled mark; the counter must not have gone backward.
    pub fn checkpoint(&mut self, label: String, cycles: u64)
        requires
            old(self).wf(),
            cycles >= old(self).latest_mark(),
        ensures
            final(self).wf(),
            final(self).start_spec() == old(self).start_spec(),
            final(self).checkpoints_spec() == old(self).checkpoints_spec().push((label, cycles)),
    {
        let ghost pre = self.checkpoints@;
        let ghost pair = (label, cycles);
        self.checkpoints.push((label, cycles));
        proof {
            lemma_monotone_push(self.start_cycles, pre, pair);
        }
    }

    /// Cycles consumed between the start and `now`.
    pub fn total_cycles(&self, now: u64) -> (r: u64)
        requires
            now >= self.start_spec(),
        ensures
            r == now - self.start_spec(),
    {
        now - self.start_cycles
    }

    /// Renders the report: the total up to `now`, then each mark's label
    /// with the cycles consumed since the mark before it.
    #[verifier::loop_isolation(false)]
    pub fn get_report(&self, now: u64) -> (r: String)
        requires
            self.wf(),
            now >= self.latest_mark(),
        ensures
            r@ == spec_report(self.start_spec(), self.checkpoints_spec(), now),
    {
        proof {
            lemma_latest_ge_prev(self.start_cycles, self.checkpoints@);
        }
        let mut report = String::from_str("Performance Report (Total cycles: ");
        let total = u64_to_string(now - self.start_cycles);
        report.append(total.as_str());
        report.append(")\n");
        let mut prev: u64 = self.start_cycles;
        let mut i: usize = 0;
        proof {
            assert(self.checkpoints@.skip(0) =~= self.checkpoints@);
        }
        while i < self.checkpoints.len()
            invariant
                i <= self.checkpoints@.len(),
                marks_monotone(prev, self.checkpoints@.skip(i as int)),
                latest_mark_of(prev, self.checkpoints@.skip(i as int)) == self.latest_mark(),
                spec_report(self.start_spec(), self.checkpoints_spec(), now) == report@
                    + spec_report_lines(prev, self.checkpoints@.skip(i as int)),
            decreases self.checkpoints@.len() - i,
        {
            proof {
                assert(self.checkpoints@.skip(i as int)[0] == self.checkpoints@[i as int]);
                assert(self.checkpoints@.skip(i as int).drop_first() =~= self.checkpoints@.skip(
                    i + 1,
                ));
                if i + 1 < self.checkpoints@.len() {
                    assert(self.checkpoints@.skip(i + 1).last() == self.checkpoints@.last());
                }
            }
            let mark = self.checkpoints[i].1;
            report.append(self.checkpoints[i].0.as_str());
            report.append(": ");
            let diff = u64_to_string(mark - prev);
            report.append(diff.as_str());
            report.append(" cycles\n");
            prev = mark;
            i = i + 1;
        }
        proof {
            assert(self.checkpoints@.skip(self.checkpoints@.len() as int) =~= Seq::<(
                String,
                u64,
            )>::empty());
            assert(report@ =~= spec_report(self.start_spec(), self.checkpoints_spec(), now));
        }
        report
    }
}

} // verus!
