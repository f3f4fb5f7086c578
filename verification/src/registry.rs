//! The stateful registry: owns the tally of outstanding requests, tracks the
//! class actually applied to the OS, and decides exactly when the platform
//! timer policy must change.

use crate::counter_set::{
    can_add, can_remove, counts_after_add, counts_after_remove, spec_min, PeriodSet, NUM_SLOTS,
};
use crate::period::{opt_val, quantize, Period, Span, MAX_PERIOD_MS, NANOS_PER_MILLI};
use vstd::prelude::*;

verus! {

/// One required change of the OS timer policy. The platform layer first
/// reverses the elevation for `stop` (if any class was elevated), then
/// elevates to `start` (or restores the baseline when `start` is none).
pub struct Transition {
    /// The class that was applied before and must be stopped, if any.
    pub stop: Option<Period>,
    /// The class to apply now, or none to stay at the baseline.
    pub start: Option<Period>,
}

/// Holding an instance of this indicates that high-resolution timers are
/// managed for the owning scope. The registry never reports a policy change
/// when a mutation leaves the tightest outstanding class unchanged.
pub struct HrTime {
    periods: PeriodSet,
    active: Option<Period>,
}

/// How a mutation's outcome must relate the registry's new state to the old
/// applied class: the new applied class is the tightest outstanding one, and
/// a transition is reported exactly when that differs from the old class —
/// never a redundant platform call, never a stale `active`.
pub open spec fn transition_spec(
    old_active: Option<Period>,
    new_counts: Seq<usize>,
    new_active: Option<Period>,
    t: Option<Transition>,
) -> bool {
    &&& opt_val(new_active) == spec_min(new_counts)
    &&& if spec_min(new_counts) == opt_val(old_active) {
        t is None && new_active == old_active
    } else {
        t matches Some(tr) && tr.stop == old_active && tr.start == new_active
    }
}

/// Whether two optional periods denote the same class.
fn opt_period_eq(a: &Option<Period>, b: &Option<Period>) -> (r: bool)
    ensures
        r == (opt_val(*a) == opt_val(*b)),
{
    match (a, b) {
        (Some(x), Some(y)) => x.as_uint() == y.as_uint(),
        (None, None) => true,
        _ => false,
    }
}

impl HrTime {
    /// The tally of outstanding requests per class.
    pub closed spec fn counts(&self) -> Seq<usize> {
        self.periods@
    }

    /// The class currently applied to the OS, or none at the baseline.
    pub closed spec fn active_of(&self) -> Option<Period> {
        self.active
    }

    /// The registry is well formed when its tally is, when the applied class
    /// always equals the tightest outstanding class — it is never left
    /// stale — and when that class is never the disabled sentinel.
    pub open spec fn wf(&self) -> bool {
        &&& self.counts().len() == NUM_SLOTS
        &&& opt_val(self.active_of()) == spec_min(self.counts())
        &&& match self.active_of() {
            Some(p) => p.wf() && p@ < MAX_PERIOD_MS as int,
            None => true,
        }
    }

    /// A fresh registry: nothing outstanding, OS policy untouched.
    pub fn new() -> (r: HrTime)
        ensures
            r.wf(),
            r.active_of() is None,
            forall|i: int| 0 <= i < NUM_SLOTS ==> r.counts()[i] == 0,
    {
        let r = HrTime { periods: PeriodSet::default(), active: None };
        proof {
            reveal_with_fuel(crate::counter_set::spec_min_from, 16);
        }
        r
    }

    /// The count of outstanding requests for class `p`; the untracked
    /// disabled sentinel always reads as zero. Lets an unverified caller
    /// test a mutation's bookkeeping precondition before committing to it.
    pub fn outstanding(&self, p: Period) -> (c: usize)
        requires
            self.wf(),
            p.wf(),
        ensures
            p@ < MAX_PERIOD_MS as int ==> c == self.counts()[p@ - 1],
            p@ == MAX_PERIOD_MS as int ==> c == 0,
    {
        self.periods.count(p)
    }

    /// The class currently applied to the OS, or none at the baseline.
    pub fn active(&self) -> (r: Option<Period>)
        ensures
            r == self.active_of(),
    {
        self.active
    }

    /// Recompute the tightest outstanding class and report the policy change
    /// if — and only if — it differs from the one applied.
    pub fn update(&mut self) -> (t: Option<Transition>)
        requires
            old(self).counts().len() == NUM_SLOTS,
        ensures
            final(self).counts() == old(self).counts(),
            final(self).wf(),
            transition_spec(
                old(self).active_of(),
                old(self).counts(),
                final(self).active_of(),
                t,
            ),
    {
        let next = self.periods.min();
        if !opt_period_eq(&next, &self.active) {
            let t = Transition { stop: self.active, start: next };
            self.active = next;
            Some(t)
        } else {
            None
        }
    }

    /// Record one more request for class `p` and apply the consequences.
    pub fn add(&mut self, p: Period) -> (t: Option<Transition>)
        requires
            old(self).wf(),
            p.wf(),
            can_add(old(self).counts(), p@),
        ensures
            final(self).counts() == counts_after_add(old(self).counts(), p@),
            final(self).wf(),
            transition_spec(
                old(self).active_of(),
                final(self).counts(),
                final(self).active_of(),
                t,
            ),
    {
        self.periods.add(p);
        self.update()
    }

    /// Drop one outstanding request for class `p` and apply the
    /// consequences; when the last request goes, the baseline is restored.
    pub fn remove(&mut self, p: Period) -> (t: Option<Transition>)
        requires
            old(self).wf(),
            p.wf(),
            can_remove(old(self).counts(), p@),
        ensures
            final(self).counts() == counts_after_remove(old(self).counts(), p@),
            final(self).wf(),
            transition_spec(
                old(self).active_of(),
                final(self).counts(),
                final(self).active_of(),
                t,
            ),
    {
        self.periods.remove(p);
        self.update()
    }

    /// The final restoration owed when the registry itself is torn down:
    /// whatever class is still applied must be stopped, so the scope is
    /// never left with the OS policy elevated — and the baseline is restored
    /// at most once, since afterwards nothing is applied.
    pub fn shutdown(&mut self) -> (t: Option<Transition>)
        ensures
            final(self).counts() == old(self).counts(),
            final(self).active_of() is None,
            old(self).active_of() is Some ==> t == Some(
                (Transition { stop: old(self).active_of(), start: None }),
            ),
            old(self).active_of() is None ==> t is None && *final(self) == *old(self),
    {
        match self.active {
            Some(_) => {
                let t = Transition { stop: self.active, start: None };
                self.active = None;
                Some(t)
            },
            None => None,
        }
    }

    /// Exchange one outstanding request for another in a single step: one
    /// removal, one addition, and at most one policy change.
    pub fn replace(&mut self, old_p: Period, new_p: Period) -> (t: Option<Transition>)
        requires
            old(self).wf(),
            old_p.wf(),
            new_p.wf(),
            can_remove(old(self).counts(), old_p@),
            can_add(counts_after_remove(old(self).counts(), old_p@), new_p@),
        ensures
            final(self).counts() == counts_after_add(
                counts_after_remove(old(self).counts(), old_p@),
                new_p@,
            ),
            final(self).wf(),
            transition_spec(
                old(self).active_of(),
                final(self).counts(),
                final(self).active_of(),
                t,
            ),
    {
        self.periods.remove(old_p);
        self.periods.add(new_p);
        self.update()
    }
}

/// A request at or beyond the top of the class range never elevates the OS
/// policy: such a request quantizes to the untracked sentinel, so a mutation
/// satisfying the registry's contract leaves the tally, the applied class and
/// the platform untouched.
pub proof fn lemma_top_of_range_never_elevates(
    old_active: Option<Period>,
    counts: Seq<usize>,
    new_active: Option<Period>,
    t: Option<Transition>,
    n: int,
)
    requires
        n > (MAX_PERIOD_MS as int - 1) * (NANOS_PER_MILLI as int),
        opt_val(old_active) == spec_min(counts),
        transition_spec(old_active, counts_after_add(counts, quantize(n)), new_active, t),
    ensures
        counts_after_add(counts, quantize(n)) == counts,
        new_active == old_active,
        t is None,
{
    crate::period::lemma_quantize_saturates(n);
}

} // verus!
