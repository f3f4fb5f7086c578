//! A handle standing for one outstanding resolution request. Its lifetime is
//! the request's lifetime: creating it tallies the request, updating it
//! exchanges the request, and releasing it — which consumes the handle, so
//! release happens at most once — drops the request.

use crate::counter_set::{can_add, can_remove, counts_after_add, counts_after_remove};
use crate::period::{quantize, Period, Span};
use crate::registry::{transition_spec, HrTime, Transition};
use vstd::prelude::*;

verus! {

/// One outstanding request for a resolution class, issued by a registry.
/// Every mutation must reach the same registry that tallied the request.
pub struct HrPeriod {
    period: Period,
}

impl HrPeriod {
    /// The class this handle currently holds.
    pub closed spec fn period_of(&self) -> Period {
        self.period
    }

    pub fn period(&self) -> (p: Period)
        ensures
            p == self.period_of(),
    {
        self.period
    }

    /// Whether this handle's request may be dropped from `counts`: a live
    /// handle's class always has a positive count in its issuing registry.
    pub open spec fn live_in(&self, counts: Seq<usize>) -> bool {
        can_remove(counts, self.period_of()@)
    }

    /// Change this handle's request to a new duration on its issuing
    /// registry. When the duration quantizes to the class already held,
    /// nothing happens at all; otherwise exactly one removal of the old
    /// class and one addition of the new occur, and the registry reports at
    /// most one policy change.
    pub fn update(&mut self, hrt: &mut HrTime, d: Span) -> (t: Option<Transition>)
        requires
            old(hrt).wf(),
            old(self).period_of().wf(),
            quantize(d.total_nanos()) != old(self).period_of()@ ==> {
                &&& old(self).live_in(old(hrt).counts())
                &&& can_add(
                    counts_after_remove(old(hrt).counts(), old(self).period_of()@),
                    quantize(d.total_nanos()),
                )
            },
        ensures
            final(self).period_of()@ == quantize(d.total_nanos()),
            final(self).period_of().wf(),
            final(hrt).wf(),
            quantize(d.total_nanos()) == old(self).period_of()@ ==> {
                &&& t is None
                &&& *final(hrt) == *old(hrt)
                &&& *final(self) == *old(self)
            },
            quantize(d.total_nanos()) != old(self).period_of()@ ==> {
                &&& final(hrt).counts() == counts_after_add(
                    counts_after_remove(old(hrt).counts(), old(self).period_of()@),
                    quantize(d.total_nanos()),
                )
                &&& transition_spec(
                    old(hrt).active_of(),
                    final(hrt).counts(),
                    final(hrt).active_of(),
                    t,
                )
            },
    {
        let new = Period::from_duration(d);
        if new.as_uint() != self.period.as_uint() {
            let t = hrt.replace(self.period, new);
            self.period = new;
            t
        } else {
            None
        }
    }

    /// Release this request on its issuing registry. Consuming the handle
    /// makes the release happen exactly once.
    pub fn release(self, hrt: &mut HrTime) -> (t: Option<Transition>)
        requires
            old(hrt).wf(),
            self.period_of().wf(),
            self.live_in(old(hrt).counts()),
        ensures
            final(hrt).counts() == counts_after_remove(old(hrt).counts(), self.period_of()@),
            final(hrt).wf(),
            transition_spec(
                old(hrt).active_of(),
                final(hrt).counts(),
                final(hrt).active_of(),
                t,
            ),
    {
        hrt.remove(self.period)
    }
}

impl HrTime {
    /// Issue a handle for a request of duration `d`: the duration is
    /// quantized, the resulting class is tallied, and the policy change, if
    /// the request tightened the outstanding minimum, is reported beside the
    /// handle.
    pub fn request(&mut self, d: Span) -> (r: (HrPeriod, Option<Transition>))
        requires
            old(self).wf(),
            can_add(old(self).counts(), quantize(d.total_nanos())),
        ensures
            r.0.period_of()@ == quantize(d.total_nanos()),
            r.0.period_of().wf(),
            r.0.live_in(final(self).counts()),
            final(self).counts() == counts_after_add(
                old(self).counts(),
                quantize(d.total_nanos()),
            ),
            final(self).wf(),
            transition_spec(
                old(self).active_of(),
                final(self).counts(),
                final(self).active_of(),
                r.1,
            ),
    {
        let p = Period::from_duration(d);
        let t = self.add(p);
        (HrPeriod { period: p }, t)
    }
}

} // verus!
