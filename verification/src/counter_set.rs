//! A tally of outstanding requests per resolution class, able to report the
//! tightest class still requested in time bounded by the number of classes.

use crate::period::{opt_val, Period, MAX_PERIOD_MS, MIN_PERIOD_MS};
use vstd::prelude::*;

verus! {

/// Number of tracked classes: one slot per period value in
/// `[MIN_PERIOD_MS, MAX_PERIOD_MS)`. The disabled sentinel class is never
/// counted, since it must never keep elevation alive.
pub const NUM_SLOTS: usize = 15;

/// The tightest period value with a positive count in `s` at or above `q`,
/// searching the slots from tightest to loosest.
pub open spec fn spec_min_from(s: Seq<usize>, q: int) -> Option<int>
    decreases MAX_PERIOD_MS as int - q,
{
    if q < MIN_PERIOD_MS as int || q >= MAX_PERIOD_MS as int {
        None
    } else if s[q - 1] > 0 {
        Some(q)
    } else {
        spec_min_from(s, q + 1)
    }
}

/// The tightest period value with a positive count in `s`, or none.
pub open spec fn spec_min(s: Seq<usize>) -> Option<int> {
    spec_min_from(s, MIN_PERIOD_MS as int)
}

/// The counts after one request for class `p` is added: the slot for `p` is
/// one higher, unless `p` is the disabled sentinel, which is not tracked.
pub open spec fn counts_after_add(s: Seq<usize>, p: int) -> Seq<usize> {
    if p < MAX_PERIOD_MS as int {
        s.update(p - 1, (s[p - 1] + 1) as usize)
    } else {
        s
    }
}

/// The counts after one request for class `p` is removed.
pub open spec fn counts_after_remove(s: Seq<usize>, p: int) -> Seq<usize> {
    if p < MAX_PERIOD_MS as int {
        s.update(p - 1, (s[p - 1] - 1) as usize)
    } else {
        s
    }
}

/// Whether one more request for class `p` can be tallied without the slot
/// overflowing the machine word that holds it.
pub open spec fn can_add(s: Seq<usize>, p: int) -> bool {
    p < MAX_PERIOD_MS as int ==> s[p - 1] < usize::MAX
}

/// Whether a request for class `p` is outstanding, so that removing one is
/// sound bookkeeping. Removing from an empty slot indicates corrupted
/// reference counting and is excluded outright.
pub open spec fn can_remove(s: Seq<usize>, p: int) -> bool {
    p < MAX_PERIOD_MS as int ==> s[p - 1] > 0
}

/// Counts of outstanding requests, one slot per period class in
/// `[MIN_PERIOD_MS, MAX_PERIOD_MS)`. A slot's count equals the number of
/// live handles currently holding that class.
pub struct PeriodSet {
    counts: Vec<usize>,
}

impl View for PeriodSet {
    type V = Seq<usize>;

    closed spec fn view(&self) -> Seq<usize> {
        self.counts@
    }
}

impl Default for PeriodSet {
    /// An empty tally: every class has a count of zero.
    fn default() -> (s: PeriodSet)
        ensures
            s.wf(),
            forall|i: int| 0 <= i < NUM_SLOTS ==> s@[i] == 0,
    {
        let mut counts: Vec<usize> = Vec::new();
        let mut i: usize = 0;
        while i < NUM_SLOTS
            invariant
                i <= NUM_SLOTS,
                counts@.len() == i,
                forall|j: int| 0 <= j < i ==> counts@[j] == 0,
            decreases NUM_SLOTS - i,
        {
            counts.push(0);
            i = i + 1;
        }
        PeriodSet { counts }
    }
}

impl PeriodSet {
    /// A set is well formed when it holds one slot per tracked class.
    pub open spec fn wf(&self) -> bool {
        self@.len() == NUM_SLOTS
    }

    /// The count of outstanding requests for class `p`.
    pub open spec fn count_of(&self, p: int) -> usize {
        self@[p - 1]
    }

    /// The slot holding the count for class `p`. The disabled sentinel has
    /// no slot and is excluded by the caller.
    pub fn idx(&mut self, p: Period) -> (c: &mut usize)
        requires
            old(self).wf(),
            p.wf(),
            p@ < MAX_PERIOD_MS as int,
        ensures
            *c == old(self)@[p@ - 1],
            final(self)@ == old(self)@.update(p@ - 1, *final(c)),
            final(self).wf(),
    {
        let slot = (p.as_uint() - MIN_PERIOD_MS as u32) as usize;
        &mut self.counts[slot]
    }

    /// The count of outstanding requests for class `p`; the untracked
    /// disabled sentinel always reads as zero.
    pub fn count(&self, p: Period) -> (c: usize)
        requires
            self.wf(),
            p.wf(),
        ensures
            p@ < MAX_PERIOD_MS as int ==> c == self.count_of(p@),
            p@ == MAX_PERIOD_MS as int ==> c == 0,
    {
        if p.is_disabled() {
            0
        } else {
            self.counts[(p.as_uint() - MIN_PERIOD_MS as u32) as usize]
        }
    }

    /// Tally one more request for class `p`. The disabled sentinel is not
    /// tracked: it never contributes to tightening the minimum.
    pub fn add(&mut self, p: Period)
        requires
            old(self).wf(),
            p.wf(),
            can_add(old(self)@, p@),
        ensures
            final(self)@ == counts_after_add(old(self)@, p@),
            final(self).wf(),
    {
        if !p.is_disabled() {
            let c = self.idx(p);
            *c = *c + 1;
        }
    }

    /// Drop one outstanding request for class `p`. A request must actually
    /// be outstanding: decrementing an empty slot would silently
    /// desynchronize the reference counts.
    pub fn remove(&mut self, p: Period)
        requires
            old(self).wf(),
            p.wf(),
            can_remove(old(self)@, p@),
        ensures
            final(self)@ == counts_after_remove(old(self)@, p@),
            final(self).wf(),
    {
        if !p.is_disabled() {
            let c = self.idx(p);
            *c = *c - 1;
        }
    }

    /// The tightest class with an outstanding request, or none if every
    /// slot is zero. Scans the fixed slots from tightest to loosest.
    pub fn min(&self) -> (r: Option<Period>)
        requires
            self.wf(),
        ensures
            opt_val(r) == spec_min(self@),
            r matches Some(p) ==> p.wf() && p@ < MAX_PERIOD_MS as int,
    {
        let mut i: usize = 0;
        while i < NUM_SLOTS
            invariant
                self.wf(),
                i <= NUM_SLOTS,
                spec_min(self@) == spec_min_from(self@, i + MIN_PERIOD_MS as int),
            decreases NUM_SLOTS - i,
        {
            if self.counts[i] > 0 {
                return Some(Period::new((i as u8) + MIN_PERIOD_MS));
            }
            i = i + 1;
        }
        None
    }
}

/// The reported minimum characterizes the whole tally: whatever sequence of
/// additions and removals produced the counts, the minimum is the tightest
/// class with a still-positive count — every tighter slot is zero — and it
/// is none exactly when every slot is zero.
pub proof fn lemma_spec_min_characterizes(s: Seq<usize>)
    requires
        s.len() == NUM_SLOTS,
    ensures
        match spec_min(s) {
            Some(q) => {
                &&& MIN_PERIOD_MS as int <= q < MAX_PERIOD_MS as int
                &&& s[q - 1] > 0
                &&& forall|j: int| MIN_PERIOD_MS as int <= j < q ==> #[trigger] s[j - 1] == 0
            },
            None => forall|j: int|
                MIN_PERIOD_MS as int <= j < MAX_PERIOD_MS as int ==> #[trigger] s[j - 1] == 0,
        },
{
    lemma_spec_min_from_characterizes(s, MIN_PERIOD_MS as int);
}

proof fn lemma_spec_min_from_characterizes(s: Seq<usize>, q: int)
    requires
        s.len() == NUM_SLOTS,
        MIN_PERIOD_MS as int <= q,
    ensures
        match spec_min_from(s, q) {
            Some(m) => {
                &&& q <= m < MAX_PERIOD_MS as int
                &&& s[m - 1] > 0
                &&& forall|j: int| q <= j < m ==> #[trigger] s[j - 1] == 0
            },
            None => forall|j: int| q <= j < MAX_PERIOD_MS as int ==> #[trigger] s[j - 1] == 0,
        },
    decreases MAX_PERIOD_MS as int - q,
{
    if q < MAX_PERIOD_MS as int && s[q - 1] == 0 {
        lemma_spec_min_from_characterizes(s, q + 1);
    }
}

} // verus!
