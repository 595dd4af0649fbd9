use vstd::prelude::*;

verus! {

/// The escape-time count of an orbit `z0, z1, ...`, given for each of its points whether
/// it lies within the escape bound: the number of leading points within the bound,
/// capped at `max_iter`.
pub open spec fn escape_count(within: Seq<bool>, max_iter: nat) -> nat
    decreases within.len(),
{
    if within.len() == 0 || max_iter == 0 || !within[0] {
        0
    } else {
        1 + escape_count(within.drop_first(), (max_iter - 1) as nat)
    }
}

/// Drives the escape-time loop of one pixel. The caller computes the orbit and reports,
/// point by point, whether the current point lies within the escape bound; the counter
/// says whether to apply one more update, and holds the count once it says to stop.
pub struct EscapeCounter {
    iter: u32,
    max_iter: u32,
    stopped: bool,
    seen: Ghost<Seq<bool>>,
}

impl EscapeCounter {
    /// Updates applied so far.
    pub closed spec fn spec_count(&self) -> u32 {
        self.iter
    }

    pub closed spec fn spec_max_iter(&self) -> u32 {
        self.max_iter
    }

    /// Whether the loop has stopped: the point escaped or the cap was reached.
    pub closed spec fn spec_stopped(&self) -> bool {
        self.stopped
    }

    /// The answers given so far, one per orbit point, in order.
    pub closed spec fn observed(&self) -> Seq<bool> {
        self.seen@
    }

    pub closed spec fn wf(&self) -> bool {
        &&& self.iter <= self.max_iter
        &&& forall|i: int| 0 <= i < self.iter ==> #[trigger] self.seen@[i]
        &&& if self.stopped {
            self.seen@.len() == self.iter + 1
                && (self.iter == self.max_iter || !self.seen@[self.iter as int])
        } else {
            self.seen@.len() == self.iter
        }
    }

    /// A counter for an orbit that has not been looked at yet.
    pub fn new(max_iter: u32) -> (r: Self)
        ensures
            r.wf(),
            r.spec_count() == 0,
            r.spec_max_iter() == max_iter,
            !r.spec_stopped(),
            r.observed() == Seq::<bool>::empty(),
    {
        EscapeCounter { iter: 0, max_iter, stopped: false, seen: Ghost(Seq::empty()) }
    }

    /// Takes whether the current orbit point lies within the escape bound. Returns
    /// `true` when the caller is to apply one more update and ask again, `false`
    /// when the count is final.
    pub fn observe(&mut self, within_bound: bool) -> (go_on: bool)
        requires
            old(self).wf(),
            !old(self).spec_stopped(),
        ensures
            final(self).wf(),
            go_on == (old(self).spec_count() < old(self).spec_max_iter() && within_bound),
            final(self).spec_count() == old(self).spec_count() + (if go_on { 1int } else { 0int }),
            final(self).spec_stopped() == !go_on,
            final(self).spec_max_iter() == old(self).spec_max_iter(),
            final(self).observed() == old(self).observed().push(within_bound),
    {
        self.seen = Ghost(self.seen@.push(within_bound));
        if self.iter < self.max_iter && within_bound {
            self.iter = self.iter + 1;
            true
        } else {
            self.stopped = true;
            false
        }
    }

    /// Whether the loop has stopped.
    #[verifier::when_used_as_spec(spec_stopped)]
    pub fn is_stopped(&self) -> (r: bool)
        ensures
            r == self.spec_stopped(),
    {
        self.stopped
    }

    /// The cap on the count.
    #[verifier::when_used_as_spec(spec_max_iter)]
    pub fn max_iter(&self) -> (r: u32)
        ensures
            r == self.spec_max_iter(),
    {
        self.max_iter
    }

    /// The number of updates applied; once the counter has stopped, the escape-time
    /// count of the orbit it was shown.
    pub fn count(&self) -> (r: u32)
        requires
            self.wf(),
        ensures
            r == self.spec_count(),
            r <= self.spec_max_iter(),
            self.spec_stopped() ==> r == escape_count(self.observed(), self.spec_max_iter() as nat),
    {
        proof {
            if self.stopped {
                lemma_escape_count_of_prefix(self.seen@, self.max_iter as nat, self.iter as nat);
            }
        }
        self.iter
    }
}

/// An orbit whose first `k` points lie within the bound, followed by the cap or a point
/// outside it, has the count `k`.
proof fn lemma_escape_count_of_prefix(within: Seq<bool>, max_iter: nat, k: nat)
    requires
        k <= max_iter,
        within.len() == k + 1,
        forall|i: int| 0 <= i < k ==> #[trigger] within[i],
        k == max_iter || !within[k as int],
    ensures
        escape_count(within, max_iter) == k,
    decreases k,
{
    if k > 0 {
        let rest = within.drop_first();
        assert forall|i: int| 0 <= i < k - 1 implies #[trigger] rest[i] by {
            assert(within[i + 1]);
        }
        lemma_escape_count_of_prefix(rest, (max_iter - 1) as nat, (k - 1) as nat);
    }
}

/// A point whose orbit never leaves the bound, such as the origin under the quadratic map
/// with constant zero, has the count `max_iter`.
pub proof fn lemma_never_escapes(within: Seq<bool>, max_iter: nat)
    requires
        within.len() >= max_iter,
        forall|i: int| 0 <= i < within.len() ==> #[trigger] within[i],
    ensures
        escape_count(within, max_iter) == max_iter,
    decreases max_iter,
{
    if max_iter > 0 {
        let rest = within.drop_first();
        assert forall|i: int| 0 <= i < rest.len() implies #[trigger] rest[i] by {
            assert(within[i + 1]);
        }
        lemma_never_escapes(rest, (max_iter - 1) as nat);
    }
}

} // verus!
