use vstd::prelude::*;
use vstd::arithmetic::div_mod::{
    lemma_fundamental_div_mod,
    lemma_fundamental_div_mod_converse,
    lemma_mod_pos_bound,
};

verus! {

/// Pixels between two notifications: a tenth of the grid, or every pixel on a grid
/// of fewer than ten pixels (where a tenth would be zero).
pub open spec fn report_step(total: nat) -> nat {
    if total >= 10 {
        total / 10
    } else {
        1
    }
}

/// Whether the observer is notified once `processed` pixels are done.
pub open spec fn reports_at(processed: nat, total: nat) -> bool {
    processed > 0 && processed % report_step(total) == 0
}

/// The values handed to the observer, in order, once `n` pixels are done.
pub open spec fn reports_upto(n: nat, total: nat) -> Seq<nat>
    decreases n,
{
    if n == 0 {
        Seq::empty()
    } else if reports_at(n, total) {
        reports_upto((n - 1) as nat, total).push(n)
    } else {
        reports_upto((n - 1) as nat, total)
    }
}

/// Counts finished pixels and decides, pixel by pixel, when the observer is notified.
/// One reporter serves a whole call; callers that share it between workers hold it
/// under a lock, which also keeps the notifications in order.
pub struct ProgressReporter {
    processed: usize,
    total: usize,
    step: usize,
}

impl ProgressReporter {
    pub closed spec fn spec_processed(&self) -> usize {
        self.processed
    }

    pub closed spec fn spec_total(&self) -> usize {
        self.total
    }

    pub closed spec fn wf(&self) -> bool {
        &&& self.processed <= self.total
        &&& self.step as nat == report_step(self.total as nat)
    }

    /// The notifications so far, in the order they were handed out.
    pub open spec fn reported(&self) -> Seq<nat> {
        reports_upto(self.spec_processed() as nat, self.spec_total() as nat)
    }

    /// A reporter for a grid of `total` pixels, none of them done.
    pub fn new(total: usize) -> (r: Self)
        ensures
            r.wf(),
            r.spec_processed() == 0,
            r.spec_total() == total,
    {
        let step: usize = if total >= 10 {
            total / 10
        } else {
            1
        };
        ProgressReporter { processed: 0, total, step }
    }

    /// The number of pixels done so far.
    #[verifier::when_used_as_spec(spec_processed)]
    pub fn processed(&self) -> (r: usize)
        ensures
            r == self.spec_processed(),
    {
        self.processed
    }

    /// The number of pixels in the grid.
    #[verifier::when_used_as_spec(spec_total)]
    pub fn total(&self) -> (r: usize)
        ensures
            r == self.spec_total(),
    {
        self.total
    }

    /// Records one more finished pixel. Returns the new count when the observer is
    /// to be notified of it, and `None` otherwise.
    pub fn record(&mut self) -> (report: Option<usize>)
        requires
            old(self).wf(),
            old(self).spec_processed() < old(self).spec_total(),
        ensures
            final(self).wf(),
            final(self).spec_total() == old(self).spec_total(),
            final(self).spec_processed() == old(self).spec_processed() + 1,
            report == (if reports_at(final(self).spec_processed() as nat, final(self).spec_total() as nat) {
                Some(final(self).spec_processed())
            } else {
                None::<usize>
            }),
            final(self).reported() == (match report {
                Some(v) => old(self).reported().push(v as nat),
                None => old(self).reported(),
            }),
    {
        self.processed = self.processed + 1;
        if self.processed % self.step == 0 {
            Some(self.processed)
        } else {
            None
        }
    }
}

/// Every notification up to `n` is a count of done pixels between 1 and `n`,
/// each one larger than the one before.
pub proof fn lemma_reports_increasing(n: nat, total: nat)
    ensures
        forall|i: int|
            0 <= i < reports_upto(n, total).len() ==> 1 <= #[trigger] reports_upto(n, total)[i] <= n,
        forall|i: int, j: int|
            0 <= i < j < reports_upto(n, total).len() ==> #[trigger] reports_upto(n, total)[i]
                < #[trigger] reports_upto(n, total)[j],
    decreases n,
{
    if n > 0 {
        lemma_reports_increasing((n - 1) as nat, total);
        let prev = reports_upto((n - 1) as nat, total);
        let cur = reports_upto(n, total);
        if reports_at(n, total) {
            assert(cur == prev.push(n));
            assert forall|i: int| 0 <= i < prev.len() implies cur[i] == prev[i] && prev[i] < n by {
                assert(1 <= prev[i] <= n - 1);
            }
            assert forall|i: int, j: int| 0 <= i < j < cur.len() implies #[trigger] cur[i]
                < #[trigger] cur[j] by {
                if j < prev.len() {
                    assert(prev[i] < prev[j]);
                } else {
                    assert(cur[i] == prev[i]);
                }
            }
        } else {
            assert(cur == prev);
        }
    }
}

/// Every count at which the observer is due, up to `n`, is among the notifications.
pub proof fn lemma_reports_complete(n: nat, total: nat, k: nat)
    requires
        1 <= k <= n,
        reports_at(k, total),
    ensures
        reports_upto(n, total).contains(k),
    decreases n,
{
    if k < n {
        lemma_reports_complete((n - 1) as nat, total, k);
        let s = reports_upto((n - 1) as nat, total);
        let idx = choose|i: int| 0 <= i < s.len() && s[i] == k;
        if reports_at(n, total) {
            assert(reports_upto(n, total)[idx] == k);
        }
    } else {
        let s = reports_upto(n, total);
        assert(s[s.len() - 1] == k);
    }
}

/// Over a whole call, the counts handed to the observer never decrease and never
/// exceed the grid's size; on a grid of at least ten pixels the last one lies
/// within a tenth of the grid of its size.
pub proof fn lemma_progress_over_call(total: nat)
    ensures
        forall|i: int, j: int|
            0 <= i <= j < reports_upto(total, total).len() ==> #[trigger] reports_upto(total, total)[i]
                <= #[trigger] reports_upto(total, total)[j],
        forall|i: int|
            0 <= i < reports_upto(total, total).len() ==> #[trigger] reports_upto(total, total)[i]
                <= total,
        total >= 10 ==> {
            let s = reports_upto(total, total);
            &&& s.len() > 0
            &&& total - s[s.len() - 1] <= total / 10
        },
{
    lemma_reports_increasing(total, total);
    let s = reports_upto(total, total);
    assert forall|i: int, j: int| 0 <= i <= j < s.len() implies #[trigger] s[i] <= #[trigger] s[j] by {
        if i < j {
            assert(s[i] < s[j]);
        }
    }
    if total >= 10 {
        let step = report_step(total);
        assert(step >= 1);
        let t = total as int;
        let d = step as int;
        lemma_fundamental_div_mod(t, d);
        lemma_mod_pos_bound(t, d);
        let q = t / d;
        let m = t - t % d;
        assert(m == d * q);
        assert(q >= 1) by (nonlinear_arith)
            requires
                d * q + t % d == t,
                t % d < d,
                d <= t,
                d >= 1,
        ;
        assert(m >= d) by (nonlinear_arith)
            requires
                m == d * q,
                q >= 1,
                d >= 1,
        ;
        lemma_fundamental_div_mod_converse(m, d, q, 0);
        assert(reports_at(m as nat, total));
        lemma_reports_complete(total, total, m as nat);
        let idx = choose|i: int| 0 <= i < s.len() && s[i] == m;
        assert(s[idx] <= s[s.len() - 1]);
    }
}

} // verus!
