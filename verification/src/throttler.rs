//! A sliding-window rate limiter shared by the snapshot-repair tasks of
//! one exchange: no more than `rate` executions may start within any
//! window one second wide.
use vstd::prelude::*;

verus! {

/// How many entries of `h` lie in the closed window `[t, t + 1000]`.
pub open spec fn count_in(h: Seq<i64>, t: int) -> int
    decreases h.len(),
{
    if h.len() == 0 {
        0
    } else {
        count_in(h.drop_last(), t) + if t <= h.last() && h.last() <= t + 1000 {
            1int
        } else {
            0int
        }
    }
}

proof fn lemma_count_subsumed(h: Seq<i64>, t: int, t2: int)
    requires
        t2 <= t,
        forall|i: int| 0 <= i < h.len() ==> #[trigger] h[i] <= t2 + 1000,
    ensures
        count_in(h, t) <= count_in(h, t2),
    decreases h.len(),
{
    if h.len() > 0 {
        assert(forall|i: int| 0 <= i < h.len() - 1
            ==> #[trigger] h.drop_last()[i] == h[i]);
        lemma_count_subsumed(h.drop_last(), t, t2);
        assert(h.last() == h[h.len() - 1]);
    }
}

proof fn lemma_count_push(h: Seq<i64>, t: int, e: i64)
    ensures
        count_in(h.push(e), t) == count_in(h, t) + if t <= e && e <= t + 1000 {
            1int
        } else {
            0int
        },
{
    assert(h.push(e).drop_last() =~= h);
    assert(h.push(e).last() == e);
}

/// The rate limiter. It remembers, in `window`, the instants of the
/// grants that may still count against the budget, and in ghost
/// `hist` every grant it ever made.
pub struct Throttler {
    rate: usize,
    window: Vec<i64>,
    last_seen: i64,
    hist: Ghost<Seq<i64>>,
}

impl Throttler {
    /// The budget: how many grants any one-second window may hold.
    pub closed spec fn rate_spec(self) -> int {
        self.rate as int
    }

    /// Every instant at which this throttler granted an execution, in
    /// order.
    pub closed spec fn grants(self) -> Seq<i64> {
        self.hist@
    }

    /// The latest instant the throttler has observed.
    pub closed spec fn latest(self) -> int {
        self.last_seen as int
    }

    /// Well-formedness: the visible window is the unexpired suffix of
    /// the grant history, and no one-second window holds more than
    /// `rate` grants.
    pub closed spec fn wf(self) -> bool {
        let k = self.hist@.len() - self.window@.len();
        &&& self.rate >= 1
        &&& 0 <= self.last_seen <= i64::MAX - 1000
        &&& self.window@.len() <= self.hist@.len()
        &&& self.window@.len() <= self.rate
        &&& self.window@ == self.hist@.skip(k)
        &&& forall|i: int| 0 <= i < k ==> #[trigger] self.hist@[i] + 1000 < self.last_seen
        &&& forall|i: int| 0 <= i < self.hist@.len()
            ==> 0 <= #[trigger] self.hist@[i] <= self.last_seen
        &&& forall|i: int, j: int| 0 <= i <= j < self.hist@.len()
            ==> #[trigger] self.hist@[i] <= #[trigger] self.hist@[j]
        &&& forall|t: int| count_in(self.hist@, t) <= self.rate
    }

    /// A fresh throttler that will allow at most `rate` grants in any
    /// one-second window.
    pub fn new(rate: usize) -> (r: Throttler)
        requires
            rate >= 1,
        ensures
            r.wf(),
            r.rate_spec() == rate,
            r.grants() == Seq::<i64>::empty(),
            r.latest() == 0,
    {
        let r = Throttler {
            rate,
            window: Vec::new(),
            last_seen: 0,
            hist: Ghost(Seq::empty()),
        };
        proof {
            assert(r.hist@.skip(0) =~= r.window@);
            assert forall|t: int| count_in(r.hist@, t) <= r.rate by {
                assert(count_in(r.hist@, t) == 0);
            }
        }
        r
    }

    /// Asks for one execution at instant `now_ms` (milliseconds of a
    /// monotonic clock; an instant earlier than one already seen is
    /// treated as that one). Grants it, and records the start, iff
    /// fewer than `rate` grants are at most one second old.
    pub fn try_acquire(&mut self, now_ms: i64) -> (granted: bool)
        requires
            old(self).wf(),
            0 <= now_ms <= i64::MAX - 1000,
        ensures
            final(self).wf(),
            final(self).rate_spec() == old(self).rate_spec(),
            final(self).latest() == if now_ms > old(self).latest() {
                now_ms as int
            } else {
                old(self).latest()
            },
            granted <==> count_in(old(self).grants(), final(self).latest() - 1000)
                < old(self).rate_spec(),
            granted ==> final(self).grants()
                == old(self).grants().push(final(self).latest() as i64),
            !granted ==> final(self).grants() == old(self).grants(),
    {
        let eff: i64 = if now_ms > self.last_seen {
            now_ms
        } else {
            self.last_seen
        };
        self.last_seen = eff;
        let ghost h = self.hist@;
        let ghost rate = self.rate;
        while self.window.len() > 0 && self.window[0] + 1000 < eff
            invariant
                self.hist@ == h,
                self.rate == rate,
                self.last_seen == eff,
                0 <= eff <= i64::MAX - 1000,
                self.window@.len() <= h.len(),
                self.window@.len() <= rate,
                self.window@ == h.skip(h.len() - self.window@.len()),
                forall|i: int| 0 <= i < h.len() - self.window@.len()
                    ==> #[trigger] h[i] + 1000 < eff,
                forall|i: int| 0 <= i < h.len() ==> 0 <= #[trigger] h[i] <= eff,
                forall|i: int, j: int| 0 <= i <= j < h.len()
                    ==> #[trigger] h[i] <= #[trigger] h[j],
                forall|t: int| count_in(h, t) <= rate,
            decreases self.window.len(),
        {
            let ghost k = h.len() - self.window@.len();
            self.window.remove(0);
            proof {
                assert(self.window@ =~= h.skip(k + 1));
            }
        }
        let ghost k = h.len() - self.window@.len();
        proof {
            // the grants no longer in the window are more than a second
            // old; those still in it are not, by sortedness and the
            // loop's exit condition on the oldest of them
            if self.window@.len() > 0 {
                assert(self.window@[0] == h[k]);
                assert forall|i: int| k <= i < h.len()
                    implies #[trigger] h[i] + 1000 >= eff by {
                    assert(h[k] <= h[i]);
                }
            }
            lemma_live_count(h, k, eff as int);
        }
        if self.window.len() < self.rate {
            self.window.push(eff);
            proof {
                self.hist@ = self.hist@.push(eff);
                assert(self.window@ =~= self.hist@.skip(k));
                assert forall|t: int| count_in(self.hist@, t) <= rate by {
                    lemma_count_push(h, t, eff);
                    if t <= eff && eff <= t + 1000 {
                        lemma_count_subsumed(h, t, eff - 1000);
                    }
                }
            }
            true
        } else {
            false
        }
    }

    /// The budget law: in any one-second window, at most `rate`
    /// executions were granted.
    pub proof fn lemma_budget(self, t: int)
        requires
            self.wf(),
        ensures
            count_in(self.grants(), t) <= self.rate_spec(),
    {
    }
}

/// The burst law behind a throttler of rate one: its first request is
/// granted, and a second request within one second of the first is
/// refused, because the fresh grant still counts against the second
/// request's window. Together with `try_acquire`'s contract on a
/// throttler from `new`, this pins both outcomes.
pub proof fn lemma_rate_one_burst(t1: i64, t2: i64)
    requires
        t1 <= t2 <= t1 + 1000,
    ensures
        count_in(Seq::<i64>::empty(), t1 - 1000) == 0,
        count_in(Seq::<i64>::empty().push(t1), t2 - 1000) == 1,
{
    let s = Seq::<i64>::empty().push(t1);
    assert(s.drop_last() =~= Seq::<i64>::empty());
    assert(count_in(s.drop_last(), t2 - 1000) == 0);
    assert(s.last() == t1);
    assert(t2 - 1000 <= t1 && t1 <= (t2 - 1000) + 1000);
    assert(count_in(s, t2 - 1000) == 1);
}

/// When the first `k` entries of `h` are expired at `t`, the rest are
/// unexpired and no entry exceeds `t`, the count of the window ending
/// at `t` is exactly the number of unexpired entries.
proof fn lemma_live_count(h: Seq<i64>, k: int, t: int)
    requires
        0 <= k <= h.len(),
        forall|i: int| 0 <= i < k ==> #[trigger] h[i] + 1000 < t,
        forall|i: int| k <= i < h.len() ==> #[trigger] h[i] + 1000 >= t,
        forall|i: int| 0 <= i < h.len() ==> 0 <= #[trigger] h[i] <= t,
    ensures
        count_in(h, t - 1000) == h.len() - k,
    decreases h.len(),
{
    if h.len() > 0 {
        assert(forall|i: int| 0 <= i < h.len() - 1
            ==> #[trigger] h.drop_last()[i] == h[i]);
        if k == h.len() {
            lemma_live_count(h.drop_last(), k - 1, t);
        } else {
            lemma_live_count(h.drop_last(), k, t);
        }
        assert(h.last() == h[h.len() - 1]);
    }
}

} // verus!
