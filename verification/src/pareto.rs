//! Trackers for terminal outcomes: the Pareto frontier of statistics and
//! the single best outcome by score.
//!
//! The frontier tracker keeps routes whose final statistics are mutually
//! nondominated: inserting rejects a dominated candidate, and an accepted
//! candidate evicts exactly the entries it dominates.  So after any
//! sequence of insertions no two retained entries dominate one another,
//! and every discarded entry was dominated by a retained one when it was
//! discarded — the rejected candidate by some survivor, the evicted entry
//! by the accepted candidate.

use crate::route::Route;
use crate::stat::{lemma_dominance_transitive, PlayerScore, PlayerStat};
use vstd::prelude::*;

verus! {

broadcast use vstd::seq_lib::group_seq_properties;

/// The mutually nondominated set of terminal outcomes, each with the
/// route that produced it.
#[derive(Debug)]
pub struct OptimalStatSet {
    /// The retained routes.
    pub traces: Vec<Route>,
}

impl OptimalStatSet {
    /// No retained entry dominates another.
    pub open spec fn wf(self) -> bool {
        forall|i: int, j: int|
            0 <= i < self.traces@.len() && 0 <= j < self.traces@.len() && i != j ==> !(
            #[trigger] self.traces@[i]).stat.spec_ge(#[trigger] self.traces@[j].stat)
    }

    /// Whether no retained entry dominates the candidate statistic.
    pub open spec fn spec_addable(self, stat: PlayerStat) -> bool {
        forall|k: int|
            0 <= k < self.traces@.len() ==> !(#[trigger] self.traces@[k]).stat.spec_ge(stat)
    }

    /// An empty frontier.
    pub fn new() -> (r: Self)
        ensures
            r.traces@.len() == 0,
            r.wf(),
    {
        OptimalStatSet { traces: Vec::new() }
    }

    /// Decide whether the candidate statistic would be accepted.
    pub fn addable(&self, stat: &PlayerStat) -> (r: bool)
        ensures
            r == self.spec_addable(*stat),
    {
        let n = self.traces.len();
        let mut i: usize = 0;
        while i < n
            invariant
                n == self.traces@.len(),
                i <= n,
                forall|k: int| 0 <= k < i as int ==> !(#[trigger] self.traces@[k]).stat.spec_ge(*stat),
            decreases n - i,
        {
            if self.traces[i].stat.ge(stat) {
                return false;
            }
            i = i + 1;
        }
        true
    }

    /// Insert a terminal outcome.  A candidate dominated by a retained
    /// entry is rejected (unless forced, which callers may only do after
    /// checking); an accepted candidate evicts exactly the entries its
    /// statistic dominates.
    pub fn add(&mut self, trace: Route, force: bool) -> (r: bool)
        requires
            old(self).wf(),
            force ==> old(self).spec_addable(trace.stat),
        ensures
            final(self).wf(),
            r == (force || old(self).spec_addable(trace.stat)),
            !r ==> *final(self) == *old(self),
            r ==> final(self).traces@.len() >= 1 && final(self).traces@[final(self).traces@.len()
                - 1] == trace,
            r ==> forall|k: int|
                0 <= k < final(self).traces@.len() - 1 ==> old(self).traces@.contains(
                    #[trigger] final(self).traces@[k],
                ) && !trace.stat.spec_ge(final(self).traces@[k].stat),
            r ==> forall|j: int|
                0 <= j < old(self).traces@.len() ==> (trace.stat.spec_ge(
                    (#[trigger] old(self).traces@[j]).stat,
                ) || final(self).traces@.contains(old(self).traces@[j])),
    {
        let accept = if force {
            true
        } else {
            self.addable(&trace.stat)
        };
        if !accept {
            return false;
        }
        let ghost orig = self.traces@;
        let new_stat = trace.stat;
        let mut i: usize = 0;
        let mut k_now: Ghost<int> = Ghost(0);
        while i < self.traces.len()
            invariant
                i <= self.traces@.len(),
                0 <= k_now@ <= orig.len(),
                new_stat == trace.stat,
                orig.len() - k_now@ == self.traces@.len() - i as int,
                forall|m: int|
                    i as int <= m < self.traces@.len() ==> #[trigger] self.traces@[m] == orig[m
                        - i as int + k_now@],
                forall|m: int|
                    0 <= m < i as int ==> !new_stat.spec_ge(
                        (#[trigger] self.traces@[m]).stat,
                    ) && orig.contains(self.traces@[m]),
                forall|m: int|
                    0 <= m < self.traces@.len() ==> !(#[trigger] self.traces@[m]).stat.spec_ge(
                        new_stat,
                    ),
                forall|a: int, b: int|
                    0 <= a < self.traces@.len() && 0 <= b < self.traces@.len() && a != b ==> !(
                    #[trigger] self.traces@[a]).stat.spec_ge(#[trigger] self.traces@[b].stat),
                forall|j: int|
                    0 <= j < k_now@ ==> (new_stat.spec_ge((#[trigger] orig[j]).stat) || exists|m: int|
                        0 <= m < i as int && self.traces@[m] == orig[j]),
            decreases self.traces@.len() - i,
        {
            proof {
                assert(self.traces@[i as int] == orig[k_now@]);
            }
            if new_stat.ge(&self.traces[i].stat) {
                let ghost pre = self.traces@;
                self.traces.remove(i);
                proof {
                    pre.remove_ensures(i as int);
                    assert forall|j: int|
                        0 <= j < k_now@ + 1 implies (new_stat.spec_ge((#[trigger] orig[j]).stat)
                        || exists|m: int| 0 <= m < i as int && self.traces@[m] == orig[j]) by {
                        if j < k_now@ && !new_stat.spec_ge(orig[j].stat) {
                            let m = choose|m: int| 0 <= m < i as int && pre[m] == orig[j];
                            assert(self.traces@[m] == pre[m]);
                        }
                    }
                }
                k_now = Ghost(k_now@ + 1);
            } else {
                proof {
                    assert forall|j: int|
                        0 <= j < k_now@ + 1 implies (new_stat.spec_ge((#[trigger] orig[j]).stat)
                        || exists|m: int| 0 <= m < i as int + 1 && self.traces@[m] == orig[j]) by {
                        if j == k_now@ {
                            assert(self.traces@[i as int] == orig[j]);
                        } else if !new_stat.spec_ge(orig[j].stat) {
                            let m = choose|m: int| 0 <= m < i as int && self.traces@[m] == orig[j];
                            assert(0 <= m < i as int + 1 && self.traces@[m] == orig[j]);
                        }
                    }
                    assert(orig.contains(self.traces@[i as int])) by {
                        assert(orig[k_now@] == self.traces@[i as int]);
                    }
                }
                k_now = Ghost(k_now@ + 1);
                i = i + 1;
            }
        }
        let ghost kept = self.traces@;
        self.traces.push(trace);
        proof {
            assert(k_now@ == orig.len());
            assert(self.traces@[self.traces@.len() - 1] == trace);
            assert forall|j: int|
                0 <= j < orig.len() implies (new_stat.spec_ge((#[trigger] orig[j]).stat)
                || self.traces@.contains(orig[j])) by {
                if !new_stat.spec_ge(orig[j].stat) {
                    let m = choose|m: int| 0 <= m < kept.len() && kept[m] == orig[j];
                    assert(self.traces@[m] == orig[j]);
                }
            }
            assert forall|k: int|
                0 <= k < self.traces@.len() - 1 implies old(self).traces@.contains(
                #[trigger] self.traces@[k]) && !trace.stat.spec_ge(self.traces@[k].stat) by {
                assert(self.traces@[k] == kept[k]);
            }
        }
        true
    }

    /// The frontier law: a well-formed tracker retains no two entries of
    /// which one dominates the other.
    pub proof fn lemma_mutually_nondominated(self, i: int, j: int)
        requires
            self.wf(),
            0 <= i < self.traces@.len(),
            0 <= j < self.traces@.len(),
            i != j,
        ensures
            !self.traces@[i].stat.spec_ge(self.traces@[j].stat),
    {
    }

    /// Merge another frontier into this one: afterwards every entry that
    /// either side held is retained or dominated by a retained entry, and
    /// nothing is retained that neither side held.
    pub fn add_all(&mut self, other: Self)
        requires
            old(self).wf(),
        ensures
            final(self).wf(),
            forall|x: Route|
                #![trigger old(self).traces@.contains(x)]
                #![trigger other.traces@.contains(x)]
                (old(self).traces@.contains(x) || other.traces@.contains(x)) ==> final(self).traces@.contains(x) || (exists|j: int|
                    0 <= j < final(self).traces@.len() && (#[trigger] final(self).traces@[j]).stat.spec_ge(x.stat)),
            forall|j: int|
                0 <= j < final(self).traces@.len() ==> old(self).traces@.contains(
                    #[trigger] final(self).traces@[j],
                ) || other.traces@.contains(final(self).traces@[j]),
    {
        let ghost orig_other = other.traces@;
        let mut rest = other.traces;
        let mut done: Ghost<int> = Ghost(0);
        proof {
            assert(rest@ =~= orig_other.skip(0));
        }
        while rest.len() > 0
            invariant
                self.wf(),
                0 <= done@ <= orig_other.len(),
                rest@ == orig_other.skip(done@),
                forall|x: Route|
                    #![trigger old(self).traces@.contains(x)]
                    #![trigger orig_other.take(done@).contains(x)]
                    (old(self).traces@.contains(x) || orig_other.take(done@).contains(x)) ==> self.traces@.contains(
                        x,
                    ) || (exists|j: int|
                        0 <= j < self.traces@.len() && (#[trigger] self.traces@[j]).stat.spec_ge(
                            x.stat,
                        )),
                forall|j: int|
                    0 <= j < self.traces@.len() ==> old(self).traces@.contains(
                        #[trigger] self.traces@[j],
                    ) || orig_other.contains(self.traces@[j]),
            decreases rest@.len(),
        {
            let ghost pre_rest = rest@;
            let t = rest.remove(0);
            proof {
                assert(t == orig_other.skip(done@)[0]);
                assert(t == orig_other[done@]);
                assert(rest@ =~= orig_other.skip(done@ + 1));
            }
            let ghost before = self.traces@;
            let accepted = self.add(t, false);
            proof {
                assert forall|x: Route|
                    #![trigger old(self).traces@.contains(x)]
                    #![trigger orig_other.take(done@ + 1).contains(x)]
                    (old(self).traces@.contains(x) || orig_other.take(done@ + 1).contains(
                        x,
                    )) implies self.traces@.contains(x) || (exists|j: int|
                    0 <= j < self.traces@.len() && (#[trigger] self.traces@[j]).stat.spec_ge(
                        x.stat,
                    )) by {
                    if !accepted {
                        if x == t {
                            let j = choose|j: int|
                                0 <= j < before.len() && (#[trigger] before[j]).stat.spec_ge(
                                    t.stat,
                                );
                            assert(self.traces@[j].stat.spec_ge(x.stat));
                        } else {
                            assert(orig_other.take(done@ + 1).contains(x) && x != t
                                ==> orig_other.take(done@).contains(x)) by {
                                if orig_other.take(done@ + 1).contains(x) && x != t {
                                    let i = choose|i: int|
                                        0 <= i < done@ + 1 && (#[trigger] orig_other.take(
                                            done@ + 1,
                                        )[i]) == x;
                                    assert(orig_other.take(done@)[i] == x);
                                }
                            }
                        }
                    } else {
                        if x == t {
                            assert(self.traces@[self.traces@.len() - 1] == t);
                        } else {
                            let covered = old(self).traces@.contains(x) || orig_other.take(
                                done@,
                            ).contains(x);
                            if orig_other.take(done@ + 1).contains(x) && x != t && !covered {
                                let i = choose|i: int|
                                    0 <= i < done@ + 1 && (#[trigger] orig_other.take(
                                        done@ + 1,
                                    )[i]) == x;
                                assert(orig_other.take(done@)[i] == x);
                            }
                            if before.contains(x) {
                                if !self.traces@.contains(x) {
                                    let i = choose|i: int|
                                        0 <= i < before.len() && before[i] == x;
                                    assert(t.stat.spec_ge(x.stat));
                                    assert(self.traces@[self.traces@.len() - 1] == t);
                                }
                            } else if exists|j: int|
                                0 <= j < before.len() && (#[trigger] before[j]).stat.spec_ge(
                                    x.stat,
                                ) {
                                let j = choose|j: int|
                                    0 <= j < before.len() && (#[trigger] before[j]).stat.spec_ge(
                                        x.stat,
                                    );
                                let e = before[j];
                                assert(before.contains(e));
                                if self.traces@.contains(e) {
                                    let m = choose|m: int|
                                        0 <= m < self.traces@.len() && self.traces@[m] == e;
                                    assert(self.traces@[m].stat.spec_ge(x.stat));
                                } else {
                                    assert(t.stat.spec_ge(e.stat));
                                    lemma_dominance_transitive(t.stat, e.stat, x.stat);
                                    assert(self.traces@[self.traces@.len() - 1] == t);
                                }
                            }
                        }
                    }
                }
                assert forall|j: int|
                    0 <= j < self.traces@.len() implies old(self).traces@.contains(
                    #[trigger] self.traces@[j],
                ) || orig_other.contains(self.traces@[j]) by {
                    if accepted {
                        if j < self.traces@.len() - 1 {
                            assert(before.contains(self.traces@[j]));
                            let m = choose|m: int|
                                0 <= m < before.len() && before[m] == self.traces@[j];
                        } else {
                            assert(self.traces@[j] == t);
                            assert(orig_other.contains(t)) by {
                                assert(orig_other[done@] == t);
                            }
                        }
                    }
                }
            }
            done = Ghost(done@ + 1);
        }
        proof {
            assert(orig_other.take(orig_other.len() as int) =~= orig_other);
        }
    }
}

/// The single best terminal outcome by score.
#[derive(Debug)]
pub struct OptimalScore {
    /// The best route seen so far.
    pub trace: Route,
    /// Its score; zero before any outcome was accepted.
    pub score: PlayerScore,
}

impl OptimalScore {
    /// An empty tracker holding the zero score.
    pub fn new() -> (r: Self)
        ensures
            r.score.score == 0,
            r.trace.trace@.len() == 0,
    {
        OptimalScore { trace: Route::new(), score: PlayerScore::new() }
    }

    /// Whether the candidate score beats the best one seen.
    pub fn addable(&self, score: &PlayerScore) -> (r: bool)
        ensures
            r == (score.score > self.score.score),
    {
        !self.score.ge(score)
    }

    /// Accept the candidate route if its score beats the best one seen.
    pub fn add(&mut self, trace: Route, force: bool) -> (r: bool)
        requires
            trace.stat.wf(),
        ensures
            r == (force || trace.stat.spec_score() > old(self).score.score as int),
            r ==> final(self).trace == trace && final(self).score.score as int
                == trace.stat.spec_score(),
            !r ==> *final(self) == *old(self),
    {
        let score = trace.stat.score();
        if force || self.addable(&score) {
            self.trace = trace;
            self.score = score;
            true
        } else {
            false
        }
    }

    /// Take the better of this tracker and another.
    pub fn add_all(&mut self, other: Self) -> (r: bool)
        ensures
            r == (other.score.score > old(self).score.score),
            r ==> final(self).trace == other.trace && final(self).score == other.score,
            !r ==> *final(self) == *old(self),
    {
        if self.score.ge(&other.score) {
            false
        } else {
            self.trace = other.trace;
            self.score = other.score;
            true
        }
    }

    /// Forget the best outcome, restoring the zero score.
    pub fn clear(&mut self)
        ensures
            final(self).score.score == 0,
            final(self).trace.trace@.len() == 0,
    {
        self.trace = Route::new();
        self.score = PlayerScore::new();
    }
}

} // verus!
