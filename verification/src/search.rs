//! The solver: frontier-driven exploration of every reachable visited set.
//!
//! The search keeps one best-known state per visited set in a store keyed
//! by the packed visited bits, a first-in-first-out frontier of keys
//! awaiting expansion, and a reference count per key equal to the number
//! of live states that point at it as their predecessor — the
//! garbage-collection invariant, written down in [`Search::inv`] and
//! preserved by every step.  Expanding a state classifies its eligible
//! neighbors: a priority or free transition preempts everything else;
//! otherwise every eligible neighbor is taken, in ascending location
//! order.  Terminal outcomes feed the Pareto tracker and the best-score
//! tracker; abandoned keys are reclaimed by walking predecessor chains.

use crate::gc::{
    children, entry_ok, lemma_children_insert_fresh, lemma_children_le_64, lemma_children_remove,
    lemma_children_update, lemma_key_from_pred,
};
use crate::level::{Level, LOCATION_NONE};
use crate::pareto::{OptimalScore, OptimalStatSet};
use crate::room::{ROOM_INTERMEDIATE, ROOM_ONLY_WHEN_FREE, ROOM_PRIORITY};
use crate::arith::sat_add_spec;
use crate::route::Route;
use crate::stat::{PlayerCombat, PlayerScore, PlayerStat, ProbeStat};
use crate::state::EssPlayer;
use std::collections::HashMap;
use std::collections::VecDeque;
use vstd::prelude::*;

verus! {

broadcast use vstd::std_specs::hash::group_hash_axioms, vstd::seq_lib::group_seq_properties;

/// Which results the surrounding program wants computed and shown.
#[derive(Clone, Copy, Debug, PartialEq, Eq, Structural)]
pub struct SearchConfig {
    /// Report each new best score as it is found.
    pub print_new_highscore: bool,
    /// Maintain the Pareto frontier of terminal statistics.
    pub calculate_optimal_player_by_stat: bool,
    /// Show the best outcome of each run.
    pub print_local_optimal_player_by_score: bool,
    /// Show the Pareto frontier of each run.
    pub print_local_optimal_player_by_stat: bool,
    /// Show the best outcome over all runs.
    pub print_global_optimal_player_by_score: bool,
    /// Show the Pareto frontier over all runs.
    pub print_global_optimal_player_by_stat: bool,
}

impl SearchConfig {
    /// The default choices: report only the best outcome over all runs.
    pub fn new() -> (r: Self)
        ensures
            r == (SearchConfig {
                print_new_highscore: false,
                calculate_optimal_player_by_stat: false,
                print_local_optimal_player_by_score: false,
                print_local_optimal_player_by_stat: false,
                print_global_optimal_player_by_score: true,
                print_global_optimal_player_by_stat: false,
            }),
    {
        SearchConfig {
            print_new_highscore: false,
            calculate_optimal_player_by_stat: false,
            print_local_optimal_player_by_score: false,
            print_local_optimal_player_by_stat: false,
            print_global_optimal_player_by_score: true,
            print_global_optimal_player_by_stat: false,
        }
    }
}

/// How many states the search has created and consumed.
#[derive(Clone, Copy, Debug, PartialEq, Eq, Structural)]
pub struct SearchProgress {
    /// States inserted into the store since the search began.
    pub total_search_count: usize,
    /// Frontier entries expanded so far.
    pub current_search_count: usize,
}

impl SearchProgress {
    /// Fresh counters.
    pub fn new() -> (r: Self)
        ensures
            r.total_search_count == 0,
            r.current_search_count == 0,
    {
        SearchProgress { total_search_count: 0, current_search_count: 0 }
    }
}

/// An eligible neighbor kept for the branching step.
pub struct ExtendedProbeStat {
    /// The neighbor's identifier.
    pub location: u8,
    /// Its probe outcome.
    pub probe: ProbeStat,
}

/// What a finished search hands back: the best route and the Pareto
/// frontier of terminal outcomes.
#[derive(Debug)]
pub struct Solution {
    /// The route with the highest score.
    pub optimal_route: Route,
    /// Its score.
    pub score: PlayerScore,
    /// The mutually nondominated terminal routes, when they were tracked.
    pub local_optimal_routes: Vec<Route>,
}

/// The store key produced by entering `location` from `player`: the
/// visited set with the location's bit set.
pub open spec fn arrival_key(player: EssPlayer, location: u8) -> u64 {
    player.visited.bits | (1u64 << (location as u64))
}

/// The intermediate restriction: when the location visited last is
/// flagged intermediate, only its direct graph successors may be entered
/// this step.
pub open spec fn spec_step_allowed(level: Level, player: EssPlayer, id: u8) -> bool {
    ||| player.last_visit == LOCATION_NONE
    ||| (level.vertices@[player.last_visit as int].room_type & ROOM_INTERMEDIATE) == 0
    ||| level.neighbors@[player.last_visit as int].has(id as u64)
}

/// A transition is eligible when the location is reachable, the
/// intermediate restriction allows it, and the player's statistic
/// dominates the location's probed requirement — checked before any other
/// policy logic.
pub open spec fn spec_eligible(level: Level, player: EssPlayer, id: u8) -> bool {
    &&& player.neighbors.has(id as u64)
    &&& spec_step_allowed(level, player, id)
    &&& player.stat.spec_ge(level.vertices@[id as int].spec_probe(player.stat.combat).req)
}

/// A transition is free when its target is not the exit, is not flagged
/// intermediate, and its probe causes no damage and loses nothing.
pub open spec fn spec_free(level: Level, player: EssPlayer, id: u8) -> bool {
    &&& id != level.exit
    &&& (level.vertices@[id as int].room_type & ROOM_INTERMEDIATE) == 0
    &&& level.vertices@[id as int].spec_probe(player.stat.combat).damage == 0
    &&& level.vertices@[id as int].spec_probe(player.stat.combat).diff.spec_is_free()
}

/// The location preempts all other choices when eligible.
pub open spec fn spec_priority(level: Level, id: u8) -> bool {
    (level.vertices@[id as int].room_type & ROOM_PRIORITY) != 0
}

/// A candidate of the branch-selection policy: an eligible transition
/// that is not skipped by the only-when-free rule (a location so flagged
/// is skipped entirely unless entering it is free).
pub open spec fn spec_candidate(level: Level, player: EssPlayer, id: u8) -> bool {
    &&& id < level.next_id
    &&& spec_eligible(level, player, id)
    &&& (spec_free(level, player, id) || (level.vertices@[id as int].room_type
        & ROOM_ONLY_WHEN_FREE) == 0)
}

/// The locations entered along the backpointer chain that ends at key `k`,
/// in traversal order.
pub open spec fn chain_trace(store: Map<u64, EssPlayer>, k: u64) -> Seq<u8>
    decreases k,
    via chain_trace_decreases
{
    if k == 0 || !store.contains_key(k) {
        Seq::empty()
    } else if store[k].visited.bits == k && store[k].last_visit < 64 && store[k].visited.has(
        store[k].last_visit as u64,
    ) {
        chain_trace(store, store[k].pred_bits()).push(store[k].last_visit)
    } else {
        Seq::empty()
    }
}

#[via_fn]
proof fn chain_trace_decreases(store: Map<u64, EssPlayer>, k: u64) {
    if !(k == 0 || !store.contains_key(k)) {
        let p = store[k];
        if p.visited.bits == k && p.last_visit < 64 && p.visited.has(p.last_visit as u64) {
            lemma_key_from_pred(k, p.last_visit as u64);
        }
    }
}

/// Whether `x` lies on the backpointer chain that starts at key `k`:
/// either it is `k` itself or it lies on the chain of `k`'s predecessor.
pub open spec fn on_chain(store: Map<u64, EssPlayer>, k: u64, x: u64) -> bool
    decreases k,
    via on_chain_decreases
{
    if k == 0 || !store.contains_key(k) {
        false
    } else if x == k {
        true
    } else if store[k].visited.bits == k && store[k].last_visit < 64 && store[k].visited.has(
        store[k].last_visit as u64,
    ) {
        on_chain(store, store[k].pred_bits(), x)
    } else {
        false
    }
}

#[via_fn]
proof fn on_chain_decreases(store: Map<u64, EssPlayer>, k: u64, x: u64) {
    if !(k == 0 || !store.contains_key(k)) && x != k {
        let p = store[k];
        if p.visited.bits == k && p.last_visit < 64 && p.visited.has(p.last_visit as u64) {
            lemma_key_from_pred(k, p.last_visit as u64);
        }
    }
}

/// A chain member's predecessor is itself on the chain, unless it is the
/// initial key.
proof fn lemma_on_chain_step(store: Map<u64, EssPlayer>, k: u64, x: u64)
    requires
        on_chain(store, k, x),
        store.contains_key(x),
        x != 0,
        store[x].visited.bits == x,
        store[x].last_visit < 64,
        store[x].visited.has(store[x].last_visit as u64),
        store[x].pred_bits() != 0,
        store.contains_key(store[x].pred_bits()),
    ensures
        on_chain(store, k, store[x].pred_bits()),
    decreases k,
{
    let p = store[k];
    lemma_key_from_pred(k, p.last_visit as u64);
    if x == k {
        let pr = store[x].pred_bits();
        assert(pr < k);
        assert(on_chain(store, pr, pr));
    } else {
        lemma_on_chain_step(store, p.pred_bits(), x);
    }
}

/// Membership of a backpointer chain depends only on the entries at keys
/// up to its head.
proof fn lemma_on_chain_frame(s1: Map<u64, EssPlayer>, s2: Map<u64, EssPlayer>, k: u64, x: u64)
    requires
        forall|y: u64|
            y <= k ==> (#[trigger] s1.contains_key(y) == s2.contains_key(y)) && (s1.contains_key(y)
                ==> s1[y] == s2[y]),
        forall|y: u64| #[trigger]
            s1.contains_key(y) && y != 0 ==> s1[y].visited.bits == y && s1[y].last_visit < 64
                && s1[y].visited.has(s1[y].last_visit as u64),
    ensures
        on_chain(s1, k, x) == on_chain(s2, k, x),
    decreases k,
{
    if !(k == 0 || !s1.contains_key(k)) && x != k {
        let p = s1[k];
        if p.visited.bits == k && p.last_visit < 64 && p.visited.has(p.last_visit as u64) {
            lemma_key_from_pred(k, p.last_visit as u64);
            lemma_on_chain_frame(s1, s2, p.pred_bits(), x);
        }
    }
}

/// The solver.
pub struct Search {
    /// Which results to compute and show.
    pub search_config: SearchConfig,
    /// The level being searched.
    pub level: Level,
    /// The starting state, which has visited nothing.
    pub init_player: EssPlayer,
    /// How much work the search has done.
    pub search_progress: SearchProgress,
    /// The best terminal outcome by score.
    pub local_optimal_player_by_score: OptimalScore,
    /// Every new best outcome in the order found, kept when the
    /// configuration asks for new highscores to be reported.
    pub new_highscores: Vec<Route>,
    /// The Pareto frontier of terminal outcomes.
    pub local_optimal_player_by_stat: OptimalStatSet,
    /// Memoized probe outcomes, one entry per combat statistic seen.
    pub probe_result: Vec<(PlayerCombat, Vec<ProbeStat>)>,
    /// The reference count of each expanded key.
    pub player_progress_rc: HashMap<u64, i64>,
    /// The state store: the best-known state per visited set.
    pub optimal_player: HashMap<u64, EssPlayer>,
    /// The frontier: keys awaiting expansion, first in, first out.
    pub clones: VecDeque<u64>,
}

impl Search {
    /// The probe outcomes of every location under one combat statistic.
    pub open spec fn probe_seq(level: Level, combat: PlayerCombat) -> Seq<ProbeStat> {
        Seq::new(level.next_id as nat, |i: int| level.vertices@[i].spec_probe(combat))
    }

    /// Every cache entry holds exactly the probe outcomes of its combat
    /// statistic, and those outcomes are in range.
    pub open spec fn cache_ok(self) -> bool {
        forall|c: int|
            0 <= c < self.probe_result@.len() ==> (#[trigger] self.probe_result@[c]).1@
                == Self::probe_seq(self.level, self.probe_result@[c].0) && (forall|i: int|
                0 <= i < self.probe_result@[c].1@.len() ==> (#[trigger] self.probe_result@[c].1@[i]).wf())
    }

    /// The store is consistent: the initial key is present, every state
    /// matches its key and the level, and every state's predecessor key is
    /// itself present.
    pub open spec fn store_ok(self) -> bool {
        &&& self.optimal_player@.contains_key(0u64)
        &&& forall|k: u64| #[trigger]
            self.optimal_player@.contains_key(k) ==> entry_ok(
                self.level.next_id,
                k,
                self.optimal_player@[k],
            )
        &&& forall|k: u64| #[trigger]
            self.optimal_player@.contains_key(k) && k != 0 ==> self.optimal_player@.contains_key(
                self.optimal_player@[k].pred_bits(),
            )
    }

    /// Reference counts are consistent, except possibly at key `e`: every
    /// counted key is stored, every stored and expanded key's count equals
    /// the number of live states pointing at it, and a stored key that was
    /// never expanded has no such states.
    pub open spec fn rc_ok_except(self, e: u64) -> bool {
        &&& forall|k: u64| #[trigger]
            self.player_progress_rc@.contains_key(k) ==> self.optimal_player@.contains_key(k)
        &&& forall|k: u64|
            k != 0 && k != e && #[trigger] self.player_progress_rc@.contains_key(k)
                ==> self.player_progress_rc@[k] as int == children(self.optimal_player@, k).len()
        &&& forall|k: u64|
            k != 0 && #[trigger] self.optimal_player@.contains_key(k)
                && !self.player_progress_rc@.contains_key(k) ==> children(self.optimal_player@, k)
                == Set::<u64>::empty()
    }

    /// The frontier holds stored, never-expanded keys, each at most once.
    pub open spec fn frontier_ok(self) -> bool {
        &&& forall|i: int|
            0 <= i < self.clones@.len() ==> self.optimal_player@.contains_key(
                #[trigger] self.clones@[i],
            ) && !self.player_progress_rc@.contains_key(self.clones@[i])
        &&& forall|i: int, j: int|
            0 <= i < j < self.clones@.len() ==> self.clones@[i] != self.clones@[j]
    }

    /// The whole invariant, except that the reference count at `e` may be
    /// one higher than the number of states pointing at `e`, or zero.
    pub open spec fn inv_except(self, e: u64) -> bool {
        &&& self.level.ready()
        &&& self.cache_ok()
        &&& self.store_ok()
        &&& self.rc_ok_except(e)
        &&& self.frontier_ok()
        &&& self.local_optimal_player_by_stat.wf()
    }

    /// The search invariant: the level is searchable, the cache is
    /// truthful, the store is consistent, every reference count is exact,
    /// the frontier is well formed, and the Pareto tracker is mutually
    /// nondominated.
    pub open spec fn inv(self) -> bool {
        self.inv_except(0)
    }

    /// The garbage-collection law: under the search invariant, every
    /// expanded key's reference count equals the number of live states
    /// that point at it as their predecessor, and no stored state's
    /// predecessor key is missing.  The initial key is the one exception:
    /// reclamation stops there, so its count is never consulted after its
    /// own expansion.
    pub proof fn lemma_gc_invariant(self)
        requires
            self.inv(),
        ensures
            forall|k: u64|
                k != 0 && #[trigger] self.player_progress_rc@.contains_key(k)
                    ==> self.player_progress_rc@[k] as int == children(self.optimal_player@, k).len(),
            forall|k: u64|
                k != 0 && #[trigger] self.optimal_player@.contains_key(k)
                    && !self.player_progress_rc@.contains_key(k) ==> children(
                    self.optimal_player@,
                    k,
                ).len() == 0,
            forall|k: u64| #[trigger]
                self.optimal_player@.contains_key(k) && k != 0 ==> self.optimal_player@.contains_key(
                    self.optimal_player@[k].pred_bits(),
                ),
    {
    }

    /// No leaked entries, except possibly at key `e`: every stored
    /// non-initial key either awaits expansion on the frontier or is the
    /// predecessor of at least one live state (a positive count).
    pub open spec fn live_ok(self, e: u64) -> bool {
        forall|k: u64| #[trigger]
            self.optimal_player@.contains_key(k) && k != 0 && k != e ==> ((exists|i: int|
                0 <= i < self.clones@.len() && self.clones@[i] == k) || (
            self.player_progress_rc@.contains_key(k) && self.player_progress_rc@[k] > 0))
    }

    /// A statistic is a genuine terminal outcome of the level: it arises
    /// by entering the exit from some statistic that dominates the exit
    /// room's requirement.
    pub open spec fn terminal_outcome(level: Level, stat: PlayerStat) -> bool {
        exists|p: PlayerStat| #![auto]
            p.spec_ge(level.vertices@[level.exit as int].spec_probe(p.combat).req) && stat
                == p.spec_plus(level.vertices@[level.exit as int].spec_probe(p.combat).diff)
    }

    /// Every outcome the trackers hold came from entering the exit: the
    /// recorded best (when its score is positive), every Pareto entry and
    /// every logged new best is a genuine terminal outcome whose trace
    /// ends at the exit.
    pub open spec fn outcomes_ok(self) -> bool {
        &&& (self.local_optimal_player_by_score.score.score > 0 ==> Self::terminal_outcome(
            self.level,
            self.local_optimal_player_by_score.trace.stat,
        ))
        &&& forall|t: int|
            0 <= t < self.local_optimal_player_by_stat.traces@.len() ==> Self::terminal_outcome(
                self.level,
                (#[trigger] self.local_optimal_player_by_stat.traces@[t]).stat,
            ) && self.local_optimal_player_by_stat.traces@[t].trace@.len() >= 1
                && self.local_optimal_player_by_stat.traces@[t].trace@[self.local_optimal_player_by_stat.traces@[t].trace@.len()
                - 1] == self.level.exit
        &&& forall|h: int|
            0 <= h < self.new_highscores@.len() ==> Self::terminal_outcome(
                self.level,
                (#[trigger] self.new_highscores@[h]).stat,
            ) && self.new_highscores@[h].trace@.len() >= 1
                && self.new_highscores@[h].trace@[self.new_highscores@[h].trace@.len() - 1]
                == self.level.exit
    }

    /// Every retained Pareto alternative scores at most the best score.
    pub open spec fn alternatives_below_best(self) -> bool {
        forall|t: int|
            0 <= t < self.local_optimal_player_by_stat.traces@.len() ==> (
            #[trigger] self.local_optimal_player_by_stat.traces@[t]).stat.spec_score()
                <= self.local_optimal_player_by_score.score.score as int
    }

    /// The best-score tracker holds a real terminal outcome whenever its
    /// score is positive.
    pub open spec fn best_ok(self) -> bool {
        self.local_optimal_player_by_score.score.score > 0
            ==> self.local_optimal_player_by_score.score.score as int
            == self.local_optimal_player_by_score.trace.stat.spec_score()
            && self.local_optimal_player_by_score.trace.trace@.len() >= 1
            && self.local_optimal_player_by_score.trace.trace@[self.local_optimal_player_by_score.trace.trace@.len()
            - 1] == self.level.exit
    }

    /// A solver over the given level, starting from the given statistic.
    pub fn new(search_config: SearchConfig, level: Level, init_stat: PlayerStat) -> (r: Self)
        requires
            level.ready(),
            init_stat.wf(),
        ensures
            r.search_config == search_config,
            r.level == level,
            r.init_player.stat == init_stat,
            r.init_player.visited.bits == 0u64,
            r.init_player.neighbors.bits == 0u64,
            r.init_player.last_visit == LOCATION_NONE,
            r.init_player.stat.wf(),
    {
        Search {
            search_config,
            level,
            init_player: EssPlayer::with_stat(init_stat),
            search_progress: SearchProgress::new(),
            local_optimal_player_by_score: OptimalScore::new(),
            local_optimal_player_by_stat: OptimalStatSet::new(),
            new_highscores: Vec::new(),
            probe_result: Vec::new(),
            player_progress_rc: HashMap::new(),
            optimal_player: HashMap::new(),
            clones: VecDeque::new(),
        }
    }

    /// The memoized probe outcomes of every location under `combat`:
    /// computed once per distinct combat statistic, answered from the
    /// cache afterwards.
    fn probe(&mut self, combat: &PlayerCombat) -> (r: Vec<ProbeStat>)
        requires
            old(self).inv(),
            combat.wf(),
        ensures
            final(self).inv(),
            r@ == Self::probe_seq(final(self).level, *combat),
            forall|i: int| 0 <= i < r@.len() ==> (#[trigger] r@[i]).wf(),
            final(self).level == old(self).level,
            final(self).search_config == old(self).search_config,
            final(self).init_player == old(self).init_player,
            final(self).optimal_player@ == old(self).optimal_player@,
            final(self).player_progress_rc@ == old(self).player_progress_rc@,
            final(self).clones@ == old(self).clones@,
            final(self).local_optimal_player_by_score == old(self).local_optimal_player_by_score,
            final(self).local_optimal_player_by_stat == old(self).local_optimal_player_by_stat,
            final(self).new_highscores@ == old(self).new_highscores@,
            final(self).search_progress == old(self).search_progress,
    {
        let cache_len = self.probe_result.len();
        let mut ci: usize = 0;
        while ci < cache_len
            invariant
                cache_len == self.probe_result@.len(),
                ci <= cache_len,
                old(self).inv(),
                *self == *old(self),
            decreases cache_len - ci,
        {
            if self.probe_result[ci].0 == *combat {
                let cached = &self.probe_result[ci].1;
                let m = cached.len();
                let mut out: Vec<ProbeStat> = Vec::new();
                let mut i: usize = 0;
                while i < m
                    invariant
                        m == cached@.len(),
                        i <= m,
                        out@ == cached@.take(i as int),
                    decreases m - i,
                {
                    out.push(cached[i]);
                    proof {
                        assert(out@ =~= cached@.take(i as int + 1));
                    }
                    i = i + 1;
                }
                proof {
                    assert(out@ =~= cached@);
                }
                return out;
            }
            ci = ci + 1;
        }
        let n = self.level.next_id;
        let mut res: Vec<ProbeStat> = Vec::new();
        let mut copy: Vec<ProbeStat> = Vec::new();
        let mut i: u8 = 0;
        while i < n
            invariant
                n == self.level.next_id,
                old(self).inv(),
                *self == *old(self),
                combat.wf(),
                i <= n,
                res@.len() == i as int,
                copy@ == res@,
                forall|j: int|
                    0 <= j < i as int ==> #[trigger] res@[j] == self.level.vertices@[j].spec_probe(
                        *combat,
                    ) && res@[j].wf(),
            decreases n - i,
        {
            let p = self.level.vertex_of_id(i).probe(combat);
            res.push(p);
            copy.push(p);
            i = i + 1;
        }
        proof {
            assert(res@ =~= Self::probe_seq(self.level, *combat));
        }
        self.probe_result.push((*combat, copy));
        res
    }

    /// Release one reference to `progress` and reclaim every state on its
    /// predecessor chain that no live state points at any more.
    fn remove_player_progress(&mut self, progress: u64)
        requires
            old(self).inv_except(progress),
            old(self).live_ok(progress),
            progress != 0 ==> old(self).player_progress_rc@.contains_key(progress) && (old(self).player_progress_rc@[progress] as int == children(old(self).optimal_player@, progress).len()
                + 1 || (old(self).player_progress_rc@[progress] == 0 && children(
                old(self).optimal_player@,
                progress,
            ).len() == 0)),
        ensures
            final(self).inv(),
            final(self).live_ok(0),
            forall|x: u64|
                old(self).optimal_player@.contains_key(x) && !final(self).optimal_player@.contains_key(x) ==> #[trigger] on_chain(
                    old(self).optimal_player@,
                    progress,
                    x,
                ),
            forall|k: u64| #[trigger]
                final(self).optimal_player@.contains_key(k) ==> old(self).optimal_player@.contains_key(k)
                    && final(self).optimal_player@[k] == old(self).optimal_player@[k],
            forall|k: u64| #[trigger]
                final(self).player_progress_rc@.contains_key(k) ==> old(self).player_progress_rc@.contains_key(k),
            forall|k: u64|
                old(self).optimal_player@.contains_key(k) && k > progress ==> #[trigger]
                    final(self).optimal_player@.contains_key(k),
            old(self).player_progress_rc@.contains_key(0u64)
                ==> final(self).player_progress_rc@.contains_key(0u64),
            final(self).level == old(self).level,
            final(self).search_config == old(self).search_config,
            final(self).init_player == old(self).init_player,
            final(self).clones@ == old(self).clones@,
            final(self).probe_result@ == old(self).probe_result@,
            final(self).local_optimal_player_by_score == old(self).local_optimal_player_by_score,
            final(self).local_optimal_player_by_stat == old(self).local_optimal_player_by_stat,
            final(self).new_highscores@ == old(self).new_highscores@,
            final(self).search_progress == old(self).search_progress,
    {
        let mut cur = progress;
        while cur != 0
            invariant
                self.inv_except(cur),
                self.live_ok(cur),
                cur != 0 ==> on_chain(old(self).optimal_player@, progress, cur),
                forall|x: u64|
                    old(self).optimal_player@.contains_key(x) && !self.optimal_player@.contains_key(
                        x,
                    ) ==> #[trigger] on_chain(old(self).optimal_player@, progress, x),
                cur != 0 ==> self.player_progress_rc@.contains_key(cur) && (
                self.player_progress_rc@[cur] as int == children(
                    self.optimal_player@,
                    cur,
                ).len() + 1 || (self.player_progress_rc@[cur] == 0 && children(
                    self.optimal_player@,
                    cur,
                ).len() == 0)),
                cur <= progress,
                forall|k: u64| #[trigger]
                    self.optimal_player@.contains_key(k) ==> old(self).optimal_player@.contains_key(
                        k,
                    ) && self.optimal_player@[k] == old(self).optimal_player@[k],
                forall|k: u64| #[trigger]
                    self.player_progress_rc@.contains_key(k) ==> old(self).player_progress_rc@.contains_key(k),
                forall|k: u64|
                    old(self).optimal_player@.contains_key(k) && k > progress ==> #[trigger]
                        self.optimal_player@.contains_key(k),
                old(self).player_progress_rc@.contains_key(0u64)
                    ==> self.player_progress_rc@.contains_key(0u64),
                self.level == old(self).level,
                self.search_config == old(self).search_config,
                self.init_player == old(self).init_player,
                self.clones@ == old(self).clones@,
                self.probe_result@ == old(self).probe_result@,
                self.local_optimal_player_by_score == old(self).local_optimal_player_by_score,
                self.local_optimal_player_by_stat == old(self).local_optimal_player_by_stat,
                self.new_highscores@ == old(self).new_highscores@,
                self.search_progress == old(self).search_progress,
            decreases cur,
        {
            let ghost head = *self;
            let rcv = *self.player_progress_rc.get(&cur).unwrap();
            let new_rcv = rcv - 1;
            self.player_progress_rc.insert(cur, new_rcv);
            if new_rcv > 0 {
                proof {
                    assert(self.player_progress_rc@[cur] as int == children(
                        self.optimal_player@,
                        cur,
                    ).len());
                    assert forall|k: u64|
                        old(self).optimal_player@.contains_key(k) && k > progress implies #[trigger]
                        self.optimal_player@.contains_key(k) by {}
                }
                return;
            }
            let entry = *self.optimal_player.get(&cur).unwrap();
            let next = entry.previous_visited().bits;
            let ghost store_before = self.optimal_player@;
            self.optimal_player.remove(&cur);
            self.player_progress_rc.remove(&cur);
            proof {
                lemma_key_from_pred(cur, entry.last_visit as u64);
                lemma_children_remove(store_before, cur);
                assert(children(store_before, cur).len() == 0);
                assert(children(store_before, cur).finite()) by {
                    lemma_children_le_64(store_before, cur, self.level.next_id);
                }
                assert(children(store_before, cur) =~= Set::<u64>::empty());
                // no state pointed at the removed key, so none dangles now
                assert forall|k: u64| #[trigger]
                    self.optimal_player@.contains_key(k) && k != 0 implies self.optimal_player@.contains_key(
                    self.optimal_player@[k].pred_bits(),
                ) by {
                    assert(self.optimal_player@[k] == store_before[k]);
                    if store_before[k].pred_bits() == cur {
                        assert(children(store_before, cur).contains(k));
                    }
                }
                // the next key loses one child: its count is now stale by one
                if next != 0 {
                    assert(children(store_before, next).contains(cur));
                    lemma_children_le_64(store_before, next, self.level.next_id);
                    assert(children(self.optimal_player@, next) =~= children(
                        store_before,
                        next,
                    ).remove(cur));
                    assert(children(self.optimal_player@, next).len() == children(
                        store_before,
                        next,
                    ).len() - 1);
                }
                // counts elsewhere are untouched
                assert forall|k: u64|
                    k != 0 && k != next && #[trigger] self.player_progress_rc@.contains_key(
                        k,
                    ) implies self.player_progress_rc@[k] as int == children(
                    self.optimal_player@,
                    k,
                ).len() by {
                    assert(children(self.optimal_player@, k) =~= children(store_before, k));
                }
                assert forall|k: u64|
                    k != 0 && #[trigger] self.optimal_player@.contains_key(k)
                        && !self.player_progress_rc@.contains_key(k) implies children(
                    self.optimal_player@,
                    k,
                ) == Set::<u64>::empty() by {
                    assert(children(store_before, k) == Set::<u64>::empty());
                    assert(children(self.optimal_player@, k) =~= children(store_before, k).remove(
                        cur,
                    ));
                    assert(children(self.optimal_player@, k) =~= Set::<u64>::empty());
                }
                // the key walked to next is itself on the released chain
                if next != 0 {
                    assert(old(self).optimal_player@[cur] == entry);
                    lemma_on_chain_step(old(self).optimal_player@, progress, cur);
                }
                // every remaining key other than next stays alive
                assert forall|k: u64| #[trigger]
                    self.optimal_player@.contains_key(k) && k != 0 && k != next implies ((exists|i: int|
                    0 <= i < self.clones@.len() && self.clones@[i] == k) || (
                self.player_progress_rc@.contains_key(k) && self.player_progress_rc@[k] > 0)) by {
                    assert(k != cur);
                    assert(head.optimal_player@.contains_key(k));
                    if head.player_progress_rc@.contains_key(k) && head.player_progress_rc@[k]
                        > 0 {
                        assert(self.player_progress_rc@[k] == head.player_progress_rc@[k]);
                    } else {
                        let i = choose|i: int|
                            0 <= i < head.clones@.len() && head.clones@[i] == k;
                        assert(self.clones@[i] == k);
                    }
                }
            }
            cur = next;
        }
    }

    /// Rebuild the route that reaches `player` by walking the predecessor
    /// chain back to the initial key.
    fn reconstruct_trace(&self, player: &EssPlayer) -> (r: Route)
        requires
            self.inv(),
            player.wf(self.level.next_id),
            player.visited.bits != 0u64,
            self.optimal_player@.contains_key(player.pred_bits()),
        ensures
            r.stat == player.stat,
            r.visited == player.visited,
            r.neighbors == player.neighbors,
            r.trace@ == chain_trace(self.optimal_player@, player.pred_bits()).push(
                player.last_visit,
            ),
            r.trace@.len() >= 1,
            r.trace@[r.trace@.len() - 1] == player.last_visit,
    {
        let ghost target = chain_trace(self.optimal_player@, player.pred_bits()).push(
            player.last_visit,
        );
        let mut trace: Vec<u8> = Vec::new();
        trace.push(player.last_visit);
        proof {
            assert(target =~= chain_trace(self.optimal_player@, player.pred_bits()) + trace@);
        }
        let previous = player.previous_visited();
        let mut progress: u64 = previous.bits;
        while progress != 0
            invariant
                self.inv(),
                progress != 0 ==> self.optimal_player@.contains_key(progress),
                target == chain_trace(self.optimal_player@, progress) + trace@,
                trace@.len() >= 1,
                trace@[trace@.len() - 1] == player.last_visit,
            decreases progress,
        {
            let entry = *self.optimal_player.get(&progress).unwrap();
            let ghost pre = trace@;
            trace.insert(0, entry.last_visit);
            proof {
                assert(trace@ =~= seq![entry.last_visit] + pre);
                assert(chain_trace(self.optimal_player@, progress) == chain_trace(
                    self.optimal_player@,
                    entry.pred_bits(),
                ).push(entry.last_visit));
                assert(chain_trace(self.optimal_player@, entry.pred_bits()).push(entry.last_visit)
                    + pre =~= chain_trace(self.optimal_player@, entry.pred_bits()) + (seq![
                    entry.last_visit,
                ] + pre));
                lemma_key_from_pred(progress, entry.last_visit as u64);
                if entry.pred_bits() != 0 {
                    assert(self.optimal_player@.contains_key(entry.pred_bits()));
                }
            }
            progress = entry.previous_visited().bits;
        }
        proof {
            assert(chain_trace(self.optimal_player@, 0) + trace@ =~= trace@);
        }
        Route {
            stat: player.stat,
            trace,
            neighbors: player.neighbors,
            visited: player.visited,
            previous_visited: previous,
        }
    }

    /// Record a state that has entered the exit: test it against the
    /// Pareto tracker and the best-score tracker, rebuilding its route
    /// when either accepts it.
    fn add_exit_player(&mut self, player: &EssPlayer)
        requires
            old(self).inv(),
            old(self).alternatives_below_best(),
            old(self).outcomes_ok(),
            Self::terminal_outcome(old(self).level, player.stat),
            player.last_visit == old(self).level.exit,
            player.wf(old(self).level.next_id),
            player.visited.bits != 0u64,
            old(self).optimal_player@.contains_key(player.pred_bits()),
        ensures
            final(self).inv(),
            final(self).alternatives_below_best(),
            final(self).outcomes_ok(),
            final(self).level == old(self).level,
            final(self).search_config == old(self).search_config,
            final(self).init_player == old(self).init_player,
            final(self).optimal_player@ == old(self).optimal_player@,
            final(self).player_progress_rc@ == old(self).player_progress_rc@,
            final(self).clones@ == old(self).clones@,
            final(self).probe_result@ == old(self).probe_result@,
            final(self).search_progress == old(self).search_progress,
            old(self).search_config.calculate_optimal_player_by_stat && !old(self).local_optimal_player_by_stat.spec_addable(player.stat) ==> final(self).local_optimal_player_by_stat == old(self).local_optimal_player_by_stat && final(self).local_optimal_player_by_score == old(self).local_optimal_player_by_score,
            old(self).search_config.calculate_optimal_player_by_stat && old(self).local_optimal_player_by_stat.spec_addable(player.stat) ==> final(self).local_optimal_player_by_stat.traces@.len() >= 1 && final(self).local_optimal_player_by_stat.traces@[final(self).local_optimal_player_by_stat.traces@.len() - 1].stat == player.stat,
            !old(self).search_config.calculate_optimal_player_by_stat ==> final(self).local_optimal_player_by_stat == old(self).local_optimal_player_by_stat,
            (!old(self).search_config.calculate_optimal_player_by_stat || old(self).local_optimal_player_by_stat.spec_addable(player.stat)) ==> (if player.stat.spec_score()
                > old(self).local_optimal_player_by_score.score.score as int {
                final(self).local_optimal_player_by_score.score.score as int
                    == player.stat.spec_score()
                    && final(self).local_optimal_player_by_score.trace.stat == player.stat
                    && final(self).local_optimal_player_by_score.trace.trace@.len() >= 1
                    && final(self).local_optimal_player_by_score.trace.trace@[final(self).local_optimal_player_by_score.trace.trace@.len() - 1] == player.last_visit
            } else {
                final(self).local_optimal_player_by_score == old(self).local_optimal_player_by_score
            }),
            final(self).local_optimal_player_by_score.score.score >= old(self).local_optimal_player_by_score.score.score,
            (if (!old(self).search_config.calculate_optimal_player_by_stat || old(self).local_optimal_player_by_stat.spec_addable(player.stat))
                && old(self).search_config.print_new_highscore && player.stat.spec_score() > old(self).local_optimal_player_by_score.score.score as int {
                final(self).new_highscores@.len() == old(self).new_highscores@.len() + 1
                    && final(self).new_highscores@[final(self).new_highscores@.len() - 1].stat
                    == player.stat && final(self).new_highscores@[final(self).new_highscores@.len() - 1].trace@.len() >= 1 && final(self).new_highscores@[final(self).new_highscores@.len() - 1].trace@[final(self).new_highscores@[final(self).new_highscores@.len() - 1].trace@.len() - 1] == player.last_visit && (forall|i: int|
                    0 <= i < old(self).new_highscores@.len() ==> #[trigger] final(self).new_highscores@[i] == old(self).new_highscores@[i])
            } else {
                final(self).new_highscores@ == old(self).new_highscores@
            }),
    {
        let ghost stat0 = self.local_optimal_player_by_stat;
        let ghost score0 = self.local_optimal_player_by_score;
        if self.search_config.calculate_optimal_player_by_stat {
            if self.local_optimal_player_by_stat.addable(&player.stat) {
                let player_trace = self.reconstruct_trace(player);
                self.local_optimal_player_by_stat.add(player_trace, true);
            } else {
                return ;
            }
        }
        let ghost stat1 = self.local_optimal_player_by_stat;
        let sc = player.score();
        if self.local_optimal_player_by_score.addable(&sc) {
            let player_trace = self.reconstruct_trace(player);
            self.local_optimal_player_by_score.add(player_trace, false);
            if self.search_config.print_new_highscore {
                let report = self.reconstruct_trace(player);
                self.new_highscores.push(report);
            }
        }
        proof {
            assert forall|t: int|
                0 <= t < self.local_optimal_player_by_stat.traces@.len() implies (
            #[trigger] self.local_optimal_player_by_stat.traces@[t]).stat.spec_score()
                <= self.local_optimal_player_by_score.score.score as int by {
                let tr = self.local_optimal_player_by_stat.traces@[t];
                if self.search_config.calculate_optimal_player_by_stat {
                    if t < stat1.traces@.len() - 1 {
                        assert(stat0.traces@.contains(tr));
                        let j = choose|j: int|
                            0 <= j < stat0.traces@.len() && stat0.traces@[j] == tr;
                        assert(tr.stat.spec_score() <= score0.score.score as int);
                    } else {
                        assert(tr.stat == player.stat);
                    }
                } else {
                    assert(tr == stat0.traces@[t]);
                    assert(tr.stat.spec_score() <= score0.score.score as int);
                }
            }
            assert forall|t: int|
                0 <= t < self.local_optimal_player_by_stat.traces@.len() implies Self::terminal_outcome(
                self.level,
                (#[trigger] self.local_optimal_player_by_stat.traces@[t]).stat,
            ) && self.local_optimal_player_by_stat.traces@[t].trace@.len() >= 1
                && self.local_optimal_player_by_stat.traces@[t].trace@[self.local_optimal_player_by_stat.traces@[t].trace@.len()
                - 1] == self.level.exit by {
                let tr = self.local_optimal_player_by_stat.traces@[t];
                if self.search_config.calculate_optimal_player_by_stat {
                    if t < stat1.traces@.len() - 1 {
                        assert(stat0.traces@.contains(tr));
                        let j = choose|j: int|
                            0 <= j < stat0.traces@.len() && stat0.traces@[j] == tr;
                        assert(tr == stat0.traces@[j]);
                    }
                } else {
                    assert(tr == stat0.traces@[t]);
                }
            }
        }
    }

    /// Take the transition from `player` into `location`.  Entering the
    /// exit records a terminal outcome.  Otherwise the arrival is
    /// deduplicated against the store by its visited set: a first arrival
    /// is stored and queued; a repeat arrival survives only if it strictly
    /// improves the objective, in which case the stored state is rewritten
    /// in place and the superseded predecessor chain is released.
    #[verifier::rlimit(80)]
    fn expand(&mut self, player: &EssPlayer, location: u8, probe: &ProbeStat)
        requires
            old(self).inv(),
            old(self).alternatives_below_best(),
            old(self).live_ok(player.visited.bits),
            old(self).outcomes_ok(),
            player.wf(old(self).level.next_id),
            old(self).optimal_player@.contains_key(player.visited.bits),
            old(self).player_progress_rc@.contains_key(player.visited.bits),
            location < old(self).level.next_id,
            !player.visited.has(location as u64),
            player.stat.spec_ge(probe.req),
            *probe == old(self).level.vertices@[location as int].spec_probe(player.stat.combat),
            probe.wf(),
        ensures
            final(self).inv(),
            final(self).alternatives_below_best(),
            final(self).live_ok(player.visited.bits),
            final(self).outcomes_ok(),
            final(self).optimal_player@.contains_key(player.visited.bits),
            final(self).player_progress_rc@.contains_key(player.visited.bits),
            final(self).level == old(self).level,
            final(self).search_config == old(self).search_config,
            final(self).init_player == old(self).init_player,
            final(self).probe_result@ == old(self).probe_result@,
            final(self).local_optimal_player_by_score == old(self).local_optimal_player_by_score || (
            final(self).local_optimal_player_by_score.score.score as int
                == final(self).local_optimal_player_by_score.trace.stat.spec_score()
                && final(self).local_optimal_player_by_score.trace.trace@.len() >= 1
                && final(self).local_optimal_player_by_score.trace.trace@[final(self).local_optimal_player_by_score.trace.trace@.len()
                - 1] == final(self).level.exit
                && final(self).local_optimal_player_by_score.score.score
                > old(self).local_optimal_player_by_score.score.score),
            location == old(self).level.exit ==> final(self).optimal_player@ == old(self).optimal_player@ && final(self).player_progress_rc@ == old(self).player_progress_rc@
                && final(self).clones@ == old(self).clones@,
            location != old(self).level.exit && !old(self).optimal_player@.contains_key(
                arrival_key(*player, location),
            ) ==> final(self).optimal_player@ == old(self).optimal_player@.insert(
                arrival_key(*player, location),
                final(self).optimal_player@[arrival_key(*player, location)],
            ) && final(self).optimal_player@[arrival_key(*player, location)].stat
                == player.stat.spec_plus(probe.diff) && final(self).optimal_player@[arrival_key(
                *player,
                location,
            )].last_visit == location && final(self).clones@ == old(self).clones@.push(
                arrival_key(*player, location),
            ) && final(self).local_optimal_player_by_score == old(self).local_optimal_player_by_score && final(self).local_optimal_player_by_stat == old(self).local_optimal_player_by_stat,
            location != old(self).level.exit && old(self).optimal_player@.contains_key(
                arrival_key(*player, location),
            ) && old(self).optimal_player@[arrival_key(*player, location)].stat.hp as int
                >= sat_add_spec(player.stat.hp as int, probe.diff.hp as int) ==> final(self).optimal_player@ == old(self).optimal_player@ && final(self).player_progress_rc@
                == old(self).player_progress_rc@ && final(self).clones@ == old(self).clones@
                && final(self).local_optimal_player_by_score == old(self).local_optimal_player_by_score && final(self).local_optimal_player_by_stat == old(self).local_optimal_player_by_stat,
            location != old(self).level.exit && old(self).optimal_player@.contains_key(
                arrival_key(*player, location),
            ) && (old(self).optimal_player@[arrival_key(*player, location)].stat.hp as int)
                < sat_add_spec(player.stat.hp as int, probe.diff.hp as int) ==> final(self).optimal_player@.contains_key(arrival_key(*player, location)) && final(self).optimal_player@[arrival_key(*player, location)].stat.hp as int == sat_add_spec(
                player.stat.hp as int,
                probe.diff.hp as int,
            ) && final(self).optimal_player@[arrival_key(*player, location)].last_visit == location
                && (forall|k: u64|
                #[trigger] final(self).optimal_player@.contains_key(k) && k != arrival_key(
                    *player,
                    location,
                ) ==> old(self).optimal_player@.contains_key(k) && final(self).optimal_player@[k]
                    == old(self).optimal_player@[k]) && final(self).clones@ == old(self).clones@
                && final(self).local_optimal_player_by_score == old(self).local_optimal_player_by_score && final(self).local_optimal_player_by_stat == old(self).local_optimal_player_by_stat,
            location == old(self).level.exit ==> final(self).search_progress == old(self).search_progress,
            location != old(self).level.exit && !old(self).optimal_player@.contains_key(
                arrival_key(*player, location),
            ) ==> final(self).player_progress_rc@ == old(self).player_progress_rc@.insert(
                player.visited.bits,
                (if old(self).player_progress_rc@[player.visited.bits] < i64::MAX {
                    (old(self).player_progress_rc@[player.visited.bits] + 1) as i64
                } else {
                    old(self).player_progress_rc@[player.visited.bits]
                }),
            ) && final(self).search_progress.total_search_count == (if old(self).search_progress.total_search_count < usize::MAX {
                (old(self).search_progress.total_search_count + 1) as usize
            } else {
                old(self).search_progress.total_search_count
            }) && final(self).search_progress.current_search_count == old(self).search_progress.current_search_count,
            location != old(self).level.exit && old(self).optimal_player@.contains_key(
                arrival_key(*player, location),
            ) ==> final(self).search_progress == old(self).search_progress,
            location != old(self).level.exit && old(self).optimal_player@.contains_key(
                arrival_key(*player, location),
            ) && (old(self).optimal_player@[arrival_key(*player, location)].stat.hp as int)
                < sat_add_spec(player.stat.hp as int, probe.diff.hp as int) ==> forall|x: u64|
                old(self).optimal_player@.contains_key(x) && !final(self).optimal_player@.contains_key(x) ==> #[trigger] on_chain(
                    old(self).optimal_player@,
                    old(self).optimal_player@[arrival_key(*player, location)].pred_bits(),
                    x,
                ),
    {
        let kp = player.visited.bits;
        let mut new_player = *player;
        new_player.visit(location, &self.level, probe);
        let newkey = new_player.visited.bits;
        proof {
            assert(newkey == arrival_key(*player, location));
            lemma_key_from_pred(newkey, location as u64);
        }

        if location == self.level.exit {
            proof {
                assert(Self::terminal_outcome(self.level, new_player.stat)) by {
                    let p = player.stat;
                    assert(p.spec_ge(
                        self.level.vertices@[self.level.exit as int].spec_probe(p.combat).req,
                    ) && new_player.stat == p.spec_plus(
                        self.level.vertices@[self.level.exit as int].spec_probe(p.combat).diff,
                    ));
                }
            }
            self.add_exit_player(&new_player);
            return ;
        }

        let existing_opt = match self.optimal_player.get(&newkey) {
            Some(e) => Some(*e),
            None => None,
        };
        match existing_opt {
            Some(existing) => {
                let new_objective = new_player.stat.objective();
                if existing.stat.objective().ge(&new_objective) {
                    return ;
                }
                let old_pred = existing.previous_visited().bits;
                let mut updated = existing;
                updated.stat.hp = new_player.stat.hp;
                updated.last_visit = location;
                proof {
                    assert(existing.visited == new_player.visited);
                    assert(updated.wf(self.level.next_id));
                    assert(updated.pred_bits() == kp);
                }
                let ghost store_before = self.optimal_player@;
                self.optimal_player.insert(newkey, updated);
                let rcv = *self.player_progress_rc.get(&kp).unwrap();
                proof {
                    lemma_children_le_64(store_before, kp, self.level.next_id);
                }
                let new_rcv: i64 = if rcv < i64::MAX {
                    rcv + 1
                } else {
                    rcv
                };
                self.player_progress_rc.insert(kp, new_rcv);
                proof {
                    assert(kp != 0 ==> new_rcv as int == children(store_before, kp).len() + 1);
                    lemma_children_update(store_before, newkey, updated);
                    lemma_children_le_64(store_before, old_pred, self.level.next_id);
                    if old_pred == kp {
                        assert(children(store_before, kp).contains(newkey));
                        assert(children(self.optimal_player@, kp) =~= children(
                            store_before,
                            kp,
                        ).insert(newkey));
                        assert(children(self.optimal_player@, kp) =~= children(store_before, kp));
                    } else {
                        assert(!children(store_before, kp).contains(newkey));
                        assert(children(self.optimal_player@, kp) =~= children(
                            store_before,
                            kp,
                        ).insert(newkey));
                        assert(children(store_before, old_pred).contains(newkey));
                        assert(children(self.optimal_player@, old_pred) =~= children(
                            store_before,
                            old_pred,
                        ).remove(newkey));
                    }
                    assert forall|k: u64|
                        k != 0 && k != old_pred && k != kp && #[trigger] self.player_progress_rc@.contains_key(
                            k,
                        ) implies self.player_progress_rc@[k] as int == children(
                        self.optimal_player@,
                        k,
                    ).len() by {
                        assert(!children(store_before, k).contains(newkey));
                        assert(children(self.optimal_player@, k) =~= children(store_before, k));
                    }
                    assert forall|k: u64|
                        k != 0 && #[trigger] self.optimal_player@.contains_key(k)
                            && !self.player_progress_rc@.contains_key(k) implies children(
                        self.optimal_player@,
                        k,
                    ) == Set::<u64>::empty() by {
                        if children(store_before, k).contains(newkey) {
                            assert(k == old_pred);
                            assert(self.player_progress_rc@.contains_key(k));
                        }
                        assert(children(self.optimal_player@, k) =~= children(store_before, k));
                        assert(children(self.optimal_player@, k) =~= Set::<u64>::empty());
                    }
                }
                proof {
                    lemma_key_from_pred(newkey, existing.last_visit as u64);
                    // every stored key but the superseded predecessor stays alive
                    assert forall|k: u64| #[trigger]
                        self.optimal_player@.contains_key(k) && k != 0 && k != old_pred implies ((
                    exists|i: int| 0 <= i < self.clones@.len() && self.clones@[i] == k) || (
                    self.player_progress_rc@.contains_key(k) && self.player_progress_rc@[k] > 0)) by {
                        if k == kp {
                            assert(self.player_progress_rc@[kp] == new_rcv);
                            assert(new_rcv >= 1);
                        } else {
                            assert(old(self).optimal_player@.contains_key(k));
                            if old(self).player_progress_rc@.contains_key(k) && old(self).player_progress_rc@[k] > 0 {
                                assert(self.player_progress_rc@[k] == old(self).player_progress_rc@[k]);
                            } else {
                                let i = choose|i: int|
                                    0 <= i < old(self).clones@.len() && old(self).clones@[i] == k;
                                assert(self.clones@[i] == k);
                            }
                        }
                    }
                    assert(self.live_ok(old_pred));
                }
                let ghost store_call = self.optimal_player@;
                self.remove_player_progress(old_pred);
                proof {
                    assert forall|x: u64|
                        old(self).optimal_player@.contains_key(x)
                            && !self.optimal_player@.contains_key(x) implies #[trigger] on_chain(
                        old(self).optimal_player@,
                        old_pred,
                        x,
                    ) by {
                        assert(store_call.contains_key(x));
                        assert(on_chain(store_call, old_pred, x));
                        lemma_on_chain_frame(store_call, old(self).optimal_player@, old_pred, x);
                    }
                    assert(self.optimal_player@.contains_key(newkey));
                    assert(self.optimal_player@[newkey] == updated);
                    assert(self.optimal_player@.contains_key(kp));
                    if kp != 0 {
                        assert(children(self.optimal_player@, kp).contains(newkey));
                        if !self.player_progress_rc@.contains_key(kp) {
                            assert(children(self.optimal_player@, kp) == Set::<u64>::empty());
                        }
                        assert(self.player_progress_rc@.contains_key(kp));
                    }
                }
            },
            None => {
                let ghost store_before = self.optimal_player@;
                self.optimal_player.insert(newkey, new_player);
                let rcv = *self.player_progress_rc.get(&kp).unwrap();
                proof {
                    lemma_children_le_64(store_before, kp, self.level.next_id);
                }
                let new_rcv: i64 = if rcv < i64::MAX {
                    rcv + 1
                } else {
                    rcv
                };
                self.player_progress_rc.insert(kp, new_rcv);
                self.clones.push_back(newkey);
                if self.search_progress.total_search_count < usize::MAX {
                    self.search_progress.total_search_count =
                        self.search_progress.total_search_count + 1;
                }
                proof {
                    lemma_children_insert_fresh(store_before, newkey, new_player);
                    assert(children(self.optimal_player@, kp) =~= children(store_before, kp).insert(
                        newkey,
                    ));
                    assert(!children(store_before, kp).contains(newkey));
                    lemma_children_le_64(store_before, newkey, self.level.next_id);
                    assert forall|k: u64|
                        k != 0 && k != kp && #[trigger] self.player_progress_rc@.contains_key(
                            k,
                        ) implies self.player_progress_rc@[k] as int == children(
                        self.optimal_player@,
                        k,
                    ).len() by {
                        assert(children(self.optimal_player@, k) =~= children(store_before, k));
                    }
                    assert forall|k: u64|
                        k != 0 && #[trigger] self.optimal_player@.contains_key(k)
                            && !self.player_progress_rc@.contains_key(k) implies children(
                        self.optimal_player@,
                        k,
                    ) == Set::<u64>::empty() by {
                        if k == newkey {
                            assert forall|c: u64|
                                !children(store_before, newkey).contains(c) by {
                                if children(store_before, newkey).contains(c) {
                                    assert(store_before.contains_key(
                                        store_before[c].pred_bits(),
                                    ));
                                }
                            }
                            assert(children(store_before, newkey) =~= Set::<u64>::empty());
                        }
                        assert(children(self.optimal_player@, k) =~= children(store_before, k));
                        assert(children(self.optimal_player@, k) =~= Set::<u64>::empty());
                    }
                    // the fresh key waits on the frontier; everything else stays alive
                    assert forall|k: u64| #[trigger]
                        self.optimal_player@.contains_key(k) && k != 0 && k != kp implies ((exists|i: int|
                        0 <= i < self.clones@.len() && self.clones@[i] == k) || (
                    self.player_progress_rc@.contains_key(k) && self.player_progress_rc@[k] > 0)) by {
                        if k == newkey {
                            assert(self.clones@[self.clones@.len() - 1] == newkey);
                        } else {
                            assert(old(self).optimal_player@.contains_key(k));
                            if old(self).player_progress_rc@.contains_key(k) && old(self).player_progress_rc@[k] > 0 {
                                assert(self.player_progress_rc@[k] == old(self).player_progress_rc@[k]);
                            } else {
                                let i = choose|i: int|
                                    0 <= i < old(self).clones@.len() && old(self).clones@[i] == k;
                                assert(self.clones@[i] == k);
                            }
                        }
                    }
                }
            },
        }
    }


    /// The branch-selection policy over one state, scanned in ascending
    /// location order.  Eligibility — reachability, the intermediate
    /// restriction, and dominance of the probed requirement — is decided
    /// before any other policy logic; a location flagged only-when-free
    /// is skipped entirely unless entering it is free.  When any
    /// candidate is flagged priority, the first such candidate alone is
    /// chosen; otherwise, when any candidate is free, the first free
    /// candidate alone; otherwise every candidate.
    fn select_transitions(&self, player: &EssPlayer, probe_result: &Vec<ProbeStat>) -> (r: Vec<
        ExtendedProbeStat,
    >)
        requires
            self.level.ready(),
            player.wf(self.level.next_id),
            probe_result@ == Self::probe_seq(self.level, player.stat.combat),
            forall|i: int| 0 <= i < probe_result@.len() ==> (#[trigger] probe_result@[i]).wf(),
        ensures
            forall|e: int|
                0 <= e < r@.len() ==> spec_candidate(
                    self.level,
                    *player,
                    (#[trigger] r@[e]).location,
                ) && r@[e].probe == self.level.vertices@[r@[e].location as int].spec_probe(
                    player.stat.combat,
                ) && r@[e].probe.wf(),
            forall|e1: int, e2: int| 0 <= e1 < e2 < r@.len() ==> r@[e1].location < r@[e2].location,
            (exists|id: u8| #![auto]
                spec_candidate(self.level, *player, id) && spec_priority(self.level, id)) ==> r@.len()
                == 1 && spec_priority(self.level, r@[0].location) && (forall|j: u8| #![auto]
                j < r@[0].location ==> !(spec_candidate(self.level, *player, j) && spec_priority(
                    self.level,
                    j,
                ))),
            !(exists|id: u8| #![auto]
                spec_candidate(self.level, *player, id) && spec_priority(self.level, id)) && (
            exists|id: u8| #![auto]
                spec_candidate(self.level, *player, id) && spec_free(self.level, *player, id))
                ==> r@.len() == 1 && spec_free(self.level, *player, r@[0].location) && (forall|j: u8| #![auto]
                j < r@[0].location ==> !(spec_candidate(self.level, *player, j) && spec_free(
                    self.level,
                    *player,
                    j,
                ))),
            !(exists|id: u8| #![auto]
                spec_candidate(self.level, *player, id) && spec_priority(self.level, id)) && !(
            exists|id: u8| #![auto]
                spec_candidate(self.level, *player, id) && spec_free(self.level, *player, id))
                ==> (forall|id: u8| #![auto]
                spec_candidate(self.level, *player, id) <==> exists|e: int|
                    0 <= e < r@.len() && (#[trigger] r@[e]).location == id),
    {
        let n = self.level.next_id;
        let was_intermediate = if player.last_visit == LOCATION_NONE {
            false
        } else {
            (self.level.vertex_of_id(player.last_visit).room_type & ROOM_INTERMEDIATE) != 0
        };
        let mut extended_probe_result: Vec<ExtendedProbeStat> = Vec::new();
        let mut first_priority: Option<ExtendedProbeStat> = None;
        let mut first_free: Option<ExtendedProbeStat> = None;
        let mut id: u8 = 0;
        while id < n
            invariant
                n == self.level.next_id,
                self.level.ready(),
                player.wf(n),
                was_intermediate == (player.last_visit != LOCATION_NONE && (self.level.vertices@[
                player.last_visit as int].room_type & ROOM_INTERMEDIATE) != 0),
                was_intermediate ==> player.last_visit < n,
                probe_result@ == Self::probe_seq(self.level, player.stat.combat),
                forall|i: int| 0 <= i < probe_result@.len() ==> (#[trigger] probe_result@[i]).wf(),
                forall|e: int|
                    0 <= e < extended_probe_result@.len() ==> spec_candidate(
                        self.level,
                        *player,
                        (#[trigger] extended_probe_result@[e]).location,
                    ) && !spec_free(self.level, *player, extended_probe_result@[e].location)
                        && !spec_priority(self.level, extended_probe_result@[e].location)
                        && extended_probe_result@[e].probe == self.level.vertices@[
                    extended_probe_result@[e].location as int].spec_probe(player.stat.combat)
                        && extended_probe_result@[e].probe.wf() && extended_probe_result@[e].location
                        < id,
                forall|e1: int, e2: int|
                    0 <= e1 < e2 < extended_probe_result@.len() ==> extended_probe_result@[e1].location
                        < extended_probe_result@[e2].location,
                forall|j: u8| #![auto]
                    j < id && spec_candidate(self.level, *player, j) && !spec_free(
                        self.level,
                        *player,
                        j,
                    ) && !spec_priority(self.level, j) ==> exists|e: int|
                        0 <= e < extended_probe_result@.len() && extended_probe_result@[e].location
                            == j,
                match first_priority {
                    Some(ep) => spec_candidate(self.level, *player, ep.location) && spec_priority(
                        self.level,
                        ep.location,
                    ) && ep.probe == self.level.vertices@[ep.location as int].spec_probe(
                        player.stat.combat,
                    ) && ep.probe.wf() && ep.location < id && (forall|j: u8| #![auto]
                        j < ep.location ==> !(spec_candidate(self.level, *player, j)
                            && spec_priority(self.level, j))),
                    None => forall|j: u8| #![auto]
                        j < id ==> !(spec_candidate(self.level, *player, j) && spec_priority(
                            self.level,
                            j,
                        )),
                },
                match first_free {
                    Some(ep) => spec_candidate(self.level, *player, ep.location) && spec_free(
                        self.level,
                        *player,
                        ep.location,
                    ) && ep.probe == self.level.vertices@[ep.location as int].spec_probe(
                        player.stat.combat,
                    ) && ep.probe.wf() && ep.location < id && (forall|j: u8| #![auto]
                        j < ep.location ==> !(spec_candidate(self.level, *player, j) && spec_free(
                            self.level,
                            *player,
                            j,
                        ))),
                    None => forall|j: u8| #![auto]
                        j < id ==> !(spec_candidate(self.level, *player, j) && spec_free(
                            self.level,
                            *player,
                            j,
                        )),
                },
            decreases n - id,
        {
            proof {
                assert(probe_result@[id as int] == self.level.vertices@[id as int].spec_probe(
                    player.stat.combat,
                ));
            }
            if player.neighbors.get_bit(id) {
                let skip_intermediate = if was_intermediate {
                    !self.level.neighbors[player.last_visit as usize].get_bit(id)
                } else {
                    false
                };
                if !skip_intermediate {
                    let probe = probe_result[id as usize];
                    if player.stat.ge(&probe.req) {
                        let room_type = self.level.vertex_of_id(id).room_type;
                        let priority = (room_type & ROOM_PRIORITY) != 0;
                        let intermediate = (room_type & ROOM_INTERMEDIATE) != 0;
                        let free = id != self.level.exit && !intermediate && probe.damage == 0
                            && probe.diff.is_free();
                        let skip_only_when_free = !free && (room_type & ROOM_ONLY_WHEN_FREE) != 0;
                        proof {
                            assert(spec_eligible(self.level, *player, id));
                            assert(free == spec_free(self.level, *player, id));
                            assert(priority == spec_priority(self.level, id));
                        }
                        if !skip_only_when_free {
                            proof {
                                assert(spec_candidate(self.level, *player, id));
                            }
                            if priority && first_priority.is_none() {
                                first_priority = Some(ExtendedProbeStat { location: id, probe });
                            }
                            if free && first_free.is_none() {
                                first_free = Some(ExtendedProbeStat { location: id, probe });
                            }
                            if !free && !priority {
                                let ghost pre_ext = extended_probe_result@;
                                extended_probe_result.push(
                                    ExtendedProbeStat { location: id, probe },
                                );
                                proof {
                                    assert(extended_probe_result@[extended_probe_result@.len()
                                        - 1].location == id);
                                    assert forall|j: u8| #![auto]
                                        j < id + 1 && spec_candidate(self.level, *player, j)
                                            && !spec_free(self.level, *player, j)
                                            && !spec_priority(self.level, j) implies exists|e: int|
                                        0 <= e < extended_probe_result@.len()
                                            && extended_probe_result@[e].location == j by {
                                        if j < id {
                                            let e = choose|e: int|
                                                0 <= e < pre_ext.len() && pre_ext[e].location == j;
                                            assert(extended_probe_result@[e].location == j);
                                        } else {
                                            assert(extended_probe_result@[extended_probe_result@.len()
                                                - 1].location == id);
                                        }
                                    }
                                }
                            }
                        } else {
                            proof {
                                assert(!spec_candidate(self.level, *player, id));
                            }
                        }
                    } else {
                        proof {
                            assert(!spec_eligible(self.level, *player, id));
                        }
                    }
                } else {
                    proof {
                        assert(!spec_step_allowed(self.level, *player, id));
                    }
                }
            } else {
                proof {
                    assert(!spec_eligible(self.level, *player, id));
                }
            }
            id = id + 1;
        }
        if let Some(ep) = first_priority {
            let mut out: Vec<ExtendedProbeStat> = Vec::new();
            out.push(ep);
            out
        } else if let Some(ep) = first_free {
            proof {
                assert forall|j: u8| #![auto]
                    !(spec_candidate(self.level, *player, j) && spec_priority(
                        self.level,
                        j,
                    )) by {}
            }
            let mut out: Vec<ExtendedProbeStat> = Vec::new();
            out.push(ep);
            out
        } else {
            proof {
                assert forall|j: u8| #![auto]
                    !(spec_candidate(self.level, *player, j) && spec_priority(
                        self.level,
                        j,
                    )) by {}
                assert forall|j: u8| #![auto]
                    !(spec_candidate(self.level, *player, j) && spec_free(
                        self.level,
                        *player,
                        j,
                    )) by {}
                assert forall|j: u8| #![auto]
                    spec_candidate(self.level, *player, j) implies exists|e: int|
                    0 <= e < extended_probe_result@.len() && extended_probe_result@[e].location
                        == j by {
                    assert(!(spec_candidate(self.level, *player, j) && spec_free(
                        self.level,
                        *player,
                        j,
                    )));
                    assert(!(spec_candidate(self.level, *player, j) && spec_priority(
                        self.level,
                        j,
                    )));
                    assert(j < self.level.next_id);
                }
            }
            extended_probe_result
        }
    }

    /// Run the search to exhaustion: pop each frontier key, classify its
    /// eligible unvisited neighbors, expand a single priority or free
    /// neighbor when one exists and every eligible neighbor otherwise, and
    /// reclaim keys that end up unreferenced.  Returns the best route and
    /// the Pareto frontier of terminal outcomes, or nothing when the exit
    /// was never reached with a positive score.
    #[verifier::rlimit(100)]
    pub fn search(&mut self) -> (r: Option<Solution>)
        requires
            old(self).level.ready(),
            old(self).init_player.stat.wf(),
            old(self).init_player.visited.bits == 0u64,
            old(self).init_player.neighbors.bits == 0u64,
            old(self).init_player.last_visit == LOCATION_NONE,
        ensures
            final(self).inv(),
            final(self).level == old(self).level,
            final(self).search_config == old(self).search_config,
            final(self).init_player == old(self).init_player,
            match r {
                Some(s) => {
                    &&& s.score.score > 0
                    &&& s.score.score as int == s.optimal_route.stat.spec_score()
                    &&& Self::terminal_outcome(final(self).level, s.optimal_route.stat)
                    &&& s.optimal_route.trace@.len() >= 1
                    &&& s.optimal_route.trace@[s.optimal_route.trace@.len() - 1]
                        == final(self).level.exit
                    &&& forall|t: int|
                        0 <= t < s.local_optimal_routes@.len() ==> Self::terminal_outcome(
                            final(self).level,
                            (#[trigger] s.local_optimal_routes@[t]).stat,
                        ) && s.local_optimal_routes@[t].trace@.len() >= 1
                            && s.local_optimal_routes@[t].trace@[s.local_optimal_routes@[t].trace@.len()
                            - 1] == final(self).level.exit
                    &&& forall|i: int, j: int|
                        0 <= i < s.local_optimal_routes@.len() && 0 <= j
                            < s.local_optimal_routes@.len() && i != j ==> !(
                        #[trigger] s.local_optimal_routes@[i]).stat.spec_ge(
                            #[trigger] s.local_optimal_routes@[j].stat,
                        )
                    &&& forall|t: int|
                        0 <= t < s.local_optimal_routes@.len() ==> (
                        #[trigger] s.local_optimal_routes@[t]).stat.spec_score()
                            <= s.score.score as int
                },
                None => true,
            },
            forall|h: int|
                0 <= h < final(self).new_highscores@.len() ==> Self::terminal_outcome(
                    final(self).level,
                    (#[trigger] final(self).new_highscores@[h]).stat,
                ) && final(self).new_highscores@[h].trace@.len() >= 1
                    && final(self).new_highscores@[h].trace@[final(self).new_highscores@[h].trace@.len()
                    - 1] == final(self).level.exit,
    {
        self.search_progress = SearchProgress::new();
        self.local_optimal_player_by_score.clear();
        self.local_optimal_player_by_stat = OptimalStatSet::new();
        self.new_highscores = Vec::new();
        self.probe_result = Vec::new();
        self.player_progress_rc = HashMap::new();
        self.optimal_player = HashMap::new();
        self.clones = VecDeque::new();

        let mut player = self.init_player;
        player.enter(&self.level);
        self.optimal_player.insert(0u64, player);
        self.clones.push_back(0u64);
        self.search_progress.total_search_count = 1;
        proof {
            assert(forall|j: u64| (0u64 >> j) & 1u64 != 1u64) by (bit_vector);
            assert(player.wf(self.level.next_id));
            assert forall|k: u64| #[trigger]
                self.optimal_player@.contains_key(k) implies entry_ok(
                self.level.next_id,
                k,
                self.optimal_player@[k],
            ) by {
                assert(k == 0u64);
            }
            assert(self.inv());
            assert(self.outcomes_ok());
        }

        // The frontier can in principle re-queue a key whose state was
        // reclaimed and later recreated, so the loop carries an explicit
        // step budget as its decreasing measure; no physically realizable
        // run comes anywhere near it.
        let mut fuel: u64 = 0xffff_ffff_ffff_ffffu64;
        while fuel > 0
            invariant
                self.inv(),
                self.best_ok(),
                self.alternatives_below_best(),
                self.outcomes_ok(),
                self.live_ok(0u64),
                self.level == old(self).level,
                self.search_config == old(self).search_config,
                self.init_player == old(self).init_player,
            decreases fuel,
        {
            fuel = fuel - 1;
            let ghost at_head = *self;
            let progress = match self.clones.pop_front() {
                Some(p) => p,
                None => { break ; },
            };
            if self.search_progress.current_search_count < usize::MAX {
                self.search_progress.current_search_count =
                    self.search_progress.current_search_count + 1;
            }
            let player = *self.optimal_player.get(&progress).unwrap();
            self.player_progress_rc.insert(progress, 0);
            proof {
                // the popped key is the one exception to liveness now
                assert forall|k: u64| #[trigger]
                    self.optimal_player@.contains_key(k) && k != 0 && k != progress implies ((
                exists|i: int| 0 <= i < self.clones@.len() && self.clones@[i] == k) || (
                self.player_progress_rc@.contains_key(k) && self.player_progress_rc@[k] > 0)) by {
                    if at_head.player_progress_rc@.contains_key(k)
                        && at_head.player_progress_rc@[k] > 0 {
                        assert(self.player_progress_rc@[k] == at_head.player_progress_rc@[k]);
                    } else {
                        let i = choose|i: int|
                            0 <= i < at_head.clones@.len() && at_head.clones@[i] == k;
                        assert(at_head.clones@[0] == progress);
                        assert(i >= 1);
                        assert(self.clones@[i - 1] == k);
                    }
                }
                assert(self.live_ok(progress));
            }

            let probe_result = self.probe(&player.stat.combat);
            let selected = self.select_transitions(&player, &probe_result);
            let m = selected.len();
            let mut e: usize = 0;
            while e < m
                invariant
                    m == selected@.len(),
                    e <= m,
                    self.inv(),
                    self.best_ok(),
                    self.alternatives_below_best(),
                    self.outcomes_ok(),
                    self.live_ok(player.visited.bits),
                    self.level == old(self).level,
                    self.search_config == old(self).search_config,
                    self.init_player == old(self).init_player,
                    player.wf(self.level.next_id),
                    self.optimal_player@.contains_key(player.visited.bits),
                    self.player_progress_rc@.contains_key(player.visited.bits),
                    forall|x: int|
                        0 <= x < selected@.len() ==> spec_candidate(
                            self.level,
                            player,
                            (#[trigger] selected@[x]).location,
                        ) && selected@[x].probe == self.level.vertices@[selected@[x].location as int].spec_probe(
                            player.stat.combat,
                        ) && selected@[x].probe.wf(),
                decreases m - e,
            {
                let location = selected[e].location;
                let probe = selected[e].probe;
                proof {
                    assert(player.neighbors.has(location as u64));
                    assert(!player.visited.has(location as u64));
                }
                self.expand(&player, location, &probe);
                e = e + 1;
            }
            let rc_now = *self.player_progress_rc.get(&progress).unwrap();
            if rc_now == 0 {
                proof {
                    if progress != 0 {
                        assert(self.player_progress_rc@[progress] as int == children(
                            self.optimal_player@,
                            progress,
                        ).len());
                    }
                }
                self.remove_player_progress(progress);
            } else {
                proof {
                    assert(self.live_ok(0u64));
                }
            }
        }

        let mut score_tracker = OptimalScore::new();
        core::mem::swap(&mut score_tracker, &mut self.local_optimal_player_by_score);
        let mut stat_tracker = OptimalStatSet::new();
        core::mem::swap(&mut stat_tracker, &mut self.local_optimal_player_by_stat);
        if score_tracker.score.score > 0 {
            Some(
                Solution {
                    optimal_route: score_tracker.trace,
                    score: score_tracker.score,
                    local_optimal_routes: stat_tracker.traces,
                },
            )
        } else {
            None
        }
    }
}

} // verus!
