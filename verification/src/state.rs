//! One search state: the best-known way to have visited a given set of
//! locations.
//!
//! A state holds the accumulated player statistic, the visited set, the
//! reachable-but-unvisited neighbor set, and the location visited last.
//! The state store keys states by their visited set; clearing the
//! last-visited bit of the key yields the predecessor key, which is how
//! routes are reconstructed and reclaimed.

use crate::bitset::LocationSet;
use crate::level::{Level, LOCATION_NONE};
use crate::stat::{PlayerScore, PlayerStat, ProbeStat};
use vstd::prelude::*;

verus! {

/// A search state, keyed in the state store by `visited`.
#[derive(Clone, Copy, Debug)]
pub struct EssPlayer {
    /// The accumulated player statistic.
    pub stat: PlayerStat,
    /// Locations reachable but not yet visited.
    pub neighbors: LocationSet,
    /// Locations entered so far.
    pub visited: LocationSet,
    /// The location entered last, or [`LOCATION_NONE`] before any entry.
    pub last_visit: u8,
}

impl EssPlayer {
    /// The state is consistent with a level of `n` locations: statistic in
    /// range, both sets inside the level, neighbors disjoint from visited,
    /// and the last visit recorded in the visited set.
    pub open spec fn wf(self, n: u8) -> bool {
        &&& self.stat.wf()
        &&& forall|j: u64| self.neighbors.has(j) ==> j < n as u64
        &&& forall|j: u64| self.visited.has(j) ==> j < n as u64
        &&& forall|j: u64| self.neighbors.has(j) ==> !self.visited.has(j)
        &&& (self.last_visit == LOCATION_NONE <==> self.visited.bits == 0u64)
        &&& (self.last_visit != LOCATION_NONE ==> self.last_visit < n && self.visited.has(
            self.last_visit as u64,
        ))
    }

    /// The key of the state this one was reached from: the visited set
    /// with the last-visited bit cleared.
    pub open spec fn pred_bits(self) -> u64 {
        self.visited.bits & !(1u64 << (self.last_visit as u64))
    }

    /// A state with the given statistic that has visited nothing.
    pub fn with_stat(stat: PlayerStat) -> (r: Self)
        ensures
            r.stat == stat,
            r.neighbors.bits == 0u64,
            r.visited.bits == 0u64,
            r.last_visit == LOCATION_NONE,
            forall|j: u64| !r.neighbors.has(j) && !r.visited.has(j),
            stat.wf() ==> forall|n: u8| r.wf(n),
    {
        EssPlayer {
            stat,
            neighbors: LocationSet::new(),
            visited: LocationSet::new(),
            last_visit: LOCATION_NONE,
        }
    }

    /// The predecessor key: the visited set without the last visit.
    pub fn previous_visited(&self) -> (r: LocationSet)
        requires
            self.last_visit < 64,
        ensures
            r.bits == self.pred_bits(),
            forall|j: u64|
                r.has(j) == (self.visited.has(j) && j != self.last_visit as u64),
    {
        let mut rooms = self.visited;
        rooms.set_bit(self.last_visit, false);
        rooms
    }

    /// Make the level's entrance reachable.
    pub fn enter(&mut self, level: &Level)
        requires
            level.ready(),
        ensures
            final(self).neighbors.bits == old(self).neighbors.bits | (1u64 << (level.entrance
                as u64)),
            forall|j: u64|
                final(self).neighbors.has(j) == (old(self).neighbors.has(j) || j == level.entrance
                    as u64),
            final(self).stat == old(self).stat,
            final(self).visited == old(self).visited,
            final(self).last_visit == old(self).last_visit,
    {
        self.neighbors.set_bit(level.entrance, true);
    }

    /// Enter `location`: apply the probe's change, record the visit, and
    /// recompute the reachable set as the union of the level's neighbors
    /// of `location` with the previous reachable set, minus everything
    /// visited and everything toggled off by `location`.
    pub fn visit(&mut self, location: u8, level: &Level, probe: &ProbeStat)
        requires
            level.wf(),
            location < level.next_id,
            probe.wf(),
            old(self).stat.wf(),
        ensures
            final(self).stat == old(self).stat.spec_plus(probe.diff),
            final(self).last_visit == location,
            final(self).visited.bits == old(self).visited.bits | (1u64 << (location as u64)),
            forall|j: u64|
                final(self).visited.has(j) == (old(self).visited.has(j) || j == location as u64),
            forall|j: u64|
                final(self).neighbors.has(j) == ((old(self).neighbors.has(j)
                    || level.neighbors@[location as int].has(j)) && !level.toggle_neighbors@[
                    location as int].has(j) && !final(self).visited.has(j)),
            final(self).stat.wf(),
            !old(self).visited.has(location as u64) ==> final(self).pred_bits() == old(
                self,
            ).visited.bits,
            !old(self).visited.has(location as u64) ==> final(self).visited.bits != old(
                self,
            ).visited.bits,
            old(self).wf(level.next_id) ==> final(self).wf(level.next_id),
    {
        self.stat.add_assign(&probe.diff);
        self.visited.set_bit(location, true);
        let adj = level.neighbors[location as usize];
        let tog = level.toggle_neighbors[location as usize];
        let ghost nb0 = self.neighbors;
        self.neighbors.or_assign(&adj);
        let ghost nb1 = self.neighbors;
        self.neighbors.and_not_assign(&tog);
        let ghost nb2 = self.neighbors;
        let vis = self.visited;
        self.neighbors.and_not_assign(&vis);
        self.last_visit = location;
        proof {
            assert(self.neighbors.bits == ((nb0.bits | adj.bits) & !tog.bits) & !vis.bits);
            assert forall|j: u64|
                self.neighbors.has(j) == ((nb0.has(j) || adj.has(j)) && !tog.has(j) && !vis.has(
                    j,
                )) by {
                LocationSet::lemma_union_minus_minus(nb0.bits, adj.bits, tog.bits, vis.bits, j);
            }
            let v = old(self).visited.bits;
            let l = location as u64;
            assert((v | (1u64 << l)) != 0u64) by (bit_vector)
                requires
                    l < 64,
            ;
            if !old(self).visited.has(l) {
                assert((v | (1u64 << l)) & !(1u64 << l) == v) by (bit_vector)
                    requires
                        l < 64,
                        (v >> l) & 1u64 != 1u64,
                ;
            }
            if old(self).wf(level.next_id) {
                assert forall|j: u64| self.neighbors.has(j) implies j < level.next_id as u64 by {
                    if adj.has(j) {
                        assert(level.neighbors@[location as int].has(j));
                    }
                }
            }
        }
    }

    /// The score of this state's statistic as a terminal outcome.
    pub fn score(&self) -> (r: PlayerScore)
        requires
            self.stat.wf(),
        ensures
            r.score as int == self.stat.spec_score(),
    {
        self.stat.score()
    }
}

} // verus!
