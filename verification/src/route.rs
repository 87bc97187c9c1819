//! A full route through a level: the ordered locations entered, the final
//! statistic, and the sets needed to extend or replay it.

use crate::bitset::LocationSet;
use crate::level::Level;
use crate::stat::PlayerStat;
use vstd::prelude::*;

verus! {

/// A route from the entrance to wherever its trace ends, together with
/// the statistic accumulated along it.
#[derive(Clone, Debug)]
pub struct Route {
    /// The statistic after the whole trace.
    pub stat: PlayerStat,
    /// The locations entered, in order.
    pub trace: Vec<u8>,
    /// Locations reachable but not yet visited.
    pub neighbors: LocationSet,
    /// Locations entered so far.
    pub visited: LocationSet,
    /// The visited set before the last step.
    pub previous_visited: LocationSet,
}

impl Route {
    /// An empty route with the zero statistic.
    pub fn new() -> (r: Self)
        ensures
            r.stat == (PlayerStat {
                hp: 0i64,
                combat: crate::stat::PlayerCombat {
                    flag: 0u8,
                    atk: 0i64,
                    def: 0i64,
                    equip: crate::stat::EquipStat { flag: 0u8, atk: 0i64, def: 0i64 },
                },
                gr: 0i64,
                yk: 0i64,
                gk: 0i64,
                bk: 0i64,
            }),
            r.trace@.len() == 0,
            r.neighbors.bits == 0u64,
            r.visited.bits == 0u64,
            r.previous_visited.bits == 0u64,
            r.stat.wf(),
    {
        Route {
            stat: PlayerStat::zero(),
            trace: Vec::new(),
            neighbors: LocationSet::new(),
            visited: LocationSet::new(),
            previous_visited: LocationSet::new(),
        }
    }

    /// An empty route with the given starting statistic.
    pub fn with_stat(stat: PlayerStat) -> (r: Self)
        ensures
            r.stat == stat,
            r.trace@.len() == 0,
            r.neighbors.bits == 0u64,
            r.visited.bits == 0u64,
            r.previous_visited.bits == 0u64,
    {
        Route {
            stat,
            trace: Vec::new(),
            neighbors: LocationSet::new(),
            visited: LocationSet::new(),
            previous_visited: LocationSet::new(),
        }
    }

    /// Make the level's entrance reachable.
    pub fn enter(&mut self, level: &Level)
        requires
            level.ready(),
        ensures
            forall|j: u64|
                final(self).neighbors.has(j) == (old(self).neighbors.has(j) || j == level.entrance
                    as u64),
            final(self).stat == old(self).stat,
            final(self).trace@ == old(self).trace@,
            final(self).visited == old(self).visited,
            final(self).previous_visited == old(self).previous_visited,
    {
        self.neighbors.set_bit(level.entrance, true);
    }

    /// Enter `room_id`, which must be reachable and whose requirement the
    /// current statistic must dominate.  The probe outcome is computed
    /// from the route's own combat statistic.
    pub fn visit(&mut self, room_id: u8, level: &Level)
        requires
            level.wf(),
            room_id < level.next_id,
            old(self).stat.wf(),
            old(self).neighbors.has(room_id as u64),
            old(self).stat.spec_ge(
                level.vertices@[room_id as int].spec_probe(old(self).stat.combat).req,
            ),
        ensures
            final(self).stat == old(self).stat.spec_plus(
                level.vertices@[room_id as int].spec_probe(old(self).stat.combat).diff,
            ),
            final(self).stat.wf(),
            final(self).trace@ == old(self).trace@.push(room_id),
            final(self).previous_visited == old(self).visited,
            forall|j: u64|
                final(self).visited.has(j) == (old(self).visited.has(j) || j == room_id as u64),
            forall|j: u64|
                final(self).neighbors.has(j) == ((old(self).neighbors.has(j)
                    || level.neighbors@[room_id as int].has(j)) && !level.toggle_neighbors@[
                    room_id as int].has(j) && !final(self).visited.has(j)),
    {
        let probe = level.vertex(room_id).probe(&self.stat.combat);
        self.stat.add_assign(&probe.diff);
        self.trace.push(room_id);
        self.previous_visited = self.visited;
        self.visited.set_bit(room_id, true);
        let adj = level.neighbors[room_id as usize];
        let tog = level.toggle_neighbors[room_id as usize];
        let ghost nb0 = self.neighbors;
        self.neighbors.or_assign(&adj);
        self.neighbors.and_not_assign(&tog);
        let vis = self.visited;
        self.neighbors.and_not_assign(&vis);
        proof {
            assert(self.neighbors.bits == ((nb0.bits | adj.bits) & !tog.bits) & !vis.bits);
            assert forall|j: u64|
                self.neighbors.has(j) == ((nb0.has(j) || adj.has(j)) && !tog.has(j) && !vis.has(
                    j,
                )) by {
                LocationSet::lemma_union_minus_minus(nb0.bits, adj.bits, tog.bits, vis.bits, j);
            }
        }
    }
}

} // verus!
