//! The level graph: locations, their adjacency, toggled exclusions, and
//! the entrance and exit.
//!
//! Locations are numbered in the order they are added; adjacency and
//! toggled-exclusion relations are bitsets over those numbers.  The graph
//! is built by chaining: adding a location or naming an existing one links
//! it to the location selected before.  Name handling and any persisted
//! format belong to the surrounding program, which addresses locations by
//! their numbers here.

use crate::bitset::LocationSet;
use crate::room::Room;
use vstd::pervasive::VecAdditionalExecFns;
use vstd::prelude::*;

verus! {

/// The value that marks "no location selected" or "not set".
pub const LOCATION_NONE: u8 = 0xff;

/// A level graph.
#[derive(Debug)]
pub struct Level {
    /// The number of locations added so far; also the next identifier.
    pub next_id: u8,
    /// Graph successors of each location.
    pub neighbors: Vec<LocationSet>,
    /// Locations that become unreachable once the location is entered.
    pub toggle_neighbors: Vec<LocationSet>,
    /// Whether links are added in both directions.
    pub use_edge: bool,
    /// The location that the next link starts from.
    pub current_vertex_id: u8,
    /// The locations themselves.
    pub vertices: Vec<Room>,
    /// Where every traversal starts.
    pub entrance: u8,
    /// The terminal location.
    pub exit: u8,
}

impl Level {
    /// The graph is consistent: at most 64 locations, one room and one
    /// pair of relation sets per location, every room well formed, and
    /// every related location in range.
    pub open spec fn wf(self) -> bool {
        &&& self.next_id <= 64
        &&& self.vertices@.len() == self.next_id as int
        &&& self.neighbors@.len() == self.next_id as int
        &&& self.toggle_neighbors@.len() == self.next_id as int
        &&& forall|i: int| 0 <= i < self.next_id as int ==> (#[trigger] self.vertices@[i]).wf()
        &&& forall|i: int, j: u64|
            0 <= i < self.next_id as int && (#[trigger] self.neighbors@[i].has(j)) ==> j
                < self.next_id as u64
    }

    /// The graph is ready to be searched: consistent, with entrance and
    /// exit chosen.
    pub open spec fn ready(self) -> bool {
        self.wf() && (self.entrance as int) < self.next_id as int && (self.exit as int)
            < self.next_id as int
    }

    /// An empty level.
    pub fn new() -> (r: Self)
        ensures
            r.next_id == 0,
            r.vertices@.len() == 0,
            r.neighbors@.len() == 0,
            r.toggle_neighbors@.len() == 0,
            r.use_edge == false,
            r.current_vertex_id == LOCATION_NONE,
            r.entrance == LOCATION_NONE,
            r.exit == LOCATION_NONE,
            r.wf(),
    {
        Level {
            next_id: 0,
            neighbors: Vec::new(),
            toggle_neighbors: Vec::new(),
            use_edge: false,
            current_vertex_id: LOCATION_NONE,
            vertices: Vec::new(),
            entrance: LOCATION_NONE,
            exit: LOCATION_NONE,
        }
    }

    /// Choose whether future links are added in both directions.
    pub fn set_use_edge(&mut self, use_edge: bool)
        ensures
            *final(self) == (Level { use_edge, ..*old(self) }),
    {
        self.use_edge = use_edge;
    }

    /// Select the location that the next link starts from.
    pub fn select_id(&mut self, id: u8)
        ensures
            *final(self) == (Level { current_vertex_id: id, ..*old(self) }),
    {
        self.current_vertex_id = id;
    }

    /// Add a location and select it.  Its identifier is the previous
    /// location count.
    pub fn select_room(&mut self, room: Room)
        requires
            old(self).wf(),
            old(self).next_id < 64,
            room.wf(),
    ensures
            final(self).next_id == old(self).next_id + 1,
            final(self).current_vertex_id == old(self).next_id,
            final(self).vertices@ == old(self).vertices@.push(room),
            final(self).neighbors@.len() == old(self).neighbors@.len() + 1,
            final(self).toggle_neighbors@.len() == old(self).toggle_neighbors@.len() + 1,
            forall|i: int|
                0 <= i < old(self).next_id as int ==> final(self).neighbors@[i] == old(
                    self,
                ).neighbors@[i] && final(self).toggle_neighbors@[i] == old(self).toggle_neighbors@[i],
            final(self).neighbors@[old(self).next_id as int].bits == 0u64,
            final(self).toggle_neighbors@[old(self).next_id as int].bits == 0u64,
            final(self).use_edge == old(self).use_edge,
            final(self).entrance == old(self).entrance,
            final(self).exit == old(self).exit,
            final(self).wf(),
    {
        self.current_vertex_id = self.next_id;
        self.next_id = self.next_id + 1;
        self.vertices.push(room);
        self.neighbors.push(LocationSet::new());
        self.toggle_neighbors.push(LocationSet::new());
    }

    /// Link `id0` to `id1`, if both exist.
    pub fn add_arc(&mut self, id0: u8, id1: u8)
        requires
            old(self).wf(),
        ensures
            final(self).wf(),
            id0 < old(self).next_id && id1 < old(self).next_id ==> final(self).neighbors@ == old(
                self,
            ).neighbors@.update(
                id0 as int,
                LocationSet { bits: old(self).neighbors@[id0 as int].bits | (1u64 << (id1 as u64)) },
            ),
            !(id0 < old(self).next_id && id1 < old(self).next_id) ==> final(self).neighbors@ == old(
                self,
            ).neighbors@,
            forall|i: int, j: u64|
                0 <= i < old(self).neighbors@.len() ==> (#[trigger] final(self).neighbors@[i].has(
                    j,
                )) == (old(self).neighbors@[i].has(j) || (i == id0 as int && j == id1 as u64 && id0
                    < old(self).next_id && id1 < old(self).next_id)),
            final(self).vertices@ == old(self).vertices@,
            final(self).toggle_neighbors@ == old(self).toggle_neighbors@,
            final(self).next_id == old(self).next_id,
            final(self).current_vertex_id == old(self).current_vertex_id,
            final(self).use_edge == old(self).use_edge,
            final(self).entrance == old(self).entrance,
            final(self).exit == old(self).exit,
    {
        if id0 < self.next_id && id1 < self.next_id {
            let mut s = self.neighbors[id0 as usize];
            s.set_bit(id1, true);
            self.neighbors.set(id0 as usize, s);
        }
    }

    /// Record that entering `id0` makes `id1` unreachable, if both exist.
    pub fn add_toggle(&mut self, id0: u8, id1: u8)
        requires
            old(self).wf(),
        ensures
            final(self).wf(),
            id0 < old(self).next_id && id1 < old(self).next_id ==> final(self).toggle_neighbors@
                == old(self).toggle_neighbors@.update(
                id0 as int,
                LocationSet {
                    bits: old(self).toggle_neighbors@[id0 as int].bits | (1u64 << (id1 as u64)),
                },
            ),
            !(id0 < old(self).next_id && id1 < old(self).next_id) ==> final(self).toggle_neighbors@
                == old(self).toggle_neighbors@,
            final(self).vertices@ == old(self).vertices@,
            final(self).neighbors@ == old(self).neighbors@,
            final(self).next_id == old(self).next_id,
            final(self).current_vertex_id == old(self).current_vertex_id,
            final(self).use_edge == old(self).use_edge,
            final(self).entrance == old(self).entrance,
            final(self).exit == old(self).exit,
    {
        if id0 < self.next_id && id1 < self.next_id {
            let mut s = self.toggle_neighbors[id0 as usize];
            s.set_bit(id1, true);
            self.toggle_neighbors.set(id0 as usize, s);
        }
    }

    /// Link the selected location to `id` and select `id`.
    pub fn add_id(&mut self, id: u8)
        requires
            old(self).wf(),
        ensures
            final(self).wf(),
            final(self).next_id == old(self).next_id,
            final(self).current_vertex_id == id,
            final(self).vertices@ == old(self).vertices@,
            final(self).entrance == old(self).entrance,
            final(self).exit == old(self).exit,
    {
        let id0 = self.current_vertex_id;
        self.select_id(id);
        if self.use_edge {
            self.add_arc(id, id0);
        }
        self.add_arc(id0, id);
    }

    /// Add a location, link it to the selected location, and select it.
    pub fn add_room(&mut self, room: Room) -> (new_id: u8)
        requires
            old(self).wf(),
            old(self).next_id < 64,
            room.wf(),
        ensures
            final(self).wf(),
            new_id == old(self).next_id,
            final(self).next_id == old(self).next_id + 1,
            final(self).current_vertex_id == new_id,
            final(self).vertices@ == old(self).vertices@.push(room),
            final(self).entrance == old(self).entrance,
            final(self).exit == old(self).exit,
    {
        let id0 = self.current_vertex_id;
        self.select_room(room);
        let id1 = self.current_vertex_id;
        if self.use_edge {
            self.add_arc(id1, id0);
        }
        self.add_arc(id0, id1);
        id1
    }

    /// The location with identifier `id`.
    pub fn vertex_of_id(&self, id: u8) -> (r: &Room)
        requires
            self.wf(),
            id < self.next_id,
        ensures
            *r == self.vertices@[id as int],
    {
        &self.vertices[id as usize]
    }

    /// The location with identifier `room_id`.
    pub fn vertex(&self, room_id: u8) -> (r: &Room)
        requires
            self.wf(),
            room_id < self.next_id,
        ensures
            *r == self.vertices@[room_id as int],
    {
        &self.vertices[room_id as usize]
    }

    /// Declare where every traversal starts.
    pub fn set_entrance_id(&mut self, id: u8)
        ensures
            *final(self) == (Level { entrance: id, ..*old(self) }),
    {
        self.entrance = id;
    }

    /// Declare the terminal location.
    pub fn set_exit_id(&mut self, id: u8)
        ensures
            *final(self) == (Level { exit: id, ..*old(self) }),
    {
        self.exit = id;
    }

    /// Check at run time that the graph is ready to be searched.
    pub fn is_ready(&self) -> (r: bool)
        requires
            self.wf(),
        ensures
            r == self.ready(),
    {
        self.entrance < self.next_id && self.exit < self.next_id
    }
}

} // verus!
