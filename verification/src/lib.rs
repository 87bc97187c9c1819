//! A verified search engine for highest-scoring complete traversals of a
//! small location graph, where transition outcomes depend on an accumulated,
//! partially ordered player state.
//!
//! The data model lives in [`stat`] (player statistics and their dominance
//! order), [`bitset`] (location sets), [`room`] (the room oracle), and
//! [`level`] (the graph).  The engine lives in [`state`] (one search state
//! per visited set), [`pareto`] (trackers of terminal outcomes), [`gc`]
//! (ghost bookkeeping for reclamation), and [`search`] (the solver).

pub mod arith;
pub mod bitset;
pub mod gc;
pub mod level;
pub mod pareto;
pub mod room;
pub mod route;
pub mod search;
pub mod stat;
pub mod state;
