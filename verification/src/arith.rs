//! Saturating arithmetic on player statistics.
//!
//! Every numeric component of a player or room statistic is kept inside
//! `[-STAT_LIMIT, STAT_LIMIT]`.  All arithmetic on statistics saturates at
//! those bounds, so no sequence of transitions can overflow a machine
//! integer.  The limit is far beyond any value a real level produces, so
//! saturation never fires on meaningful inputs; it only pins down a total,
//! machine-checkable semantics for the extremes.

use vstd::prelude::*;

verus! {

/// Largest magnitude a statistic component may take.
pub const STAT_LIMIT: i64 = 0x2000_0000_0000_0000;

/// A value that lies within the statistic range.
pub open spec fn bounded(x: int) -> bool {
    -(STAT_LIMIT as int) <= x <= STAT_LIMIT as int
}

/// Clamp an unbounded mathematical value into the statistic range.
pub open spec fn clip(x: int) -> int {
    if x > STAT_LIMIT as int {
        STAT_LIMIT as int
    } else if x < -(STAT_LIMIT as int) {
        -(STAT_LIMIT as int)
    } else {
        x
    }
}

/// Saturating sum of two statistic components.
pub open spec fn sat_add_spec(a: int, b: int) -> int {
    clip(a + b)
}

/// Saturating product of two statistic components.
pub open spec fn sat_mul_spec(a: int, b: int) -> int {
    clip(a * b)
}

pub fn sat_add(a: i64, b: i64) -> (r: i64)
    requires
        bounded(a as int),
        bounded(b as int),
    ensures
        r as int == sat_add_spec(a as int, b as int),
        bounded(r as int),
{
    let s: i64 = a + b;
    if s > STAT_LIMIT {
        STAT_LIMIT
    } else if s < -STAT_LIMIT {
        -STAT_LIMIT
    } else {
        s
    }
}

/// Clamp an arbitrary machine value into the statistic range.
pub fn sat_clamp(a: i64) -> (r: i64)
    ensures
        r as int == clip(a as int),
        bounded(r as int),
{
    if a > STAT_LIMIT {
        STAT_LIMIT
    } else if a < -STAT_LIMIT {
        -STAT_LIMIT
    } else {
        a
    }
}

pub fn sat_mul(a: i64, b: i64) -> (r: i64)
    requires
        bounded(a as int),
        bounded(b as int),
    ensures
        r as int == sat_mul_spec(a as int, b as int),
        bounded(r as int),
{
    proof {
        assert((a as int) * (b as int) <= (STAT_LIMIT as int) * (STAT_LIMIT as int)
            && (a as int) * (b as int) >= -((STAT_LIMIT as int) * (STAT_LIMIT as int)))
            by (nonlinear_arith)
            requires
                bounded(a as int),
                bounded(b as int),
        ;
    }
    let p: i128 = (a as i128) * (b as i128);
    if p > STAT_LIMIT as i128 {
        STAT_LIMIT
    } else if p < -(STAT_LIMIT as i128) {
        -STAT_LIMIT
    } else {
        p as i64
    }
}

} // verus!
