//! Sets of location identifiers, packed into one machine word.
//!
//! A level holds at most 64 locations, so a set of locations fits in a
//! `u64` with one bit per location.  The search keys its stores by the
//! packed word, and all contracts describe membership through [`LocationSet::has`].

use vstd::prelude::*;

verus! {

/// A set of location identifiers, one bit per location, for up to 64 locations.
#[derive(Clone, Copy, PartialEq, Eq, Structural, Debug)]
pub struct LocationSet {
    pub bits: u64,
}

impl LocationSet {
    /// Membership of location `i` in the set.
    pub open spec fn has(self, i: u64) -> bool {
        i < 64 && (self.bits >> i) & 1u64 == 1u64
    }

    /// The empty set.
    pub fn new() -> (r: Self)
        ensures
            r.bits == 0u64,
            forall|j: u64| !r.has(j),
    {
        let r = LocationSet { bits: 0 };
        proof {
            assert(forall|j: u64| j < 64 ==> (0u64 >> j) & 1u64 == 0u64) by (bit_vector);
        }
        r
    }

    /// Set or clear the bit for location `i`.
    pub fn set_bit(&mut self, i: u8, val: bool)
        requires
            i < 64,
        ensures
            val ==> final(self).bits == old(self).bits | (1u64 << (i as u64)),
            !val ==> final(self).bits == old(self).bits & !(1u64 << (i as u64)),
            forall|j: u64|
                final(self).has(j) == (if j == i as u64 {
                    val
                } else {
                    old(self).has(j)
                }),
            !val && old(self).has(i as u64) ==> final(self).bits < old(self).bits,
            val ==> final(self).bits >= old(self).bits,
    {
        let b = self.bits;
        let iw = i as u64;
        if val {
            self.bits = b | (1u64 << iw);
            proof {
                assert(forall|j: u64| j < 64 && iw < 64 ==> #[trigger] (((b | (1u64 << iw)) >> j)
                    & 1u64) == (if j == iw { 1u64 } else { (b >> j) & 1u64 })) by (bit_vector);
                assert((b | (1u64 << iw)) >= b) by (bit_vector);
                assert(forall|j: u64| ((b >> j) & 1u64 == 1u64 || (b >> j) & 1u64 == 0u64))
                    by (bit_vector);
                assert(forall|j: u64| (((b | (1u64 << iw)) >> j) & 1u64 == 1u64 || ((b | (1u64
                    << iw)) >> j) & 1u64 == 0u64)) by (bit_vector);
            }
        } else {
            self.bits = b & !(1u64 << iw);
            proof {
                assert(forall|j: u64| j < 64 && iw < 64 ==> #[trigger] (((b & !(1u64 << iw)) >> j)
                    & 1u64) == (if j == iw { 0u64 } else { (b >> j) & 1u64 })) by (bit_vector);
                assert(iw < 64 && (b >> iw) & 1u64 == 1u64 ==> (b & !(1u64 << iw)) < b)
                    by (bit_vector);
                assert((b & !(1u64 << iw)) <= b) by (bit_vector);
            }
        }
    }

    /// Test the bit for location `i`.
    pub fn get_bit(&self, i: u8) -> (r: bool)
        requires
            i < 64,
        ensures
            r == self.has(i as u64),
    {
        let b = self.bits;
        let iw = i as u64;
        proof {
            assert(((b >> iw) & 1u64 == 1u64) || ((b >> iw) & 1u64 == 0u64)) by (bit_vector);
        }
        (b >> iw) & 1u64 == 1u64
    }

    /// Add every member of `other` to this set.
    pub fn or_assign(&mut self, other: &Self)
        ensures
            final(self).bits == old(self).bits | other.bits,
            forall|j: u64| final(self).has(j) == (old(self).has(j) || other.has(j)),
    {
        let a = self.bits;
        let b = other.bits;
        self.bits = a | b;
        proof {
            assert(forall|j: u64| (((a | b) >> j) & 1u64 == 1u64) == (((a >> j) & 1u64 == 1u64)
                || ((b >> j) & 1u64 == 1u64))) by (bit_vector);
        }
    }

    /// Remove every member of `other` from this set.
    pub fn and_not_assign(&mut self, other: &Self)
        ensures
            final(self).bits == old(self).bits & !other.bits,
            forall|j: u64| final(self).has(j) == (old(self).has(j) && !other.has(j)),
    {
        let a = self.bits;
        let b = other.bits;
        self.bits = a & !b;
        proof {
            assert(forall|j: u64| (((a & !b) >> j) & 1u64 == 1u64) == (((a >> j) & 1u64 == 1u64)
                && !((b >> j) & 1u64 == 1u64))) by (bit_vector);
        }
    }

    /// Whether the set has no members.
    pub fn is_empty(&self) -> (r: bool)
        ensures
            r == (self.bits == 0u64),
            r ==> forall|j: u64| !self.has(j),
    {
        let b = self.bits;
        proof {
            assert(forall|j: u64| j < 64 ==> (0u64 >> j) & 1u64 == 0u64) by (bit_vector);
        }
        b == 0
    }

    /// Membership in a word of the shape `((v | a) & !t) & !w`: the union
    /// of `v` and `a` minus `t` and minus `w`, read bit by bit.
    pub proof fn lemma_union_minus_minus(v: u64, a: u64, t: u64, w: u64, j: u64)
        ensures
            (((((v | a) & !t) & !w) >> j) & 1u64 == 1u64) == ((((v >> j) & 1u64 == 1u64) || ((a
                >> j) & 1u64 == 1u64)) && !((t >> j) & 1u64 == 1u64) && !((w >> j) & 1u64
                == 1u64)),
    {
        assert((((((v | a) & !t) & !w) >> j) & 1u64 == 1u64) == ((((v >> j) & 1u64 == 1u64) || ((a
            >> j) & 1u64 == 1u64)) && !((t >> j) & 1u64 == 1u64) && !((w >> j) & 1u64 == 1u64)))
            by (bit_vector);
    }

    /// The least member of a nonempty set.
    pub fn first_set(&self) -> (r: u8)
        requires
            self.bits != 0u64,
        ensures
            r < 64,
            self.has(r as u64),
            forall|j: u64| j < r as u64 ==> !self.has(j),
    {
        let b = self.bits;
        proof {
            assert(b & !(0xffff_ffff_ffff_ffffu64 << 0u64) == 0u64) by (bit_vector);
        }
        let mut i: u8 = 0;
        while i < 63
            invariant
                i < 64,
                b == self.bits,
                b & !(0xffff_ffff_ffff_ffffu64 << (i as u64)) == 0u64,
            decreases 64 - i as int,
        {
            let iw = i as u64;
            if self.get_bit(i) {
                proof {
                    assert(forall|j: u64| j < iw ==> (b >> j) & 1u64 == 0u64) by (bit_vector)
                        requires
                            iw < 64,
                            b & !(0xffff_ffff_ffff_ffffu64 << iw) == 0u64,
                    ;
                }
                return i;
            }
            proof {
                assert(b & !(0xffff_ffff_ffff_ffffu64 << (iw + 1)) == 0u64) by (bit_vector)
                    requires
                        iw < 63,
                        b & !(0xffff_ffff_ffff_ffffu64 << iw) == 0u64,
                        (b >> iw) & 1u64 != 1u64,
                ;
            }
            i = i + 1;
        }
        proof {
            assert((b >> 63) & 1u64 == 1u64 && (forall|j: u64| j < 63 ==> (b >> j) & 1u64 == 0u64))
                by (bit_vector)
                requires
                    b != 0u64,
                    b & !(0xffff_ffff_ffff_ffffu64 << 63u64) == 0u64,
            ;
        }
        63
    }
}

} // verus!
