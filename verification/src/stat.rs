//! Player statistics, their dominance order, and probe results.
//!
//! A [`PlayerStat`] is the full accumulated state of a traversal: health,
//! combat values, equipment, behavior flags, gold, and key counts.  It is
//! equipped with the dominance relation [`PlayerStat::spec_ge`]: one stat
//! dominates another when every numeric component is at least as large and
//! every flag of the other is also set.  Dominance is a partial order and
//! gates every transition of the search.
//!
//! A [`StatDiff`] is the change a transition applies; a [`ProbeStat`] is the
//! full outcome of probing a location: the change, the minimum stat required
//! to attempt it, and how much damage (resource loss) it causes.

use crate::arith::{bounded, sat_add, sat_add_spec, sat_mul, sat_mul_spec, STAT_LIMIT};
use vstd::prelude::*;

verus! {

/// Flag marking a player that cannot win a fight; requirements carrying it
/// are never dominated, so the transition is never eligible.
pub const FLAG_DEAD: u8 = 0x1;

/// The player carries a weapon.
pub const FLAG_HAS_WEAPON: u8 = 0x2;

/// The weapon doubles gold gained from fights.
pub const FLAG_DOUBLE_GR_WEAPON: u8 = 0x4;

/// Attack is doubled against goblin-class monsters.
pub const FLAG_DOUBLE_ATK_AGAINST_GOBLIN: u8 = 0x8;

/// Attack is doubled against wyrm-class monsters.
pub const FLAG_DOUBLE_ATK_AGAINST_WYRM: u8 = 0x10;

/// Flags that belong to the weapon slot.
pub const FLAG_WEAPON_MASK: u8 = FLAG_HAS_WEAPON | FLAG_DOUBLE_GR_WEAPON
    | FLAG_DOUBLE_ATK_AGAINST_GOBLIN | FLAG_DOUBLE_ATK_AGAINST_WYRM;

/// Flags that belong to the shield slot.
pub const FLAG_SHIELD_MASK: u8 = 0x0;

/// Flags that belong to the accessory slot.
pub const FLAG_ACCESSORY_MASK: u8 = 0x0;

/// Whether every flag of `b` is also set in `a`.
pub open spec fn flag_contains(a: u8, b: u8) -> bool {
    a & b == b
}

/// Flag containment holds of any flag word and itself.
pub proof fn lemma_flag_contains_reflexive(a: u8)
    ensures
        flag_contains(a, a),
{
    assert(a & a == a) by (bit_vector);
}

/// Two flag words that contain each other are equal.
pub proof fn lemma_flag_contains_antisymmetric(a: u8, b: u8)
    requires
        flag_contains(a, b),
        flag_contains(b, a),
    ensures
        a == b,
{
    assert(a & b == b && b & a == a ==> a == b) by (bit_vector);
}

/// Flag containment is transitive.
pub proof fn lemma_flag_contains_transitive(a: u8, b: u8, c: u8)
    requires
        flag_contains(a, b),
        flag_contains(b, c),
    ensures
        flag_contains(a, c),
{
    assert(a & b == b && b & c == c ==> a & c == c) by (bit_vector);
}

/// Statistics granted by currently worn equipment.
#[derive(Clone, Copy, Debug, PartialEq, Eq, Structural)]
pub struct EquipStat {
    pub flag: u8,
    pub atk: i64,
    pub def: i64,
}

impl EquipStat {
    /// All numeric components lie in the statistic range.
    pub open spec fn wf(self) -> bool {
        bounded(self.atk as int) && bounded(self.def as int)
    }

    /// Dominance on equipment statistics.
    pub open spec fn spec_ge(self, other: Self) -> bool {
        flag_contains(self.flag, other.flag) && self.atk >= other.atk && self.def >= other.def
    }

    /// Componentwise maximum, with flags united.
    pub open spec fn spec_join(self, other: Self) -> Self {
        EquipStat {
            flag: self.flag | other.flag,
            atk: if self.atk >= other.atk {
                self.atk
            } else {
                other.atk
            },
            def: if self.def >= other.def {
                self.def
            } else {
                other.def
            },
        }
    }

    /// Saturating componentwise sum, with flags toggled.
    pub open spec fn spec_plus(self, other: Self) -> Self {
        EquipStat {
            flag: self.flag ^ other.flag,
            atk: sat_add_spec(self.atk as int, other.atk as int) as i64,
            def: sat_add_spec(self.def as int, other.def as int) as i64,
        }
    }

    /// Saturating componentwise difference, with flags toggled.
    pub open spec fn spec_minus(self, other: Self) -> Self {
        EquipStat {
            flag: self.flag ^ other.flag,
            atk: sat_add_spec(self.atk as int, -other.atk as int) as i64,
            def: sat_add_spec(self.def as int, -other.def as int) as i64,
        }
    }

    /// The zero equipment statistic.
    pub fn zero() -> (r: Self)
        ensures
            r == (EquipStat { flag: 0u8, atk: 0i64, def: 0i64 }),
    {
        EquipStat { flag: 0, atk: 0, def: 0 }
    }

    /// Whether no component is negative.
    pub fn nonnegative(&self) -> (r: bool)
        ensures
            r == (self.atk >= 0 && self.def >= 0),
    {
        self.atk >= 0 && self.def >= 0
    }

    /// Check at run time that every component lies in the statistic range.
    pub fn in_range(&self) -> (r: bool)
        ensures
            r == self.wf(),
    {
        -STAT_LIMIT <= self.atk && self.atk <= STAT_LIMIT && -STAT_LIMIT <= self.def && self.def
            <= STAT_LIMIT
    }

    /// Raise this statistic to its join with `other`.
    pub fn join(&mut self, other: &Self)
        ensures
            *final(self) == old(self).spec_join(*other),
    {
        self.flag = self.flag | other.flag;
        if other.atk > self.atk {
            self.atk = other.atk;
        }
        if other.def > self.def {
            self.def = other.def;
        }
    }

    /// Decide dominance over `other`.
    pub fn ge(&self, other: &Self) -> (r: bool)
        ensures
            r == self.spec_ge(*other),
    {
        (self.flag & other.flag) == other.flag && self.atk >= other.atk && self.def >= other.def
    }

    /// Add `other`, saturating each component.
    pub fn add_assign(&mut self, other: &Self)
        requires
            old(self).wf(),
            other.wf(),
        ensures
            *final(self) == old(self).spec_plus(*other),
            final(self).wf(),
    {
        self.flag = self.flag ^ other.flag;
        self.atk = sat_add(self.atk, other.atk);
        self.def = sat_add(self.def, other.def);
    }

    /// Subtract `other`, saturating each component.
    pub fn sub(&self, other: &Self) -> (r: Self)
        requires
            self.wf(),
            other.wf(),
        ensures
            r == self.spec_minus(*other),
            r.wf(),
    {
        EquipStat {
            flag: self.flag ^ other.flag,
            atk: sat_add(self.atk, -other.atk),
            def: sat_add(self.def, -other.def),
        }
    }
}

/// The combat-relevant part of a player statistic: the key of the probe
/// cache, since only these components influence probe outcomes.
#[derive(Clone, Copy, Debug, PartialEq, Eq, Structural)]
pub struct PlayerCombat {
    pub flag: u8,
    pub atk: i64,
    pub def: i64,
    pub equip: EquipStat,
}

impl PlayerCombat {
    /// All numeric components lie in the statistic range.
    pub open spec fn wf(self) -> bool {
        bounded(self.atk as int) && bounded(self.def as int) && self.equip.wf()
    }

    /// Dominance on combat statistics.
    pub open spec fn spec_ge(self, other: Self) -> bool {
        flag_contains(self.flag, other.flag) && self.atk >= other.atk && self.def >= other.def
            && self.equip.spec_ge(other.equip)
    }

    /// Componentwise maximum, with flags united.
    pub open spec fn spec_join(self, other: Self) -> Self {
        PlayerCombat {
            flag: self.flag | other.flag,
            atk: if self.atk >= other.atk {
                self.atk
            } else {
                other.atk
            },
            def: if self.def >= other.def {
                self.def
            } else {
                other.def
            },
            equip: self.equip.spec_join(other.equip),
        }
    }

    /// Saturating componentwise sum, with flags toggled.
    pub open spec fn spec_plus(self, other: Self) -> Self {
        PlayerCombat {
            flag: self.flag ^ other.flag,
            atk: sat_add_spec(self.atk as int, other.atk as int) as i64,
            def: sat_add_spec(self.def as int, other.def as int) as i64,
            equip: self.equip.spec_plus(other.equip),
        }
    }

    /// Saturating componentwise difference, with flags toggled.
    pub open spec fn spec_minus(self, other: Self) -> Self {
        PlayerCombat {
            flag: self.flag ^ other.flag,
            atk: sat_add_spec(self.atk as int, -other.atk as int) as i64,
            def: sat_add_spec(self.def as int, -other.def as int) as i64,
            equip: self.equip.spec_minus(other.equip),
        }
    }

    /// The zero combat statistic.
    pub fn zero() -> (r: Self)
        ensures
            r == (PlayerCombat { flag: 0u8, atk: 0i64, def: 0i64, equip: EquipStat {
                flag: 0u8,
                atk: 0i64,
                def: 0i64,
            } }),
    {
        PlayerCombat { flag: 0, atk: 0, def: 0, equip: EquipStat::zero() }
    }

    /// A combat statistic with the given attack and defense and nothing else.
    pub fn with_stat(atk: i64, def: i64) -> (r: Self)
        ensures
            r == (PlayerCombat { flag: 0u8, atk: atk, def: def, equip: EquipStat {
                flag: 0u8,
                atk: 0i64,
                def: 0i64,
            } }),
    {
        PlayerCombat { flag: 0, atk, def, equip: EquipStat::zero() }
    }

    /// Whether no component is negative.
    pub fn nonnegative(&self) -> (r: bool)
        ensures
            r == (self.atk >= 0 && self.def >= 0 && self.equip.atk >= 0 && self.equip.def >= 0),
    {
        self.atk >= 0 && self.def >= 0 && self.equip.atk >= 0 && self.equip.def >= 0
    }

    /// Check at run time that every component lies in the statistic range.
    pub fn in_range(&self) -> (r: bool)
        ensures
            r == self.wf(),
    {
        -STAT_LIMIT <= self.atk && self.atk <= STAT_LIMIT && -STAT_LIMIT <= self.def && self.def
            <= STAT_LIMIT && self.equip.in_range()
    }

    /// Raise this statistic to its join with `other`.
    pub fn join(&mut self, other: &Self)
        ensures
            *final(self) == old(self).spec_join(*other),
    {
        self.flag = self.flag | other.flag;
        if other.atk > self.atk {
            self.atk = other.atk;
        }
        if other.def > self.def {
            self.def = other.def;
        }
        self.equip.join(&other.equip);
    }

    /// Decide dominance over `other`.
    pub fn ge(&self, other: &Self) -> (r: bool)
        ensures
            r == self.spec_ge(*other),
    {
        (self.flag & other.flag) == other.flag && self.atk >= other.atk && self.def >= other.def
            && self.equip.ge(&other.equip)
    }

    /// Add `other`, saturating each component.
    pub fn add_assign(&mut self, other: &Self)
        requires
            old(self).wf(),
            other.wf(),
        ensures
            *final(self) == old(self).spec_plus(*other),
            final(self).wf(),
    {
        self.flag = self.flag ^ other.flag;
        self.atk = sat_add(self.atk, other.atk);
        self.def = sat_add(self.def, other.def);
        self.equip.add_assign(&other.equip);
    }

    /// Subtract `other`, saturating each component.
    pub fn sub(&self, other: &Self) -> (r: Self)
        requires
            self.wf(),
            other.wf(),
        ensures
            r == self.spec_minus(*other),
            r.wf(),
    {
        PlayerCombat {
            flag: self.flag ^ other.flag,
            atk: sat_add(self.atk, -other.atk),
            def: sat_add(self.def, -other.def),
            equip: self.equip.sub(&other.equip),
        }
    }
}

/// The single scalar by which arrivals at an already-known visited set are
/// compared: health alone, a deliberate narrowing of full dominance.
#[derive(Clone, Copy, Debug, PartialEq, Eq, Structural)]
pub struct PlayerObjective {
    pub hp: i64,
}

impl PlayerObjective {
    /// Order on objectives.
    pub fn ge(&self, other: &Self) -> (r: bool)
        ensures
            r == (self.hp >= other.hp),
    {
        self.hp >= other.hp
    }
}

/// The full accumulated player statistic.  Health is stored shifted down by
/// one, so a stored value of zero is still alive.
#[derive(Clone, Copy, Debug, PartialEq, Eq, Structural)]
pub struct PlayerStat {
    pub hp: i64,
    pub combat: PlayerCombat,
    pub gr: i64,
    pub yk: i64,
    pub gk: i64,
    pub bk: i64,
}

impl PlayerStat {
    /// All numeric components lie in the statistic range.
    pub open spec fn wf(self) -> bool {
        bounded(self.hp as int) && self.combat.wf() && bounded(self.gr as int) && bounded(
            self.yk as int,
        ) && bounded(self.gk as int) && bounded(self.bk as int)
    }

    /// The dominance relation: every numeric component at least as large,
    /// every flag of `other` also set.
    pub open spec fn spec_ge(self, other: Self) -> bool {
        self.hp >= other.hp && self.combat.spec_ge(other.combat) && self.gr >= other.gr && self.yk
            >= other.yk && self.gk >= other.gk && self.bk >= other.bk
    }

    /// Componentwise maximum, with flags united.
    pub open spec fn spec_join(self, other: Self) -> Self {
        PlayerStat {
            hp: if self.hp >= other.hp {
                self.hp
            } else {
                other.hp
            },
            combat: self.combat.spec_join(other.combat),
            gr: if self.gr >= other.gr {
                self.gr
            } else {
                other.gr
            },
            yk: if self.yk >= other.yk {
                self.yk
            } else {
                other.yk
            },
            gk: if self.gk >= other.gk {
                self.gk
            } else {
                other.gk
            },
            bk: if self.bk >= other.bk {
                self.bk
            } else {
                other.bk
            },
        }
    }

    /// The result of applying the change `d`, saturating each component.
    pub open spec fn spec_plus(self, d: StatDiff) -> Self {
        PlayerStat {
            hp: sat_add_spec(self.hp as int, d.hp as int) as i64,
            combat: self.combat.spec_plus(d.combat),
            gr: sat_add_spec(self.gr as int, d.gr as int) as i64,
            yk: sat_add_spec(self.yk as int, d.yk as int) as i64,
            gk: sat_add_spec(self.gk as int, d.gk as int) as i64,
            bk: sat_add_spec(self.bk as int, d.bk as int) as i64,
        }
    }

    /// The result of undoing the change `d`, saturating each component.
    pub open spec fn spec_minus(self, d: StatDiff) -> Self {
        PlayerStat {
            hp: sat_add_spec(self.hp as int, -d.hp as int) as i64,
            combat: self.combat.spec_minus(d.combat),
            gr: sat_add_spec(self.gr as int, -d.gr as int) as i64,
            yk: sat_add_spec(self.yk as int, -d.yk as int) as i64,
            gk: sat_add_spec(self.gk as int, -d.gk as int) as i64,
            bk: sat_add_spec(self.bk as int, -d.bk as int) as i64,
        }
    }

    /// The score of a terminal outcome, scaled by 1000, computed with
    /// saturating arithmetic.
    pub open spec fn spec_score(self) -> int {
        sat_add_spec(
            sat_mul_spec(sat_add_spec(self.hp as int, 1), 25),
            sat_mul_spec(
                sat_add_spec(
                    sat_add_spec(
                        sat_add_spec(
                            sat_add_spec(
                                sat_mul_spec(self.combat.atk as int, 5),
                                sat_mul_spec(self.combat.def as int, 3),
                            ),
                            sat_mul_spec(self.yk as int, 10),
                        ),
                        sat_mul_spec(self.gk as int, 20),
                    ),
                    sat_mul_spec(self.bk as int, 30),
                ),
                1000,
            ),
        )
    }

    /// The zero statistic.
    pub fn zero() -> (r: Self)
        ensures
            r == (PlayerStat {
                hp: 0i64,
                combat: PlayerCombat { flag: 0u8, atk: 0i64, def: 0i64, equip: EquipStat {
                    flag: 0u8,
                    atk: 0i64,
                    def: 0i64,
                } },
                gr: 0i64,
                yk: 0i64,
                gk: 0i64,
                bk: 0i64,
            }),
            r.wf(),
    {
        PlayerStat { hp: 0, combat: PlayerCombat::zero(), gr: 0, yk: 0, gk: 0, bk: 0 }
    }

    /// A statistic with the given health, attack and defense.  The stored
    /// health is one less than the given value, so zero is still alive.
    pub fn with_stat(hp: i64, atk: i64, def: i64) -> (r: Self)
        requires
            bounded(hp as int),
            bounded(atk as int),
            bounded(def as int),
        ensures
            r.hp as int == sat_add_spec(hp as int, -1),
            r.combat == (PlayerCombat { flag: 0u8, atk: atk, def: def, equip: EquipStat {
                flag: 0u8,
                atk: 0i64,
                def: 0i64,
            } }),
            r.gr == 0 && r.yk == 0 && r.gk == 0 && r.bk == 0,
            r.wf(),
    {
        PlayerStat {
            hp: sat_add(hp, -1),
            combat: PlayerCombat::with_stat(atk, def),
            gr: 0,
            yk: 0,
            gk: 0,
            bk: 0,
        }
    }

    /// Whether no numeric component is negative.
    pub fn nonnegative(&self) -> (r: bool)
        ensures
            r == (self.hp >= 0 && self.combat.atk >= 0 && self.combat.def >= 0 && self.combat.equip.atk
                >= 0 && self.combat.equip.def >= 0 && self.gr >= 0 && self.yk >= 0 && self.gk >= 0
                && self.bk >= 0),
    {
        self.hp >= 0 && self.combat.nonnegative() && self.gr >= 0 && self.yk >= 0 && self.gk >= 0
            && self.bk >= 0
    }

    /// Raise this statistic to its join with `other`.
    pub fn join(&mut self, other: &Self)
        ensures
            *final(self) == old(self).spec_join(*other),
    {
        if other.hp > self.hp {
            self.hp = other.hp;
        }
        self.combat.join(&other.combat);
        if other.gr > self.gr {
            self.gr = other.gr;
        }
        if other.yk > self.yk {
            self.yk = other.yk;
        }
        if other.gk > self.gk {
            self.gk = other.gk;
        }
        if other.bk > self.bk {
            self.bk = other.bk;
        }
    }

    /// Check at run time that every component lies in the statistic range.
    pub fn in_range(&self) -> (r: bool)
        ensures
            r == self.wf(),
    {
        -STAT_LIMIT <= self.hp && self.hp <= STAT_LIMIT && self.combat.in_range() && -STAT_LIMIT
            <= self.gr && self.gr <= STAT_LIMIT && -STAT_LIMIT <= self.yk && self.yk <= STAT_LIMIT
            && -STAT_LIMIT <= self.gk && self.gk <= STAT_LIMIT && -STAT_LIMIT <= self.bk && self.bk
            <= STAT_LIMIT
    }

    /// The scalar objective used to compare arrivals at one visited set.
    pub fn objective(&self) -> (r: PlayerObjective)
        ensures
            r.hp == self.hp,
    {
        PlayerObjective { hp: self.hp }
    }

    /// Decide dominance over `other`.
    pub fn ge(&self, other: &Self) -> (r: bool)
        ensures
            r == self.spec_ge(*other),
    {
        self.hp >= other.hp && self.combat.ge(&other.combat) && self.gr >= other.gr && self.yk
            >= other.yk && self.gk >= other.gk && self.bk >= other.bk
    }

    /// Apply the change `d`, saturating each component.
    pub fn add_assign(&mut self, d: &StatDiff)
        requires
            old(self).wf(),
            d.wf(),
        ensures
            *final(self) == old(self).spec_plus(*d),
            final(self).wf(),
    {
        self.hp = sat_add(self.hp, d.hp);
        self.combat.add_assign(&d.combat);
        self.gr = sat_add(self.gr, d.gr);
        self.yk = sat_add(self.yk, d.yk);
        self.gk = sat_add(self.gk, d.gk);
        self.bk = sat_add(self.bk, d.bk);
    }

    /// Undo the change `d`, saturating each component.
    pub fn sub(&self, d: &StatDiff) -> (r: Self)
        requires
            self.wf(),
            d.wf(),
        ensures
            r == self.spec_minus(*d),
            r.wf(),
    {
        PlayerStat {
            hp: sat_add(self.hp, -d.hp),
            combat: self.combat.sub(&d.combat),
            gr: sat_add(self.gr, -d.gr),
            yk: sat_add(self.yk, -d.yk),
            gk: sat_add(self.gk, -d.gk),
            bk: sat_add(self.bk, -d.bk),
        }
    }

    /// The score of this statistic as a terminal outcome.
    pub fn score(&self) -> (r: PlayerScore)
        requires
            self.wf(),
        ensures
            r.score as int == self.spec_score(),
    {
        let hp_part = sat_mul(sat_add(self.hp, 1), 25);
        let linear = sat_add(
            sat_add(
                sat_add(
                    sat_add(sat_mul(self.combat.atk, 5), sat_mul(self.combat.def, 3)),
                    sat_mul(self.yk, 10),
                ),
                sat_mul(self.gk, 20),
            ),
            sat_mul(self.bk, 30),
        );
        PlayerScore { score: sat_add(hp_part, sat_mul(linear, 1000)) }
    }
}

/// Dominance holds of any statistic and itself.
pub proof fn lemma_dominance_reflexive(a: PlayerStat)
    ensures
        a.spec_ge(a),
{
    lemma_flag_contains_reflexive(a.combat.flag);
    lemma_flag_contains_reflexive(a.combat.equip.flag);
}

/// Two statistics that dominate each other are componentwise equal.
pub proof fn lemma_dominance_antisymmetric(a: PlayerStat, b: PlayerStat)
    requires
        a.spec_ge(b),
        b.spec_ge(a),
    ensures
        a == b,
{
    lemma_flag_contains_antisymmetric(a.combat.flag, b.combat.flag);
    lemma_flag_contains_antisymmetric(a.combat.equip.flag, b.combat.equip.flag);
}

/// Dominance is transitive.
pub proof fn lemma_dominance_transitive(a: PlayerStat, b: PlayerStat, c: PlayerStat)
    requires
        a.spec_ge(b),
        b.spec_ge(c),
    ensures
        a.spec_ge(c),
{
    lemma_flag_contains_transitive(a.combat.flag, b.combat.flag, c.combat.flag);
    lemma_flag_contains_transitive(a.combat.equip.flag, b.combat.equip.flag, c.combat.equip.flag);
}

/// A larger operand gives a larger saturating product with a nonnegative
/// factor.
proof fn lemma_sat_mul_monotone(a: int, b: int, c: int)
    requires
        a >= b,
        c >= 0,
    ensures
        sat_mul_spec(a, c) >= sat_mul_spec(b, c),
{
    assert(a * c >= b * c) by (nonlinear_arith)
        requires
            a >= b,
            c >= 0,
    ;
}

/// Dominance orders scores: a statistic that dominates another scores at
/// least as much, since every score coefficient is nonnegative.
pub proof fn lemma_dominance_score_monotone(a: PlayerStat, b: PlayerStat)
    requires
        a.spec_ge(b),
    ensures
        a.spec_score() >= b.spec_score(),
{
    lemma_sat_mul_monotone(sat_add_spec(a.hp as int, 1), sat_add_spec(b.hp as int, 1), 25);
    lemma_sat_mul_monotone(a.combat.atk as int, b.combat.atk as int, 5);
    lemma_sat_mul_monotone(a.combat.def as int, b.combat.def as int, 3);
    lemma_sat_mul_monotone(a.yk as int, b.yk as int, 10);
    lemma_sat_mul_monotone(a.gk as int, b.gk as int, 20);
    lemma_sat_mul_monotone(a.bk as int, b.bk as int, 30);
    let la = sat_add_spec(
        sat_add_spec(
            sat_add_spec(
                sat_add_spec(
                    sat_mul_spec(a.combat.atk as int, 5),
                    sat_mul_spec(a.combat.def as int, 3),
                ),
                sat_mul_spec(a.yk as int, 10),
            ),
            sat_mul_spec(a.gk as int, 20),
        ),
        sat_mul_spec(a.bk as int, 30),
    );
    let lb = sat_add_spec(
        sat_add_spec(
            sat_add_spec(
                sat_add_spec(
                    sat_mul_spec(b.combat.atk as int, 5),
                    sat_mul_spec(b.combat.def as int, 3),
                ),
                sat_mul_spec(b.yk as int, 10),
            ),
            sat_mul_spec(b.gk as int, 20),
        ),
        sat_mul_spec(b.bk as int, 30),
    );
    lemma_sat_mul_monotone(la, lb, 1000);
}

/// The change a transition applies to a player statistic.  Numeric
/// components are added; flags are toggled.
#[derive(Clone, Copy, Debug, PartialEq, Eq, Structural)]
pub struct StatDiff {
    pub hp: i64,
    pub combat: PlayerCombat,
    pub gr: i64,
    pub yk: i64,
    pub gk: i64,
    pub bk: i64,
}

impl StatDiff {
    /// All numeric components lie in the statistic range.
    pub open spec fn wf(self) -> bool {
        bounded(self.hp as int) && self.combat.wf() && bounded(self.gr as int) && bounded(
            self.yk as int,
        ) && bounded(self.gk as int) && bounded(self.bk as int)
    }

    /// Whether no numeric component of the change is negative.
    pub open spec fn spec_is_free(self) -> bool {
        self.hp >= 0 && self.combat.atk >= 0 && self.combat.def >= 0 && self.combat.equip.atk >= 0
            && self.combat.equip.def >= 0 && self.gr >= 0 && self.yk >= 0 && self.gk >= 0 && self.bk
            >= 0
    }

    /// Saturating composition of two changes.
    pub open spec fn spec_plus(self, other: Self) -> Self {
        StatDiff {
            hp: sat_add_spec(self.hp as int, other.hp as int) as i64,
            combat: self.combat.spec_plus(other.combat),
            gr: sat_add_spec(self.gr as int, other.gr as int) as i64,
            yk: sat_add_spec(self.yk as int, other.yk as int) as i64,
            gk: sat_add_spec(self.gk as int, other.gk as int) as i64,
            bk: sat_add_spec(self.bk as int, other.bk as int) as i64,
        }
    }

    /// The zero change.
    pub fn zero() -> (r: Self)
        ensures
            r == (StatDiff {
                hp: 0i64,
                combat: PlayerCombat { flag: 0u8, atk: 0i64, def: 0i64, equip: EquipStat {
                    flag: 0u8,
                    atk: 0i64,
                    def: 0i64,
                } },
                gr: 0i64,
                yk: 0i64,
                gk: 0i64,
                bk: 0i64,
            }),
            r.wf(),
    {
        StatDiff { hp: 0, combat: PlayerCombat::zero(), gr: 0, yk: 0, gk: 0, bk: 0 }
    }

    /// Whether the change loses nothing: every numeric component is at
    /// least zero.
    pub fn is_free(&self) -> (r: bool)
        ensures
            r == self.spec_is_free(),
    {
        self.hp >= 0 && self.combat.atk >= 0 && self.combat.def >= 0 && self.combat.equip.atk >= 0
            && self.combat.equip.def >= 0 && self.gr >= 0 && self.yk >= 0 && self.gk >= 0 && self.bk
            >= 0
    }

    /// Check at run time that every component lies in the statistic range.
    pub fn in_range(&self) -> (r: bool)
        ensures
            r == self.wf(),
    {
        -STAT_LIMIT <= self.hp && self.hp <= STAT_LIMIT && self.combat.in_range() && -STAT_LIMIT
            <= self.gr && self.gr <= STAT_LIMIT && -STAT_LIMIT <= self.yk && self.yk <= STAT_LIMIT
            && -STAT_LIMIT <= self.gk && self.gk <= STAT_LIMIT && -STAT_LIMIT <= self.bk && self.bk
            <= STAT_LIMIT
    }

    /// Compose with a later change, saturating each component.
    pub fn add_assign(&mut self, other: &Self)
        requires
            old(self).wf(),
            other.wf(),
        ensures
            *final(self) == old(self).spec_plus(*other),
            final(self).wf(),
    {
        self.hp = sat_add(self.hp, other.hp);
        self.combat.add_assign(&other.combat);
        self.gr = sat_add(self.gr, other.gr);
        self.yk = sat_add(self.yk, other.yk);
        self.gk = sat_add(self.gk, other.gk);
        self.bk = sat_add(self.bk, other.bk);
    }

    /// The opposite change.  Only flag-free changes can be negated.
    pub fn neg(&self) -> (r: Self)
        requires
            self.wf(),
            self.combat.flag == 0,
            self.combat.equip.flag == 0,
        ensures
            r.hp == -self.hp && r.gr == -self.gr && r.yk == -self.yk && r.gk == -self.gk && r.bk
                == -self.bk,
            r.combat.flag == 0 && r.combat.atk == -self.combat.atk && r.combat.def
                == -self.combat.def,
            r.combat.equip.flag == 0 && r.combat.equip.atk == -self.combat.equip.atk
                && r.combat.equip.def == -self.combat.equip.def,
            r.wf(),
    {
        StatDiff {
            hp: -self.hp,
            combat: PlayerCombat {
                flag: 0,
                atk: -self.combat.atk,
                def: -self.combat.def,
                equip: EquipStat { flag: 0, atk: -self.combat.equip.atk, def: -self.combat.equip.def },
            },
            gr: -self.gr,
            yk: -self.yk,
            gk: -self.gk,
            bk: -self.bk,
        }
    }

    /// The same components read as an absolute statistic.
    pub fn to_stat(&self) -> (r: PlayerStat)
        ensures
            r == (PlayerStat {
                hp: self.hp,
                combat: self.combat,
                gr: self.gr,
                yk: self.yk,
                gk: self.gk,
                bk: self.bk,
            }),
    {
        PlayerStat {
            hp: self.hp,
            combat: self.combat,
            gr: self.gr,
            yk: self.yk,
            gk: self.gk,
            bk: self.bk,
        }
    }
}

/// The outcome of probing a location: the change it applies, the minimum
/// statistic required to attempt it, and how much damage it causes.
#[derive(Clone, Copy, Debug, PartialEq, Eq, Structural)]
pub struct ProbeStat {
    pub diff: StatDiff,
    pub req: PlayerStat,
    pub damage: i64,
}

impl ProbeStat {
    /// All numeric components lie in the statistic range.
    pub open spec fn wf(self) -> bool {
        self.diff.wf() && self.req.wf() && bounded(self.damage as int)
    }

    /// The zero probe outcome.
    pub fn zero() -> (r: Self)
        ensures
            r.diff == (StatDiff {
                hp: 0i64,
                combat: PlayerCombat { flag: 0u8, atk: 0i64, def: 0i64, equip: EquipStat {
                    flag: 0u8,
                    atk: 0i64,
                    def: 0i64,
                } },
                gr: 0i64,
                yk: 0i64,
                gk: 0i64,
                bk: 0i64,
            }),
            r.req == (PlayerStat {
                hp: 0i64,
                combat: PlayerCombat { flag: 0u8, atk: 0i64, def: 0i64, equip: EquipStat {
                    flag: 0u8,
                    atk: 0i64,
                    def: 0i64,
                } },
                gr: 0i64,
                yk: 0i64,
                gk: 0i64,
                bk: 0i64,
            }),
            r.damage == 0,
            r.wf(),
    {
        ProbeStat { diff: StatDiff::zero(), req: PlayerStat::zero(), damage: 0 }
    }

    /// Composition of two probe outcomes: the combined requirement is the
    /// join of the first requirement with the second as seen from before
    /// the first change; the changes and damages add.
    pub open spec fn spec_plus(self, other: Self) -> Self {
        ProbeStat {
            req: self.req.spec_join(other.req.spec_minus(self.diff)),
            diff: self.diff.spec_plus(other.diff),
            damage: sat_add_spec(self.damage as int, other.damage as int) as i64,
        }
    }

    /// Compose with the outcome of a later element.
    pub fn add_assign(&mut self, other: &Self)
        requires
            old(self).wf(),
            other.wf(),
        ensures
            *final(self) == old(self).spec_plus(*other),
            final(self).wf(),
    {
        let shifted = other.req.sub(&self.diff);
        self.req.join(&shifted);
        self.diff.add_assign(&other.diff);
        self.damage = sat_add(self.damage, other.damage);
    }
}

/// A terminal outcome's score, scaled by 1000.
#[derive(Clone, Copy, Debug, PartialEq, Eq, Structural)]
pub struct PlayerScore {
    pub score: i64,
}

impl PlayerScore {
    /// The zero score, below every score a reachable exit produces.
    pub fn new() -> (r: Self)
        ensures
            r.score == 0,
    {
        PlayerScore { score: 0 }
    }

    /// Order on scores.
    pub fn ge(&self, other: &Self) -> (r: bool)
        ensures
            r == (self.score >= other.score),
    {
        self.score >= other.score
    }
}

} // verus!
