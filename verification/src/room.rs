//! The room oracle: what happens when a player enters a location.
//!
//! A location holds a sequence of elements (resources, costs, requirements,
//! monsters, equipment, health boosts).  Probing a location against a
//! combat statistic folds the elements in order and yields one
//! [`ProbeStat`]: the total change, the minimum statistic required to
//! attempt the location, and the damage taken.  Probing is a pure function
//! of the location content and the combat statistic.

use crate::arith::{bounded, clip, sat_add, sat_add_spec, sat_clamp, sat_mul, sat_mul_spec};
use crate::stat::{
    flag_contains, EquipStat, PlayerCombat, PlayerStat, ProbeStat, StatDiff, FLAG_ACCESSORY_MASK,
    FLAG_DEAD, FLAG_DOUBLE_ATK_AGAINST_GOBLIN, FLAG_DOUBLE_ATK_AGAINST_WYRM, FLAG_DOUBLE_GR_WEAPON,
    FLAG_HAS_WEAPON, FLAG_SHIELD_MASK, FLAG_WEAPON_MASK,
};
use vstd::prelude::*;

verus! {

/// The monster dies to a single hit without fighting back.
pub const MONSTER_ONE_HIT: u16 = 0x1;

/// The monster strikes first.
pub const MONSTER_ATTACK_FIRST: u16 = 0x2;

/// The monster is surprised from behind and loses its first strike.
pub const MONSTER_SURPRISED_FROM_BEHIND: u16 = 0x4;

/// The monster strikes last.
pub const MONSTER_ATTACK_LAST: u16 = 0x8;

/// The player's defense does not count in this fight.
pub const MONSTER_NO_ENEMY_DEFENSE: u16 = 0x10;

/// Stepping up to the monster costs one extra strike.
pub const MONSTER_HAS_WEAPON: u16 = 0x20;

/// Goblin class: weak to the goblin-slaying weapon.
pub const MONSTER_GOBLIN_WEAKNESS: u16 = 0x40;

/// Wyrm class: weak to the wyrm-slaying weapon.
pub const MONSTER_WYRM_WEAKNESS: u16 = 0x80;

/// The monster is brained: its attack doubles.
pub const MONSTER_BRAINED: u16 = 0x100;

/// The monster is doubly brained: its attack quadruples.
pub const MONSTER_BRAINED2: u16 = 0x200;

/// Whether every flag of `b` is also set in `a`.
pub open spec fn flag16_contains(a: u16, b: u16) -> bool {
    a & b == b
}

/// The combat statistics of one monster.
#[derive(Clone, Copy, Debug, PartialEq, Eq, Structural)]
pub struct MonsterStat {
    pub flag: u16,
    pub hp: i64,
    pub atk: i64,
    pub def: i64,
    pub gr: i64,
}

/// A probe outcome whose requirement carries the dead flag, which no live
/// player ever dominates: the transition is never eligible.
pub open spec fn spec_unbeatable_probe() -> ProbeStat {
    ProbeStat {
        diff: StatDiff {
            hp: 0i64,
            combat: PlayerCombat { flag: FLAG_DEAD, atk: 0i64, def: 0i64, equip: EquipStat {
                flag: 0u8,
                atk: 0i64,
                def: 0i64,
            } },
            gr: 0i64,
            yk: 0i64,
            gk: 0i64,
            bk: 0i64,
        },
        req: PlayerStat {
            hp: 0i64,
            combat: PlayerCombat { flag: FLAG_DEAD, atk: 0i64, def: 0i64, equip: EquipStat {
                flag: 0u8,
                atk: 0i64,
                def: 0i64,
            } },
            gr: 0i64,
            yk: 0i64,
            gk: 0i64,
            bk: 0i64,
        },
        damage: 0i64,
    }
}

/// The zero probe outcome.
pub open spec fn spec_zero_probe() -> ProbeStat {
    ProbeStat {
        diff: StatDiff {
            hp: 0i64,
            combat: PlayerCombat { flag: 0u8, atk: 0i64, def: 0i64, equip: EquipStat {
                flag: 0u8,
                atk: 0i64,
                def: 0i64,
            } },
            gr: 0i64,
            yk: 0i64,
            gk: 0i64,
            bk: 0i64,
        },
        req: PlayerStat {
            hp: 0i64,
            combat: PlayerCombat { flag: 0u8, atk: 0i64, def: 0i64, equip: EquipStat {
                flag: 0u8,
                atk: 0i64,
                def: 0i64,
            } },
            gr: 0i64,
            yk: 0i64,
            gk: 0i64,
            bk: 0i64,
        },
        damage: 0i64,
    }
}

/// A probe outcome that costs `hp_cost` health and yields `gr` gold: the
/// player must have at least the cost in health to attempt it.
pub open spec fn spec_fight_probe(hp_cost: int, gr: int) -> ProbeStat {
    ProbeStat {
        diff: StatDiff {
            hp: (-hp_cost) as i64,
            combat: PlayerCombat { flag: 0u8, atk: 0i64, def: 0i64, equip: EquipStat {
                flag: 0u8,
                atk: 0i64,
                def: 0i64,
            } },
            gr: gr as i64,
            yk: 0i64,
            gk: 0i64,
            bk: 0i64,
        },
        req: PlayerStat {
            hp: hp_cost as i64,
            combat: PlayerCombat { flag: 0u8, atk: 0i64, def: 0i64, equip: EquipStat {
                flag: 0u8,
                atk: 0i64,
                def: 0i64,
            } },
            gr: 0i64,
            yk: 0i64,
            gk: 0i64,
            bk: 0i64,
        },
        damage: hp_cost as i64,
    }
}

impl MonsterStat {
    /// Monster fields lie in the statistic range, the monster has at
    /// least one health, and its reward is not negative.  The health and
    /// reward bounds are deliberate narrowings: the fight arithmetic
    /// divides by the strikes needed to exhaust the monster's health and
    /// doubles the reward, neither of which is meaningful for a monster
    /// with no health or a negative reward.
    pub open spec fn wf(self) -> bool {
        1 <= self.hp as int <= crate::arith::STAT_LIMIT as int && bounded(self.atk as int)
            && bounded(self.def as int) && 0 <= self.gr as int && bounded(self.gr as int)
    }

    /// The player's effective attack against this monster.
    pub open spec fn spec_player_atk(self, player: PlayerCombat) -> int {
        if (flag_contains(player.flag, FLAG_DOUBLE_ATK_AGAINST_GOBLIN) && flag16_contains(
            self.flag,
            MONSTER_GOBLIN_WEAKNESS,
        )) || (flag_contains(player.flag, FLAG_DOUBLE_ATK_AGAINST_WYRM) && flag16_contains(
            self.flag,
            MONSTER_WYRM_WEAKNESS,
        )) {
            sat_mul_spec(player.atk as int, 2)
        } else {
            player.atk as int
        }
    }

    /// The player's effective defense against this monster.
    pub open spec fn spec_player_def(self, player: PlayerCombat) -> int {
        if flag16_contains(self.flag, MONSTER_NO_ENEMY_DEFENSE) {
            0
        } else {
            player.def as int
        }
    }

    /// The monster's effective attack.
    pub open spec fn spec_monster_atk(self) -> int {
        if flag16_contains(self.flag, MONSTER_BRAINED2) {
            sat_mul_spec(self.atk as int, 4)
        } else if flag16_contains(self.flag, MONSTER_BRAINED) {
            sat_mul_spec(self.atk as int, 2)
        } else {
            self.atk as int
        }
    }

    /// The number of strikes the monster lands in the fight.
    pub open spec fn spec_hits(self, player: PlayerCombat) -> int {
        let base = (self.hp - 1) as int / (self.spec_player_atk(player) - self.def as int);
        let h1 = if flag16_contains(self.flag, MONSTER_ATTACK_FIRST) || !flag_contains(
            player.flag,
            FLAG_HAS_WEAPON,
        ) {
            base + 1
        } else {
            base
        };
        let h2 = if flag16_contains(self.flag, MONSTER_ATTACK_LAST) && h1 > 0 {
            h1 - 1
        } else {
            h1
        };
        let h3 = if flag16_contains(self.flag, MONSTER_SURPRISED_FROM_BEHIND) && h2 > 0 {
            h2 - 1
        } else {
            h2
        };
        let h4 = if flag16_contains(self.flag, MONSTER_HAS_WEAPON) {
            h3 + 1
        } else {
            h3
        };
        if flag16_contains(self.flag, MONSTER_ONE_HIT) {
            1
        } else {
            h4
        }
    }

    /// The health the fight costs the player.
    pub open spec fn spec_hp_cost(self, player: PlayerCombat) -> int {
        if self.spec_player_def(player) >= self.spec_monster_atk() {
            0
        } else {
            sat_mul_spec(
                clip(self.spec_hits(player)),
                clip(self.spec_monster_atk() - self.spec_player_def(player)),
            )
        }
    }

    /// The gold the fight yields.
    pub open spec fn spec_gr_gain(self, player: PlayerCombat) -> int {
        if flag16_contains(self.flag, MONSTER_ONE_HIT) {
            0
        } else if flag_contains(player.flag, FLAG_DOUBLE_GR_WEAPON) {
            sat_mul_spec(self.gr as int, 2)
        } else {
            self.gr as int
        }
    }

    /// The outcome of fighting this monster with the given combat
    /// statistic.
    pub open spec fn spec_probe(self, player: PlayerCombat) -> ProbeStat {
        if flag_contains(player.flag, FLAG_DEAD) {
            spec_zero_probe()
        } else if self.spec_player_atk(player) <= self.def as int {
            spec_unbeatable_probe()
        } else {
            spec_fight_probe(self.spec_hp_cost(player), self.spec_gr_gain(player))
        }
    }

    /// Compute the outcome of fighting this monster.
    ///
    /// A player whose attack cannot pierce the monster's defense receives
    /// a requirement carrying the dead flag, which no live player
    /// dominates, so the fight is never eligible for such a player.
    pub fn probe(&self, player: &PlayerCombat) -> (r: ProbeStat)
        requires
            self.wf(),
            player.wf(),
        ensures
            r == self.spec_probe(*player),
            r.wf(),
    {
        if player.flag & FLAG_DEAD == FLAG_DEAD {
            return ProbeStat::zero();
        }
        let player_atk: i64 = if (player.flag & FLAG_DOUBLE_ATK_AGAINST_GOBLIN
            == FLAG_DOUBLE_ATK_AGAINST_GOBLIN && self.flag & MONSTER_GOBLIN_WEAKNESS
            == MONSTER_GOBLIN_WEAKNESS) || (player.flag & FLAG_DOUBLE_ATK_AGAINST_WYRM
            == FLAG_DOUBLE_ATK_AGAINST_WYRM && self.flag & MONSTER_WYRM_WEAKNESS
            == MONSTER_WYRM_WEAKNESS) {
            sat_mul(player.atk, 2)
        } else {
            player.atk
        };
        let player_def: i64 = if self.flag & MONSTER_NO_ENEMY_DEFENSE == MONSTER_NO_ENEMY_DEFENSE {
            0
        } else {
            player.def
        };
        let monster_atk: i64 = if self.flag & MONSTER_BRAINED2 == MONSTER_BRAINED2 {
            sat_mul(self.atk, 4)
        } else if self.flag & MONSTER_BRAINED == MONSTER_BRAINED {
            sat_mul(self.atk, 2)
        } else {
            self.atk
        };

        if player_atk <= self.def {
            let dead_combat = PlayerCombat { flag: FLAG_DEAD, atk: 0, def: 0, equip: EquipStat::zero() };
            let dead_diff = StatDiff { hp: 0, combat: dead_combat, gr: 0, yk: 0, gk: 0, bk: 0 };
            let dead_req = PlayerStat { hp: 0, combat: dead_combat, gr: 0, yk: 0, gk: 0, bk: 0 };
            return ProbeStat { diff: dead_diff, req: dead_req, damage: 0 };
        }

        let hp_cost: i64 = if player_def >= monster_atk {
            0
        } else {
            let num: i64 = self.hp - 1;
            let den: i64 = player_atk - self.def;
            let base: i64 = ((num as u64) / (den as u64)) as i64;
            proof {
                assert(base as int == (self.hp - 1) as int / (self.spec_player_atk(*player)
                    - self.def as int));
            }
            let mut hits: i64 = base;
            if self.flag & MONSTER_ATTACK_FIRST == MONSTER_ATTACK_FIRST || player.flag
                & FLAG_HAS_WEAPON != FLAG_HAS_WEAPON {
                hits = hits + 1;
            }
            if self.flag & MONSTER_ATTACK_LAST == MONSTER_ATTACK_LAST && hits > 0 {
                hits = hits - 1;
            }
            if self.flag & MONSTER_SURPRISED_FROM_BEHIND == MONSTER_SURPRISED_FROM_BEHIND && hits
                > 0 {
                hits = hits - 1;
            }
            if self.flag & MONSTER_HAS_WEAPON == MONSTER_HAS_WEAPON {
                hits = hits + 1;
            }
            if self.flag & MONSTER_ONE_HIT == MONSTER_ONE_HIT {
                hits = 1;
            }
            sat_mul(sat_clamp(hits), sat_clamp(monster_atk - player_def))
        };

        let gr_gain: i64 = if self.flag & MONSTER_ONE_HIT == MONSTER_ONE_HIT {
            0
        } else if player.flag & FLAG_DOUBLE_GR_WEAPON == FLAG_DOUBLE_GR_WEAPON {
            sat_mul(self.gr, 2)
        } else {
            self.gr
        };

        let diff = StatDiff {
            hp: -hp_cost,
            combat: PlayerCombat::zero(),
            gr: gr_gain,
            yk: 0,
            gk: 0,
            bk: 0,
        };
        let req = PlayerStat { hp: hp_cost, combat: PlayerCombat::zero(), gr: 0, yk: 0, gk: 0, bk: 0 };
        ProbeStat { diff, req, damage: hp_cost }
    }
}

/// A health boost: a percentage of each combat component, rounded down,
/// is added to (or, when negative, drained from) the player's health.
#[derive(Clone, Copy, Debug, PartialEq, Eq, Structural)]
pub struct HpBoostStat {
    pub mult: PlayerCombat,
}

/// `num` percent of `mult`, rounded toward negative infinity.
pub open spec fn spec_percent_floor(mult: int, num: int) -> int {
    clip(mult * num) / 100
}

impl HpBoostStat {
    /// The boost multipliers lie in the statistic range.
    pub open spec fn wf(self) -> bool {
        self.mult.wf()
    }

    /// The health change this boost grants the given combat statistic.
    pub open spec fn spec_hp_change(self, player: PlayerCombat) -> int {
        sat_add_spec(
            sat_add_spec(
                sat_add_spec(
                    spec_percent_floor(self.mult.atk as int, player.atk as int),
                    spec_percent_floor(self.mult.def as int, player.def as int),
                ),
                spec_percent_floor(self.mult.equip.atk as int, player.equip.atk as int),
            ),
            spec_percent_floor(self.mult.equip.def as int, player.equip.def as int),
        )
    }

    /// The outcome of the boost: free when the change is a gain; when it
    /// is a drain, the drained health is required and counts as damage.
    pub open spec fn spec_probe(self, player: PlayerCombat) -> ProbeStat {
        let hp = self.spec_hp_change(player);
        ProbeStat {
            diff: StatDiff {
                hp: hp as i64,
                combat: PlayerCombat { flag: 0u8, atk: 0i64, def: 0i64, equip: EquipStat {
                    flag: 0u8,
                    atk: 0i64,
                    def: 0i64,
                } },
                gr: 0i64,
                yk: 0i64,
                gk: 0i64,
                bk: 0i64,
            },
            req: PlayerStat {
                hp: if hp >= 0 {
                    0i64
                } else {
                    (-hp) as i64
                },
                combat: PlayerCombat { flag: 0u8, atk: 0i64, def: 0i64, equip: EquipStat {
                    flag: 0u8,
                    atk: 0i64,
                    def: 0i64,
                } },
                gr: 0i64,
                yk: 0i64,
                gk: 0i64,
                bk: 0i64,
            },
            damage: if hp >= 0 {
                0i64
            } else {
                (-hp) as i64
            },
        }
    }

    /// One hundredth of `mult * num`, rounded toward negative infinity.
    pub fn percent_floor(mult: i64, num: i64) -> (r: i64)
        requires
            bounded(mult as int),
            bounded(num as int),
        ensures
            r as int == spec_percent_floor(mult as int, num as int),
            bounded(r as int),
    {
        let prod = sat_mul(mult, num);
        if prod >= 0 {
            let q = ((prod as u64) / 100u64) as i64;
            proof {
                assert(0 <= prod as int / 100 <= prod as int) by (nonlinear_arith)
                    requires
                        prod >= 0,
                ;
            }
            q
        } else {
            let neg = -prod;
            let q = (((neg + 99) as u64) / 100u64) as i64;
            proof {
                assert(0 <= (neg as int + 99) / 100 <= neg as int) by (nonlinear_arith)
                    requires
                        neg >= 1,
                ;
                assert(prod as int / 100 == -((neg as int + 99) / 100)) by (nonlinear_arith)
                    requires
                        prod as int == -(neg as int),
                        neg >= 1,
                ;
            }
            -q
        }
    }

    /// Compute the outcome of the boost.
    pub fn probe(&self, player: &PlayerCombat) -> (r: ProbeStat)
        requires
            self.wf(),
            player.wf(),
        ensures
            r == self.spec_probe(*player),
            r.wf(),
    {
        let hp = sat_add(
            sat_add(
                sat_add(
                    Self::percent_floor(self.mult.atk, player.atk),
                    Self::percent_floor(self.mult.def, player.def),
                ),
                Self::percent_floor(self.mult.equip.atk, player.equip.atk),
            ),
            Self::percent_floor(self.mult.equip.def, player.equip.def),
        );
        let diff = StatDiff { hp, combat: PlayerCombat::zero(), gr: 0, yk: 0, gk: 0, bk: 0 };
        let req_hp: i64 = if hp >= 0 {
            0
        } else {
            -hp
        };
        let req = PlayerStat { hp: req_hp, combat: PlayerCombat::zero(), gr: 0, yk: 0, gk: 0, bk: 0 };
        ProbeStat { diff, req, damage: req_hp }
    }
}

impl EquipStat {
    /// The outcome of offering this piece of equipment to a player whose
    /// worn equipment is `player`: a strictly better weapon or shield is
    /// taken, otherwise an accessory swap happens, otherwise nothing.
    pub open spec fn spec_equip_probe(self, player: EquipStat) -> ProbeStat {
        if self.atk > 0 && self.atk > player.atk {
            let flag = (player.flag & FLAG_WEAPON_MASK) ^ self.flag;
            let atk = sat_add_spec(self.atk as int, -player.atk as int) as i64;
            ProbeStat {
                diff: StatDiff {
                    hp: 0i64,
                    combat: PlayerCombat { flag: flag, atk: atk, def: 0i64, equip: EquipStat {
                        flag: flag,
                        atk: atk,
                        def: 0i64,
                    } },
                    gr: 0i64,
                    yk: 0i64,
                    gk: 0i64,
                    bk: 0i64,
                },
                req: spec_zero_probe().req,
                damage: 0i64,
            }
        } else if self.def > 0 && self.def > player.def {
            let flag = (player.flag & FLAG_SHIELD_MASK) ^ self.flag;
            let def = sat_add_spec(self.def as int, -player.def as int) as i64;
            ProbeStat {
                diff: StatDiff {
                    hp: 0i64,
                    combat: PlayerCombat { flag: flag, atk: 0i64, def: def, equip: EquipStat {
                        flag: flag,
                        atk: 0i64,
                        def: def,
                    } },
                    gr: 0i64,
                    yk: 0i64,
                    gk: 0i64,
                    bk: 0i64,
                },
                req: spec_zero_probe().req,
                damage: 0i64,
            }
        } else if self.flag != 0 {
            let flag = (player.flag & FLAG_ACCESSORY_MASK) ^ self.flag;
            ProbeStat {
                diff: StatDiff {
                    hp: 0i64,
                    combat: PlayerCombat { flag: flag, atk: 0i64, def: 0i64, equip: EquipStat {
                        flag: flag,
                        atk: 0i64,
                        def: 0i64,
                    } },
                    gr: 0i64,
                    yk: 0i64,
                    gk: 0i64,
                    bk: 0i64,
                },
                req: spec_zero_probe().req,
                damage: 0i64,
            }
        } else {
            spec_zero_probe()
        }
    }

    /// Compute the outcome of offering this piece of equipment.
    pub fn probe(&self, player: &EquipStat) -> (r: ProbeStat)
        requires
            self.wf(),
            player.wf(),
        ensures
            r == self.spec_equip_probe(*player),
            r.wf(),
    {
        if self.atk > 0 && self.atk > player.atk {
            let flag = (player.flag & FLAG_WEAPON_MASK) ^ self.flag;
            let atk = sat_add(self.atk, -player.atk);
            let equip = EquipStat { flag, atk, def: 0 };
            let combat = PlayerCombat { flag, atk, def: 0, equip };
            ProbeStat {
                diff: StatDiff { hp: 0, combat, gr: 0, yk: 0, gk: 0, bk: 0 },
                req: PlayerStat::zero(),
                damage: 0,
            }
        } else if self.def > 0 && self.def > player.def {
            let flag = (player.flag & FLAG_SHIELD_MASK) ^ self.flag;
            let def = sat_add(self.def, -player.def);
            let equip = EquipStat { flag, atk: 0, def };
            let combat = PlayerCombat { flag, atk: 0, def, equip };
            ProbeStat {
                diff: StatDiff { hp: 0, combat, gr: 0, yk: 0, gk: 0, bk: 0 },
                req: PlayerStat::zero(),
                damage: 0,
            }
        } else if self.flag != 0 {
            let flag = (player.flag & FLAG_ACCESSORY_MASK) ^ self.flag;
            let equip = EquipStat { flag, atk: 0, def: 0 };
            let combat = PlayerCombat { flag, atk: 0, def: 0, equip };
            ProbeStat {
                diff: StatDiff { hp: 0, combat, gr: 0, yk: 0, gk: 0, bk: 0 },
                req: PlayerStat::zero(),
                damage: 0,
            }
        } else {
            ProbeStat::zero()
        }
    }

    /// The outcome of laying down the chosen equipment slots.
    pub open spec fn spec_unequip_probe(player: EquipStat, weapon: bool, shield: bool, accessory: bool) -> ProbeStat {
        let flag = (if weapon {
            player.flag & FLAG_WEAPON_MASK
        } else {
            0u8
        }) | (if shield {
            player.flag & FLAG_SHIELD_MASK
        } else {
            0u8
        }) | (if accessory {
            player.flag & FLAG_ACCESSORY_MASK
        } else {
            0u8
        });
        let atk = if weapon {
            (-player.atk) as i64
        } else {
            0i64
        };
        let def = if shield {
            (-player.def) as i64
        } else {
            0i64
        };
        ProbeStat {
            diff: StatDiff {
                hp: 0i64,
                combat: PlayerCombat { flag: flag, atk: atk, def: def, equip: EquipStat {
                    flag: 0u8,
                    atk: 0i64,
                    def: 0i64,
                } },
                gr: 0i64,
                yk: 0i64,
                gk: 0i64,
                bk: 0i64,
            },
            req: spec_zero_probe().req,
            damage: 0i64,
        }
    }

    /// The outcome of taking the chosen equipment slots up again.
    pub open spec fn spec_reequip_probe(player: EquipStat, weapon: bool, shield: bool, accessory: bool) -> ProbeStat {
        let flag = (if weapon {
            player.flag & FLAG_WEAPON_MASK
        } else {
            0u8
        }) | (if shield {
            player.flag & FLAG_SHIELD_MASK
        } else {
            0u8
        }) | (if accessory {
            player.flag & FLAG_ACCESSORY_MASK
        } else {
            0u8
        });
        let atk = if weapon {
            player.atk
        } else {
            0i64
        };
        let def = if shield {
            player.def
        } else {
            0i64
        };
        ProbeStat {
            diff: StatDiff {
                hp: 0i64,
                combat: PlayerCombat { flag: flag, atk: atk, def: def, equip: EquipStat {
                    flag: 0u8,
                    atk: 0i64,
                    def: 0i64,
                } },
                gr: 0i64,
                yk: 0i64,
                gk: 0i64,
                bk: 0i64,
            },
            req: spec_zero_probe().req,
            damage: 0i64,
        }
    }

    /// Compute the outcome of laying down the chosen equipment slots.
    pub fn unequip(player: &EquipStat, weapon: bool, shield: bool, accessory: bool) -> (r: ProbeStat)
        requires
            player.wf(),
        ensures
            r == Self::spec_unequip_probe(*player, weapon, shield, accessory),
            r.wf(),
    {
        let mut flag: u8 = 0;
        let mut atk: i64 = 0;
        let mut def: i64 = 0;
        if weapon {
            flag = flag | (player.flag & FLAG_WEAPON_MASK);
            atk = -player.atk;
        }
        if shield {
            flag = flag | (player.flag & FLAG_SHIELD_MASK);
            def = -player.def;
        }
        if accessory {
            flag = flag | (player.flag & FLAG_ACCESSORY_MASK);
        }
        proof {
            assert(0u8 | (player.flag & FLAG_WEAPON_MASK) == player.flag & FLAG_WEAPON_MASK)
                by (bit_vector);
            assert(forall|x: u8| #![auto] x | 0u8 == x) by (bit_vector);
            assert(forall|x: u8| #![auto] 0u8 | x == x) by (bit_vector);
        }
        let combat = PlayerCombat { flag, atk, def, equip: EquipStat::zero() };
        ProbeStat {
            diff: StatDiff { hp: 0, combat, gr: 0, yk: 0, gk: 0, bk: 0 },
            req: PlayerStat::zero(),
            damage: 0,
        }
    }

    /// Compute the outcome of taking the chosen equipment slots up again.
    pub fn reequip(player: &EquipStat, weapon: bool, shield: bool, accessory: bool) -> (r: ProbeStat)
        requires
            player.wf(),
        ensures
            r == Self::spec_reequip_probe(*player, weapon, shield, accessory),
            r.wf(),
    {
        let mut flag: u8 = 0;
        let mut atk: i64 = 0;
        let mut def: i64 = 0;
        if weapon {
            flag = flag | (player.flag & FLAG_WEAPON_MASK);
            atk = player.atk;
        }
        if shield {
            flag = flag | (player.flag & FLAG_SHIELD_MASK);
            def = player.def;
        }
        if accessory {
            flag = flag | (player.flag & FLAG_ACCESSORY_MASK);
        }
        proof {
            assert(forall|x: u8| #![auto] x | 0u8 == x) by (bit_vector);
            assert(forall|x: u8| #![auto] 0u8 | x == x) by (bit_vector);
        }
        let combat = PlayerCombat { flag, atk, def, equip: EquipStat::zero() };
        ProbeStat {
            diff: StatDiff { hp: 0, combat, gr: 0, yk: 0, gk: 0, bk: 0 },
            req: PlayerStat::zero(),
            damage: 0,
        }
    }
}

/// One element of a location's content.
#[derive(Clone, Copy, Debug)]
pub enum Element {
    /// Grant the player the given change.
    Resource(StatDiff),
    /// Take the given amounts from the player, who must be able to pay.
    Cost(StatDiff),
    /// Demand the given statistic without changing anything.
    Requirement(PlayerStat),
    /// Fight the given monster.
    Monster(MonsterStat),
    /// Offer the given piece of equipment.
    Equipment(EquipStat),
    /// Lay down or take up the chosen equipment slots.
    Inventory { equip: bool, weapon: bool, shield: bool, accessory: bool },
    /// Add a percentage of the combat statistic to health.
    HpBoost(HpBoostStat),
}

impl Element {
    /// Element payloads lie in the statistic range, and a cost carries no
    /// flags — a deliberate narrowing: a cost is negated to form the
    /// change it applies, and flags, which toggle rather than add, have
    /// no meaningful negation.
    pub open spec fn wf(self) -> bool {
        match self {
            Element::Resource(d) => d.wf(),
            Element::Cost(c) => c.wf() && c.combat.flag == 0 && c.combat.equip.flag == 0,
            Element::Requirement(r) => r.wf(),
            Element::Monster(m) => m.wf(),
            Element::Equipment(e) => e.wf(),
            Element::Inventory { .. } => true,
            Element::HpBoost(b) => b.wf(),
        }
    }

    /// The outcome of passing this element with the given combat
    /// statistic.
    pub open spec fn spec_probe(self, player: PlayerCombat) -> ProbeStat {
        match self {
            Element::Resource(d) => ProbeStat { diff: d, req: spec_zero_probe().req, damage: 0i64 },
            Element::Cost(c) => ProbeStat {
                diff: StatDiff {
                    hp: (-c.hp) as i64,
                    combat: PlayerCombat {
                        flag: 0u8,
                        atk: (-c.combat.atk) as i64,
                        def: (-c.combat.def) as i64,
                        equip: EquipStat {
                            flag: 0u8,
                            atk: (-c.combat.equip.atk) as i64,
                            def: (-c.combat.equip.def) as i64,
                        },
                    },
                    gr: (-c.gr) as i64,
                    yk: (-c.yk) as i64,
                    gk: (-c.gk) as i64,
                    bk: (-c.bk) as i64,
                },
                req: PlayerStat {
                    hp: c.hp,
                    combat: c.combat,
                    gr: c.gr,
                    yk: c.yk,
                    gk: c.gk,
                    bk: c.bk,
                },
                damage: 0i64,
            },
            Element::Requirement(r) => ProbeStat {
                diff: spec_zero_probe().diff,
                req: r,
                damage: 0i64,
            },
            Element::Monster(m) => m.spec_probe(player),
            Element::Equipment(e) => e.spec_equip_probe(player.equip),
            Element::Inventory { equip, weapon, shield, accessory } => if equip {
                EquipStat::spec_reequip_probe(player.equip, weapon, shield, accessory)
            } else {
                EquipStat::spec_unequip_probe(player.equip, weapon, shield, accessory)
            },
            Element::HpBoost(b) => b.spec_probe(player),
        }
    }

    /// Compute the outcome of passing this element.
    pub fn probe(&self, player: &PlayerCombat) -> (r: ProbeStat)
        requires
            self.wf(),
            player.wf(),
        ensures
            r == self.spec_probe(*player),
            r.wf(),
    {
        match self {
            Element::Resource(d) => ProbeStat { diff: *d, req: PlayerStat::zero(), damage: 0 },
            Element::Cost(c) => ProbeStat { diff: c.neg(), req: c.to_stat(), damage: 0 },
            Element::Requirement(r) => ProbeStat { diff: StatDiff::zero(), req: *r, damage: 0 },
            Element::Monster(m) => m.probe(player),
            Element::Equipment(e) => e.probe(&player.equip),
            Element::Inventory { equip, weapon, shield, accessory } => if *equip {
                EquipStat::reequip(&player.equip, *weapon, *shield, *accessory)
            } else {
                EquipStat::unequip(&player.equip, *weapon, *shield, *accessory)
            },
            Element::HpBoost(b) => b.probe(player),
        }
    }
}

/// The fold of probing `content` element by element from position `i`,
/// starting from combat statistic `stat` with `acc` accumulated so far.
/// Each element sees the combat statistic as changed by the elements
/// before it.
pub open spec fn spec_probe_fold(
    content: Seq<Element>,
    i: int,
    stat: PlayerCombat,
    acc: ProbeStat,
) -> ProbeStat
    decreases content.len() - i,
{
    if i < 0 || i >= content.len() {
        acc
    } else {
        let p = content[i].spec_probe(stat);
        spec_probe_fold(content, i + 1, stat.spec_plus(p.diff.combat), acc.spec_plus(p))
    }
}

/// A location: a named sequence of elements, all of which are completed on
/// entry, plus the flags that steer the branch-selection policy.
#[derive(Debug)]
pub struct Room {
    pub name: String,
    pub content: Vec<Element>,
    pub room_type: u8,
}

/// The location must be traversed on its own: after it, only its direct
/// graph neighbors may be entered.
pub const ROOM_INTERMEDIATE: u8 = 0x1;

/// The location is skipped entirely unless entering it is free.
pub const ROOM_ONLY_WHEN_FREE: u8 = 0x2;

/// The location preempts all other choices when eligible.
pub const ROOM_PRIORITY: u8 = 0x4;

impl Room {
    /// Every element of the location is well formed.
    pub open spec fn wf(self) -> bool {
        forall|i: int| 0 <= i < self.content@.len() ==> (#[trigger] self.content@[i]).wf()
    }

    /// The outcome of entering this location with the given combat
    /// statistic.
    pub open spec fn spec_probe(self, player: PlayerCombat) -> ProbeStat {
        spec_probe_fold(self.content@, 0, player, spec_zero_probe())
    }

    /// An empty location with the given name.
    pub fn new(name: String) -> (r: Self)
        ensures
            r.name == name,
            r.content@.len() == 0,
            r.room_type == 0,
            r.wf(),
    {
        Room { name, content: Vec::new(), room_type: 0 }
    }

    /// Append an element to the location's content.
    pub fn add_element(&mut self, e: Element)
        requires
            old(self).wf(),
            e.wf(),
        ensures
            final(self).content@ == old(self).content@.push(e),
            final(self).name == old(self).name,
            final(self).room_type == old(self).room_type,
            final(self).wf(),
    {
        self.content.push(e);
    }

    /// Set the flags that steer the branch-selection policy.
    pub fn set_room_type(&mut self, t: u8)
        ensures
            final(self).room_type == t,
            final(self).content@ == old(self).content@,
            final(self).name == old(self).name,
    {
        self.room_type = t;
    }

    /// Compute the outcome of entering this location: the elements are
    /// folded in order, each seeing the combat statistic as changed by the
    /// elements before it.
    pub fn probe(&self, player: &PlayerCombat) -> (r: ProbeStat)
        requires
            self.wf(),
            player.wf(),
        ensures
            r == self.spec_probe(*player),
            r.wf(),
    {
        let ghost target = spec_probe_fold(self.content@, 0, *player, spec_zero_probe());
        let mut stat = *player;
        let mut res = ProbeStat::zero();
        let n = self.content.len();
        let mut idx: usize = 0;
        while idx < n
            invariant
                n == self.content@.len(),
                idx <= n,
                self.wf(),
                stat.wf(),
                res.wf(),
                spec_probe_fold(self.content@, idx as int, stat, res) == target,
            decreases n - idx,
        {
            let p = self.content[idx].probe(&stat);
            res.add_assign(&p);
            stat.add_assign(&p.diff.combat);
            idx = idx + 1;
        }
        res
    }
}

} // verus!
