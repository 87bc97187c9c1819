use drod_solver::arith::{sat_add, sat_clamp, sat_mul, STAT_LIMIT};
use drod_solver::bitset::LocationSet;
use drod_solver::pareto::{OptimalScore, OptimalStatSet};
use drod_solver::room::{Element, HpBoostStat, MonsterStat, Room, MONSTER_ATTACK_FIRST};
use drod_solver::route::Route;
use drod_solver::stat::{
    EquipStat, PlayerCombat, PlayerStat, StatDiff, FLAG_DOUBLE_GR_WEAPON, FLAG_HAS_WEAPON,
};

fn stat(hp: i64, atk: i64, def: i64, gr: i64, yk: i64) -> PlayerStat {
    let mut s = PlayerStat::with_stat(hp + 1, atk, def);
    s.gr = gr;
    s.yk = yk;
    s
}

#[test]
fn dominance_is_reflexive() {
    let a = stat(10, 3, 4, 5, 6);
    assert!(a.ge(&a));
}

#[test]
fn dominance_is_antisymmetric_on_equal_vectors() {
    let a = stat(10, 3, 4, 5, 6);
    let b = stat(10, 3, 4, 5, 6);
    assert!(a.ge(&b) && b.ge(&a));
    assert_eq!(a, b);
    let c = stat(11, 3, 4, 5, 6);
    // one direction fails as soon as any component differs
    assert!(c.ge(&a) && !a.ge(&c));
}

#[test]
fn dominance_is_transitive() {
    let a = stat(12, 5, 5, 9, 9);
    let b = stat(11, 4, 5, 7, 9);
    let c = stat(10, 3, 4, 5, 6);
    assert!(a.ge(&b) && b.ge(&c) && a.ge(&c));
}

#[test]
fn dominance_orders_scores() {
    let a = stat(12, 5, 5, 9, 9);
    let b = stat(10, 3, 4, 5, 6);
    assert!(a.ge(&b));
    assert!(a.score().score >= b.score().score);
}

#[test]
fn dominance_is_partial_not_total() {
    let a = stat(10, 5, 0, 0, 0);
    let b = stat(5, 10, 0, 0, 0);
    assert!(!a.ge(&b) && !b.ge(&a));
}

#[test]
fn dominance_requires_flag_containment() {
    let mut a = stat(10, 3, 4, 5, 6);
    let mut b = stat(10, 3, 4, 5, 6);
    b.combat.flag = FLAG_HAS_WEAPON;
    assert!(!a.ge(&b));
    a.combat.flag = FLAG_HAS_WEAPON | FLAG_DOUBLE_GR_WEAPON;
    assert!(a.ge(&b));
}

#[test]
fn with_stat_shifts_health_down_by_one() {
    let s = PlayerStat::with_stat(100, 10, 9);
    assert_eq!(s.hp, 99);
    assert_eq!(s.combat.atk, 10);
    assert_eq!(s.combat.def, 9);
    assert!(s.nonnegative());
}

#[test]
fn score_formula() {
    let s = stat(139, 10, 10, 7, 2);
    assert_eq!(
        s.score().score,
        (139 + 1) * 25 + (10 * 5 + 10 * 3 + 2 * 10) * 1000
    );
    // gold does not count toward the score
    let t = stat(139, 10, 10, 999, 2);
    assert_eq!(s.score().score, t.score().score);
}

#[test]
fn stat_diff_is_free_only_without_losses() {
    let mut d = StatDiff::zero();
    assert!(d.is_free());
    d.hp = 5;
    d.yk = 1;
    assert!(d.is_free());
    d.gr = -1;
    assert!(!d.is_free());
}

#[test]
fn join_takes_componentwise_maximum() {
    let mut a = stat(10, 3, 9, 5, 6);
    let b = stat(12, 2, 4, 7, 6);
    a.join(&b);
    assert_eq!(a, stat(12, 3, 9, 7, 6));
}

#[test]
fn saturating_arithmetic_clamps_at_the_limit() {
    assert_eq!(sat_add(1, 2), 3);
    assert_eq!(sat_add(STAT_LIMIT, 5), STAT_LIMIT);
    assert_eq!(sat_add(-STAT_LIMIT, -5), -STAT_LIMIT);
    assert_eq!(sat_mul(-7, 6), -42);
    assert_eq!(sat_mul(STAT_LIMIT, 2), STAT_LIMIT);
    assert_eq!(sat_clamp(i64::MAX), STAT_LIMIT);
}

#[test]
fn percent_floor_rounds_toward_negative_infinity() {
    assert_eq!(HpBoostStat::percent_floor(150, 10), 15);
    assert_eq!(HpBoostStat::percent_floor(-150, 10), -15);
    assert_eq!(HpBoostStat::percent_floor(155, 9), 13);
    assert_eq!(HpBoostStat::percent_floor(-155, 9), -14);
    assert_eq!(HpBoostStat::percent_floor(0, 123), 0);
}

#[test]
fn monster_fight_costs_and_rewards() {
    let monster = MonsterStat { flag: 0, hp: 10, atk: 5, def: 2, gr: 7 };
    let mut player = PlayerCombat::with_stat(10, 3);
    player.flag = FLAG_HAS_WEAPON;
    let probe = monster.probe(&player);
    // (10 - 1) / (10 - 2) = 1 strike at 5 - 3 = 2 damage
    assert_eq!(probe.diff.hp, -2);
    assert_eq!(probe.diff.gr, 7);
    assert_eq!(probe.req.hp, 2);
    assert_eq!(probe.damage, 2);

    // without a weapon the monster strikes first: one more hit
    let bare = PlayerCombat::with_stat(10, 3);
    let probe = monster.probe(&bare);
    assert_eq!(probe.diff.hp, -4);

    // the attack-first behavior has the same effect
    let eager = MonsterStat { flag: MONSTER_ATTACK_FIRST, ..monster };
    let probe = eager.probe(&player);
    assert_eq!(probe.diff.hp, -4);

    // a gold-doubling weapon doubles the reward
    player.flag = FLAG_HAS_WEAPON | FLAG_DOUBLE_GR_WEAPON;
    let probe = monster.probe(&player);
    assert_eq!(probe.diff.gr, 14);
}

#[test]
fn room_probe_folds_elements_in_order() {
    // an equipment upgrade raises attack before the monster is fought
    let mut room = Room::new("forge".to_string());
    room.add_element(Element::Equipment(EquipStat { flag: 0, atk: 8, def: 0 }));
    room.add_element(Element::Monster(MonsterStat { flag: 0, hp: 16, atk: 9, def: 2, gr: 0 }));
    let mut player = PlayerCombat::with_stat(5, 4);
    player.flag = FLAG_HAS_WEAPON;
    let probe = room.probe(&player);
    // attack becomes 5 + (8 - 0) = 13: (16 - 1) / (13 - 2) = 1 strike at 9 - 4 = 5
    assert_eq!(probe.diff.combat.atk, 8);
    assert_eq!(probe.diff.hp, -5);
}

#[test]
fn pareto_tracker_keeps_mutually_nondominated_entries() {
    let mut tracker = OptimalStatSet::new();
    let a = Route::with_stat(stat(10, 5, 0, 0, 0));
    let b = Route::with_stat(stat(5, 10, 0, 0, 0));
    assert!(tracker.add(a, false));
    assert!(tracker.add(b, false));
    assert_eq!(tracker.traces.len(), 2);

    // a dominated candidate is rejected
    let worse = Route::with_stat(stat(4, 9, 0, 0, 0));
    assert!(!tracker.add(worse, false));
    assert_eq!(tracker.traces.len(), 2);

    // a dominating candidate evicts everything it dominates
    let best = Route::with_stat(stat(10, 10, 0, 0, 0));
    assert!(tracker.add(best, false));
    assert_eq!(tracker.traces.len(), 1);
    assert_eq!(tracker.traces[0].stat, stat(10, 10, 0, 0, 0));

    // no two retained entries ever dominate one another
    for i in 0..tracker.traces.len() {
        for j in 0..tracker.traces.len() {
            if i != j {
                assert!(!tracker.traces[i].stat.ge(&tracker.traces[j].stat));
            }
        }
    }
}

#[test]
fn pareto_merge_covers_both_sides() {
    let mut left = OptimalStatSet::new();
    assert!(left.add(Route::with_stat(stat(10, 5, 0, 0, 0)), false));
    assert!(left.add(Route::with_stat(stat(5, 10, 0, 0, 0)), false));
    let mut right = OptimalStatSet::new();
    assert!(right.add(Route::with_stat(stat(10, 10, 0, 0, 0)), false));
    assert!(right.add(Route::with_stat(stat(0, 0, 9, 0, 0)), false));

    // the dominating entry of the right side evicts both left entries;
    // the incomparable one is retained alongside it
    left.add_all(right);
    assert_eq!(left.traces.len(), 2);
    for t in &left.traces {
        assert!(
            t.stat == stat(10, 10, 0, 0, 0) || t.stat == stat(0, 0, 9, 0, 0)
        );
    }
    for i in 0..left.traces.len() {
        for j in 0..left.traces.len() {
            if i != j {
                assert!(!left.traces[i].stat.ge(&left.traces[j].stat));
            }
        }
    }
}

#[test]
fn score_tracker_keeps_the_strict_maximum() {
    let mut best = OptimalScore::new();
    assert!(best.add(Route::with_stat(stat(10, 0, 0, 0, 0)), false));
    let first_score = best.score.score;
    // an equal score does not displace the holder
    assert!(!best.add(Route::with_stat(stat(10, 0, 0, 0, 0)), false));
    assert_eq!(best.score.score, first_score);
    assert!(best.add(Route::with_stat(stat(11, 0, 0, 0, 0)), false));
    assert!(best.score.score > first_score);
}

#[test]
fn location_set_operations() {
    let mut s = LocationSet::new();
    assert!(s.is_empty());
    s.set_bit(3, true);
    s.set_bit(7, true);
    assert!(s.get_bit(3) && s.get_bit(7) && !s.get_bit(5));
    assert_eq!(s.first_set(), 3);
    s.set_bit(3, false);
    assert_eq!(s.first_set(), 7);
    let mut t = LocationSet::new();
    t.set_bit(7, true);
    s.and_not_assign(&t);
    assert!(s.is_empty());
    s.set_bit(63, true);
    assert_eq!(s.first_set(), 63);
    assert_eq!(s.bits, 1u64 << 63);
}
