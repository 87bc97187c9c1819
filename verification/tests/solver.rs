use drod_solver::level::Level;
use drod_solver::room::{
    Element, HpBoostStat, MonsterStat, Room, ROOM_INTERMEDIATE, ROOM_ONLY_WHEN_FREE, ROOM_PRIORITY,
};
use drod_solver::route::Route;
use drod_solver::search::{Search, SearchConfig, Solution};
use drod_solver::stat::{EquipStat, PlayerCombat, PlayerStat, StatDiff};

fn empty_room(name: &str) -> Room {
    Room::new(name.to_string())
}

fn cost_hp(amount: i64) -> Element {
    let mut c = StatDiff::zero();
    c.hp = amount;
    Element::Cost(c)
}

fn resource_hp(amount: i64) -> Element {
    let mut d = StatDiff::zero();
    d.hp = amount;
    Element::Resource(d)
}

fn requirement_atk(amount: i64) -> Element {
    let mut r = PlayerStat::zero();
    r.combat.atk = amount;
    Element::Requirement(r)
}

/// A four-location line: entrance, a guarded costly room, a healing room,
/// and the exit.
fn linear_level(required_atk: i64) -> Level {
    let mut level = Level::new();
    let a = level.add_room(empty_room("A"));
    let mut room_b = empty_room("B");
    room_b.add_element(requirement_atk(required_atk));
    room_b.add_element(cost_hp(10));
    let _b = level.add_room(room_b);
    let mut room_c = empty_room("C");
    room_c.add_element(resource_hp(50));
    let _c = level.add_room(room_c);
    let d = level.add_room(empty_room("D"));
    level.set_entrance_id(a);
    level.set_exit_id(d);
    level
}

fn config_with_stat() -> SearchConfig {
    let mut config = SearchConfig::new();
    config.calculate_optimal_player_by_stat = true;
    config
}

fn solve(level: Level) -> Option<Solution> {
    assert!(level.is_ready());
    let init = PlayerStat::with_stat(100, 10, 10);
    assert!(init.in_range());
    let mut search = Search::new(config_with_stat(), level, init);
    search.search()
}

#[test]
fn linear_level_unique_route() {
    let solution = solve(linear_level(5)).expect("a route must exist");
    assert_eq!(solution.optimal_route.trace, vec![0, 1, 2, 3]);
    // stored health is shifted down by one: 100 - 10 + 50 displays as 140
    assert_eq!(solution.optimal_route.stat.hp, 139);
    assert_eq!(solution.score.score, (139 + 1) * 25 + (10 * 5 + 10 * 3) * 1000);
    assert_eq!(solution.local_optimal_routes.len(), 1);
    assert_eq!(solution.local_optimal_routes[0].trace, vec![0, 1, 2, 3]);
}

#[test]
fn linear_level_unreachable_requirement() {
    // attack 20 is required but the player only has 10: no route exists
    assert!(solve(linear_level(20)).is_none());
}

#[test]
fn branching_level_pareto_keeps_dominating_outcome() {
    let mut level = Level::new();
    let a = level.add_room(empty_room("A"));
    let mut room_b1 = empty_room("B1");
    room_b1.add_element(cost_hp(1));
    let b1 = level.add_room(room_b1);
    level.select_id(a);
    let mut room_b2 = empty_room("B2");
    room_b2.add_element(cost_hp(2));
    let _b2 = level.add_room(room_b2);
    let d = level.add_room(empty_room("D"));
    level.select_id(b1);
    level.add_id(d);
    level.set_entrance_id(a);
    level.set_exit_id(d);

    let solution = solve(level).expect("a route must exist");
    // both branches are expanded; the cheaper one dominates every other
    // terminal outcome, so it alone is retained
    assert_eq!(solution.optimal_route.trace, vec![0, 1, 3]);
    assert_eq!(solution.optimal_route.stat.hp, 98);
    assert_eq!(solution.score.score, (98 + 1) * 25 + (10 * 5 + 10 * 3) * 1000);
    assert_eq!(solution.local_optimal_routes.len(), 1);
    assert_eq!(solution.local_optimal_routes[0].trace, vec![0, 1, 3]);
}

#[test]
fn search_is_deterministic() {
    let first = solve(linear_level(5)).expect("a route must exist");
    let second = solve(linear_level(5)).expect("a route must exist");
    assert_eq!(first.optimal_route.trace, second.optimal_route.trace);
    assert_eq!(first.score.score, second.score.score);
    assert_eq!(first.optimal_route.stat, second.optimal_route.stat);
    assert_eq!(
        first.local_optimal_routes.len(),
        second.local_optimal_routes.len()
    );
    for (x, y) in first
        .local_optimal_routes
        .iter()
        .zip(second.local_optimal_routes.iter())
    {
        assert_eq!(x.trace, y.trace);
        assert_eq!(x.stat, y.stat);
    }
}

#[test]
fn priority_room_preempts_free_room() {
    // entrance with two successors: a free healing room and a later
    // priority room; the priority room alone must be expanded
    let mut level = Level::new();
    let a = level.add_room(empty_room("A"));
    let mut room_free = empty_room("F");
    room_free.add_element(resource_hp(5));
    let _f = level.add_room(room_free);
    level.select_id(a);
    let mut room_p = empty_room("P");
    room_p.add_element(cost_hp(3));
    room_p.set_room_type(ROOM_PRIORITY);
    let p = level.add_room(room_p);
    let d = level.add_room(empty_room("D"));
    level.set_entrance_id(a);
    level.set_exit_id(d);
    // the free room also leads to the exit
    level.select_id(1);
    level.add_id(d);
    level.select_id(p);
    level.add_id(d);

    let solution = solve(level).expect("a route must exist");
    // the best route goes through the priority room first; the free room
    // is only reached afterwards
    assert_eq!(solution.optimal_route.trace[1], p);
}

#[test]
fn only_when_free_room_is_skipped_when_not_free() {
    // the only path to the exit runs through a costly room marked
    // only-when-free, so the search must find nothing
    let mut level = Level::new();
    let a = level.add_room(empty_room("A"));
    let mut room_b = empty_room("B");
    room_b.add_element(cost_hp(1));
    room_b.set_room_type(ROOM_ONLY_WHEN_FREE);
    let _b = level.add_room(room_b);
    let d = level.add_room(empty_room("D"));
    level.set_entrance_id(a);
    level.set_exit_id(d);
    assert!(solve(level).is_none());
}

#[test]
fn unbeatable_monster_blocks_the_route() {
    let mut level = Level::new();
    let a = level.add_room(empty_room("A"));
    let mut room_b = empty_room("B");
    room_b.add_element(Element::Monster(MonsterStat {
        flag: 0,
        hp: 10,
        atk: 5,
        def: 50,
        gr: 0,
    }));
    let _b = level.add_room(room_b);
    let d = level.add_room(empty_room("D"));
    level.set_entrance_id(a);
    level.set_exit_id(d);
    // the player's attack of 10 cannot pierce a defense of 50
    assert!(solve(level).is_none());
}

#[test]
fn toggle_makes_location_unreachable() {
    // entering B1 closes B2 off, so the exit behind B2 alone is lost
    let mut level = Level::new();
    let a = level.add_room(empty_room("A"));
    let mut room_b1 = empty_room("B1");
    room_b1.add_element(cost_hp(1));
    let b1 = level.add_room(room_b1);
    level.select_id(a);
    let mut room_b2 = empty_room("B2");
    room_b2.add_element(cost_hp(1));
    let b2 = level.add_room(room_b2);
    let d = level.add_room(empty_room("D"));
    level.add_toggle(b1, b2);
    level.add_toggle(b2, b1);
    level.set_entrance_id(a);
    level.set_exit_id(d);

    // the exit is adjacent to B2 only
    let solution = solve(level).expect("a route must exist");
    assert_eq!(solution.optimal_route.trace, vec![a, b2, d]);
}

#[test]
fn new_highscores_are_recorded_in_order() {
    // the costlier branch is found first, so the cheaper one improves on it
    let mut level = Level::new();
    let a = level.add_room(empty_room("A"));
    let mut room_b1 = empty_room("B1");
    room_b1.add_element(cost_hp(2));
    let _b1 = level.add_room(room_b1);
    level.select_id(a);
    let mut room_b2 = empty_room("B2");
    room_b2.add_element(cost_hp(1));
    let b2 = level.add_room(room_b2);
    let d = level.add_room(empty_room("D"));
    level.select_id(1);
    level.add_id(d);
    level.set_entrance_id(a);
    level.set_exit_id(d);

    let mut config = SearchConfig::new();
    config.print_new_highscore = true;
    let init = PlayerStat::with_stat(100, 10, 10);
    let mut search = Search::new(config, level, init);
    let solution = search.search().expect("a route must exist");
    assert_eq!(search.new_highscores.len(), 2);
    assert_eq!(search.new_highscores[0].trace, vec![0, 1, 3]);
    assert_eq!(search.new_highscores[1].trace, vec![0, 2, 3]);
    assert_eq!(solution.optimal_route.trace, vec![0, 2, 3]);
    assert_eq!(solution.optimal_route.stat.hp, 98);
}

#[test]
fn intermediate_room_is_never_free() {
    // B grants health and would be free, but its intermediate flag keeps
    // it out of the free class, so the later free room C wins the step
    let mut level = Level::new();
    let a = level.add_room(empty_room("A"));
    let mut room_b = empty_room("B");
    room_b.add_element(resource_hp(5));
    room_b.set_room_type(ROOM_INTERMEDIATE);
    let b = level.add_room(room_b);
    level.select_id(a);
    let mut room_c = empty_room("C");
    room_c.add_element(resource_hp(1));
    let c = level.add_room(room_c);
    let d = level.add_room(empty_room("D"));
    level.select_id(b);
    level.add_id(c);
    level.add_id(d);
    level.select_id(c);
    level.add_id(b);
    level.set_entrance_id(a);
    level.set_exit_id(d);

    let solution = solve(level).expect("a route must exist");
    assert_eq!(solution.optimal_route.trace[1], c);
}

#[test]
fn equipment_and_boost_feed_later_rooms() {
    // the forge raises attack from 10 to 18; the shrine then grants one
    // hundred percent of attack as health
    let mut level = Level::new();
    let a = level.add_room(empty_room("A"));
    let mut forge = empty_room("forge");
    forge.add_element(Element::Equipment(EquipStat { flag: 0, atk: 8, def: 0 }));
    let _f = level.add_room(forge);
    let mut shrine = empty_room("shrine");
    shrine.add_element(Element::HpBoost(HpBoostStat {
        mult: PlayerCombat::with_stat(100, 0),
    }));
    let _s = level.add_room(shrine);
    let d = level.add_room(empty_room("D"));
    level.set_entrance_id(a);
    level.set_exit_id(d);

    let solution = solve(level).expect("a route must exist");
    assert_eq!(solution.optimal_route.trace, vec![0, 1, 2, 3]);
    assert_eq!(solution.optimal_route.stat.combat.atk, 18);
    assert_eq!(solution.optimal_route.stat.combat.equip.atk, 8);
    assert_eq!(solution.optimal_route.stat.hp, 99 + 18);
    assert_eq!(
        solution.score.score,
        (117 + 1) * 25 + (18 * 5 + 10 * 3) * 1000
    );
}

#[test]
fn replaying_the_best_route_reproduces_its_statistic() {
    let level = linear_level(5);
    let solution = solve(linear_level(5)).expect("a route must exist");

    let mut replay = Route::with_stat(PlayerStat::with_stat(100, 10, 10));
    replay.enter(&level);
    for id in &solution.optimal_route.trace {
        assert!(replay.neighbors.get_bit(*id));
        let probe = level.vertex(*id).probe(&replay.stat.combat);
        assert!(replay.stat.ge(&probe.req));
        replay.visit(*id, &level);
    }
    assert_eq!(replay.stat, solution.optimal_route.stat);
    assert_eq!(replay.visited.bits, solution.optimal_route.visited.bits);
}
