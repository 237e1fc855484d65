use arena_bot::intent::{Intent, Order, Target};
use arena_bot::swamp::game_state::GameState;
use arena_bot::swamp::run_attackers::{
    create_staging_area, get_enemies_within_threat_range, run_attackers,
};
use arena_bot::swamp::run_collector::{have_energy, run_collector};
use arena_bot::swamp::run_defender::{
    defend, get_closest_enemy_within_threat_range, get_staging_area, run_defender, THREAT_RANGE,
};
use arena_bot::swamp::run_healer::{get_damaged_friends, is_damaged, run_healer};
use arena_bot::swamp::run_initial_collector::{
    get_collector_index, run_initial_collector, transfer_to_next_creep, RelayError,
};
use arena_bot::swamp::run_military::{
    assign_target, get_assigned_target, get_enemy_by_id, run_military, unassign_target,
    MilitaryError,
};
use arena_bot::swamp::rush;
use arena_bot::swamp::squad;
use arena_bot::world::{Creep, Nearest, Part, Ranged, Structure};

fn creep(id: u64, my: bool) -> Creep {
    Creep {
        id,
        x: 10,
        y: 10,
        my,
        body: vec![Part::Move],
        hits: 100,
        hits_max: 100,
        used_capacity: 0,
        free_capacity: 50,
        role: None,
        state: None,
        target_id: None,
    }
}

fn spawn(id: u64, x: u8, y: u8, my: Option<bool>) -> Structure {
    Structure { id, x, y, my, used_capacity: 300 }
}

fn approach(action: Intent, object: u64) -> Vec<Order> {
    vec![Order::Always(action), Order::IfNotInRange(Intent::MoveTo(Target::Object(object)))]
}

fn engage(enemy: u64) -> Vec<Order> {
    vec![
        Order::Always(Intent::Attack(enemy)),
        Order::Always(Intent::RangedAttack(enemy)),
        Order::Always(Intent::MoveTo(Target::Object(enemy))),
    ]
}

#[test]
fn empty_collector_withdraws_from_the_nearest_container() {
    let unit = creep(1, true);
    let home = spawn(50, 5, 5, Some(true));
    let nearest = Nearest { container: Some(77), ..Nearest::nothing() };
    let orders = rush::run_collector(&unit, &home, nearest);
    assert_eq!(orders, approach(Intent::Withdraw(77), 77));
    assert_eq!(run_collector(&unit, &home, nearest), approach(Intent::Withdraw(77), 77));
}

#[test]
fn loaded_collector_delivers_to_the_spawn() {
    let mut unit = creep(1, true);
    unit.used_capacity = 1;
    let home = spawn(50, 5, 5, Some(true));
    let nearest = Nearest { container: Some(77), ..Nearest::nothing() };
    assert!(have_energy(&unit));
    assert_eq!(rush::run_collector(&unit, &home, nearest), approach(Intent::Transfer(50), 50));
    assert_eq!(run_collector(&unit, &home, nearest), approach(Intent::Transfer(50), 50));
}

#[test]
fn collector_without_a_container() {
    let unit = creep(1, true);
    let home = spawn(50, 5, 5, Some(true));
    assert!(!have_energy(&unit));
    assert_eq!(rush::run_collector(&unit, &home, Nearest::nothing()), vec![]);
    assert_eq!(
        run_collector(&unit, &home, Nearest::nothing()),
        vec![Order::Always(Intent::MoveTo(Target::Object(50)))]
    );
}

#[test]
fn attacker_without_enemies_goes_for_the_enemy_spawn() {
    let unit = creep(1, true);
    let enemy_home = spawn(60, 90, 50, Some(false));
    let orders = rush::run_attacker(&unit, &enemy_home, Nearest::nothing());
    assert_eq!(
        orders,
        vec![
            Order::Always(Intent::Heal(1)),
            Order::Always(Intent::RangedAttack(60)),
            Order::IfNotInRange(Intent::MoveTo(Target::Object(60))),
        ]
    );
}

#[test]
fn attacker_shoots_at_the_nearest_enemy() {
    let unit = creep(1, true);
    let enemy_home = spawn(60, 90, 50, Some(false));
    let nearest = Nearest { enemy: Some(8), ..Nearest::nothing() };
    assert_eq!(
        rush::run_attacker(&unit, &enemy_home, nearest),
        vec![
            Order::Always(Intent::Heal(1)),
            Order::Always(Intent::RangedAttack(8)),
            Order::IfNotInRange(Intent::MoveTo(Target::Object(8))),
        ]
    );
}

#[test]
fn defender_engages_an_enemy_within_its_threshold() {
    let home = spawn(50, 5, 5, Some(true));
    let enemies = vec![creep(8, false), creep(9, false)];
    let orders = defend(&home, &enemies, Some(Ranged { id: 9, range: 3 }), 5);
    assert_eq!(orders, engage(9));
    assert_eq!(run_defender(&home, &enemies, Some(Ranged { id: 9, range: 3 })), engage(9));
}

#[test]
fn defender_threshold_is_inclusive() {
    let home = spawn(50, 5, 5, Some(true));
    let enemies = vec![creep(8, false)];
    let rally = vec![Order::Always(Intent::MoveTo(Target::Position(10, 5)))];
    assert_eq!(defend(&home, &enemies, Some(Ranged { id: 8, range: 5 }), 5), engage(8));
    assert_eq!(defend(&home, &enemies, Some(Ranged { id: 8, range: 6 }), 5), rally);
    assert_eq!(THREAT_RANGE, 10);
    assert_eq!(run_defender(&home, &enemies, Some(Ranged { id: 8, range: 10 })), engage(8));
    assert_eq!(run_defender(&home, &enemies, Some(Ranged { id: 8, range: 11 })), rally);
    assert_eq!(defend(&home, &enemies, Some(Ranged { id: 8, range: 0 }), 0), engage(8));
    assert_eq!(defend(&home, &enemies, Some(Ranged { id: 8, range: 255 }), 255), engage(8));
}

#[test]
fn defender_without_a_threat_rallies() {
    let left = spawn(50, 19, 7, Some(true));
    let right = spawn(51, 20, 7, Some(true));
    let enemies = vec![creep(8, false)];
    assert_eq!(get_staging_area(&left), Target::Position(24, 7));
    assert_eq!(get_staging_area(&right), Target::Position(15, 7));
    assert_eq!(
        run_defender(&left, &enemies, None),
        vec![Order::Always(Intent::MoveTo(Target::Position(24, 7)))]
    );
    // The host names an enemy that is not in the list: nobody to engage.
    assert_eq!(
        run_defender(&right, &enemies, Some(Ranged { id: 99, range: 1 })),
        vec![Order::Always(Intent::MoveTo(Target::Position(15, 7)))]
    );
    assert!(get_closest_enemy_within_threat_range(&enemies, Some(Ranged { id: 8, range: 11 })).is_none());
    assert_eq!(
        get_closest_enemy_within_threat_range(&enemies, Some(Ranged { id: 8, range: 10 })).map(|c| c.id),
        Some(8)
    );
}

#[test]
fn healer_behaviour() {
    let home = spawn(50, 30, 5, Some(true));
    let mut unit = creep(1, true);
    let nearest = Nearest { hurt: Some(4), ..Nearest::nothing() };
    assert_eq!(
        run_healer(&unit, &home, nearest),
        vec![
            Order::Always(Intent::Heal(4)),
            Order::IfNotInRange(Intent::RangedHeal(4)),
            Order::IfNotInRange(Intent::MoveTo(Target::Object(4))),
        ]
    );
    assert_eq!(
        run_healer(&unit, &home, Nearest::nothing()),
        vec![Order::Always(Intent::MoveTo(Target::Position(27, 5)))]
    );
    unit.hits = 99;
    assert!(is_damaged(&unit));
    assert_eq!(run_healer(&unit, &home, nearest), vec![Order::Always(Intent::Heal(1))]);
    let left = spawn(50, 3, 5, Some(true));
    assert_eq!(arena_bot::swamp::run_healer::get_staging_area(&left), Target::Position(6, 5));
}

#[test]
fn damaged_friends_are_kept_in_order() {
    let mut a = creep(1, true);
    let b = creep(2, true);
    let mut c = creep(3, true);
    a.hits = 10;
    c.hits = 99;
    let friends = vec![a, b, c];
    let damaged = get_damaged_friends(&friends);
    assert_eq!(damaged.iter().map(|c| c.id).collect::<Vec<u64>>(), vec![1, 3]);
    assert!(get_damaged_friends(&Vec::new()).is_empty());
}

#[test]
fn attackers_stage_until_the_group_is_complete() {
    let home = spawn(50, 30, 20, Some(true));
    let enemy_home = spawn(60, 90, 50, Some(false));
    let enemies = vec![Ranged { id: 8, range: 1 }];
    assert_eq!(create_staging_area(&home), Target::Position(30, 15));
    assert_eq!(
        run_attackers(7, &enemies, &enemy_home, &home),
        vec![Order::Always(Intent::MoveTo(Target::Position(30, 15)))]
    );
    assert_eq!(run_attackers(8, &enemies, &enemy_home, &home), engage(8));
}

#[test]
fn attackers_pick_the_nearest_threat() {
    let home = spawn(50, 30, 20, Some(true));
    let enemy_home = spawn(60, 90, 50, Some(false));
    let enemies = vec![
        Ranged { id: 1, range: 6 },
        Ranged { id: 2, range: 4 },
        Ranged { id: 3, range: 2 },
        Ranged { id: 4, range: 2 },
        Ranged { id: 5, range: 5 },
    ];
    assert_eq!(
        get_enemies_within_threat_range(&enemies),
        vec![
            Ranged { id: 2, range: 4 },
            Ranged { id: 3, range: 2 },
            Ranged { id: 4, range: 2 },
            Ranged { id: 5, range: 5 },
        ]
    );
    assert_eq!(run_attackers(8, &enemies, &enemy_home, &home), engage(3));
}

#[test]
fn attackers_threat_range_is_inclusive() {
    let home = spawn(50, 30, 20, Some(true));
    let enemy_home = spawn(60, 90, 50, Some(false));
    assert_eq!(run_attackers(200, &vec![Ranged { id: 1, range: 5 }], &enemy_home, &home), engage(1));
    assert_eq!(run_attackers(200, &vec![Ranged { id: 1, range: 6 }], &enemy_home, &home), engage(60));
    assert_eq!(run_attackers(200, &vec![], &enemy_home, &home), engage(60));
}

#[test]
fn squad_regroups_when_drifted_apart() {
    assert!(!squad::should_creeps_regroup(&vec![]));
    assert!(!squad::should_creeps_regroup(&vec![3]));
    assert!(squad::should_creeps_regroup(&vec![3, 8]));
    assert!(!squad::should_creeps_regroup(&vec![3, 7]));
    assert!(!squad::should_creeps_regroup(&vec![3, 6]));
    assert!(!squad::should_creeps_regroup(&vec![1, 5]));
    assert!(squad::should_creeps_regroup(&vec![6, 1]));
    assert!(squad::should_creeps_regroup(&vec![9, 6, 1, 200]));
    assert!(!squad::should_creeps_regroup(&vec![9, 5, 1, 200]));
    assert!(!squad::should_creeps_regroup(&vec![9, 5, 1, 4]));
    assert!(!squad::should_creeps_regroup(&vec![7, 7, 30]));
    assert!(squad::should_creeps_regroup(&vec![255, 0]));
}

#[test]
fn squad_at_exactly_the_spread_stays_together() {
    let unit = creep(1, true);
    let enemy_home = spawn(60, 90, 50, Some(false));
    let at_the_spread = vec![Ranged { id: 1, range: 1 }, Ranged { id: 2, range: 5 }];
    assert_eq!(
        squad::run_attacker(&unit, &enemy_home, &at_the_spread, Some(8)),
        vec![
            Order::Always(Intent::RangedAttack(8)),
            Order::IfNotInRange(Intent::RangedMassAttack),
            Order::Always(Intent::MoveTo(Target::Object(8))),
            Order::Always(Intent::Heal(1)),
        ]
    );
    let beyond = vec![Ranged { id: 1, range: 1 }, Ranged { id: 2, range: 6 }];
    assert_eq!(
        squad::run_attacker(&unit, &enemy_home, &beyond, Some(8)),
        vec![
            Order::Always(Intent::MoveTo(Target::Object(1))),
            Order::Always(Intent::RangedMassAttack),
            Order::Always(Intent::Heal(1)),
        ]
    );
}

#[test]
fn shortest_distance_is_the_first_of_the_smallest() {
    assert_eq!(squad::get_index_of_shortest_distance(&vec![]), None);
    assert_eq!(squad::get_index_of_shortest_distance(&vec![4]), Some(0));
    assert_eq!(squad::get_index_of_shortest_distance(&vec![4, 2, 9, 2]), Some(1));
    assert_eq!(squad::get_index_of_shortest_distance(&vec![0, 0]), Some(0));
}

#[test]
fn squad_attacker_orders() {
    let unit = creep(1, true);
    let enemy_home = spawn(60, 90, 50, Some(false));
    let apart = vec![Ranged { id: 1, range: 9 }, Ranged { id: 2, range: 3 }, Ranged { id: 3, range: 8 }];
    assert_eq!(
        squad::run_attacker(&unit, &enemy_home, &apart, Some(8)),
        vec![
            Order::Always(Intent::MoveTo(Target::Object(2))),
            Order::Always(Intent::RangedMassAttack),
            Order::Always(Intent::Heal(1)),
        ]
    );
    let together = vec![Ranged { id: 1, range: 4 }, Ranged { id: 2, range: 3 }];
    assert_eq!(
        squad::run_attacker(&unit, &enemy_home, &together, Some(8)),
        vec![
            Order::Always(Intent::RangedAttack(8)),
            Order::IfNotInRange(Intent::RangedMassAttack),
            Order::Always(Intent::MoveTo(Target::Object(8))),
            Order::Always(Intent::Heal(1)),
        ]
    );
    assert_eq!(
        squad::run_attacker(&unit, &enemy_home, &together, None),
        vec![
            Order::Always(Intent::MoveTo(Target::Object(60))),
            Order::Always(Intent::RangedAttack(60)),
            Order::Always(Intent::Heal(1)),
        ]
    );
    assert_eq!(squad::calculate_distance_from_spawn(&apart), vec![9, 3, 8]);
}

#[test]
fn squad_filters_by_role() {
    let mut a = creep(1, true);
    let mut b = creep(2, true);
    let c = creep(3, true);
    arena_bot::global::role::Role::Attacker.attach_to_creep(&mut a);
    arena_bot::global::role::Role::Collector.attach_to_creep(&mut b);
    let creeps = vec![a, b, c];
    let attackers = squad::filter_creeps_by_role(&creeps, arena_bot::global::role::Role::Attacker);
    assert_eq!(attackers.iter().map(|c| c.id).collect::<Vec<u64>>(), vec![1]);
    let unknown = squad::filter_creeps_by_role(&creeps, arena_bot::global::role::Role::Unknown);
    assert_eq!(unknown.iter().map(|c| c.id).collect::<Vec<u64>>(), vec![3]);
    assert_eq!(squad::get_closest_enemy_to_spawn(&creeps, Some(2)).map(|c| c.id), Some(2));
    assert!(squad::get_closest_enemy_to_spawn(&creeps, None).is_none());
}

#[test]
fn military_creep_behaviour() {
    let home = spawn(50, 5, 5, Some(true));
    let enemy_home = spawn(60, 90, 50, Some(false));
    let enemies = vec![creep(8, false), creep(9, false)];

    let mut hurt = creep(1, true);
    hurt.hits = 1;
    assert_eq!(
        run_military(&mut hurt, &enemies, &enemy_home, &home, Nearest::nothing()),
        Ok(vec![Order::Always(Intent::Heal(1)), Order::Always(Intent::MoveTo(Target::Object(50)))])
    );

    let mut unit = creep(1, true);
    assert_eq!(
        run_military(&mut unit, &Vec::new(), &enemy_home, &home, Nearest::nothing()),
        Ok(vec![Order::Always(Intent::MoveTo(Target::Object(60))), Order::Always(Intent::RangedAttack(60))])
    );
    assert_eq!(
        run_military(&mut unit, &enemies, &enemy_home, &home, Nearest::nothing()),
        Err(MilitaryError::NoTarget)
    );
    let nearest = Nearest { enemy: Some(9), ..Nearest::nothing() };
    assert_eq!(
        run_military(&mut unit, &enemies, &enemy_home, &home, nearest),
        Ok(vec![Order::Always(Intent::MoveTo(Target::Object(9))), Order::Always(Intent::RangedAttack(9))])
    );

    assign_target(&mut unit, 8);
    assert_eq!(get_assigned_target(&unit), Some(8));
    assert_eq!(
        run_military(&mut unit, &enemies, &enemy_home, &home, nearest),
        Ok(vec![Order::Always(Intent::MoveTo(Target::Object(8))), Order::Always(Intent::RangedAttack(8))])
    );
    assert_eq!(unit.target_id, Some(8));

    assign_target(&mut unit, 77);
    assert_eq!(run_military(&mut unit, &enemies, &enemy_home, &home, nearest), Ok(vec![]));
    assert_eq!(unit.target_id, None);

    assign_target(&mut unit, 5);
    unassign_target(&mut unit);
    assert_eq!(get_assigned_target(&unit), None);
    assert_eq!(get_enemy_by_id(9, &enemies).map(|c| c.id), Some(9));
    assert!(get_enemy_by_id(10, &enemies).is_none());
}

#[test]
fn relay_places_are_given_in_order() {
    let home = spawn(50, 30, 5, Some(true));
    let mut memory = GameState::new(&home).unwrap();
    assert_eq!(get_collector_index(&mut memory, 11), Ok(0));
    assert_eq!(get_collector_index(&mut memory, 12), Ok(1));
    assert_eq!(get_collector_index(&mut memory, 11), Ok(0));
    assert_eq!(get_collector_index(&mut memory, 13), Ok(2));
    assert_eq!(get_collector_index(&mut memory, 14), Err(RelayError::NoPlace));
    assert_eq!(memory.initial_collector_ids, [Some(11), Some(12), Some(13)]);
}

#[test]
fn relay_collector_orders() {
    let home = spawn(50, 30, 5, Some(true));
    let container = Structure { id: 70, x: 34, y: 5, my: None, used_capacity: 1000 };
    let mut memory = GameState::new(&home).unwrap();
    let team = vec![creep(11, true), creep(12, true), creep(13, true)];

    let walk = |x: u8| Order::Always(Intent::MoveTo(Target::Position(x, 5)));
    // The relay is not complete yet: each creep only walks to its tile.
    assert_eq!(run_initial_collector(&team[0], &home, &mut memory, &team, &container), (vec![walk(33)], Ok(())));
    assert_eq!(run_initial_collector(&team[1], &home, &mut memory, &team, &container), (vec![walk(32)], Ok(())));
    // With the third creep it is.
    assert_eq!(
        run_initial_collector(&team[2], &home, &mut memory, &team, &container),
        (vec![walk(31), Order::Always(Intent::Transfer(50))], Ok(()))
    );
    assert_eq!(
        run_initial_collector(&team[1], &home, &mut memory, &team, &container),
        (vec![walk(32), Order::Always(Intent::Transfer(13))], Ok(()))
    );
    assert_eq!(
        run_initial_collector(&team[0], &home, &mut memory, &team, &container),
        (vec![walk(33), Order::Always(Intent::Withdraw(70)), Order::Always(Intent::Transfer(12))], Ok(()))
    );
    let stranger = creep(14, true);
    assert_eq!(
        run_initial_collector(&stranger, &home, &mut memory, &team, &container),
        (vec![], Err(RelayError::NoPlace))
    );
}

#[test]
fn relay_errors_keep_the_orders_decided_before() {
    let home = spawn(50, 30, 5, Some(true));
    let container = Structure { id: 70, x: 34, y: 5, my: None, used_capacity: 1000 };
    let mut memory = GameState::new(&home).unwrap();
    memory.initial_collector_ids = [Some(11), Some(12), Some(13)];
    let team = vec![creep(11, true), creep(13, true)];
    let walk = |x: u8| Order::Always(Intent::MoveTo(Target::Position(x, 5)));
    assert_eq!(
        run_initial_collector(&team[0], &home, &mut memory, &team, &container),
        (vec![walk(33), Order::Always(Intent::Withdraw(70))], Err(RelayError::NextNotFound))
    );
    assert_eq!(transfer_to_next_creep(&memory, 1, &team), Err(RelayError::NextNotFound));
    assert_eq!(transfer_to_next_creep(&memory, 2, &team), Ok(Order::Always(Intent::Transfer(13))));
    memory.initial_collector_ids = [Some(11), None, Some(13)];
    assert_eq!(transfer_to_next_creep(&memory, 1, &team), Err(RelayError::NoCollector));
}

/// Plays the host for one creep: every intent is answered with `answer`.
fn host_receives(orders: &[Order], answer: impl Fn(&Intent) -> arena_bot::intent::ReturnCode) -> Vec<Intent> {
    let mut sent = Vec::new();
    let mut last = None;
    for order in orders {
        if order.is_due(last) {
            let intent = order.intent();
            let status = answer(&intent);
            sent.push(intent);
            last = order.settle(last, status);
        }
    }
    sent
}

#[test]
fn empty_collector_in_range_withdraws_and_out_of_range_walks() {
    let unit = creep(1, true);
    let home = spawn(50, 5, 5, Some(true));
    let orders = rush::run_collector(&unit, &home, Nearest { container: Some(77), ..Nearest::nothing() });
    assert_eq!(
        host_receives(&orders, |_| arena_bot::intent::ReturnCode::Success),
        vec![Intent::Withdraw(77)]
    );
    assert_eq!(
        host_receives(&orders, |intent| match intent {
            Intent::Withdraw(_) => arena_bot::intent::ReturnCode::NotInRange,
            _ => arena_bot::intent::ReturnCode::Success,
        }),
        vec![Intent::Withdraw(77), Intent::MoveTo(Target::Object(77))]
    );
}

#[test]
fn defender_at_distance_three_attacks_and_closes_in() {
    let home = spawn(50, 5, 5, Some(true));
    let enemies = vec![creep(9, false)];
    let orders = defend(&home, &enemies, Some(Ranged { id: 9, range: 3 }), 5);
    let sent = host_receives(&orders, |_| arena_bot::intent::ReturnCode::Success);
    assert!(sent.contains(&Intent::Attack(9)));
    assert!(sent.contains(&Intent::MoveTo(Target::Object(9))));
    assert!(!sent.contains(&Intent::MoveTo(get_staging_area(&home))));
}
