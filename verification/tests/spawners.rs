use arena_bot::global::role::Role;
use arena_bot::modes::spawn_and_swamp::error::CustomError;
use arena_bot::modes::spawn_and_swamp::role::Role as WorkerRole;
use arena_bot::modes::spawn_and_swamp::spawner::SpawnerCommand;
use arena_bot::modes::spawn_and_swamp::state::State as ModeState;
use arena_bot::spawn_and_swamp::jobs::spawn_creep::{CreepType, SpawnCreepJob};
use arena_bot::spawn_and_swamp::jobs::{Job, JobQueue};
use arena_bot::spawn_and_swamp::state::State as JobState;
use arena_bot::swamp::commands::{Command, CreateCollectorCreepCommand};
use arena_bot::swamp::game_state::{GameState, StateError};
use arena_bot::swamp::role::Role as RelayRole;
use arena_bot::swamp::rush::{self, CreepTypes, Missing};
use arena_bot::swamp::spawner::{run_spawner, spawn_creep, SpawnError};
use arena_bot::swamp::squad;
use arena_bot::swamp::state::{Side, State as RelayState};
use arena_bot::world::{cost_of_body, Creep, Nearest, Part, PartCosts, Structure};

const COSTS: PartCosts = PartCosts {
    move_part: 50,
    work: 100,
    carry: 50,
    attack: 80,
    ranged_attack: 150,
    heal: 250,
    tough: 10,
};

fn creep(id: u64, role: Option<Role>) -> Creep {
    let mut unit = Creep {
        id,
        x: 10,
        y: 10,
        my: true,
        body: vec![Part::Move],
        hits: 100,
        hits_max: 100,
        used_capacity: 0,
        free_capacity: 50,
        role: None,
        state: None,
        target_id: None,
    };
    if let Some(role) = role {
        role.attach_to_creep(&mut unit);
    }
    unit
}

fn spawn(id: u64, x: u8, my: Option<bool>, energy: u32) -> Structure {
    Structure { id, x, y: 40, my, used_capacity: energy }
}

#[test]
fn body_cost_is_the_sum_of_the_part_costs() {
    assert_eq!(cost_of_body(&vec![], &COSTS), 0);
    assert_eq!(cost_of_body(&vec![Part::Carry, Part::Move, Part::Move], &COSTS), 150);
    assert_eq!(
        cost_of_body(
            &vec![Part::Move, Part::Work, Part::Carry, Part::Attack, Part::RangedAttack, Part::Heal, Part::Tough],
            &COSTS
        ),
        690
    );
    assert_eq!(COSTS.cost(Part::Heal), 250);
    assert_eq!(COSTS.cost(Part::Tough), 10);
}

#[test]
fn three_collectors_of_five_means_a_collector_is_next() {
    let types = CreepTypes { have_collectors: 3, want_collectors: 5, have_attackers: 0, want_attackers: 100 };
    assert_eq!(types.needed_role(), Some(Role::Collector));
    let creeps = vec![
        creep(1, Some(Role::Collector)),
        creep(2, Some(Role::Collector)),
        creep(3, Some(Role::Collector)),
    ];
    let counted = CreepTypes::init(&creeps);
    assert_eq!(counted, types);
    assert_eq!(counted.needed_role(), Some(Role::Collector));
}

#[test]
fn spawn_table_is_walked_in_order() {
    let mut types = CreepTypes::default();
    assert_eq!(types, CreepTypes { have_collectors: 0, want_collectors: 5, have_attackers: 0, want_attackers: 100 });
    types.have_collectors = 4;
    assert_eq!(types.needed_role(), Some(Role::Collector));
    types.have_collectors = 5;
    assert_eq!(types.needed_role(), Some(Role::Attacker));
    types.have_attackers = 99;
    assert_eq!(types.needed_role(), Some(Role::Attacker));
    types.have_attackers = 100;
    assert_eq!(types.needed_role(), None);
    types.have_collectors = 0;
    assert_eq!(types.needed_role(), Some(Role::Collector));
}

#[test]
fn counting_ignores_other_roles() {
    let creeps = vec![
        creep(1, Some(Role::Attacker)),
        creep(2, None),
        creep(3, Some(Role::Healer)),
        creep(4, Some(Role::Collector)),
        creep(5, Some(Role::Attacker)),
        creep(6, Some(Role::Defender)),
    ];
    let counted = CreepTypes::with_targets(&creeps, 2, 3);
    assert_eq!(counted, CreepTypes { have_collectors: 1, want_collectors: 2, have_attackers: 2, want_attackers: 3 });
    assert_eq!(squad::init(&creeps), CreepTypes { have_collectors: 1, want_collectors: 1, have_attackers: 2, want_attackers: 100 });
    assert_eq!(squad::init(&creeps).needed_role(), Some(Role::Attacker));
}

#[test]
fn a_refused_spawn_is_asked_for_again_unchanged() {
    let creeps = vec![creep(1, Some(Role::Collector)), creep(2, Some(Role::Attacker))];
    let spawns = vec![spawn(50, 5, Some(true), 0), spawn(60, 90, Some(false), 0)];
    let first = rush::run(&spawns, &creeps, &Vec::new()).ok().unwrap();
    // The host refuses; on the next tick the creeps have moved but nothing
    // else has changed.
    let mut moved = vec![creep(1, Some(Role::Collector)), creep(2, Some(Role::Attacker))];
    moved[0].x = 30;
    moved[1].hits = 20;
    let second = rush::run(&spawns, &moved, &Vec::new()).ok().unwrap();
    assert_eq!(first.spawn, Some(Role::Collector));
    assert_eq!(second.spawn, first.spawn);
    assert_eq!(
        second.spawn.unwrap().create_body_for_role(),
        first.spawn.unwrap().create_body_for_role()
    );
}

#[test]
fn rush_tick() {
    let spawns = vec![spawn(60, 90, Some(false), 0), spawn(50, 5, Some(true), 0), spawn(51, 6, Some(true), 0)];
    let mut loaded = creep(2, Some(Role::Collector));
    loaded.used_capacity = 10;
    let creeps = vec![creep(1, Some(Role::Collector)), loaded, creep(3, Some(Role::Attacker)), creep(4, None)];
    let nearest = vec![
        Nearest { container: Some(70), ..Nearest::nothing() },
        Nearest { container: Some(71), ..Nearest::nothing() },
        Nearest { enemy: Some(8), ..Nearest::nothing() },
    ];
    let plan = rush::run(&spawns, &creeps, &nearest).ok().unwrap();
    assert_eq!(plan.spawn, Some(Role::Collector));
    assert_eq!(plan.creeps.len(), 4);
    assert_eq!(plan.creeps[0], rush::run_collector(&creeps[0], &spawns[1], nearest[0]));
    assert_eq!(plan.creeps[1], arena_bot::intent::try_or_approach(arena_bot::intent::Intent::Transfer(50), 50));
    assert_eq!(plan.creeps[2], rush::run_attacker(&creeps[2], &spawns[0], nearest[2]));
    assert!(plan.creeps[3].is_empty());
}

#[test]
fn rush_needs_both_spawns() {
    let creeps = vec![creep(1, Some(Role::Collector))];
    assert!(matches!(rush::run(&vec![], &creeps, &vec![]), Err(Missing::MySpawn)));
    assert!(matches!(
        rush::run(&vec![spawn(60, 90, Some(false), 0), spawn(61, 90, None, 0)], &creeps, &vec![]),
        Err(Missing::MySpawn)
    ));
    assert!(matches!(
        rush::run(&vec![spawn(50, 5, Some(true), 0)], &creeps, &vec![]),
        Err(Missing::EnemySpawn)
    ));
    // A spawn without an owner counts as not mine.
    assert!(rush::run(&vec![spawn(50, 5, Some(true), 0), spawn(61, 90, None, 0)], &creeps, &vec![]).is_ok());
}

#[test]
fn squad_tick() {
    let spawns = vec![spawn(50, 5, Some(true), 0), spawn(60, 90, Some(false), 0)];
    let creeps = vec![creep(1, Some(Role::Collector)), creep(3, Some(Role::Attacker))];
    let attackers = vec![arena_bot::world::Ranged { id: 3, range: 2 }];
    let plan = squad::run(&spawns, &creeps, &attackers, Some(8), &vec![]).ok().unwrap();
    assert_eq!(plan.spawn, Some(Role::Attacker));
    assert!(plan.creeps[0].is_empty());
    assert_eq!(plan.creeps[1], squad::run_attacker(&creeps[1], &spawns[1], &attackers, Some(8)));
    assert!(matches!(squad::run(&vec![], &creeps, &attackers, Some(8), &vec![]), Err(Missing::MySpawn)));
}

#[test]
fn marking_a_new_creep() {
    let mut unit = creep(9, None);
    rush::spawn_creep(&mut unit, Role::Attacker);
    assert_eq!(Role::from(&unit), Role::Attacker);
}

#[test]
fn worker_gets_as_many_move_parts_as_the_energy_pays_for() {
    let mut state = ModeState::default();
    state.initialize(&vec![spawn(50, 5, Some(true), 300)]);
    let mut command = SpawnerCommand::new(WorkerRole::Worker(2));
    assert_eq!(command.execute(&state, &COSTS), Ok(()));
    assert_eq!(command.body, vec![Part::Carry, Part::Carry, Part::Move, Part::Move, Part::Move, Part::Move]);
    assert_eq!(command.cost, 300);
    assert_eq!(command.energy_available, 300);

    state.initialize(&vec![spawn(50, 5, Some(true), 249)]);
    let mut command = SpawnerCommand::new(WorkerRole::default());
    assert_eq!(command.execute(&state, &COSTS), Ok(()));
    assert_eq!(command.body, vec![Part::Carry, Part::Move, Part::Move, Part::Move]);
    assert_eq!(command.cost, 200);
}

#[test]
fn worker_that_costs_more_than_the_energy_is_refused() {
    let mut state = ModeState::default();
    state.initialize(&vec![spawn(50, 5, Some(true), 100)]);
    let mut command = SpawnerCommand::new(WorkerRole::Worker(3));
    assert_eq!(command.execute(&state, &COSTS), Err(CustomError::NotEnoughEnergy { needed: 150, had: 100 }));
    assert_eq!(command.body, vec![Part::Carry, Part::Carry, Part::Carry]);
    assert_eq!(command.cost, 150);
    assert_eq!(command.energy_available, 100);
    state.initialize(&vec![spawn(50, 5, Some(true), 149)]);
    assert_eq!(command.execute(&state, &COSTS), Err(CustomError::NotEnoughEnergy { needed: 150, had: 149 }));
}

#[test]
fn worker_that_costs_exactly_the_energy_is_made() {
    let mut state = ModeState::default();
    state.initialize(&vec![spawn(50, 5, Some(true), 100)]);
    let mut command = SpawnerCommand::new(WorkerRole::Worker(2));
    assert_eq!(command.execute(&state, &COSTS), Ok(()));
    assert_eq!(command.body, vec![Part::Carry, Part::Carry]);
    assert_eq!(command.cost, 100);
    state.initialize(&vec![spawn(50, 5, Some(true), 0)]);
    let mut command = SpawnerCommand::new(WorkerRole::Worker(0));
    assert_eq!(command.execute(&state, &COSTS), Ok(()));
    assert!(command.body.is_empty());
    assert_eq!(command.cost, 0);
}

#[test]
fn worker_command_is_idempotent() {
    let mut state = ModeState::default();
    state.initialize(&vec![spawn(50, 5, Some(true), 480)]);
    let mut command = SpawnerCommand::new(WorkerRole::Worker(3));
    assert_eq!(command.execute(&state, &COSTS), Ok(()));
    let first_body = command.body.clone();
    let first_cost = command.cost;
    assert_eq!(command.execute(&state, &COSTS), Ok(()));
    assert_eq!(command.body, first_body);
    assert_eq!(command.cost, first_cost);
    assert_eq!(first_cost, 450);
}

#[test]
fn worker_command_without_a_spawn() {
    let state = ModeState::default();
    let mut command = SpawnerCommand::new(WorkerRole::Worker(1));
    assert_eq!(command.execute(&state, &COSTS), Err(CustomError::NoSpawn));
    assert!(command.body.is_empty());
    assert_eq!(command.cost, 0);
}

#[test]
fn update_cost_sums_the_body() {
    let mut command = SpawnerCommand::new(WorkerRole::Worker(1));
    command.body = vec![Part::Heal, Part::Tough, Part::Tough];
    command.update_cost(&COSTS);
    assert_eq!(command.cost, 270);
}

#[test]
fn mode_state_takes_note_of_the_spawns_on_the_first_tick() {
    let mut state = ModeState::default();
    let spawns = vec![
        spawn(1, 5, Some(true), 0),
        spawn(2, 6, None, 0),
        spawn(3, 7, Some(false), 0),
        spawn(4, 8, Some(true), 0),
    ];
    arena_bot::modes::spawn_and_swamp::run(&mut state, 2, &spawns);
    assert_eq!(state.my_spawn, None);
    arena_bot::modes::spawn_and_swamp::run(&mut state, 1, &spawns);
    assert_eq!(state.my_spawn.map(|s| s.id), Some(4));
    assert_eq!(state.enemy_spawn.map(|s| s.id), Some(3));
    state.initialize(&vec![spawn(9, 5, None, 0)]);
    assert_eq!(state.my_spawn.map(|s| s.id), Some(4));
    assert_eq!(state.enemy_spawn.map(|s| s.id), Some(3));
}

#[test]
fn job_queue_is_first_in_first_out_across_ticks() {
    let mut queue: JobQueue<u32> = JobQueue::new();
    assert!(queue.no_jobs());
    assert_eq!(queue.take_job(), None);
    queue.add_job(1);
    queue.add_job(2);
    assert!(queue.no_jobs());
    assert_eq!(queue.take_job(), None);
    queue.new_tick();
    assert!(!queue.no_jobs());
    queue.add_job(3);
    assert_eq!(queue.take_job(), Some(1));
    assert_eq!(queue.take_job(), Some(2));
    assert_eq!(queue.take_job(), None);
    queue.new_tick();
    assert_eq!(queue.take_job(), Some(3));
    assert!(queue.no_jobs());
}

#[test]
fn jobs_left_over_are_dropped_by_the_next_tick() {
    let mut queue: JobQueue<u32> = JobQueue::new();
    queue.add_job(1);
    queue.new_tick();
    queue.add_job(2);
    queue.new_tick();
    assert_eq!(queue.take_job(), Some(2));
    assert_eq!(queue.take_job(), None);
}

#[test]
fn spawn_job_costs_its_body() {
    let job = SpawnCreepJob::new(CreepType::InitialCollector, &COSTS);
    assert_eq!(job.body, vec![Part::Carry, Part::Move, Part::Move]);
    assert_eq!(job.cost, 150);
    assert_eq!(job.my_type, CreepType::InitialCollector);
}

#[test]
fn spawn_job_asks_only_when_it_can_pay() {
    let job = SpawnCreepJob::new(CreepType::InitialCollector, &COSTS);
    let mut state = JobState::new(&vec![spawn(50, 5, Some(true), 149)]).unwrap();
    assert_eq!(job.request(&state), None);
    state.my_spawn.used_capacity = 150;
    assert_eq!(job.request(&state), Some(vec![Part::Carry, Part::Move, Part::Move]));
    state.creep_spawning = Some(creep(3, None));
    assert_eq!(job.request(&state), None);
}

#[test]
fn spawn_job_is_done_once_the_creep_is_made() {
    let job = SpawnCreepJob::new(CreepType::InitialCollector, &COSTS);
    let mut state = JobState::new(&vec![spawn(50, 5, Some(true), 150)]).unwrap();
    // Refused: the same job comes back.
    let next = job.run(&mut state, None).unwrap();
    assert_eq!(next.body, job.body);
    assert_eq!(next.cost, job.cost);
    assert_eq!(next.my_type, job.my_type);
    assert!(state.creep_spawning.is_none());
    assert_eq!(next.request(&state), job.request(&state));
    // Granted.
    assert!(next.run(&mut state, Some(creep(3, None))).is_none());
    assert_eq!(state.creep_spawning.as_ref().map(|c| c.id), Some(3));
    // While a creep is in the making the job only waits.
    let waiting = job.run(&mut state, Some(creep(4, None))).unwrap();
    assert_eq!(waiting.body, job.body);
    assert_eq!(state.creep_spawning.as_ref().map(|c| c.id), Some(3));
}

#[test]
fn job_tick_begins_with_the_first_collector() {
    assert!(JobState::new(&vec![spawn(60, 90, Some(false), 0)]).is_none());
    let mut state = JobState::new(&vec![spawn(60, 90, Some(false), 0), spawn(50, 5, Some(true), 0)]).unwrap();
    assert_eq!(state.my_spawn.id, 50);
    arena_bot::spawn_and_swamp::run(&mut state, 1, &COSTS);
    let job = state.job_queue.take_job().unwrap();
    assert_eq!(job.cost, 150);
    assert!(state.job_queue.take_job().is_none());
    state.job_queue.add_job(job);
    arena_bot::spawn_and_swamp::run(&mut state, 2, &COSTS);
    assert!(state.job_queue.take_job().is_some());
    assert!(state.job_queue.take_job().is_none());
    arena_bot::spawn_and_swamp::run(&mut state, 3, &COSTS);
    assert!(state.job_queue.no_jobs());
}

#[test]
fn relay_spawner_makes_collectors_first() {
    let home = spawn(50, 30, Some(true), 0);
    let mut memory = GameState::new(&home).unwrap();
    let request = run_spawner(&memory);
    assert_eq!(request.role, RelayRole::InitialCollector);
    assert_eq!(request.body, vec![Part::Move, Part::Carry]);
    // Refused: asked again, the request is the same.
    let again = run_spawner(&memory);
    assert_eq!(again.role, request.role);
    assert_eq!(again.body, request.body);

    for id in 1..=3 {
        let mut unit = creep(id, None);
        assert_eq!(spawn_creep(RelayRole::InitialCollector, &mut memory, &mut unit), Ok(()));
        assert_eq!(RelayRole::try_from(&unit), Ok(RelayRole::InitialCollector));
    }
    assert_eq!(memory.have_initial_collectors, 3);
    let request = run_spawner(&memory);
    assert_eq!(request.role, RelayRole::Military);
    assert_eq!(request.body.len(), 14);
    assert!(request.body[..12].iter().all(|p| *p == Part::Move));
    assert_eq!(&request.body[12..], &[Part::RangedAttack, Part::Heal]);

    let mut unit = creep(4, None);
    assert_eq!(spawn_creep(RelayRole::Military, &mut memory, &mut unit), Ok(()));
    assert_eq!(memory.have_initial_collectors, 3);
    assert_eq!(RelayRole::try_from(&unit), Ok(RelayRole::Military));
    let mut unit = creep(5, None);
    assert_eq!(spawn_creep(RelayRole::Unassigned, &mut memory, &mut unit), Err(SpawnError::NoRole));
    assert_eq!(unit.role, None);
}

#[test]
fn relay_memory_lays_out_the_relay() {
    let left = GameState::new(&spawn(50, 19, Some(true), 0)).unwrap();
    assert_eq!(left.initial_collector_positions, [(16, 40), (17, 40), (18, 40)]);
    assert_eq!(left.have_initial_collectors, 0);
    assert_eq!(left.want_initial_collectors, 3);
    assert_eq!(left.initial_collector_ids, [None, None, None]);
    assert!(!left.have_all_initial_collectors());
    let right = GameState::new(&spawn(50, 20, Some(true), 0)).unwrap();
    assert_eq!(right.initial_collector_positions, [(23, 40), (22, 40), (21, 40)]);
    assert_eq!(
        GameState::calculate_initial_collector_position(&spawn(50, 3, Some(true), 0)),
        Some([(0, 40), (1, 40), (2, 40)])
    );
    assert_eq!(
        GameState::calculate_initial_collector_position(&spawn(50, 252, Some(true), 0)),
        Some([(255, 40), (254, 40), (253, 40)])
    );
}

#[test]
fn relay_memory_off_the_map() {
    assert!(matches!(GameState::new(&spawn(50, 2, Some(true), 0)), Err(StateError::OffMap)));
    assert!(matches!(GameState::new(&spawn(50, 253, Some(true), 0)), Err(StateError::OffMap)));
    assert_eq!(GameState::calculate_initial_collector_position(&spawn(50, 0, Some(true), 0)), None);
}

#[test]
fn relay_memory_files_enemies_by_role() {
    let mut memory = GameState::new(&spawn(50, 30, Some(true), 0)).unwrap();
    let enemy = |id: u64, body: Vec<Part>| Creep { body, my: false, ..creep(id, None) };
    let enemies = vec![
        enemy(1, vec![Part::Heal]),
        enemy(2, vec![Part::Move, Part::Attack]),
        enemy(3, vec![Part::Move]),
        enemy(4, vec![Part::RangedAttack, Part::Heal]),
        enemy(5, vec![Part::Carry]),
        enemy(6, vec![Part::Attack]),
    ];
    memory.store_enemy_ids(&enemies);
    memory.store_enemy_ids(&enemies[..2].to_vec());
    assert_eq!(memory.enemy_healer_ids, vec![1, 1]);
    assert_eq!(memory.enemy_melee_ids, vec![2, 6, 2]);
    assert_eq!(memory.enemy_unknown_ids, vec![3]);
    assert_eq!(memory.enemy_ranger_ids, vec![4]);
    assert_eq!(memory.enemy_collector_ids, vec![5]);
    memory.initial_collector_ids = [Some(1), Some(2), Some(3)];
    assert!(memory.have_all_initial_collectors());
    memory.reset_enemy_ids();
    assert!(memory.enemy_healer_ids.is_empty());
    assert!(memory.enemy_melee_ids.is_empty());
    assert!(memory.enemy_unknown_ids.is_empty());
    assert!(memory.enemy_ranger_ids.is_empty());
    assert!(memory.enemy_collector_ids.is_empty());
    assert_eq!(memory.initial_collector_ids, [Some(1), Some(2), Some(3)]);
}

#[test]
fn relay_state_reads_the_map() {
    let container = |id: u64, x: u8, used: u32| Structure { id, x, y: 40, my: None, used_capacity: used };
    let spawns = vec![spawn(1, 10, Some(true), 0), spawn(2, 90, None, 0), spawn(3, 12, Some(true), 0)];
    let containers = vec![container(70, 8, 5), container(71, 8, 0), container(72, 16, 5), container(73, 8, 1)];
    let state = RelayState::new(&spawns, &containers).unwrap();
    assert_eq!(state.my_spawn.id, 3);
    assert_eq!(state.enemy_spawn.id, 2);
    assert_eq!(state.my_side, Side::Left);
    assert_eq!(state.spawn_containers.iter().map(|c| c.id).collect::<Vec<u64>>(), vec![70, 73]);
    assert!(state.initial_collectors.is_empty());
    assert!(state.queue.is_empty());

    let spawns = vec![spawn(1, 50, Some(true), 0), spawn(2, 9, Some(false), 0)];
    let containers = vec![container(70, 54, 5), container(71, 46, 5)];
    let state = RelayState::new(&spawns, &containers).unwrap();
    assert_eq!(state.my_side, Side::Right);
    assert_eq!(state.spawn_containers.iter().map(|c| c.id).collect::<Vec<u64>>(), vec![70]);

    assert!(RelayState::new(&vec![spawn(1, 50, Some(true), 0)], &containers).is_none());
    assert!(RelayState::new(&vec![spawn(2, 9, Some(false), 0)], &containers).is_none());
    // A spawn too close to the edge has no column for its containers.
    let state = RelayState::new(&vec![spawn(1, 3, Some(true), 0), spawn(2, 90, Some(false), 0)], &vec![container(70, 255, 5)]).unwrap();
    assert!(state.spawn_containers.is_empty());
}

#[test]
fn relay_queue_repeats_what_the_host_refused() {
    let spawns = vec![spawn(1, 10, Some(true), 0), spawn(2, 90, Some(false), 0)];
    let mut state = RelayState::new(&spawns, &vec![]).unwrap();
    let queue = arena_bot::swamp::run(1, &mut state);
    assert_eq!(queue.len(), 3);
    assert_eq!(queue[0].body(), vec![Part::Carry, Part::Move, Part::Move]);
    let failed = arena_bot::swamp::process_queue(queue, &mut state, vec![Some(creep(11, None)), None, None]);
    assert_eq!(failed.len(), 2);
    assert_eq!(state.initial_collectors.iter().map(|c| c.id).collect::<Vec<u64>>(), vec![11]);
    state.queue = failed;

    let queue = arena_bot::swamp::run(2, &mut state);
    assert_eq!(queue.len(), 2);
    assert!(state.queue.is_empty());
    // Too few answers: the commands without one stay queued.
    let failed = arena_bot::swamp::process_queue(queue, &mut state, vec![Some(creep(12, None))]);
    assert_eq!(failed.len(), 1);
    assert_eq!(failed[0].body(), CreateCollectorCreepCommand.body());
    assert_eq!(state.initial_collectors.iter().map(|c| c.id).collect::<Vec<u64>>(), vec![11, 12]);
    state.queue = failed;

    let queue = arena_bot::swamp::run(3, &mut state);
    let failed = arena_bot::swamp::process_queue(queue, &mut state, vec![Some(creep(13, None)), Some(creep(14, None))]);
    assert!(failed.is_empty());
    assert_eq!(state.initial_collectors.iter().map(|c| c.id).collect::<Vec<u64>>(), vec![11, 12, 13]);
}

#[test]
fn relay_tick_keeps_the_refused_commands_in_the_state() {
    let spawns = vec![spawn(1, 10, Some(true), 0), spawn(2, 90, Some(false), 0)];
    let mut state = RelayState::new(&spawns, &vec![]).unwrap();
    let queue = arena_bot::swamp::run(1, &mut state);
    assert_eq!(queue.len(), 3);
    assert!(state.queue.is_empty());
    arena_bot::swamp::finish(queue, &mut state, vec![None, Some(creep(11, None)), None]);
    assert_eq!(state.queue.len(), 2);
    assert_eq!(state.initial_collectors.iter().map(|c| c.id).collect::<Vec<u64>>(), vec![11]);

    // The next tick hands out what was refused, and nothing new.
    let queue = arena_bot::swamp::run(2, &mut state);
    assert_eq!(queue.len(), 2);
    arena_bot::swamp::finish(queue, &mut state, vec![None, None]);
    assert_eq!(state.queue.len(), 2);
    assert_eq!(state.initial_collectors.len(), 1);

    let queue = arena_bot::swamp::run(3, &mut state);
    arena_bot::swamp::finish(queue, &mut state, vec![Some(creep(12, None)), Some(creep(13, None))]);
    assert!(state.queue.is_empty());
    assert_eq!(state.initial_collectors.iter().map(|c| c.id).collect::<Vec<u64>>(), vec![11, 12, 13]);

    let queue = arena_bot::swamp::run(4, &mut state);
    assert!(queue.is_empty());
    arena_bot::swamp::finish(queue, &mut state, vec![]);
    assert!(state.queue.is_empty());
}

#[test]
fn collector_command() {
    let spawns = vec![spawn(1, 10, Some(true), 0), spawn(2, 90, Some(false), 0)];
    let mut state = RelayState::new(&spawns, &vec![]).unwrap();
    let command = CreateCollectorCreepCommand;
    assert!(!command.execute(&mut state, None));
    assert!(state.initial_collectors.is_empty());
    assert!(command.execute(&mut state, Some(creep(5, None))));
    assert_eq!(state.initial_collectors.len(), 1);
    assert_eq!(command.clone(), command);
}

#[test]
fn body_cost_that_does_not_fit() {
    let dear = PartCosts { heal: u32::MAX, ..COSTS };
    assert_eq!(arena_bot::world::checked_cost_of_body(&vec![Part::Heal], &dear), Some(u32::MAX));
    assert_eq!(arena_bot::world::checked_cost_of_body(&vec![Part::Heal, Part::Tough], &dear), None);
    assert_eq!(arena_bot::world::checked_cost_of_body(&vec![Part::Tough, Part::Heal, Part::Move], &dear), None);
    assert_eq!(arena_bot::world::checked_cost_of_body(&vec![Part::Carry, Part::Move, Part::Move], &COSTS), Some(150));
    assert_eq!(arena_bot::world::checked_cost_of_body(&vec![], &dear), Some(0));
}
