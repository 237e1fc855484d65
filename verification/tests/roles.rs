use arena_bot::ctf::{determine_creep_type, CreepType};
use arena_bot::global::role::Role;
use arena_bot::swamp::role::{EnemyRole, Role as RelayRole, RoleError};
use arena_bot::text::str_eq;
use arena_bot::tutorials::final_test::{CreepState, Role as FinalRole};
use arena_bot::tutorials::harvest_energy::{
    assign_role_to_creep, get_role_from_creep, Role as HarvestRole,
};
use arena_bot::world::{Creep, Part};

fn creep(id: u64, body: Vec<Part>) -> Creep {
    Creep {
        id,
        x: 10,
        y: 10,
        my: true,
        body,
        hits: 100,
        hits_max: 100,
        used_capacity: 0,
        free_capacity: 50,
        role: None,
        state: None,
        target_id: None,
    }
}

#[test]
fn str_eq_compares_by_content() {
    assert!(str_eq("", ""));
    assert!(str_eq("defender", "defender"));
    assert!(!str_eq("defender", "defende"));
    assert!(!str_eq("defender", "defendes"));
    assert!(!str_eq("healer", "dealer"));
    assert!(str_eq("grüße", "grüße"));
    assert!(!str_eq("grüße", "grusse"));
}

#[test]
fn every_role_survives_a_tick_boundary() {
    let roles = [Role::Defender, Role::Attacker, Role::Healer, Role::Collector, Role::Unknown];
    for role in roles {
        let mut unit = creep(1, vec![Part::Move]);
        role.attach_to_creep(&mut unit);
        // The next tick the host hands the creep over again, moved and hurt,
        // with the tag as it was left.
        let next_tick = Creep { x: 11, hits: 40, role: unit.role.clone(), ..creep(1, vec![Part::Move]) };
        assert_eq!(Role::from(&next_tick), role);
    }
}

#[test]
fn role_tags_are_the_stored_strings() {
    assert_eq!(Role::Defender.tag(), "defender");
    assert_eq!(Role::Attacker.tag(), "attacker");
    assert_eq!(Role::Healer.tag(), "healer");
    assert_eq!(Role::Collector.tag(), "collector");
    assert_eq!(Role::Unknown.tag(), "unknown");
    assert_eq!(Role::from_tag("collector"), Role::Collector);
}

#[test]
fn attaching_a_role_changes_only_the_tag() {
    let mut unit = creep(7, vec![Part::Carry, Part::Move]);
    unit.state = Some(String::from("Work"));
    unit.target_id = Some(3);
    Role::Collector.attach_to_creep(&mut unit);
    assert_eq!(unit.role.as_deref(), Some("collector"));
    assert_eq!(unit.id, 7);
    assert_eq!(unit.body, vec![Part::Carry, Part::Move]);
    assert_eq!(unit.state.as_deref(), Some("Work"));
    assert_eq!(unit.target_id, Some(3));
}

#[test]
fn corrupt_or_missing_tags_read_as_unknown() {
    let mut unit = creep(1, vec![]);
    assert_eq!(Role::from(&unit), Role::Unknown);
    for tag in ["", "Defender", "defender ", "attackerx", "\u{0}", "collector\n", "healér"] {
        unit.role = Some(String::from(tag));
        assert_eq!(Role::from(&unit), Role::Unknown);
    }
}

#[test]
fn bodies_for_roles() {
    assert_eq!(Role::Collector.create_body_for_role(), Some(vec![Part::Carry, Part::Move]));
    let defender = Role::Defender.create_body_for_role().unwrap();
    assert_eq!(defender.len(), 9);
    assert_eq!(&defender[..3], &[Part::Attack, Part::Attack, Part::Attack]);
    assert_eq!(&defender[3..6], &[Part::RangedAttack, Part::RangedAttack, Part::RangedAttack]);
    assert_eq!(&defender[6..], &[Part::Move, Part::Move, Part::Move]);
    let attacker = Role::Attacker.create_body_for_role().unwrap();
    assert_eq!(attacker.len(), 13);
    assert_eq!(&attacker[..4], &[Part::Attack, Part::Attack, Part::RangedAttack, Part::RangedAttack]);
    assert!(attacker[4..].iter().all(|p| *p == Part::Move));
    let healer = Role::Healer.create_body_for_role().unwrap();
    assert_eq!(healer.len(), 9);
    assert_eq!(&healer[..2], &[Part::Heal, Part::Heal]);
    assert!(healer[2..].iter().all(|p| *p == Part::Move));
    assert_eq!(Role::Unknown.create_body_for_role(), None);
}

#[test]
fn creep_type_is_that_of_the_first_fighting_part() {
    assert_eq!(determine_creep_type(&creep(1, vec![Part::Move, Part::Attack, Part::Heal])), Some(CreepType::Fighter));
    assert_eq!(determine_creep_type(&creep(1, vec![Part::Tough, Part::RangedAttack, Part::Attack])), Some(CreepType::Ranger));
    assert_eq!(determine_creep_type(&creep(1, vec![Part::Heal, Part::Attack])), Some(CreepType::Healer));
}

#[test]
fn a_body_that_cannot_fight_has_no_type() {
    assert_eq!(determine_creep_type(&creep(1, vec![])), None);
    assert_eq!(determine_creep_type(&creep(1, vec![Part::Move, Part::Carry, Part::Work, Part::Tough])), None);
}

#[test]
fn enemy_roles_by_body() {
    assert_eq!(EnemyRole::try_from(&creep(1, vec![Part::Move, Part::Carry, Part::Attack])), Ok(EnemyRole::Collector));
    assert_eq!(EnemyRole::try_from(&creep(1, vec![Part::Attack, Part::Carry])), Ok(EnemyRole::Melee));
    assert_eq!(EnemyRole::try_from(&creep(1, vec![Part::Tough, Part::RangedAttack])), Ok(EnemyRole::Ranger));
    assert_eq!(EnemyRole::try_from(&creep(1, vec![Part::Heal])), Ok(EnemyRole::Healer));
    assert_eq!(EnemyRole::try_from(&creep(1, vec![Part::Move, Part::Work, Part::Tough])), Ok(EnemyRole::Unknown));
    assert_eq!(EnemyRole::try_from(&creep(1, vec![])), Ok(EnemyRole::Unknown));
}

#[test]
fn relay_roles_round_trip() {
    for role in [RelayRole::Unassigned, RelayRole::InitialCollector, RelayRole::Military] {
        let mut unit = creep(1, vec![]);
        role.add_to_creep(&mut unit);
        assert_eq!(RelayRole::try_from(&unit), Ok(role));
    }
    assert_eq!(RelayRole::Unassigned.to_string(), "None");
    assert_eq!(RelayRole::InitialCollector.to_string(), "InitialCollector");
    assert_eq!(RelayRole::Military.to_string(), "Military");
    assert_eq!(RelayRole::default(), RelayRole::Unassigned);
}

#[test]
fn relay_role_errors() {
    let mut unit = creep(1, vec![]);
    assert_eq!(RelayRole::try_from(&unit), Err(RoleError::NoTag));
    unit.role = Some(String::from("military"));
    assert_eq!(RelayRole::try_from(&unit), Err(RoleError::UnknownRole));
}

#[test]
fn final_test_roles_and_states_round_trip() {
    let roles = [
        FinalRole::SpawnRefiller,
        FinalRole::Builder,
        FinalRole::TurretRefiller,
        FinalRole::Fighter,
        FinalRole::Ranger,
        FinalRole::Healer,
        FinalRole::Unassigned,
    ];
    for role in roles {
        let mut unit = creep(1, vec![]);
        arena_bot::tutorials::final_test::attach_role_to_creep(role, &mut unit);
        assert_eq!(FinalRole::from(&unit), role);
    }
    for state in [CreepState::Work, CreepState::Harvest, CreepState::Unknown] {
        let mut unit = creep(1, vec![]);
        state.attach_to_creep(&mut unit);
        assert_eq!(CreepState::from(&unit), state);
    }
    let mut unit = creep(1, vec![]);
    assert_eq!(FinalRole::from(&unit), FinalRole::Unassigned);
    assert_eq!(CreepState::from(&unit), CreepState::Unknown);
    unit.role = Some(String::from("fighter"));
    unit.state = Some(String::from("work"));
    assert_eq!(FinalRole::from(&unit), FinalRole::Unassigned);
    assert_eq!(CreepState::from(&unit), CreepState::Unknown);
}

#[test]
fn harvest_roles_round_trip() {
    for role in [HarvestRole::Harvest, HarvestRole::Deliver, HarvestRole::Unassigned] {
        let mut unit = creep(1, vec![]);
        assign_role_to_creep(&mut unit, role);
        assert_eq!(get_role_from_creep(&unit), role);
    }
    assert_eq!(HarvestRole::from("harvest"), HarvestRole::Harvest);
    assert_eq!(HarvestRole::from("deliver"), HarvestRole::Deliver);
    assert_eq!(HarvestRole::from("none"), HarvestRole::Unassigned);
    assert_eq!(HarvestRole::from("Harvest"), HarvestRole::Unassigned);
    assert_eq!(HarvestRole::Unassigned.tag(), "none");
}
