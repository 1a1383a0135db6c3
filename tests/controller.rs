use colony_core::creeps::{
    get_new_mode, get_target_key, mode_from_tag, mode_to_tag, target_source, update_mode,
    AgentMemory, AgentState, ControllerState, Creep, Harvester, Mode, Role, TargetSlot,
    TargetSource, Worker,
};
use colony_core::execute::{
    classify, execute, execute_mode, get_range_to, move_random_direction, move_to_target,
    step_aside_direction, ActionKind, Direction, Movement, Outcome, ResultCode,
};
use colony_core::geometry::Position;
use colony_core::ids::ObjectId;

fn state(role: Role, mode: Mode, used: u32, free: u32) -> AgentState {
    AgentState {
        role,
        mode,
        used_capacity: used,
        free_capacity: free,
        controller: Some(ControllerState { level: 5, ticks_to_downgrade: 10000 }),
        has_construction_target: false,
        spawn_free_energy: Some(100),
    }
}

fn empty_memory() -> AgentMemory {
    AgentMemory { mode: None, input: None, output: None }
}

#[test]
fn full_harvester_transfers_out() {
    for mode in [Mode::Harvest, Mode::Idle, Mode::TransferTo] {
        let s = state(Role::Harvester, mode, 50, 0);
        assert_eq!(update_mode(&s), Mode::TransferTo);
    }
    let s = state(Role::Harvester, Mode::Harvest, 0, 0);
    assert_eq!(update_mode(&s), Mode::TransferTo);
}

#[test]
fn full_harvester_after_acting_transfers_in_same_tick() {
    let source = ObjectId { hi: 0, mid: 0, lo: 1 };
    let spawn = ObjectId { hi: 0, mid: 0, lo: 2 };
    let before = state(Role::Harvester, Mode::Harvest, 48, 2);
    let plan = execute(&before, Some(source), Some(spawn));
    assert_eq!(plan.mode, Mode::Harvest);
    assert_eq!(plan.action, Some((ActionKind::Harvest, source)));
    let after = AgentState { used_capacity: 50, free_capacity: 0, mode: plan.mode, ..before };
    assert_eq!(update_mode(&after), Mode::TransferTo);
}

#[test]
fn harvester_modes() {
    assert_eq!(get_new_mode(&state(Role::Harvester, Mode::TransferTo, 0, 50)), Some(Mode::Harvest));
    assert_eq!(get_new_mode(&state(Role::Harvester, Mode::TransferTo, 10, 40)), None);
    assert_eq!(update_mode(&state(Role::Harvester, Mode::TransferTo, 10, 40)), Mode::TransferTo);
}

#[test]
fn worker_upgrades_low_controller() {
    let mut s = state(Role::Worker, Mode::Idle, 0, 50);
    s.controller = Some(ControllerState { level: 1, ticks_to_downgrade: 20000 });
    assert_eq!(update_mode(&s), Mode::UpgradeController);
    s.controller = Some(ControllerState { level: 4, ticks_to_downgrade: 4999 });
    assert_eq!(update_mode(&s), Mode::UpgradeController);
    s.controller = Some(ControllerState { level: 4, ticks_to_downgrade: 5000 });
    assert_eq!(update_mode(&s), Mode::Idle);
}

#[test]
fn busy_worker_with_room_does_not_switch_to_upgrade() {
    let mut s = state(Role::Worker, Mode::Build, 10, 40);
    s.controller = Some(ControllerState { level: 1, ticks_to_downgrade: 100 });
    assert_eq!(update_mode(&s), Mode::Idle);
    s.free_capacity = 0;
    assert_eq!(update_mode(&s), Mode::UpgradeController);
}

#[test]
fn full_worker_builds() {
    let mut s = state(Role::Worker, Mode::TransferFrom, 50, 0);
    s.has_construction_target = true;
    assert_eq!(update_mode(&s), Mode::Build);
}

#[test]
fn empty_worker_draws_from_full_spawn() {
    let mut s = state(Role::Worker, Mode::Build, 0, 50);
    s.spawn_free_energy = Some(0);
    assert_eq!(update_mode(&s), Mode::TransferFrom);
    s.spawn_free_energy = None;
    assert_eq!(update_mode(&s), Mode::Idle);
}

#[test]
fn slots_and_sources_of_modes() {
    assert_eq!(get_target_key(Mode::Harvest), TargetSlot::Input);
    assert_eq!(get_target_key(Mode::TransferFrom), TargetSlot::Input);
    assert_eq!(get_target_key(Mode::Idle), TargetSlot::Input);
    assert_eq!(get_target_key(Mode::TransferTo), TargetSlot::Output);
    assert_eq!(get_target_key(Mode::Build), TargetSlot::Output);
    assert_eq!(target_source(Mode::Harvest), TargetSource::Allocator);
    assert_eq!(target_source(Mode::TransferTo), TargetSource::Spawn);
    assert_eq!(target_source(Mode::UpgradeController), TargetSource::Controller);
    assert_eq!(target_source(Mode::Build), TargetSource::Placer);
    assert_eq!(target_source(Mode::Idle), TargetSource::Nothing);
}

#[test]
fn mode_tags_round_trip() {
    for m in [Mode::Idle, Mode::Harvest, Mode::TransferTo, Mode::TransferFrom, Mode::UpgradeController, Mode::Build] {
        assert_eq!(mode_from_tag(mode_to_tag(m).as_str()), m);
    }
    assert_eq!(mode_to_tag(Mode::UpgradeController), "upgrade_controller");
    assert_eq!(mode_from_tag("garbage"), Mode::Idle);
    assert_eq!(mode_from_tag(""), Mode::Idle);
}

#[test]
fn roles_from_names() {
    assert_eq!(Role::of_name("harvester:3"), Some(Role::Harvester));
    assert_eq!(Role::of_name("worker"), Some(Role::Worker));
    assert_eq!(Role::of_name("worker:1:2"), Some(Role::Worker));
    assert_eq!(Role::of_name("starter:1"), None);
    assert_eq!(Role::of_name(""), None);
    assert_eq!(Role::Harvester.to_string(), "harvester");
    assert_eq!(Role::from_str("worker"), Some(Role::Worker));
}

#[test]
fn creep_record_round_trips_targets() {
    let mut c = Creep::new("harvester:0".to_string(), empty_memory()).unwrap();
    assert_eq!(c.role, Role::Harvester);
    assert_eq!(c.get_mode(), Mode::Idle);
    let target = ObjectId { hi: 0x5bc, mid: 0x3381d32f, lo: 0x6790abcd };
    c.set_input(target);
    assert_eq!(c.get_input(), Some(target));
    assert_eq!(c.memory.input.as_deref(), Some("5bc3381d32f6790abcd"));
    c.set_output(ObjectId { hi: 0, mid: 0, lo: 7 });
    assert_eq!(c.get_output(), Some(ObjectId { hi: 0, mid: 0, lo: 7 }));
    assert_eq!(c.get_target(), Some(target));
    assert!(c.set_mode(Mode::TransferTo));
    assert!(!c.set_mode(Mode::TransferTo));
    assert_eq!(c.memory.mode.as_deref(), Some("transfer_to"));
    assert_eq!(c.get_target(), Some(ObjectId { hi: 0, mid: 0, lo: 7 }));
}

#[test]
fn creep_with_unknown_role_is_refused() {
    assert!(Creep::new("scout:1".to_string(), empty_memory()).is_none());
}

#[test]
fn corrupt_stored_id_reads_as_no_target() {
    let memory = AgentMemory { mode: Some("harvest".to_string()), input: Some("not an id".to_string()), output: None };
    let c = Creep::new("harvester:1".to_string(), memory).unwrap();
    assert_eq!(c.get_mode(), Mode::Harvest);
    assert_eq!(c.get_stored_id(TargetSlot::Input), None);
    assert_eq!(c.get_target(), None);
}

#[test]
fn actions_by_mode() {
    let i = ObjectId { hi: 0, mid: 0, lo: 1 };
    let o = ObjectId { hi: 0, mid: 0, lo: 2 };
    assert_eq!(execute_mode(Mode::Harvest, Some(i), Some(o)), Some((ActionKind::Harvest, i)));
    assert_eq!(execute_mode(Mode::TransferFrom, Some(i), Some(o)), Some((ActionKind::WithdrawAll, i)));
    assert_eq!(execute_mode(Mode::TransferTo, Some(i), Some(o)), Some((ActionKind::TransferAll, o)));
    assert_eq!(execute_mode(Mode::UpgradeController, Some(i), Some(o)), Some((ActionKind::Upgrade, o)));
    assert_eq!(execute_mode(Mode::Build, Some(i), Some(o)), Some((ActionKind::Build, o)));
    assert_eq!(execute_mode(Mode::Idle, Some(i), Some(o)), None);
    assert_eq!(execute_mode(Mode::Build, Some(i), None), None);
}

#[test]
fn result_codes_are_classified() {
    assert_eq!(classify(ResultCode::Success), Outcome::Done);
    assert_eq!(classify(ResultCode::NotInRange), Outcome::Retry);
    assert_eq!(classify(ResultCode::Tired), Outcome::Retry);
    assert_eq!(classify(ResultCode::InvalidTarget), Outcome::Failed);
    assert_eq!(classify(ResultCode::NameExists), Outcome::Failed);
    assert_eq!(classify(ResultCode::Other), Outcome::Failed);
}

#[test]
fn movement_after_acting() {
    let at = Position { x: 10, y: 10 };
    assert_eq!(move_to_target(at, None), Movement::Stay);
    assert_eq!(move_to_target(at, Some(at)), Movement::StepAside);
    assert_eq!(move_to_target(at, Some(Position { x: 11, y: 9 })), Movement::Stay);
    let far = Position { x: 13, y: 9 };
    assert_eq!(move_to_target(at, Some(far)), Movement::MoveToward(far));
    assert_eq!(get_range_to(at, far), 3);
    assert_eq!(get_range_to(Position { x: -6400, y: 0 }, Position { x: 6399, y: 5 }), 12799);
}

#[test]
fn stepping_aside_tries_each_direction_once() {
    assert_eq!(step_aside_direction(0), Some(Direction::Top));
    assert_eq!(step_aside_direction(7), Some(Direction::TopLeft));
    assert_eq!(step_aside_direction(8), None);
    assert_eq!(move_random_direction(0, ResultCode::Other), Some(Direction::TopRight));
    assert_eq!(move_random_direction(3, ResultCode::Success), None);
    assert_eq!(move_random_direction(7, ResultCode::Tired), None);
}

#[test]
fn role_rule_tables() {
    assert_eq!(Harvester::get_new_mode(0, 50), Some(Mode::Harvest));
    assert_eq!(Harvester::get_new_mode(50, 0), Some(Mode::TransferTo));
    assert_eq!(Harvester::get_new_mode(25, 25), None);
    let mut s = state(Role::Worker, Mode::Idle, 0, 50);
    assert!(!Worker::should_start_upgrade(&s));
    assert!(!Worker::should_start_build(&s));
    assert!(!Worker::should_start_transfer_from(&s));
    s.spawn_free_energy = Some(0);
    assert!(Worker::should_start_transfer_from(&s));
    assert_eq!(Worker::get_new_mode(&s), Mode::TransferFrom);
}
