use colony_core::creeps::{AgentMemory, Creep};
use colony_core::geometry::Position;
use colony_core::placer::SpawnSite;
use colony_core::harvester_allocator::{
    allocate_creep_output, allocate_creeps, get_description, input_rate, output_rate, select_node, wasted_input_rate,
    HarvesterAgent, SourceNode, MAX_PER_NODE,
};
use colony_core::ids::ObjectId;
use colony_core::spawn::BodyPart;

fn id(n: u32) -> ObjectId {
    ObjectId { hi: 0, mid: 0, lo: n }
}

fn node(n: u32, rate: u32) -> SourceNode {
    SourceNode { id: id(n), energy_capacity: rate * 300 }
}

fn agent(target: Option<u32>, work_parts: u32) -> HarvesterAgent {
    HarvesterAgent { input: target.map(id), work_parts }
}

#[test]
fn input_rate_divides_by_regeneration_time() {
    assert_eq!(input_rate(&SourceNode { id: id(1), energy_capacity: 3000 }), 10);
    assert_eq!(input_rate(&SourceNode { id: id(1), energy_capacity: 1500 }), 5);
}

#[test]
fn output_rate_sums_assigned_harvesters() {
    let agents = vec![agent(Some(1), 1), agent(Some(2), 4), agent(Some(1), 3), agent(None, 7)];
    assert_eq!(output_rate(&agents, id(1)), (2, 8));
    assert_eq!(output_rate(&agents, id(2)), (1, 8));
    assert_eq!(output_rate(&agents, id(3)), (0, 0));
    assert_eq!(wasted_input_rate(&node(1, 10), &agents), (2, 2));
}

#[test]
fn picks_node_with_larger_input_rate() {
    let nodes = vec![node(2, 6), node(1, 10)];
    assert_eq!(select_node(&nodes, &vec![]), Some(id(1)));
}

#[test]
fn picks_node_with_most_waste_then_moves_on() {
    let nodes = vec![node(1, 10), node(2, 6)];
    let mut agents = vec![agent(Some(1), 1)];
    // A wastes 10 - 2 = 8, B wastes 6.
    assert_eq!(select_node(&nodes, &agents), Some(id(1)));
    // With a second harvester of output 6 on A it wastes 2 < 6.
    agents.push(agent(Some(1), 3));
    assert_eq!(select_node(&nodes, &agents), Some(id(2)));
}

#[test]
fn waste_alone_decides_below_the_cap() {
    let nodes = vec![node(1, 10), node(2, 6)];
    let agents = vec![agent(Some(1), 3)];
    assert_eq!(select_node(&nodes, &agents), Some(id(2)));
}

#[test]
fn repeated_selection_is_the_same() {
    let nodes = vec![node(3, 8), node(1, 10), node(2, 9)];
    let agents = vec![agent(Some(1), 1)];
    let first = select_node(&nodes, &agents);
    let second = select_node(&nodes, &agents);
    assert_eq!(first, second);
    assert_eq!(first, Some(id(2)));
}

#[test]
fn ties_go_to_smaller_identity() {
    let nodes = vec![node(7, 10), node(4, 10), node(9, 10)];
    assert_eq!(select_node(&nodes, &vec![]), Some(id(4)));
    let wide = vec![
        SourceNode { id: ObjectId { hi: 1, mid: 0, lo: 0 }, energy_capacity: 3000 },
        SourceNode { id: ObjectId { hi: 0, mid: 5, lo: 9 }, energy_capacity: 3000 },
    ];
    assert_eq!(select_node(&wide, &vec![]), Some(ObjectId { hi: 0, mid: 5, lo: 9 }));
}

#[test]
fn negative_waste_is_still_selectable() {
    let nodes = vec![node(1, 1)];
    let agents = vec![agent(Some(1), 5)];
    assert_eq!(select_node(&nodes, &agents), Some(id(1)));
}

#[test]
fn full_nodes_or_no_nodes_give_none() {
    let nodes = vec![node(1, 10)];
    let agents = vec![agent(Some(1), 1), agent(Some(1), 1)];
    assert_eq!(select_node(&nodes, &agents), None);
    assert_eq!(select_node(&vec![], &agents), None);
}

#[test]
fn allocation_respects_cap() {
    let nodes = vec![node(1, 10), node(2, 6)];
    let mut agents = vec![agent(None, 1), agent(None, 1), agent(None, 1), agent(None, 1), agent(None, 1)];
    allocate_creeps(&nodes, &mut agents);
    for n in [1u32, 2] {
        let count = agents.iter().filter(|a| a.input == Some(id(n))).count();
        assert!(count <= MAX_PER_NODE);
        assert_eq!(count, 2);
    }
    assert_eq!(agents[4].input, None);
    // A while it wastes most and has room, then B once A is full.
    assert_eq!(agents[0].input, Some(id(1)));
    assert_eq!(agents[1].input, Some(id(1)));
    assert_eq!(agents[2].input, Some(id(2)));
    assert_eq!(agents[3].input, Some(id(2)));
}

#[test]
fn allocation_keeps_existing_targets() {
    let nodes = vec![node(1, 10), node(2, 6)];
    let mut agents = vec![agent(Some(2), 1), agent(None, 1)];
    allocate_creeps(&nodes, &mut agents);
    assert_eq!(agents[0].input, Some(id(2)));
    assert_eq!(agents[1].input, Some(id(1)));
}

#[test]
fn harvester_body_uses_part_costs() {
    assert_eq!(get_description(300, true), Some(vec![BodyPart::Move, BodyPart::Carry, BodyPart::Work, BodyPart::Work]));
    assert_eq!(
        get_description(350, true),
        Some(vec![BodyPart::Move, BodyPart::Carry, BodyPart::Work, BodyPart::Work, BodyPart::Carry])
    );
    assert_eq!(get_description(100, true), Some(vec![BodyPart::Move, BodyPart::Carry]));
    assert_eq!(get_description(99, true), None);
    assert_eq!(get_description(300, false), None);
}

#[test]
fn harvester_unloads_into_last_named_spawn() {
    let spawns = vec![
        SpawnSite { name: "Alpha".to_string(), id: id(30), pos: Position { x: 0, y: 0 } },
        SpawnSite { name: "Beta".to_string(), id: id(31), pos: Position { x: 1, y: 0 } },
    ];
    let mut c = Creep::new("harvester:0".to_string(), AgentMemory { mode: None, input: None, output: None }).unwrap();
    allocate_creep_output(&mut c, false, &spawns);
    assert_eq!(c.get_output(), Some(id(31)));
    c.set_output(id(5));
    allocate_creep_output(&mut c, true, &spawns);
    assert_eq!(c.get_output(), Some(id(5)));
    allocate_creep_output(&mut c, false, &vec![]);
    assert_eq!(c.get_output(), Some(id(5)));
}
