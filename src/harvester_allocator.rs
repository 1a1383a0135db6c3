//! Assignment of harvesters to the owned resource nodes, keeping the
//! regeneration that no harvester takes as small as possible.
use vstd::prelude::*;
use crate::spawn::{BodyPart, harvester_body, part_cost, push_parts};
use crate::ids::ObjectId;
use crate::creeps::Creep;
use crate::placer::{SpawnSite, find_primary_spawn, is_primary_spawn};

verus! {

/// Most harvesters that may work one node at a time.
pub const MAX_PER_NODE: usize = 2;

/// Relies on screeps' `HARVEST_POWER`: energy one work part harvests per tick.
#[verifier::external_body]
fn harvest_power() -> (r: u32)
    ensures
        r == 2,
{
    screeps::constants::HARVEST_POWER
}

/// Relies on screeps' `ENERGY_REGEN_TIME`: ticks between two refills of a node.
#[verifier::external_body]
fn energy_regen_time() -> (r: u32)
    ensures
        r == 300,
{
    screeps::constants::ENERGY_REGEN_TIME
}

/// An owned resource node.
#[derive(Clone, Copy, Debug, PartialEq, Eq, Structural)]
pub struct SourceNode {
    pub id: ObjectId,
    pub energy_capacity: u32,
}

/// What the allocator reads of a harvester: the node it holds, if any, and
/// its active work parts.
#[derive(Clone, Copy, Debug, PartialEq, Eq, Structural)]
pub struct HarvesterAgent {
    pub input: Option<ObjectId>,
    pub work_parts: u32,
}

/// Energy a node regenerates per tick.
pub open spec fn input_rate_of(node: SourceNode) -> int {
    node.energy_capacity as int / 300
}

/// Energy a harvester extracts per tick.
pub open spec fn output_rate_of(agent: HarvesterAgent) -> int {
    2 * agent.work_parts
}

/// Harvesters among `agents` that hold node `id`.
pub open spec fn assigned_count(agents: Seq<HarvesterAgent>, id: ObjectId) -> nat
    decreases agents.len(),
{
    if agents.len() == 0 {
        0
    } else {
        assigned_count(agents.drop_last(), id) + if agents.last().input == Some(id) { 1nat } else { 0nat }
    }
}

/// Combined extraction of the harvesters among `agents` that hold node `id`.
pub open spec fn assigned_output(agents: Seq<HarvesterAgent>, id: ObjectId) -> int
    decreases agents.len(),
{
    if agents.len() == 0 {
        0
    } else {
        assigned_output(agents.drop_last(), id) + if agents.last().input == Some(id) {
            output_rate_of(agents.last())
        } else {
            0
        }
    }
}

/// Regeneration of `node` that its harvesters leave unused; negative when
/// they could take more than it gives.
pub open spec fn wasted(node: SourceNode, agents: Seq<HarvesterAgent>) -> int {
    input_rate_of(node) - assigned_output(agents, node.id)
}

/// `node` can take another harvester.
pub open spec fn is_open(node: SourceNode, agents: Seq<HarvesterAgent>) -> bool {
    assigned_count(agents, node.id) < MAX_PER_NODE
}

/// `a` is preferred to `b`: more waste, or as much and a smaller identity.
pub open spec fn preferred(a: SourceNode, b: SourceNode, agents: Seq<HarvesterAgent>) -> bool {
    wasted(a, agents) > wasted(b, agents) || (wasted(a, agents) == wasted(b, agents)
        && a.id.value() < b.id.value())
}

/// Node `i` is open and no open node is preferred to it.
pub open spec fn is_best_node(nodes: Seq<SourceNode>, agents: Seq<HarvesterAgent>, i: int) -> bool {
    &&& 0 <= i < nodes.len()
    &&& is_open(nodes[i], agents)
    &&& forall|j: int|
        0 <= j < nodes.len() && is_open(#[trigger] nodes[j], agents) ==> !preferred(nodes[j], nodes[i], agents)
}

/// The node the allocator hands out: the open node with the most waste,
/// ties going to the smallest identity; `None` when every node is full.
pub open spec fn selected_node(nodes: Seq<SourceNode>, agents: Seq<HarvesterAgent>) -> Option<ObjectId> {
    if exists|i: int| is_best_node(nodes, agents, i) {
        Some(nodes[choose|i: int| is_best_node(nodes, agents, i)].id)
    } else {
        None
    }
}

/// Two best nodes are one and the same node identity, so the choice does not
/// depend on the order in which nodes are listed.
pub proof fn lemma_best_node_unique(nodes: Seq<SourceNode>, agents: Seq<HarvesterAgent>, i: int, k: int)
    requires
        is_best_node(nodes, agents, i),
        is_best_node(nodes, agents, k),
    ensures
        nodes[i].id == nodes[k].id,
{
    assert(!preferred(nodes[k], nodes[i], agents));
    assert(!preferred(nodes[i], nodes[k], agents));
    crate::ids::lemma_id_value_injective(nodes[i].id, nodes[k].id);
}

/// Energy node `node` regenerates per tick.
pub fn input_rate(node: &SourceNode) -> (r: u32)
    ensures
        r == input_rate_of(*node),
{
    node.energy_capacity / energy_regen_time()
}

/// Number and combined extraction of the harvesters that hold node `id`.
pub fn output_rate(agents: &Vec<HarvesterAgent>, id: ObjectId) -> (r: (usize, u128))
    ensures
        r.0 == assigned_count(agents@, id),
        r.1 == assigned_output(agents@, id),
{
    let power = harvest_power();
    let mut count: usize = 0;
    let mut total: u128 = 0;
    let mut i: usize = 0;
    while i < agents.len()
        invariant
            power == 2,
            i <= agents@.len(),
            count <= i,
            total <= 0x2_0000_0000 * i,
            count == assigned_count(agents@.subrange(0, i as int), id),
            total == assigned_output(agents@.subrange(0, i as int), id),
        decreases agents@.len() - i,
    {
        assert(agents@.subrange(0, i + 1).drop_last() =~= agents@.subrange(0, i as int));
        let a = agents[i];
        if a.input == Some(id) {
            count = count + 1;
            total = total + power as u128 * a.work_parts as u128;
        }
        i = i + 1;
    }
    assert(agents@.subrange(0, i as int) =~= agents@);
    (count, total)
}

/// Regeneration of `node` left unused by the harvesters that hold it.
pub fn wasted_input_rate(node: &SourceNode, agents: &Vec<HarvesterAgent>) -> (r: (usize, i128))
    ensures
        r.0 == assigned_count(agents@, node.id),
        r.1 == wasted(*node, agents@),
{
    let n = agents.len();
    let (count, total) = output_rate(agents, node.id);
    proof {
        lemma_assigned_output_bound(agents@, node.id);
        assert(total <= 0x2_0000_0000 * n);
        assert(0x2_0000_0000 * n <= 0x2_0000_0000 * 0xffff_ffff_ffff_ffffnat) by (nonlinear_arith)
            requires
                n <= 0xffff_ffff_ffff_ffffnat,
        ;
    }
    let rate = input_rate(node);
    (count, rate as i128 - total as i128)
}

proof fn lemma_assigned_output_bound(agents: Seq<HarvesterAgent>, id: ObjectId)
    ensures
        0 <= assigned_output(agents, id) <= 0x2_0000_0000 * agents.len(),
    decreases agents.len(),
{
    if agents.len() > 0 {
        lemma_assigned_output_bound(agents.drop_last(), id);
    }
}

/// The node to give a harvester that holds none.
pub fn select_node(nodes: &Vec<SourceNode>, agents: &Vec<HarvesterAgent>) -> (r: Option<ObjectId>)
    ensures
        r == selected_node(nodes@, agents@),
        r is None <==> forall|i: int| 0 <= i < nodes@.len() ==> !is_open(#[trigger] nodes@[i], agents@),
{
    let mut best: Option<(usize, i128)> = None;
    let mut j: usize = 0;
    while j < nodes.len()
        invariant
            j <= nodes@.len(),
            best is None ==> forall|k: int| 0 <= k < j ==> !is_open(#[trigger] nodes@[k], agents@),
            best matches Some((b, bw)) ==> {
                &&& b < j
                &&& is_open(nodes@[b as int], agents@)
                &&& bw == wasted(nodes@[b as int], agents@)
                &&& forall|k: int|
                    0 <= k < j && is_open(#[trigger] nodes@[k], agents@) ==> !preferred(nodes@[k], nodes@[b as int], agents@)
            },
        decreases nodes@.len() - j,
    {
        let (count, w) = wasted_input_rate(&nodes[j], agents);
        if count < MAX_PER_NODE {
            match best {
                None => {
                    best = Some((j, w));
                },
                Some((b, bw)) => {
                    if w > bw || (w == bw && nodes[j].id.precedes(&nodes[b].id)) {
                        best = Some((j, w));
                    }
                },
            }
        }
        j = j + 1;
    }
    match best {
        None => {
            proof {
                assert(!exists|i: int| is_best_node(nodes@, agents@, i));
            }
            None
        },
        Some((b, _)) => {
            proof {
                assert(is_best_node(nodes@, agents@, b as int));
                let c = choose|i: int| is_best_node(nodes@, agents@, i);
                lemma_best_node_unique(nodes@, agents@, b as int, c);
            }
            Some(nodes[b].id)
        },
    }
}

/// Harvester `i` after the allocator has looked at it: one that holds no
/// node gets the selected node, given what `agents` hold at that moment.
pub open spec fn allocation_step(nodes: Seq<SourceNode>, agents: Seq<HarvesterAgent>, i: int) -> Seq<HarvesterAgent> {
    if agents[i].input is None {
        agents.update(i, HarvesterAgent { input: selected_node(nodes, agents), work_parts: agents[i].work_parts })
    } else {
        agents
    }
}

/// The harvesters after the first `k` have been looked at, in order.
pub open spec fn allocated(nodes: Seq<SourceNode>, agents: Seq<HarvesterAgent>, k: nat) -> Seq<HarvesterAgent>
    decreases k,
{
    if k == 0 {
        agents
    } else {
        allocation_step(nodes, allocated(nodes, agents, (k - 1) as nat), k - 1)
    }
}

proof fn lemma_allocated_len(nodes: Seq<SourceNode>, agents: Seq<HarvesterAgent>, k: nat)
    requires
        k <= agents.len(),
    ensures
        allocated(nodes, agents, k).len() == agents.len(),
    decreases k,
{
    if k > 0 {
        lemma_allocated_len(nodes, agents, (k - 1) as nat);
    }
}

proof fn lemma_assigned_count_update(s: Seq<HarvesterAgent>, i: int, a: HarvesterAgent, id: ObjectId)
    requires
        0 <= i < s.len(),
    ensures
        assigned_count(s.update(i, a), id) + (if s[i].input == Some(id) { 1int } else { 0int })
            == assigned_count(s, id) + (if a.input == Some(id) { 1int } else { 0int }),
    decreases s.len(),
{
    let t = s.update(i, a);
    if i == s.len() - 1 {
        assert(t.drop_last() =~= s.drop_last());
    } else {
        assert(t.drop_last() =~= s.drop_last().update(i, a));
        lemma_assigned_count_update(s.drop_last(), i, a, id);
    }
}

/// Gives every harvester that holds no node the node `select_node` picks at
/// that moment, one harvester after the other; harvesters that hold a node
/// keep it.
pub fn allocate_creeps(nodes: &Vec<SourceNode>, agents: &mut Vec<HarvesterAgent>)
    ensures
        final(agents)@ == allocated(nodes@, old(agents)@, old(agents)@.len()),
{
    let ghost start = agents@;
    let mut i: usize = 0;
    while i < agents.len()
        invariant
            i <= agents@.len(),
            agents@.len() == start.len(),
            agents@ == allocated(nodes@, start, i as nat),
        decreases start.len() - i,
    {
        if agents[i].input.is_none() {
            let pick = select_node(nodes, agents);
            let work_parts = agents[i].work_parts;
            agents.set(i, HarvesterAgent { input: pick, work_parts });
        }
        i = i + 1;
    }
}

/// Allocation puts no node over its cap: where no node has more than
/// `MAX_PER_NODE` harvesters before, none has after.
pub proof fn lemma_allocation_respects_cap(nodes: Seq<SourceNode>, agents: Seq<HarvesterAgent>)
    requires
        forall|id: ObjectId| #[trigger] assigned_count(agents, id) <= MAX_PER_NODE,
    ensures
        forall|id: ObjectId| #[trigger] assigned_count(allocated(nodes, agents, agents.len()), id) <= MAX_PER_NODE,
{
    lemma_allocation_prefix_respects_cap(nodes, agents, agents.len());
}

proof fn lemma_allocation_prefix_respects_cap(nodes: Seq<SourceNode>, agents: Seq<HarvesterAgent>, k: nat)
    requires
        k <= agents.len(),
        forall|id: ObjectId| #[trigger] assigned_count(agents, id) <= MAX_PER_NODE,
    ensures
        forall|id: ObjectId| #[trigger] assigned_count(allocated(nodes, agents, k), id) <= MAX_PER_NODE,
    decreases k,
{
    if k > 0 {
        let prev = allocated(nodes, agents, (k - 1) as nat);
        lemma_allocation_prefix_respects_cap(nodes, agents, (k - 1) as nat);
        lemma_allocated_len(nodes, agents, (k - 1) as nat);
        let i = k - 1;
        if prev[i].input is None {
            let pick = selected_node(nodes, prev);
            let a = HarvesterAgent { input: pick, work_parts: prev[i].work_parts };
            assert forall|id: ObjectId| #[trigger] assigned_count(allocated(nodes, agents, k), id) <= MAX_PER_NODE by {
                lemma_assigned_count_update(prev, i, a, id);
                if pick == Some(id) {
                    let c = choose|c: int| is_best_node(nodes, prev, c);
                    assert(is_best_node(nodes, prev, c));
                    assert(is_open(nodes[c], prev));
                }
            }
        }
    }
}

/// Harvester body for `capacity` energy; `None` while no node can take a
/// harvester or where `capacity` does not pay for a move and a carry part.
pub fn get_description(capacity: u32, node_available: bool) -> (r: Option<Vec<BodyPart>>)
    ensures
        r is Some <==> node_available && capacity >= 100,
        r matches Some(b) ==> b@ == harvester_body(capacity as nat),
{
    if !node_available {
        return None;
    }
    let base_cost = part_cost(BodyPart::Move) + part_cost(BodyPart::Carry);
    if capacity < base_cost {
        return None;
    }
    let mut body: Vec<BodyPart> = Vec::new();
    body.push(BodyPart::Move);
    body.push(BodyPart::Carry);
    let rest = capacity - base_cost;
    let work_cost = part_cost(BodyPart::Work);
    let works = rest / work_cost;
    let carries = (rest - works * work_cost) / part_cost(BodyPart::Carry);
    assert(body@ =~= seq![BodyPart::Move, BodyPart::Carry]);
    push_parts(&mut body, BodyPart::Work, works);
    push_parts(&mut body, BodyPart::Carry, carries);
    Some(body)
}

proof fn lemma_best_carries_over(nodes: Seq<SourceNode>, other: Seq<SourceNode>, agents: Seq<HarvesterAgent>, i: int)
    requires
        is_best_node(nodes, agents, i),
        forall|x: SourceNode| nodes.contains(x) <==> other.contains(x),
    ensures
        exists|k: int| is_best_node(other, agents, k) && other[k].id == nodes[i].id,
{
    assert(nodes.contains(nodes[i]));
    let k = choose|k: int| 0 <= k < other.len() && other[k] == nodes[i];
    assert forall|j: int| 0 <= j < other.len() && is_open(#[trigger] other[j], agents) implies !preferred(other[j], other[k], agents) by {
        assert(other.contains(other[j]));
        let jj = choose|jj: int| 0 <= jj < nodes.len() && nodes[jj] == other[j];
        assert(is_open(nodes[jj], agents));
    }
    assert(is_best_node(other, agents, k));
}

/// Selection is repeatable: it depends on which nodes there are and what
/// the harvesters hold, not on the order in which nodes are listed, so two
/// calls over the same nodes and assignments pick the same node.
pub proof fn lemma_selection_ignores_order(nodes: Seq<SourceNode>, other: Seq<SourceNode>, agents: Seq<HarvesterAgent>)
    requires
        forall|x: SourceNode| nodes.contains(x) <==> other.contains(x),
    ensures
        selected_node(nodes, agents) == selected_node(other, agents),
{
    if exists|i: int| is_best_node(nodes, agents, i) {
        let i = choose|i: int| is_best_node(nodes, agents, i);
        lemma_best_carries_over(nodes, other, agents, i);
        let k = choose|k: int| is_best_node(other, agents, k) && other[k].id == nodes[i].id;
        let c = choose|c: int| is_best_node(other, agents, c);
        lemma_best_node_unique(other, agents, k, c);
    } else if exists|k: int| is_best_node(other, agents, k) {
        let k = choose|k: int| is_best_node(other, agents, k);
        lemma_best_carries_over(other, nodes, agents, k);
    }
}

/// Gives a harvester whose output target is gone the primary spawn to
/// unload into.
pub fn allocate_creep_output(creep: &mut Creep, output_live: bool, spawns: &Vec<SpawnSite>)
    ensures
        final(creep).name == old(creep).name,
        final(creep).role == old(creep).role,
        final(creep).memory.mode == old(creep).memory.mode,
        final(creep).memory.input == old(creep).memory.input,
        output_live || spawns@.len() == 0 ==> final(creep).memory.output == old(creep).memory.output,
        !output_live && spawns@.len() > 0 ==> exists|i: int|
            is_primary_spawn(spawns@, i) && final(creep).output_spec() == Some(#[trigger] spawns@[i].id),
{
    if output_live {
        return;
    }
    if let Some(i) = find_primary_spawn(spawns) {
        creep.set_output(spawns[i].id);
    }
}

} // verus!
