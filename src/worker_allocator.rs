//! Targets of workers: the primary spawn to draw energy from, and the
//! controller or construction site to spend it on.
use vstd::prelude::*;
use crate::spawn::{BodyPart, worker_body, part_cost, push_parts};
use crate::creeps::{Creep, MINIMUM_DOWNGRADE_TIME};
use crate::ids::ObjectId;
use crate::placer::{SpawnSite, find_primary_spawn, is_primary_spawn};

verus! {

/// Most workers kept alive at once.
pub const MAX_WORKERS: usize = 2;

/// An owned controller.
#[derive(Clone, Copy, Debug, PartialEq, Eq, Structural)]
pub struct OwnedController {
    pub id: ObjectId,
    pub level: u32,
    pub ticks_to_downgrade: u32,
}

/// Where a worker's output target comes from.
#[derive(Clone, Copy, Debug, PartialEq, Eq, Structural)]
pub enum OutputChoice {
    /// An object that exists already.
    Existing(ObjectId),
    /// No target exists: a new extension site is to be placed.
    NewExtension,
}

pub open spec fn needs_upgrade(c: OwnedController) -> bool {
    c.level <= 1 || c.ticks_to_downgrade < MINIMUM_DOWNGRADE_TIME
}

/// Index of the first controller that needs upgrading.
pub open spec fn first_needing_upgrade(cs: Seq<OwnedController>, i: int) -> bool {
    0 <= i < cs.len() && needs_upgrade(cs[i]) && forall|k: int| 0 <= k < i ==> !needs_upgrade(#[trigger] cs[k])
}

/// The first owned controller that is low or close to downgrading.
pub fn find_controller_to_upgrade(controllers: &Vec<OwnedController>) -> (r: Option<ObjectId>)
    ensures
        r is None <==> forall|i: int| 0 <= i < controllers@.len() ==> !needs_upgrade(#[trigger] controllers@[i]),
        r matches Some(id) ==> exists|i: int| first_needing_upgrade(controllers@, i) && #[trigger] controllers@[i].id == id,
{
    let mut i: usize = 0;
    while i < controllers.len()
        invariant
            i <= controllers@.len(),
            forall|k: int| 0 <= k < i ==> !needs_upgrade(#[trigger] controllers@[k]),
        decreases controllers@.len() - i,
    {
        let c = controllers[i];
        if c.level <= 1 || c.ticks_to_downgrade < MINIMUM_DOWNGRADE_TIME {
            assert(first_needing_upgrade(controllers@, i as int));
            return Some(c.id);
        }
        i = i + 1;
    }
    None
}

pub open spec fn none_need_upgrade(cs: Seq<OwnedController>) -> bool {
    forall|i: int| 0 <= i < cs.len() ==> !needs_upgrade(#[trigger] cs[i])
}

/// `choice` is the output target of a worker: the first controller that
/// needs upgrading, else the last listed construction site, else a new
/// extension.
pub open spec fn is_output_choice(cs: Seq<OwnedController>, sites: Seq<ObjectId>, choice: OutputChoice) -> bool {
    if none_need_upgrade(cs) {
        choice == if sites.len() > 0 {
            OutputChoice::Existing(sites.last())
        } else {
            OutputChoice::NewExtension
        }
    } else {
        choice matches OutputChoice::Existing(id) && exists|i: int| first_needing_upgrade(cs, i) && #[trigger] cs[i].id == id
    }
}

/// The output target of a worker.
pub fn allocate_output_id(controllers: &Vec<OwnedController>, sites: &Vec<ObjectId>) -> (r: OutputChoice)
    ensures
        is_output_choice(controllers@, sites@, r),
{
    match find_controller_to_upgrade(controllers) {
        Some(id) => OutputChoice::Existing(id),
        None => {
            if sites.len() > 0 {
                OutputChoice::Existing(sites[sites.len() - 1])
            } else {
                OutputChoice::NewExtension
            }
        },
    }
}

/// The input target of a worker: the primary spawn.
pub fn allocate_input(spawns: &Vec<SpawnSite>) -> (r: Option<ObjectId>)
    ensures
        r is None <==> spawns@.len() == 0,
        r matches Some(id) ==> exists|i: int| is_primary_spawn(spawns@, i) && #[trigger] spawns@[i].id == id,
{
    match find_primary_spawn(spawns) {
        Some(i) => Some(spawns[i].id),
        None => None,
    }
}

/// Gives a worker its input and output targets. Returns whether a new
/// extension site must be placed for its output.
pub fn allocate_creep(creep: &mut Creep, spawns: &Vec<SpawnSite>, controllers: &Vec<OwnedController>, sites: &Vec<ObjectId>) -> (needs_site: bool)
    ensures
        final(creep).name == old(creep).name,
        final(creep).role == old(creep).role,
        final(creep).memory.mode == old(creep).memory.mode,
        spawns@.len() == 0 ==> final(creep).memory.input == old(creep).memory.input,
        spawns@.len() > 0 ==> exists|i: int| is_primary_spawn(spawns@, i) && final(creep).input_spec() == Some(#[trigger] spawns@[i].id),
        needs_site <==> (sites@.len() == 0 && none_need_upgrade(controllers@)),
        needs_site ==> final(creep).memory.output == old(creep).memory.output,
        !needs_site ==> exists|id: ObjectId| #[trigger] final(creep).output_spec() == Some(id)
            && is_output_choice(controllers@, sites@, OutputChoice::Existing(id)),
{
    if let Some(id) = allocate_input(spawns) {
        creep.set_input(id);
    }
    match allocate_output_id(controllers, sites) {
        OutputChoice::Existing(id) => {
            creep.set_output(id);
            false
        },
        OutputChoice::NewExtension => true,
    }
}

/// Worker body for `capacity` energy; `None` where `capacity` does not pay
/// for one move-carry-work set.
pub fn get_description(capacity: u32) -> (r: Option<Vec<BodyPart>>)
    ensures
        r is Some <==> capacity >= 200,
        r matches Some(b) ==> b@ == worker_body(capacity as nat),
{
    let set_cost = part_cost(BodyPart::Move) + part_cost(BodyPart::Carry) + part_cost(BodyPart::Work);
    if capacity < set_cost {
        return None;
    }
    let sets = capacity / set_cost;
    let mut body: Vec<BodyPart> = Vec::new();
    push_parts(&mut body, BodyPart::Move, sets);
    push_parts(&mut body, BodyPart::Carry, sets);
    push_parts(&mut body, BodyPart::Work, sets);
    let ghost base = body@;
    let mut left = capacity - set_cost;
    let move_cost = part_cost(BodyPart::Move);
    let add_move = move_cost <= left;
    if add_move {
        left = left - move_cost;
        body.push(BodyPart::Move);
    }
    let ghost b1 = body@;
    let carry_cost = part_cost(BodyPart::Carry);
    let add_carry = carry_cost <= left;
    if add_carry {
        left = left - carry_cost;
        body.push(BodyPart::Carry);
    }
    let ghost b2 = body@;
    let work_cost = part_cost(BodyPart::Work);
    if work_cost <= left {
        body.push(BodyPart::Work);
    }
    assert(body@ =~= worker_body(capacity as nat));
    Some(body)
}

pub open spec fn is_worker_name(name: Seq<char>) -> bool {
    "worker"@.len() <= name.len() && name.subrange(0, "worker"@.len() as int) == "worker"@
}

pub open spec fn worker_count(names: Seq<String>) -> nat
    decreases names.len(),
{
    if names.len() == 0 {
        0
    } else {
        worker_count(names.drop_last()) + if is_worker_name(names.last()@) { 1nat } else { 0nat }
    }
}

/// Whether fewer than `MAX_WORKERS` of the live agents are workers.
pub fn can_allocate_more(names: &Vec<String>) -> (r: bool)
    ensures
        r == (worker_count(names@) < MAX_WORKERS),
{
    let mut count: usize = 0;
    let mut i: usize = 0;
    while i < names.len()
        invariant
            i <= names@.len(),
            count <= i,
            count == worker_count(names@.subrange(0, i as int)),
        decreases names@.len() - i,
    {
        assert(names@.subrange(0, i + 1).drop_last() =~= names@.subrange(0, i as int));
        if crate::names::text_starts_with(names[i].as_str(), "worker") {
            count = count + 1;
        }
        i = i + 1;
    }
    assert(names@.subrange(0, i as int) =~= names@);
    count < MAX_WORKERS
}

} // verus!
