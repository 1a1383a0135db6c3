//! Per-agent behaviour: roles, modes, the rules that switch modes, and the
//! text under which a mode is persisted.
use vstd::prelude::*;
use vstd::string::*;
use crate::ids::{ObjectId, id_of_text, hex_text, lemma_id_text_round_trip};

verus! {

/// What an agent is doing; each mode reads one target slot.
#[derive(Clone, Copy, Debug, PartialEq, Eq, Structural)]
pub enum Mode {
    Idle,
    Harvest,
    TransferTo,
    TransferFrom,
    UpgradeController,
    Build,
}

/// The closed set of agent roles.
#[derive(Clone, Copy, Debug, PartialEq, Eq, Structural, Hash)]
pub enum Role {
    Harvester,
    Worker,
}

/// The persisted target a mode acts on.
#[derive(Clone, Copy, Debug, PartialEq, Eq, Structural)]
pub enum TargetSlot {
    Input,
    Output,
}

/// Where a mode gets a new target from when its slot is empty.
#[derive(Clone, Copy, Debug, PartialEq, Eq, Structural)]
pub enum TargetSource {
    /// The harvesting-node allocator.
    Allocator,
    /// The owned spawn whose name sorts last.
    Spawn,
    /// The room's owned controller.
    Controller,
    /// A construction site: an unclaimed one, else a new extension.
    Placer,
    /// The mode needs no target.
    Nothing,
}

/// The owned controller, as the worker rules read it.
#[derive(Clone, Copy, Debug, PartialEq, Eq, Structural)]
pub struct ControllerState {
    pub level: u32,
    pub ticks_to_downgrade: u32,
}

/// Controller downgrade distance below which workers upgrade it.
pub const MINIMUM_DOWNGRADE_TIME: u32 = 5000;

/// What the mode rules read of an agent and its surroundings in one tick.
#[derive(Clone, Copy, Debug, PartialEq, Eq, Structural)]
pub struct AgentState {
    pub role: Role,
    pub mode: Mode,
    pub used_capacity: u32,
    pub free_capacity: u32,
    /// The room's owned controller, if any.
    pub controller: Option<ControllerState>,
    /// The output slot holds a construction site that still exists.
    pub has_construction_target: bool,
    /// Free energy capacity of the primary spawn, if there is one.
    pub spawn_free_energy: Option<u32>,
}

pub open spec fn mode_tag(m: Mode) -> Seq<char> {
    match m {
        Mode::Idle => "idle"@,
        Mode::Harvest => "harvest"@,
        Mode::TransferTo => "transfer_to"@,
        Mode::TransferFrom => "transfer_from"@,
        Mode::UpgradeController => "upgrade_controller"@,
        Mode::Build => "build"@,
    }
}

/// The mode a persisted tag names; an unknown or corrupt tag reads as idle.
pub open spec fn mode_of_tag(t: Seq<char>) -> Mode {
    if t == "harvest"@ {
        Mode::Harvest
    } else if t == "transfer_to"@ {
        Mode::TransferTo
    } else if t == "transfer_from"@ {
        Mode::TransferFrom
    } else if t == "upgrade_controller"@ {
        Mode::UpgradeController
    } else if t == "build"@ {
        Mode::Build
    } else {
        Mode::Idle
    }
}

pub open spec fn role_tag(r: Role) -> Seq<char> {
    match r {
        Role::Harvester => "harvester"@,
        Role::Worker => "worker"@,
    }
}

pub open spec fn role_of_tag(t: Seq<char>) -> Option<Role> {
    if t == "harvester"@ {
        Some(Role::Harvester)
    } else if t == "worker"@ {
        Some(Role::Worker)
    } else {
        None
    }
}

/// Part of an agent name before its first `:`, the whole name if it has none.
pub open spec fn name_prefix(name: Seq<char>) -> Seq<char> {
    if exists|i: int| 0 <= i < name.len() && name[i] == ':' {
        name.subrange(0, choose_first_colon(name))
    } else {
        name
    }
}

pub open spec fn choose_first_colon(name: Seq<char>) -> int {
    choose|i: int| 0 <= i < name.len() && name[i] == ':' && forall|k: int| 0 <= k < i ==> name[k] != ':'
}

/// Whether `s` and `lit` hold the same characters.
fn text_is(s: &str, lit: &str) -> (r: bool)
    ensures
        r == (s@ == lit@),
{
    s.to_owned() == lit.to_owned()
}

/// The tag under which `m` is persisted.
pub fn mode_to_tag(m: Mode) -> (r: String)
    ensures
        r@ == mode_tag(m),
{
    let t = match m {
        Mode::Idle => "idle",
        Mode::Harvest => "harvest",
        Mode::TransferTo => "transfer_to",
        Mode::TransferFrom => "transfer_from",
        Mode::UpgradeController => "upgrade_controller",
        Mode::Build => "build",
    };
    t.to_owned()
}

/// The mode a persisted tag names, idle for an unknown tag.
pub fn mode_from_tag(t: &str) -> (r: Mode)
    ensures
        r == mode_of_tag(t@),
{
    if text_is(t, "harvest") {
        Mode::Harvest
    } else if text_is(t, "transfer_to") {
        Mode::TransferTo
    } else if text_is(t, "transfer_from") {
        Mode::TransferFrom
    } else if text_is(t, "upgrade_controller") {
        Mode::UpgradeController
    } else if text_is(t, "build") {
        Mode::Build
    } else {
        Mode::Idle
    }
}

/// A mode read back from its own tag is the same mode.
pub proof fn lemma_mode_tag_round_trip(m: Mode)
    ensures
        mode_of_tag(mode_tag(m)) == m,
{
    reveal_strlit("idle");
    reveal_strlit("harvest");
    reveal_strlit("transfer_to");
    reveal_strlit("transfer_from");
    reveal_strlit("upgrade_controller");
    reveal_strlit("build");
    assert("idle"@.len() == 4 && "harvest"@.len() == 7 && "transfer_to"@.len() == 11
        && "transfer_from"@.len() == 13 && "upgrade_controller"@.len() == 18 && "build"@.len() == 5);
}

impl Role {
    /// The name prefix of agents of this role.
    pub fn to_string(&self) -> (r: String)
        ensures
            r@ == role_tag(*self),
    {
        match self {
            Role::Harvester => "harvester".to_owned(),
            Role::Worker => "worker".to_owned(),
        }
    }

    /// The role a name prefix stands for.
    pub fn from_str(s: &str) -> (r: Option<Role>)
        ensures
            r == role_of_tag(s@),
    {
        if text_is(s, "harvester") {
            Some(Role::Harvester)
        } else if text_is(s, "worker") {
            Some(Role::Worker)
        } else {
            None
        }
    }

    /// The role of the agent called `name`, read from the part of the name
    /// before its first `:`.
    pub fn of_name(name: &str) -> (r: Option<Role>)
        ensures
            r == role_of_tag(name_prefix(name@)),
    {
        let n = name.unicode_len();
        let mut i: usize = 0;
        while i < n
            invariant
                n == name@.len(),
                i <= n,
                forall|k: int| 0 <= k < i ==> name@[k] != ':',
            decreases n - i,
        {
            if name.get_char(i) == ':' {
                proof {
                    let c = choose_first_colon(name@);
                    assert(0 <= c < name@.len() && name@[c] == ':' && forall|k: int| 0 <= k < c ==> name@[k] != ':');
                    assert(c == i);
                }
                return Role::from_str(name.substring_char(0, i));
            }
            i = i + 1;
        }
        Role::from_str(name)
    }
}

/// Mode rule of a harvester: unload when full, harvest when empty, else keep on.
pub open spec fn harvester_mode_of(used: u32, free: u32) -> Option<Mode> {
    if free == 0 {
        Some(Mode::TransferTo)
    } else if used == 0 {
        Some(Mode::Harvest)
    } else {
        None
    }
}

pub open spec fn upgrade_due(s: AgentState) -> bool {
    (s.mode == Mode::Idle || s.free_capacity == 0) && match s.controller {
        Some(c) => c.level <= 1 || c.ticks_to_downgrade < MINIMUM_DOWNGRADE_TIME,
        None => false,
    }
}

pub open spec fn build_due(s: AgentState) -> bool {
    s.free_capacity == 0 && s.has_construction_target
}

pub open spec fn transfer_from_due(s: AgentState) -> bool {
    (s.mode == Mode::Idle || s.used_capacity == 0) && s.spawn_free_energy == Some(0u32)
}

/// Mode rule of a worker, first rule that applies winning.
pub open spec fn worker_mode_of(s: AgentState) -> Mode {
    if upgrade_due(s) {
        Mode::UpgradeController
    } else if build_due(s) {
        Mode::Build
    } else if transfer_from_due(s) {
        Mode::TransferFrom
    } else {
        Mode::Idle
    }
}

/// The mode an agent switches to, `None` where it keeps its mode.
pub open spec fn new_mode_of(s: AgentState) -> Option<Mode> {
    match s.role {
        Role::Harvester => harvester_mode_of(s.used_capacity, s.free_capacity),
        Role::Worker => Some(worker_mode_of(s)),
    }
}

/// The mode an agent is in after its mode is re-evaluated.
pub open spec fn updated_mode_of(s: AgentState) -> Mode {
    match new_mode_of(s) {
        Some(m) => m,
        None => s.mode,
    }
}

/// Mode rules of harvesters.
pub struct Harvester;

/// Mode rules of workers.
pub struct Worker;

impl Harvester {
    /// The mode a harvester switches to, `None` to keep its mode.
    pub fn get_new_mode(used: u32, free: u32) -> (r: Option<Mode>)
        ensures
            r == harvester_mode_of(used, free),
    {
        if free == 0 {
            Some(Mode::TransferTo)
        } else if used == 0 {
            Some(Mode::Harvest)
        } else {
            None
        }
    }
}

impl Worker {
    /// Whether the worker should start upgrading the controller.
    pub fn should_start_upgrade(s: &AgentState) -> (r: bool)
        ensures
            r == upgrade_due(*s),
    {
        if s.mode != Mode::Idle && s.free_capacity != 0 {
            return false;
        }
        match s.controller {
            Some(c) => c.level <= 1 || c.ticks_to_downgrade < MINIMUM_DOWNGRADE_TIME,
            None => false,
        }
    }

    /// Whether the worker should start building.
    pub fn should_start_build(s: &AgentState) -> (r: bool)
        ensures
            r == build_due(*s),
    {
        s.free_capacity == 0 && s.has_construction_target
    }

    /// Whether the worker should start taking energy from the spawn.
    pub fn should_start_transfer_from(s: &AgentState) -> (r: bool)
        ensures
            r == transfer_from_due(*s),
    {
        if s.mode != Mode::Idle && s.used_capacity != 0 {
            return false;
        }
        match s.spawn_free_energy {
            Some(free) => free == 0,
            None => false,
        }
    }

    /// The mode a worker switches to.
    pub fn get_new_mode(s: &AgentState) -> (r: Mode)
        ensures
            r == worker_mode_of(*s),
    {
        if Worker::should_start_upgrade(s) {
            Mode::UpgradeController
        } else if Worker::should_start_build(s) {
            Mode::Build
        } else if Worker::should_start_transfer_from(s) {
            Mode::TransferFrom
        } else {
            Mode::Idle
        }
    }
}

/// The mode the agent's role switches it to, `None` to keep its mode.
pub fn get_new_mode(s: &AgentState) -> (r: Option<Mode>)
    ensures
        r == new_mode_of(*s),
{
    match s.role {
        Role::Harvester => Harvester::get_new_mode(s.used_capacity, s.free_capacity),
        Role::Worker => Some(Worker::get_new_mode(s)),
    }
}

/// The agent's mode after re-evaluation.
pub fn update_mode(s: &AgentState) -> (r: Mode)
    ensures
        r == updated_mode_of(*s),
{
    match get_new_mode(s) {
        Some(m) => m,
        None => s.mode,
    }
}

/// A harvester whose store is full is unloading once its mode has been
/// re-evaluated, which happens after its action in every tick.
pub proof fn lemma_full_harvester_transfers(s: AgentState)
    requires
        s.role == Role::Harvester,
        s.free_capacity == 0,
    ensures
        updated_mode_of(s) == Mode::TransferTo,
{
}

/// A full worker with a controller to upgrade or a site to build is
/// spending its load once its mode has been re-evaluated.
pub proof fn lemma_full_worker_spends(s: AgentState)
    requires
        s.role == Role::Worker,
        s.free_capacity == 0,
        s.has_construction_target || upgrade_due(s),
    ensures
        updated_mode_of(s) == Mode::UpgradeController || updated_mode_of(s) == Mode::Build,
{
}

pub open spec fn slot_of(m: Mode) -> TargetSlot {
    match m {
        Mode::Idle | Mode::Harvest | Mode::TransferFrom => TargetSlot::Input,
        Mode::TransferTo | Mode::UpgradeController | Mode::Build => TargetSlot::Output,
    }
}

/// The slot the mode reads its target from.
pub fn get_target_key(m: Mode) -> (r: TargetSlot)
    ensures
        r == slot_of(m),
{
    match m {
        Mode::Idle | Mode::Harvest | Mode::TransferFrom => TargetSlot::Input,
        Mode::TransferTo | Mode::UpgradeController | Mode::Build => TargetSlot::Output,
    }
}

pub open spec fn source_of(m: Mode) -> TargetSource {
    match m {
        Mode::Idle => TargetSource::Nothing,
        Mode::Harvest => TargetSource::Allocator,
        Mode::TransferTo | Mode::TransferFrom => TargetSource::Spawn,
        Mode::UpgradeController => TargetSource::Controller,
        Mode::Build => TargetSource::Placer,
    }
}

/// Where a mode with an empty slot gets a new target from.
pub fn target_source(m: Mode) -> (r: TargetSource)
    ensures
        r == source_of(m),
{
    match m {
        Mode::Idle => TargetSource::Nothing,
        Mode::Harvest => TargetSource::Allocator,
        Mode::TransferTo | Mode::TransferFrom => TargetSource::Spawn,
        Mode::UpgradeController => TargetSource::Controller,
        Mode::Build => TargetSource::Placer,
    }
}

/// An agent's persisted record: flat text values under the keys mode,
/// input and output.
#[derive(Clone, Debug)]
pub struct AgentMemory {
    pub mode: Option<String>,
    pub input: Option<String>,
    pub output: Option<String>,
}

/// A live agent: its name, the role the name gives it, and its record.
#[derive(Clone, Debug)]
pub struct Creep {
    pub name: String,
    pub role: Role,
    pub memory: AgentMemory,
}

pub open spec fn stored_id_of(text: Option<String>) -> Option<ObjectId> {
    match text {
        Some(t) => id_of_text(t@),
        None => None,
    }
}

impl Creep {
    pub open spec fn mode_spec(&self) -> Mode {
        match self.memory.mode {
            Some(t) => mode_of_tag(t@),
            None => Mode::Idle,
        }
    }

    pub open spec fn input_spec(&self) -> Option<ObjectId> {
        stored_id_of(self.memory.input)
    }

    pub open spec fn output_spec(&self) -> Option<ObjectId> {
        stored_id_of(self.memory.output)
    }

    /// The agent called `name` with record `memory`; `None` where the name
    /// names no role.
    pub fn new(name: String, memory: AgentMemory) -> (r: Option<Creep>)
        ensures
            r is None <==> role_of_tag(name_prefix(name@)) is None,
            r matches Some(c) ==> c.name@ == name@ && Some(c.role) == role_of_tag(name_prefix(name@))
                && c.memory == memory,
    {
        match Role::of_name(name.as_str()) {
            Some(role) => Some(Creep { name, role, memory }),
            None => None,
        }
    }

    /// The persisted mode; idle when none is stored or the tag is unknown.
    pub fn get_mode(&self) -> (r: Mode)
        ensures
            r == self.mode_spec(),
    {
        match &self.memory.mode {
            Some(t) => mode_from_tag(t.as_str()),
            None => Mode::Idle,
        }
    }

    /// Persists `mode`; returns whether it differs from the mode held before.
    pub fn set_mode(&mut self, mode: Mode) -> (changed: bool)
        ensures
            changed == (old(self).mode_spec() != mode),
            final(self).mode_spec() == mode,
            final(self).name == old(self).name,
            final(self).role == old(self).role,
            final(self).memory.input == old(self).memory.input,
            final(self).memory.output == old(self).memory.output,
    {
        if self.get_mode() == mode {
            return false;
        }
        let tag = mode_to_tag(mode);
        proof {
            lemma_mode_tag_round_trip(mode);
        }
        self.memory.mode = Some(tag);
        true
    }

    /// The identity stored in slot `slot`; `None` where nothing or a
    /// corrupt text is stored.
    pub fn get_stored_id(&self, slot: TargetSlot) -> (r: Option<ObjectId>)
        ensures
            r == match slot {
                TargetSlot::Input => self.input_spec(),
                TargetSlot::Output => self.output_spec(),
            },
    {
        let text = match slot {
            TargetSlot::Input => &self.memory.input,
            TargetSlot::Output => &self.memory.output,
        };
        match text {
            Some(t) => ObjectId::from_text(t.as_str()),
            None => None,
        }
    }

    /// The stored input target.
    pub fn get_input(&self) -> (r: Option<ObjectId>)
        ensures
            r == self.input_spec(),
    {
        self.get_stored_id(TargetSlot::Input)
    }

    /// The stored output target.
    pub fn get_output(&self) -> (r: Option<ObjectId>)
        ensures
            r == self.output_spec(),
    {
        self.get_stored_id(TargetSlot::Output)
    }

    /// The target of the slot the current mode reads.
    pub fn get_target(&self) -> (r: Option<ObjectId>)
        ensures
            r == match slot_of(self.mode_spec()) {
                TargetSlot::Input => self.input_spec(),
                TargetSlot::Output => self.output_spec(),
            },
    {
        let slot = get_target_key(self.get_mode());
        self.get_stored_id(slot)
    }

    /// Persists `id` as input target; reading it back gives `id`.
    pub fn set_input(&mut self, id: ObjectId)
        ensures
            final(self).memory.input matches Some(t) && t@ == hex_text(id.value()),
            final(self).input_spec() == Some(id),
            final(self).name == old(self).name,
            final(self).role == old(self).role,
            final(self).memory.mode == old(self).memory.mode,
            final(self).memory.output == old(self).memory.output,
    {
        let text = id.to_text();
        proof {
            lemma_id_text_round_trip(id);
        }
        self.memory.input = Some(text);
    }

    /// Persists `id` as output target; reading it back gives `id`.
    pub fn set_output(&mut self, id: ObjectId)
        ensures
            final(self).memory.output matches Some(t) && t@ == hex_text(id.value()),
            final(self).output_spec() == Some(id),
            final(self).name == old(self).name,
            final(self).role == old(self).role,
            final(self).memory.mode == old(self).memory.mode,
            final(self).memory.input == old(self).memory.input,
    {
        let text = id.to_text();
        proof {
            lemma_id_text_round_trip(id);
        }
        self.memory.output = Some(text);
    }
}

} // verus!
