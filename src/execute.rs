//! One tick of an agent: which action to issue against which target, how a
//! result code is treated, and where to move afterwards.
use vstd::prelude::*;
use crate::creeps::{AgentState, Mode, TargetSlot, slot_of, updated_mode_of, update_mode, get_target_key};
use crate::geometry::Position;
use crate::ids::ObjectId;

verus! {

/// Action an agent issues against its target.
#[derive(Clone, Copy, Debug, PartialEq, Eq, Structural)]
pub enum ActionKind {
    Harvest,
    WithdrawAll,
    TransferAll,
    Upgrade,
    Build,
}

/// Result code of an action or a move.
#[derive(Clone, Copy, Debug, PartialEq, Eq, Structural)]
pub enum ResultCode {
    Success,
    NotInRange,
    Tired,
    InvalidTarget,
    NameExists,
    Other,
}

/// How a result code is handled.
#[derive(Clone, Copy, Debug, PartialEq, Eq, Structural)]
pub enum Outcome {
    /// The action went through.
    Done,
    /// Not in range or fatigued: tried again next tick, nothing changes.
    Retry,
    /// Any other failure: reported, nothing changes, the tick goes on.
    Failed,
}

/// Compass step from one tile to a neighbour.
#[derive(Clone, Copy, Debug, PartialEq, Eq, Structural)]
pub enum Direction {
    Top,
    TopRight,
    Right,
    BottomRight,
    Bottom,
    BottomLeft,
    Left,
    TopLeft,
}

/// Movement after the action.
#[derive(Clone, Copy, Debug, PartialEq, Eq, Structural)]
pub enum Movement {
    /// No target, or already next to it.
    Stay,
    /// Walk toward this position.
    MoveToward(Position),
    /// Standing on the target: step onto a free neighbouring tile.
    StepAside,
}

/// The decisions for an agent before it acts.
#[derive(Clone, Copy, Debug)]
pub struct TickPlan {
    pub mode: Mode,
    pub action: Option<(ActionKind, ObjectId)>,
}

pub open spec fn action_of(m: Mode) -> Option<ActionKind> {
    match m {
        Mode::Idle => None,
        Mode::Harvest => Some(ActionKind::Harvest),
        Mode::TransferFrom => Some(ActionKind::WithdrawAll),
        Mode::TransferTo => Some(ActionKind::TransferAll),
        Mode::UpgradeController => Some(ActionKind::Upgrade),
        Mode::Build => Some(ActionKind::Build),
    }
}

pub open spec fn slot_target(m: Mode, input: Option<ObjectId>, output: Option<ObjectId>) -> Option<ObjectId> {
    match slot_of(m) {
        TargetSlot::Input => input,
        TargetSlot::Output => output,
    }
}

/// The action of mode `m` against the target in its slot; none without a
/// target or in idle mode.
pub open spec fn planned_action(m: Mode, input: Option<ObjectId>, output: Option<ObjectId>) -> Option<(ActionKind, ObjectId)> {
    match (action_of(m), slot_target(m, input, output)) {
        (Some(a), Some(t)) => Some((a, t)),
        _ => None,
    }
}

pub open spec fn outcome_of(c: ResultCode) -> Outcome {
    match c {
        ResultCode::Success => Outcome::Done,
        ResultCode::NotInRange | ResultCode::Tired => Outcome::Retry,
        _ => Outcome::Failed,
    }
}

pub open spec fn abs_diff(a: int, b: int) -> int {
    if a >= b { a - b } else { b - a }
}

/// Steps between two tiles when diagonal steps are allowed.
pub open spec fn range_between(a: Position, b: Position) -> int {
    let dx = abs_diff(a.x as int, b.x as int);
    let dy = abs_diff(a.y as int, b.y as int);
    if dx >= dy { dx } else { dy }
}

pub open spec fn movement_of(at: Position, target: Option<Position>) -> Movement {
    match target {
        None => Movement::Stay,
        Some(t) => if range_between(at, t) == 0 {
            Movement::StepAside
        } else if range_between(at, t) > 1 {
            Movement::MoveToward(t)
        } else {
            Movement::Stay
        },
    }
}

/// Directions tried, in order, when stepping aside.
pub open spec fn step_order(i: int) -> Option<Direction> {
    if i == 0 {
        Some(Direction::Top)
    } else if i == 1 {
        Some(Direction::TopRight)
    } else if i == 2 {
        Some(Direction::Right)
    } else if i == 3 {
        Some(Direction::BottomRight)
    } else if i == 4 {
        Some(Direction::Bottom)
    } else if i == 5 {
        Some(Direction::BottomLeft)
    } else if i == 6 {
        Some(Direction::Left)
    } else if i == 7 {
        Some(Direction::TopLeft)
    } else {
        None
    }
}

/// The action of `mode` against the target in its slot.
pub fn execute_mode(mode: Mode, input: Option<ObjectId>, output: Option<ObjectId>) -> (r: Option<(ActionKind, ObjectId)>)
    ensures
        r == planned_action(mode, input, output),
{
    let target = match get_target_key(mode) {
        TargetSlot::Input => input,
        TargetSlot::Output => output,
    };
    let action = match mode {
        Mode::Idle => None,
        Mode::Harvest => Some(ActionKind::Harvest),
        Mode::TransferFrom => Some(ActionKind::WithdrawAll),
        Mode::TransferTo => Some(ActionKind::TransferAll),
        Mode::UpgradeController => Some(ActionKind::Upgrade),
        Mode::Build => Some(ActionKind::Build),
    };
    match (action, target) {
        (Some(a), Some(t)) => Some((a, t)),
        _ => None,
    }
}

/// Re-evaluates the agent's mode and picks its action for this tick.
/// `input` and `output` are the persisted targets that still exist.
pub fn execute(state: &AgentState, input: Option<ObjectId>, output: Option<ObjectId>) -> (r: TickPlan)
    ensures
        r.mode == updated_mode_of(*state),
        r.action == planned_action(r.mode, input, output),
{
    let mode = update_mode(state);
    TickPlan { mode, action: execute_mode(mode, input, output) }
}

/// How a result code is handled.
pub fn classify(code: ResultCode) -> (r: Outcome)
    ensures
        r == outcome_of(code),
{
    match code {
        ResultCode::Success => Outcome::Done,
        ResultCode::NotInRange | ResultCode::Tired => Outcome::Retry,
        _ => Outcome::Failed,
    }
}

/// Steps between two tiles.
pub fn get_range_to(a: Position, b: Position) -> (r: u32)
    ensures
        r == range_between(a, b),
{
    let dx: i64 = if a.x >= b.x { a.x as i64 - b.x as i64 } else { b.x as i64 - a.x as i64 };
    let dy: i64 = if a.y >= b.y { a.y as i64 - b.y as i64 } else { b.y as i64 - a.y as i64 };
    if dx >= dy { dx as u32 } else { dy as u32 }
}

/// Where an agent at `at` moves once it has acted, given the position of
/// its current target.
pub fn move_to_target(at: Position, target: Option<Position>) -> (r: Movement)
    ensures
        r == movement_of(at, target),
{
    match target {
        None => Movement::Stay,
        Some(t) => {
            let range = get_range_to(at, t);
            if range == 0 {
                Movement::StepAside
            } else if range > 1 {
                Movement::MoveToward(t)
            } else {
                Movement::Stay
            }
        },
    }
}

/// The `attempt`-th direction to try when stepping aside, clockwise from the top.
pub fn step_aside_direction(attempt: usize) -> (r: Option<Direction>)
    ensures
        r == step_order(attempt as int),
{
    match attempt {
        0 => Some(Direction::Top),
        1 => Some(Direction::TopRight),
        2 => Some(Direction::Right),
        3 => Some(Direction::BottomRight),
        4 => Some(Direction::Bottom),
        5 => Some(Direction::BottomLeft),
        6 => Some(Direction::Left),
        7 => Some(Direction::TopLeft),
        _ => None,
    }
}

/// After attempt `attempt` of stepping aside returned `code`: the next
/// direction to try, or `None` once a step went through or all were tried.
pub fn move_random_direction(attempt: usize, code: ResultCode) -> (r: Option<Direction>)
    requires
        attempt < 8,
    ensures
        r == if code == ResultCode::Success { None } else { step_order(attempt + 1) },
{
    if code == ResultCode::Success {
        None
    } else {
        step_aside_direction(attempt + 1)
    }
}

} // verus!
