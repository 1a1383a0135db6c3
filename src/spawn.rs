//! What a spawn produces: the body of the next agent, its role and its name.
use vstd::prelude::*;
use vstd::string::*;
use crate::creeps::{Role, role_tag};
use crate::execute::ResultCode;

verus! {

/// Names tried per spawn before giving up.
pub const MAX_NAME_ATTEMPTS: u32 = 1000;

/// Body parts the library composes bodies from.
#[derive(Clone, Copy, Debug, PartialEq, Eq, Structural)]
pub enum BodyPart {
    Move,
    Work,
    Carry,
}

pub open spec fn part_cost_of(p: BodyPart) -> nat {
    match p {
        BodyPart::Move => 50,
        BodyPart::Work => 100,
        BodyPart::Carry => 50,
    }
}

/// Relies on screeps' `Part::cost`: move 50, work 100, carry 50.
#[verifier::external_body]
pub(crate) fn part_cost(p: BodyPart) -> (r: u32)
    ensures
        r == part_cost_of(p),
{
    match p {
        BodyPart::Move => screeps::Part::Move,
        BodyPart::Work => screeps::Part::Work,
        BodyPart::Carry => screeps::Part::Carry,
    }.cost()
}

/// Decimal digits of `n`, without leading zeros.
pub open spec fn dec_text(n: nat) -> Seq<char>
    decreases n,
{
    if n < 10 {
        seq![((n + 48) as u32) as char]
    } else {
        dec_text(n / 10).push((((n % 10) + 48) as u32) as char)
    }
}

/// Relies on the `Display` of `u32` (through `ToString`): decimal digits
/// without leading zeros.
#[verifier::external_body]
fn decimal_text(n: u32) -> (r: String)
    ensures
        r@ == dec_text(n as nat),
{
    n.to_string()
}

pub open spec fn repeat(p: BodyPart, n: nat) -> Seq<BodyPart> {
    Seq::new(n, |i: int| p)
}

/// Body of a harvester for `capacity` energy: a move and a carry part, as
/// many work parts as the rest pays for, then carry parts with what is left.
pub open spec fn harvester_body(capacity: nat) -> Seq<BodyPart> {
    let rest = capacity - 100;
    let works = rest / 100;
    let carries = (rest - works * 100) / 50;
    seq![BodyPart::Move, BodyPart::Carry] + repeat(BodyPart::Work, works as nat) + repeat(BodyPart::Carry, carries as nat)
}

/// Body of a worker for `capacity` energy: as many move-carry-work sets as
/// `capacity` pays for, grouped by part, then one more move, carry and work
/// part each as long as `capacity` less one set still pays for them.
pub open spec fn worker_body(capacity: nat) -> Seq<BodyPart> {
    let sets = capacity / 200;
    let left0 = capacity - 200;
    let add_move = left0 >= 50;
    let left1 = if add_move { left0 - 50 } else { left0 };
    let add_carry = left1 >= 50;
    let left2 = if add_carry { left1 - 50 } else { left1 };
    let add_work = left2 >= 100;
    repeat(BodyPart::Move, sets as nat) + repeat(BodyPart::Carry, sets as nat) + repeat(BodyPart::Work, sets as nat)
        + (if add_move { seq![BodyPart::Move] } else { Seq::empty() })
        + (if add_carry { seq![BodyPart::Carry] } else { Seq::empty() })
        + (if add_work { seq![BodyPart::Work] } else { Seq::empty() })
}

/// Appends `n` copies of `p`.
pub fn push_parts(body: &mut Vec<BodyPart>, p: BodyPart, n: u32)
    ensures
        final(body)@ == old(body)@ + repeat(p, n as nat),
{
    let ghost start = body@;
    let mut i: u32 = 0;
    while i < n
        invariant
            i <= n,
            body@ == start + repeat(p, i as nat),
        decreases n - i,
    {
        body.push(p);
        i = i + 1;
        assert(body@ =~= start + repeat(p, i as nat));
    }
}

/// The next agent to spawn for `capacity` energy: a harvester while a node
/// can take one, else a worker.
pub fn get_spawn_target(capacity: u32, node_available: bool) -> (r: Option<(Vec<BodyPart>, Role)>)
    ensures
        node_available && capacity >= 100 ==> (r matches Some((b, role)) && role == Role::Harvester
            && b@ == harvester_body(capacity as nat)),
        !(node_available && capacity >= 100) && capacity >= 200 ==> (r matches Some((b, role)) && role == Role::Worker
            && b@ == worker_body(capacity as nat)),
        !(node_available && capacity >= 100) && capacity < 200 ==> r is None,
{
    if let Some(body) = crate::harvester_allocator::get_description(capacity, node_available) {
        return Some((body, Role::Harvester));
    }
    if let Some(body) = crate::worker_allocator::get_description(capacity) {
        return Some((body, Role::Worker));
    }
    None
}

/// Name of the `index`-th candidate for a new agent of role `role`:
/// the role's prefix, a colon, and `index` in decimal.
pub fn spawn_name(role: Role, index: u32) -> (r: String)
    ensures
        r@ == role_tag(role) + ":"@ + dec_text(index as nat),
{
    let prefix = role.to_string();
    let digits = decimal_text(index);
    prefix.concat(":").concat(digits.as_str())
}

/// After trying name `index` returned `code`: the next name index to try,
/// or `None` once the spawn went through, failed otherwise, or ran out of
/// names.
pub fn next_name_attempt(index: u32, code: ResultCode) -> (r: Option<u32>)
    ensures
        r == if code == ResultCode::NameExists && index + 1 < MAX_NAME_ATTEMPTS {
            Some((index + 1) as u32)
        } else {
            None
        },
{
    if code == ResultCode::NameExists && index < MAX_NAME_ATTEMPTS - 1 {
        Some(index + 1)
    } else {
        None
    }
}

} // verus!
