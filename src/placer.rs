//! Placement of extension construction sites on a spiral around the anchor
//! spawn.
use vstd::prelude::*;
use crate::ids::ObjectId;
use crate::geometry::{Position, spiral_position, get_position_at_spiral_index};
use crate::names::{name_less, name_precedes, lemma_name_less_irreflexive, lemma_name_less_transitive};

verus! {

/// How many placements one search may try before giving up.
pub const MAX_PLACEMENT_ATTEMPTS: u32 = 32;

/// Extensions a room may hold at a controller level.
pub open spec fn extension_capacity(level: int) -> int {
    if level == 2 {
        5
    } else if level == 3 {
        10
    } else if level == 4 {
        20
    } else if level == 5 {
        30
    } else if level == 6 {
        40
    } else if level == 7 {
        50
    } else if level == 8 {
        60
    } else {
        0
    }
}

/// Kind of an owned structure, as far as placement cares.
#[derive(Clone, Copy, Debug, PartialEq, Eq, Structural)]
pub enum StructureKind {
    Spawn,
    Extension,
    Other,
}

/// A spawn that can anchor the spiral.
#[derive(Clone, Debug)]
pub struct SpawnSite {
    pub name: String,
    pub id: ObjectId,
    pub pos: Position,
}

/// Number of extensions buildable at controller level `level`.
pub fn get_max_number_of_extensions(level: u32) -> (r: usize)
    ensures
        r == extension_capacity(level as int),
{
    match level {
        2 => 5,
        3 => 10,
        4 => 20,
        5 => 30,
        6 => 40,
        7 => 50,
        8 => 60,
        _ => 0,
    }
}

/// Whether a room at controller level `level` with `count` extensions has
/// room for another.
pub fn can_build_extension(level: u32, count: usize) -> (r: bool)
    ensures
        r == (count < extension_capacity(level as int)),
{
    count < get_max_number_of_extensions(level)
}

pub open spec fn count_kind(kinds: Seq<StructureKind>, kind: StructureKind) -> nat
    decreases kinds.len(),
{
    if kinds.len() == 0 {
        0
    } else {
        count_kind(kinds.drop_last(), kind) + if kinds.last() == kind { 1nat } else { 0nat }
    }
}

/// Number of extensions among the room's structures.
pub fn count_extensions(kinds: &Vec<StructureKind>) -> (r: usize)
    ensures
        r == count_kind(kinds@, StructureKind::Extension),
{
    let mut n: usize = 0;
    let mut i: usize = 0;
    while i < kinds.len()
        invariant
            i <= kinds@.len(),
            n <= i,
            n == count_kind(kinds@.subrange(0, i as int), StructureKind::Extension),
        decreases kinds@.len() - i,
    {
        assert(kinds@.subrange(0, i + 1).drop_last() =~= kinds@.subrange(0, i as int));
        if kinds[i] == StructureKind::Extension {
            n = n + 1;
        }
        i = i + 1;
    }
    assert(kinds@.subrange(0, i as int) =~= kinds@);
    n
}

/// Spawn `i` has a name that no other spawn's name sorts after.
pub open spec fn is_primary_spawn(spawns: Seq<SpawnSite>, i: int) -> bool {
    0 <= i < spawns.len() && forall|j: int|
        0 <= j < spawns.len() ==> !name_less(spawns[i].name@, #[trigger] spawns[j].name@)
}

/// Index of the spawn whose name sorts last, so that the choice does not
/// depend on the order in which spawns are listed.
pub fn find_primary_spawn(spawns: &Vec<SpawnSite>) -> (r: Option<usize>)
    ensures
        r is None <==> spawns@.len() == 0,
        r matches Some(i) ==> is_primary_spawn(spawns@, i as int),
{
    if spawns.len() == 0 {
        return None;
    }
    let mut best: usize = 0;
    let mut i: usize = 1;
    proof {
        lemma_name_less_irreflexive(spawns@[0].name@);
    }
    while i < spawns.len()
        invariant
            1 <= i <= spawns@.len(),
            best < i,
            forall|j: int| 0 <= j < i ==> !name_less(spawns@[best as int].name@, #[trigger] spawns@[j].name@),
        decreases spawns@.len() - i,
    {
        if name_precedes(spawns[best].name.as_str(), spawns[i].name.as_str()) {
            proof {
                lemma_name_less_irreflexive(spawns@[i as int].name@);
                assert forall|j: int| 0 <= j <= i implies !name_less(spawns@[i as int].name@, #[trigger] spawns@[j].name@) by {
                    if j < i && name_less(spawns@[i as int].name@, spawns@[j].name@) {
                        lemma_name_less_transitive(spawns@[best as int].name@, spawns@[i as int].name@, spawns@[j].name@);
                    }
                }
            }
            best = i;
        }
        i = i + 1;
    }
    Some(best)
}

/// The anchor of the extension spiral: the position of the primary spawn.
pub fn find_extension_root(spawns: &Vec<SpawnSite>) -> (r: Option<Position>)
    ensures
        r is None <==> spawns@.len() == 0,
        r matches Some(p) ==> exists|i: int| is_primary_spawn(spawns@, i) && #[trigger] spawns@[i].pos == p,
{
    match find_primary_spawn(spawns) {
        Some(i) => Some(spawns[i].pos),
        None => None,
    }
}

/// Spiral index of the `count`-th extension: odd indices only, so the anchor
/// (index 0) is skipped and every other tile stays free for roads.
pub open spec fn extension_spiral_index(count: int) -> int {
    2 * count + 1
}

/// Where attempt number `attempt` of one search should place an extension,
/// given `current_count` extensions already built: each failed attempt moves
/// one slot further along the spiral. `None` once the level allows no more
/// extensions, once the attempts are used up, or where the tile leaves the
/// world.
pub fn place_extension_construction_site(anchor: Position, level: u32, current_count: usize, attempt: u32) -> (r: Option<Position>)
    ensures
        r == if current_count < extension_capacity(level as int) && attempt < MAX_PLACEMENT_ATTEMPTS {
            spiral_position(anchor, extension_spiral_index(current_count + attempt))
        } else {
            None
        },
{
    if !can_build_extension(level, current_count) || attempt >= MAX_PLACEMENT_ATTEMPTS {
        return None;
    }
    let index: u32 = 2 * (current_count as u32 + attempt) + 1;
    get_position_at_spiral_index(anchor, index)
}

/// The first place to try for the next extension.
pub fn next_extension_position(anchor: Position, level: u32, current_count: usize) -> (r: Option<Position>)
    ensures
        r == if current_count < extension_capacity(level as int) {
            spiral_position(anchor, extension_spiral_index(current_count as int))
        } else {
            None
        },
{
    place_extension_construction_site(anchor, level, current_count, 0)
}

} // verus!
