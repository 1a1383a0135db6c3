//! Square-ring spiral around an anchor and world positions.
use vstd::prelude::*;

verus! {

/// Smallest world coordinate on either axis.
pub const WORLD_MIN: i32 = -6400;

/// One past the largest world coordinate on either axis.
pub const WORLD_END: i32 = 6400;

/// A tile in world coordinates: 50 tiles per room, rooms laid side by side.
#[derive(Clone, Copy, Debug, PartialEq, Eq, Structural)]
pub struct Position {
    pub x: i32,
    pub y: i32,
}

impl Position {
    pub open spec fn in_world(self) -> bool {
        WORLD_MIN <= self.x < WORLD_END && WORLD_MIN <= self.y < WORLD_END
    }
}

/// First spiral index on the ring of radius `r`.
pub open spec fn ring_start(r: int) -> int {
    (2 * r - 1) * (2 * r - 1)
}

/// The radius of the ring that holds `index`, searching outward from `r`.
pub open spec fn ring_radius_from(index: int, r: int) -> int
    decreases index - r,
{
    if r >= index || index < ring_start(r + 1) {
        r
    } else {
        ring_radius_from(index, r + 1)
    }
}

/// `floor((sqrt(index) - 1) / 2 + 1)`: the ring that holds `index`.
pub open spec fn spiral_radius(index: int) -> int {
    ring_radius_from(index, 1)
}

/// Offset from the anchor of the tile with spiral index `index >= 1`.
pub open spec fn spiral_offset_of(index: int) -> (int, int) {
    let radius = spiral_radius(index);
    let ring_offset = index - ring_start(radius);
    let ring_length = 8 * radius;
    let side = 4 * ring_offset / ring_length;
    let side_base = ring_offset - ring_length * side / 4;
    if side == 0 {
        (-radius, -radius + side_base)
    } else if side == 1 {
        (radius + side_base, -radius)
    } else if side == 2 {
        (radius, radius - side_base)
    } else {
        (-radius - side_base, radius)
    }
}

proof fn lemma_ring_radius_bracket(index: int, r: int)
    requires
        1 <= r,
        ring_start(r) <= index,
    ensures
        ring_start(ring_radius_from(index, r)) <= index < ring_start(ring_radius_from(index, r) + 1),
        r <= ring_radius_from(index, r),
    decreases index - r,
{
    if r >= index {
        assert((2 * r + 1) * (2 * r + 1) > index) by (nonlinear_arith)
            requires
                r >= index,
                r >= 1,
        ;
    } else if index < ring_start(r + 1) {
    } else {
        lemma_ring_radius_bracket(index, r + 1);
    }
}

/// Offset from the anchor of the tile with spiral index `index`; the anchor
/// itself has index 0 and is never produced.
pub fn spiral_offset(index: u32) -> (r: (i32, i32))
    requires
        index >= 1,
    ensures
        r.0 == spiral_offset_of(index as int).0,
        r.1 == spiral_offset_of(index as int).1,
{
    let ghost idx = index as int;
    let index64: u64 = index as u64;
    let mut radius: u64 = 1;
    let mut next_start: u64 = 9;
    assert(ring_start(1) == 1 && ring_start(2) == 9) by (nonlinear_arith);
    while next_start <= index64
        invariant
            index64 == idx,
            1 <= idx <= u32::MAX,
            1 <= radius <= idx,
            radius < 40000,
            next_start == ring_start(radius + 1),
            ring_start(radius as int) <= idx,
            ring_radius_from(idx, radius as int) == spiral_radius(idx),
        decreases idx - radius,
    {
        assert(radius < idx && radius + 1 < 40000) by (nonlinear_arith)
            requires
                (2 * radius + 1) * (2 * radius + 1) <= idx,
                idx <= u32::MAX,
                radius >= 1,
        ;
        radius = radius + 1;
        assert((2 * radius + 1) * (2 * radius + 1) < 0x1_0000_0000_0000) by (nonlinear_arith)
            requires
                radius < 40000,
        ;
        next_start = (2 * radius + 1) * (2 * radius + 1);
    }
    proof {
        lemma_ring_radius_bracket(idx, 1);
        assert(!(radius >= idx) ==> idx < ring_start(radius + 1));
        if radius >= idx {
            assert((2 * radius + 1) * (2 * radius + 1) > idx) by (nonlinear_arith)
                requires
                    radius >= idx,
                    radius >= 1,
            ;
        }
        assert(ring_radius_from(idx, radius as int) == radius);
        assert(radius < 65536) by (nonlinear_arith)
            requires
                (2 * radius - 1) * (2 * radius - 1) <= idx,
                idx <= u32::MAX,
                radius >= 1,
        ;
    }
    let ring_start_val: u64 = (2 * radius - 1) * (2 * radius - 1);
    let ring_offset: u64 = index64 - ring_start_val;
    let ring_length: u64 = 8 * radius;
    assert(ring_offset < ring_length) by (nonlinear_arith)
        requires
            ring_offset == idx - (2 * radius - 1) * (2 * radius - 1),
            idx < (2 * radius + 1) * (2 * radius + 1),
            ring_length == 8 * radius,
    ;
    let side: u64 = 4 * ring_offset / ring_length;
    assert(side < 4) by (nonlinear_arith)
        requires
            ring_offset < ring_length,
            side == (4 * ring_offset) / (ring_length as int),
            ring_length > 0,
    ;
    assert(ring_length * side / 4 == 2 * radius * side) by (nonlinear_arith)
        requires
            ring_length == 8 * radius,
    ;
    assert(2 * radius * side <= ring_offset) by (nonlinear_arith)
        requires
            side == (4 * ring_offset) / (ring_length as int),
            ring_length == 8 * radius,
            radius >= 1,
    ;
    let side_base_u: u64 = ring_offset - ring_length * side / 4;
    let r: i32 = radius as i32;
    let side_base: i32 = side_base_u as i32;
    if side == 0 {
        (-r, -r + side_base)
    } else if side == 1 {
        (r + side_base, -r)
    } else if side == 2 {
        (r, r - side_base)
    } else {
        (-r - side_base, r)
    }
}

/// The tile with spiral index `index` around `origin`, if it lies in the world.
pub open spec fn spiral_position(origin: Position, index: int) -> Option<Position> {
    if index == 0 {
        Some(origin)
    } else {
        let d = spiral_offset_of(index);
        let x = origin.x + d.0;
        let y = origin.y + d.1;
        if WORLD_MIN <= x < WORLD_END && WORLD_MIN <= y < WORLD_END {
            Some(Position { x: x as i32, y: y as i32 })
        } else {
            None
        }
    }
}

proof fn lemma_spiral_offset_small(index: int)
    requires
        1 <= index <= u32::MAX,
    ensures
        -400000 < spiral_offset_of(index).0 < 400000,
        -400000 < spiral_offset_of(index).1 < 400000,
{
    let radius = spiral_radius(index);
    assert(ring_start(1) == 1) by (nonlinear_arith);
    lemma_ring_radius_bracket(index, 1);
    assert(radius < 40000) by (nonlinear_arith)
        requires
            (2 * radius - 1) * (2 * radius - 1) <= index,
            index <= u32::MAX,
            radius >= 1,
    ;
    let ring_offset = index - ring_start(radius);
    assert(0 <= ring_offset < 8 * radius) by (nonlinear_arith)
        requires
            ring_offset == index - (2 * radius - 1) * (2 * radius - 1),
            ring_start(radius) <= index,
            index < (2 * radius + 1) * (2 * radius + 1),
            ring_start(radius) == (2 * radius - 1) * (2 * radius - 1),
    ;
    let side = 4 * ring_offset / (8 * radius);
    assert(0 <= side <= 4) by (nonlinear_arith)
        requires
            0 <= ring_offset < 8 * radius,
            side == 4 * ring_offset / (8 * radius),
            radius >= 1,
    ;
    let side_base = ring_offset - 8 * radius * side / 4;
    assert(0 <= side_base <= 8 * radius) by (nonlinear_arith)
        requires
            0 <= ring_offset < 8 * radius,
            side == 4 * ring_offset / (8 * radius),
            side_base == ring_offset - 8 * radius * side / 4,
            radius >= 1,
    ;
    assert(spiral_offset_of(index) == if side == 0 {
        (-radius, -radius + side_base)
    } else if side == 1 {
        (radius + side_base, -radius)
    } else if side == 2 {
        (radius, radius - side_base)
    } else {
        (-radius - side_base, radius)
    });
}

/// The tile with spiral index `index` around `origin`: `origin` itself for
/// index 0, `None` where the tile would leave the world.
pub fn get_position_at_spiral_index(origin: Position, index: u32) -> (r: Option<Position>)
    ensures
        r == spiral_position(origin, index as int),
{
    if index == 0 {
        return Some(origin);
    }
    let (dx, dy) = spiral_offset(index);
    proof {
        lemma_spiral_offset_small(index as int);
    }
    let x: i64 = origin.x as i64 + dx as i64;
    let y: i64 = origin.y as i64 + dy as i64;
    if WORLD_MIN as i64 <= x && x < WORLD_END as i64 && WORLD_MIN as i64 <= y && y < WORLD_END as i64 {
        Some(Position { x: x as i32, y: y as i32 })
    } else {
        None
    }
}

} // verus!
