use colony_core::geometry::{get_position_at_spiral_index, spiral_offset, Position};
use colony_core::placer::{
    can_build_extension, count_extensions, find_extension_root, get_max_number_of_extensions,
    next_extension_position, place_extension_construction_site, SpawnSite, StructureKind,
    MAX_PLACEMENT_ATTEMPTS,
};
use colony_core::ids::ObjectId;

#[test]
fn spiral_offset_index_three() {
    assert_eq!(spiral_offset(3), (1, -1));
}

#[test]
fn spiral_offset_golden_table() {
    let expected: [(i32, i32); 25] = [
        (-1, -1), (-1, 0), (1, -1), (2, -1), (1, 1), (1, 0), (-1, 1), (-2, 1), (-2, -2),
        (-2, -1), (-2, 0), (-2, 1), (2, -2), (3, -2), (4, -2), (5, -2), (2, 2), (2, 1),
        (2, 0), (2, -1), (-2, 2), (-3, 2), (-4, 2), (-5, 2), (-3, -3),
    ];
    for (k, want) in expected.iter().enumerate() {
        assert_eq!(spiral_offset(k as u32 + 1), *want, "index {}", k + 1);
    }
}

#[test]
fn spiral_offset_large_index() {
    // 49 starts the ring of radius 4: side 0, first tile.
    assert_eq!(spiral_offset(49), (-4, -4));
    assert_eq!(spiral_offset(u32::MAX).0.abs() < 200_000, true);
}

#[test]
fn spiral_position_zero_is_origin() {
    let o = Position { x: 5, y: -7 };
    assert_eq!(get_position_at_spiral_index(o, 0), Some(o));
    assert_eq!(get_position_at_spiral_index(o, 3), Some(Position { x: 6, y: -8 }));
}

#[test]
fn spiral_position_off_world() {
    let o = Position { x: 6399, y: 0 };
    assert_eq!(get_position_at_spiral_index(o, 3), None);
    assert_eq!(get_position_at_spiral_index(o, 1), Some(Position { x: 6398, y: -1 }));
}

#[test]
fn extension_capacity_table() {
    let want = [(0, 0), (1, 0), (2, 5), (3, 10), (4, 20), (5, 30), (6, 40), (7, 50), (8, 60), (9, 0)];
    for (level, cap) in want.iter() {
        assert_eq!(get_max_number_of_extensions(*level), *cap);
    }
    assert!(can_build_extension(2, 4));
    assert!(!can_build_extension(2, 5));
    assert!(!can_build_extension(1, 0));
}

#[test]
fn extension_positions_skip_anchor_and_alternate() {
    let anchor = Position { x: 10, y: 10 };
    assert_eq!(next_extension_position(anchor, 2, 0), Some(Position { x: 9, y: 9 }));
    assert_eq!(next_extension_position(anchor, 2, 1), Some(Position { x: 11, y: 9 }));
    assert_eq!(next_extension_position(anchor, 2, 5), None);
    assert_eq!(next_extension_position(anchor, 1, 0), None);
}

#[test]
fn extension_retry_moves_along_spiral_and_stops() {
    let anchor = Position { x: 10, y: 10 };
    assert_eq!(place_extension_construction_site(anchor, 3, 0, 1), Some(Position { x: 11, y: 9 }));
    assert_eq!(place_extension_construction_site(anchor, 3, 0, 2), Some(Position { x: 11, y: 11 }));
    assert_eq!(place_extension_construction_site(anchor, 3, 0, MAX_PLACEMENT_ATTEMPTS), None);
}

#[test]
fn extension_root_is_last_named_spawn() {
    let a = SpawnSite { name: "Spawn1".to_string(), id: ObjectId { hi: 0, mid: 0, lo: 1 }, pos: Position { x: 1, y: 1 } };
    let b = SpawnSite { name: "Spawn2".to_string(), id: ObjectId { hi: 0, mid: 0, lo: 2 }, pos: Position { x: 2, y: 2 } };
    assert_eq!(find_extension_root(&vec![a.clone(), b.clone()]), Some(Position { x: 2, y: 2 }));
    assert_eq!(find_extension_root(&vec![b, a]), Some(Position { x: 2, y: 2 }));
    assert_eq!(find_extension_root(&vec![]), None);
}

#[test]
fn extension_root_prefix_sorts_first() {
    let a = SpawnSite { name: "Home".to_string(), id: ObjectId { hi: 0, mid: 0, lo: 1 }, pos: Position { x: 1, y: 1 } };
    let b = SpawnSite { name: "HomeB".to_string(), id: ObjectId { hi: 0, mid: 0, lo: 2 }, pos: Position { x: 2, y: 2 } };
    assert_eq!(find_extension_root(&vec![b, a]), Some(Position { x: 2, y: 2 }));
}

#[test]
fn extensions_are_counted() {
    let kinds = vec![StructureKind::Spawn, StructureKind::Extension, StructureKind::Other, StructureKind::Extension];
    assert_eq!(count_extensions(&kinds), 2);
    assert_eq!(count_extensions(&vec![]), 0);
}

