use bot_physics::geometry::{BlockLocation, Location};
use bot_physics::world::{Block, SimpleType, World, DEFAULT_SLIP};

#[test]
fn unresolved_voxels_default() {
    let w = World::new();
    let p = BlockLocation { x: 1, y: 2, z: 3 };
    assert_eq!(w.get_block(p), None);
    assert_eq!(w.classify(p), None);
    assert_eq!(w.slip_of(p), DEFAULT_SLIP);
}

#[test]
fn set_then_replace_block() {
    let mut w = World::new();
    let p = BlockLocation { x: -1, y: 64, z: 9 };
    let q = BlockLocation { x: -1, y: 65, z: 9 };
    w.set_block(p, Block { kind: SimpleType::Solid, slip: 980_000_000_000_000 });
    w.set_block(q, Block { kind: SimpleType::Water, slip: DEFAULT_SLIP });
    assert_eq!(w.classify(p), Some(SimpleType::Solid));
    assert_eq!(w.slip_of(p), 980_000_000_000_000);
    w.set_block(p, Block { kind: SimpleType::WalkThrough, slip: 600_000_000_000_000 });
    assert_eq!(w.classify(p), Some(SimpleType::WalkThrough));
    assert_eq!(w.slip_of(p), 600_000_000_000_000);
    assert_eq!(w.classify(q), Some(SimpleType::Water));
}

#[test]
fn block_of_location_floors() {
    let b = BlockLocation::from_location(Location::new(-300_000_000_000_000, 63_999_000_000_000_000, 1_000_000_000_000_000));
    assert_eq!(b, BlockLocation { x: -1, y: 63, z: 1 });
}
