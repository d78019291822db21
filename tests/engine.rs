use bot_physics::fixed::SCALE;

/// One millionth of a block.
const U: i128 = 1_000_000_000;
use bot_physics::geometry::{BlockLocation, Direction, Displacement, Location};
use bot_physics::physics::{Line, Physics, Speed, Strafe};
use bot_physics::world::{Block, SimpleType, World, DEFAULT_SLIP};

const STONE: Block = Block { kind: SimpleType::Solid, slip: DEFAULT_SLIP };

fn layer(world: &mut World, y: i128, block: Block) {
    for x in -2..=2 {
        for z in -2..=2 {
            world.set_block(BlockLocation { x, y, z }, block);
        }
    }
}

fn floor_world() -> World {
    let mut world = World::new();
    layer(&mut world, 63, STONE);
    world
}

fn standing(x: i128, z: i128) -> Physics {
    let mut p = Physics::new();
    p.teleport(Location::new(x, 64 * SCALE, z));
    p.look(Direction { x: 0, y: 0, z: SCALE });
    p
}

fn zero() -> Displacement {
    Displacement::new(0, 0, 0)
}

#[test]
fn fresh_engine_is_grounded_at_rest() {
    let p = Physics::new();
    assert!(p.on_ground());
    assert_eq!(p.location(), Location::new(0, 0, 0));
    assert_eq!(p.velocity(), zero());
    assert!(!p.in_water());
}

#[test]
fn look_keeps_direction() {
    let mut p = Physics::new();
    let d = Direction { x: 3 * SCALE, y: 5, z: -4 * SCALE };
    p.look(d);
    assert_eq!(p.direction(), d);
}

#[test]
fn look_direction_drives_world_axes() {
    let world = floor_world();
    let mut p = standing(500_000 * U, 500_000 * U);
    p.look(Direction { x: 3 * SCALE, y: 7 * SCALE, z: 4 * SCALE });
    p.speed(Speed::Walk);
    p.line(Line::Forward);
    p.tick(&world);
    // unit ground vector (0.6, 0, 0.8), acceleration 0.1 along it
    assert_eq!(p.velocity(), Displacement::new(60_000 * U, 0, 80_000 * U));
}

#[test]
fn walking_forward_accelerates_along_look() {
    let world = floor_world();
    let mut p = standing(500_000 * U, 500_000 * U);
    p.speed(Speed::Walk);
    p.line(Line::Forward);
    p.tick(&world);
    assert_eq!(p.velocity(), Displacement::new(0, 0, 100_000 * U));
    assert_eq!(p.location(), Location::new(500_000 * U, 64 * SCALE, 600_000 * U));
    assert!(p.on_ground());
    // momentum carries: 0.1 * 0.6 * 0.91 + 0.1
    p.speed(Speed::Walk);
    p.line(Line::Forward);
    p.tick(&world);
    assert_eq!(p.velocity(), Displacement::new(0, 0, 154_600 * U));
}

#[test]
fn intent_lasts_one_tick() {
    let world = floor_world();
    let mut p = standing(500_000 * U, 500_000 * U);
    p.speed(Speed::Walk);
    p.line(Line::Backward);
    p.tick(&world);
    assert_eq!(p.velocity(), Displacement::new(0, 0, -100_000 * U));
    p.tick(&world);
    // no intent: momentum alone, 0.1 * 0.6 * 0.91
    assert_eq!(p.velocity(), Displacement::new(0, 0, -54_600 * U));
}

#[test]
fn strafe_right_then_left_keeps_only_the_last() {
    let world = floor_world();
    let mut both = standing(500_000 * U, 500_000 * U);
    both.speed(Speed::Walk);
    both.strafe(Strafe::Left);
    both.strafe(Strafe::Right);
    let mut right = standing(500_000 * U, 500_000 * U);
    right.speed(Speed::Walk);
    right.strafe(Strafe::Right);
    both.tick(&world);
    right.tick(&world);
    assert_eq!(both.location(), right.location());
    assert_eq!(both.velocity(), right.velocity());
    assert_eq!(both.on_ground(), right.on_ground());
    // facing +z, right is -x
    assert_eq!(right.velocity(), Displacement::new(-100_000 * U, 0, 0));
}

#[test]
fn idle_on_ground_stays_still() {
    let world = floor_world();
    let mut p = standing(500_000 * U, 500_000 * U);
    for _ in 0..10 {
        p.speed(Speed::Stop);
        p.tick(&world);
        assert_eq!(p.velocity(), zero());
        assert_eq!(p.location(), Location::new(500_000 * U, 64 * SCALE, 500_000 * U));
    }
}

#[test]
fn free_fall_five_ticks() {
    let world = World::new();
    let mut p = Physics::new();
    p.teleport(Location::new(0, 100 * SCALE, 0));
    let expected: [i128; 5] =
        [-78_400_000_000_000, -155_232_000_000_000, -230_527_360_000_000, -304_316_812_800_000, -376_630_476_544_000];
    let mut y = 100 * SCALE;
    for dy in expected {
        p.tick(&world);
        y += dy;
        assert_eq!(p.velocity(), Displacement::new(0, dy, 0));
        assert_eq!(p.location().y, y);
        assert!(!p.on_ground());
    }
}

#[test]
fn jump_launches_at_042_and_lands_later() {
    let world = floor_world();
    let mut p = standing(500_000 * U, 500_000 * U);
    p.jump();
    p.tick(&world);
    assert_eq!(p.velocity().dy, 420_000 * U);
    assert_eq!(p.location().y, 64 * SCALE + 420_000 * U);
    // the tick sampled the ground before leaving it
    assert!(p.on_ground());
    p.tick(&world);
    assert_eq!(p.velocity().dy, 333_200 * U);
    assert!(!p.on_ground());
}

#[test]
fn sprint_jump_boost() {
    let world = floor_world();
    let mut p = standing(500_000 * U, 500_000 * U);
    p.speed(Speed::Sprint);
    p.line(Line::Forward);
    p.jump();
    p.tick(&world);
    // the boost is added on each axis: 0.1 * 1.3 + 0.2 forward, 0.2 sideways
    assert_eq!(p.velocity(), Displacement::new(200_000 * U, 420_000 * U, 330_000 * U));
}

#[test]
fn wall_ahead_stops_horizontal_motion() {
    let mut world = floor_world();
    world.set_block(BlockLocation { x: 0, y: 64, z: 1 }, STONE);
    let mut p = standing(500_000 * U, 650_000 * U);
    p.speed(Speed::Sprint);
    p.line(Line::Forward);
    p.strafe(Strafe::Left);
    p.tick(&world);
    assert_eq!(p.velocity(), zero());
    assert_eq!(p.location(), Location::new(500_000 * U, 64 * SCALE, 650_000 * U));
}

#[test]
fn wall_at_head_height_stops_too() {
    let mut world = floor_world();
    world.set_block(BlockLocation { x: 0, y: 65, z: 1 }, STONE);
    let mut p = standing(500_000 * U, 650_000 * U);
    p.speed(Speed::Walk);
    p.line(Line::Forward);
    p.tick(&world);
    assert_eq!(p.velocity(), zero());
}

#[test]
fn landing_snaps_to_block_top() {
    let world = floor_world();
    let mut p = Physics::new();
    p.teleport(Location::new(500_000 * U, 64_050_000 * U, 500_000 * U));
    p.tick(&world);
    assert_eq!(p.location().y, 64 * SCALE);
    assert_eq!(p.velocity(), zero());
    assert!(!p.on_ground());
    p.tick(&world);
    assert!(p.on_ground());
    assert_eq!(p.location().y, 64 * SCALE);
}

#[test]
fn ceiling_stops_rise_below_block() {
    let mut world = floor_world();
    layer(&mut world, 66, STONE);
    let mut p = standing(500_000 * U, 500_000 * U);
    p.jump();
    p.tick(&world);
    assert_eq!(p.location().y, 64_420_000 * U);
    p.tick(&world);
    assert_eq!(p.velocity().dy, 0);
    assert_eq!(p.location().y, 66 * SCALE - 1_799_990 * U - 100 * U);
}

#[test]
fn water_contact_at_destination() {
    let mut world = floor_world();
    world.set_block(BlockLocation { x: 0, y: 64, z: 1 }, Block { kind: SimpleType::Water, slip: DEFAULT_SLIP });
    let mut p = standing(500_000 * U, 650_000 * U);
    p.speed(Speed::Walk);
    p.line(Line::Forward);
    p.tick(&world);
    assert!(p.in_water());
    assert_eq!(p.velocity(), Displacement::new(0, 0, 100_000 * U));
}

#[test]
fn slippery_floor_changes_acceleration() {
    let mut world = World::new();
    layer(&mut world, 63, Block { kind: SimpleType::Solid, slip: 980_000 * U });
    let mut p = standing(500_000 * U, 500_000 * U);
    p.speed(Speed::Walk);
    p.line(Line::Forward);
    p.tick(&world);
    assert_eq!(p.velocity().dz, 22_949_621_331_247);
}

#[test]
fn teleport_resets_velocity_whatever_came_before() {
    let world = World::new();
    let mut p = Physics::new();
    p.teleport(Location::new(0, 10 * SCALE, 0));
    p.speed(Speed::Sprint);
    p.line(Line::Forward);
    p.tick(&world);
    p.tick(&world);
    assert_ne!(p.velocity(), zero());
    let target = Location::new(-7 * SCALE, 70 * SCALE, 12_345 * U);
    p.teleport(target);
    assert_eq!(p.location(), target);
    assert_eq!(p.velocity(), zero());
}

#[test]
fn blocked_move_reads_water_at_origin() {
    let water = Block { kind: SimpleType::Water, slip: DEFAULT_SLIP };
    let mut world = floor_world();
    world.set_block(BlockLocation { x: 0, y: 64, z: 1 }, STONE);
    world.set_block(BlockLocation { x: 0, y: 65, z: 1 }, water);
    let mut p = standing(500_000 * U, 650_000 * U);
    p.speed(Speed::Walk);
    p.line(Line::Forward);
    p.tick(&world);
    // blocked: the water at the destination head does not count
    assert_eq!(p.velocity(), zero());
    assert!(!p.in_water());
    world.set_block(BlockLocation { x: 0, y: 65, z: 0 }, water);
    p.speed(Speed::Walk);
    p.line(Line::Forward);
    p.tick(&world);
    assert!(p.in_water());
}
