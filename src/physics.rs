//! The physics engine: pending intent, committed movement state and the
//! per-tick transition.
use vstd::prelude::*;
use crate::fixed::{abs, floor_block, fx_mul, round_block, SCALE, block_index, mul_fx, round_to_block, lemma_fx_mul_bound};
use crate::geometry::{BlockLocation, Direction, Displacement, Location, COORD_MAX};
use crate::momentum::{
    spec_air_speed, spec_ground_speed, spec_jump_speed, spec_mot_xz, spec_ver_speed,
    air_speed, effects_multiplier, ground_speed, initial_ver, jump_speed, mot_xz, ver_speed,
    JUMP_UPWARDS_MOTION, MOVE_MULT_MAX, SPEED_MAX, VERTICAL_MAX,
};
use crate::world::{valid_slip, SimpleType, World, DEFAULT_SLIP};

verus! {

/// Half the width of the avatar's square footprint.
pub const PLAYER_WIDTH_2: i128 = 300_000_000_000_000;

/// Height from the feet to the voxel probed as the head.
pub const PLAYER_HEIGHT: i128 = 1_799_990_000_000_000;

/// Small vertical offset used to probe just below the feet or above the head.
pub const EPSILON_Y: i128 = 1_000_000_000_000;

/// Gap left under a ceiling when the head is snapped below it.
pub const CEILING_GAP: i128 = 100_000_000_000;

/// Room a location must leave to the coordinate limit for one tick.
pub const STEP_MAX: i128 = 3_000_000_000_000_000_000;

/// Sideways intent.
#[derive(Clone, Copy, Debug, PartialEq, Eq, Structural)]
pub enum Strafe {
    Left,
    Right,
}

/// Forward or backward intent.
#[derive(Clone, Copy, Debug, PartialEq, Eq, Structural)]
pub enum Line {
    Forward,
    Backward,
}

/// Speed mode, each with its movement multiplier.
#[derive(Clone, Copy, Debug, PartialEq, Eq, Structural)]
pub enum Speed {
    Stop,
    Walk,
    Sprint,
    Swim,
}

impl Speed {
    pub open spec fn spec_multiplier(self) -> i128 {
        match self {
            Speed::Stop => 0,
            Speed::Walk => 1_000_000_000_000_000,
            Speed::Sprint => 1_300_000_000_000_000,
            Speed::Swim => 300_000_000_000_000,
        }
    }

    /// The movement multiplier of this mode.
    pub fn multiplier(&self) -> (r: i128)
        ensures
            r == self.spec_multiplier(),
    {
        match self {
            Speed::Stop => 0,
            Speed::Walk => 1_000_000_000_000_000,
            Speed::Sprint => 1_300_000_000_000_000,
            Speed::Swim => 300_000_000_000_000,
        }
    }
}

/// One tick's worth of intent; the last setter call before a tick wins.
#[derive(Clone, Copy, Debug, PartialEq, Eq, Structural)]
pub struct PendingMovement {
    pub strafe: Option<Strafe>,
    pub jump: bool,
    pub line: Option<Line>,
    pub speed: Speed,
}

impl PendingMovement {
    /// No intent at all.
    pub open spec fn spec_none() -> PendingMovement {
        PendingMovement { strafe: None, jump: false, line: None, speed: Speed::Stop }
    }

    /// No intent at all.
    pub fn none() -> (r: PendingMovement)
        ensures
            r == Self::spec_none(),
    {
        PendingMovement { strafe: None, jump: false, line: None, speed: Speed::Stop }
    }

    /// The sideways factor: -1, 0 or 1.
    pub open spec fn strafe_factor(self) -> int {
        match self.strafe {
            None => 0,
            Some(Strafe::Right) => SCALE as int,
            Some(Strafe::Left) => -SCALE,
        }
    }

    /// The forward factor: -1, 0 or 1.
    pub open spec fn line_factor(self) -> int {
        match self.line {
            None => 0,
            Some(Line::Forward) => SCALE as int,
            Some(Line::Backward) => -SCALE,
        }
    }
}

/// What one tick hands to the next: per-axis horizontal speed, the friction
/// used, and whether the avatar was falling.
#[derive(Clone, Copy, Debug, PartialEq, Eq, Structural)]
pub struct MovementState {
    pub speed_x: i128,
    pub speed_z: i128,
    pub slip: i128,
    pub falling: bool,
}

impl MovementState {
    pub open spec fn spec_initial() -> MovementState {
        MovementState { speed_x: 0, speed_z: 0, slip: DEFAULT_SLIP, falling: false }
    }

    pub open spec fn wf(self) -> bool {
        abs(self.speed_x as int) <= SPEED_MAX && abs(self.speed_z as int) <= SPEED_MAX
            && valid_slip(self.slip as int)
    }
}

/// `loc` moved by `(dx, dy, dz)`.
pub open spec fn shifted(loc: Location, dx: int, dy: int, dz: int) -> Location {
    Location { x: (loc.x + dx) as i128, y: (loc.y + dy) as i128, z: (loc.z + dz) as i128 }
}

/// None of the four corners of the footprint centred on `loc` is solid
/// (unresolved voxels count as passable).
pub open spec fn footprint_clear(world: World, loc: Location) -> bool {
    let w = PLAYER_WIDTH_2 as int;
    &&& !world.is_solid(BlockLocation::spec_from(shifted(loc, -w, 0, -w)))
    &&& !world.is_solid(BlockLocation::spec_from(shifted(loc, -w, 0, w)))
    &&& !world.is_solid(BlockLocation::spec_from(shifted(loc, w, 0, -w)))
    &&& !world.is_solid(BlockLocation::spec_from(shifted(loc, w, 0, w)))
}

/// A horizontal speed extended by the half footprint in its direction, to
/// reach the leading edge.
pub open spec fn leading(v: int) -> int {
    if v == 0 {
        0
    } else if v > 0 {
        v + PLAYER_WIDTH_2
    } else {
        v - PLAYER_WIDTH_2
    }
}

/// The avatar's simulated physical state.
pub struct Physics {
    location: Location,
    look: Direction,
    prev: MovementState,
    horizontal: Displacement,
    velocity: Displacement,
    pending: PendingMovement,
    in_water: bool,
}

impl Physics {
    pub closed spec fn spec_location(&self) -> Location {
        self.location
    }

    pub closed spec fn spec_velocity(&self) -> Displacement {
        self.velocity
    }

    pub closed spec fn spec_direction(&self) -> Direction {
        self.look
    }

    pub closed spec fn spec_horizontal(&self) -> Displacement {
        self.horizontal
    }

    pub closed spec fn spec_prev(&self) -> MovementState {
        self.prev
    }

    pub closed spec fn spec_pending(&self) -> PendingMovement {
        self.pending
    }

    pub closed spec fn spec_in_water(&self) -> bool {
        self.in_water
    }

    /// Two engines that agree on every observable part are the same engine.
    pub proof fn lemma_same_state(a: Physics, b: Physics)
        requires
            a.spec_location() == b.spec_location(),
            a.spec_velocity() == b.spec_velocity(),
            a.spec_direction() == b.spec_direction(),
            a.spec_horizontal() == b.spec_horizontal(),
            a.spec_prev() == b.spec_prev(),
            a.spec_pending() == b.spec_pending(),
            a.spec_in_water() == b.spec_in_water(),
        ensures
            a == b,
    {
    }

    /// The state is in range, and the cached ground-plane vector is the look
    /// direction's.
    pub open spec fn wf(&self) -> bool {
        &&& self.spec_location().wf()
        &&& self.spec_direction().wf()
        &&& self.spec_horizontal() == self.spec_direction().spec_horizontal_unit()
        &&& abs(self.spec_horizontal().dx as int) <= SCALE
        &&& abs(self.spec_horizontal().dz as int) <= SCALE
        &&& abs(self.spec_velocity().dx as int) <= SPEED_MAX
        &&& abs(self.spec_velocity().dz as int) <= SPEED_MAX
        &&& abs(self.spec_velocity().dy as int) <= VERTICAL_MAX
        &&& self.spec_prev().wf()
    }

    /// The state is valid and far enough from the coordinate limit for one
    /// more tick.
    pub open spec fn can_tick(&self) -> bool {
        &&& self.wf()
        &&& abs(self.spec_location().x as int) <= COORD_MAX - STEP_MAX
        &&& abs(self.spec_location().y as int) <= COORD_MAX - STEP_MAX
        &&& abs(self.spec_location().z as int) <= COORD_MAX - STEP_MAX
    }

    /// A fresh engine: at the origin, at rest, grounded, with no intent.
    pub fn new() -> (r: Physics)
        ensures
            r.wf(),
            r.spec_location() == (Location { x: 0, y: 0, z: 0 }),
            r.spec_velocity() == Displacement::zero(),
            r.spec_prev() == MovementState::spec_initial(),
            r.spec_pending() == PendingMovement::spec_none(),
            r.spec_direction() == (Direction { x: 0, y: 0, z: 0 }),
            !r.spec_in_water(),
    {
        let look = Direction { x: 0, y: 0, z: 0 };
        let horizontal = look.horizontal_unit();
        Physics {
            location: Location { x: 0, y: 0, z: 0 },
            look,
            prev: MovementState { speed_x: 0, speed_z: 0, slip: DEFAULT_SLIP, falling: false },
            horizontal,
            velocity: Displacement { dx: 0, dy: 0, dz: 0 },
            pending: PendingMovement::none(),
            in_water: false,
        }
    }

    /// Moves to `location` and zeroes the velocity; the committed movement
    /// state is kept.
    pub fn teleport(&mut self, location: Location)
        requires
            old(self).wf(),
            location.wf(),
        ensures
            final(self).wf(),
            final(self).spec_location() == location,
            final(self).spec_velocity() == Displacement::zero(),
            final(self).spec_prev() == old(self).spec_prev(),
            final(self).spec_pending() == old(self).spec_pending(),
            final(self).spec_direction() == old(self).spec_direction(),
            final(self).spec_horizontal() == old(self).spec_horizontal(),
            final(self).spec_in_water() == old(self).spec_in_water(),
    {
        self.location = location;
        self.velocity = Displacement { dx: 0, dy: 0, dz: 0 };
    }

    /// Asks for a jump on the next tick.
    pub fn jump(&mut self)
        requires
            old(self).wf(),
        ensures
            final(self).wf(),
            final(self).spec_pending() == (PendingMovement { jump: true, ..old(self).spec_pending() }),
            final(self).same_but_pending(*old(self)),
    {
        self.pending.jump = true;
    }

    /// Everything but the pending intent is as in `other`.
    pub open spec fn same_but_pending(&self, other: Physics) -> bool {
        &&& self.spec_location() == other.spec_location()
        &&& self.spec_velocity() == other.spec_velocity()
        &&& self.spec_prev() == other.spec_prev()
        &&& self.spec_direction() == other.spec_direction()
        &&& self.spec_horizontal() == other.spec_horizontal()
        &&& self.spec_in_water() == other.spec_in_water()
    }

    /// Sets the look direction and recomputes its ground-plane unit vector.
    pub fn look(&mut self, direction: Direction)
        requires
            old(self).wf(),
            direction.wf(),
        ensures
            final(self).wf(),
            final(self).spec_direction() == direction,
            final(self).spec_horizontal() == direction.spec_horizontal_unit(),
            final(self).spec_location() == old(self).spec_location(),
            final(self).spec_velocity() == old(self).spec_velocity(),
            final(self).spec_prev() == old(self).spec_prev(),
            final(self).spec_pending() == old(self).spec_pending(),
            final(self).spec_in_water() == old(self).spec_in_water(),
    {
        self.look = direction;
        self.horizontal = direction.horizontal_unit();
    }

    /// The look direction.
    pub fn direction(&self) -> (r: Direction)
        ensures
            r == self.spec_direction(),
    {
        self.look
    }

    /// Sets the forward/backward intent for the next tick.
    pub fn line(&mut self, line: Line)
        requires
            old(self).wf(),
        ensures
            final(self).wf(),
            final(self).spec_pending() == (PendingMovement { line: Some(line), ..old(self).spec_pending() }),
            final(self).same_but_pending(*old(self)),
    {
        self.pending.line = Some(line)
    }

    /// Sets the sideways intent for the next tick.
    pub fn strafe(&mut self, strafe: Strafe)
        requires
            old(self).wf(),
        ensures
            final(self).wf(),
            final(self).spec_pending() == (PendingMovement { strafe: Some(strafe), ..old(self).spec_pending() }),
            final(self).same_but_pending(*old(self)),
    {
        self.pending.strafe = Some(strafe)
    }

    /// Sets the speed mode for the next tick.
    pub fn speed(&mut self, speed: Speed)
        requires
            old(self).wf(),
        ensures
            final(self).wf(),
            final(self).spec_pending() == (PendingMovement { speed, ..old(self).spec_pending() }),
            final(self).same_but_pending(*old(self)),
    {
        self.pending.speed = speed;
    }

    /// Whether the footprint centred on `loc` touches no solid voxel.
    pub fn cross_section_empty(&self, loc: Location, world: &World) -> (r: bool)
        requires
            world.wf(),
            abs(loc.x as int) <= COORD_MAX,
            abs(loc.z as int) <= COORD_MAX,
        ensures
            r == footprint_clear(*world, loc),
    {
        let dif: [i128; 2] = [-PLAYER_WIDTH_2, PLAYER_WIDTH_2];
        let mut i: usize = 0;
        while i < 2
            invariant
                0 <= i <= 2,
                world.wf(),
                abs(loc.x as int) <= COORD_MAX,
                abs(loc.z as int) <= COORD_MAX,
                dif@ == seq![-PLAYER_WIDTH_2 as i128, PLAYER_WIDTH_2],
                forall|a: int, b: int| 0 <= a < i && 0 <= b < 2 ==> !world.is_solid(
                    #[trigger] BlockLocation::spec_from(shifted(loc, dif@[a] as int, 0, dif@[b] as int)),
                ),
            decreases 2 - i,
        {
            let mut j: usize = 0;
            while j < 2
                invariant
                    0 <= i < 2,
                    0 <= j <= 2,
                    world.wf(),
                    abs(loc.x as int) <= COORD_MAX,
                    abs(loc.z as int) <= COORD_MAX,
                    dif@ == seq![-PLAYER_WIDTH_2 as i128, PLAYER_WIDTH_2],
                    forall|a: int, b: int| 0 <= a < i && 0 <= b < 2 ==> !world.is_solid(
                        #[trigger] BlockLocation::spec_from(shifted(loc, dif@[a] as int, 0, dif@[b] as int)),
                    ),
                    forall|b: int| 0 <= b < j ==> !world.is_solid(
                        #[trigger] BlockLocation::spec_from(shifted(loc, dif@[i as int] as int, 0, dif@[b] as int)),
                    ),
                decreases 2 - j,
            {
                let test_loc = Location { x: loc.x + dif[i], y: loc.y, z: loc.z + dif[j] };
                let test_block_loc = BlockLocation::from_location(test_loc);
                let solid = world.classify(test_block_loc) == Some(SimpleType::Solid);
                if solid {
                    assert(test_loc == shifted(loc, dif@[i as int] as int, 0, dif@[j as int] as int));
                    return false;
                }
                j = j + 1;
            }
            i = i + 1;
        }
        let ghost w = PLAYER_WIDTH_2 as int;
        assert(BlockLocation::spec_from(shifted(loc, dif@[0] as int, 0, dif@[0] as int))
            == BlockLocation::spec_from(shifted(loc, -w, 0, -w)));
        assert(BlockLocation::spec_from(shifted(loc, dif@[0] as int, 0, dif@[1] as int))
            == BlockLocation::spec_from(shifted(loc, -w, 0, w)));
        assert(BlockLocation::spec_from(shifted(loc, dif@[1] as int, 0, dif@[0] as int))
            == BlockLocation::spec_from(shifted(loc, w, 0, -w)));
        assert(BlockLocation::spec_from(shifted(loc, dif@[1] as int, 0, dif@[1] as int))
            == BlockLocation::spec_from(shifted(loc, w, 0, w)));
        true
    }

    /// The point probed just below the feet.
    pub open spec fn below(&self) -> Location {
        shifted(self.spec_location(), 0, -EPSILON_Y, 0)
    }

    /// Falling: the footprint just below the feet is clear.
    pub open spec fn spec_falling(&self, world: World) -> bool {
        footprint_clear(world, self.below())
    }

    /// Friction of the block below the feet (default when unresolved).
    pub open spec fn ground_slip(&self, world: World) -> i128 {
        world.spec_slip_of(BlockLocation::spec_from(self.below()))
    }

    /// The friction this tick uses: one ("air") when falling.
    pub open spec fn slip_used(&self, world: World) -> i128 {
        if self.spec_falling(world) {
            SCALE
        } else {
            self.ground_slip(world)
        }
    }

    /// The pending intent as scaled `(strafe, forward)` multipliers.
    pub open spec fn intent(&self) -> (int, int) {
        let p = self.spec_pending();
        spec_mot_xz(p.strafe_factor(), p.line_factor(), p.speed.spec_multiplier() as int)
    }

    /// Movement multiplier along x: forward along the look vector, strafe
    /// along its perpendicular `(-h.dz, 0, h.dx)`.
    pub open spec fn move_mult_x(&self) -> int {
        let h = self.spec_horizontal();
        fx_mul(h.dx as int, self.intent().1) + fx_mul(-h.dz, self.intent().0)
    }

    /// Movement multiplier along z.
    pub open spec fn move_mult_z(&self) -> int {
        let h = self.spec_horizontal();
        fx_mul(h.dz as int, self.intent().1) + fx_mul(h.dx as int, self.intent().0)
    }

    /// Next horizontal speed on one axis, before collisions.
    pub open spec fn next_speed(&self, world: World, prev_speed: int, move_mult: int) -> int {
        let prev = self.spec_prev();
        if self.spec_falling(world) {
            spec_air_speed(prev_speed, prev.slip as int, move_mult)
        } else if self.spec_pending().jump {
            spec_jump_speed(prev_speed, prev.slip as int, move_mult, SCALE as int,
                self.ground_slip(world) as int, self.spec_pending().speed == Speed::Sprint)
        } else {
            spec_ground_speed(prev_speed, prev.slip as int, move_mult, SCALE as int,
                self.ground_slip(world) as int)
        }
    }

    pub open spec fn next_speed_x(&self, world: World) -> int {
        self.next_speed(world, self.spec_prev().speed_x as int, self.move_mult_x())
    }

    pub open spec fn next_speed_z(&self, world: World) -> int {
        self.next_speed(world, self.spec_prev().speed_z as int, self.move_mult_z())
    }

    /// Next vertical speed: gravity when falling, a launch when jumping,
    /// none on the ground.
    pub open spec fn next_dy(&self, world: World) -> int {
        if self.spec_falling(world) {
            spec_ver_speed(self.spec_velocity().dy as int)
        } else if self.spec_pending().jump {
            JUMP_UPWARDS_MOTION as int
        } else {
            0
        }
    }

    /// The leading edge of the tentative move.
    pub open spec fn destination(&self, world: World) -> Location {
        shifted(self.spec_location(), leading(self.next_speed_x(world)), self.next_dy(world),
            leading(self.next_speed_z(world)))
    }

    /// The voxel probed as the head at the leading edge.
    pub open spec fn destination_head(&self, world: World) -> BlockLocation {
        BlockLocation::spec_from(shifted(self.destination(world), 0, PLAYER_HEIGHT as int, 0))
    }

    /// The feet or head voxel at the leading edge is solid.
    pub open spec fn blocked(&self, world: World) -> bool {
        world.is_solid(BlockLocation::spec_from(self.destination(world)))
            || world.is_solid(self.destination_head(world))
    }

    /// Water contact: at the origin's feet or head when blocked, else at the
    /// destination's.
    pub open spec fn touches_water(&self, world: World) -> bool {
        if self.blocked(world) {
            world.is_water(BlockLocation::spec_from(self.spec_location()))
                || world.is_water(BlockLocation::spec_from(shifted(self.spec_location(), 0, PLAYER_HEIGHT as int, 0)))
        } else {
            world.is_water(BlockLocation::spec_from(self.destination(world)))
                || world.is_water(self.destination_head(world))
        }
    }

    /// Velocity after the contact check: a hard stop horizontally when blocked.
    pub open spec fn checked_velocity(&self, world: World) -> Displacement {
        if self.blocked(world) {
            Displacement { dx: 0, dy: self.next_dy(world) as i128, dz: 0 }
        } else {
            Displacement {
                dx: self.next_speed_x(world) as i128,
                dy: self.next_dy(world) as i128,
                dz: self.next_speed_z(world) as i128,
            }
        }
    }

    /// The location reached by the checked velocity.
    pub open spec fn moved(&self, world: World) -> Location {
        let v = self.checked_velocity(world);
        shifted(self.spec_location(), v.dx as int, v.dy as int, v.dz as int)
    }

    /// The point probed above the head after an upward move.
    pub open spec fn ceiling_probe(&self, world: World) -> Location {
        shifted(self.moved(world), 0, EPSILON_Y + PLAYER_HEIGHT, 0)
    }

    /// Falling upward into a solid footprint above the head.
    pub open spec fn hits_ceiling(&self, world: World) -> bool {
        self.spec_falling(world) && self.next_dy(world) >= 0 && !footprint_clear(world, self.ceiling_probe(world))
    }

    /// Falling downward onto a solid footprint below the feet.
    pub open spec fn lands(&self, world: World) -> bool {
        self.spec_falling(world) && self.next_dy(world) < 0 && !footprint_clear(world,
            shifted(self.moved(world), 0, -EPSILON_Y, 0))
    }

    /// Location after the tick: snapped down under a ceiling (head just below
    /// the boundary of the block it reached), or onto the nearest block
    /// boundary of a floor.
    pub open spec fn next_location(&self, world: World) -> Location {
        let m = self.moved(world);
        if self.hits_ceiling(world) {
            Location {
                y: (floor_block(self.ceiling_probe(world).y as int) * SCALE - PLAYER_HEIGHT - CEILING_GAP) as i128,
                ..m
            }
        } else if self.lands(world) {
            Location { y: round_block(m.y as int) as i128, ..m }
        } else {
            m
        }
    }

    /// Velocity after the tick: vertical motion stops on a ceiling or floor.
    pub open spec fn next_velocity(&self, world: World) -> Displacement {
        let v = self.checked_velocity(world);
        if self.hits_ceiling(world) || self.lands(world) {
            Displacement { dy: 0, ..v }
        } else {
            v
        }
    }

    /// The movement state committed for the next tick.
    pub open spec fn next_prev(&self, world: World) -> MovementState {
        let v = self.next_velocity(world);
        MovementState {
            speed_x: v.dx,
            speed_z: v.dz,
            slip: self.slip_used(world),
            falling: self.spec_falling(world),
        }
    }

    /// Samples the falling flag and the friction below the feet.
    fn support(&self, world: &World) -> (r: (bool, i128))
        requires
            self.can_tick(),
            world.wf(),
        ensures
            r.0 == self.spec_falling(*world),
            r.1 == self.ground_slip(*world),
            valid_slip(r.1 as int),
    {
        let loc = self.location;
        let below_loc = Location { x: loc.x, y: loc.y - EPSILON_Y, z: loc.z };
        let falling = self.cross_section_empty(below_loc, world);
        let ground_slip = world.slip_of(BlockLocation::from_location(below_loc));
        (falling, ground_slip)
    }

    /// The pending intent turned into per-axis movement multipliers.
    fn move_mults(&self) -> (r: (i128, i128))
        requires
            self.wf(),
        ensures
            r.0 == self.move_mult_x(),
            r.1 == self.move_mult_z(),
            abs(r.0 as int) <= MOVE_MULT_MAX,
            abs(r.1 as int) <= MOVE_MULT_MAX,
    {
        let horizontal = self.horizontal;
        let strafe_factor: i128 = match self.pending.strafe {
            None => 0,
            Some(Strafe::Right) => SCALE,
            Some(Strafe::Left) => -SCALE,
        };
        let line_factor: i128 = match self.pending.line {
            None => 0,
            Some(Line::Forward) => SCALE,
            Some(Line::Backward) => -SCALE,
        };
        let move_factor = self.pending.speed.multiplier();
        let change = mot_xz(strafe_factor, line_factor, move_factor);
        let strafe_change = change[0];
        let forward_change = change[1];
        proof {
            lemma_fx_mul_bound(horizontal.dx as int, forward_change as int, SCALE as int, 1_300_000_000_000_000);
            lemma_fx_mul_bound(-horizontal.dz, strafe_change as int, SCALE as int, 1_300_000_000_000_000);
            lemma_fx_mul_bound(horizontal.dz as int, forward_change as int, SCALE as int, 1_300_000_000_000_000);
            lemma_fx_mul_bound(horizontal.dx as int, strafe_change as int, SCALE as int, 1_300_000_000_000_000);
        }
        let move_x = mul_fx(horizontal.dx, forward_change) + mul_fx(-horizontal.dz, strafe_change);
        let move_z = mul_fx(horizontal.dz, forward_change) + mul_fx(horizontal.dx, strafe_change);
        (move_x, move_z)
    }

    /// Next per-axis horizontal speeds, vertical speed and friction, before
    /// any contact.
    fn motion(&self, world: &World, falling: bool, ground_slip: i128, move_x: i128, move_z: i128) -> (r: (
        i128,
        i128,
        i128,
        i128,
    ))
        requires
            self.wf(),
            falling == self.spec_falling(*world),
            ground_slip == self.ground_slip(*world),
            valid_slip(ground_slip as int),
            move_x == self.move_mult_x(),
            move_z == self.move_mult_z(),
            abs(move_x as int) <= MOVE_MULT_MAX,
            abs(move_z as int) <= MOVE_MULT_MAX,
        ensures
            r.0 == self.next_speed_x(*world),
            r.1 == self.next_speed_z(*world),
            r.2 == self.next_dy(*world),
            r.3 == self.slip_used(*world),
            abs(r.0 as int) <= SPEED_MAX,
            abs(r.1 as int) <= SPEED_MAX,
            abs(r.2 as int) <= VERTICAL_MAX,
            valid_slip(r.3 as int),
    {
        let prev = self.prev;
        if falling {
            (
                air_speed(prev.speed_x, prev.slip, move_x),
                air_speed(prev.speed_z, prev.slip, move_z),
                ver_speed(self.velocity.dy),
                SCALE,
            )
        } else if self.pending.jump {
            let effect_mult = effects_multiplier(0, 0);
            let sprinting = self.pending.speed == Speed::Sprint;
            (
                jump_speed(prev.speed_x, prev.slip, move_x, effect_mult, ground_slip, sprinting),
                jump_speed(prev.speed_z, prev.slip, move_z, effect_mult, ground_slip, sprinting),
                initial_ver(0),
                ground_slip,
            )
        } else {
            let effect_mult = effects_multiplier(0, 0);
            (
                ground_speed(prev.speed_x, prev.slip, move_x, effect_mult, ground_slip),
                ground_speed(prev.speed_z, prev.slip, move_z, effect_mult, ground_slip),
                0,
                ground_slip,
            )
        }
    }

    /// Probes the leading edge of the move: whether it is blocked, and the
    /// water-contact flag.
    fn contact(&self, world: &World, speed_x: i128, speed_z: i128, dy: i128) -> (r: (bool, bool))
        requires
            self.can_tick(),
            world.wf(),
            speed_x == self.next_speed_x(*world),
            speed_z == self.next_speed_z(*world),
            dy == self.next_dy(*world),
            abs(speed_x as int) <= SPEED_MAX,
            abs(speed_z as int) <= SPEED_MAX,
            abs(dy as int) <= VERTICAL_MAX,
        ensures
            r.0 == self.blocked(*world),
            r.1 == self.touches_water(*world),
    {
        let loc = self.location;
        let extra_x: i128 = if speed_x == 0 { 0 } else if speed_x > 0 { PLAYER_WIDTH_2 } else { -PLAYER_WIDTH_2 };
        let extra_z: i128 = if speed_z == 0 { 0 } else if speed_z > 0 { PLAYER_WIDTH_2 } else { -PLAYER_WIDTH_2 };
        let end = Location { x: loc.x + (speed_x + extra_x), y: loc.y + dy, z: loc.z + (speed_z + extra_z) };
        assert(end == self.destination(*world));
        let prev_legs_block = world.classify(BlockLocation::from_location(loc));
        let prev_head_block = world.classify(
            BlockLocation::from_location(Location { x: loc.x, y: loc.y + PLAYER_HEIGHT, z: loc.z }),
        );
        let legs_block = world.classify(BlockLocation::from_location(end));
        let head_block = world.classify(
            BlockLocation::from_location(Location { x: end.x, y: end.y + PLAYER_HEIGHT, z: end.z }),
        );
        let against_block = legs_block == Some(SimpleType::Solid) || head_block == Some(SimpleType::Solid);
        let in_water = if against_block {
            prev_legs_block == Some(SimpleType::Water) || prev_head_block == Some(SimpleType::Water)
        } else {
            legs_block == Some(SimpleType::Water) || head_block == Some(SimpleType::Water)
        };
        (against_block, in_water)
    }

    /// Stops a falling move at a ceiling or a floor: the final location and
    /// vertical speed.
    fn settle(&self, world: &World, falling: bool, moved: Location, dy: i128) -> (r: (Location, i128))
        requires
            world.wf(),
            falling == self.spec_falling(*world),
            moved == self.moved(*world),
            dy == self.next_dy(*world),
            abs(moved.x as int) <= COORD_MAX,
            abs(moved.y as int) <= COORD_MAX,
            abs(moved.z as int) <= COORD_MAX,
        ensures
            r.0 == self.next_location(*world),
            r.1 == self.next_velocity(*world).dy,
    {
        let mut new_loc = moved;
        let mut vel_y = dy;
        if falling {
            if vel_y >= 0 {
                // moving up: stop under a ceiling
                let head_loc = Location { x: new_loc.x, y: new_loc.y + (EPSILON_Y + PLAYER_HEIGHT), z: new_loc.z };
                assert(head_loc == self.ceiling_probe(*world));
                if !self.cross_section_empty(head_loc, world) {
                    new_loc.y = block_index(head_loc.y) * SCALE - PLAYER_HEIGHT - CEILING_GAP;
                    vel_y = 0;
                }
            } else {
                // moving down: land on a floor
                let feet_loc = Location { x: new_loc.x, y: new_loc.y - EPSILON_Y, z: new_loc.z };
                if !self.cross_section_empty(feet_loc, world) {
                    new_loc.y = round_to_block(new_loc.y);
                    vel_y = 0;
                }
            }
        }
        (new_loc, vel_y)
    }

    /// Advances the simulation by one world tick, consuming the pending
    /// intent.
    #[verifier::rlimit(40)]
    pub fn tick(&mut self, world: &World)
        requires
            old(self).can_tick(),
            world.wf(),
        ensures
            final(self).wf(),
            final(self).spec_location() == old(self).next_location(*world),
            final(self).spec_velocity() == old(self).next_velocity(*world),
            final(self).spec_prev() == old(self).next_prev(*world),
            final(self).spec_in_water() == old(self).touches_water(*world),
            final(self).spec_pending() == PendingMovement::spec_none(),
            final(self).spec_direction() == old(self).spec_direction(),
            final(self).spec_horizontal() == old(self).spec_horizontal(),
    {
        let (falling, ground_slip) = self.support(world);
        let (move_x, move_z) = self.move_mults();
        let (speed_x, speed_z, dy, slip) = self.motion(world, falling, ground_slip, move_x, move_z);
        let (against_block, in_water) = self.contact(world, speed_x, speed_z, dy);
        let vel_x: i128 = if against_block { 0 } else { speed_x };
        let vel_z: i128 = if against_block { 0 } else { speed_z };
        let loc = self.location;
        let moved = Location { x: loc.x + vel_x, y: loc.y + dy, z: loc.z + vel_z };
        let (new_loc, vel_y) = self.settle(world, falling, moved, dy);

        self.location = new_loc;
        self.velocity = Displacement { dx: vel_x, dy: vel_y, dz: vel_z };
        self.in_water = in_water;
        self.pending = PendingMovement::none();
        self.prev = MovementState { speed_x: vel_x, speed_z: vel_z, slip, falling };
    }

    /// Whether the avatar was grounded in the most recently completed tick.
    pub fn on_ground(&self) -> (r: bool)
        ensures
            r == !self.spec_prev().falling,
    {
        !self.prev.falling
    }

    /// The current location.
    pub fn location(&self) -> (r: Location)
        ensures
            r == self.spec_location(),
    {
        self.location
    }

    /// The current velocity.
    pub fn velocity(&self) -> (r: Displacement)
        ensures
            r == self.spec_velocity(),
    {
        self.velocity
    }

    /// Whether the avatar's feet or head touched water in the last tick.
    pub fn in_water(&self) -> (r: bool)
        ensures
            r == self.spec_in_water(),
    {
        self.in_water
    }
}

} // verus!
