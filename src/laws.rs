//! Properties of the engine that relate several calls or hold of every state.
use vstd::prelude::*;
use crate::fixed::{ceil_sqrt, fx_mul, is_ceil_sqrt, trunc_div, lemma_ceil_sqrt_unique, lemma_trunc_div_bound, SCALE};
use crate::geometry::Displacement;
use crate::momentum::{
    spec_mot_xz, spec_ver_speed, momentum, ground_accel, lemma_mot_xz_within, lemma_ver_speed_bounds,
    DEAD_ZONE, JUMP_UPWARDS_MOTION,
};
use crate::physics::{Physics, PendingMovement, Strafe};
use crate::world::World;

verus! {

/// Only the last sideways intent before a tick counts: strafing left and then
/// right leaves the engine exactly as strafing right alone.
pub proof fn lemma_strafe_overwrites(before: Physics, left: Physics, then_right: Physics, right_only: Physics)
    requires
        left.spec_pending() == (PendingMovement { strafe: Some(Strafe::Left), ..before.spec_pending() }),
        left.same_but_pending(before),
        then_right.spec_pending() == (PendingMovement { strafe: Some(Strafe::Right), ..left.spec_pending() }),
        then_right.same_but_pending(left),
        right_only.spec_pending() == (PendingMovement { strafe: Some(Strafe::Right), ..before.spec_pending() }),
        right_only.same_but_pending(before),
    ensures
        then_right == right_only,
{
    Physics::lemma_same_state(then_right, right_only);
}

/// A truncated product with zero is zero.
proof fn lemma_fx_mul_zero(a: int)
    ensures
        fx_mul(a, 0) == 0,
        fx_mul(0, a) == 0,
{
    assert(a * 0 == 0 && 0 * a == 0) by (nonlinear_arith);
    lemma_trunc_div_bound(0, SCALE as int);
}

/// Standing still stays still: grounded, with no intent and no carried
/// momentum, a tick leaves the velocity at zero, the location where it was,
/// and no momentum for the tick after.
pub proof fn lemma_idle_stays_still(p: Physics, world: World)
    requires
        p.can_tick(),
        p.spec_pending() == PendingMovement::spec_none(),
        !p.spec_falling(world),
        p.spec_prev().speed_x == 0,
        p.spec_prev().speed_z == 0,
    ensures
        p.next_velocity(world) == Displacement::zero(),
        p.next_location(world) == p.spec_location(),
        p.next_prev(world).speed_x == 0,
        p.next_prev(world).speed_z == 0,
{
    assert(p.intent() == (0int, 0int));
    lemma_fx_mul_zero(p.spec_horizontal().dx as int);
    lemma_fx_mul_zero(p.spec_horizontal().dz as int);
    lemma_fx_mul_zero(-p.spec_horizontal().dz);
    assert(p.move_mult_x() == 0);
    assert(p.move_mult_z() == 0);
    let ps = p.spec_prev().slip as int;
    lemma_fx_mul_zero(ps);
    lemma_fx_mul_zero(0);
    assert(momentum(0, ps) == 0);
    lemma_fx_mul_zero(crate::fixed::fx_mul(0, SCALE as int));
    lemma_fx_mul_zero(SCALE as int);
    lemma_fx_mul_zero(crate::momentum::GROUND_ACCEL as int);
    let c = crate::momentum::slip_factor(p.ground_slip(world) as int);
    lemma_fx_mul_zero(c);
    assert(ground_accel(0, SCALE as int, p.ground_slip(world) as int) == 0);
    assert(p.next_speed_x(world) == 0);
    assert(p.next_speed_z(world) == 0);
}

/// Airborne, a tick applies gravity then drag to the vertical speed, unless
/// the move ends against a ceiling or a floor.
pub proof fn lemma_free_fall_step(p: Physics, world: World)
    requires
        p.wf(),
        p.spec_falling(world),
        !p.hits_ceiling(world),
        !p.lands(world),
    ensures
        p.next_velocity(world).dy == spec_ver_speed(p.spec_velocity().dy as int),
{
    lemma_ver_speed_bounds(p.spec_velocity().dy as int);
}

/// Vertical speed after `n` airborne ticks, starting at rest.
pub open spec fn fall_speed(n: nat) -> int
    decreases n,
{
    if n == 0 {
        0
    } else {
        spec_ver_speed(fall_speed((n - 1) as nat))
    }
}

/// Falling from rest through `n` ticks without touching anything gives the
/// vertical speed of the gravity-then-drag recurrence applied `n` times.
pub proof fn lemma_free_fall(states: Seq<Physics>, world: World)
    requires
        states.len() >= 1,
        states[0].spec_velocity().dy == 0,
        forall|i: int| 0 <= i < states.len() - 1 ==> {
            &&& (#[trigger] states[i]).wf()
            &&& states[i].spec_falling(world)
            &&& !states[i].hits_ceiling(world)
            &&& !states[i].lands(world)
            &&& states[i + 1].spec_velocity() == states[i].next_velocity(world)
        },
    ensures
        forall|i: int| 0 <= i < states.len() ==> (#[trigger] states[i]).spec_velocity().dy == fall_speed(i as nat),
    decreases states.len(),
{
    if states.len() > 1 {
        let shorter = states.drop_last();
        assert forall|i: int| 0 <= i < shorter.len() - 1 implies {
            &&& (#[trigger] shorter[i]).wf()
            &&& shorter[i].spec_falling(world)
            &&& !shorter[i].hits_ceiling(world)
            &&& !shorter[i].lands(world)
            &&& shorter[i + 1].spec_velocity() == shorter[i].next_velocity(world)
        } by {
            assert(shorter[i] == states[i]);
            assert(shorter[i + 1] == states[i + 1]);
        }
        lemma_free_fall(shorter, world);
        let n = states.len() - 1;
        assert(states[n - 1] == shorter[n - 1]);
        assert(states[n - 1].spec_velocity().dy == fall_speed((n - 1) as nat));
        lemma_free_fall_step(states[n - 1], world);
        assert forall|i: int| 0 <= i < states.len() implies (#[trigger] states[i]).spec_velocity().dy == fall_speed(i as nat) by {
            if i < n {
                assert(states[i] == shorter[i]);
            }
        }
    }
}

/// A jump from the ground launches upward at 0.42 blocks per tick, and the
/// committed classification still says grounded until the next tick samples
/// again.
pub proof fn lemma_jump_launch(p: Physics, world: World)
    requires
        !p.spec_falling(world),
        p.spec_pending().jump,
    ensures
        p.next_velocity(world).dy == JUMP_UPWARDS_MOTION,
        !p.next_prev(world).falling,
{
}

/// When the leading edge's feet or head voxel is solid, the horizontal
/// velocity after the tick is zero, whatever the intent.
pub proof fn lemma_hard_stop(p: Physics, world: World)
    requires
        p.blocked(world),
    ensures
        p.next_velocity(world).dx == 0,
        p.next_velocity(world).dz == 0,
        p.next_prev(world).speed_x == 0,
        p.next_prev(world).speed_z == 0,
{
}

/// An intent whose squared magnitude is below the dead zone counts as none.
pub proof fn lemma_dead_zone(strafe: int, forward: int, m: int)
    requires
        strafe * strafe + forward * forward < DEAD_ZONE,
    ensures
        spec_mot_xz(strafe, forward, m) == (0int, 0int),
{
}

/// The square root of two at fixed-point scale, rounded up.
pub const SQRT_2: i128 = 1_414_213_562_373_096;

/// A full diagonal intent gives each axis the multiplier divided by the
/// square root of two (at fixed-point precision, never above the exact
/// value), the same on both axes.
pub proof fn lemma_diagonal(m: int)
    ensures
        spec_mot_xz(SCALE as int, SCALE as int, m) == (trunc_div(SCALE * m, SQRT_2 as int), trunc_div(
            SCALE * m,
            SQRT_2 as int,
        )),
        2 * trunc_div(SCALE * m, SQRT_2 as int) * trunc_div(SCALE * m, SQRT_2 as int) <= m * m,
{
    let mag2 = SCALE * SCALE + SCALE * SCALE;
    assert(mag2 == 2_000_000_000_000_000_000_000_000_000_000int);
    assert(is_ceil_sqrt(SQRT_2 as int, mag2));
    let w = choose|r: int| is_ceil_sqrt(r, mag2);
    lemma_ceil_sqrt_unique(w, SQRT_2 as int, mag2);
    assert(ceil_sqrt(mag2) == SQRT_2);
    lemma_mot_xz_within(SCALE as int, SCALE as int, m);
    let c = trunc_div(SCALE * m, SQRT_2 as int);
    assert(spec_mot_xz(SCALE as int, SCALE as int, m) == (c, c));
    assert(c * c + c * c <= m * m);
    assert(2 * c * c <= m * m) by (nonlinear_arith)
        requires c * c + c * c <= m * m;
}

} // verus!
