//! The momentum model: pure functions giving next-tick speeds from the
//! previous speed, the friction ("slip") and the movement intent.
use vstd::prelude::*;
use crate::fixed::{
    abs, ceil_sqrt, fx_div, fx_mul, is_ceil_sqrt, trunc_div, SCALE, div_floor, div_fx, div_trunc,
    mul_fx, sqrt_ceil, lemma_ceil_sqrt_bounds_component, lemma_fx_mul_bound, lemma_trunc_div_bound,
};
use crate::world::{valid_slip, SLIP_MIN};

verus! {

/// Largest magnitude of a horizontal speed component (2000 blocks per tick).
pub const SPEED_MAX: i128 = 2_000_000_000_000_000_000;

/// Largest magnitude of a vertical speed (4 blocks per tick).
pub const VERTICAL_MAX: i128 = 4_000_000_000_000_000;

/// Largest magnitude of a per-axis movement multiplier.
pub const MOVE_MULT_MAX: i128 = 3_000_000_000_000_000;

/// Largest magnitude of a status-effect multiplier.
pub const EFFECT_MULT_MAX: i128 = 2_000_000_000_000_000;

/// Largest magnitude of an intent factor or of a speed-mode multiplier.
pub const INTENT_MAX: i128 = 1_000_000_000_000_000_000;

/// Below this squared magnitude (1e-4) an intent counts as none.
pub const DEAD_ZONE: i128 = 100_000_000_000_000_000_000_000_000;

/// Upward speed at the start of a jump.
pub const JUMP_UPWARDS_MOTION: i128 = 420_000_000_000_000;

/// Extra upward speed per level of jump boost.
pub const JUMP_BOOST_STEP: i128 = 100_000_000_000_000;

/// Speed lost to gravity each airborne tick.
pub const GRAVITY: i128 = 80_000_000_000_000;

/// Fraction of vertical speed kept against air drag each tick.
pub const DRAG: i128 = 980_000_000_000_000;

/// The vertical speed a fall tends to: gravity and drag balance there.
pub const TERMINAL_SPEED: i128 = -3_920_000_000_000_000;

/// Fraction of momentum kept per unit of slip each tick.
pub const MOMENTUM_KEPT: i128 = 910_000_000_000_000;

/// Ground acceleration per unit of movement multiplier.
pub const GROUND_ACCEL: i128 = 100_000_000_000_000;

/// Airborne acceleration per unit of movement multiplier.
pub const AIR_ACCEL: i128 = 20_000_000_000_000;

/// Horizontal boost of a jump made while sprinting.
pub const SPRINT_JUMP_BOOST: i128 = 200_000_000_000_000;

/// The friction the acceleration is measured against.
pub const REFERENCE_SLIP: i128 = 600_000_000_000_000;

/// The length an intent is divided by: its magnitude (rounded up), but never
/// less than one.
pub open spec fn intent_divisor(mag2: int) -> int {
    let root = ceil_sqrt(mag2);
    if root > SCALE { root } else { SCALE as int }
}

/// The local intent `(strafe, forward)` scaled by the movement multiplier `m`.
pub open spec fn spec_mot_xz(strafe: int, forward: int, m: int) -> (int, int) {
    let mag2 = strafe * strafe + forward * forward;
    if mag2 < DEAD_ZONE {
        (0, 0)
    } else {
        let dist = intent_divisor(mag2);
        (trunc_div(strafe * m, dist), trunc_div(forward * m, dist))
    }
}

/// The scaled intent is never longer than the multiplier.
pub proof fn lemma_mot_xz_within(strafe: int, forward: int, m: int)
    ensures
        ({
            let (a, b) = spec_mot_xz(strafe, forward, m);
            &&& a * a + b * b <= m * m
            &&& abs(a) <= abs(m)
            &&& abs(b) <= abs(m)
        }),
{
    let mag2 = strafe * strafe + forward * forward;
    let (a, b) = spec_mot_xz(strafe, forward, m);
    if mag2 < DEAD_ZONE {
        assert(m * m >= 0) by (nonlinear_arith);
    } else {
        let dist = intent_divisor(mag2);
        assert(strafe * strafe >= 0 && forward * forward >= 0) by (nonlinear_arith);
        lemma_ceil_sqrt_exists(mag2);
        lemma_ceil_sqrt_bounds_component(strafe, forward, ceil_sqrt(mag2));
        lemma_ceil_sqrt_bounds_component(forward, strafe, ceil_sqrt(mag2));
        assert(dist * dist >= mag2) by (nonlinear_arith)
            requires dist >= ceil_sqrt(mag2), ceil_sqrt(mag2) >= 0, mag2 <= ceil_sqrt(mag2) * ceil_sqrt(mag2);
        lemma_trunc_div_bound(strafe * m, dist);
        lemma_trunc_div_bound(forward * m, dist);
        let sm = abs(strafe) * abs(m);
        let fm = abs(forward) * abs(m);
        assert(abs(strafe * m) == abs(strafe) * abs(m)) by (nonlinear_arith);
        assert(abs(forward * m) == abs(forward) * abs(m)) by (nonlinear_arith);
        assert(a * a * (dist * dist) <= sm * sm) by (nonlinear_arith)
            requires abs(a) * dist <= sm, dist > 0, abs(a) >= 0;
        assert(b * b * (dist * dist) <= fm * fm) by (nonlinear_arith)
            requires abs(b) * dist <= fm, dist > 0, abs(b) >= 0;
        assert(sm * sm + fm * fm == mag2 * (m * m)) by (nonlinear_arith)
            requires sm == abs(strafe) * abs(m), fm == abs(forward) * abs(m),
                mag2 == strafe * strafe + forward * forward;
        assert(mag2 * (m * m) <= dist * dist * (m * m)) by (nonlinear_arith)
            requires mag2 <= dist * dist;
        assert((a * a + b * b) * (dist * dist) <= dist * dist * (m * m)) by (nonlinear_arith)
            requires a * a * (dist * dist) <= sm * sm, b * b * (dist * dist) <= fm * fm,
                sm * sm + fm * fm == mag2 * (m * m), mag2 * (m * m) <= dist * dist * (m * m);
        assert(a * a + b * b <= m * m) by (nonlinear_arith)
            requires (a * a + b * b) * (dist * dist) <= dist * dist * (m * m), dist > 0;
        assert(abs(a) <= abs(m)) by (nonlinear_arith)
            requires abs(a) * dist <= sm, sm == abs(strafe) * abs(m), abs(strafe) <= dist, dist > 0;
        assert(abs(b) <= abs(m)) by (nonlinear_arith)
            requires abs(b) * dist <= fm, fm == abs(forward) * abs(m), abs(forward) <= dist, dist > 0;
    }
}

/// Every non-negative number has a rounded-up square root.
pub proof fn lemma_ceil_sqrt_exists(n: int)
    requires
        n >= 0,
    ensures
        is_ceil_sqrt(ceil_sqrt(n), n),
    decreases n,
{
    if n == 0 {
        assert(is_ceil_sqrt(0, 0));
    } else {
        lemma_ceil_sqrt_exists(n - 1);
        let r = ceil_sqrt(n - 1);
        if n <= r * r {
            assert(is_ceil_sqrt(r, n));
        } else {
            assert(is_ceil_sqrt(r + 1, n)) by (nonlinear_arith)
                requires n > r * r, n - 1 <= r * r, r >= 0;
        }
    }
}

/// Converts a local intent into movement multipliers along the strafe and
/// forward axes. An intent whose squared magnitude is below `DEAD_ZONE` is
/// none; one within unit length is scaled by `movement_factor`; a longer one
/// is first brought down to unit length, so the multiplier is never exceeded.
pub fn mot_xz(strafe: i128, forward: i128, movement_factor: i128) -> (r: [i128; 2])
    requires
        abs(strafe as int) <= INTENT_MAX,
        abs(forward as int) <= INTENT_MAX,
        abs(movement_factor as int) <= INTENT_MAX,
    ensures
        (r[0] as int, r[1] as int) == spec_mot_xz(strafe as int, forward as int, movement_factor as int),
        r[0] * r[0] + r[1] * r[1] <= movement_factor * movement_factor,
        abs(r[0] as int) <= abs(movement_factor as int),
        abs(r[1] as int) <= abs(movement_factor as int),
{
    proof {
        assert(0 <= strafe * strafe <= INTENT_MAX * INTENT_MAX) by (nonlinear_arith)
            requires abs(strafe as int) <= INTENT_MAX;
        assert(0 <= forward * forward <= INTENT_MAX * INTENT_MAX) by (nonlinear_arith)
            requires abs(forward as int) <= INTENT_MAX;
        assert(abs(strafe * movement_factor) <= INTENT_MAX * INTENT_MAX) by (nonlinear_arith)
            requires abs(strafe as int) <= INTENT_MAX, abs(movement_factor as int) <= INTENT_MAX;
        assert(abs(forward * movement_factor) <= INTENT_MAX * INTENT_MAX) by (nonlinear_arith)
            requires abs(forward as int) <= INTENT_MAX, abs(movement_factor as int) <= INTENT_MAX;
        lemma_mot_xz_within(strafe as int, forward as int, movement_factor as int);
    }
    let mag2: i128 = strafe * strafe + forward * forward;
    if mag2 < DEAD_ZONE {
        return [0, 0];
    }
    let root: u128 = sqrt_ceil(mag2 as u128);
    assert(root >= 1) by (nonlinear_arith)
        requires mag2 <= root * root, mag2 > 0, root >= 0;
    assert(root <= 2 * INTENT_MAX) by (nonlinear_arith)
        requires (root - 1) * (root - 1) < mag2, mag2 <= 2 * INTENT_MAX * INTENT_MAX, root >= 1;
    let dist: i128 = if root > SCALE as u128 { root as i128 } else { SCALE };
    let a: i128 = div_trunc(strafe * movement_factor, dist);
    let b: i128 = div_trunc(forward * movement_factor, dist);
    [a, b]
}

/// `(1 + 0.2 * speed) * (1 - 0.15 * slowness)`.
pub open spec fn spec_effects_multiplier(speed: int, slowness: int) -> int {
    fx_mul(SCALE + 200_000_000_000_000 * speed, SCALE - 150_000_000_000_000 * slowness)
}

/// The multiplier that speed and slowness status effects put on ground
/// acceleration, by effect level.
pub fn effects_multiplier(speed: u8, slowness: u8) -> (r: i128)
    ensures
        r == spec_effects_multiplier(speed as int, slowness as int),
        speed == 0 && slowness == 0 ==> r == SCALE,
{
    let a: i128 = SCALE + 200_000_000_000_000 * (speed as i128);
    let b: i128 = SCALE - 150_000_000_000_000 * (slowness as i128);
    proof {
        lemma_fx_mul_bound(a as int, b as int, 52_000_000_000_000_000, 38_000_000_000_000_000);
        if speed == 0 && slowness == 0 {
            reveal(trunc_div);
            assert(SCALE * SCALE == 1_000_000_000_000_000_000_000_000_000_000int);
            assert(fx_mul(SCALE as int, SCALE as int) == SCALE);
        }
    }
    mul_fx(a, b)
}

/// Upward speed at the start of a jump with the given jump-boost level.
pub fn initial_ver(jump_boost: u8) -> (r: i128)
    ensures
        r == JUMP_UPWARDS_MOTION + JUMP_BOOST_STEP * jump_boost,
{
    JUMP_UPWARDS_MOTION + JUMP_BOOST_STEP * (jump_boost as i128)
}

/// Vertical speed after one airborne tick: gravity, then drag, rounded down.
pub open spec fn spec_ver_speed(prev: int) -> int {
    ((prev - GRAVITY) * DRAG) / (SCALE as int)
}

/// A fall accelerates toward the terminal speed, strictly while above it,
/// and never passes it.
pub proof fn lemma_ver_speed_bounds(prev: int)
    requires
        abs(prev) <= VERTICAL_MAX,
    ensures
        abs(spec_ver_speed(prev)) <= VERTICAL_MAX,
        prev >= TERMINAL_SPEED ==> spec_ver_speed(prev) >= TERMINAL_SPEED,
        prev > TERMINAL_SPEED ==> spec_ver_speed(prev) < prev,
{
    let x = (prev - GRAVITY) * DRAG;
    let r = spec_ver_speed(prev);
    let s = SCALE as int;
    vstd::arithmetic::div_mod::lemma_fundamental_div_mod(x, s);
    assert(r * s <= x < r * s + s);
}

/// Vertical speed after one airborne tick: gravity, then drag, rounded down
/// so that a fall keeps accelerating until the terminal speed.
pub fn ver_speed(prev_speed: i128) -> (r: i128)
    requires
        abs(prev_speed as int) <= VERTICAL_MAX,
    ensures
        r == spec_ver_speed(prev_speed as int),
        abs(r as int) <= VERTICAL_MAX,
        prev_speed >= TERMINAL_SPEED ==> r >= TERMINAL_SPEED,
        prev_speed > TERMINAL_SPEED ==> r < prev_speed,
{
    proof {
        lemma_ver_speed_bounds(prev_speed as int);
    }
    div_floor((prev_speed - GRAVITY) * DRAG, SCALE)
}

/// Momentum carried into the next tick: `prev_speed * prev_slip * 0.91`.
pub open spec fn momentum(prev_speed: int, prev_slip: int) -> int {
    fx_mul(fx_mul(prev_speed, prev_slip), MOMENTUM_KEPT as int)
}

/// `(0.6 / slip)^3`.
pub open spec fn slip_factor(slip: int) -> int {
    let q = fx_div(REFERENCE_SLIP as int, slip);
    fx_mul(fx_mul(q, q), q)
}

/// Ground acceleration `0.1 * move_mult * effect_mult * (0.6 / slip)^3`.
pub open spec fn ground_accel(move_mult: int, effect_mult: int, slip: int) -> int {
    fx_mul(fx_mul(fx_mul(GROUND_ACCEL as int, move_mult), effect_mult), slip_factor(slip))
}

pub open spec fn spec_ground_speed(prev_speed: int, prev_slip: int, move_mult: int, effect_mult: int, slip: int) -> int {
    momentum(prev_speed, prev_slip) + ground_accel(move_mult, effect_mult, slip)
}

pub open spec fn spec_jump_speed(prev_speed: int, prev_slip: int, move_mult: int, effect_mult: int, slip: int, was_sprinting: bool) -> int {
    spec_ground_speed(prev_speed, prev_slip, move_mult, effect_mult, slip) + if was_sprinting {
        SPRINT_JUMP_BOOST as int
    } else {
        0
    }
}

pub open spec fn spec_air_speed(prev_speed: int, prev_slip: int, move_mult: int) -> int {
    momentum(prev_speed, prev_slip) + fx_mul(AIR_ACCEL as int, move_mult)
}

/// The arguments of a speed recurrence keep its arithmetic in range.
pub open spec fn speed_args(prev_speed: int, prev_slip: int, move_mult: int) -> bool {
    abs(prev_speed) <= SPEED_MAX && valid_slip(prev_slip) && abs(move_mult) <= MOVE_MULT_MAX
}

fn momentum_of(prev_speed: i128, prev_slip: i128) -> (r: i128)
    requires
        abs(prev_speed as int) <= SPEED_MAX,
        valid_slip(prev_slip as int),
    ensures
        r == momentum(prev_speed as int, prev_slip as int),
        abs(r as int) <= 1_820_000_000_000_000_000,
{
    proof {
        lemma_fx_mul_bound(prev_speed as int, prev_slip as int, SPEED_MAX as int, SCALE as int);
    }
    let a: i128 = mul_fx(prev_speed, prev_slip);
    proof {
        lemma_fx_mul_bound(a as int, MOMENTUM_KEPT as int, SPEED_MAX as int, MOMENTUM_KEPT as int);
    }
    mul_fx(a, MOMENTUM_KEPT)
}

fn ground_accel_of(move_mult: i128, effect_mult: i128, slip: i128) -> (r: i128)
    requires
        abs(move_mult as int) <= MOVE_MULT_MAX,
        abs(effect_mult as int) <= EFFECT_MULT_MAX,
        valid_slip(slip as int),
    ensures
        r == ground_accel(move_mult as int, effect_mult as int, slip as int),
        abs(r as int) <= 129_600_000_000_000_000,
{
    let q: i128 = div_fx(REFERENCE_SLIP, slip);
    proof {
        lemma_trunc_div_bound(REFERENCE_SLIP * SCALE, slip as int);
        assert(0 <= q <= 6_000_000_000_000_000) by (nonlinear_arith)
            requires q * slip <= REFERENCE_SLIP * SCALE, slip >= SLIP_MIN, q >= 0;
        lemma_fx_mul_bound(q as int, q as int, 6_000_000_000_000_000, 6_000_000_000_000_000);
    }
    let q2: i128 = mul_fx(q, q);
    proof {
        lemma_fx_mul_bound(q2 as int, q as int, 36_000_000_000_000_000, 6_000_000_000_000_000);
    }
    let c: i128 = mul_fx(q2, q);
    proof {
        lemma_fx_mul_bound(GROUND_ACCEL as int, move_mult as int, GROUND_ACCEL as int, MOVE_MULT_MAX as int);
    }
    let a: i128 = mul_fx(GROUND_ACCEL, move_mult);
    proof {
        lemma_fx_mul_bound(a as int, effect_mult as int, 300_000_000_000_000, EFFECT_MULT_MAX as int);
    }
    let b: i128 = mul_fx(a, effect_mult);
    proof {
        lemma_fx_mul_bound(b as int, c as int, 600_000_000_000_000, 216_000_000_000_000_000);
    }
    mul_fx(b, c)
}

/// Horizontal speed after a grounded tick: the previous momentum decayed by
/// friction, plus an acceleration growing as the block gets slipperier.
pub fn ground_speed(prev_speed: i128, prev_slip: i128, move_mult: i128, effect_mult: i128, slip: i128) -> (r: i128)
    requires
        speed_args(prev_speed as int, prev_slip as int, move_mult as int),
        abs(effect_mult as int) <= EFFECT_MULT_MAX,
        valid_slip(slip as int),
    ensures
        r == spec_ground_speed(prev_speed as int, prev_slip as int, move_mult as int, effect_mult as int, slip as int),
        abs(r as int) <= 1_949_600_000_000_000_000,
{
    momentum_of(prev_speed, prev_slip) + ground_accel_of(move_mult, effect_mult, slip)
}

/// Horizontal speed on the tick of a jump: the grounded recurrence plus a
/// one-tick boost when sprinting.
pub fn jump_speed(prev_speed: i128, prev_slip: i128, move_mult: i128, effect_mult: i128, slip: i128, was_sprinting: bool) -> (r: i128)
    requires
        speed_args(prev_speed as int, prev_slip as int, move_mult as int),
        abs(effect_mult as int) <= EFFECT_MULT_MAX,
        valid_slip(slip as int),
    ensures
        r == spec_jump_speed(prev_speed as int, prev_slip as int, move_mult as int, effect_mult as int, slip as int, was_sprinting),
        abs(r as int) <= SPEED_MAX,
{
    let jump_sprint_boost: i128 = if was_sprinting { SPRINT_JUMP_BOOST } else { 0 };
    ground_speed(prev_speed, prev_slip, move_mult, effect_mult, slip) + jump_sprint_boost
}

/// Horizontal speed after an airborne tick: fixed acceleration, whatever
/// the friction below or the status effects.
pub fn air_speed(prev_speed: i128, prev_slip: i128, move_mult: i128) -> (r: i128)
    requires
        speed_args(prev_speed as int, prev_slip as int, move_mult as int),
    ensures
        r == spec_air_speed(prev_speed as int, prev_slip as int, move_mult as int),
        abs(r as int) <= SPEED_MAX,
{
    proof {
        lemma_fx_mul_bound(AIR_ACCEL as int, move_mult as int, AIR_ACCEL as int, MOVE_MULT_MAX as int);
    }
    momentum_of(prev_speed, prev_slip) + mul_fx(AIR_ACCEL, move_mult)
}

} // verus!
