use bot_physics::fixed::{block_index, div_floor, div_fx, div_trunc, mul_fx, round_to_block, sqrt_ceil, SCALE};
use bot_physics::momentum::{
    air_speed, effects_multiplier, ground_speed, initial_ver, jump_speed, mot_xz, ver_speed, TERMINAL_SPEED,
};

/// One millionth of a block.
const U: i128 = 1_000_000_000;

fn blocks(v: i128) -> f64 {
    v as f64 / SCALE as f64
}

#[test]
fn fixed_products_truncate_toward_zero() {
    assert_eq!(mul_fx(1_500_000 * U, 2_000_000 * U), 3_000_000 * U);
    assert_eq!(mul_fx(1, 999_999_999_999_999), 0);
    assert_eq!(mul_fx(-1, 999_999_999_999_999), 0);
    assert_eq!(mul_fx(-3, 500_000_000_000_000), -1);
    assert_eq!(div_fx(600_000 * U, 800_000 * U), 750_000 * U);
    assert_eq!(div_trunc(-7, 2), -3);
    assert_eq!(div_trunc(7, 2), 3);
    assert_eq!(div_floor(-7, 2), -4);
    assert_eq!(div_floor(7, 2), 3);
    assert_eq!(div_floor(i128::MIN, 2), i128::MIN / 2);
}

#[test]
fn square_root_rounds_up() {
    assert_eq!(sqrt_ceil(0), 0);
    assert_eq!(sqrt_ceil(1), 1);
    assert_eq!(sqrt_ceil(15), 4);
    assert_eq!(sqrt_ceil(16), 4);
    assert_eq!(sqrt_ceil(17), 5);
    assert_eq!(sqrt_ceil(2_000_000_000_000_000_000_000_000_000_000), 1_414_213_562_373_096);
    assert_eq!(sqrt_ceil(u128::MAX), 1 << 64);
}

#[test]
fn block_boundaries() {
    assert_eq!(block_index(1_999_999 * U), 1);
    assert_eq!(block_index(0), 0);
    assert_eq!(block_index(-1), -1);
    assert_eq!(block_index(-SCALE), -1);
    assert_eq!(block_index(-SCALE - 1), -2);
    assert_eq!(round_to_block(63_971_600 * U), 64 * SCALE);
    assert_eq!(round_to_block(63_500_000 * U), 64 * SCALE);
    assert_eq!(round_to_block(-2_500_000 * U), -3 * SCALE);
    assert_eq!(round_to_block(-2_499_999 * U), -2 * SCALE);
}

#[test]
fn dead_zone_gives_no_intent() {
    assert_eq!(mot_xz(5_000 * U, 5_000 * U, SCALE), [0, 0]);
    assert_eq!(mot_xz(0, 0, 1_300_000 * U), [0, 0]);
}

#[test]
fn small_intent_outside_dead_zone_is_scaled_directly() {
    // 0.01^2 + 0.01^2 = 2e-4 is not below 1e-4
    assert_eq!(mot_xz(10_000 * U, 10_000 * U, SCALE), [10_000 * U, 10_000 * U]);
    assert_eq!(mot_xz(10_000 * U, 10_000 * U, 2 * SCALE), [20_000 * U, 20_000 * U]);
}

#[test]
fn diagonal_intent_is_normalised() {
    let r = mot_xz(SCALE, SCALE, SCALE);
    assert_eq!(r, [707_106_781_186_547, 707_106_781_186_547]);
    let exact = 1f64 / 2f64.sqrt();
    assert!((blocks(r[0]) - exact).abs() < 1e-14);
    assert!(r[0] * r[0] + r[1] * r[1] <= SCALE * SCALE);
    let m = 1_300_000 * U;
    let r = mot_xz(-SCALE, SCALE, m);
    assert_eq!(r, [-919_238_815_542_511, 919_238_815_542_511]);
    assert!(r[0] * r[0] + r[1] * r[1] <= m * m);
}

#[test]
fn unit_intent_is_scaled_by_multiplier() {
    assert_eq!(mot_xz(0, SCALE, 1_300_000 * U), [0, 1_300_000 * U]);
    assert_eq!(mot_xz(-SCALE, 0, SCALE), [-SCALE, 0]);
    assert_eq!(mot_xz(500_000 * U, 0, SCALE), [500_000 * U, 0]);
}

#[test]
fn effect_multiplier_values() {
    assert_eq!(effects_multiplier(0, 0), SCALE);
    assert_eq!(effects_multiplier(1, 0), 1_200_000 * U);
    assert_eq!(effects_multiplier(0, 1), 850_000 * U);
    assert_eq!(effects_multiplier(1, 1), 1_020_000 * U);
}

#[test]
fn jump_launch_speed() {
    assert_eq!(initial_ver(0), 420_000 * U);
    assert_eq!(initial_ver(2), 620_000 * U);
}

#[test]
fn free_fall_recurrence_five_ticks() {
    let expected: [i128; 5] =
        [-78_400_000_000_000, -155_232_000_000_000, -230_527_360_000_000, -304_316_812_800_000, -376_630_476_544_000];
    let mut dy: i128 = 0;
    for (i, e) in expected.iter().enumerate() {
        let next = ver_speed(dy);
        assert_eq!(next, *e);
        // the closed form -3.92 * (1 - 0.98^n)
        let n = (i + 1) as i32;
        let closed = -3.92 * (1.0 - 0.98f64.powi(n));
        assert!((blocks(next) - closed).abs() <= 1e-12);
        dy = next;
    }
}

#[test]
fn fall_accelerates_up_to_terminal_speed() {
    assert_eq!(ver_speed(TERMINAL_SPEED), TERMINAL_SPEED);
    let near = -3_919_990 * U;
    assert_eq!(ver_speed(near), -3_919_990_200_000_000);
    assert!(ver_speed(TERMINAL_SPEED + 1) < TERMINAL_SPEED + 1);
    assert!(ver_speed(TERMINAL_SPEED + 1) >= TERMINAL_SPEED);
    let mut dy: i128 = 0;
    for _ in 0..2000 {
        let next = ver_speed(dy);
        assert!(next >= TERMINAL_SPEED);
        assert!(next < dy || dy == TERMINAL_SPEED);
        dy = next;
    }
}

#[test]
fn ground_speed_values() {
    assert_eq!(ground_speed(0, 600_000 * U, SCALE, SCALE, 600_000 * U), 100_000 * U);
    assert_eq!(ground_speed(100_000 * U, 600_000 * U, SCALE, SCALE, 600_000 * U), 154_600 * U);
    assert_eq!(ground_speed(0, 600_000 * U, 0, SCALE, 600_000 * U), 0);
    // slippery ice: (0.6 / 0.98)^3 = 0.2294962..., acceleration shrinks
    assert_eq!(ground_speed(0, 600_000 * U, SCALE, SCALE, 980_000 * U), 22_949_621_331_247);
    assert_eq!(ground_speed(-100_000 * U, 600_000 * U, -SCALE, SCALE, 600_000 * U), -154_600 * U);
}

#[test]
fn jump_speed_values() {
    assert_eq!(jump_speed(0, 600_000 * U, SCALE, SCALE, 600_000 * U, false), 100_000 * U);
    assert_eq!(jump_speed(0, 600_000 * U, SCALE, SCALE, 600_000 * U, true), 300_000 * U);
}

#[test]
fn air_speed_values() {
    assert_eq!(air_speed(100_000 * U, SCALE, SCALE), 111_000 * U);
    assert_eq!(air_speed(0, 600_000 * U, -SCALE), -20_000 * U);
}
