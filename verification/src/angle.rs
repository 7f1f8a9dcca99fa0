//! Fixed-point angles. A full turn of the color wheel is `FULL_TURN`
//! angle units (so one unit is close to a milliradian), and fractional
//! quantities such as the sine wave are scaled by `SCALE`. `FULL_TURN`
//! is chosen divisible by twice every small stripe count, so stripe
//! boundaries and stripe midpoints land exactly on angle units.

use vstd::prelude::*;

verus! {

/// Angle units in a full turn of the color wheel.
pub const FULL_TURN: u32 = 6000;

/// Angle units in half a turn.
pub const HALF_TURN: u32 = 3000;

/// Fixed-point scale for fractions: frequencies, blend balance, sine.
pub const SCALE: u32 = 1000;

/// `theta` normalized into `[0, FULL_TURN)`: the representative of its
/// equivalence class modulo a full turn.
pub open spec fn clamp_theta_spec(theta: int) -> int {
    theta % (FULL_TURN as int)
}

/// Normalize an angle into `[0, FULL_TURN)`.
pub fn clamp_theta(theta: i128) -> (r: u32)
    ensures
        r == clamp_theta_spec(theta as int),
        r < FULL_TURN,
{
    if theta >= 0 {
        (theta as u128 % FULL_TURN as u128) as u32
    } else {
        let a: u128 = (-(theta + 1)) as u128;
        let m: u128 = a % FULL_TURN as u128;
        let r: u32 = (FULL_TURN as u128 - 1 - m) as u32;
        proof {
            lemma_clamp_negative(theta as int, a as int, r as int);
        }
        r
    }
}

/// For a negative angle, the normalized value is the mirror of the
/// remainder of its predecessor's magnitude.
proof fn lemma_clamp_negative(theta: int, a: int, r: int)
    requires
        theta < 0,
        a == -(theta + 1),
        r == (FULL_TURN as int) - 1 - a % (FULL_TURN as int),
    ensures
        r == clamp_theta_spec(theta),
{
    let n = FULL_TURN as int;
    let q = a / n;
    let m = a % n;
    vstd::arithmetic::div_mod::lemma_fundamental_div_mod(a, n);
    assert(theta == -a - 1);
    assert(theta == n * (-q - 1) + (n - 1 - m));
    vstd::arithmetic::div_mod::lemma_fundamental_div_mod_converse(
        theta, n, -q - 1, n - 1 - m);
}

/// Normalization is idempotent: a value already in `[0, FULL_TURN)` is
/// its own normal form.
pub proof fn lemma_clamp_theta_idempotent(x: int)
    ensures
        clamp_theta_spec(clamp_theta_spec(x)) == clamp_theta_spec(x),
{
    let n = FULL_TURN as int;
    vstd::arithmetic::div_mod::lemma_mod_bound(x, n);
    vstd::arithmetic::div_mod::lemma_small_mod((x % n) as nat, n as nat);
}

/// Angles a whole number of turns apart normalize to the same value.
pub proof fn lemma_clamp_theta_periodic(x: int, k: int)
    ensures
        clamp_theta_spec(x + k * 6000) == clamp_theta_spec(x),
{
    vstd::arithmetic::div_mod::lemma_mod_multiples_vanish(k, x, 6000);
}

/// The sine of `x` on the first half turn, scaled by `SCALE`: a rational
/// approximation that is exact at `0`, the quarter turn and the half turn,
/// and stays within `[0, SCALE]` in between.
pub open spec fn sin_half_spec(x: int) -> int
    recommends
        0 <= x <= HALF_TURN,
{
    let q = x * (3000 - x);
    16000 * q / (45_000_000 - 4 * q)
}

/// The sine of an angle in `[0, FULL_TURN)`, scaled by `SCALE`: the second
/// half turn mirrors the first below zero.
pub open spec fn sin_frac_spec(theta: int) -> int
    recommends
        0 <= theta < FULL_TURN,
{
    if theta <= HALF_TURN {
        sin_half_spec(theta)
    } else {
        -sin_half_spec(theta - HALF_TURN)
    }
}

/// The product `x * (3000 - x)` is largest at the quarter turn.
proof fn lemma_hump_bounds(x: int)
    requires
        0 <= x <= 3000,
    ensures
        0 <= x * (3000 - x),
        x * (3000 - x) <= 2_250_000,
{
    assert(0 <= x * (3000 - x)) by (nonlinear_arith)
        requires 0 <= x <= 3000;
    assert(x * (3000 - x) <= 2_250_000) by (nonlinear_arith)
        requires 0 <= x <= 3000;
}

/// `sin_half_spec` stays within `[0, SCALE]`.
proof fn lemma_sin_half_bounds(x: int)
    requires
        0 <= x <= 3000,
    ensures
        0 <= sin_half_spec(x) <= 1000,
{
    let q = x * (3000 - x);
    let num = 16000 * q;
    let den = 45_000_000 - 4 * q;
    lemma_hump_bounds(x);
    assert(den >= 36_000_000);
    assert(num <= 1000 * den);
    vstd::arithmetic::div_mod::lemma_div_is_ordered(0, num, den);
    vstd::arithmetic::div_mod::lemma_div_is_ordered(num, 1000 * den, den);
    vstd::arithmetic::div_mod::lemma_div_multiples_vanish(1000, den);
}

/// `sin_frac_spec` stays within `[-SCALE, SCALE]`.
pub proof fn lemma_sin_frac_bounds(theta: int)
    requires
        0 <= theta < FULL_TURN,
    ensures
        -(SCALE as int) <= sin_frac_spec(theta) <= SCALE,
{
    if theta <= HALF_TURN {
        lemma_sin_half_bounds(theta);
    } else {
        lemma_sin_half_bounds(theta - HALF_TURN);
    }
}

/// The sine of an angle in `[0, FULL_TURN)`, scaled by `SCALE`.
pub fn sin_frac(theta: u32) -> (r: i32)
    requires
        theta < FULL_TURN,
    ensures
        r == sin_frac_spec(theta as int),
        -(SCALE as int) <= r <= SCALE,
{
    let x: u32 = if theta <= HALF_TURN {
        theta
    } else {
        theta - HALF_TURN
    };
    let neg: bool = theta > HALF_TURN;
    proof {
        lemma_hump_bounds(x as int);
    }
    let q: u64 = (x as u64) * ((3000 - x) as u64);
    let num: u64 = 16000 * q;
    let den: u64 = 45_000_000 - 4 * q;
    let s: u64 = num / den;
    proof {
        lemma_sin_half_bounds(x as int);
    }
    if neg {
        -(s as i32)
    } else {
        s as i32
    }
}

} // verus!
