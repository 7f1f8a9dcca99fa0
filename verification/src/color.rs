//! The color model: pure functions from a fixed-point angle to an RGB
//! triple, either along a continuous sinusoidal rainbow or by blending
//! the discrete stripes of a flag with a sharpness factor.

use vstd::prelude::*;
use crate::angle;
use crate::angle::{FULL_TURN, clamp_theta, clamp_theta_spec, sin_frac, sin_frac_spec};

verus! {

/// One 24-bit color, a value type with three 8-bit channels.
#[derive(Clone, Copy, Debug, PartialEq, Eq, Structural)]
pub struct ColorRGB {
    pub red: u8,
    pub green: u8,
    pub blue: u8,
}

/// The red channel of a packed `0xRRGGBB` color value.
pub open spec fn red_channel(color: int) -> int {
    color / 65536 % 256
}

/// The green channel of a packed `0xRRGGBB` color value.
pub open spec fn green_channel(color: int) -> int {
    color / 256 % 256
}

/// The blue channel of a packed `0xRRGGBB` color value.
pub open spec fn blue_channel(color: int) -> int {
    color % 256
}

/// The color whose channels are those of the packed value `color`.
pub open spec fn rgb_of_spec(color: int) -> ColorRGB {
    ColorRGB {
        red: red_channel(color) as u8,
        green: green_channel(color) as u8,
        blue: blue_channel(color) as u8,
    }
}

/// A balance fraction (scaled by `SCALE`) raised to a whole power, the
/// product renormalized after every step: the power-law easing that
/// sharpens stripe transitions.
pub open spec fn pow_frac_spec(base: int, exp: nat) -> int
    decreases exp,
{
    if exp == 0 {
        1000
    } else {
        pow_frac_spec(base, (exp - 1) as nat) * base / 1000
    }
}

/// Blend one channel of two colors: `balance` parts of `c1` per
/// `SCALE`, the rest `c2`, rounded to the nearest integer.
pub open spec fn mix_channel_spec(c1: int, c2: int, balance: int) -> int {
    (c1 * balance + c2 * (1000 - balance) + 500) / 1000
}

/// Blend two packed colors channel by channel, with the balance first
/// eased through `pow_frac_spec` by `factor`.
pub open spec fn mix_colors_spec(color1: int, color2: int, balance: int, factor: nat) -> ColorRGB {
    let b = pow_frac_spec(balance, factor);
    ColorRGB {
        red: mix_channel_spec(red_channel(color1), red_channel(color2), b) as u8,
        green: mix_channel_spec(green_channel(color1), green_channel(color2), b) as u8,
        blue: mix_channel_spec(blue_channel(color1), blue_channel(color2), b) as u8,
    }
}

/// The whole-balance fraction is a fixed point of the easing power.
pub proof fn lemma_pow_frac_one(exp: nat)
    ensures
        pow_frac_spec(1000, exp) == 1000,
    decreases exp,
{
    if exp > 0 {
        lemma_pow_frac_one((exp - 1) as nat);
    }
}

/// A packed `0xRRGGBB` value has byte-sized channels.
proof fn lemma_channels_in_range(color: int)
    requires
        0 <= color,
    ensures
        0 <= red_channel(color) <= 255,
        0 <= green_channel(color) <= 255,
        0 <= blue_channel(color) <= 255,
{
    vstd::arithmetic::div_mod::lemma_mod_bound(color / 65536, 256);
    vstd::arithmetic::div_mod::lemma_mod_bound(color / 256, 256);
    vstd::arithmetic::div_mod::lemma_mod_bound(color, 256);
}

/// The eased balance of `balance` under `factor`, in `[0, SCALE]`.
fn pow_frac(base: u32, exp: u32) -> (r: u32)
    requires
        base <= 1000,
    ensures
        r == pow_frac_spec(base as int, exp as nat),
        r <= 1000,
{
    let mut acc: u32 = 1000;
    let mut i: u32 = 0;
    while i < exp
        invariant
            i <= exp,
            base <= 1000,
            acc <= 1000,
            acc == pow_frac_spec(base as int, i as nat),
        decreases exp - i,
    {
        proof {
            assert(acc * base <= 1_000_000) by (nonlinear_arith)
                requires acc <= 1000 && base <= 1000;
            vstd::arithmetic::div_mod::lemma_div_is_ordered(
                (acc * base) as int, 1_000_000, 1000);
        }
        acc = acc * base / 1000;
        i = i + 1;
    }
    acc
}

/// Blend one byte-sized channel of two colors at an eased balance.
fn mix_channel(c1: u32, c2: u32, bal: u32) -> (r: u32)
    requires
        c1 <= 255,
        c2 <= 255,
        bal <= 1000,
    ensures
        r == mix_channel_spec(c1 as int, c2 as int, bal as int),
        r <= 255,
{
    proof {
        assert(c1 * bal + c2 * (1000 - bal) + 500 <= 255_500) by (nonlinear_arith)
            requires c1 <= 255 && c2 <= 255 && bal <= 1000;
        vstd::arithmetic::div_mod::lemma_div_is_ordered(
            (c1 * bal + c2 * (1000 - bal) + 500) as int, 255_500, 1000);
    }
    (c1 * bal + c2 * (1000 - bal) + 500) / 1000
}

/// Blend two packed colors: `balance` parts of `color1` per `SCALE` in
/// each channel, eased by `factor`, against the rest of `color2`.
pub fn mix_colors(color1: u32, color2: u32, balance: u32, factor: u32) -> (c: ColorRGB)
    requires
        balance <= 1000,
    ensures
        c == mix_colors_spec(color1 as int, color2 as int, balance as int, factor as nat),
{
    let bal: u32 = pow_frac(balance, factor);
    let r1: u32 = color1 / 65536 % 256;
    let g1: u32 = color1 / 256 % 256;
    let b1: u32 = color1 % 256;
    let r2: u32 = color2 / 65536 % 256;
    let g2: u32 = color2 / 256 % 256;
    let b2: u32 = color2 % 256;
    let red: u32 = mix_channel(r1, r2, bal);
    let green: u32 = mix_channel(g1, g2, bal);
    let blue: u32 = mix_channel(b1, b2, bal);
    ColorRGB { red: red as u8, green: green as u8, blue: blue as u8 }
}

/// One channel of the continuous rainbow at `theta`, with the channel's
/// phase shift: the sine wave lifted into `[0, SCALE]` and then scaled
/// to a byte.
pub open spec fn rainbow_channel_spec(theta: int, phase: int) -> int {
    let t = clamp_theta_spec(theta + phase);
    let s = sin_frac_spec(t);
    ((1000 + s) / 2 * 255 + 500) / 1000
}

/// The continuous rainbow color at `theta`: the three channels are the
/// same wave a third of a turn apart.
pub open spec fn rainbow_color_spec(theta: int) -> ColorRGB {
    ColorRGB {
        red: rainbow_channel_spec(theta, 0) as u8,
        green: rainbow_channel_spec(theta, 2000) as u8,
        blue: rainbow_channel_spec(theta, 4000) as u8,
    }
}

/// Every rainbow channel is a byte: the wave stays within `[0, SCALE]`
/// and the final scaling stays within `[0, 255]`.
pub proof fn lemma_rainbow_channel_in_range(theta: int, phase: int)
    ensures
        0 <= rainbow_channel_spec(theta, phase) <= 255,
{
    let t = clamp_theta_spec(theta + phase);
    vstd::arithmetic::div_mod::lemma_mod_bound(theta + phase, 6000);
    angle::lemma_sin_frac_bounds(t);
    let s = sin_frac_spec(t);
    vstd::arithmetic::div_mod::lemma_div_is_ordered(0, 1000 + s, 2);
    vstd::arithmetic::div_mod::lemma_div_is_ordered(1000 + s, 2000, 2);
    let v = (1000 + s) / 2;
    vstd::arithmetic::div_mod::lemma_div_is_ordered(0, v * 255 + 500, 1000);
    vstd::arithmetic::div_mod::lemma_div_is_ordered(v * 255 + 500, 255_500, 1000);
}

/// The rainbow color is periodic: angles a whole number of turns apart
/// get the same color.
pub proof fn lemma_rainbow_color_periodic(theta: int, k: int)
    ensures
        rainbow_color_spec(theta + k * 6000) == rainbow_color_spec(theta),
{
    angle::lemma_clamp_theta_periodic(theta + 0, k);
    angle::lemma_clamp_theta_periodic(theta + 2000, k);
    angle::lemma_clamp_theta_periodic(theta + 4000, k);
}

/// One channel of the rainbow at the already-normalized angle `t0`.
fn rainbow_channel(t0: u32, phase: u32) -> (r: u32)
    requires
        t0 < FULL_TURN,
        phase == 0 || phase == 2000 || phase == 4000,
    ensures
        r == rainbow_channel_spec(t0 as int, phase as int),
        r <= 255,
{
    let tp: u32 = t0 + phase;
    let t: u32 = if tp >= FULL_TURN {
        tp - FULL_TURN
    } else {
        tp
    };
    proof {
        if tp >= FULL_TURN {
            vstd::arithmetic::div_mod::lemma_fundamental_div_mod_converse(
                tp as int, 6000, 1, tp - 6000);
        } else {
            vstd::arithmetic::div_mod::lemma_small_mod(tp as nat, 6000);
        }
    }
    let s: i32 = sin_frac(t);
    let v: u32 = ((1000 + s) as u32) / 2;
    proof {
        vstd::arithmetic::div_mod::lemma_div_is_ordered(0, v * 255 + 500, 1000);
        vstd::arithmetic::div_mod::lemma_div_is_ordered((v * 255 + 500) as int, 255_500, 1000);
    }
    (v * 255 + 500) / 1000
}

/// The continuous rainbow color at `theta`, any angle: normalization is
/// part of the computation.
pub fn get_color_rainbow(theta: i128) -> (c: ColorRGB)
    ensures
        c == rainbow_color_spec(theta as int),
{
    let t0: u32 = clamp_theta(theta);
    proof {
        vstd::arithmetic::div_mod::lemma_add_mod_noop_right(0, theta as int, 6000);
        vstd::arithmetic::div_mod::lemma_add_mod_noop_right(2000, theta as int, 6000);
        vstd::arithmetic::div_mod::lemma_add_mod_noop_right(4000, theta as int, 6000);
    }
    let red: u32 = rainbow_channel(t0, 0);
    let green: u32 = rainbow_channel(t0, 2000);
    let blue: u32 = rainbow_channel(t0, 4000);
    ColorRGB { red: red as u8, green: green as u8, blue: blue as u8 }
}

/// The discrete stripes of a flag: a cyclic list of packed `0xRRGGBB`
/// stripe colors and the positive sharpness factor used to ease the
/// blend between one stripe and the next.
#[derive(Clone, Debug)]
pub struct StripePattern {
    pub colors: Vec<u32>,
    pub factor: u32,
}

impl StripePattern {
    /// A stripe pattern is well formed when it has at least one stripe
    /// and a positive sharpness factor.
    pub open spec fn wf(&self) -> bool {
        &&& self.colors@.len() >= 1
        &&& self.factor >= 1
    }
}

/// The stripe that `theta` falls in, among `n` stripes of equal width.
pub open spec fn stripe_index_spec(n: int, theta: int) -> int {
    theta * n / 6000
}

/// How far `theta` still is from the end of its stripe, scaled by
/// `SCALE`: the whole fraction at the stripe's start, none at its end.
pub open spec fn stripe_balance_spec(n: int, theta: int) -> int {
    ((stripe_index_spec(n, theta) + 1) * 6000 - theta * n) / 6
}

/// The striped color at `theta`: its stripe's color blended toward the
/// cyclically next stripe's color as `theta` advances through the stripe.
pub open spec fn stripe_color_spec(colors: Seq<u32>, factor: nat, theta: int) -> ColorRGB {
    let t = clamp_theta_spec(theta);
    let n = colors.len() as int;
    let i = stripe_index_spec(n, t);
    let next = if i + 1 < n {
        i + 1
    } else {
        0
    };
    mix_colors_spec(colors[i] as int, colors[next] as int, stripe_balance_spec(n, t), factor)
}

/// The index of `theta`'s stripe lies in `[0, n)` and its balance in
/// `[0, SCALE]`, for any normalized `theta`.
proof fn lemma_stripe_pieces_in_range(n: int, theta: int)
    requires
        n >= 1,
        0 <= theta < 6000,
    ensures
        0 <= stripe_index_spec(n, theta) < n,
        0 <= stripe_balance_spec(n, theta) <= 1000,
{
    let tn = theta * n;
    vstd::arithmetic::mul::lemma_mul_nonnegative(theta, n);
    assert(tn <= 6000 * n - 1) by (nonlinear_arith)
        requires 0 <= theta < 6000 && n >= 1 && tn == theta * n;
    vstd::arithmetic::div_mod::lemma_div_is_ordered(0, tn, 6000);
    vstd::arithmetic::div_mod::lemma_div_is_ordered(tn, 6000 * n - 1, 6000);
    vstd::arithmetic::div_mod::lemma_fundamental_div_mod_converse(
        6000 * n - 1, 6000, n - 1, 5999);
    let i = stripe_index_spec(n, theta);
    vstd::arithmetic::div_mod::lemma_fundamental_div_mod(tn, 6000);
    vstd::arithmetic::div_mod::lemma_mod_bound(tn, 6000);
    vstd::arithmetic::div_mod::lemma_div_is_ordered(0, (i + 1) * 6000 - tn, 6);
    vstd::arithmetic::div_mod::lemma_div_is_ordered((i + 1) * 6000 - tn, 6000, 6);
}

/// The striped color at `theta`, any angle: normalization is part of
/// the computation.
pub fn get_color_stripes(pattern: &StripePattern, theta: i128) -> (c: ColorRGB)
    requires
        pattern.wf(),
    ensures
        c == stripe_color_spec(pattern.colors@, pattern.factor as nat, theta as int),
{
    let t: u32 = clamp_theta(theta);
    let n: usize = pattern.colors.len();
    proof {
        vstd::arithmetic::mul::lemma_mul_upper_bound(
            t as int, 5999, n as int, 18446744073709551615);
        lemma_stripe_pieces_in_range(n as int, t as int);
        vstd::arithmetic::div_mod::lemma_fundamental_div_mod(t as int * n as int, 6000);
        vstd::arithmetic::div_mod::lemma_mod_bound(t as int * n as int, 6000);
    }
    let tn: u128 = (t as u128) * (n as u128);
    let i: usize = (tn / 6000) as usize;
    let bal: u32 = (((tn / 6000 + 1) * 6000 - tn) / 6) as u32;
    let next: usize = if i + 1 < n {
        i + 1
    } else {
        0
    };
    mix_colors(pattern.colors[i], pattern.colors[next], bal, pattern.factor)
}

/// A color pattern: the continuous rainbow, or the discrete stripes of
/// a named flag.
#[derive(Clone, Debug)]
pub enum ColorPattern {
    Rainbow,
    Stripes(StripePattern),
}

/// The color a pattern gives to the angle `theta`.
pub open spec fn pattern_color_spec(pattern: ColorPattern, theta: int) -> ColorRGB {
    match pattern {
        ColorPattern::Rainbow => rainbow_color_spec(theta),
        ColorPattern::Stripes(p) => stripe_color_spec(p.colors@, p.factor as nat, theta),
    }
}

impl ColorPattern {
    /// A pattern is well formed when its stripes, if any, are.
    pub open spec fn wf(&self) -> bool {
        match self {
            ColorPattern::Rainbow => true,
            ColorPattern::Stripes(p) => p.wf(),
        }
    }

    /// The color this pattern gives to the angle `theta`.
    pub fn get_color(&self, theta: i128) -> (c: ColorRGB)
        requires
            self.wf(),
        ensures
            c == pattern_color_spec(*self, theta as int),
    {
        match self {
            ColorPattern::Rainbow => get_color_rainbow(theta),
            ColorPattern::Stripes(p) => get_color_stripes(p, theta),
        }
    }
}

/// At the exact start of stripe `i` — the angle `theta` with
/// `theta * n == i * 6000` — the striped color is exactly stripe `i`'s
/// own color, whatever the sharpness factor.
pub proof fn lemma_stripe_start(colors: Seq<u32>, factor: nat, theta: int, i: int)
    requires
        colors.len() >= 1,
        0 <= theta < 6000,
        0 <= i < colors.len(),
        theta * colors.len() == i * 6000,
    ensures
        stripe_color_spec(colors, factor, theta) == rgb_of_spec(colors[i] as int),
{
    let n = colors.len() as int;
    vstd::arithmetic::div_mod::lemma_small_mod(theta as nat, 6000);
    vstd::arithmetic::div_mod::lemma_fundamental_div_mod_converse(theta * n, 6000, i, 0);
    assert(stripe_balance_spec(n, theta) == 1000);
    lemma_pow_frac_one(factor);
    lemma_channels_in_range(colors[i] as int);
    lemma_whole_balance_keeps_channel(red_channel(colors[i] as int),
        red_channel(colors[if i + 1 < n { i + 1 } else { 0 }] as int));
    lemma_whole_balance_keeps_channel(green_channel(colors[i] as int),
        green_channel(colors[if i + 1 < n { i + 1 } else { 0 }] as int));
    lemma_whole_balance_keeps_channel(blue_channel(colors[i] as int),
        blue_channel(colors[if i + 1 < n { i + 1 } else { 0 }] as int));
}

/// Blending at the whole balance returns the first channel unchanged.
proof fn lemma_whole_balance_keeps_channel(c1: int, c2: int)
    requires
        0 <= c1 <= 255,
    ensures
        mix_channel_spec(c1, c2, 1000) == c1,
{
    assert(c1 * 1000 + c2 * (1000 - 1000) + 500 == c1 * 1000 + 500);
    vstd::arithmetic::div_mod::lemma_fundamental_div_mod_converse(
        c1 * 1000 + 500, 1000, c1, 500);
}

/// Blending at half balance gives the rounded mean of the channels.
proof fn lemma_half_balance_is_mean(c1: int, c2: int)
    requires
        0 <= c1 <= 255,
        0 <= c2 <= 255,
    ensures
        mix_channel_spec(c1, c2, 500) == (c1 + c2 + 1) / 2,
{
    let s = c1 + c2 + 1;
    vstd::arithmetic::div_mod::lemma_fundamental_div_mod(s, 2);
    vstd::arithmetic::div_mod::lemma_mod_bound(s, 2);
    let q = s / 2;
    let r = s % 2;
    vstd::arithmetic::div_mod::lemma_fundamental_div_mod_converse(
        500 * s, 1000, q, 500 * r);
    assert(c1 * 500 + c2 * (1000 - 500) + 500 == 500 * s);
}

/// At the exact midpoint of stripe `i` — the angle `theta` with
/// `2 * theta * n == (2 * i + 1) * 6000` — a pattern with factor 1
/// blends evenly: each channel is the rounded arithmetic mean of the
/// two stripe endpoint channels.
pub proof fn lemma_stripe_midpoint_mean(colors: Seq<u32>, theta: int, i: int)
    requires
        colors.len() >= 1,
        0 <= theta < 6000,
        0 <= i < colors.len(),
        2 * (theta * colors.len()) == (2 * i + 1) * 6000,
    ensures
        ({
            let n = colors.len() as int;
            let next = if i + 1 < n {
                i + 1
            } else {
                0
            };
            let c1 = colors[i] as int;
            let c2 = colors[next] as int;
            stripe_color_spec(colors, 1, theta) == (ColorRGB {
                red: ((red_channel(c1) + red_channel(c2) + 1) / 2) as u8,
                green: ((green_channel(c1) + green_channel(c2) + 1) / 2) as u8,
                blue: ((blue_channel(c1) + blue_channel(c2) + 1) / 2) as u8,
            })
        }),
{
    let n = colors.len() as int;
    let next = if i + 1 < n {
        i + 1
    } else {
        0
    };
    vstd::arithmetic::div_mod::lemma_small_mod(theta as nat, 6000);
    assert(theta * n == 6000 * i + 3000);
    vstd::arithmetic::div_mod::lemma_fundamental_div_mod_converse(theta * n, 6000, i, 3000);
    assert(stripe_balance_spec(n, theta) == 500);
    assert(pow_frac_spec(500, 0) == 1000);
    assert(pow_frac_spec(500, 1) == 500);
    lemma_channels_in_range(colors[i] as int);
    lemma_channels_in_range(colors[next] as int);
    lemma_half_balance_is_mean(red_channel(colors[i] as int), red_channel(colors[next] as int));
    lemma_half_balance_is_mean(green_channel(colors[i] as int), green_channel(colors[next] as int));
    lemma_half_balance_is_mean(blue_channel(colors[i] as int), blue_channel(colors[next] as int));
}

} // verus!
