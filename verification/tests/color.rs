use queercat::angle::clamp_theta;
use queercat::color::{ColorPattern, ColorRGB, StripePattern, get_color_rainbow, get_color_stripes, mix_colors};

fn rgb(red: u8, green: u8, blue: u8) -> ColorRGB {
    ColorRGB { red, green, blue }
}

#[test]
fn clamp_theta_wraps_whole_turns() {
    assert_eq!(clamp_theta(0), 0);
    assert_eq!(clamp_theta(5999), 5999);
    assert_eq!(clamp_theta(6000), 0);
    assert_eq!(clamp_theta(6001), 1);
    assert_eq!(clamp_theta(-1), 5999);
    assert_eq!(clamp_theta(-6000), 0);
    assert_eq!(clamp_theta(-6001), 5999);
    assert_eq!(clamp_theta(123_456_789), 123_456_789 % 6000);
}

#[test]
fn clamp_theta_is_idempotent_on_samples() {
    for x in [-987_654_321i128, -6000, -1, 0, 1, 2999, 3000, 5999, 6000, 987_654_321] {
        let once = clamp_theta(x);
        assert_eq!(clamp_theta(once as i128), once);
    }
}

#[test]
fn rainbow_at_zero() {
    assert_eq!(get_color_rainbow(0), rgb(128, 238, 17));
}

#[test]
fn rainbow_at_quarter_turn_peaks_red() {
    assert_eq!(get_color_rainbow(1500), rgb(255, 64, 64));
}

#[test]
fn rainbow_is_periodic_on_samples() {
    for theta in [0i128, 1, 1500, 2999, 4500, 5999] {
        let base = get_color_rainbow(theta);
        assert_eq!(get_color_rainbow(theta + 6000), base);
        assert_eq!(get_color_rainbow(theta - 2 * 6000), base);
    }
}

#[test]
fn rainbow_channels_are_bytes_on_samples() {
    // Channels are u8 by type; spot-check they also span the range.
    let low = get_color_rainbow(4500);
    assert_eq!(low.red, 0);
    let high = get_color_rainbow(1500);
    assert_eq!(high.red, 255);
}

#[test]
fn mix_colors_at_whole_balance_keeps_first() {
    assert_eq!(mix_colors(0x55cdfc, 0xf7a8b8, 1000, 4), rgb(0x55, 0xcd, 0xfc));
}

#[test]
fn mix_colors_at_zero_balance_gives_second() {
    assert_eq!(mix_colors(0x55cdfc, 0xf7a8b8, 0, 1), rgb(0xf7, 0xa8, 0xb8));
}

#[test]
fn mix_colors_halfway_linear_is_rounded_mean() {
    assert_eq!(mix_colors(0xffffff, 0x000000, 500, 1), rgb(128, 128, 128));
}

#[test]
fn stripe_boundary_is_the_stripe_color() {
    let trans = StripePattern {
        colors: vec![0x55cdfc, 0xf7a8b8, 0xffffff, 0xf7a8b8, 0x55cdfc],
        factor: 4,
    };
    // Left boundary of stripe 0.
    assert_eq!(get_color_stripes(&trans, 0), rgb(0x55, 0xcd, 0xfc));
    // Left boundary of stripe 1: 1 * 6000 / 5 = 1200 angle units.
    assert_eq!(get_color_stripes(&trans, 1200), rgb(0xf7, 0xa8, 0xb8));
    // Left boundary of stripe 4 wraps back to the first color.
    assert_eq!(get_color_stripes(&trans, 4800), rgb(0x55, 0xcd, 0xfc));
}

#[test]
fn stripe_midpoint_with_factor_one_is_the_mean() {
    let aromantic = StripePattern {
        colors: vec![0x3da542, 0xa8d379, 0xffffff, 0xa9a9a9, 0x000000],
        factor: 1,
    };
    // Midpoint of stripe 0: 6000 / (2 * 5) = 600 angle units.
    // Mean of 0x3da542 and 0xa8d379, rounded half up per channel.
    assert_eq!(get_color_stripes(&aromantic, 600), rgb(115, 188, 94));
}

#[test]
fn stripe_sharpness_holds_the_start_color_longer() {
    let trans = StripePattern {
        colors: vec![0x55cdfc, 0xf7a8b8, 0xffffff, 0xf7a8b8, 0x55cdfc],
        factor: 4,
    };
    // Halfway through stripe 0 the eased balance is (1/2)^4 = 1/16, so
    // the color is already much closer to the next stripe's.
    assert_eq!(get_color_stripes(&trans, 600), rgb(237, 170, 188));
}

#[test]
fn pattern_dispatch_matches_components() {
    let rainbow = ColorPattern::Rainbow;
    assert_eq!(rainbow.get_color(1500), rgb(255, 64, 64));
    let stripes = StripePattern {
        colors: vec![0x55cdfc, 0xf7a8b8, 0xffffff, 0xf7a8b8, 0x55cdfc],
        factor: 4,
    };
    let expect = get_color_stripes(&stripes, 1200);
    let pattern = ColorPattern::Stripes(stripes);
    assert_eq!(pattern.get_color(1200), expect);
}
