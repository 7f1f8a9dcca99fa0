use queercat::colorize::{OutputColorType, Settings, colorize, get_fake_random, print_color};
use queercat::palette::flags;

fn chars(s: &str) -> Vec<char> {
    s.chars().collect()
}

fn string(v: Vec<char>) -> String {
    v.into_iter().collect()
}

#[test]
fn default_settings_are_the_documented_ones() {
    let s = Settings::default();
    assert_eq!(s.flag.name, "rainbow");
    assert_eq!(s.horiz_freq_milli, 230);
    assert_eq!(s.vert_freq_milli, 100);
    assert_eq!(s.horiz_offset_milli, 0);
    assert!(s.enable_color);
    assert_eq!(s.color_type, OutputColorType::AnsiCode);
    assert!(!s.enable_rand_offset);
}

#[test]
fn ansi_mode_end_to_end_on_hi() {
    // Rainbow palette, ANSI mode, horizontal frequency 0.23, vertical
    // 0.1, no offsets: every position of "hi\n" floors to code index 0,
    // which is code 39 of the rainbow list.
    let s = Settings::default();
    let out = string(colorize(&s, &chars("hi\n"), 0));
    assert_eq!(
        out,
        "\u{1b}[38;5;39mh\u{1b}[38;5;39mi\u{1b}[38;5;39m\n\u{1b}[0m",
    );
}

#[test]
fn ansi_mode_advances_codes_with_the_column() {
    // At 0.23 per column, the code index steps from 0 to 1 at column 5.
    let s = Settings::default();
    let out = string(colorize(&s, &chars("abcdef"), 0));
    assert_eq!(
        out,
        "\u{1b}[38;5;39ma\u{1b}[38;5;39mb\u{1b}[38;5;39mc\u{1b}[38;5;39md\u{1b}[38;5;39me\u{1b}[38;5;38mf\u{1b}[0m",
    );
}

#[test]
fn newline_resets_the_column_and_advances_the_line() {
    let mut s = Settings::default();
    s.vert_freq_milli = 1000;
    let out = string(colorize(&s, &chars("a\nb"), 0));
    // "a" and the newline sit on line 0 (code 39); "b" restarts at
    // column 0 on line 1, whose vertical term floors to index 1 (code 38).
    assert_eq!(
        out,
        "\u{1b}[38;5;39ma\u{1b}[38;5;39m\n\u{1b}[38;5;38mb\u{1b}[0m",
    );
}

#[test]
fn random_offset_rotates_the_code_list() {
    let s = Settings::default();
    let out = string(colorize(&s, &chars("a"), 3));
    assert_eq!(out, "\u{1b}[38;5;43ma\u{1b}[0m");
}

#[test]
fn disabled_color_copies_the_input_verbatim() {
    let mut s = Settings::default();
    s.enable_color = false;
    let out = string(colorize(&s, &chars("abc"), 0));
    assert_eq!(out, "abc");
    let with_escape = "one\u{1b}[31mtwo\n";
    assert_eq!(string(colorize(&s, &chars(with_escape), 7)), with_escape);
}

#[test]
fn input_escape_sequences_pass_through_uncolored() {
    let s = Settings::default();
    let out = string(colorize(&s, &chars("\u{1b}[31mx"), 0));
    // The five characters of the input sequence are emitted untouched;
    // a fresh color follows its final letter (column 4, still index 0),
    // and "x" at column 5 gets the next code before it.
    assert_eq!(
        out,
        "\u{1b}[31m\u{1b}[38;5;39m\u{1b}[38;5;38mx\u{1b}[0m",
    );
}

#[test]
fn true_color_mode_emits_rgb_escapes() {
    let mut s = Settings::default();
    s.color_type = OutputColorType::TrueColor;
    let out = string(colorize(&s, &chars("h"), 0));
    // Column 0, line 0, no offset: theta 0, whose rainbow color is
    // (128, 238, 17).
    assert_eq!(out, "\u{1b}[38;2;128;238;17mh\u{1b}[0m");
}

#[test]
fn true_color_mode_follows_the_stripes() {
    let f = flags();
    let mut s = Settings::default();
    s.flag = f[1].clone();
    s.color_type = OutputColorType::TrueColor;
    // Column 0 of line 0 sits at theta 0: the first transgender stripe.
    let out = string(colorize(&s, &chars("x"), 0));
    assert_eq!(out, "\u{1b}[38;2;85;205;252mx\u{1b}[0m");
}

#[test]
fn print_color_emits_one_ansi_escape() {
    let s = Settings::default();
    let mut out: Vec<char> = Vec::new();
    print_color(&mut out, &s, 0, 0, 0);
    assert_eq!(string(out), "\u{1b}[38;5;39m");
}

#[test]
fn print_color_rounds_the_offset_into_the_code_list() {
    let mut s = Settings::default();
    s.horiz_offset_milli = 500;
    let mut out: Vec<char> = Vec::new();
    print_color(&mut out, &s, 0, 0, 0);
    // round(0.5 * 30) = 15: code 208 of the rainbow list.
    assert_eq!(string(out), "\u{1b}[38;5;208m");
}

#[test]
fn print_color_wraps_a_negative_offset() {
    let mut s = Settings::default();
    s.horiz_offset_milli = -100;
    let mut out: Vec<char> = Vec::new();
    print_color(&mut out, &s, 0, 0, 0);
    // round(-0.1 * 30) = -3, which wraps to index 27: code 63.
    assert_eq!(string(out), "\u{1b}[38;5;63m");
}

#[test]
fn empty_input_still_resets() {
    let s = Settings::default();
    let out = string(colorize(&s, &chars(""), 0));
    assert_eq!(out, "\u{1b}[0m");
}

#[test]
fn fake_random_is_below_a_thousand() {
    for _ in 0..32 {
        assert!(get_fake_random() < 1000);
    }
}
