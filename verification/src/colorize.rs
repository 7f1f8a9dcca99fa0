//! The stream colorizer: drives the escape-sequence scanner and the
//! color model over the text of one input source, tracking the character
//! and line position of every character, emitting a color escape before
//! each colorable character and after each escape sequence found in the
//! input, and a reset escape at the end of the source.

use vstd::prelude::*;
use crate::color::{ColorRGB, pattern_color_spec};
use crate::palette::{PaletteEntry, dec_chars_spec, digit_char_spec, is_rainbow_entry, rainbow_entry};
use crate::scanner::{ESCAPE_CHAR, ScanState, find_escape_sequences, scan_next};

verus! {

/// How colors are addressed on the terminal: by an index into the fixed
/// 256-color palette, or by an explicit 24-bit red-green-blue triple.
#[derive(Clone, Copy, Debug, PartialEq, Eq, Structural)]
pub enum OutputColorType {
    AnsiCode,
    TrueColor,
}

/// The read-only settings the colorizer works under. Frequencies and
/// the offset are fixed-point: a stored value of 1000 stands for 1.0.
#[derive(Clone, Debug)]
pub struct Settings {
    /// The selected palette entry.
    pub flag: PaletteEntry,
    /// Horizontal frequency, in thousandths (default 230, for 0.23).
    pub horiz_freq_milli: u32,
    /// Vertical frequency, in thousandths (default 100, for 0.1).
    pub vert_freq_milli: u32,
    /// Phase offset of the start of the flag, in thousandths of half a
    /// turn.
    pub horiz_offset_milli: i32,
    /// Whether to color at all; when off, text passes through verbatim.
    pub enable_color: bool,
    /// How colors are addressed on the terminal.
    pub color_type: OutputColorType,
    /// Whether a random phase offset is mixed into the colors.
    pub enable_rand_offset: bool,
}

impl Settings {
    /// Settings are well formed when the selected entry is.
    pub open spec fn wf(&self) -> bool {
        self.flag.wf()
    }
}

impl Default for Settings {
    /// The default settings: the rainbow, at the default frequencies,
    /// with no offset, coloring in ANSI 256-color mode.
    fn default() -> (d: Self)
        ensures
            d.wf(),
            is_rainbow_entry(d.flag),
            d.horiz_freq_milli == 230,
            d.vert_freq_milli == 100,
            d.horiz_offset_milli == 0,
            d.enable_color,
            d.color_type is AnsiCode,
            !d.enable_rand_offset,
    {
        Settings {
            flag: rainbow_entry(),
            horiz_freq_milli: 230,
            vert_freq_milli: 100,
            horiz_offset_milli: 0,
            enable_color: true,
            color_type: OutputColorType::AnsiCode,
            enable_rand_offset: false,
        }
    }
}

/// The angle driving the 24-bit color of the character at `(ci, li)`:
/// the horizontal frequency slowed five-fold per character, the vertical
/// frequency per line, and the offset as a fraction of half a turn
/// (1000 thousandths span the half turn of 3000 angle units). The
/// random offset rotates only the 256-color code list: folded into this
/// phase as a fraction of the float maximum it would vanish at any
/// usable precision.
pub open spec fn theta_of_spec(s: Settings, ci: int, li: int) -> int {
    ci * s.horiz_freq_milli / 5 + li * s.vert_freq_milli + s.horiz_offset_milli * 3
}

/// A fixed-point product rounded to the nearest whole, halves away from
/// zero.
pub open spec fn round_milli_spec(x: int) -> int {
    if x >= 0 {
        (x + 500) / 1000
    } else {
        -((-x + 500) / 1000)
    }
}

/// The index into the entry's ANSI code list for the character at
/// `(ci, li)`: the rounded offset plus the whole part of the frequency
/// sum, shifted by the random offset, wrapped around the code count.
pub open spec fn ansi_code_index_spec(s: Settings, ci: int, li: int, rand: int) -> int {
    let count = s.flag.ansii_codes@.len() as int;
    let ncc = round_milli_spec(s.horiz_offset_milli * count) + (ci * s.horiz_freq_milli + li
        * s.vert_freq_milli) / 1000;
    (rand + ncc) % count
}

/// The escape sequence selecting ANSI 256-color code `code`.
pub open spec fn ansi_escape_spec(code: int) -> Seq<char> {
    seq![ESCAPE_CHAR, '[', '3', '8', ';', '5', ';'] + dec_chars_spec(code) + seq!['m']
}

/// The escape sequence selecting the 24-bit color `c`.
pub open spec fn truecolor_escape_spec(c: ColorRGB) -> Seq<char> {
    seq![ESCAPE_CHAR, '[', '3', '8', ';', '2', ';'] + dec_chars_spec(c.red as int) + seq![';']
        + dec_chars_spec(c.green as int) + seq![';'] + dec_chars_spec(c.blue as int) + seq!['m']
}

/// The escape sequence resetting all terminal attributes.
pub open spec fn reset_escape_spec() -> Seq<char> {
    seq![ESCAPE_CHAR, '[', '0', 'm']
}

/// The color escape emitted for the character at `(ci, li)`: the
/// pattern color of the position's angle in 24-bit mode, or the
/// position's entry from the ANSI code list in 256-color mode.
pub open spec fn color_escape_spec(s: Settings, ci: int, li: int, rand: int) -> Seq<char> {
    match s.color_type {
        OutputColorType::TrueColor => truecolor_escape_spec(
            pattern_color_spec(s.flag.pattern, theta_of_spec(s, ci, li)),
        ),
        OutputColorType::AnsiCode => ansi_escape_spec(
            s.flag.ansii_codes@[ansi_code_index_spec(s, ci, li, rand)] as int,
        ),
    }
}

/// The character for the decimal digit `d`.
fn digit_char(d: u32) -> (c: char)
    requires
        d <= 9,
    ensures
        c == digit_char_spec(d as int),
{
    if d == 0 { '0' }
    else if d == 1 { '1' }
    else if d == 2 { '2' }
    else if d == 3 { '3' }
    else if d == 4 { '4' }
    else if d == 5 { '5' }
    else if d == 6 { '6' }
    else if d == 7 { '7' }
    else if d == 8 { '8' }
    else { '9' }
}

/// Append the decimal rendering of `n` to `out`.
fn push_dec_chars(out: &mut Vec<char>, n: u32)
    ensures
        final(out)@ == old(out)@ + dec_chars_spec(n as int),
    decreases n,
{
    if n < 10 {
        out.push(digit_char(n));
        proof {
            assert(out@ =~= old(out)@ + dec_chars_spec(n as int));
        }
    } else {
        proof {
            vstd::arithmetic::div_mod::lemma_fundamental_div_mod(n as int, 10);
            vstd::arithmetic::div_mod::lemma_mod_bound(n as int, 10);
        }
        push_dec_chars(out, n / 10);
        out.push(digit_char(n % 10));
        proof {
            assert(out@ =~= old(out)@ + dec_chars_spec(n as int));
        }
    }
}

/// The representative of `a` modulo `m` in `[0, m)`.
fn index_mod(a: i128, m: usize) -> (r: usize)
    requires
        m >= 1,
    ensures
        r == (a as int) % (m as int),
        r < m,
{
    if a >= 0 {
        (a as u128 % m as u128) as usize
    } else {
        let b: u128 = (-(a + 1)) as u128;
        let mm: u128 = m as u128;
        let r: usize = (mm - 1 - b % mm) as usize;
        proof {
            let n = m as int;
            let q = b as int / n;
            vstd::arithmetic::div_mod::lemma_fundamental_div_mod(b as int, n);
            vstd::arithmetic::div_mod::lemma_mod_bound(b as int, n);
            assert(n * (-q - 1) == -(n * q) - n) by (nonlinear_arith);
            assert(a as int == n * (-q - 1) + (n - 1 - b as int % n));
            vstd::arithmetic::div_mod::lemma_fundamental_div_mod_converse(
                a as int, n, -q - 1, n - 1 - b as int % n);
        }
        r
    }
}

/// The fixed-point product `x` rounded to the nearest whole, halves
/// away from zero.
fn round_milli(x: i128) -> (r: i128)
    requires
        -1000000000000000000000000000000 <= x <= 1000000000000000000000000000000,
    ensures
        r == round_milli_spec(x as int),
        -1000000000000000000000000000 <= r <= 1000000000000000000000000000,
{
    if x >= 0 {
        let q: u128 = (x as u128 + 500) / 1000;
        proof {
            vstd::arithmetic::div_mod::lemma_div_is_ordered(0, x as int + 500, 1000);
            vstd::arithmetic::div_mod::lemma_div_is_ordered(
                x as int + 500, 1000000000000000000000000000000int + 500, 1000);
        }
        q as i128
    } else {
        let q: u128 = ((-x) as u128 + 500) / 1000;
        proof {
            vstd::arithmetic::div_mod::lemma_div_is_ordered(0, (-x) as int + 500, 1000);
            vstd::arithmetic::div_mod::lemma_div_is_ordered(
                (-x) as int + 500, 1000000000000000000000000000000int + 500, 1000);
        }
        -(q as i128)
    }
}

/// Append to `out` the color escape for the character at position
/// `(char_index, line_index)` under `settings`, shifted by the random
/// offset.
pub fn print_color(
    out: &mut Vec<char>,
    settings: &Settings,
    char_index: u32,
    line_index: u32,
    rand_offset: u32,
)
    requires
        settings.wf(),
    ensures
        final(out)@ == old(out)@ + color_escape_spec(
            *settings, char_index as int, line_index as int, rand_offset as int),
{
    match settings.color_type {
        OutputColorType::TrueColor => {
            proof {
                vstd::arithmetic::mul::lemma_mul_upper_bound(
                    char_index as int, 4294967295, settings.horiz_freq_milli as int, 4294967295);
                vstd::arithmetic::mul::lemma_mul_upper_bound(
                    line_index as int, 4294967295, settings.vert_freq_milli as int, 4294967295);
                vstd::arithmetic::div_mod::lemma_div_is_ordered(
                    0, char_index as int * settings.horiz_freq_milli as int, 5);
                vstd::arithmetic::div_mod::lemma_div_is_ordered(
                    char_index as int * settings.horiz_freq_milli as int,
                    4294967295int * 4294967295, 5);
            }
            let base: u128 = (char_index as u128) * (settings.horiz_freq_milli as u128) / 5 + (
            line_index as u128) * (settings.vert_freq_milli as u128);
            let theta: i128 = base as i128 + (settings.horiz_offset_milli as i128) * 3;
            let color: ColorRGB = settings.flag.pattern.get_color(theta);
            out.push(ESCAPE_CHAR);
            out.push('[');
            out.push('3');
            out.push('8');
            out.push(';');
            out.push('2');
            out.push(';');
            push_dec_chars(out, color.red as u32);
            out.push(';');
            push_dec_chars(out, color.green as u32);
            out.push(';');
            push_dec_chars(out, color.blue as u32);
            out.push('m');
            proof {
                assert(out@ =~= old(out)@ + color_escape_spec(
                    *settings, char_index as int, line_index as int, rand_offset as int));
            }
        },
        OutputColorType::AnsiCode => {
            let count: usize = settings.flag.ansii_codes.len();
            proof {
                assert(settings.horiz_offset_milli as int * count as int
                    <= 1000000000000000000000000000000
                    && settings.horiz_offset_milli as int * count as int
                    >= -1000000000000000000000000000000) by (nonlinear_arith)
                    requires
                        -2147483648 <= settings.horiz_offset_milli as int <= 2147483647,
                        0 <= count as int <= 18446744073709551615;
                vstd::arithmetic::mul::lemma_mul_upper_bound(
                    char_index as int, 4294967295, settings.horiz_freq_milli as int, 4294967295);
                vstd::arithmetic::mul::lemma_mul_upper_bound(
                    line_index as int, 4294967295, settings.vert_freq_milli as int, 4294967295);
            }
            let hoc: i128 = (settings.horiz_offset_milli as i128) * (count as i128);
            let rounded: i128 = round_milli(hoc);
            let linsum: u128 = (char_index as u128) * (settings.horiz_freq_milli as u128) + (
            line_index as u128) * (settings.vert_freq_milli as u128);
            proof {
                vstd::arithmetic::div_mod::lemma_div_is_ordered(0, linsum as int, 1000);
                vstd::arithmetic::div_mod::lemma_div_is_ordered(
                    linsum as int, 4294967295int * 4294967295 * 2, 1000);
            }
            let lin: u128 = linsum / 1000;
            let ncc: i128 = rounded + lin as i128;
            let idx: usize = index_mod(rand_offset as i128 + ncc, count);
            let code: u8 = settings.flag.ansii_codes[idx];
            out.push(ESCAPE_CHAR);
            out.push('[');
            out.push('3');
            out.push('8');
            out.push(';');
            out.push('5');
            out.push(';');
            push_dec_chars(out, code as u32);
            out.push('m');
            proof {
                assert(out@ =~= old(out)@ + color_escape_spec(
                    *settings, char_index as int, line_index as int, rand_offset as int));
            }
        },
    }
}

/// The character index (column) of the character at `pos` of `text`:
/// zero-based, reset after every newline (a newline itself still counts
/// at the index it sits at).
pub open spec fn char_index_at(text: Seq<char>, pos: int) -> int
    decreases pos,
{
    if pos <= 0 {
        0
    } else if text[pos - 1] == '\n' {
        0
    } else {
        char_index_at(text, pos - 1) + 1
    }
}

/// The line index of the character at `pos` of `text`: the number of
/// newlines strictly before it.
pub open spec fn line_index_at(text: Seq<char>, pos: int) -> int
    decreases pos,
{
    if pos <= 0 {
        0
    } else if text[pos - 1] == '\n' {
        line_index_at(text, pos - 1) + 1
    } else {
        line_index_at(text, pos - 1)
    }
}

/// The scanner's state before the character at `pos` of `text`:
/// `Outside` at the start of the source, then advanced over every
/// earlier character.
pub open spec fn scan_state_at(text: Seq<char>, pos: int) -> ScanState
    decreases pos,
{
    if pos <= 0 {
        ScanState::Outside
    } else {
        scan_next(scan_state_at(text, pos - 1), text[pos - 1])
    }
}

/// Positions never outrun the prefix that produced them.
proof fn lemma_positions_bounded(text: Seq<char>, pos: int)
    requires
        0 <= pos,
    ensures
        0 <= char_index_at(text, pos) <= pos,
        0 <= line_index_at(text, pos) <= pos,
    decreases pos,
{
    if pos > 0 {
        lemma_positions_bounded(text, pos - 1);
    }
}

/// What the colorizer emits for the character at `pos` of `text`: a
/// color escape before it when it stands outside any escape sequence,
/// the character itself, and a fresh color escape after it when it just
/// ended an escape sequence of the input.
pub open spec fn char_output_spec(s: Settings, text: Seq<char>, rand: int, pos: int) -> Seq<char> {
    let st = scan_state_at(text, pos + 1);
    let ci = char_index_at(text, pos);
    let li = line_index_at(text, pos);
    let pre = if st is Outside {
        color_escape_spec(s, ci, li, rand)
    } else {
        Seq::empty()
    };
    let post = if st is EscapeJustEnded {
        color_escape_spec(s, ci, li, rand)
    } else {
        Seq::empty()
    };
    pre + seq![text[pos]] + post
}

/// Everything the colorizer emits for the first `pos` characters of
/// `text`, in order.
pub open spec fn colorize_prefix_spec(s: Settings, text: Seq<char>, rand: int, pos: int) -> Seq<
    char,
>
    decreases pos,
{
    if pos <= 0 {
        Seq::empty()
    } else {
        colorize_prefix_spec(s, text, rand, pos - 1) + char_output_spec(s, text, rand, pos - 1)
    }
}

/// What colorizing one source emits: with color enabled, the per-
/// character output for the whole text followed by a reset escape; with
/// color disabled, the text verbatim.
pub open spec fn colorize_spec(s: Settings, text: Seq<char>, rand: int) -> Seq<char> {
    if s.enable_color {
        colorize_prefix_spec(s, text, rand, text.len() as int) + reset_escape_spec()
    } else {
        text
    }
}

/// Colorize the text of one input source under `settings`: emit a color
/// escape before every character that stands outside an escape sequence
/// of the input, re-emit one after every escape sequence of the input,
/// finish with a reset escape — or pass the text through untouched when
/// color is disabled. Characters are positioned with 32-bit indices, so
/// one source holds at most `u32::MAX` characters.
pub fn colorize(settings: &Settings, text: &Vec<char>, rand_offset: u32) -> (out: Vec<char>)
    requires
        settings.wf(),
        text@.len() <= u32::MAX,
    ensures
        out@ == colorize_spec(*settings, text@, rand_offset as int),
{
    if !settings.enable_color {
        let mut out: Vec<char> = Vec::new();
        let mut pos: usize = 0;
        while pos < text.len()
            invariant
                pos <= text@.len(),
                out@ == text@.take(pos as int),
            decreases text@.len() - pos,
        {
            out.push(text[pos]);
            pos = pos + 1;
        }
        proof {
            assert(text@.take(text@.len() as int) =~= text@);
        }
        return out;
    }
    let mut out: Vec<char> = Vec::new();
    let mut state: ScanState = ScanState::Outside;
    let mut char_index: u32 = 0;
    let mut line_index: u32 = 0;
    let mut pos: usize = 0;
    while pos < text.len()
        invariant
            settings.wf(),
            text@.len() <= u32::MAX,
            pos <= text@.len(),
            state == scan_state_at(text@, pos as int),
            char_index as int == char_index_at(text@, pos as int),
            line_index as int == line_index_at(text@, pos as int),
            out@ == colorize_prefix_spec(*settings, text@, rand_offset as int, pos as int),
        decreases text@.len() - pos,
    {
        let c: char = text[pos];
        find_escape_sequences(c, &mut state);
        if state == ScanState::Outside {
            print_color(&mut out, settings, char_index, line_index, rand_offset);
        }
        out.push(c);
        if state == ScanState::EscapeJustEnded {
            print_color(&mut out, settings, char_index, line_index, rand_offset);
        }
        proof {
            assert(out@ =~= colorize_prefix_spec(
                *settings, text@, rand_offset as int, pos as int + 1));
            lemma_positions_bounded(text@, pos as int + 1);
        }
        if c == '\n' {
            line_index = line_index + 1;
            char_index = 0;
        } else {
            char_index = char_index + 1;
        }
        pos = pos + 1;
    }
    out.push(ESCAPE_CHAR);
    out.push('[');
    out.push('0');
    out.push('m');
    proof {
        assert(out@ =~= colorize_spec(*settings, text@, rand_offset as int));
    }
    out
}

/// A small time-derived number for seeding the random phase offset.
///
/// Relies on `std::time::SystemTime::now`, `SystemTime::duration_since`
/// and `Duration::subsec_millis`: the milliseconds within the current
/// second, which `subsec_millis` documents to be below 1000 (and on a
/// clock error the default zero duration is used).
#[verifier::external_body]
pub fn get_fake_random() -> (r: u32)
    ensures
        r < 1000,
{
    std::time::SystemTime::now().duration_since(std::time::UNIX_EPOCH).unwrap_or_default()
        .subsec_millis()
}

} // verus!
