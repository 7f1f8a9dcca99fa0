//! The escape-sequence scanner: a three-state machine that classifies each
//! incoming character as outside any escape sequence, inside one, or the
//! last character of one. The colorizer uses it so that characters which
//! belong to an escape sequence already present in the input are never
//! recolored.

use vstd::prelude::*;

verus! {

/// The ESC control character (0x1b) that opens a terminal escape sequence.
pub const ESCAPE_CHAR: char = '\x1b';

/// Where the scanner stands relative to an escape sequence in the input.
#[derive(Clone, Copy, Debug, PartialEq, Eq, Structural)]
pub enum ScanState {
    /// The current character is not part of any escape sequence.
    Outside,
    /// The current character is part of an escape sequence (ESC itself or a
    /// parameter byte).
    InsideEscape,
    /// The current character is the terminating letter of an escape
    /// sequence; the caller should re-emit a color right after it.
    EscapeJustEnded,
}

/// Whether `c` is an ASCII letter; a letter terminates an escape sequence.
pub open spec fn is_ascii_letter(c: char) -> bool {
    ('a' as u32 <= c as u32 && c as u32 <= 'z' as u32)
        || ('A' as u32 <= c as u32 && c as u32 <= 'Z' as u32)
}

/// The scanner's transition function: the state after reading `c` in
/// state `state`. ESC always enters an escape sequence; inside one, an
/// ASCII letter is the final byte; any other character outside an escape
/// sequence leaves the scanner outside.
pub open spec fn scan_next(state: ScanState, c: char) -> ScanState {
    if c == ESCAPE_CHAR {
        ScanState::InsideEscape
    } else if state is InsideEscape {
        if is_ascii_letter(c) {
            ScanState::EscapeJustEnded
        } else {
            ScanState::InsideEscape
        }
    } else {
        ScanState::Outside
    }
}

/// Advance the scanner over one character of input.
pub fn find_escape_sequences(current_char: char, state: &mut ScanState)
    ensures
        *final(state) == scan_next(*old(state), current_char),
{
    if current_char == ESCAPE_CHAR {
        *state = ScanState::InsideEscape;
    } else if *state == ScanState::InsideEscape {
        let u: u32 = current_char as u32;
        *state = if ('a' as u32 <= u && u <= 'z' as u32) || ('A' as u32 <= u && u <= 'Z' as u32) {
            ScanState::EscapeJustEnded
        } else {
            ScanState::InsideEscape
        };
    } else {
        *state = ScanState::Outside;
    }
}

/// A character that is not ESC never moves the scanner from `Outside`:
/// plain text is scanned without ever entering an escape sequence.
pub proof fn lemma_plain_char_stays_outside(c: char)
    requires
        c != ESCAPE_CHAR,
    ensures
        scan_next(ScanState::Outside, c) == ScanState::Outside,
{
}

} // verus!
