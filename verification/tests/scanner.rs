use queercat::scanner::{ScanState, find_escape_sequences};

#[test]
fn csi_sequence_runs_through_the_states() {
    let mut st = ScanState::Outside;
    let mut seen = Vec::new();
    for c in ['\u{1b}', '[', '3', '1', 'm'] {
        find_escape_sequences(c, &mut st);
        seen.push(st);
    }
    assert_eq!(
        seen,
        vec![
            ScanState::InsideEscape,
            ScanState::InsideEscape,
            ScanState::InsideEscape,
            ScanState::InsideEscape,
            ScanState::EscapeJustEnded,
        ],
    );
}

#[test]
fn plain_characters_stay_outside() {
    let mut st = ScanState::Outside;
    for c in ['h', 'i', ' ', '7', '\n', '!', '~'] {
        find_escape_sequences(c, &mut st);
        assert_eq!(st, ScanState::Outside);
    }
}

#[test]
fn escape_char_enters_from_any_state() {
    let mut st = ScanState::Outside;
    find_escape_sequences('\u{1b}', &mut st);
    assert_eq!(st, ScanState::InsideEscape);
    find_escape_sequences('\u{1b}', &mut st);
    assert_eq!(st, ScanState::InsideEscape);
    find_escape_sequences('m', &mut st);
    assert_eq!(st, ScanState::EscapeJustEnded);
    find_escape_sequences('\u{1b}', &mut st);
    assert_eq!(st, ScanState::InsideEscape);
}

#[test]
fn character_after_sequence_end_is_outside() {
    let mut st = ScanState::Outside;
    for c in ['\u{1b}', '[', '0', 'm', 'x'] {
        find_escape_sequences(c, &mut st);
    }
    assert_eq!(st, ScanState::Outside);
}

#[test]
fn digits_and_semicolons_stay_inside() {
    let mut st = ScanState::Outside;
    for c in ['\u{1b}', '[', '3', '8', ';', '5', ';', '2', '3'] {
        find_escape_sequences(c, &mut st);
        assert_eq!(st, ScanState::InsideEscape);
    }
}
