use maestro::keyboard::{render_keyboard, status_line};

const SILENT_WHITE: &str = "□   □   □ □   □   □   □ □   □   □ □   □   □   □ □ ";
const SILENT_BLACK: &str = "  ▪   ▪     ▪   ▪   ▪     ▪   ▪     ▪   ▪   ▪     ";
const NAMES: &str = "C   D   E F   G   A   B C   D   E F   G   A   B C ";

#[test]
fn silent_keyboard() {
    let f = render_keyboard(&[]);
    assert_eq!(f.white_row, SILENT_WHITE);
    assert_eq!(f.black_row, SILENT_BLACK);
    assert_eq!(f.names_row, NAMES);
    assert!(!f.white_row.contains('■'));
    assert!(!f.black_row.contains('■'));
    assert_eq!(f.white_row.chars().count(), 50);
}

#[test]
fn one_white_key_sounding() {
    let f = render_keyboard(&[60]);
    assert_eq!(f.white_row, "□   □   □ □   □   □   □ ■   □   □ □   □   □   □ □ ");
    assert_eq!(f.black_row, SILENT_BLACK);
    assert_eq!(f.names_row, NAMES);
}

#[test]
fn one_black_key_sounding() {
    let f = render_keyboard(&[61]);
    assert_eq!(f.white_row, SILENT_WHITE);
    assert_eq!(f.black_row, "  ▪   ▪     ▪   ▪   ▪     ■   ▪     ▪   ▪   ▪     ");
}

#[test]
fn chord_sounding() {
    let f = render_keyboard(&[60, 64, 67]);
    assert_eq!(f.white_row, "□   □   □ □   □   □   □ ■   □   ■ □   ■   □   □ □ ");
    assert_eq!(f.black_row, SILENT_BLACK);
}

#[test]
fn render_is_deterministic_on_sets() {
    let a = render_keyboard(&[67, 60, 64]);
    let b = render_keyboard(&[60, 64, 67, 64]);
    assert_eq!(a.white_row, b.white_row);
    assert_eq!(a.black_row, b.black_row);
    assert_eq!(a.names_row, b.names_row);
    let c = render_keyboard(&[60, 64, 67]);
    let d = render_keyboard(&[60, 64, 67]);
    assert_eq!(c.white_row, d.white_row);
    assert_eq!(c.black_row, d.black_row);
}

#[test]
fn pitches_outside_the_drawn_range_are_left_out() {
    let f = render_keyboard(&[0, 47, 73, 127]);
    assert_eq!(f.white_row, SILENT_WHITE);
    assert_eq!(f.black_row, SILENT_BLACK);
    let g = render_keyboard(&[48, 72]);
    assert!(g.white_row.starts_with("■ "));
    assert!(g.white_row.ends_with("■ "));
}

#[test]
fn status_line_names_the_pitch() {
    assert_eq!(status_line(60), "Playing: C4 (MIDI: 60)");
    assert_eq!(status_line(63), "Playing: D#4 (MIDI: 63)");
    assert_eq!(status_line(0), "Playing: C-1 (MIDI: 0)");
    assert_eq!(status_line(127), "Playing: G9 (MIDI: 127)");
}
