use maestro::catalog::{get_chord_progression, get_scale};
use maestro::menu::{
    chord_listing, chords_menu, framed_menu, main_menu, menu_step, pieces_menu, scale_listing,
    scales_menu, text_menu_step, MenuCommand, Screen, TextMenuCommand,
};

#[test]
fn framed_menu_layout() {
    let lines = framed_menu("Ab", &["x", "yyy"]);
    assert_eq!(
        lines,
        vec![
            "+---------+",
            "|    Ab     |",
            "+---------+",
            "| x         |",
            "| yyy       |",
            "+---------+",
        ]
    );
    let empty = framed_menu("T", &[]);
    assert_eq!(empty, vec!["+-------+", "|    T    |", "+-------+", "+-------+"]);
}

#[test]
fn main_menu_lines() {
    let lines = main_menu();
    assert_eq!(lines.len(), 10);
    assert_eq!(lines[0], "+------------------------------------+");
    assert_eq!(lines[1], "|    Maestro Piano Learning Program    |");
    assert_eq!(lines[4], "| 2. Learn Scales                      |");
    assert_eq!(lines[8], "| q. Quit                              |");
    assert_eq!(lines[9], lines[0]);
}

#[test]
fn other_menus() {
    let s = scales_menu();
    assert_eq!(s.len(), 9);
    assert_eq!(s[3], "| 1. C Major Scale           |");
    let c = chords_menu();
    assert_eq!(c.len(), 8);
    assert_eq!(c[5], "| 3. I-V-vi-IV (C-G-Am-F)               |");
    let p = pieces_menu();
    assert_eq!(p.len(), 8);
    assert_eq!(
        p[4],
        "| 2. Turkish March - Rondo Alla Turca from Piano Sonata No. 11                               |"
    );
    assert_eq!(
        p[1],
        "|                                     Mozart Pieces Menu                                     |"
    );
}

#[test]
fn listings() {
    assert_eq!(
        scale_listing(&get_scale("c_major")),
        "\nC Major Scale:\nNotes: \nC4 D4 E4 F4 G4 A4 B4 C5 \n\n"
    );
    assert_eq!(
        chord_listing(&get_chord_progression("ii_v_i")),
        "\nii-V-I Chord Progression:\nChord 1: D4 F4 A4 \nChord 2: G4 B4 D5 \nChord 3: C4 E4 G4 \n\n"
    );
}

#[test]
fn main_menu_routing() {
    assert!(matches!(menu_step(Screen::Main, 'q'), (Screen::Main, MenuCommand::Quit)));
    assert!(matches!(menu_step(Screen::Main, '1'), (Screen::Main, MenuCommand::ListDevices)));
    assert!(matches!(menu_step(Screen::Main, '2'), (Screen::Scales, MenuCommand::ShowMenu)));
    assert!(matches!(menu_step(Screen::Main, '3'), (Screen::Chords, MenuCommand::ShowMenu)));
    assert!(matches!(menu_step(Screen::Main, '4'), (Screen::Pieces, MenuCommand::ShowMenu)));
    assert!(matches!(menu_step(Screen::Main, '5'), (Screen::Main, MenuCommand::SetDefaultDevice)));
    assert!(matches!(menu_step(Screen::Main, 'b'), (Screen::Main, MenuCommand::Ignore)));
}

#[test]
fn submenu_routing() {
    match menu_step(Screen::Scales, '3') {
        (Screen::Scales, MenuCommand::LearnScale(s)) => assert_eq!(s.name, "G Major"),
        _ => panic!("expected a scale"),
    }
    match menu_step(Screen::Chords, '2') {
        (Screen::Chords, MenuCommand::LearnChords(p)) => assert_eq!(p.name, "ii-V-I"),
        _ => panic!("expected a progression"),
    }
    match menu_step(Screen::Pieces, '3') {
        (Screen::Pieces, MenuCommand::PlayPiece(p)) => {
            assert_eq!(p.name, "Symphony No. 40");
            assert_eq!(p.events.len(), 15);
        }
        _ => panic!("expected a piece"),
    }
    assert!(matches!(menu_step(Screen::Scales, '5'), (Screen::Scales, MenuCommand::Ignore)));
    assert!(matches!(menu_step(Screen::Pieces, '4'), (Screen::Pieces, MenuCommand::Ignore)));
    assert!(matches!(menu_step(Screen::Chords, 'b'), (Screen::Main, MenuCommand::ShowMenu)));
}

#[test]
fn line_menu_routing() {
    assert!(matches!(text_menu_step(Screen::Main, "1\n"), (Screen::Scales, TextMenuCommand::ShowMenu)));
    assert!(matches!(text_menu_step(Screen::Main, " 2 \n"), (Screen::Chords, TextMenuCommand::ShowMenu)));
    assert!(matches!(
        text_menu_step(Screen::Main, "3\n"),
        (Screen::Main, TextMenuCommand::PiecesUnavailable)
    ));
    assert!(matches!(text_menu_step(Screen::Main, "4\n"), (Screen::Main, TextMenuCommand::Quit)));
    assert!(matches!(text_menu_step(Screen::Main, "12\n"), (Screen::Main, TextMenuCommand::Invalid)));
    match text_menu_step(Screen::Scales, "2\n") {
        (Screen::Scales, TextMenuCommand::ShowScale(s)) => assert_eq!(s.name, "C Minor"),
        _ => panic!("expected a scale"),
    }
    assert!(matches!(text_menu_step(Screen::Scales, "5\n"), (Screen::Main, TextMenuCommand::ShowMenu)));
    match text_menu_step(Screen::Chords, "3") {
        (Screen::Chords, TextMenuCommand::ShowChords(p)) => assert_eq!(p.name, "I-V-vi-IV"),
        _ => panic!("expected a progression"),
    }
    assert!(matches!(text_menu_step(Screen::Chords, "4\n"), (Screen::Main, TextMenuCommand::ShowMenu)));
    assert!(matches!(text_menu_step(Screen::Chords, "b\n"), (Screen::Chords, TextMenuCommand::Invalid)));
}
