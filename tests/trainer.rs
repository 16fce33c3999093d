use maestro::catalog::{get_chord_progression, get_scale, Scale};
use maestro::notes::MidiMessage;
use maestro::trainer::{Trainer, TrainerAction, TrainerKey, TrainerMode};

#[test]
fn nine_advances_through_c_major() {
    let scale = get_scale("c_major");
    let mut t = Trainer::for_scale(&scale).unwrap();
    for _ in 0..9 {
        t.on_key(TrainerKey::Advance);
    }
    assert_eq!(t.cursor(), 1);
    assert_eq!(t.current(), vec![62]);
}

#[test]
fn cursor_is_advances_modulo_length() {
    let scale = get_scale("a_minor");
    let mut t = Trainer::for_scale(&scale).unwrap();
    for n in 1..=20usize {
        t.on_key(TrainerKey::Advance);
        assert_eq!(t.cursor(), n % 8);
    }
    let one = Scale { name: "One".to_string(), notes: vec![60] };
    let mut t = Trainer::for_scale(&one).unwrap();
    for _ in 0..5 {
        t.on_key(TrainerKey::Advance);
        assert_eq!(t.cursor(), 0);
    }
}

#[test]
fn scale_advance_sounds_current_note() {
    let mut t = Trainer::for_scale(&get_scale("c_major")).unwrap();
    assert_eq!(t.mode(), TrainerMode::Scale);
    let a = t.on_key(TrainerKey::Advance);
    assert_eq!(
        a,
        TrainerAction::Sound {
            on: vec![MidiMessage::note_on(60, 100)],
            off: vec![MidiMessage::note_off(60)],
            hold_ms: 300,
        }
    );
    assert_eq!(t.on_key(TrainerKey::Other), TrainerAction::Ignore);
    assert_eq!(t.cursor(), 1);
}

#[test]
fn back_key_ends_the_walk() {
    let mut t = Trainer::for_scale(&get_scale("c_major")).unwrap();
    t.on_key(TrainerKey::Advance);
    assert_eq!(t.on_key(TrainerKey::Back), TrainerAction::Exit);
    assert!(!t.is_active());
    assert_eq!(t.on_key(TrainerKey::Advance), TrainerAction::Ignore);
    assert_eq!(t.cursor(), 1);
}

#[test]
fn empty_walks_are_refused() {
    let empty = Scale { name: "Empty".to_string(), notes: vec![] };
    assert!(Trainer::for_scale(&empty).is_none());
}

#[test]
fn chord_walk_sounds_whole_chords_and_wraps() {
    let p = get_chord_progression("i_iv_v");
    let mut t = Trainer::for_chords(&p).unwrap();
    assert_eq!(t.len(), 3);
    assert_eq!(t.current(), vec![60, 64, 67]);
    let a = t.on_key(TrainerKey::Advance);
    assert_eq!(
        a,
        TrainerAction::Sound {
            on: vec![
                MidiMessage::note_on(60, 100),
                MidiMessage::note_on(64, 100),
                MidiMessage::note_on(67, 100)
            ],
            off: vec![
                MidiMessage::note_off(60),
                MidiMessage::note_off(64),
                MidiMessage::note_off(67)
            ],
            hold_ms: 400,
        }
    );
    t.on_key(TrainerKey::Advance);
    t.on_key(TrainerKey::Advance);
    assert_eq!(t.cursor(), 0);
}

#[test]
fn trainer_status_lines() {
    let mut t = Trainer::for_scale(&get_scale("g_major")).unwrap();
    assert_eq!(t.status_line(), "Current note: G (Note 1 of 8)");
    for _ in 0..6 {
        t.on_key(TrainerKey::Advance);
    }
    assert_eq!(t.status_line(), "Current note: F# (Note 7 of 8)");
    let mut c = Trainer::for_chords(&get_chord_progression("i_v_vi_iv")).unwrap();
    assert_eq!(c.status_line(), "Current chord: I (1 of 4): C E G ");
    c.on_key(TrainerKey::Advance);
    c.on_key(TrainerKey::Advance);
    assert_eq!(c.status_line(), "Current chord: V (3 of 4): A C E ");
}

#[test]
fn trainer_frame_highlights_current_step() {
    let t = Trainer::for_chords(&get_chord_progression("i_iv_v")).unwrap();
    let f = t.frame();
    assert_eq!(f.white_row, "□   □   □ □   □   □   □ ■   □   ■ □   ■   □   □ □ ");
}
