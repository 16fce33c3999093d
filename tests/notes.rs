use maestro::notes::{
    events_from_triples, is_white_key, note_name, pitch_class_text, MidiMessage, NoteError,
    NoteEvent,
};

#[test]
fn white_keys_follow_pitch_class() {
    let whites = [0u8, 2, 4, 5, 7, 9, 11];
    for p in 0u8..=127 {
        assert_eq!(is_white_key(p), whites.contains(&(p % 12)), "pitch {}", p);
        assert_eq!(is_white_key(p), is_white_key(p % 12));
    }
    assert!(is_white_key(60));
    assert!(!is_white_key(61));
    assert!(is_white_key(71));
    assert!(!is_white_key(70));
}

#[test]
fn note_names_in_scientific_notation() {
    assert_eq!(note_name(60), "C4");
    assert_eq!(note_name(61), "C#4");
    assert_eq!(note_name(69), "A4");
    assert_eq!(note_name(0), "C-1");
    assert_eq!(note_name(11), "B-1");
    assert_eq!(note_name(12), "C0");
    assert_eq!(note_name(127), "G9");
    assert_eq!(note_name(120), "C9");
    assert_eq!(pitch_class_text(75), "D#");
}

#[test]
fn note_event_rejects_out_of_range() {
    let e = NoteEvent::new(67, 64, 400).unwrap();
    assert_eq!(e.pitch(), 67);
    assert_eq!(e.velocity(), 64);
    assert_eq!(e.duration_ms(), 400);
    assert!(NoteEvent::new(127, 127, 0).is_ok());
    assert_eq!(NoteEvent::new(128, 64, 10), Err(NoteError::PitchOutOfRange));
    assert_eq!(NoteEvent::new(200, 200, 10), Err(NoteError::PitchOutOfRange));
    assert_eq!(NoteEvent::new(60, 128, 10), Err(NoteError::VelocityOutOfRange));
}

#[test]
fn midi_message_bytes() {
    assert_eq!(MidiMessage::note_on(60, 100).to_bytes(), [0x90, 60, 100]);
    assert_eq!(MidiMessage::note_off(60).to_bytes(), [0x80, 60, 0]);
}

#[test]
fn events_from_triples_in_order() {
    let events = events_from_triples(&vec![(67, 64, 400), (63, 64, 1200)]).unwrap();
    assert_eq!(events.len(), 2);
    assert_eq!(events[0], NoteEvent::new(67, 64, 400).unwrap());
    assert_eq!(events[1].pitch(), 63);
    assert_eq!(events[1].duration_ms(), 1200);
    assert_eq!(events_from_triples(&vec![]).unwrap().len(), 0);
}

#[test]
fn events_from_triples_first_error_wins() {
    assert_eq!(
        events_from_triples(&vec![(60, 64, 1), (60, 130, 1), (140, 64, 1)]),
        Err(NoteError::VelocityOutOfRange)
    );
    assert_eq!(
        events_from_triples(&vec![(128, 64, 1), (60, 130, 1)]),
        Err(NoteError::PitchOutOfRange)
    );
}
