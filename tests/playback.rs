use maestro::catalog::piece_sequence;
use maestro::notes::{events_from_triples, MidiMessage, NoteEvent};
use maestro::playback::{PlaybackAction, PlaybackDriver, PlaybackEvent, PlaybackPhase};

fn two_notes() -> Vec<NoteEvent> {
    events_from_triples(&vec![(67, 64, 400), (63, 64, 1200)]).unwrap()
}

#[test]
fn cancel_after_first_note_off() {
    let mut d = PlaybackDriver::new(two_notes());
    assert_eq!(d.phase(), PlaybackPhase::Playing);
    let on = d.step(PlaybackEvent::Proceed);
    assert_eq!(
        on,
        PlaybackAction::NoteOn { message: MidiMessage::note_on(67, 64), pitch: 67, hold_ms: 400 }
    );
    let off = d.step(PlaybackEvent::HoldElapsed);
    assert_eq!(off, PlaybackAction::NoteOff { message: MidiMessage::note_off(67) });
    assert_eq!(d.step(PlaybackEvent::Cancel), PlaybackAction::Stop);
    assert_eq!(d.phase(), PlaybackPhase::Cancelled);
    assert!(d.is_done());
    assert_eq!(d.position(), 1);
    // nothing more happens once cancelled
    assert_eq!(d.step(PlaybackEvent::Proceed), PlaybackAction::Ignore);
}

#[test]
fn cancel_after_first_note_off_messages() {
    let mut d = PlaybackDriver::new(two_notes());
    let sent = d.feed(&[PlaybackEvent::Proceed, PlaybackEvent::HoldElapsed, PlaybackEvent::Cancel]);
    assert_eq!(sent, vec![MidiMessage::note_on(67, 64), MidiMessage::note_off(67)]);
    assert!(sent.iter().all(|m| m.key != 63));
    assert_eq!(d.phase(), PlaybackPhase::Cancelled);
}

#[test]
fn uninterrupted_playback_pairs_every_note() {
    let seq = piece_sequence("Symphony No. 40").unwrap();
    let n = seq.events.len();
    let mut reports = Vec::new();
    for _ in 0..n {
        reports.push(PlaybackEvent::Proceed);
        reports.push(PlaybackEvent::HoldElapsed);
    }
    let mut d = PlaybackDriver::new(seq.events.clone());
    let sent = d.feed(&reports);
    assert_eq!(d.phase(), PlaybackPhase::Finished);
    assert_eq!(sent.len(), 2 * n);
    for (i, e) in seq.events.iter().enumerate() {
        assert_eq!(sent[2 * i], MidiMessage::note_on(e.pitch(), e.velocity()));
        assert_eq!(sent[2 * i + 1], MidiMessage::note_off(e.pitch()));
    }
}

#[test]
fn cancel_before_event_k_sends_k_pairs() {
    let events = piece_sequence("Turkish March").unwrap().events;
    for k in 0..events.len() {
        let mut reports = Vec::new();
        for _ in 0..k {
            reports.push(PlaybackEvent::Proceed);
            reports.push(PlaybackEvent::HoldElapsed);
        }
        reports.push(PlaybackEvent::Cancel);
        let mut d = PlaybackDriver::new(events.clone());
        let sent = d.feed(&reports);
        let ons = sent.iter().filter(|m| m.status == 0x90).count();
        let offs = sent.iter().filter(|m| m.status == 0x80).count();
        assert_eq!(ons, k);
        assert_eq!(offs, k);
        assert!(ons <= k + 1);
        assert_eq!(d.phase(), PlaybackPhase::Cancelled);
    }
}

#[test]
fn cancel_while_sounding_releases_the_note() {
    let mut d = PlaybackDriver::new(two_notes());
    d.step(PlaybackEvent::Proceed);
    assert!(d.is_sounding());
    assert_eq!(
        d.step(PlaybackEvent::Cancel),
        PlaybackAction::NoteOff { message: MidiMessage::note_off(67) }
    );
    assert!(!d.is_sounding());
    assert_eq!(d.phase(), PlaybackPhase::Cancelled);
}

#[test]
fn empty_sequence_is_finished_at_once() {
    let mut d = PlaybackDriver::new(Vec::new());
    assert_eq!(d.phase(), PlaybackPhase::Finished);
    assert!(d.is_done());
    assert_eq!(d.step(PlaybackEvent::Proceed), PlaybackAction::Ignore);
}

#[test]
fn out_of_place_reports_are_ignored() {
    let mut d = PlaybackDriver::new(two_notes());
    assert_eq!(d.step(PlaybackEvent::HoldElapsed), PlaybackAction::Ignore);
    d.step(PlaybackEvent::Proceed);
    assert_eq!(d.step(PlaybackEvent::Proceed), PlaybackAction::Ignore);
    assert_eq!(d.position(), 0);
    d.step(PlaybackEvent::HoldElapsed);
    d.step(PlaybackEvent::Proceed);
    d.step(PlaybackEvent::HoldElapsed);
    assert_eq!(d.phase(), PlaybackPhase::Finished);
    assert_eq!(d.position(), 2);
}
