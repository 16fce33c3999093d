//! The note event model: pitches, timed note events and the raw MIDI
//! channel messages that sound them.
use vstd::prelude::*;

use crate::text::{decimal_of, push_decimal};

verus! {

/// The highest pitch and velocity that a MIDI data byte can carry.
pub const MAX_DATA: u8 = 127;

/// Whether a pitch class (a pitch modulo twelve) falls on a white key.
pub open spec fn white_pitch_class(c: int) -> bool {
    c == 0 || c == 2 || c == 4 || c == 5 || c == 7 || c == 9 || c == 11
}

/// Whether a pitch sits on a white key of the piano.
pub open spec fn is_white(p: int) -> bool {
    white_pitch_class(p % 12)
}

/// Whether `note` sits on a white key: its pitch class is one of C, D, E, F,
/// G, A and B.
pub fn is_white_key(note: u8) -> (r: bool)
    ensures
        r == is_white(note as int),
{
    match note % 12 {
        0 | 2 | 4 | 5 | 7 | 9 | 11 => true,
        _ => false,
    }
}

/// Whether a pitch sits on a white key depends on its pitch class alone: a
/// pitch and its class agree, and so do pitches an octave apart.
pub proof fn lemma_white_key_by_pitch_class(p: int)
    requires
        0 <= p <= 127,
    ensures
        is_white(p) == is_white(p % 12),
        p + 12 <= 127 ==> is_white(p) == is_white(p + 12),
{
    assert((p % 12) % 12 == p % 12);
    assert((p + 12) % 12 == p % 12);
}

/// The name of a pitch class in sharps: C, C#, D, ... B.
pub open spec fn pitch_class_name(c: int) -> Seq<char> {
    if c == 0 {
        seq!['C']
    } else if c == 1 {
        seq!['C', '#']
    } else if c == 2 {
        seq!['D']
    } else if c == 3 {
        seq!['D', '#']
    } else if c == 4 {
        seq!['E']
    } else if c == 5 {
        seq!['F']
    } else if c == 6 {
        seq!['F', '#']
    } else if c == 7 {
        seq!['G']
    } else if c == 8 {
        seq!['G', '#']
    } else if c == 9 {
        seq!['A']
    } else if c == 10 {
        seq!['A', '#']
    } else {
        seq!['B']
    }
}

/// The octave number of a pitch in scientific notation, where pitch 60 is C4.
pub open spec fn octave_of(p: int) -> int {
    p / 12 - 1
}

/// The signed decimal notation of an integer.
pub open spec fn signed_decimal(i: int) -> Seq<char> {
    if i < 0 {
        seq!['-'] + decimal_of((-i) as nat)
    } else {
        decimal_of(i as nat)
    }
}

/// The full name of a pitch: its pitch class followed by its octave ("C4").
pub open spec fn note_name_of(p: int) -> Seq<char> {
    pitch_class_name(p % 12) + signed_decimal(octave_of(p))
}

/// The name of the pitch class of `note`, without octave.
pub fn pitch_class_text(note: u8) -> (r: &'static str)
    ensures
        r@ == pitch_class_name(note as int % 12),
{
    proof {
        reveal_strlit("C");
        reveal_strlit("C#");
        reveal_strlit("D");
        reveal_strlit("D#");
        reveal_strlit("E");
        reveal_strlit("F");
        reveal_strlit("F#");
        reveal_strlit("G");
        reveal_strlit("G#");
        reveal_strlit("A");
        reveal_strlit("A#");
        reveal_strlit("B");
    }
    match note % 12 {
        0 => "C",
        1 => "C#",
        2 => "D",
        3 => "D#",
        4 => "E",
        5 => "F",
        6 => "F#",
        7 => "G",
        8 => "G#",
        9 => "A",
        10 => "A#",
        _ => "B",
    }
}

/// The name of `note` with its octave, in scientific notation: 60 is "C4",
/// 0 is "C-1".
pub fn note_name(note: u8) -> (r: String)
    ensures
        r@ == note_name_of(note as int),
{
    let mut out = String::from_str(pitch_class_text(note));
    let octaves: u8 = note / 12;
    if octaves == 0 {
        proof {
            reveal_strlit("-1");
        }
        out.append("-1");
        assert(decimal_of(1) == seq!['1']);
        assert(out@ =~= note_name_of(note as int));
    } else {
        push_decimal(&mut out, (octaves - 1) as u64);
    }
    out
}

/// One timed note: a pitch, the strike velocity and how long it sounds.
/// Pitch and velocity are MIDI data bytes, at most 127; the constructor
/// refuses anything else, so every value of this type is valid.
#[derive(Clone, Copy, Debug, PartialEq, Eq)]
pub struct NoteEvent {
    pitch: u8,
    velocity: u8,
    duration_ms: u32,
}

/// Why a note event could not be built.
#[derive(Clone, Copy, Debug, PartialEq, Eq, Structural)]
pub enum NoteError {
    PitchOutOfRange,
    VelocityOutOfRange,
}

impl NoteEvent {
    #[verifier::type_invariant]
    spec fn valid(self) -> bool {
        self.pitch <= 127 && self.velocity <= 127
    }

    /// The pitch of the event.
    pub closed spec fn spec_pitch(self) -> u8 {
        self.pitch
    }

    /// The strike velocity of the event.
    pub closed spec fn spec_velocity(self) -> u8 {
        self.velocity
    }

    /// How long the event sounds, in milliseconds.
    pub closed spec fn spec_duration_ms(self) -> u32 {
        self.duration_ms
    }

    /// Builds an event; a pitch or velocity above 127 is refused, the pitch
    /// checked first.
    pub fn new(pitch: u8, velocity: u8, duration_ms: u32) -> (r: Result<NoteEvent, NoteError>)
        ensures
            pitch > 127 ==> r == Err::<NoteEvent, NoteError>(NoteError::PitchOutOfRange),
            pitch <= 127 && velocity > 127 ==> r == Err::<NoteEvent, NoteError>(
                NoteError::VelocityOutOfRange,
            ),
            pitch <= 127 && velocity <= 127 ==> (r matches Ok(e) && e.spec_pitch() == pitch
                && e.spec_velocity() == velocity && e.spec_duration_ms() == duration_ms),
    {
        if pitch > MAX_DATA {
            Err(NoteError::PitchOutOfRange)
        } else if velocity > MAX_DATA {
            Err(NoteError::VelocityOutOfRange)
        } else {
            Ok(NoteEvent { pitch, velocity, duration_ms })
        }
    }

    pub fn pitch(&self) -> (r: u8)
        ensures
            r == self.spec_pitch(),
            r <= 127,
    {
        proof {
            use_type_invariant(self);
        }
        self.pitch
    }

    pub fn velocity(&self) -> (r: u8)
        ensures
            r == self.spec_velocity(),
            r <= 127,
    {
        proof {
            use_type_invariant(self);
        }
        self.velocity
    }

    pub fn duration_ms(&self) -> (r: u32)
        ensures
            r == self.spec_duration_ms(),
    {
        self.duration_ms
    }
}

/// A raw three-byte MIDI channel-voice message on channel one.
#[derive(Clone, Copy, Debug, PartialEq, Eq, Structural)]
pub struct MidiMessage {
    pub status: u8,
    pub key: u8,
    pub value: u8,
}

/// The status byte of a note-on message.
pub const NOTE_ON: u8 = 0x90;

/// The status byte of a note-off message.
pub const NOTE_OFF: u8 = 0x80;

/// The note-on message that strikes `pitch` at `velocity`.
pub open spec fn note_on_of(pitch: u8, velocity: u8) -> MidiMessage {
    MidiMessage { status: 0x90, key: pitch, value: velocity }
}

/// The note-off message that releases `pitch`.
pub open spec fn note_off_of(pitch: u8) -> MidiMessage {
    MidiMessage { status: 0x80, key: pitch, value: 0 }
}

impl MidiMessage {
    pub fn note_on(pitch: u8, velocity: u8) -> (r: MidiMessage)
        ensures
            r == note_on_of(pitch, velocity),
    {
        MidiMessage { status: NOTE_ON, key: pitch, value: velocity }
    }

    pub fn note_off(pitch: u8) -> (r: MidiMessage)
        ensures
            r == note_off_of(pitch),
    {
        MidiMessage { status: NOTE_OFF, key: pitch, value: 0 }
    }

    /// Whether this is a note-on message.
    pub open spec fn is_note_on(self) -> bool {
        self.status == 0x90
    }

    /// Whether this is a note-off message.
    pub open spec fn is_note_off(self) -> bool {
        self.status == 0x80
    }

    /// The bytes that go on the wire, status byte first.
    pub fn to_bytes(&self) -> (r: [u8; 3])
        ensures
            r@ == seq![self.status, self.key, self.value],
    {
        let r = [self.status, self.key, self.value];
        assert(r@ =~= seq![self.status, self.key, self.value]);
        r
    }
}

/// The (pitch, velocity, milliseconds) triple of an event.
pub open spec fn event_triple(e: NoteEvent) -> (u8, u8, u32) {
    (e.spec_pitch(), e.spec_velocity(), e.spec_duration_ms())
}

/// The triples of a sequence of events.
pub open spec fn event_triples(events: Seq<NoteEvent>) -> Seq<(u8, u8, u32)> {
    events.map_values(|e: NoteEvent| event_triple(e))
}

/// Whether a triple can become a note event.
pub open spec fn triple_valid(t: (u8, u8, u32)) -> bool {
    t.0 <= 127 && t.1 <= 127
}

/// The error that building an event from an invalid triple reports.
pub open spec fn triple_error(t: (u8, u8, u32)) -> NoteError {
    if t.0 > 127 {
        NoteError::PitchOutOfRange
    } else {
        NoteError::VelocityOutOfRange
    }
}

/// A named melody: its events in playing order.
pub struct NamedSequence {
    pub name: String,
    pub events: Vec<NoteEvent>,
}

/// Builds events from (pitch, velocity, milliseconds) triples, in order; the
/// first triple with a pitch or velocity above 127 fails the whole build with
/// its error.
pub fn events_from_triples(data: &Vec<(u8, u8, u32)>) -> (r: Result<Vec<NoteEvent>, NoteError>)
    ensures
        r is Ok <==> forall|i: int| 0 <= i < data@.len() ==> triple_valid(#[trigger] data@[i]),
        r matches Ok(v) ==> event_triples(v@) == data@,
        r matches Err(e) ==> exists|i: int|
            0 <= i < data@.len() && !triple_valid(#[trigger] data@[i]) && e == triple_error(
                data@[i],
            ) && forall|j: int| 0 <= j < i ==> triple_valid(#[trigger] data@[j]),
{
    let mut out: Vec<NoteEvent> = Vec::new();
    let mut i: usize = 0;
    while i < data.len()
        invariant
            i <= data@.len(),
            out@.len() == i,
            forall|j: int| 0 <= j < i ==> triple_valid(#[trigger] data@[j]),
            forall|j: int| 0 <= j < i ==> event_triple(#[trigger] out@[j]) == data@[j],
        decreases data@.len() - i,
    {
        let (pitch, velocity, duration_ms) = data[i];
        match NoteEvent::new(pitch, velocity, duration_ms) {
            Ok(e) => {
                out.push(e);
            },
            Err(err) => {
                assert(!triple_valid(data@[i as int]));
                return Err(err);
            },
        }
        i = i + 1;
    }
    assert(event_triples(out@) =~= data@);
    Ok(out)
}

} // verus!
