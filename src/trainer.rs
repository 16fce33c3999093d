//! The interactive trainers: a user-paced walk through a scale, one pitch at
//! a time, or through a chord progression, one chord at a time. Each advance
//! key sounds the current step and moves on, wrapping to the first step after
//! the last; the back key ends the walk.
use vstd::prelude::*;

use crate::catalog::{ChordProgression, Scale};
use crate::keyboard::{keyboard_frame, render_keyboard, KeyboardFrame};
use crate::notes::{note_off_of, note_on_of, pitch_class_name, pitch_class_text, MidiMessage};
use crate::text::{decimal_of, push_decimal};

verus! {

/// The velocity at which the trainers sound their notes.
pub const TRAINER_VELOCITY: u8 = 100;

/// How long the scale trainer holds a note, in milliseconds.
pub const SCALE_HOLD_MS: u32 = 300;

/// How long the chord trainer holds a chord, in milliseconds.
pub const CHORD_HOLD_MS: u32 = 400;

/// What the trainer walks through.
#[derive(Clone, Copy, Debug, PartialEq, Eq, Structural)]
pub enum TrainerMode {
    Scale,
    Chords,
}

/// A key as the trainer sees it.
#[derive(Clone, Copy, Debug, PartialEq, Eq, Structural)]
pub enum TrainerKey {
    /// Sound the current step and move to the next (space).
    Advance,
    /// Leave the walk (escape).
    Back,
    /// Any other key.
    Other,
}

/// What the trainer asks the front end to do.
#[derive(Debug, PartialEq, Eq)]
pub enum TrainerAction {
    /// Send every message of `on`, wait `hold_ms` milliseconds, then send
    /// every message of `off`; where no MIDI output is open, send nothing.
    Sound { on: Vec<MidiMessage>, off: Vec<MidiMessage>, hold_ms: u32 },
    /// The walk is over.
    Exit,
    /// Nothing to do.
    Ignore,
}

/// The position after one advance from `c` through `len` steps.
pub open spec fn advance_cursor(c: nat, len: nat) -> nat {
    ((c as int + 1) % (len as int)) as nat
}

/// The position after `n` advances from the first of `len` steps.
pub open spec fn cursor_after(len: nat, n: nat) -> nat
    decreases n,
{
    if n == 0 {
        0
    } else {
        advance_cursor(cursor_after(len, (n - 1) as nat), len)
    }
}

/// The note-on messages that sound every pitch of a step.
pub open spec fn step_on_messages(pitches: Seq<u8>) -> Seq<MidiMessage> {
    pitches.map_values(|p: u8| note_on_of(p, 100))
}

/// The note-off messages that release every pitch of a step.
pub open spec fn step_off_messages(pitches: Seq<u8>) -> Seq<MidiMessage> {
    pitches.map_values(|p: u8| note_off_of(p))
}

/// The Roman numeral shown for the chord at position `i`.
pub open spec fn chord_numeral(i: nat) -> Seq<char> {
    if i == 0 {
        "I"@
    } else if i == 1 {
        "IV"@
    } else if i == 2 {
        "V"@
    } else if i == 3 {
        "vi"@
    } else {
        "?"@
    }
}

/// The names of the pitch classes of a chord, each followed by a space.
pub open spec fn chord_names(pitches: Seq<u8>) -> Seq<char>
    decreases pitches.len(),
{
    if pitches.len() == 0 {
        Seq::empty()
    } else {
        chord_names(pitches.drop_last()) + pitch_class_name(pitches.last() as int % 12) + seq![' ']
    }
}

/// The status line of a walk at step `i` of `n`, whose step holds `pitches`.
pub open spec fn status_of(mode: TrainerMode, pitches: Seq<u8>, i: nat, n: nat) -> Seq<char> {
    match mode {
        TrainerMode::Scale => "Current note: "@ + pitch_class_name(pitches[0] as int % 12)
            + " (Note "@ + decimal_of(i + 1) + " of "@ + decimal_of(n) + ")"@,
        TrainerMode::Chords => "Current chord: "@ + chord_numeral(i) + " ("@ + decimal_of(i + 1)
            + " of "@ + decimal_of(n) + "): "@ + chord_names(pitches),
    }
}

fn numeral_text(i: usize) -> (r: &'static str)
    ensures
        r@ == chord_numeral(i as nat),
{
    proof {
        reveal_strlit("I");
        reveal_strlit("IV");
        reveal_strlit("V");
        reveal_strlit("vi");
        reveal_strlit("?");
    }
    match i {
        0 => "I",
        1 => "IV",
        2 => "V",
        3 => "vi",
        _ => "?",
    }
}

/// Advancing is a counter modulo the number of steps: after `n` advances
/// from the first of `len` steps the walk stands at step `n % len`.
pub proof fn lemma_cursor_after_advances(len: nat, n: nat)
    requires
        len >= 1,
    ensures
        cursor_after(len, n) == (n as int) % (len as int),
    decreases n,
{
    if n > 0 {
        lemma_cursor_after_advances(len, (n - 1) as nat);
        let m = (n - 1) as int;
        let l = len as int;
        assert(((m % l) + 1) % l == (m + 1) % l) by {
            if l == 1 {
                assert((m % l) + 1 == 1);
            } else {
                vstd::arithmetic::div_mod::lemma_add_mod_noop(m, 1, l);
                vstd::arithmetic::div_mod::lemma_small_mod(1, len);
            }
        }
        let c = cursor_after(len, (n - 1) as nat);
        assert(c as int == m % l);
        vstd::arithmetic::div_mod::lemma_mod_bound(c as int + 1, l);
    } else {
        vstd::arithmetic::div_mod::lemma_small_mod(0, len);
    }
}

/// A walk through the steps of a scale or a chord progression.
pub struct Trainer {
    mode: TrainerMode,
    steps: Vec<Vec<u8>>,
    cursor: usize,
    active: bool,
}

impl Trainer {
    /// What is walked through.
    pub closed spec fn spec_mode(&self) -> TrainerMode {
        self.mode
    }

    /// The steps of the walk, each a group of pitches sounded together.
    pub closed spec fn steps(&self) -> Seq<Seq<u8>> {
        self.steps@.map_values(|s: Vec<u8>| s@)
    }

    /// The position of the current step.
    pub closed spec fn spec_cursor(&self) -> nat {
        self.cursor as nat
    }

    /// Whether the walk goes on.
    pub closed spec fn spec_active(&self) -> bool {
        self.active
    }

    /// The walk has a step, the position names one, and the scale walk has
    /// one pitch in each step.
    pub closed spec fn wf(&self) -> bool {
        &&& self.steps@.len() >= 1
        &&& self.cursor < self.steps@.len()
        &&& self.mode == TrainerMode::Scale ==> forall|i: int|
            0 <= i < self.steps@.len() ==> #[trigger] self.steps@[i]@.len() == 1
    }

    /// A walk through the pitches of `scale`, from the first; `None` when the
    /// scale has no pitch.
    pub fn for_scale(scale: &Scale) -> (r: Option<Trainer>)
        ensures
            r is None <==> scale.notes@.len() == 0,
            r matches Some(t) ==> {
                &&& t.wf()
                &&& t.spec_mode() == TrainerMode::Scale
                &&& t.steps() == scale.notes@.map_values(|p: u8| seq![p])
                &&& t.spec_cursor() == 0
                &&& t.spec_active()
            },
    {
        if scale.notes.len() == 0 {
            return None;
        }
        let mut steps: Vec<Vec<u8>> = Vec::new();
        let mut i: usize = 0;
        while i < scale.notes.len()
            invariant
                i <= scale.notes@.len(),
                steps@.len() == i,
                forall|j: int| 0 <= j < i ==> #[trigger] steps@[j]@ == seq![scale.notes@[j]],
            decreases scale.notes@.len() - i,
        {
            let step = vec![scale.notes[i]];
            assert(step@ =~= seq![scale.notes@[i as int]]);
            steps.push(step);
            i = i + 1;
        }
        let t = Trainer { mode: TrainerMode::Scale, steps, cursor: 0, active: true };
        assert(t.steps() =~= scale.notes@.map_values(|p: u8| seq![p]));
        Some(t)
    }

    /// A walk through the chords of `progression`, from the first; `None`
    /// when it has no chord.
    pub fn for_chords(progression: &ChordProgression) -> (r: Option<Trainer>)
        ensures
            r is None <==> progression.chords@.len() == 0,
            r matches Some(t) ==> {
                &&& t.wf()
                &&& t.spec_mode() == TrainerMode::Chords
                &&& t.steps() == progression.chord_seqs()
                &&& t.spec_cursor() == 0
                &&& t.spec_active()
            },
    {
        if progression.chords.len() == 0 {
            return None;
        }
        let t = Trainer {
            mode: TrainerMode::Chords,
            steps: progression.chords.clone(),
            cursor: 0,
            active: true,
        };
        assert(t.steps() =~= progression.chord_seqs());
        Some(t)
    }

    /// Handles one key. Advance sounds the current step and moves to the
    /// next, wrapping after the last; back ends the walk. Once the walk has
    /// ended every key is ignored.
    pub fn on_key(&mut self, key: TrainerKey) -> (a: TrainerAction)
        requires
            old(self).wf(),
        ensures
            final(self).wf(),
            final(self).spec_mode() == old(self).spec_mode(),
            final(self).steps() == old(self).steps(),
            final(self).spec_cursor() == if old(self).spec_active() && key == TrainerKey::Advance {
                advance_cursor(old(self).spec_cursor(), old(self).steps().len())
            } else {
                old(self).spec_cursor()
            },
            final(self).spec_active() == (old(self).spec_active() && key != TrainerKey::Back),
            !old(self).spec_active() ==> a == TrainerAction::Ignore,
            old(self).spec_active() && key == TrainerKey::Other ==> a == TrainerAction::Ignore,
            old(self).spec_active() && key == TrainerKey::Back ==> a == TrainerAction::Exit,
            old(self).spec_active() && key == TrainerKey::Advance ==> (a matches TrainerAction::Sound {
                on,
                off,
                hold_ms,
            } && on@ == step_on_messages(old(self).steps()[old(self).spec_cursor() as int])
                && off@ == step_off_messages(old(self).steps()[old(self).spec_cursor() as int])
                && hold_ms == match old(self).spec_mode() {
                TrainerMode::Scale => 300u32,
                TrainerMode::Chords => 400u32,
            }),
    {
        if !self.active {
            return TrainerAction::Ignore;
        }
        match key {
            TrainerKey::Back => {
                self.active = false;
                TrainerAction::Exit
            },
            TrainerKey::Other => TrainerAction::Ignore,
            TrainerKey::Advance => {
                let n = self.steps.len();
                let step = &self.steps[self.cursor];
                let mut on: Vec<MidiMessage> = Vec::new();
                let mut off: Vec<MidiMessage> = Vec::new();
                let mut i: usize = 0;
                while i < step.len()
                    invariant
                        i <= step@.len(),
                        on@ == step_on_messages(step@.take(i as int)),
                        off@ == step_off_messages(step@.take(i as int)),
                    decreases step@.len() - i,
                {
                    on.push(MidiMessage::note_on(step[i], TRAINER_VELOCITY));
                    off.push(MidiMessage::note_off(step[i]));
                    assert(step@.take(i as int + 1) =~= step@.take(i as int).push(step@[i as int]));
                    assert(on@ =~= step_on_messages(step@.take(i as int + 1)));
                    assert(off@ =~= step_off_messages(step@.take(i as int + 1)));
                    i = i + 1;
                }
                assert(step@.take(step@.len() as int) =~= step@);
                let hold_ms = match self.mode {
                    TrainerMode::Scale => SCALE_HOLD_MS,
                    TrainerMode::Chords => CHORD_HOLD_MS,
                };
                self.cursor = (self.cursor + 1) % n;
                TrainerAction::Sound { on, off, hold_ms }
            },
        }
    }

    /// The line that tells where the walk stands: the current note of a
    /// scale, or the numeral and notes of the current chord, with the
    /// position counted from one.
    pub fn status_line(&self) -> (r: String)
        requires
            self.wf(),
        ensures
            r@ == status_of(
                self.spec_mode(),
                self.steps()[self.spec_cursor() as int],
                self.spec_cursor(),
                self.steps().len(),
            ),
    {
        let step = &self.steps[self.cursor];
        let i = self.cursor as u64;
        let n = self.steps.len() as u64;
        proof {
            reveal_strlit("Current note: ");
            reveal_strlit(" (Note ");
            reveal_strlit(" of ");
            reveal_strlit(")");
            reveal_strlit("Current chord: ");
            reveal_strlit(" (");
            reveal_strlit("): ");
        }
        match self.mode {
            TrainerMode::Scale => {
                let mut out = String::from_str("Current note: ");
                out.append(pitch_class_text(step[0]));
                out.append(" (Note ");
                push_decimal(&mut out, i + 1);
                out.append(" of ");
                push_decimal(&mut out, n);
                out.append(")");
                out
            },
            TrainerMode::Chords => {
                let mut out = String::from_str("Current chord: ");
                out.append(numeral_text(self.cursor));
                out.append(" (");
                push_decimal(&mut out, i + 1);
                out.append(" of ");
                push_decimal(&mut out, n);
                out.append("): ");
                let mut j: usize = 0;
                while j < step.len()
                    invariant
                        j <= step@.len(),
                        out@ == status_of(
                            TrainerMode::Chords,
                            step@.take(j as int),
                            i as nat,
                            n as nat,
                        ),
                    decreases step@.len() - j,
                {
                    proof {
                        reveal_strlit(" ");
                        assert(step@.take(j as int + 1).drop_last() =~= step@.take(j as int));
                    }
                    out.append(pitch_class_text(step[j]));
                    out.append(" ");
                    j = j + 1;
                }
                assert(step@.take(step@.len() as int) =~= step@);
                out
            },
        }
    }

    /// What is walked through.
    pub fn mode(&self) -> (r: TrainerMode)
        ensures
            r == self.spec_mode(),
    {
        self.mode
    }

    /// The position of the current step.
    pub fn cursor(&self) -> (r: usize)
        ensures
            r == self.spec_cursor(),
    {
        self.cursor
    }

    /// Whether the walk goes on.
    pub fn is_active(&self) -> (r: bool)
        ensures
            r == self.spec_active(),
    {
        self.active
    }

    /// The number of steps.
    pub fn len(&self) -> (r: usize)
        ensures
            r == self.steps().len(),
    {
        self.steps.len()
    }

    /// The pitches of the current step.
    pub fn current(&self) -> (r: Vec<u8>)
        requires
            self.wf(),
        ensures
            r@ == self.steps()[self.spec_cursor() as int],
    {
        self.steps[self.cursor].clone()
    }

    /// The keyboard with the pitches of the current step sounding.
    pub fn frame(&self) -> (f: KeyboardFrame)
        requires
            self.wf(),
        ensures
            f.rows() == keyboard_frame(self.steps()[self.spec_cursor() as int]),
    {
        let current = self.current();
        render_keyboard(current.as_slice())
    }
}

} // verus!
