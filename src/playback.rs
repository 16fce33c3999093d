//! The playback driver: walks a sequence of note events, deciding when each
//! note starts and stops and when playback ends. The front end polls for the
//! cancel key, sends the messages, draws and sleeps; the driver decides.
use vstd::prelude::*;

use crate::notes::{note_off_of, note_on_of, MidiMessage, NoteEvent};

verus! {

/// Where a playback stands.
#[derive(Clone, Copy, Debug, PartialEq, Eq, Structural)]
pub enum PlaybackPhase {
    /// Events remain.
    Playing,
    /// Every event has sounded.
    Finished,
    /// The listener stopped the playback.
    Cancelled,
}

/// What the front end reports to the driver.
#[derive(Clone, Copy, Debug, PartialEq, Eq, Structural)]
pub enum PlaybackEvent {
    /// The poll before the next note saw no cancel key.
    Proceed,
    /// The cancel key was pressed.
    Cancel,
    /// The sounding note has been held for its duration.
    HoldElapsed,
}

/// What the driver asks the front end to do.
#[derive(Clone, Copy, Debug, PartialEq, Eq, Structural)]
pub enum PlaybackAction {
    /// Send `message`, show `pitch` as sounding, then wait `hold_ms`
    /// milliseconds and report `HoldElapsed`.
    NoteOn { message: MidiMessage, pitch: u8, hold_ms: u32 },
    /// Send `message` and show no key as sounding.
    NoteOff { message: MidiMessage },
    /// Playback was cancelled with no note sounding.
    Stop,
    /// The event does not apply now; nothing to do.
    Ignore,
}

/// The abstract state of a playback: how many events have completed,
/// whether the next one is sounding, and the phase.
pub struct PlaybackState {
    pub position: nat,
    pub sounding: bool,
    pub phase: PlaybackPhase,
}

/// The note-on message of an event.
pub open spec fn on_message(e: NoteEvent) -> MidiMessage {
    note_on_of(e.spec_pitch(), e.spec_velocity())
}

/// The note-off message of an event.
pub open spec fn off_message(e: NoteEvent) -> MidiMessage {
    note_off_of(e.spec_pitch())
}

/// The messages that an action sends.
pub open spec fn action_messages(a: PlaybackAction) -> Seq<MidiMessage> {
    match a {
        PlaybackAction::NoteOn { message, .. } => seq![message],
        PlaybackAction::NoteOff { message } => seq![message],
        _ => Seq::empty(),
    }
}

/// The state in which a playback of `events` begins.
pub open spec fn initial_state(events: Seq<NoteEvent>) -> PlaybackState {
    PlaybackState {
        position: 0,
        sounding: false,
        phase: if events.len() == 0 {
            PlaybackPhase::Finished
        } else {
            PlaybackPhase::Playing
        },
    }
}

/// The states that a playback of `events` can be in.
pub open spec fn state_valid(events: Seq<NoteEvent>, s: PlaybackState) -> bool {
    &&& s.position <= events.len()
    &&& s.phase == PlaybackPhase::Playing ==> s.position < events.len()
    &&& s.sounding ==> s.phase == PlaybackPhase::Playing
    &&& s.phase == PlaybackPhase::Finished ==> s.position == events.len()
}

/// One step of the driver: the next state and the action, for an event
/// reported in state `s`. Before each note the poll result decides between
/// sounding it and stopping; a sounding note is always released, also when
/// the cancel key arrives while it sounds.
pub open spec fn next_step(events: Seq<NoteEvent>, s: PlaybackState, ev: PlaybackEvent) -> (
    PlaybackState,
    PlaybackAction,
) {
    if s.phase != PlaybackPhase::Playing {
        (s, PlaybackAction::Ignore)
    } else if s.sounding {
        if ev == PlaybackEvent::Proceed {
            (s, PlaybackAction::Ignore)
        } else {
            let position = s.position + 1;
            let phase = if ev == PlaybackEvent::Cancel {
                PlaybackPhase::Cancelled
            } else if position == events.len() {
                PlaybackPhase::Finished
            } else {
                PlaybackPhase::Playing
            };
            (
                PlaybackState { position, sounding: false, phase },
                PlaybackAction::NoteOff { message: off_message(events[s.position as int]) },
            )
        }
    } else {
        match ev {
            PlaybackEvent::Proceed => {
                let e = events[s.position as int];
                (
                    PlaybackState { position: s.position, sounding: true, phase: s.phase },
                    PlaybackAction::NoteOn {
                        message: on_message(e),
                        pitch: e.spec_pitch(),
                        hold_ms: e.spec_duration_ms(),
                    },
                )
            },
            PlaybackEvent::Cancel => (
                PlaybackState {
                    position: s.position,
                    sounding: false,
                    phase: PlaybackPhase::Cancelled,
                },
                PlaybackAction::Stop,
            ),
            PlaybackEvent::HoldElapsed => (s, PlaybackAction::Ignore),
        }
    }
}

/// The state reached from `s` after reporting `inputs` in order, and every
/// message sent on the way.
pub open spec fn replay(events: Seq<NoteEvent>, s: PlaybackState, inputs: Seq<PlaybackEvent>) -> (
    PlaybackState,
    Seq<MidiMessage>,
)
    decreases inputs.len(),
{
    if inputs.len() == 0 {
        (s, Seq::empty())
    } else {
        let before = replay(events, s, inputs.drop_last());
        let step = next_step(events, before.0, inputs.last());
        (step.0, before.1 + action_messages(step.1))
    }
}

/// The messages of the first `k` events played in full: each note-on
/// followed by its note-off.
pub open spec fn paired_messages(events: Seq<NoteEvent>, k: nat) -> Seq<MidiMessage>
    decreases k,
{
    if k == 0 {
        Seq::empty()
    } else {
        paired_messages(events, (k - 1) as nat) + seq![
            on_message(events[k - 1]),
            off_message(events[k - 1]),
        ]
    }
}

/// The reports of `k` notes played without interruption.
pub open spec fn uninterrupted(k: nat) -> Seq<PlaybackEvent>
    decreases k,
{
    if k == 0 {
        Seq::empty()
    } else {
        uninterrupted((k - 1) as nat) + seq![PlaybackEvent::Proceed, PlaybackEvent::HoldElapsed]
    }
}

/// How many note-on messages a sequence holds.
pub open spec fn note_on_count(msgs: Seq<MidiMessage>) -> nat
    decreases msgs.len(),
{
    if msgs.len() == 0 {
        0
    } else {
        note_on_count(msgs.drop_last()) + if msgs.last().is_note_on() {
            1nat
        } else {
            0nat
        }
    }
}

/// How many note-off messages a sequence holds.
pub open spec fn note_off_count(msgs: Seq<MidiMessage>) -> nat
    decreases msgs.len(),
{
    if msgs.len() == 0 {
        0
    } else {
        note_off_count(msgs.drop_last()) + if msgs.last().is_note_off() {
            1nat
        } else {
            0nat
        }
    }
}

/// A playback of a fixed sequence of events.
pub struct PlaybackDriver {
    events: Vec<NoteEvent>,
    position: usize,
    sounding: bool,
    phase: PlaybackPhase,
}

impl View for PlaybackDriver {
    type V = PlaybackState;

    closed spec fn view(&self) -> PlaybackState {
        PlaybackState {
            position: self.position as nat,
            sounding: self.sounding,
            phase: self.phase,
        }
    }
}

impl PlaybackDriver {
    /// The events being played.
    pub closed spec fn events(&self) -> Seq<NoteEvent> {
        self.events@
    }

    /// The driver's state is one that a playback of its events can be in.
    pub closed spec fn wf(&self) -> bool {
        state_valid(self.events@, self@)
    }

    /// Starts a playback of `events`: playing from the first, or finished at
    /// once when there is none.
    pub fn new(events: Vec<NoteEvent>) -> (r: PlaybackDriver)
        ensures
            r.wf(),
            r.events() == events@,
            r@ == initial_state(events@),
    {
        let phase = if events.len() == 0 {
            PlaybackPhase::Finished
        } else {
            PlaybackPhase::Playing
        };
        PlaybackDriver { events, position: 0, sounding: false, phase }
    }

    /// Reports `event` and returns what to do next.
    pub fn step(&mut self, event: PlaybackEvent) -> (a: PlaybackAction)
        requires
            old(self).wf(),
        ensures
            final(self).wf(),
            final(self).events() == old(self).events(),
            (final(self)@, a) == next_step(old(self).events(), old(self)@, event),
    {
        if self.phase != PlaybackPhase::Playing {
            return PlaybackAction::Ignore;
        }
        if self.sounding {
            if event == PlaybackEvent::Proceed {
                return PlaybackAction::Ignore;
            }
            let n = self.events.len();
            assert(self.position < n);
            let e = self.events[self.position];
            let message = MidiMessage::note_off(e.pitch());
            self.sounding = false;
            self.position = self.position + 1;
            if event == PlaybackEvent::Cancel {
                self.phase = PlaybackPhase::Cancelled;
            } else if self.position == n {
                self.phase = PlaybackPhase::Finished;
            }
            PlaybackAction::NoteOff { message }
        } else {
            match event {
                PlaybackEvent::Proceed => {
                    let e = self.events[self.position];
                    self.sounding = true;
                    PlaybackAction::NoteOn {
                        message: MidiMessage::note_on(e.pitch(), e.velocity()),
                        pitch: e.pitch(),
                        hold_ms: e.duration_ms(),
                    }
                },
                PlaybackEvent::Cancel => {
                    self.phase = PlaybackPhase::Cancelled;
                    PlaybackAction::Stop
                },
                PlaybackEvent::HoldElapsed => PlaybackAction::Ignore,
            }
        }
    }

    /// Reports each of `reports` in turn and collects every message that the
    /// actions send, in order.
    pub fn feed(&mut self, reports: &[PlaybackEvent]) -> (sent: Vec<MidiMessage>)
        requires
            old(self).wf(),
        ensures
            final(self).wf(),
            final(self).events() == old(self).events(),
            (final(self)@, sent@) == replay(old(self).events(), old(self)@, reports@),
    {
        let ghost start = self@;
        let mut sent: Vec<MidiMessage> = Vec::new();
        let mut i: usize = 0;
        assert(reports@.take(0) =~= Seq::<PlaybackEvent>::empty());
        while i < reports.len()
            invariant
                i <= reports@.len(),
                self.wf(),
                self.events() == old(self).events(),
                start == old(self)@,
                (self@, sent@) == replay(self.events(), start, reports@.take(i as int)),
            decreases reports@.len() - i,
        {
            let a = self.step(reports[i]);
            proof {
                lemma_replay_push(self.events(), start, reports@.take(i as int), reports@[i as int]);
                assert(reports@.take(i as int).push(reports@[i as int]) =~= reports@.take(
                    i as int + 1,
                ));
            }
            match a {
                PlaybackAction::NoteOn { message, .. } => {
                    sent.push(message);
                },
                PlaybackAction::NoteOff { message } => {
                    sent.push(message);
                },
                _ => {},
            }
            proof {
                assert(sent@ =~= replay(self.events(), start, reports@.take(i as int + 1)).1);
            }
            i = i + 1;
        }
        assert(reports@.take(reports@.len() as int) =~= reports@);
        sent
    }

    /// The phase of the playback.
    pub fn phase(&self) -> (r: PlaybackPhase)
        ensures
            r == self@.phase,
    {
        self.phase
    }

    /// How many events have completed.
    pub fn position(&self) -> (r: usize)
        ensures
            r == self@.position,
    {
        self.position
    }

    /// Whether a note is sounding.
    pub fn is_sounding(&self) -> (r: bool)
        ensures
            r == self@.sounding,
    {
        self.sounding
    }

    /// Whether the playback has ended, finished or cancelled.
    pub fn is_done(&self) -> (r: bool)
        ensures
            r == (self@.phase != PlaybackPhase::Playing),
    {
        self.phase != PlaybackPhase::Playing
    }
}

proof fn lemma_replay_push(
    events: Seq<NoteEvent>,
    s: PlaybackState,
    inputs: Seq<PlaybackEvent>,
    ev: PlaybackEvent,
)
    ensures
        replay(events, s, inputs.push(ev)) == ({
            let before = replay(events, s, inputs);
            let step = next_step(events, before.0, ev);
            (step.0, before.1 + action_messages(step.1))
        }),
{
    assert(inputs.push(ev).drop_last() =~= inputs);
}

/// Whatever the front end reports, in whatever order, the messages sent so
/// far are the note-on and note-off pairs of the completed events, followed
/// by the note-on of the event that is sounding, if one is. A finished or
/// cancelled playback therefore leaves no note sounding.
pub proof fn lemma_replay_balanced(events: Seq<NoteEvent>, inputs: Seq<PlaybackEvent>)
    ensures
        ({
            let (s, msgs) = replay(events, initial_state(events), inputs);
            &&& state_valid(events, s)
            &&& msgs == paired_messages(events, s.position) + if s.sounding {
                seq![on_message(events[s.position as int])]
            } else {
                Seq::empty()
            }
            &&& s.phase != PlaybackPhase::Playing ==> msgs == paired_messages(events, s.position)
        }),
    decreases inputs.len(),
{
    let init = initial_state(events);
    if inputs.len() == 0 {
        assert(paired_messages(events, 0) + Seq::<MidiMessage>::empty() =~= Seq::<
            MidiMessage,
        >::empty());
    } else {
        let prefix = inputs.drop_last();
        let ev = inputs.last();
        lemma_replay_balanced(events, prefix);
        assert(prefix.push(ev) =~= inputs);
        lemma_replay_push(events, init, prefix, ev);
        let (s0, m0) = replay(events, init, prefix);
        let (s1, a) = next_step(events, s0, ev);
        let p0 = paired_messages(events, s0.position);
        if s0.phase == PlaybackPhase::Playing {
            if s0.sounding {
                if ev != PlaybackEvent::Proceed {
                    assert(paired_messages(events, s1.position) == p0 + seq![
                        on_message(events[s0.position as int]),
                        off_message(events[s0.position as int]),
                    ]);
                    assert(m0 + action_messages(a) =~= paired_messages(events, s1.position));
                }
            } else if ev == PlaybackEvent::Proceed {
                assert(m0 + action_messages(a) =~= p0 + seq![
                    on_message(events[s0.position as int]),
                ]);
            } else {
                assert(m0 + action_messages(a) =~= m0);
            }
        }
        assert(m0 + Seq::<MidiMessage>::empty() =~= m0);
        let (s, msgs) = replay(events, init, inputs);
        assert(!s.sounding ==> paired_messages(events, s.position) + Seq::<MidiMessage>::empty()
            =~= paired_messages(events, s.position));
    }
}

/// The pairs of the first `k` events, laid out: event `i` sends its note-on
/// at place `2i` and its note-off right after, so no note-on follows
/// another before that note is released; there are `k` of each kind.
pub proof fn lemma_paired_messages_layout(events: Seq<NoteEvent>, k: nat)
    requires
        k <= events.len(),
    ensures
        paired_messages(events, k).len() == 2 * k,
        forall|i: int|
            0 <= i < k ==> #[trigger] paired_messages(events, k)[2 * i] == on_message(events[i])
                && paired_messages(events, k)[2 * i + 1] == off_message(events[i]),
        note_on_count(paired_messages(events, k)) == k,
        note_off_count(paired_messages(events, k)) == k,
    decreases k,
{
    if k > 0 {
        let prev = paired_messages(events, (k - 1) as nat);
        let cur = paired_messages(events, k);
        lemma_paired_messages_layout(events, (k - 1) as nat);
        assert forall|i: int| 0 <= i < k implies #[trigger] cur[2 * i] == on_message(events[i])
            && cur[2 * i + 1] == off_message(events[i]) by {
            if i < k - 1 {
                assert(cur[2 * i] == prev[2 * i]);
                assert(cur[2 * i + 1] == prev[2 * i + 1]);
            } else {
                assert(2 * i == prev.len());
                assert(cur[2 * i] == on_message(events[k - 1]));
                assert(cur[2 * i + 1] == off_message(events[k - 1]));
            }
        }
        let mid = prev.push(on_message(events[k - 1]));
        assert(cur.drop_last() =~= mid);
        assert(mid.drop_last() =~= prev);
        assert(cur.last() == off_message(events[k - 1]));
        assert(note_on_count(cur) == note_on_count(mid));
        assert(note_on_count(mid) == note_on_count(prev) + 1);
        assert(note_off_count(cur) == note_off_count(mid) + 1);
        assert(note_off_count(mid) == note_off_count(prev));
    }
}

proof fn lemma_uninterrupted_prefix(events: Seq<NoteEvent>, k: nat)
    requires
        k <= events.len(),
    ensures
        replay(events, initial_state(events), uninterrupted(k)) == (
            PlaybackState {
                position: k,
                sounding: false,
                phase: if k == events.len() {
                    PlaybackPhase::Finished
                } else {
                    PlaybackPhase::Playing
                },
            },
            paired_messages(events, k),
        ),
    decreases k,
{
    let init = initial_state(events);
    if k > 0 {
        let u = uninterrupted((k - 1) as nat);
        lemma_uninterrupted_prefix(events, (k - 1) as nat);
        lemma_replay_push(events, init, u, PlaybackEvent::Proceed);
        lemma_replay_push(events, init, u.push(PlaybackEvent::Proceed), PlaybackEvent::HoldElapsed);
        assert(uninterrupted(k) =~= u.push(PlaybackEvent::Proceed).push(
            PlaybackEvent::HoldElapsed,
        ));
        let e = events[k - 1];
        assert(paired_messages(events, (k - 1) as nat) + seq![on_message(e)] + seq![off_message(e)]
            =~= paired_messages(events, k));
    } else {
        assert(uninterrupted(0) =~= Seq::<PlaybackEvent>::empty());
    }
}

/// Played without interruption, a sequence of `n` events ends finished after
/// sending exactly `n` note-on/note-off pairs, in the order of the events,
/// each note-off right after its note-on.
pub proof fn lemma_uninterrupted_replay(events: Seq<NoteEvent>)
    ensures
        ({
            let (s, msgs) = replay(events, initial_state(events), uninterrupted(events.len()));
            &&& s.phase == PlaybackPhase::Finished
            &&& !s.sounding
            &&& msgs == paired_messages(events, events.len())
            &&& msgs.len() == 2 * events.len()
            &&& forall|i: int|
                0 <= i < events.len() ==> #[trigger] msgs[2 * i] == on_message(events[i]) && msgs[2
                    * i + 1] == off_message(events[i])
        }),
{
    lemma_uninterrupted_prefix(events, events.len());
    lemma_paired_messages_layout(events, events.len());
}

/// Cancelled at the poll before event `k`, a playback ends cancelled having
/// sent the pairs of the `k` events before it: `k` note-ons, as many
/// note-offs, and nothing for event `k` or later.
pub proof fn lemma_cancel_before_event(events: Seq<NoteEvent>, k: nat)
    requires
        k < events.len(),
    ensures
        ({
            let (s, msgs) = replay(
                events,
                initial_state(events),
                uninterrupted(k).push(PlaybackEvent::Cancel),
            );
            &&& s.phase == PlaybackPhase::Cancelled
            &&& !s.sounding
            &&& msgs == paired_messages(events, k)
            &&& note_on_count(msgs) == k
            &&& note_off_count(msgs) == k
        }),
{
    let init = initial_state(events);
    lemma_uninterrupted_prefix(events, k);
    lemma_replay_push(events, init, uninterrupted(k), PlaybackEvent::Cancel);
    assert(paired_messages(events, k) + Seq::<MidiMessage>::empty() =~= paired_messages(
        events,
        k,
    ));
    lemma_paired_messages_layout(events, k);
}

/// Cancelled while event `k` sounds, a playback releases that note and ends
/// cancelled: `k + 1` note-ons and as many note-offs, nothing after.
pub proof fn lemma_cancel_during_event(events: Seq<NoteEvent>, k: nat)
    requires
        k < events.len(),
    ensures
        ({
            let (s, msgs) = replay(
                events,
                initial_state(events),
                uninterrupted(k).push(PlaybackEvent::Proceed).push(PlaybackEvent::Cancel),
            );
            &&& s.phase == PlaybackPhase::Cancelled
            &&& !s.sounding
            &&& msgs == paired_messages(events, k + 1)
            &&& note_on_count(msgs) == k + 1
            &&& note_off_count(msgs) == k + 1
        }),
{
    let init = initial_state(events);
    let u = uninterrupted(k);
    lemma_uninterrupted_prefix(events, k);
    lemma_replay_push(events, init, u, PlaybackEvent::Proceed);
    lemma_replay_push(events, init, u.push(PlaybackEvent::Proceed), PlaybackEvent::Cancel);
    let e = events[k as int];
    assert(paired_messages(events, k) + seq![on_message(e)] + seq![off_message(e)]
        =~= paired_messages(events, k + 1));
    lemma_paired_messages_layout(events, k + 1);
}

} // verus!
