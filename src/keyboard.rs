//! The keyboard renderer: maps a set of sounding pitches to a fixed-width
//! ASCII picture of two octaves of piano keys.
use vstd::prelude::*;

use crate::notes::{is_white, is_white_key, note_name, note_name_of, pitch_class_name, pitch_class_text};
use crate::text::{decimal_of, push_decimal};

verus! {

/// The lowest pitch drawn (C3).
pub const KEYBOARD_LOW: u8 = 48;

/// The highest pitch drawn (C5).
pub const KEYBOARD_HIGH: u8 = 72;

/// The number of keys drawn.
pub const KEYBOARD_KEYS: u8 = 25;

/// The three rows of the picture.
#[derive(Clone, Copy, Debug, PartialEq, Eq, Structural)]
pub enum KeyRow {
    /// White keys: a filled square where sounding, a hollow one otherwise.
    White,
    /// Black keys: a filled square where sounding, a small square otherwise.
    Black,
    /// The letter of each white key.
    Names,
}

/// The two characters that a pitch occupies in a row, given whether it is
/// sounding.
pub open spec fn cell_of(row: KeyRow, p: int, sounding: bool) -> Seq<char> {
    match row {
        KeyRow::White => if !is_white(p) {
            seq![' ', ' ']
        } else if sounding {
            seq!['■', ' ']
        } else {
            seq!['□', ' ']
        },
        KeyRow::Black => if is_white(p) {
            seq![' ', ' ']
        } else if sounding {
            seq!['■', ' ']
        } else {
            seq!['▪', ' ']
        },
        KeyRow::Names => if is_white(p) {
            pitch_class_name(p % 12) + seq![' ']
        } else {
            seq![' ', ' ']
        },
    }
}

/// The two characters that a pitch occupies in a row when `active` sound.
pub open spec fn key_cell(row: KeyRow, p: int, active: Seq<u8>) -> Seq<char> {
    cell_of(row, p, active.contains(p as u8))
}

/// The cells of the first `k` keys of a row, from the lowest pitch drawn.
pub open spec fn row_prefix(row: KeyRow, active: Seq<u8>, k: nat) -> Seq<char>
    decreases k,
{
    if k == 0 {
        Seq::empty()
    } else {
        row_prefix(row, active, (k - 1) as nat) + key_cell(row, 48 + k - 1, active)
    }
}

/// A whole row of the picture for the sounding pitches `active`.
pub open spec fn keyboard_row(row: KeyRow, active: Seq<u8>) -> Seq<char> {
    row_prefix(row, active, 25)
}

/// The status line for a sounding pitch: "Playing: C4 (MIDI: 60)".
pub open spec fn status_line_of(note: u8) -> Seq<char> {
    "Playing: "@ + note_name_of(note as int) + " (MIDI: "@ + decimal_of(note as nat) + ")"@
}

/// One picture of the keyboard.
pub struct KeyboardFrame {
    pub white_row: String,
    pub black_row: String,
    pub names_row: String,
}

impl KeyboardFrame {
    /// The frame as its three rows, top to bottom.
    pub open spec fn rows(&self) -> (Seq<char>, Seq<char>, Seq<char>) {
        (self.white_row@, self.black_row@, self.names_row@)
    }
}

/// The picture for the sounding pitches `active`, top to bottom.
pub open spec fn keyboard_frame(active: Seq<u8>) -> (Seq<char>, Seq<char>, Seq<char>) {
    (
        keyboard_row(KeyRow::White, active),
        keyboard_row(KeyRow::Black, active),
        keyboard_row(KeyRow::Names, active),
    )
}

/// Whether `p` is among `active`.
pub fn contains_pitch(active: &[u8], p: u8) -> (r: bool)
    ensures
        r == active@.contains(p),
{
    let mut i: usize = 0;
    while i < active.len()
        invariant
            i <= active@.len(),
            forall|j: int| 0 <= j < i ==> active@[j] != p,
        decreases active@.len() - i,
    {
        if active[i] == p {
            assert(active@[i as int] == p);
            return true;
        }
        i = i + 1;
    }
    false
}

fn cell_text(row: KeyRow, p: u8, sounding: bool) -> (r: &'static str)
    ensures
        row != KeyRow::Names ==> r@ == cell_of(row, p as int, sounding),
        row == KeyRow::Names ==> r@ == seq![' ', ' '],
{
    proof {
        reveal_strlit("■ ");
        reveal_strlit("□ ");
        reveal_strlit("▪ ");
        reveal_strlit("  ");
    }
    let white = is_white_key(p);
    match row {
        KeyRow::White => if !white {
            "  "
        } else if sounding {
            "■ "
        } else {
            "□ "
        },
        KeyRow::Black => if white {
            "  "
        } else if sounding {
            "■ "
        } else {
            "▪ "
        },
        KeyRow::Names => "  ",
    }
}

/// Draws the keyboard with the pitches of `active` sounding. Pitches outside
/// the drawn range are left out; order and repetition in `active` do not
/// matter.
pub fn render_keyboard(active: &[u8]) -> (f: KeyboardFrame)
    ensures
        f.rows() == keyboard_frame(active@),
{
    let mut white_row = String::new();
    let mut black_row = String::new();
    let mut names_row = String::new();
    let mut k: u8 = 0;
    while k < KEYBOARD_KEYS
        invariant
            k <= 25,
            white_row@ == row_prefix(KeyRow::White, active@, k as nat),
            black_row@ == row_prefix(KeyRow::Black, active@, k as nat),
            names_row@ == row_prefix(KeyRow::Names, active@, k as nat),
        decreases 25 - k,
    {
        let p: u8 = KEYBOARD_LOW + k;
        let sounding = contains_pitch(active, p);
        white_row.append(cell_text(KeyRow::White, p, sounding));
        black_row.append(cell_text(KeyRow::Black, p, sounding));
        if is_white_key(p) {
            proof {
                reveal_strlit(" ");
            }
            names_row.append(pitch_class_text(p));
            names_row.append(" ");
        } else {
            names_row.append(cell_text(KeyRow::Names, p, sounding));
        }
        k = k + 1;
    }
    KeyboardFrame { white_row, black_row, names_row }
}

/// The line that reports a sounding pitch under the keyboard.
pub fn status_line(note: u8) -> (r: String)
    ensures
        r@ == status_line_of(note),
{
    let mut out = String::from_str("Playing: ");
    let name = note_name(note);
    out.append(name.as_str());
    out.append(" (MIDI: ");
    push_decimal(&mut out, note as u64);
    out.append(")");
    out
}

proof fn lemma_row_prefix_agrees(row: KeyRow, a: Seq<u8>, b: Seq<u8>, k: nat)
    requires
        k <= 25,
        forall|q: u8| 48 <= q <= 72 ==> (a.contains(q) <==> b.contains(q)),
    ensures
        row_prefix(row, a, k) == row_prefix(row, b, k),
    decreases k,
{
    if k > 0 {
        lemma_row_prefix_agrees(row, a, b, (k - 1) as nat);
        let q = (48 + k - 1) as u8;
        assert(a.contains(q) <==> b.contains(q));
    }
}

/// The picture depends only on which drawn pitches sound: two sets of
/// sounding pitches that agree on the pitches from 48 to 72 give the same
/// picture, whatever else they hold.
pub proof fn lemma_frame_depends_on_drawn_pitches(a: Seq<u8>, b: Seq<u8>)
    requires
        forall|q: u8| 48 <= q <= 72 ==> (a.contains(q) <==> b.contains(q)),
    ensures
        keyboard_frame(a) == keyboard_frame(b),
{
    lemma_row_prefix_agrees(KeyRow::White, a, b, 25);
    lemma_row_prefix_agrees(KeyRow::Black, a, b, 25);
    lemma_row_prefix_agrees(KeyRow::Names, a, b, 25);
}

/// Rendering is a function of the set of sounding pitches: the same set, in
/// any order and with any repetition, gives the same picture.
pub proof fn lemma_render_deterministic(a: Seq<u8>, b: Seq<u8>)
    requires
        a.to_set() == b.to_set(),
    ensures
        keyboard_frame(a) == keyboard_frame(b),
{
    broadcast use vstd::set::group_set_axioms;

    assert forall|q: u8| 48 <= q <= 72 implies (a.contains(q) <==> b.contains(q)) by {
        assert(a.to_set().contains(q) <==> a.contains(q));
        assert(b.to_set().contains(q) <==> b.contains(q));
    }
    lemma_frame_depends_on_drawn_pitches(a, b);
}

proof fn lemma_silent_prefix(row: KeyRow, k: nat)
    requires
        row != KeyRow::Names,
    ensures
        row_prefix(row, Seq::empty(), k).len() == 2 * k,
        forall|i: int| 0 <= i < 2 * k ==> #[trigger] row_prefix(row, Seq::empty(), k)[i] != '■',
    decreases k,
{
    if k > 0 {
        lemma_silent_prefix(row, (k - 1) as nat);
        let p = 48 + k - 1;
        let empty = Seq::<u8>::empty();
        assert(!empty.contains(p as u8));
        let prev = row_prefix(row, empty, (k - 1) as nat);
        let cell = key_cell(row, p, empty);
        assert forall|i: int| 0 <= i < 2 * k implies #[trigger] row_prefix(row, empty, k)[i]
            != '■' by {
            if i >= prev.len() {
                assert(row_prefix(row, empty, k)[i] == cell[i - prev.len()]);
            } else {
                assert(row_prefix(row, empty, k)[i] == prev[i]);
            }
        }
    }
}

/// With nothing sounding the picture highlights no key: neither key row holds
/// a filled square.
pub proof fn lemma_silent_frame_highlights_nothing()
    ensures
        !keyboard_row(KeyRow::White, Seq::empty()).contains('■'),
        !keyboard_row(KeyRow::Black, Seq::empty()).contains('■'),
{
    lemma_silent_prefix(KeyRow::White, 25);
    lemma_silent_prefix(KeyRow::Black, 25);
}

} // verus!
