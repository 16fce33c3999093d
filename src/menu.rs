//! Menu text and menu routing: framed menus, the listings of a scale or a
//! progression, and which key leads where.
use vstd::prelude::*;

use crate::catalog::{
    chord_entry, chord_progression_for_key, get_mozart_pieces, piece_data_of, piece_descriptions,
    piece_sequence, piece_titles, scale_entry, scale_for_key, ChordProgression, MozartPiece, Scale,
};
use crate::notes::{event_triples, note_name, note_name_of, NamedSequence};
use crate::text::{decimal_of, push_decimal, trim_of, trimmed};

verus! {

/// `n` copies of `c`.
pub open spec fn repeat_char(c: char, n: nat) -> Seq<char> {
    Seq::new(n, |i: int| c)
}

/// The length of the longest of `items`, zero when there is none.
pub open spec fn longest(items: Seq<Seq<char>>) -> nat
    decreases items.len(),
{
    if items.len() == 0 {
        0
    } else {
        let rest = longest(items.drop_last());
        if items.last().len() > rest {
            items.last().len()
        } else {
            rest
        }
    }
}

/// The inner width of a framed menu: six more than its longest line.
pub open spec fn frame_width(title: Seq<char>, items: Seq<Seq<char>>) -> nat {
    if title.len() > longest(items) {
        title.len() + 6
    } else {
        longest(items) + 6
    }
}

/// `s` centred in `w` columns; where the padding is odd the extra space goes
/// to the right.
pub open spec fn centered(s: Seq<char>, w: nat) -> Seq<char> {
    let pad = (w - s.len()) as nat;
    repeat_char(' ', pad / 2) + s + repeat_char(' ', (pad - pad / 2) as nat)
}

/// `s` padded on the right to `w` columns.
pub open spec fn left_aligned(s: Seq<char>, w: nat) -> Seq<char> {
    s + repeat_char(' ', (w - s.len()) as nat)
}

/// The horizontal border of a frame of inner width `w`.
pub open spec fn border_line(w: nat) -> Seq<char> {
    seq!['+'] + repeat_char('-', w) + seq!['+']
}

/// A line of text inside a frame.
pub open spec fn framed_line(s: Seq<char>) -> Seq<char> {
    seq!['|', ' '] + s + seq![' ', '|']
}

/// The views of a list of strings.
pub open spec fn str_views(items: Seq<&str>) -> Seq<Seq<char>> {
    items.map_values(|s: &str| s@)
}

/// The lines of a framed menu: a border, the centred title, a border, each
/// item left-aligned, and a closing border.
pub open spec fn framed_menu_of(title: Seq<char>, items: Seq<Seq<char>>) -> Seq<Seq<char>> {
    let w = frame_width(title, items);
    seq![border_line(w), framed_line(centered(title, w)), border_line(w)] + items.map_values(
        |s: Seq<char>| framed_line(left_aligned(s, w)),
    ) + seq![border_line(w)]
}

proof fn lemma_longest_bounds(items: Seq<Seq<char>>)
    ensures
        forall|i: int| 0 <= i < items.len() ==> #[trigger] items[i].len() <= longest(items),
        items.len() > 0 ==> exists|i: int| 0 <= i < items.len() && #[trigger] items[i].len() == longest(items),
    decreases items.len(),
{
    if items.len() > 0 {
        let rest = items.drop_last();
        lemma_longest_bounds(rest);
        assert forall|i: int| 0 <= i < items.len() implies #[trigger] items[i].len() <= longest(
            items,
        ) by {
            if i < items.len() - 1 {
                assert(items[i] == rest[i]);
            }
        }
        if items.last().len() <= longest(rest) && rest.len() > 0 {
            let j = choose|j: int| 0 <= j < rest.len() && #[trigger] rest[j].len() == longest(rest);
            assert(items[j] == rest[j]);
        } else if rest.len() == 0 {
            assert(items[0].len() == longest(items));
        } else {
            assert(items[items.len() - 1].len() == longest(items));
        }
    }
}

fn push_repeated(out: &mut String, piece: &str, n: usize)
    requires
        piece@.len() == 1,
    ensures
        final(out)@ == old(out)@ + repeat_char(piece@[0], n as nat),
{
    let mut i: usize = 0;
    while i < n
        invariant
            piece@.len() == 1,
            i <= n,
            out@ == old(out)@ + repeat_char(piece@[0], i as nat),
        decreases n - i,
    {
        out.append(piece);
        assert(old(out)@ + repeat_char(piece@[0], i as nat) + piece@ =~= old(out)@ + repeat_char(
            piece@[0],
            (i + 1) as nat,
        ));
        i = i + 1;
    }
}

fn border(w: usize) -> (r: String)
    ensures
        r@ == border_line(w as nat),
{
    proof {
        reveal_strlit("+");
        reveal_strlit("-");
    }
    let mut out = String::from_str("+");
    push_repeated(&mut out, "-", w);
    out.append("+");
    out
}

fn framed(padded_left: usize, s: &str, padded_right: usize) -> (r: String)
    ensures
        r@ == framed_line(repeat_char(' ', padded_left as nat) + s@ + repeat_char(
            ' ',
            padded_right as nat,
        )),
{
    proof {
        reveal_strlit("| ");
        reveal_strlit(" |");
        reveal_strlit(" ");
    }
    let mut out = String::from_str("| ");
    push_repeated(&mut out, " ", padded_left);
    out.append(s);
    push_repeated(&mut out, " ", padded_right);
    out.append(" |");
    assert(out@ =~= framed_line(repeat_char(' ', padded_left as nat) + s@ + repeat_char(
        ' ',
        padded_right as nat,
    )));
    out
}

/// The lines of a menu framed in a box: the title centred at the top, the
/// items below it, left-aligned. The box is six columns wider than the
/// longest line.
pub fn framed_menu(title: &str, items: &[&str]) -> (r: Vec<String>)
    requires
        title@.len() + 6 <= usize::MAX,
        forall|i: int| 0 <= i < items@.len() ==> #[trigger] items@[i]@.len() + 6 <= usize::MAX,
    ensures
        r@.map_values(|s: String| s@) == framed_menu_of(title@, str_views(items@)),
{
    let ghost views = str_views(items@);
    let mut longest_len: usize = 0;
    let mut i: usize = 0;
    while i < items.len()
        invariant
            i <= items@.len(),
            views == str_views(items@),
            longest_len == longest(views.take(i as int)),
            longest_len + 6 <= usize::MAX,
            forall|j: int| 0 <= j < items@.len() ==> #[trigger] items@[j]@.len() + 6 <= usize::MAX,
        decreases items@.len() - i,
    {
        let n = items[i].unicode_len();
        assert(views.take(i as int + 1).drop_last() =~= views.take(i as int));
        if n > longest_len {
            longest_len = n;
        }
        i = i + 1;
    }
    assert(views.take(items@.len() as int) =~= views);
    let title_len = title.unicode_len();
    let width: usize = if title_len > longest_len {
        title_len + 6
    } else {
        longest_len + 6
    };
    proof {
        lemma_longest_bounds(views);
    }
    let mut lines: Vec<String> = Vec::new();
    lines.push(border(width));
    let pad = width - title_len;
    lines.push(framed(pad / 2, title, pad - pad / 2));
    lines.push(border(width));
    let ghost w = frame_width(title@, views);
    assert(lines@.map_values(|s: String| s@) =~= seq![
        border_line(w),
        framed_line(centered(title@, w)),
        border_line(w),
    ]);
    let mut k: usize = 0;
    while k < items.len()
        invariant
            k <= items@.len(),
            views == str_views(items@),
            width == w,
            w == frame_width(title@, views),
            forall|j: int| 0 <= j < views.len() ==> #[trigger] views[j].len() <= longest(views),
            lines@.map_values(|s: String| s@) == seq![
                border_line(w),
                framed_line(centered(title@, w)),
                border_line(w),
            ] + views.take(k as int).map_values(|s: Seq<char>| framed_line(left_aligned(s, w))),
        decreases items@.len() - k,
    {
        let item = items[k];
        let n = item.unicode_len();
        assert(views[k as int] == item@);
        let line = framed(0, item, width - n);
        proof {
            assert(repeat_char(' ', 0) + item@ =~= item@);
            assert(views[k as int].len() <= longest(views));
            assert(line@ == framed_line(left_aligned(views[k as int], w)));
        }
        let ghost prev = lines@;
        lines.push(line);
        assert(lines@.map_values(|s: String| s@) =~= prev.map_values(|s: String| s@).push(line@));
        assert(views.take(k as int + 1) =~= views.take(k as int).push(views[k as int]));
        assert(views.take(k as int + 1).map_values(|s: Seq<char>| framed_line(left_aligned(s, w)))
            =~= views.take(k as int).map_values(|s: Seq<char>| framed_line(left_aligned(s, w))).push(
            framed_line(left_aligned(views[k as int], w)),
        ));
        assert(lines@.map_values(|s: String| s@) =~= seq![
            border_line(w),
            framed_line(centered(title@, w)),
            border_line(w),
        ] + views.take(k as int + 1).map_values(|s: Seq<char>| framed_line(left_aligned(s, w))));
        k = k + 1;
    }
    assert(views.take(items@.len() as int) =~= views);
    lines.push(border(width));
    assert(lines@.map_values(|s: String| s@) =~= framed_menu_of(title@, views));
    lines
}

fn menu_lines(title: &str, items: Vec<&str>) -> (r: Vec<String>)
    requires
        title@.len() <= 100,
        forall|i: int| 0 <= i < items@.len() ==> #[trigger] items@[i]@.len() <= 100,
    ensures
        r@.map_values(|s: String| s@) == framed_menu_of(title@, str_views(items@)),
{
    framed_menu(title, items.as_slice())
}

/// The items of the main menu.
pub open spec fn main_menu_items() -> Seq<Seq<char>> {
    seq![
        "1. List MIDI Devices"@,
        "2. Learn Scales"@,
        "3. Learn Chord Progressions"@,
        "4. Play Mozart Pieces"@,
        "5. Set Default MIDI Device"@,
        "q. Quit"@,
    ]
}

/// The main menu, framed.
pub fn main_menu() -> (r: Vec<String>)
    ensures
        r@.map_values(|s: String| s@) == framed_menu_of(
            "Maestro Piano Learning Program"@,
            main_menu_items(),
        ),
{
    proof {
        reveal_strlit("Maestro Piano Learning Program");
        reveal_strlit("1. List MIDI Devices");
        reveal_strlit("2. Learn Scales");
        reveal_strlit("3. Learn Chord Progressions");
        reveal_strlit("4. Play Mozart Pieces");
        reveal_strlit("5. Set Default MIDI Device");
        reveal_strlit("q. Quit");
    }
    let items = vec![
        "1. List MIDI Devices",
        "2. Learn Scales",
        "3. Learn Chord Progressions",
        "4. Play Mozart Pieces",
        "5. Set Default MIDI Device",
        "q. Quit",
    ];
    assert(str_views(items@) =~= main_menu_items());
    menu_lines("Maestro Piano Learning Program", items)
}

/// The items of the scale menu.
pub open spec fn scales_menu_items() -> Seq<Seq<char>> {
    seq![
        "1. C Major Scale"@,
        "2. C Minor Scale"@,
        "3. G Major Scale"@,
        "4. A Minor Scale"@,
        "b. Back to Main Menu"@,
    ]
}

/// The scale menu, framed.
pub fn scales_menu() -> (r: Vec<String>)
    ensures
        r@.map_values(|s: String| s@) == framed_menu_of("Scale Learning Menu"@, scales_menu_items()),
{
    proof {
        reveal_strlit("Scale Learning Menu");
        reveal_strlit("1. C Major Scale");
        reveal_strlit("2. C Minor Scale");
        reveal_strlit("3. G Major Scale");
        reveal_strlit("4. A Minor Scale");
        reveal_strlit("b. Back to Main Menu");
    }
    let items = vec![
        "1. C Major Scale",
        "2. C Minor Scale",
        "3. G Major Scale",
        "4. A Minor Scale",
        "b. Back to Main Menu",
    ];
    assert(str_views(items@) =~= scales_menu_items());
    menu_lines("Scale Learning Menu", items)
}

/// The items of the chord progression menu.
pub open spec fn chords_menu_items() -> Seq<Seq<char>> {
    seq![
        "1. I-IV-V (C-F-G)"@,
        "2. ii-V-I (Dm-G-C)"@,
        "3. I-V-vi-IV (C-G-Am-F)"@,
        "b. Back to Main Menu"@,
    ]
}

/// The chord progression menu, framed.
pub fn chords_menu() -> (r: Vec<String>)
    ensures
        r@.map_values(|s: String| s@) == framed_menu_of(
            "Chord Progression Learning Menu"@,
            chords_menu_items(),
        ),
{
    proof {
        reveal_strlit("Chord Progression Learning Menu");
        reveal_strlit("1. I-IV-V (C-F-G)");
        reveal_strlit("2. ii-V-I (Dm-G-C)");
        reveal_strlit("3. I-V-vi-IV (C-G-Am-F)");
        reveal_strlit("b. Back to Main Menu");
    }
    let items = vec![
        "1. I-IV-V (C-F-G)",
        "2. ii-V-I (Dm-G-C)",
        "3. I-V-vi-IV (C-G-Am-F)",
        "b. Back to Main Menu",
    ];
    assert(str_views(items@) =~= chords_menu_items());
    menu_lines("Chord Progression Learning Menu", items)
}

/// The menu line of the piece at position `i`: "1. Title - Description".
pub open spec fn piece_item(i: nat) -> Seq<char> {
    decimal_of(i + 1) + ". "@ + piece_titles()[i as int] + " - "@ + piece_descriptions()[i as int]
}

/// The items of the piece menu: one line for each piece of the catalog, then
/// the way back.
pub open spec fn pieces_menu_items() -> Seq<Seq<char>> {
    seq![piece_item(0), piece_item(1), piece_item(2), "b. Back to Main Menu"@]
}

fn piece_line(number: u64, piece: &MozartPiece) -> (r: String)
    ensures
        r@ == decimal_of(number as nat) + ". "@ + piece.name@ + " - "@ + piece.description@,
{
    let mut line = String::new();
    push_decimal(&mut line, number);
    line.append(". ");
    line.append(piece.name.as_str());
    line.append(" - ");
    line.append(piece.description.as_str());
    line
}

/// The piece menu, framed.
pub fn pieces_menu() -> (r: Vec<String>)
    ensures
        r@.map_values(|s: String| s@) == framed_menu_of("Mozart Pieces Menu"@, pieces_menu_items()),
{
    let pieces = get_mozart_pieces();
    let first = piece_line(1, &pieces[0]);
    let second = piece_line(2, &pieces[1]);
    let third = piece_line(3, &pieces[2]);
    proof {
        reveal_strlit("Mozart Pieces Menu");
        reveal_strlit(". ");
        reveal_strlit(" - ");
        reveal_strlit("b. Back to Main Menu");
        reveal_strlit("Eine Kleine Nachtmusik");
        reveal_strlit("Turkish March");
        reveal_strlit("Symphony No. 40");
        reveal_strlit("First movement of Serenade No. 13 for strings in G major");
        reveal_strlit("Rondo Alla Turca from Piano Sonata No. 11");
        reveal_strlit("First movement of Symphony No. 40 in G minor");
    }
    assert(decimal_of(1) =~= seq!['1']);
    assert(decimal_of(2) =~= seq!['2']);
    assert(decimal_of(3) =~= seq!['3']);
    let items = vec![
        first.as_str(),
        second.as_str(),
        third.as_str(),
        "b. Back to Main Menu",
    ];
    assert(str_views(items@) =~= pieces_menu_items());
    menu_lines("Mozart Pieces Menu", items)
}

/// The names of `notes` in scientific notation, each followed by a space.
pub open spec fn spaced_note_names(notes: Seq<u8>) -> Seq<char>
    decreases notes.len(),
{
    if notes.len() == 0 {
        Seq::empty()
    } else {
        spaced_note_names(notes.drop_last()) + note_name_of(notes.last() as int) + seq![' ']
    }
}

fn push_spaced_note_names(out: &mut String, notes: &Vec<u8>)
    ensures
        final(out)@ == old(out)@ + spaced_note_names(notes@),
{
    let mut i: usize = 0;
    while i < notes.len()
        invariant
            i <= notes@.len(),
            out@ == old(out)@ + spaced_note_names(notes@.take(i as int)),
        decreases notes@.len() - i,
    {
        proof {
            reveal_strlit(" ");
        }
        let ghost before = out@;
        let name = note_name(notes[i]);
        out.append(name.as_str());
        out.append(" ");
        assert(out@ =~= before + note_name_of(notes@[i as int] as int) + seq![' ']);
        assert(spaced_note_names(notes@.take(i as int + 1)) == spaced_note_names(
            notes@.take(i as int + 1).drop_last(),
        ) + note_name_of(notes@.take(i as int + 1).last() as int) + seq![' ']);
        assert(notes@.take(i as int + 1).drop_last() =~= notes@.take(i as int));
        assert(notes@.take(i as int + 1).last() == notes@[i as int]);
        assert(out@ =~= old(out)@ + spaced_note_names(notes@.take(i as int + 1)));
        i = i + 1;
    }
    assert(notes@.take(notes@.len() as int) =~= notes@);
}

/// The text that presents a scale: a blank line, its name, and the names of
/// its notes.
pub open spec fn scale_listing_of(name: Seq<char>, notes: Seq<u8>) -> Seq<char> {
    "\n"@ + name + " Scale:\nNotes: \n"@ + spaced_note_names(notes) + "\n\n"@
}

/// The text that presents `scale`.
pub fn scale_listing(scale: &Scale) -> (r: String)
    ensures
        r@ == scale_listing_of(scale.name@, scale.notes@),
{
    let mut out = String::from_str("\n");
    out.append(scale.name.as_str());
    out.append(" Scale:\nNotes: \n");
    push_spaced_note_names(&mut out, &scale.notes);
    out.append("\n\n");
    out
}

/// One line per chord, numbered from one: "Chord 2: F4 A4 C5 ".
pub open spec fn chord_lines(chords: Seq<Seq<u8>>) -> Seq<char>
    decreases chords.len(),
{
    if chords.len() == 0 {
        Seq::empty()
    } else {
        chord_lines(chords.drop_last()) + "Chord "@ + decimal_of(chords.len()) + ": "@
            + spaced_note_names(chords.last()) + "\n"@
    }
}

/// The text that presents a chord progression: a blank line, its name, and
/// one numbered line per chord.
pub open spec fn chord_listing_of(name: Seq<char>, chords: Seq<Seq<u8>>) -> Seq<char> {
    "\n"@ + name + " Chord Progression:\n"@ + chord_lines(chords) + "\n"@
}

/// The text that presents `progression`.
pub fn chord_listing(progression: &ChordProgression) -> (r: String)
    ensures
        r@ == chord_listing_of(progression.name@, progression.chord_seqs()),
{
    let mut out = String::from_str("\n");
    out.append(progression.name.as_str());
    out.append(" Chord Progression:\n");
    let ghost start = out@;
    let ghost chords = progression.chord_seqs();
    let mut i: usize = 0;
    while i < progression.chords.len()
        invariant
            i <= chords.len(),
            chords == progression.chord_seqs(),
            out@ == start + chord_lines(chords.take(i as int)),
        decreases chords.len() - i,
    {
        proof {
            reveal_strlit("Chord ");
            reveal_strlit(": ");
            reveal_strlit("\n");
        }
        out.append("Chord ");
        push_decimal(&mut out, i as u64 + 1);
        out.append(": ");
        push_spaced_note_names(&mut out, &progression.chords[i]);
        out.append("\n");
        assert(chords.take(i as int + 1).drop_last() =~= chords.take(i as int));
        assert(chords.take(i as int + 1).last() == progression.chords@[i as int]@);
        assert(out@ =~= start + chord_lines(chords.take(i as int + 1)));
        i = i + 1;
    }
    assert(chords.take(chords.len() as int) =~= chords);
    out.append("\n");
    out
}

/// The menu on screen.
#[derive(Clone, Copy, Debug, PartialEq, Eq, Structural)]
pub enum Screen {
    Main,
    Scales,
    Chords,
    Pieces,
}

/// What a key pressed in a menu asks for.
pub enum MenuCommand {
    /// Leave the program.
    Quit,
    /// List the MIDI ports.
    ListDevices,
    /// Ask for the preferred output port.
    SetDefaultDevice,
    /// Show the menu of the new screen.
    ShowMenu,
    /// Walk through this scale.
    LearnScale(Scale),
    /// Walk through this chord progression.
    LearnChords(ChordProgression),
    /// Play this piece.
    PlayPiece(NamedSequence),
    /// The key means nothing here.
    Ignore,
}

/// The screen after `key` is pressed on `screen`.
pub open spec fn next_screen(screen: Screen, key: char) -> Screen {
    match screen {
        Screen::Main => if key == '2' {
            Screen::Scales
        } else if key == '3' {
            Screen::Chords
        } else if key == '4' {
            Screen::Pieces
        } else {
            Screen::Main
        },
        _ => if key == 'b' {
            Screen::Main
        } else {
            screen
        },
    }
}

/// The catalog key of the scale that a digit chooses in the scale menu.
pub open spec fn scale_choice(key: char) -> Option<Seq<char>> {
    if key == '1' {
        Some("c_major"@)
    } else if key == '2' {
        Some("c_minor"@)
    } else if key == '3' {
        Some("g_major"@)
    } else if key == '4' {
        Some("a_minor"@)
    } else {
        None
    }
}

/// The catalog key of the progression that a digit chooses in the chord
/// menu.
pub open spec fn chord_choice(key: char) -> Option<Seq<char>> {
    if key == '1' {
        Some("i_iv_v"@)
    } else if key == '2' {
        Some("ii_v_i"@)
    } else if key == '3' {
        Some("i_v_vi_iv"@)
    } else {
        None
    }
}

/// The position in the catalog of the piece that a digit chooses in the
/// piece menu.
pub open spec fn piece_choice(key: char) -> Option<int> {
    if key == '1' {
        Some(0int)
    } else if key == '2' {
        Some(1int)
    } else if key == '3' {
        Some(2int)
    } else {
        None
    }
}

/// Routes a key pressed on `screen`: the screen shown next and what to do.
/// In the main menu, digits one to five list the ports, open the scale,
/// chord and piece menus, and choose the preferred port; `q` quits. In the
/// other menus a digit chooses an entry and `b` goes back.
pub fn menu_step(screen: Screen, key: char) -> (r: (Screen, MenuCommand))
    ensures
        r.0 == next_screen(screen, key),
        screen == Screen::Main ==> {
            &&& key == 'q' ==> r.1 is Quit
            &&& key == '1' ==> r.1 is ListDevices
            &&& key == '5' ==> r.1 is SetDefaultDevice
            &&& (key == '2' || key == '3' || key == '4') ==> r.1 is ShowMenu
            &&& !(key == 'q' || key == '1' || key == '2' || key == '3' || key == '4' || key == '5')
                ==> r.1 is Ignore
        },
        screen != Screen::Main && key == 'b' ==> r.1 is ShowMenu,
        screen == Screen::Scales && key != 'b' ==> match scale_choice(key) {
            Some(k) => (r.1 matches MenuCommand::LearnScale(s) && (s.name@, s.notes@)
                == scale_entry(k)),
            None => r.1 is Ignore,
        },
        screen == Screen::Chords && key != 'b' ==> match chord_choice(key) {
            Some(k) => (r.1 matches MenuCommand::LearnChords(p) && (p.name@, p.chord_seqs())
                == chord_entry(k)),
            None => r.1 is Ignore,
        },
        screen == Screen::Pieces && key != 'b' ==> match piece_choice(key) {
            Some(i) => (r.1 matches MenuCommand::PlayPiece(p) && p.name@ == piece_titles()[i]
                && event_triples(p.events@) == piece_data_of(piece_titles()[i])),
            None => r.1 is Ignore,
        },
{
    match screen {
        Screen::Main => {
            if key == 'q' {
                (Screen::Main, MenuCommand::Quit)
            } else if key == '1' {
                (Screen::Main, MenuCommand::ListDevices)
            } else if key == '2' {
                (Screen::Scales, MenuCommand::ShowMenu)
            } else if key == '3' {
                (Screen::Chords, MenuCommand::ShowMenu)
            } else if key == '4' {
                (Screen::Pieces, MenuCommand::ShowMenu)
            } else if key == '5' {
                (Screen::Main, MenuCommand::SetDefaultDevice)
            } else {
                (Screen::Main, MenuCommand::Ignore)
            }
        },
        _ => {
            if key == 'b' {
                return (Screen::Main, MenuCommand::ShowMenu);
            }
            let command = match screen {
                Screen::Scales => {
                    let k = if key == '1' {
                        "c_major"
                    } else if key == '2' {
                        "c_minor"
                    } else if key == '3' {
                        "g_major"
                    } else if key == '4' {
                        "a_minor"
                    } else {
                        ""
                    };
                    if k.unicode_len() == 0 {
                        proof {
                            reveal_strlit("c_major");
                            reveal_strlit("c_minor");
                            reveal_strlit("g_major");
                            reveal_strlit("a_minor");
                        }
                        MenuCommand::Ignore
                    } else {
                        proof {
                            reveal_strlit("");
                        }
                        MenuCommand::LearnScale(scale_for_key(k))
                    }
                },
                Screen::Chords => {
                    let k = if key == '1' {
                        "i_iv_v"
                    } else if key == '2' {
                        "ii_v_i"
                    } else if key == '3' {
                        "i_v_vi_iv"
                    } else {
                        ""
                    };
                    if k.unicode_len() == 0 {
                        proof {
                            reveal_strlit("i_iv_v");
                            reveal_strlit("ii_v_i");
                            reveal_strlit("i_v_vi_iv");
                        }
                        MenuCommand::Ignore
                    } else {
                        proof {
                            reveal_strlit("");
                        }
                        MenuCommand::LearnChords(chord_progression_for_key(k))
                    }
                },
                _ => {
                    let title = if key == '1' {
                        "Eine Kleine Nachtmusik"
                    } else if key == '2' {
                        "Turkish March"
                    } else if key == '3' {
                        "Symphony No. 40"
                    } else {
                        ""
                    };
                    if title.unicode_len() == 0 {
                        proof {
                            reveal_strlit("Eine Kleine Nachtmusik");
                            reveal_strlit("Turkish March");
                            reveal_strlit("Symphony No. 40");
                        }
                        MenuCommand::Ignore
                    } else {
                        proof {
                            reveal_strlit("");
                            assert(piece_titles().contains(piece_titles()[0]));
                            assert(piece_titles().contains(piece_titles()[1]));
                            assert(piece_titles().contains(piece_titles()[2]));
                        }
                        match piece_sequence(title) {
                            Ok(p) => MenuCommand::PlayPiece(p),
                            Err(_) => MenuCommand::Ignore,
                        }
                    }
                },
            };
            (screen, command)
        },
    }
}

/// What a line typed in the line-based menus asks for.
pub enum TextMenuCommand {
    /// Show the menu of the new screen.
    ShowMenu,
    /// Present this scale.
    ShowScale(Scale),
    /// Present this chord progression.
    ShowChords(ChordProgression),
    /// Pieces cannot be played in this mode.
    PiecesUnavailable,
    /// Leave the program.
    Quit,
    /// The line means nothing here.
    Invalid,
}

/// The choice that a typed line makes: the line without surrounding white
/// space, when that is a single character.
pub open spec fn typed_choice(line: Seq<char>) -> Option<char> {
    if trim_of(line).len() == 1 {
        Some(trim_of(line)[0])
    } else {
        None
    }
}

/// The screen after a line-based choice on `screen`: in the main menu one
/// opens the scales and two the chords; in those menus five and four go
/// back.
pub open spec fn next_text_screen(screen: Screen, choice: Option<char>) -> Screen {
    match choice {
        Some(c) => match screen {
            Screen::Main => if c == '1' {
                Screen::Scales
            } else if c == '2' {
                Screen::Chords
            } else {
                Screen::Main
            },
            Screen::Scales => if c == '5' {
                Screen::Main
            } else {
                screen
            },
            Screen::Chords => if c == '4' {
                Screen::Main
            } else {
                screen
            },
            Screen::Pieces => Screen::Main,
        },
        None => if screen == Screen::Pieces {
            Screen::Main
        } else {
            screen
        },
    }
}

fn single_char(line: &str) -> (r: Option<char>)
    ensures
        line@.len() == 1 ==> r == Some(line@[0]),
        line@.len() != 1 ==> r is None,
{
    if line.unicode_len() == 1 {
        Some(line.get_char(0))
    } else {
        None
    }
}

/// Routes a line typed in the line-based menus, which have no piece menu:
/// the screen shown next and what to do. In the main menu one and two open
/// the scale and chord menus, three reports that pieces are unavailable and
/// four quits; in the scale menu one to four present a scale and five goes
/// back; in the chord menu one to three present a progression and four goes
/// back. Anything else is invalid.
pub fn text_menu_step(screen: Screen, line: &str) -> (r: (Screen, TextMenuCommand))
    ensures
        r.0 == next_text_screen(screen, typed_choice(line@)),
        match (screen, typed_choice(line@)) {
            (Screen::Main, Some(c)) => if c == '1' || c == '2' {
                r.1 is ShowMenu
            } else if c == '3' {
                r.1 is PiecesUnavailable
            } else if c == '4' {
                r.1 is Quit
            } else {
                r.1 is Invalid
            },
            (Screen::Scales, Some(c)) => if c == '5' {
                r.1 is ShowMenu
            } else {
                match scale_choice(c) {
                    Some(k) => (r.1 matches TextMenuCommand::ShowScale(s) && (s.name@, s.notes@)
                        == scale_entry(k)),
                    None => r.1 is Invalid,
                }
            },
            (Screen::Chords, Some(c)) => if c == '4' {
                r.1 is ShowMenu
            } else {
                match chord_choice(c) {
                    Some(k) => (r.1 matches TextMenuCommand::ShowChords(p) && (p.name@, p.chord_seqs())
                        == chord_entry(k)),
                    None => r.1 is Invalid,
                }
            },
            (Screen::Pieces, _) => r.1 is ShowMenu,
            (_, None) => r.1 is Invalid,
        },
{
    let choice = single_char(trimmed(line));
    if screen == Screen::Pieces {
        return (Screen::Main, TextMenuCommand::ShowMenu);
    }
    let c = match choice {
        Some(c) => c,
        None => {
            return (screen, TextMenuCommand::Invalid);
        },
    };
    match screen {
        Screen::Main => if c == '1' {
            (Screen::Scales, TextMenuCommand::ShowMenu)
        } else if c == '2' {
            (Screen::Chords, TextMenuCommand::ShowMenu)
        } else if c == '3' {
            (Screen::Main, TextMenuCommand::PiecesUnavailable)
        } else if c == '4' {
            (Screen::Main, TextMenuCommand::Quit)
        } else {
            (Screen::Main, TextMenuCommand::Invalid)
        },
        Screen::Scales => if c == '5' {
            (Screen::Main, TextMenuCommand::ShowMenu)
        } else {
            match menu_step(Screen::Scales, c) {
                (_, MenuCommand::LearnScale(s)) => (Screen::Scales, TextMenuCommand::ShowScale(s)),
                _ => (Screen::Scales, TextMenuCommand::Invalid),
            }
        },
        _ => if c == '4' {
            (Screen::Main, TextMenuCommand::ShowMenu)
        } else {
            match menu_step(Screen::Chords, c) {
                (_, MenuCommand::LearnChords(p)) => (Screen::Chords, TextMenuCommand::ShowChords(p)),
                _ => (Screen::Chords, TextMenuCommand::Invalid),
            }
        },
    }
}

} // verus!
