//! The compiled-in catalog: scales, chord progressions and short melodic
//! pieces, looked up by key.
use vstd::prelude::*;

use crate::notes::{events_from_triples, event_triples, triple_valid, NamedSequence};
use crate::text::text_eq;

verus! {

/// A named ladder of pitches, walked in order and wrapping to the start.
pub struct Scale {
    pub name: String,
    pub notes: Vec<u8>,
}

/// A named sequence of chords, each a group of simultaneous pitches.
pub struct ChordProgression {
    pub name: String,
    pub chords: Vec<Vec<u8>>,
}

/// A catalog entry for a melodic piece.
pub struct MozartPiece {
    pub name: String,
    pub filename: String,
    pub description: String,
}

/// What `str::to_lowercase` returns for a string.
pub uninterp spec fn lower_of(s: Seq<char>) -> Seq<char>;

/// Relies on `str::to_lowercase`: the lower-case mapping of the characters,
/// which depends on them alone.
#[verifier::external_body]
fn lowercase(s: &str) -> (r: String)
    ensures
        r@ == lower_of(s@),
{
    s.to_lowercase()
}

// ---------------------------------------------------------------- pieces

/// The titles of the pieces in the catalog, in menu order.
pub open spec fn piece_titles() -> Seq<Seq<char>> {
    seq!["Eine Kleine Nachtmusik"@, "Turkish March"@, "Symphony No. 40"@]
}

/// The file names of the pieces, in menu order.
pub open spec fn piece_filenames() -> Seq<Seq<char>> {
    seq!["mozart_eine_kleine.mid"@, "mozart_turkish_march.mid"@, "mozart_symphony_40.mid"@]
}

/// The descriptions of the pieces, in menu order.
pub open spec fn piece_descriptions() -> Seq<Seq<char>> {
    seq![
        "First movement of Serenade No. 13 for strings in G major"@,
        "Rondo Alla Turca from Piano Sonata No. 11"@,
        "First movement of Symphony No. 40 in G minor"@,
    ]
}

/// The pieces of the catalog, in menu order.
pub fn get_mozart_pieces() -> (r: Vec<MozartPiece>)
    ensures
        r@.len() == 3,
        forall|i: int|
            0 <= i < 3 ==> {
                &&& #[trigger] r@[i].name@ == piece_titles()[i]
                &&& r@[i].filename@ == piece_filenames()[i]
                &&& r@[i].description@ == piece_descriptions()[i]
            },
{
    vec![
        MozartPiece {
            name: String::from_str("Eine Kleine Nachtmusik"),
            filename: String::from_str("mozart_eine_kleine.mid"),
            description: String::from_str(
                "First movement of Serenade No. 13 for strings in G major",
            ),
        },
        MozartPiece {
            name: String::from_str("Turkish March"),
            filename: String::from_str("mozart_turkish_march.mid"),
            description: String::from_str("Rondo Alla Turca from Piano Sonata No. 11"),
        },
        MozartPiece {
            name: String::from_str("Symphony No. 40"),
            filename: String::from_str("mozart_symphony_40.mid"),
            description: String::from_str("First movement of Symphony No. 40 in G minor"),
        },
    ]
}

/// The theme of "Eine Kleine Nachtmusik" as (pitch, velocity, milliseconds).
pub open spec fn nachtmusik_theme() -> Seq<(u8, u8, u32)> {
    seq![
        (67, 64, 400), (67, 64, 400), (67, 64, 400), (63, 64, 1200),
        (65, 64, 400), (65, 64, 400), (65, 64, 400), (62, 64, 1200),
        (64, 64, 400), (65, 64, 400), (67, 64, 400), (69, 64, 400), (71, 64, 400), (72, 64, 400),
        (74, 64, 1600), (72, 64, 400),
        (71, 64, 400), (69, 64, 400), (67, 64, 800),
    ]
}

/// The theme of the "Turkish March".
pub open spec fn turkish_march_theme() -> Seq<(u8, u8, u32)> {
    seq![
        (76, 64, 200), (75, 64, 200), (76, 64, 200), (75, 64, 200),
        (76, 64, 200), (71, 64, 200), (74, 64, 200), (72, 64, 200),
        (69, 64, 400), (60, 64, 200), (64, 64, 200), (69, 64, 400),
        (71, 64, 400), (62, 64, 200), (66, 64, 200), (71, 64, 400),
        (72, 64, 400), (72, 64, 400), (72, 64, 400),
    ]
}

/// The theme of "Symphony No. 40".
pub open spec fn symphony_40_theme() -> Seq<(u8, u8, u32)> {
    seq![
        (67, 64, 300), (70, 64, 300), (72, 64, 600),
        (70, 64, 1200),
        (65, 64, 300), (68, 64, 300), (70, 64, 600),
        (68, 64, 1200),
        (63, 64, 300), (67, 64, 300), (70, 64, 300), (75, 64, 300),
        (74, 64, 300), (72, 64, 300), (70, 64, 600),
    ]
}

/// The notes of the piece titled `name`; empty for a title not in the
/// catalog.
pub open spec fn piece_data_of(name: Seq<char>) -> Seq<(u8, u8, u32)> {
    if name == piece_titles()[0] {
        nachtmusik_theme()
    } else if name == piece_titles()[1] {
        turkish_march_theme()
    } else if name == piece_titles()[2] {
        symphony_40_theme()
    } else {
        Seq::empty()
    }
}

/// The notes of the piece titled `piece_name`, as (pitch, velocity,
/// milliseconds) in playing order; empty when no piece has that title.
pub fn get_mozart_piece_data(piece_name: &str) -> (r: Vec<(u8, u8, u32)>)
    ensures
        r@ == piece_data_of(piece_name@),
{
    if text_eq(piece_name, "Eine Kleine Nachtmusik") {
        let r = vec![
            (67, 64, 400), (67, 64, 400), (67, 64, 400), (63, 64, 1200),
            (65, 64, 400), (65, 64, 400), (65, 64, 400), (62, 64, 1200),
            (64, 64, 400), (65, 64, 400), (67, 64, 400), (69, 64, 400), (71, 64, 400), (72, 64, 400),
            (74, 64, 1600), (72, 64, 400),
            (71, 64, 400), (69, 64, 400), (67, 64, 800),
        ];
        assert(r@ =~= nachtmusik_theme());
        r
    } else if text_eq(piece_name, "Turkish March") {
        let r = vec![
            (76, 64, 200), (75, 64, 200), (76, 64, 200), (75, 64, 200),
            (76, 64, 200), (71, 64, 200), (74, 64, 200), (72, 64, 200),
            (69, 64, 400), (60, 64, 200), (64, 64, 200), (69, 64, 400),
            (71, 64, 400), (62, 64, 200), (66, 64, 200), (71, 64, 400),
            (72, 64, 400), (72, 64, 400), (72, 64, 400),
        ];
        assert(r@ =~= turkish_march_theme());
        r
    } else if text_eq(piece_name, "Symphony No. 40") {
        let r = vec![
            (67, 64, 300), (70, 64, 300), (72, 64, 600),
            (70, 64, 1200),
            (65, 64, 300), (68, 64, 300), (70, 64, 600),
            (68, 64, 1200),
            (63, 64, 300), (67, 64, 300), (70, 64, 300), (75, 64, 300),
            (74, 64, 300), (72, 64, 300), (70, 64, 600),
        ];
        assert(r@ =~= symphony_40_theme());
        r
    } else {
        Vec::new()
    }
}

// ---------------------------------------------------------------- scales

/// The pitches of C major from middle C, the scale that unknown keys fall
/// back to.
pub open spec fn c_major_notes() -> Seq<u8> {
    seq![60, 62, 64, 65, 67, 69, 71, 72]
}

/// The name and pitches of the scale under a lower-case catalog key; any
/// other key gives C major.
pub open spec fn scale_entry(key: Seq<char>) -> (Seq<char>, Seq<u8>) {
    if key == "c_minor"@ {
        ("C Minor"@, seq![60, 62, 63, 65, 67, 68, 70, 72])
    } else if key == "g_major"@ {
        ("G Major"@, seq![67, 69, 71, 72, 74, 76, 78, 79])
    } else if key == "a_minor"@ {
        ("A Minor"@, seq![57, 59, 60, 62, 64, 65, 67, 69])
    } else {
        ("C Major"@, c_major_notes())
    }
}

fn c_major() -> (r: Scale)
    ensures
        r.name@ == "C Major"@,
        r.notes@ == c_major_notes(),
{
    let r = Scale { name: String::from_str("C Major"), notes: vec![60, 62, 64, 65, 67, 69, 71, 72] };
    assert(r.notes@ =~= c_major_notes());
    r
}

/// The scale under `key`, matched exactly ("c_major", "c_minor", "g_major",
/// "a_minor"); any other key gives C major.
pub fn scale_for_key(key: &str) -> (r: Scale)
    ensures
        (r.name@, r.notes@) == scale_entry(key@),
{
    if text_eq(key, "c_minor") {
        let r = Scale { name: String::from_str("C Minor"), notes: vec![60, 62, 63, 65, 67, 68, 70, 72] };
        assert(r.notes@ =~= scale_entry(key@).1);
        r
    } else if text_eq(key, "g_major") {
        let r = Scale { name: String::from_str("G Major"), notes: vec![67, 69, 71, 72, 74, 76, 78, 79] };
        assert(r.notes@ =~= scale_entry(key@).1);
        r
    } else if text_eq(key, "a_minor") {
        let r = Scale { name: String::from_str("A Minor"), notes: vec![57, 59, 60, 62, 64, 65, 67, 69] };
        assert(r.notes@ =~= scale_entry(key@).1);
        r
    } else {
        c_major()
    }
}

/// The scale under `name`, compared without regard to case; an unknown name
/// gives C major.
pub fn get_scale(name: &str) -> (r: Scale)
    ensures
        (r.name@, r.notes@) == scale_entry(lower_of(name@)),
{
    let key = lowercase(name);
    scale_for_key(key.as_str())
}

// ------------------------------------------------------- chord progressions

impl ChordProgression {
    /// The chords as sequences of pitches.
    pub open spec fn chord_seqs(&self) -> Seq<Seq<u8>> {
        self.chords@.map_values(|c: Vec<u8>| c@)
    }
}

/// The chords of I-IV-V in C, the progression that unknown keys fall back to.
pub open spec fn one_four_five_chords() -> Seq<Seq<u8>> {
    seq![seq![60, 64, 67], seq![65, 69, 72], seq![67, 71, 74]]
}

/// The name and chords of the progression under a lower-case catalog key; any
/// other key gives I-IV-V.
pub open spec fn chord_entry(key: Seq<char>) -> (Seq<char>, Seq<Seq<u8>>) {
    if key == "ii_v_i"@ {
        ("ii-V-I"@, seq![seq![62, 65, 69], seq![67, 71, 74], seq![60, 64, 67]])
    } else if key == "i_v_vi_iv"@ {
        (
            "I-V-vi-IV"@,
            seq![seq![60, 64, 67], seq![67, 71, 74], seq![57, 60, 64], seq![65, 69, 72]],
        )
    } else {
        ("I-IV-V"@, one_four_five_chords())
    }
}

fn one_four_five() -> (r: ChordProgression)
    ensures
        r.name@ == "I-IV-V"@,
        r.chord_seqs() == one_four_five_chords(),
{
    let r = ChordProgression {
        name: String::from_str("I-IV-V"),
        chords: vec![vec![60, 64, 67], vec![65, 69, 72], vec![67, 71, 74]],
    };
    assert(r.chord_seqs()[0] =~= seq![60u8, 64, 67]);
    assert(r.chord_seqs()[1] =~= seq![65u8, 69, 72]);
    assert(r.chord_seqs()[2] =~= seq![67u8, 71, 74]);
    assert(r.chord_seqs() =~= one_four_five_chords());
    r
}

/// The progression under `key`, matched exactly ("i_iv_v", "ii_v_i",
/// "i_v_vi_iv"); any other key gives I-IV-V.
pub fn chord_progression_for_key(key: &str) -> (r: ChordProgression)
    ensures
        (r.name@, r.chord_seqs()) == chord_entry(key@),
{
    if text_eq(key, "ii_v_i") {
        let r = ChordProgression {
            name: String::from_str("ii-V-I"),
            chords: vec![vec![62, 65, 69], vec![67, 71, 74], vec![60, 64, 67]],
        };
        assert(r.chord_seqs()[0] =~= seq![62u8, 65, 69]);
        assert(r.chord_seqs()[1] =~= seq![67u8, 71, 74]);
        assert(r.chord_seqs()[2] =~= seq![60u8, 64, 67]);
        assert(r.chord_seqs() =~= chord_entry(key@).1);
        r
    } else if text_eq(key, "i_v_vi_iv") {
        let r = ChordProgression {
            name: String::from_str("I-V-vi-IV"),
            chords: vec![vec![60, 64, 67], vec![67, 71, 74], vec![57, 60, 64], vec![65, 69, 72]],
        };
        assert(r.chord_seqs()[0] =~= seq![60u8, 64, 67]);
        assert(r.chord_seqs()[1] =~= seq![67u8, 71, 74]);
        assert(r.chord_seqs()[2] =~= seq![57u8, 60, 64]);
        assert(r.chord_seqs()[3] =~= seq![65u8, 69, 72]);
        assert(r.chord_seqs() =~= chord_entry(key@).1);
        r
    } else {
        one_four_five()
    }
}

/// The progression under `name`, compared without regard to case; an unknown
/// name gives I-IV-V.
pub fn get_chord_progression(name: &str) -> (r: ChordProgression)
    ensures
        (r.name@, r.chord_seqs()) == chord_entry(lower_of(name@)),
{
    let key = lowercase(name);
    chord_progression_for_key(key.as_str())
}

// ---------------------------------------------------------------- playback

/// Why a piece could not be made ready to play.
#[derive(Clone, Copy, Debug, PartialEq, Eq, Structural)]
pub enum PieceError {
    /// No piece of the catalog has that title.
    NotFound,
    /// The piece has no notes.
    NoNotes,
}

proof fn lemma_piece_data_valid(name: Seq<char>)
    ensures
        forall|i: int|
            0 <= i < piece_data_of(name).len() ==> triple_valid(#[trigger] piece_data_of(name)[i]),
{
    let d = piece_data_of(name);
    assert forall|i: int| 0 <= i < d.len() implies triple_valid(#[trigger] d[i]) by {
        if name == piece_titles()[0] {
            assert(nachtmusik_theme()[i].0 <= 74 && nachtmusik_theme()[i].1 == 64);
        } else if name == piece_titles()[1] {
            assert(turkish_march_theme()[i].0 <= 76 && turkish_march_theme()[i].1 == 64);
        } else if name == piece_titles()[2] {
            assert(symphony_40_theme()[i].0 <= 75 && symphony_40_theme()[i].1 == 64);
        }
    }
}

/// The piece titled `piece_name` as a sequence ready to play: its title and
/// its events. A title that the catalog does not hold gives `NotFound`.
pub fn piece_sequence(piece_name: &str) -> (r: Result<NamedSequence, PieceError>)
    ensures
        r is Err <==> !piece_titles().contains(piece_name@),
        r matches Err(e) ==> e == PieceError::NotFound,
        r matches Ok(s) ==> s.name@ == piece_name@ && event_triples(s.events@) == piece_data_of(
            piece_name@,
        ) && s.events@.len() > 0,
{
    let pieces = get_mozart_pieces();
    let mut found = false;
    let mut i: usize = 0;
    while i < pieces.len()
        invariant
            pieces@.len() == 3,
            i <= 3,
            forall|j: int|
                0 <= j < 3 ==> #[trigger] pieces@[j].name@ == piece_titles()[j],
            found <==> exists|j: int| 0 <= j < i && piece_titles()[j] == piece_name@,
        decreases 3 - i,
    {
        if text_eq(pieces[i].name.as_str(), piece_name) {
            found = true;
        }
        i = i + 1;
    }
    if !found {
        assert forall|j: int| 0 <= j < 3 implies piece_titles()[j] != piece_name@ by {}
        return Err(PieceError::NotFound);
    }
    let data = get_mozart_piece_data(piece_name);
    if data.len() == 0 {
        return Err(PieceError::NoNotes);
    }
    proof {
        lemma_piece_data_valid(piece_name@);
    }
    match events_from_triples(&data) {
        Ok(events) => Ok(NamedSequence { name: String::from_str(piece_name), events }),
        Err(_) => Err(PieceError::NoNotes),
    }
}

} // verus!
