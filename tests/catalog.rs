use maestro::catalog::{
    chord_progression_for_key, get_chord_progression, get_mozart_piece_data, get_mozart_pieces,
    get_scale, piece_sequence, scale_for_key, PieceError,
};

#[test]
fn scales_by_key() {
    let s = get_scale("c_major");
    assert_eq!(s.name, "C Major");
    assert_eq!(s.notes, vec![60, 62, 64, 65, 67, 69, 71, 72]);
    let s = get_scale("c_minor");
    assert_eq!(s.name, "C Minor");
    assert_eq!(s.notes, vec![60, 62, 63, 65, 67, 68, 70, 72]);
    let s = get_scale("g_major");
    assert_eq!(s.name, "G Major");
    assert_eq!(s.notes, vec![67, 69, 71, 72, 74, 76, 78, 79]);
    let s = get_scale("a_minor");
    assert_eq!(s.name, "A Minor");
    assert_eq!(s.notes, vec![57, 59, 60, 62, 64, 65, 67, 69]);
}

#[test]
fn scale_keys_ignore_case() {
    let s = get_scale("G_Major");
    assert_eq!(s.name, "G Major");
    assert_eq!(s.notes, vec![67, 69, 71, 72, 74, 76, 78, 79]);
    assert_eq!(get_scale("A_MINOR").name, "A Minor");
    // the exact-key lookup does not fold case
    assert_eq!(scale_for_key("G_MAJOR").name, "C Major");
}

#[test]
fn unknown_scale_falls_back_to_c_major() {
    let s = get_scale("nonexistent");
    assert_eq!(s.name, "C Major");
    assert_eq!(s.notes, vec![60, 62, 64, 65, 67, 69, 71, 72]);
    assert_eq!(get_scale("").name, "C Major");
}

#[test]
fn chord_progressions_by_key() {
    let p = get_chord_progression("i_iv_v");
    assert_eq!(p.name, "I-IV-V");
    assert_eq!(p.chords, vec![vec![60, 64, 67], vec![65, 69, 72], vec![67, 71, 74]]);
    let p = get_chord_progression("II_V_I");
    assert_eq!(p.name, "ii-V-I");
    assert_eq!(p.chords, vec![vec![62, 65, 69], vec![67, 71, 74], vec![60, 64, 67]]);
    let p = get_chord_progression("i_v_vi_iv");
    assert_eq!(p.name, "I-V-vi-IV");
    assert_eq!(
        p.chords,
        vec![vec![60, 64, 67], vec![67, 71, 74], vec![57, 60, 64], vec![65, 69, 72]]
    );
    let p = get_chord_progression("bogus");
    assert_eq!(p.name, "I-IV-V");
    assert_eq!(chord_progression_for_key("II_V_I").name, "I-IV-V");
}

#[test]
fn mozart_pieces_in_menu_order() {
    let pieces = get_mozart_pieces();
    assert_eq!(pieces.len(), 3);
    assert_eq!(pieces[0].name, "Eine Kleine Nachtmusik");
    assert_eq!(pieces[0].filename, "mozart_eine_kleine.mid");
    assert_eq!(pieces[1].name, "Turkish March");
    assert_eq!(pieces[1].description, "Rondo Alla Turca from Piano Sonata No. 11");
    assert_eq!(pieces[2].name, "Symphony No. 40");
    assert_eq!(pieces[2].filename, "mozart_symphony_40.mid");
}

#[test]
fn mozart_piece_data() {
    let d = get_mozart_piece_data("Eine Kleine Nachtmusik");
    assert_eq!(d.len(), 19);
    assert_eq!(&d[..4], &[(67, 64, 400), (67, 64, 400), (67, 64, 400), (63, 64, 1200)]);
    assert_eq!(d[14], (74, 64, 1600));
    assert_eq!(d[18], (67, 64, 800));
    let d = get_mozart_piece_data("Turkish March");
    assert_eq!(d.len(), 19);
    assert_eq!(d[0], (76, 64, 200));
    assert_eq!(d[9], (60, 64, 200));
    let d = get_mozart_piece_data("Symphony No. 40");
    assert_eq!(d.len(), 15);
    assert_eq!(d[3], (70, 64, 1200));
    assert_eq!(d[14], (70, 64, 600));
    assert!(get_mozart_piece_data("Requiem").is_empty());
    assert!(get_mozart_piece_data("turkish march").is_empty());
}

#[test]
fn piece_sequence_lookup() {
    let s = piece_sequence("Turkish March").unwrap();
    assert_eq!(s.name, "Turkish March");
    assert_eq!(s.events.len(), 19);
    assert_eq!(s.events[0].pitch(), 76);
    assert_eq!(s.events[8].duration_ms(), 400);
    assert_eq!(piece_sequence("nonexistent").err(), Some(PieceError::NotFound));
    assert_eq!(piece_sequence("").err(), Some(PieceError::NotFound));
}
