use music_sheets::decode::DecodeError;
use music_sheets::decode::is_candidate;
use music_sheets::sheet::MusicSheet;
use music_sheets::taxonomy::{Category, Clef, Format, Instrument, Tone, Voice};

fn decode(path: &str) -> Result<MusicSheet, DecodeError> {
    MusicSheet::try_from(String::from(path))
}

#[test]
fn decodes_saxophone_alto_march() {
    let m = decode("marches/Valse/a4/saxophone_alto_I_ut.ly").unwrap();
    assert_eq!(m.instrument, Instrument::SaxophoneAlto);
    assert_eq!(m.voice, Some(Voice::I));
    assert_eq!(m.tone, Some(Tone::Ut));
    assert_eq!(m.clef, Clef::ClefSol);
    assert_eq!(m.format, Format::A4);
    assert_eq!(m.category, Category::Marches);
    assert_eq!(m.title, "Valse");
    assert_eq!(m.pdf, "pdf/a4/Valse_saxophone_alto_I_ut");
    assert_eq!(m.source, "marches/Valse/a4/saxophone_alto_I_ut.ly");
}

#[test]
fn decodes_grosse_caisse_as_percussion() {
    let m = decode("concerts/Night/carnet/grosse_caisse.ly").unwrap();
    assert_eq!(m.instrument, Instrument::GrosseCaisse);
    assert_eq!(m.voice, None);
    assert_eq!(m.tone, None);
    assert_eq!(m.clef, Clef::ClefDrums);
    assert_eq!(m.format, Format::Carnet);
    assert_eq!(m.category, Category::Concerts);
    assert_eq!(m.pdf, "pdf/carnet/Night_grosse_caisse");
}

#[test]
fn decodes_caisse_claire_as_percussion() {
    let m = decode("animations/Fete/a4/caisse_claire.ly").unwrap();
    assert_eq!(m.instrument, Instrument::CaisseClaire);
    assert_eq!(m.voice, None);
    assert_eq!(m.tone, None);
    assert_eq!(m.clef, Clef::ClefDrums);
    assert_eq!(m.pdf, "pdf/a4/Fete_caisse_claire");
}

#[test]
fn percussion_ignores_trailing_tokens() {
    let m = decode("marches/Valse/a4/grosse_caisse_clef_fa.ly").unwrap();
    assert_eq!(m.instrument, Instrument::GrosseCaisse);
    assert_eq!(m.clef, Clef::ClefDrums);
    assert_eq!(m.pdf, "pdf/a4/Valse_grosse_caisse");
}

#[test]
fn trailing_clef_fa_marks_output() {
    let m = decode("marches/Valse/a4/trombone_II_sib_clef_fa.ly").unwrap();
    assert_eq!(m.instrument, Instrument::Trombone);
    assert_eq!(m.voice, Some(Voice::II));
    assert_eq!(m.tone, Some(Tone::Sib));
    assert_eq!(m.clef, Clef::ClefFa);
    assert_eq!(m.pdf, "pdf/a4/Valse_trombone_II_sib_ClefFa");
    assert!(m.pdf.ends_with("_ClefFa"));
}

#[test]
fn sol_and_drum_clefs_leave_no_marker() {
    let sol = decode("marches/Valse/a4/flute_I_ut_clef_sol.ly").unwrap();
    assert_eq!(sol.clef, Clef::ClefSol);
    assert_eq!(sol.pdf, "pdf/a4/Valse_flute_I_ut");
    let drums = decode("concerts/Night/carnet/caisse_claire.ly").unwrap();
    assert_eq!(drums.clef, Clef::ClefDrums);
    assert!(!drums.pdf.contains("Clef"));
    assert!(!sol.pdf.contains("Clef"));
}

#[test]
fn unknown_trailing_tokens_fall_back_to_sol_clef() {
    let m = decode("marches/Valse/a4/flute_I_ut_weird_stuff.ly").unwrap();
    assert_eq!(m.clef, Clef::ClefSol);
    assert_eq!(m.pdf, "pdf/a4/Valse_flute_I_ut");
}

#[test]
fn explicit_drum_clef_token_is_kept() {
    let m = decode("marches/Valse/a4/trombone_I_ut_clef_drums.ly").unwrap();
    assert_eq!(m.clef, Clef::ClefDrums);
    assert_eq!(m.pdf, "pdf/a4/Valse_trombone_I_ut");
}

#[test]
fn decodes_two_token_saxophones() {
    let m = decode("concerts/Aria/carnet/saxophone_baryton_Solo_mib.ly").unwrap();
    assert_eq!(m.instrument, Instrument::SaxophoneBaryton);
    assert_eq!(m.voice, Some(Voice::Solo));
    assert_eq!(m.tone, Some(Tone::Mib));
    assert_eq!(m.pdf, "pdf/carnet/Aria_saxophone_baryton_Solo_mib");
}

#[test]
fn same_fields_give_same_output_path() {
    let a = decode("marches/Valse/a4/flute_I_ut.ly").unwrap();
    let b = decode("concerts/Valse/a4/flute_I_ut.ly").unwrap();
    assert_eq!(a.pdf, b.pdf);
    assert_eq!(a.title, b.title);
    assert_ne!(a.category, b.category);
}

#[test]
fn decodes_from_a_deeper_root() {
    let m = decode("music/marches/Valse/a4/flute_I_ut.ly").unwrap();
    assert_eq!(m.category, Category::Marches);
    assert_eq!(m.title, "Valse");
    assert_eq!(m.pdf, "pdf/a4/Valse_flute_I_ut");
    assert_eq!(m.source, "music/marches/Valse/a4/flute_I_ut.ly");
}

#[test]
fn titles_are_free_form() {
    let m = decode("concerts/La Marche du Soir/carnet/cor_III_mib.ly").unwrap();
    assert_eq!(m.title, "La Marche du Soir");
    assert_eq!(m.instrument, Instrument::Cor);
    assert_eq!(m.voice, Some(Voice::III));
    assert_eq!(m.pdf, "pdf/carnet/La Marche du Soir_cor_III_mib");
}

#[test]
fn rejects_missing_suffix() {
    assert_eq!(decode("marches/Valse/a4/flute_I_ut.txt"), Err(DecodeError::BadSuffix));
    assert_eq!(decode("marches/Valse/a4/flute_I_ut"), Err(DecodeError::BadSuffix));
}

#[test]
fn rejects_short_paths() {
    assert_eq!(decode("a4/flute_I_ut.ly"), Err(DecodeError::MissingComponent));
    assert_eq!(decode("Valse/a4/flute_I_ut.ly"), Err(DecodeError::MissingComponent));
    assert_eq!(decode("flute_I_ut.ly"), Err(DecodeError::MissingComponent));
}

#[test]
fn rejects_unknown_format() {
    assert_eq!(decode("marches/Valse/b5/flute_I_ut.ly"), Err(DecodeError::UnknownFormat));
    assert_eq!(decode("marches/Valse/A4/flute_I_ut.ly"), Err(DecodeError::UnknownFormat));
}

#[test]
fn rejects_unknown_category() {
    assert_eq!(decode("waltzes/Valse/a4/flute_I_ut.ly"), Err(DecodeError::UnknownCategory));
    assert_eq!(decode("march/Valse/a4/flute_I_ut.ly"), Err(DecodeError::UnknownCategory));
}

#[test]
fn rejects_unknown_instrument() {
    assert_eq!(decode("marches/Valse/a4/violin_I_ut.ly"), Err(DecodeError::UnknownInstrument));
    assert_eq!(decode("marches/Valse/a4/saxophone_basse_I_ut.ly"), Err(DecodeError::UnknownInstrument));
}

#[test]
fn rejects_lone_instrument_prefix() {
    assert_eq!(decode("marches/Valse/a4/saxophone.ly"), Err(DecodeError::MissingInstrument));
    assert_eq!(decode("marches/Valse/a4/grosse.ly"), Err(DecodeError::MissingInstrument));
}

#[test]
fn rejects_missing_voice_and_tone() {
    assert_eq!(decode("marches/Valse/a4/flute.ly"), Err(DecodeError::MissingVoice));
    assert_eq!(decode("marches/Valse/a4/flute_I.ly"), Err(DecodeError::MissingTone));
}

#[test]
fn rejects_unknown_voice_and_tone() {
    assert_eq!(decode("marches/Valse/a4/flute_IV_ut.ly"), Err(DecodeError::UnknownVoice));
    assert_eq!(decode("marches/Valse/a4/trombone_ii_sib_clef_fa.ly"), Err(DecodeError::UnknownVoice));
    assert_eq!(decode("marches/Valse/a4/flute_I_do.ly"), Err(DecodeError::UnknownTone));
}

#[test]
fn candidate_set_needs_suffix_and_format_directory() {
    assert!(is_candidate("music/marches/Valse/a4/flute_I_ut.ly"));
    assert!(is_candidate("x/carnet/y.ly"));
    assert!(!is_candidate("music/marches/Valse/a4/flute_I_ut.txt"));
    assert!(!is_candidate("music/marches/Valse/other/flute_I_ut.ly"));
    assert!(!is_candidate("music/marches/Valse/a4/.ly"));
    assert!(!is_candidate("flute_I_ut.ly"));
    assert!(is_candidate("music/marches/Valse/a4/..ly"));
}
