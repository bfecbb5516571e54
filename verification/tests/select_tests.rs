use music_sheets::select::{get_ly_files, matches_filters, FilterConfig};
use music_sheets::sheet::MusicSheet;
use music_sheets::taxonomy::{Clef, Format, Instrument, Tone, Voice};

fn paths() -> Vec<String> {
    vec![
        String::from("marches/Valse/a4/flute_I_ut.ly"),
        String::from("marches/Valse/carnet/flute_I_ut.ly"),
        String::from("marches/Valse/a4/trombone_II_sib_clef_fa.ly"),
        String::from("concerts/Night/a4/flute_II_ut.ly"),
        String::from("concerts/Night/carnet/grosse_caisse.ly"),
        String::from("notes/readme.txt"),
        String::from("marches/Valse/a4/violin_I_ut.ly"),
    ]
}

fn everything() -> FilterConfig {
    FilterConfig::default()
}

#[test]
fn collects_all_decodable_candidates() {
    let got = get_ly_files(&paths(), &everything());
    assert_eq!(got.len(), 5);
    assert_eq!(got[0].pdf, "pdf/a4/Valse_flute_I_ut");
    assert_eq!(got[1].pdf, "pdf/carnet/Valse_flute_I_ut");
    assert_eq!(got[2].pdf, "pdf/a4/Valse_trombone_II_sib_ClefFa");
    assert_eq!(got[3].pdf, "pdf/a4/Night_flute_II_ut");
    assert_eq!(got[4].pdf, "pdf/carnet/Night_grosse_caisse");
}

#[test]
fn conjunctive_filters_equal_intersection_of_field_filters() {
    let both = FilterConfig {
        instrument: Some(Instrument::Flute),
        format: Some(Format::A4),
        ..everything()
    };
    let only_instrument = FilterConfig { instrument: Some(Instrument::Flute), ..everything() };
    let only_format = FilterConfig { format: Some(Format::A4), ..everything() };

    let survivors_both = get_ly_files(&paths(), &both);
    let survivors_i = get_ly_files(&paths(), &only_instrument);
    let survivors_f = get_ly_files(&paths(), &only_format);

    let intersection: Vec<MusicSheet> =
        survivors_i.iter().filter(|m| survivors_f.contains(m)).cloned().collect();
    assert_eq!(survivors_both, intersection);
    assert_eq!(survivors_both.len(), 2);
    assert_eq!(survivors_both[0].pdf, "pdf/a4/Valse_flute_I_ut");
    assert_eq!(survivors_both[1].pdf, "pdf/a4/Night_flute_II_ut");
}

#[test]
fn title_filter_matches_exactly() {
    let cfg = FilterConfig { title: Some(String::from("Night")), ..everything() };
    let got = get_ly_files(&paths(), &cfg);
    assert_eq!(got.len(), 2);
    assert!(got.iter().all(|m| m.title == "Night"));
}

#[test]
fn voice_tone_and_clef_filters_match_exactly() {
    let voice_cfg = FilterConfig { voice: Some(Voice::II), ..everything() };
    let got = get_ly_files(&paths(), &voice_cfg);
    assert_eq!(got.len(), 2);

    let tone_cfg = FilterConfig { tone: Some(Tone::Sib), ..everything() };
    let got = get_ly_files(&paths(), &tone_cfg);
    assert_eq!(got.len(), 1);
    assert_eq!(got[0].instrument, Instrument::Trombone);

    let clef_cfg = FilterConfig { clef: Some(Clef::ClefDrums), ..everything() };
    let got = get_ly_files(&paths(), &clef_cfg);
    assert_eq!(got.len(), 1);
    assert_eq!(got[0].instrument, Instrument::GrosseCaisse);
}

#[test]
fn percussion_never_matches_a_voice_filter() {
    let sheet = MusicSheet::try_from(String::from("concerts/Night/carnet/grosse_caisse.ly")).unwrap();
    let cfg = FilterConfig { voice: Some(Voice::I), ..everything() };
    assert!(!matches_filters(&sheet, &cfg));
    assert!(matches_filters(&sheet, &everything()));
}

#[test]
fn limit_keeps_the_first_records_in_input_order() {
    let cfg = FilterConfig { limit: Some(2), ..everything() };
    let got = get_ly_files(&paths(), &cfg);
    assert_eq!(got.len(), 2);
    assert_eq!(got[0].pdf, "pdf/a4/Valse_flute_I_ut");
    assert_eq!(got[1].pdf, "pdf/carnet/Valse_flute_I_ut");

    let big = FilterConfig { limit: Some(100), ..everything() };
    assert_eq!(get_ly_files(&paths(), &big).len(), 5);

    let zero = FilterConfig { limit: Some(0), ..everything() };
    assert_eq!(get_ly_files(&paths(), &zero).len(), 0);
}
