use music_sheets::taxonomy::{Category, Clef, Format, Instrument, Tone, Voice};

#[test]
fn instrument_tokens_round_trip() {
    let all = [
        Instrument::Baryton,
        Instrument::Basse,
        Instrument::Bugle,
        Instrument::CaisseClaire,
        Instrument::Clarinette,
        Instrument::Contrebasse,
        Instrument::Cor,
        Instrument::Euphonium,
        Instrument::Flute,
        Instrument::GrosseCaisse,
        Instrument::Piccolo,
        Instrument::SaxophoneAlto,
        Instrument::SaxophoneBaryton,
        Instrument::SaxophoneSoprano,
        Instrument::SaxophoneTenor,
        Instrument::Trombone,
        Instrument::Trompette,
        Instrument::Tuba,
    ];
    for i in all {
        assert_eq!(Instrument::from_token(&i.token()), Some(i));
    }
    assert_eq!(Instrument::from_token("violin"), None);
    assert_eq!(Instrument::from_token("Flute"), None);
}

#[test]
fn only_the_two_drums_are_percussion() {
    assert!(Instrument::CaisseClaire.is_percussion());
    assert!(Instrument::GrosseCaisse.is_percussion());
    assert!(!Instrument::Flute.is_percussion());
    assert!(!Instrument::SaxophoneAlto.is_percussion());
}

#[test]
fn voice_tokens_round_trip() {
    for v in [Voice::I, Voice::II, Voice::III, Voice::Solo] {
        assert_eq!(Voice::from_token(&v.token()), Some(v));
    }
    assert_eq!(Voice::from_token("ii"), None);
    assert_eq!(Voice::from_token("IV"), None);
}

#[test]
fn clef_tokens_round_trip() {
    for c in [Clef::ClefFa, Clef::ClefSol, Clef::ClefDrums] {
        assert_eq!(Clef::from_token(&c.token()), Some(c));
    }
    assert_eq!(Clef::from_token(""), None);
    assert_eq!(Clef::from_token("fa"), None);
}

#[test]
fn tone_tokens_round_trip() {
    for t in [Tone::Ut, Tone::Mib, Tone::Fa, Tone::Sib] {
        assert_eq!(Tone::from_token(&t.token()), Some(t));
    }
    assert_eq!(Tone::from_token("do"), None);
}

#[test]
fn format_tokens_round_trip() {
    for f in [Format::A4, Format::Carnet] {
        assert_eq!(Format::from_token(&f.token()), Some(f));
    }
    assert_eq!(Format::from_token("A4"), None);
}

#[test]
fn category_tokens_round_trip() {
    for c in [Category::Concerts, Category::Animations, Category::Marches] {
        assert_eq!(Category::from_token(&c.token()), Some(c));
    }
    assert_eq!(Category::from_token("march"), None);
}
