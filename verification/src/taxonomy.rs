//! The closed taxonomy of the naming convention: instruments, voices,
//! clefs, tones, page formats and categories, each with an exact parse
//! function over its token and a canonical render function.

use vstd::prelude::*;

verus! {

#[derive(Clone, Copy, Debug, PartialEq, Eq, Structural, Hash)]
pub enum Instrument {
    Baryton,
    Basse,
    Bugle,
    CaisseClaire,
    Clarinette,
    Contrebasse,
    Cor,
    Euphonium,
    Flute,
    GrosseCaisse,
    Piccolo,
    SaxophoneAlto,
    SaxophoneBaryton,
    SaxophoneSoprano,
    SaxophoneTenor,
    Trombone,
    Trompette,
    Tuba,
}

#[derive(Clone, Copy, Debug, PartialEq, Eq, Structural, Hash)]
pub enum Voice {
    I,
    II,
    III,
    Solo,
}

#[derive(Clone, Copy, Debug, PartialEq, Eq, Structural, Hash)]
pub enum Clef {
    ClefFa,
    ClefSol,
    ClefDrums,
}

#[derive(Clone, Copy, Debug, PartialEq, Eq, Structural, Hash)]
pub enum Tone {
    Ut,
    Mib,
    Fa,
    Sib,
}

#[derive(Clone, Copy, Debug, PartialEq, Eq, Structural, Hash)]
pub enum Format {
    A4,
    Carnet,
}

#[derive(Clone, Copy, Debug, PartialEq, Eq, Structural, Hash)]
pub enum Category {
    Concerts,
    Animations,
    Marches,
}

impl Instrument {
    /// The canonical filename token of each instrument.
    pub open spec fn spec_token(self) -> Seq<char> {
        match self {
            Instrument::Baryton => "baryton"@,
            Instrument::Basse => "basse"@,
            Instrument::Bugle => "bugle"@,
            Instrument::CaisseClaire => "caisse_claire"@,
            Instrument::Clarinette => "clarinette"@,
            Instrument::Contrebasse => "contrebasse"@,
            Instrument::Cor => "cor"@,
            Instrument::Euphonium => "euphonium"@,
            Instrument::Flute => "flute"@,
            Instrument::GrosseCaisse => "grosse_caisse"@,
            Instrument::Piccolo => "piccolo"@,
            Instrument::SaxophoneAlto => "saxophone_alto"@,
            Instrument::SaxophoneBaryton => "saxophone_baryton"@,
            Instrument::SaxophoneSoprano => "saxophone_soprano"@,
            Instrument::SaxophoneTenor => "saxophone_tenor"@,
            Instrument::Trombone => "trombone"@,
            Instrument::Trompette => "trompette"@,
            Instrument::Tuba => "tuba"@,
        }
    }

    /// The instrument whose token is `s`, if any.
    pub open spec fn spec_from_token(s: Seq<char>) -> Option<Instrument> {
        if s == "baryton"@ {
            Some(Instrument::Baryton)
        } else if s == "basse"@ {
            Some(Instrument::Basse)
        } else if s == "bugle"@ {
            Some(Instrument::Bugle)
        } else if s == "caisse_claire"@ {
            Some(Instrument::CaisseClaire)
        } else if s == "clarinette"@ {
            Some(Instrument::Clarinette)
        } else if s == "contrebasse"@ {
            Some(Instrument::Contrebasse)
        } else if s == "cor"@ {
            Some(Instrument::Cor)
        } else if s == "euphonium"@ {
            Some(Instrument::Euphonium)
        } else if s == "flute"@ {
            Some(Instrument::Flute)
        } else if s == "grosse_caisse"@ {
            Some(Instrument::GrosseCaisse)
        } else if s == "piccolo"@ {
            Some(Instrument::Piccolo)
        } else if s == "saxophone_alto"@ {
            Some(Instrument::SaxophoneAlto)
        } else if s == "saxophone_baryton"@ {
            Some(Instrument::SaxophoneBaryton)
        } else if s == "saxophone_soprano"@ {
            Some(Instrument::SaxophoneSoprano)
        } else if s == "saxophone_tenor"@ {
            Some(Instrument::SaxophoneTenor)
        } else if s == "trombone"@ {
            Some(Instrument::Trombone)
        } else if s == "trompette"@ {
            Some(Instrument::Trompette)
        } else if s == "tuba"@ {
            Some(Instrument::Tuba)
        } else {
            None
        }
    }

    pub fn token(&self) -> (r: String)
        ensures
            r@ == self.spec_token(),
    {
        match self {
            Instrument::Baryton => "baryton".to_owned(),
            Instrument::Basse => "basse".to_owned(),
            Instrument::Bugle => "bugle".to_owned(),
            Instrument::CaisseClaire => "caisse_claire".to_owned(),
            Instrument::Clarinette => "clarinette".to_owned(),
            Instrument::Contrebasse => "contrebasse".to_owned(),
            Instrument::Cor => "cor".to_owned(),
            Instrument::Euphonium => "euphonium".to_owned(),
            Instrument::Flute => "flute".to_owned(),
            Instrument::GrosseCaisse => "grosse_caisse".to_owned(),
            Instrument::Piccolo => "piccolo".to_owned(),
            Instrument::SaxophoneAlto => "saxophone_alto".to_owned(),
            Instrument::SaxophoneBaryton => "saxophone_baryton".to_owned(),
            Instrument::SaxophoneSoprano => "saxophone_soprano".to_owned(),
            Instrument::SaxophoneTenor => "saxophone_tenor".to_owned(),
            Instrument::Trombone => "trombone".to_owned(),
            Instrument::Trompette => "trompette".to_owned(),
            Instrument::Tuba => "tuba".to_owned(),
        }
    }

    pub fn from_token(s: &str) -> (r: Option<Instrument>)
        ensures
            r == Instrument::spec_from_token(s@),
    {
        if crate::strutil::str_eq(s, "baryton") {
            Some(Instrument::Baryton)
        } else if crate::strutil::str_eq(s, "basse") {
            Some(Instrument::Basse)
        } else if crate::strutil::str_eq(s, "bugle") {
            Some(Instrument::Bugle)
        } else if crate::strutil::str_eq(s, "caisse_claire") {
            Some(Instrument::CaisseClaire)
        } else if crate::strutil::str_eq(s, "clarinette") {
            Some(Instrument::Clarinette)
        } else if crate::strutil::str_eq(s, "contrebasse") {
            Some(Instrument::Contrebasse)
        } else if crate::strutil::str_eq(s, "cor") {
            Some(Instrument::Cor)
        } else if crate::strutil::str_eq(s, "euphonium") {
            Some(Instrument::Euphonium)
        } else if crate::strutil::str_eq(s, "flute") {
            Some(Instrument::Flute)
        } else if crate::strutil::str_eq(s, "grosse_caisse") {
            Some(Instrument::GrosseCaisse)
        } else if crate::strutil::str_eq(s, "piccolo") {
            Some(Instrument::Piccolo)
        } else if crate::strutil::str_eq(s, "saxophone_alto") {
            Some(Instrument::SaxophoneAlto)
        } else if crate::strutil::str_eq(s, "saxophone_baryton") {
            Some(Instrument::SaxophoneBaryton)
        } else if crate::strutil::str_eq(s, "saxophone_soprano") {
            Some(Instrument::SaxophoneSoprano)
        } else if crate::strutil::str_eq(s, "saxophone_tenor") {
            Some(Instrument::SaxophoneTenor)
        } else if crate::strutil::str_eq(s, "trombone") {
            Some(Instrument::Trombone)
        } else if crate::strutil::str_eq(s, "trompette") {
            Some(Instrument::Trompette)
        } else if crate::strutil::str_eq(s, "tuba") {
            Some(Instrument::Tuba)
        } else {
            None
        }
    }

    /// Percussion instruments carry no voice and no tone and read drum clef.
    pub open spec fn spec_is_percussion(self) -> bool {
        self == Instrument::CaisseClaire || self == Instrument::GrosseCaisse
    }

    pub fn is_percussion(&self) -> (r: bool)
        ensures
            r == self.spec_is_percussion(),
    {
        match self {
            Instrument::CaisseClaire => true,
            Instrument::GrosseCaisse => true,
            _ => false,
        }
    }
}

/// Instrument tokens convert both ways: rendering an instrument and parsing
/// the token gives the instrument back, and a token that parses renders to
/// itself.
pub proof fn lemma_instrument_token_bijective(i: Instrument, s: Seq<char>)
    ensures
        Instrument::spec_from_token(i.spec_token()) == Some(i),
        Instrument::spec_from_token(s) matches Some(j) ==> j.spec_token() == s,
{
    reveal_strlit("baryton");
    reveal_strlit("basse");
    reveal_strlit("bugle");
    reveal_strlit("caisse_claire");
    reveal_strlit("clarinette");
    reveal_strlit("contrebasse");
    reveal_strlit("cor");
    reveal_strlit("euphonium");
    reveal_strlit("flute");
    reveal_strlit("grosse_caisse");
    reveal_strlit("piccolo");
    reveal_strlit("saxophone_alto");
    reveal_strlit("saxophone_baryton");
    reveal_strlit("saxophone_soprano");
    reveal_strlit("saxophone_tenor");
    reveal_strlit("trombone");
    reveal_strlit("trompette");
    reveal_strlit("tuba");
    assert("baryton"@.len() == 7);
    assert("basse"@.len() == 5);
    assert("bugle"@.len() == 5);
    assert("caisse_claire"@.len() == 13);
    assert("clarinette"@.len() == 10);
    assert("contrebasse"@.len() == 11);
    assert("cor"@.len() == 3);
    assert("euphonium"@.len() == 9);
    assert("flute"@.len() == 5);
    assert("grosse_caisse"@.len() == 13);
    assert("piccolo"@.len() == 7);
    assert("saxophone_alto"@.len() == 14);
    assert("saxophone_baryton"@.len() == 17);
    assert("saxophone_soprano"@.len() == 17);
    assert("saxophone_tenor"@.len() == 15);
    assert("trombone"@.len() == 8);
    assert("trompette"@.len() == 9);
    assert("tuba"@.len() == 4);
    assert("piccolo"@[0] == 'p' && "baryton"@[0] == 'b');
    assert("bugle"@[1] == 'u' && "basse"@[1] == 'a');
    assert("flute"@[0] == 'f');
    assert("grosse_caisse"@[0] == 'g' && "caisse_claire"@[0] == 'c');
    assert("trompette"@[0] == 't' && "euphonium"@[0] == 'e');
    assert("saxophone_soprano"@[10] == 's' && "saxophone_baryton"@[10] == 'b');
    match i {
        Instrument::Baryton => {
            assert(Instrument::spec_from_token(i.spec_token()) == Some(Instrument::Baryton));
        },
        Instrument::Basse => {
            assert(Instrument::spec_from_token(i.spec_token()) == Some(Instrument::Basse));
        },
        Instrument::Bugle => {
            assert(Instrument::spec_from_token(i.spec_token()) == Some(Instrument::Bugle));
        },
        Instrument::CaisseClaire => {
            assert(Instrument::spec_from_token(i.spec_token()) == Some(Instrument::CaisseClaire));
        },
        Instrument::Clarinette => {
            assert(Instrument::spec_from_token(i.spec_token()) == Some(Instrument::Clarinette));
        },
        Instrument::Contrebasse => {
            assert(Instrument::spec_from_token(i.spec_token()) == Some(Instrument::Contrebasse));
        },
        Instrument::Cor => {
            assert(Instrument::spec_from_token(i.spec_token()) == Some(Instrument::Cor));
        },
        Instrument::Euphonium => {
            assert(Instrument::spec_from_token(i.spec_token()) == Some(Instrument::Euphonium));
        },
        Instrument::Flute => {
            assert(Instrument::spec_from_token(i.spec_token()) == Some(Instrument::Flute));
        },
        Instrument::GrosseCaisse => {
            assert(Instrument::spec_from_token(i.spec_token()) == Some(Instrument::GrosseCaisse));
        },
        Instrument::Piccolo => {
            assert(Instrument::spec_from_token(i.spec_token()) == Some(Instrument::Piccolo));
        },
        Instrument::SaxophoneAlto => {
            assert(Instrument::spec_from_token(i.spec_token()) == Some(Instrument::SaxophoneAlto));
        },
        Instrument::SaxophoneBaryton => {
            assert(Instrument::spec_from_token(i.spec_token()) == Some(Instrument::SaxophoneBaryton));
        },
        Instrument::SaxophoneSoprano => {
            assert(Instrument::spec_from_token(i.spec_token()) == Some(Instrument::SaxophoneSoprano));
        },
        Instrument::SaxophoneTenor => {
            assert(Instrument::spec_from_token(i.spec_token()) == Some(Instrument::SaxophoneTenor));
        },
        Instrument::Trombone => {
            assert(Instrument::spec_from_token(i.spec_token()) == Some(Instrument::Trombone));
        },
        Instrument::Trompette => {
            assert(Instrument::spec_from_token(i.spec_token()) == Some(Instrument::Trompette));
        },
        Instrument::Tuba => {
            assert(Instrument::spec_from_token(i.spec_token()) == Some(Instrument::Tuba));
        },
    }
}

/// Voice tokens convert both ways.
pub proof fn lemma_voice_token_bijective(v: Voice, s: Seq<char>)
    ensures
        Voice::spec_from_token(v.spec_token()) == Some(v),
        Voice::spec_from_token(s) matches Some(w) ==> w.spec_token() == s,
{
    reveal_strlit("I");
    reveal_strlit("II");
    reveal_strlit("III");
    reveal_strlit("Solo");
    assert("I"@.len() == 1);
    assert("II"@.len() == 2);
    assert("III"@.len() == 3);
    assert("Solo"@.len() == 4);
    match v {
        Voice::I => {
            assert(Voice::spec_from_token(v.spec_token()) == Some(Voice::I));
        },
        Voice::II => {
            assert(Voice::spec_from_token(v.spec_token()) == Some(Voice::II));
        },
        Voice::III => {
            assert(Voice::spec_from_token(v.spec_token()) == Some(Voice::III));
        },
        Voice::Solo => {
            assert(Voice::spec_from_token(v.spec_token()) == Some(Voice::Solo));
        },
    }
}

/// Clef tokens convert both ways.
pub proof fn lemma_clef_token_bijective(c: Clef, s: Seq<char>)
    ensures
        Clef::spec_from_token(c.spec_token()) == Some(c),
        Clef::spec_from_token(s) matches Some(d) ==> d.spec_token() == s,
{
    reveal_strlit("clef_fa");
    reveal_strlit("clef_sol");
    reveal_strlit("clef_drums");
    assert("clef_fa"@.len() == 7);
    assert("clef_sol"@.len() == 8);
    assert("clef_drums"@.len() == 10);
    match c {
        Clef::ClefFa => {
            assert(Clef::spec_from_token(c.spec_token()) == Some(Clef::ClefFa));
        },
        Clef::ClefSol => {
            assert(Clef::spec_from_token(c.spec_token()) == Some(Clef::ClefSol));
        },
        Clef::ClefDrums => {
            assert(Clef::spec_from_token(c.spec_token()) == Some(Clef::ClefDrums));
        },
    }
}

/// Tone tokens convert both ways.
pub proof fn lemma_tone_token_bijective(t: Tone, s: Seq<char>)
    ensures
        Tone::spec_from_token(t.spec_token()) == Some(t),
        Tone::spec_from_token(s) matches Some(u) ==> u.spec_token() == s,
{
    reveal_strlit("ut");
    reveal_strlit("mib");
    reveal_strlit("fa");
    reveal_strlit("sib");
    assert("ut"@.len() == 2);
    assert("mib"@.len() == 3);
    assert("fa"@.len() == 2);
    assert("sib"@.len() == 3);
    assert("fa"@[0] == 'f' && "ut"@[0] == 'u');
    assert("sib"@[0] == 's' && "mib"@[0] == 'm');
    match t {
        Tone::Ut => {
            assert(Tone::spec_from_token(t.spec_token()) == Some(Tone::Ut));
        },
        Tone::Mib => {
            assert(Tone::spec_from_token(t.spec_token()) == Some(Tone::Mib));
        },
        Tone::Fa => {
            assert(Tone::spec_from_token(t.spec_token()) == Some(Tone::Fa));
        },
        Tone::Sib => {
            assert(Tone::spec_from_token(t.spec_token()) == Some(Tone::Sib));
        },
    }
}

/// Format tokens convert both ways.
pub proof fn lemma_format_token_bijective(f: Format, s: Seq<char>)
    ensures
        Format::spec_from_token(f.spec_token()) == Some(f),
        Format::spec_from_token(s) matches Some(g) ==> g.spec_token() == s,
{
    reveal_strlit("a4");
    reveal_strlit("carnet");
    assert("a4"@.len() == 2);
    assert("carnet"@.len() == 6);
    match f {
        Format::A4 => {
            assert(Format::spec_from_token(f.spec_token()) == Some(Format::A4));
        },
        Format::Carnet => {
            assert(Format::spec_from_token(f.spec_token()) == Some(Format::Carnet));
        },
    }
}

/// Category tokens convert both ways.
pub proof fn lemma_category_token_bijective(c: Category, s: Seq<char>)
    ensures
        Category::spec_from_token(c.spec_token()) == Some(c),
        Category::spec_from_token(s) matches Some(d) ==> d.spec_token() == s,
{
    reveal_strlit("concerts");
    reveal_strlit("animations");
    reveal_strlit("marches");
    assert("concerts"@.len() == 8);
    assert("animations"@.len() == 10);
    assert("marches"@.len() == 7);
    match c {
        Category::Concerts => {
            assert(Category::spec_from_token(c.spec_token()) == Some(Category::Concerts));
        },
        Category::Animations => {
            assert(Category::spec_from_token(c.spec_token()) == Some(Category::Animations));
        },
        Category::Marches => {
            assert(Category::spec_from_token(c.spec_token()) == Some(Category::Marches));
        },
    }
}

/// The two-token instrument names start with one of these generic prefixes;
/// the decoder joins one more token onto them before the instrument lookup.
/// This list is coupled by hand to the instrument set above: a new two-token
/// instrument needs its prefix added here.
pub open spec fn spec_is_instrument_prefix(s: Seq<char>) -> bool {
    s == "grosse"@ || s == "caisse"@ || s == "saxophone"@
}

pub fn is_instrument_prefix(s: &str) -> (r: bool)
    ensures
        r == spec_is_instrument_prefix(s@),
{
    crate::strutil::str_eq(s, "grosse") || crate::strutil::str_eq(s, "caisse")
        || crate::strutil::str_eq(s, "saxophone")
}

impl Voice {
    /// Voice tokens keep the exact variant spelling.
    pub open spec fn spec_token(self) -> Seq<char> {
        match self {
            Voice::I => "I"@,
            Voice::II => "II"@,
            Voice::III => "III"@,
            Voice::Solo => "Solo"@,
        }
    }

    pub open spec fn spec_from_token(s: Seq<char>) -> Option<Voice> {
        if s == "I"@ {
            Some(Voice::I)
        } else if s == "II"@ {
            Some(Voice::II)
        } else if s == "III"@ {
            Some(Voice::III)
        } else if s == "Solo"@ {
            Some(Voice::Solo)
        } else {
            None
        }
    }

    pub fn token(&self) -> (r: String)
        ensures
            r@ == self.spec_token(),
    {
        match self {
            Voice::I => "I".to_owned(),
            Voice::II => "II".to_owned(),
            Voice::III => "III".to_owned(),
            Voice::Solo => "Solo".to_owned(),
        }
    }

    pub fn from_token(s: &str) -> (r: Option<Voice>)
        ensures
            r == Voice::spec_from_token(s@),
    {
        if crate::strutil::str_eq(s, "I") {
            Some(Voice::I)
        } else if crate::strutil::str_eq(s, "II") {
            Some(Voice::II)
        } else if crate::strutil::str_eq(s, "III") {
            Some(Voice::III)
        } else if crate::strutil::str_eq(s, "Solo") {
            Some(Voice::Solo)
        } else {
            None
        }
    }
}

impl Clef {
    pub open spec fn spec_token(self) -> Seq<char> {
        match self {
            Clef::ClefFa => "clef_fa"@,
            Clef::ClefSol => "clef_sol"@,
            Clef::ClefDrums => "clef_drums"@,
        }
    }

    pub open spec fn spec_from_token(s: Seq<char>) -> Option<Clef> {
        if s == "clef_fa"@ {
            Some(Clef::ClefFa)
        } else if s == "clef_sol"@ {
            Some(Clef::ClefSol)
        } else if s == "clef_drums"@ {
            Some(Clef::ClefDrums)
        } else {
            None
        }
    }

    pub fn token(&self) -> (r: String)
        ensures
            r@ == self.spec_token(),
    {
        match self {
            Clef::ClefFa => "clef_fa".to_owned(),
            Clef::ClefSol => "clef_sol".to_owned(),
            Clef::ClefDrums => "clef_drums".to_owned(),
        }
    }

    pub fn from_token(s: &str) -> (r: Option<Clef>)
        ensures
            r == Clef::spec_from_token(s@),
    {
        if crate::strutil::str_eq(s, "clef_fa") {
            Some(Clef::ClefFa)
        } else if crate::strutil::str_eq(s, "clef_sol") {
            Some(Clef::ClefSol)
        } else if crate::strutil::str_eq(s, "clef_drums") {
            Some(Clef::ClefDrums)
        } else {
            None
        }
    }
}

impl Tone {
    pub open spec fn spec_token(self) -> Seq<char> {
        match self {
            Tone::Ut => "ut"@,
            Tone::Mib => "mib"@,
            Tone::Fa => "fa"@,
            Tone::Sib => "sib"@,
        }
    }

    pub open spec fn spec_from_token(s: Seq<char>) -> Option<Tone> {
        if s == "ut"@ {
            Some(Tone::Ut)
        } else if s == "mib"@ {
            Some(Tone::Mib)
        } else if s == "fa"@ {
            Some(Tone::Fa)
        } else if s == "sib"@ {
            Some(Tone::Sib)
        } else {
            None
        }
    }

    pub fn token(&self) -> (r: String)
        ensures
            r@ == self.spec_token(),
    {
        match self {
            Tone::Ut => "ut".to_owned(),
            Tone::Mib => "mib".to_owned(),
            Tone::Fa => "fa".to_owned(),
            Tone::Sib => "sib".to_owned(),
        }
    }

    pub fn from_token(s: &str) -> (r: Option<Tone>)
        ensures
            r == Tone::spec_from_token(s@),
    {
        if crate::strutil::str_eq(s, "ut") {
            Some(Tone::Ut)
        } else if crate::strutil::str_eq(s, "mib") {
            Some(Tone::Mib)
        } else if crate::strutil::str_eq(s, "fa") {
            Some(Tone::Fa)
        } else if crate::strutil::str_eq(s, "sib") {
            Some(Tone::Sib)
        } else {
            None
        }
    }
}

impl Format {
    pub open spec fn spec_token(self) -> Seq<char> {
        match self {
            Format::A4 => "a4"@,
            Format::Carnet => "carnet"@,
        }
    }

    pub open spec fn spec_from_token(s: Seq<char>) -> Option<Format> {
        if s == "a4"@ {
            Some(Format::A4)
        } else if s == "carnet"@ {
            Some(Format::Carnet)
        } else {
            None
        }
    }

    pub fn token(&self) -> (r: String)
        ensures
            r@ == self.spec_token(),
    {
        match self {
            Format::A4 => "a4".to_owned(),
            Format::Carnet => "carnet".to_owned(),
        }
    }

    pub fn from_token(s: &str) -> (r: Option<Format>)
        ensures
            r == Format::spec_from_token(s@),
    {
        if crate::strutil::str_eq(s, "a4") {
            Some(Format::A4)
        } else if crate::strutil::str_eq(s, "carnet") {
            Some(Format::Carnet)
        } else {
            None
        }
    }
}

impl Category {
    pub open spec fn spec_token(self) -> Seq<char> {
        match self {
            Category::Concerts => "concerts"@,
            Category::Animations => "animations"@,
            Category::Marches => "marches"@,
        }
    }

    pub open spec fn spec_from_token(s: Seq<char>) -> Option<Category> {
        if s == "concerts"@ {
            Some(Category::Concerts)
        } else if s == "animations"@ {
            Some(Category::Animations)
        } else if s == "marches"@ {
            Some(Category::Marches)
        } else {
            None
        }
    }

    pub fn token(&self) -> (r: String)
        ensures
            r@ == self.spec_token(),
    {
        match self {
            Category::Concerts => "concerts".to_owned(),
            Category::Animations => "animations".to_owned(),
            Category::Marches => "marches".to_owned(),
        }
    }

    pub fn from_token(s: &str) -> (r: Option<Category>)
        ensures
            r == Category::spec_from_token(s@),
    {
        if crate::strutil::str_eq(s, "concerts") {
            Some(Category::Concerts)
        } else if crate::strutil::str_eq(s, "animations") {
            Some(Category::Animations)
        } else if crate::strutil::str_eq(s, "marches") {
            Some(Category::Marches)
        } else {
            None
        }
    }
}

} // verus!
