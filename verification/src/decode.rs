//! The decoder: from a candidate source path to a [`MusicSheet`] record
//! or a structured decode failure.

use crate::sheet::{spec_pdf_path, MusicSheet, SheetView};
use crate::strutil::{ends_with, lemma_split_len, spec_join_us, spec_split};
use crate::taxonomy::{
    is_instrument_prefix, spec_is_instrument_prefix, Category, Clef, Format, Instrument, Tone,
    Voice,
};
use vstd::prelude::*;

verus! {

/// Why a candidate path failed to decode. A failed path is dropped from
/// the batch; no failure is fatal.
#[derive(Clone, Copy, Debug, PartialEq, Eq, Structural, Hash)]
pub enum DecodeError {
    /// The filename does not end in the source suffix.
    BadSuffix,
    /// The path is too short to carry format, title and category directories.
    MissingComponent,
    /// The parent directory is not a known format.
    UnknownFormat,
    /// The great-grandparent directory is not a known category.
    UnknownCategory,
    /// A generic instrument prefix with no following token.
    MissingInstrument,
    /// The instrument token is not in the taxonomy.
    UnknownInstrument,
    /// A non-percussion stem with no voice token.
    MissingVoice,
    /// The voice token is not in the taxonomy.
    UnknownVoice,
    /// A non-percussion stem with no tone token.
    MissingTone,
    /// The tone token is not in the taxonomy.
    UnknownTone,
}

/// Resolves the instrument from the stem tokens: the first token, or the
/// first two joined by an underscore when the first is a generic prefix.
/// Returns the instrument and the tokens left after it.
pub open spec fn spec_instrument_and_rest(toks: Seq<Seq<char>>) -> Result<
    (Instrument, Seq<Seq<char>>),
    DecodeError,
>
    recommends
        toks.len() >= 1,
{
    let t0 = toks[0];
    if spec_is_instrument_prefix(t0) {
        if toks.len() < 2 {
            Err(DecodeError::MissingInstrument)
        } else {
            match Instrument::spec_from_token(t0 + "_"@ + toks[1]) {
                Some(i) => Ok((i, toks.skip(2))),
                None => Err(DecodeError::UnknownInstrument),
            }
        }
    } else {
        match Instrument::spec_from_token(t0) {
            Some(i) => Ok((i, toks.skip(1))),
            None => Err(DecodeError::UnknownInstrument),
        }
    }
}

/// Reads voice and tone from the tokens after the instrument; whatever
/// remains is joined and read as a clef, falling back to the sol clef when
/// it is not one. The fallback is deliberate leniency, not an error.
pub open spec fn spec_voice_tone_clef(rest: Seq<Seq<char>>) -> Result<
    (Voice, Tone, Clef),
    DecodeError,
> {
    if rest.len() < 1 {
        Err(DecodeError::MissingVoice)
    } else if rest.len() < 2 {
        Err(DecodeError::MissingTone)
    } else {
        match Voice::spec_from_token(rest[0]) {
            None => Err(DecodeError::UnknownVoice),
            Some(v) => match Tone::spec_from_token(rest[1]) {
                None => Err(DecodeError::UnknownTone),
                Some(t) => {
                    let c = match Clef::spec_from_token(spec_join_us(rest.skip(2))) {
                        Some(c) => c,
                        None => Clef::ClefSol,
                    };
                    Ok((v, t, c))
                },
            },
        }
    }
}

/// The stem tokens of a path: the filename with its suffix stripped,
/// split on underscores.
pub open spec fn spec_stem_tokens(path: Seq<char>) -> Seq<Seq<char>> {
    let comps = spec_split(path, '/');
    let filename = comps.last();
    spec_split(filename.take(filename.len() - 3), '_')
}

/// What decoding a path yields, component by component from the filename
/// backward: suffix, format directory, title directory, category directory,
/// then the stem tokens.
pub open spec fn spec_decode(path: Seq<char>) -> Result<SheetView, DecodeError> {
    let comps = spec_split(path, '/');
    let filename = comps.last();
    if !ends_with(filename, ".ly"@) {
        Err(DecodeError::BadSuffix)
    } else if comps.len() < 4 {
        Err(DecodeError::MissingComponent)
    } else {
        let title = comps[comps.len() - 3];
        match Format::spec_from_token(comps[comps.len() - 2]) {
            None => Err(DecodeError::UnknownFormat),
            Some(format) => match Category::spec_from_token(comps[comps.len() - 4]) {
                None => Err(DecodeError::UnknownCategory),
                Some(category) => match spec_instrument_and_rest(spec_stem_tokens(path)) {
                    Err(e) => Err(e),
                    Ok(ir) => {
                        let instrument = ir.0;
                        if instrument.spec_is_percussion() {
                            Ok(
                                SheetView {
                                    source: path,
                                    pdf: spec_pdf_path(
                                        format,
                                        title,
                                        instrument,
                                        None,
                                        None,
                                        Clef::ClefDrums,
                                    ),
                                    instrument,
                                    tone: None,
                                    clef: Clef::ClefDrums,
                                    voice: None,
                                    title,
                                    format,
                                    category,
                                },
                            )
                        } else {
                            match spec_voice_tone_clef(ir.1) {
                                Err(e) => Err(e),
                                Ok(vtc) => Ok(
                                    SheetView {
                                        source: path,
                                        pdf: spec_pdf_path(
                                            format,
                                            title,
                                            instrument,
                                            Some(vtc.0),
                                            Some(vtc.1),
                                            vtc.2,
                                        ),
                                        instrument,
                                        tone: Some(vtc.1),
                                        clef: vtc.2,
                                        voice: Some(vtc.0),
                                        title,
                                        format,
                                        category,
                                    },
                                ),
                            }
                        }
                    },
                },
            },
        }
    }
}

/// A path belongs to the candidate set when its filename carries the
/// source suffix after a non-empty stem and its parent directory is one
/// of the format directories. Paths outside this set never reach the
/// decoder.
pub open spec fn spec_is_candidate(path: Seq<char>) -> bool {
    let comps = spec_split(path, '/');
    let filename = comps.last();
    &&& filename.len() > 3
    &&& ends_with(filename, ".ly"@)
    &&& comps.len() >= 2
    &&& (comps[comps.len() - 2] == "a4"@ || comps[comps.len() - 2] == "carnet"@)
}

/// Tests whether a path belongs to the candidate set.
pub fn is_candidate(path: &str) -> (r: bool)
    ensures
        r == spec_is_candidate(path@),
{
    proof {
        lemma_split_len(path@, '/');
        reveal_strlit(".ly");
    }
    let comps = crate::strutil::split_str(path, '/');
    let n = comps.len();
    let filename = &comps[n - 1];
    proof {
        assert(filename@ == spec_split(path@, '/').last());
    }
    let flen = filename.unicode_len();
    if flen <= 3 {
        return false;
    }
    let suffix_ok = crate::strutil::str_eq(filename.as_str().substring_char(flen - 3, flen), ".ly");
    proof {
        assert(filename@.subrange(flen - 3, flen as int) =~= filename@.skip(flen - 3));
    }
    if !suffix_ok {
        return false;
    }
    if n < 2 {
        return false;
    }
    let parent = &comps[n - 2];
    proof {
        assert(parent@ == spec_split(path@, '/')[n - 2]);
    }
    crate::strutil::str_eq(parent.as_str(), "a4") || crate::strutil::str_eq(parent.as_str(), "carnet")
}

impl MusicSheet {
    /// Decodes a source path into a record, or says exactly why it cannot.
    /// The result is the record that [`spec_decode`] gives, and every
    /// decoded record is well formed.
    pub fn try_from(source: String) -> (r: Result<MusicSheet, DecodeError>)
        ensures
            spec_decode(source@) matches Ok(v) ==> r matches Ok(m) && m@ == v,
            spec_decode(source@) matches Err(e) ==> r == Err::<MusicSheet, DecodeError>(e),
            r matches Ok(m) ==> m@.wf(),
    {
        proof {
            lemma_split_len(source@, '/');
            reveal_strlit(".ly");
            lemma_decode_wf(source@);
        }
        let comps = crate::strutil::split_str(source.as_str(), '/');
        let n = comps.len();
        let filename = &comps[n - 1];
        proof {
            assert(filename@ == spec_split(source@, '/').last());
        }
        let flen = filename.unicode_len();
        let suffix_ok = if flen >= 3 {
            let tail = filename.as_str().substring_char(flen - 3, flen);
            proof {
                assert(filename@.subrange(flen - 3, flen as int) =~= filename@.skip(flen - 3));
            }
            crate::strutil::str_eq(tail, ".ly")
        } else {
            false
        };
        if !suffix_ok {
            return Err(DecodeError::BadSuffix);
        }
        if n < 4 {
            return Err(DecodeError::MissingComponent);
        }
        let stem = filename.as_str().substring_char(0, flen - 3);
        proof {
            assert(stem@ == filename@.take(filename@.len() - 3));
            lemma_split_len(stem@, '_');
        }
        let format = match Format::from_token(comps[n - 2].as_str()) {
            Some(f) => f,
            None => {
                return Err(DecodeError::UnknownFormat);
            },
        };
        let category = match Category::from_token(comps[n - 4].as_str()) {
            Some(c) => c,
            None => {
                return Err(DecodeError::UnknownCategory);
            },
        };
        let toks = crate::strutil::split_str(stem, '_');
        proof {
            assert(toks.deep_view() == spec_stem_tokens(source@));
        }
        let t0 = &toks[0];
        let tn = toks.len();
        let instrument: Instrument;
        let rest_start: usize;
        if is_instrument_prefix(t0.as_str()) {
            if tn < 2 {
                return Err(DecodeError::MissingInstrument);
            }
            let mut joined = t0.clone();
            joined.append("_");
            joined.append(toks[1].as_str());
            match Instrument::from_token(joined.as_str()) {
                Some(i) => {
                    instrument = i;
                    rest_start = 2;
                },
                None => {
                    return Err(DecodeError::UnknownInstrument);
                },
            }
        } else {
            match Instrument::from_token(t0.as_str()) {
                Some(i) => {
                    instrument = i;
                    rest_start = 1;
                },
                None => {
                    return Err(DecodeError::UnknownInstrument);
                },
            }
        }
        let ghost rest = toks.deep_view().skip(rest_start as int);
        proof {
            assert(spec_instrument_and_rest(spec_stem_tokens(source@)) == Ok::<_, DecodeError>(
                (instrument, rest),
            ));
        }
        let title = &comps[n - 3];
        if instrument.is_percussion() {
            let pdf = crate::sheet::derive_pdf(
                format,
                title.as_str(),
                instrument,
                None,
                None,
                Clef::ClefDrums,
            );
            return Ok(
                MusicSheet {
                    source,
                    pdf,
                    instrument,
                    tone: None,
                    clef: Clef::ClefDrums,
                    voice: None,
                    title: title.clone(),
                    format,
                    category,
                },
            );
        }
        if tn <= rest_start {
            return Err(DecodeError::MissingVoice);
        }
        if tn <= rest_start + 1 {
            return Err(DecodeError::MissingTone);
        }
        let voice = match Voice::from_token(toks[rest_start].as_str()) {
            Some(v) => v,
            None => {
                return Err(DecodeError::UnknownVoice);
            },
        };
        let tone = match Tone::from_token(toks[rest_start + 1].as_str()) {
            Some(t) => t,
            None => {
                return Err(DecodeError::UnknownTone);
            },
        };
        let joined = crate::strutil::join_us_from(&toks, rest_start + 2);
        proof {
            assert(toks.deep_view().skip(rest_start + 2) =~~= rest.skip(2));
        }
        let clef = match Clef::from_token(joined.as_str()) {
            Some(c) => c,
            None => Clef::ClefSol,
        };
        let pdf = crate::sheet::derive_pdf(
            format,
            title.as_str(),
            instrument,
            Some(voice),
            Some(tone),
            clef,
        );
        Ok(
            MusicSheet {
                source,
                pdf,
                instrument,
                tone: Some(tone),
                clef,
                voice: Some(voice),
                title: title.clone(),
                format,
                category,
            },
        )
    }
}

/// Every record the decoder yields satisfies the record invariant.
pub proof fn lemma_decode_wf(path: Seq<char>)
    ensures
        spec_decode(path) matches Ok(v) ==> v.wf(),
{
}

/// Every decoded percussion path carries no voice, no tone, and the drum
/// clef.
pub proof fn lemma_percussion_decode(path: Seq<char>)
    ensures
        spec_decode(path) matches Ok(v) ==> (v.instrument.spec_is_percussion() ==> {
            &&& v.voice is None
            &&& v.tone is None
            &&& v.clef == Clef::ClefDrums
        }),
{
}

/// When the tokens after voice and tone do not join to a clef token, the
/// decoded clef falls back to the sol clef.
pub proof fn lemma_default_clef(path: Seq<char>)
    ensures
        ({
            let r = spec_decode(path);
            let ir = spec_instrument_and_rest(spec_stem_tokens(path));
            (r matches Ok(v) && !v.instrument.spec_is_percussion() && (ir matches Ok(p)
                && Clef::spec_from_token(spec_join_us(p.1.skip(2))) is None)) ==> r->Ok_0.clef
                == Clef::ClefSol
        }),
{
}

/// In particular, a decoded non-percussion stem with no tokens beyond the
/// voice and the tone reads the sol clef.
pub proof fn lemma_no_trailing_tokens_sol_clef(path: Seq<char>)
    ensures
        ({
            let r = spec_decode(path);
            let ir = spec_instrument_and_rest(spec_stem_tokens(path));
            (r matches Ok(v) && !v.instrument.spec_is_percussion() && (ir matches Ok(p) && p.1.len()
                == 2)) ==> r->Ok_0.clef == Clef::ClefSol
        }),
{
    reveal_strlit("clef_fa");
    reveal_strlit("clef_sol");
    reveal_strlit("clef_drums");
    match spec_instrument_and_rest(spec_stem_tokens(path)) {
        Ok(p) => {
            if p.1.len() == 2 {
                assert(p.1.skip(2) =~~= Seq::<Seq<char>>::empty());
                assert(spec_join_us(p.1.skip(2)) == Seq::<char>::empty());
                assert(Clef::spec_from_token(Seq::<char>::empty()) is None);
                lemma_default_clef(path);
            }
        },
        Err(_) => {},
    }
}

/// A decoded non-percussion stem whose trailing tokens join to exactly the
/// fa-clef token reads the fa clef, and its output filename carries the
/// fa-clef marker. (A percussion stem ignores its trailing tokens, so it
/// is left out here.)
pub proof fn lemma_clef_fa_decode(path: Seq<char>)
    ensures
        ({
            let r = spec_decode(path);
            let ir = spec_instrument_and_rest(spec_stem_tokens(path));
            (r matches Ok(v) && !v.instrument.spec_is_percussion() && (ir matches Ok(p)
                && spec_join_us(p.1.skip(2)) == "clef_fa"@)) ==> (r->Ok_0.clef == Clef::ClefFa
                && ends_with(r->Ok_0.pdf, "_ClefFa"@))
        }),
{
    match spec_decode(path) {
        Ok(v) => {
            lemma_decode_wf(path);
            crate::sheet::lemma_clef_suffix_iff(v);
        },
        Err(_) => {},
    }
}

/// Deriving the output path is deterministic: it is a function of format,
/// title, instrument, voice, tone and clef alone, so two well formed
/// records that agree on those fields share their output path.
pub proof fn lemma_pdf_deterministic(a: SheetView, b: SheetView)
    requires
        a.wf(),
        b.wf(),
        a.format == b.format,
        a.title == b.title,
        a.instrument == b.instrument,
        a.voice == b.voice,
        a.tone == b.tone,
        a.clef == b.clef,
    ensures
        a.pdf == b.pdf,
{
}

/// The same, said of the decoder: two source paths whose records agree on
/// format, title, instrument, voice, tone and clef decode to the same
/// output path, however the paths themselves differ.
pub proof fn lemma_decode_pdf_deterministic(p1: Seq<char>, p2: Seq<char>)
    ensures
        ({
            let r1 = spec_decode(p1);
            let r2 = spec_decode(p2);
            (r1 matches Ok(a) && (r2 matches Ok(b) && a.format == b.format && a.title == b.title
                && a.instrument == b.instrument && a.voice == b.voice && a.tone == b.tone && a.clef
                == b.clef)) ==> r1->Ok_0.pdf == r2->Ok_0.pdf
        }),
{
    lemma_decode_wf(p1);
    lemma_decode_wf(p2);
}

} // verus!
