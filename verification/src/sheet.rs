//! The decoded record of one sheet-music source file and the derivation
//! of its output document path.

use crate::taxonomy::{Category, Clef, Format, Instrument, Tone, Voice};
use vstd::prelude::*;

verus! {

/// Mathematical image of a [`MusicSheet`]: path strings as character
/// sequences, taxonomy fields as themselves.
pub ghost struct SheetView {
    pub source: Seq<char>,
    pub pdf: Seq<char>,
    pub instrument: Instrument,
    pub tone: Option<Tone>,
    pub clef: Clef,
    pub voice: Option<Voice>,
    pub title: Seq<char>,
    pub format: Format,
    pub category: Category,
}

/// One decoded sheet-music source file.
#[derive(Debug, Hash, PartialEq, Eq)]
pub struct MusicSheet {
    pub source: String,
    pub pdf: String,
    pub instrument: Instrument,
    pub tone: Option<Tone>,
    pub clef: Clef,
    pub voice: Option<Voice>,
    pub title: String,
    pub format: Format,
    pub category: Category,
}

impl View for MusicSheet {
    type V = SheetView;

    open spec fn view(&self) -> SheetView {
        SheetView {
            source: self.source@,
            pdf: self.pdf@,
            instrument: self.instrument,
            tone: self.tone,
            clef: self.clef,
            voice: self.voice,
            title: self.title@,
            format: self.format,
            category: self.category,
        }
    }
}

impl DeepView for MusicSheet {
    type V = SheetView;

    open spec fn deep_view(&self) -> SheetView {
        self.view()
    }
}

impl Clone for MusicSheet {
    fn clone(&self) -> (r: Self)
        ensures
            r == *self,
    {
        MusicSheet {
            source: self.source.clone(),
            pdf: self.pdf.clone(),
            instrument: self.instrument,
            tone: self.tone,
            clef: self.clef,
            voice: self.voice,
            title: self.title.clone(),
            format: self.format,
            category: self.category,
        }
    }
}

/// The output filename (without directory): title and instrument token,
/// then voice and tone tokens where present, then a `_ClefFa` marker when
/// and only when the clef is the fa clef.
pub open spec fn spec_pdf_name(
    title: Seq<char>,
    instrument: Instrument,
    voice: Option<Voice>,
    tone: Option<Tone>,
    clef: Clef,
) -> Seq<char> {
    title + "_"@ + instrument.spec_token() + (match voice {
        Some(v) => "_"@ + v.spec_token(),
        None => Seq::<char>::empty(),
    }) + (match tone {
        Some(t) => "_"@ + t.spec_token(),
        None => Seq::<char>::empty(),
    }) + (if clef == Clef::ClefFa {
        "_ClefFa"@
    } else {
        Seq::<char>::empty()
    })
}

/// The full output path: a `pdf` root, the format directory, the filename.
pub open spec fn spec_pdf_path(
    format: Format,
    title: Seq<char>,
    instrument: Instrument,
    voice: Option<Voice>,
    tone: Option<Tone>,
    clef: Clef,
) -> Seq<char> {
    "pdf/"@ + format.spec_token() + "/"@ + spec_pdf_name(title, instrument, voice, tone, clef)
}

impl SheetView {
    /// Invariant of every decoded record: percussion never carries voice,
    /// tone or a non-drum clef; every other instrument carries both voice
    /// and tone; the output path is derived from the other fields.
    pub open spec fn wf(self) -> bool {
        &&& self.instrument.spec_is_percussion() ==> {
            &&& self.voice is None
            &&& self.tone is None
            &&& self.clef == Clef::ClefDrums
        }
        &&& !self.instrument.spec_is_percussion() ==> {
            &&& self.voice is Some
            &&& self.tone is Some
        }
        &&& self.pdf == spec_pdf_path(
            self.format,
            self.title,
            self.instrument,
            self.voice,
            self.tone,
            self.clef,
        )
    }
}

/// The fa clef, and only the fa clef, marks the output filename: a well
/// formed record's output path ends in the fa-clef marker exactly when its
/// clef is the fa clef; the sol and drum clefs leave no trace in it.
pub proof fn lemma_clef_suffix_iff(v: SheetView)
    requires
        v.wf(),
    ensures
        crate::strutil::ends_with(v.pdf, "_ClefFa"@) <==> v.clef == Clef::ClefFa,
{
    reveal_strlit("_ClefFa");
    reveal_strlit("_");
    let suf = "_ClefFa"@;
    let l = v.pdf.len() as int;
    if v.clef == Clef::ClefFa {
        assert(v.pdf.skip(l - 7) =~= suf);
    } else if crate::strutil::ends_with(v.pdf, suf) {
        assert(v.pdf.skip(l - 7)[1] == v.pdf[l - 6]);
        assert(v.pdf.skip(l - 7)[3] == v.pdf[l - 4]);
        assert(v.pdf.skip(l - 7)[4] == v.pdf[l - 3]);
        let pre = "pdf/"@ + v.format.spec_token() + "/"@;
        if v.instrument.spec_is_percussion() {
            let it = v.instrument.spec_token();
            if v.instrument == Instrument::CaisseClaire {
                reveal_strlit("caisse_claire");
            } else {
                reveal_strlit("grosse_caisse");
            }
            assert(it.len() == 13 && it[7] == 'c');
            assert(v.pdf =~= pre + v.title + "_"@ + it);
            assert(v.pdf[l - 6] == it[7]);
            assert(false);
        } else {
            let tt = (match v.tone {
                Some(t) => t.spec_token(),
                None => Seq::<char>::empty(),
            });
            let wt = (match v.voice {
                Some(w) => w.spec_token(),
                None => Seq::<char>::empty(),
            });
            assert(v.pdf =~= pre + v.title + "_"@ + v.instrument.spec_token() + "_"@ + wt + "_"@
                + tt);
            match v.tone {
                Some(t) => match t {
                    Tone::Ut => {
                        reveal_strlit("ut");
                    },
                    Tone::Mib => {
                        reveal_strlit("mib");
                    },
                    Tone::Fa => {
                        reveal_strlit("fa");
                    },
                    Tone::Sib => {
                        reveal_strlit("sib");
                    },
                },
                None => {},
            }
            if tt.len() == 2 {
                assert(v.pdf[l - 3] == '_');
                assert(false);
            } else {
                assert(tt.len() == 3);
                assert(v.pdf[l - 4] == '_');
                assert(false);
            }
        }
    }
}

/// Builds the output document path of a record with these fields.
#[verifier::rlimit(30)]
pub fn derive_pdf(
    format: Format,
    title: &str,
    instrument: Instrument,
    voice: Option<Voice>,
    tone: Option<Tone>,
    clef: Clef,
) -> (r: String)
    ensures
        r@ == spec_pdf_path(format, title@, instrument, voice, tone, clef),
{
    let mut r = "pdf/".to_owned();
    let fmt_tok = format.token();
    r.append(fmt_tok.as_str());
    r.append("/");
    r.append(title);
    r.append("_");
    let ins_tok = instrument.token();
    r.append(ins_tok.as_str());
    match voice {
        Some(v) => {
            r.append("_");
            let tok = v.token();
            r.append(tok.as_str());
        },
        None => {},
    }
    match tone {
        Some(t) => {
            r.append("_");
            let tok = t.token();
            r.append(tok.as_str());
        },
        None => {},
    }
    if let Clef::ClefFa = clef {
        r.append("_ClefFa");
    }
    proof {
        assert(r@ =~= spec_pdf_path(format, title@, instrument, voice, tone, clef));
    }
    r
}

} // verus!
