//! What the dispatcher hands to the typesetting engine for one record,
//! and the per-record report line.

use crate::sheet::{MusicSheet, SheetView};
use crate::taxonomy::Clef;
use vstd::prelude::*;

verus! {

/// The human-readable description of a record: title and instrument,
/// then the tone and voice tokens where present, a fa-clef annotation
/// when and only when the clef is the fa clef, and the format in brackets.
pub open spec fn spec_description(v: SheetView) -> Seq<char> {
    v.title + " - "@ + v.instrument.spec_token() + (match v.tone {
        Some(t) => " "@ + t.spec_token(),
        None => Seq::<char>::empty(),
    }) + (match v.voice {
        Some(w) => " "@ + w.spec_token(),
        None => Seq::<char>::empty(),
    }) + (if v.clef == Clef::ClefFa {
        " (Clef de Fa)"@
    } else {
        Seq::<char>::empty()
    }) + " ["@ + v.format.spec_token() + "]"@
}

/// Builds the description of one record.
pub fn description(m: &MusicSheet) -> (r: String)
    ensures
        r@ == spec_description(m@),
{
    let mut r = m.title.clone();
    r.append(" - ");
    let ins_tok = m.instrument.token();
    r.append(ins_tok.as_str());
    match m.tone {
        Some(t) => {
            r.append(" ");
            let tok = t.token();
            r.append(tok.as_str());
        },
        None => {},
    }
    match m.voice {
        Some(w) => {
            r.append(" ");
            let tok = w.token();
            r.append(tok.as_str());
        },
        None => {},
    }
    if let Clef::ClefFa = m.clef {
        r.append(" (Clef de Fa)");
    }
    r.append(" [");
    let fmt_tok = m.format.token();
    r.append(fmt_tok.as_str());
    r.append("]");
    proof {
        assert(r@ =~= spec_description(m@));
    }
    r
}

/// The report line printed for one record: its description, then the
/// completion status the engine invocation ended with.
pub fn report_line(m: &MusicSheet, status: &str) -> (r: String)
    ensures
        r@ == spec_description(m@) + ": "@ + status@,
{
    let mut r = description(m);
    r.append(": ");
    r.append(status);
    proof {
        assert(r@ =~= spec_description(m@) + ": "@ + status@);
    }
    r
}

/// The argument list of one engine invocation: the output path, a fixed
/// document format, a fixed resolution, point-and-click disabled for
/// reproducible output, and the source path last.
pub open spec fn spec_lilypond_args(v: SheetView) -> Seq<Seq<char>> {
    seq!["-o"@, v.pdf, "-fpdf"@, "-dresolution=300"@, "-dpoint-and-click=#f"@, v.source]
}

/// Builds the argument list for compiling one record.
pub fn lilypond_args(m: &MusicSheet) -> (r: Vec<String>)
    ensures
        r.deep_view() == spec_lilypond_args(m@),
{
    let mut r: Vec<String> = Vec::new();
    r.push("-o".to_owned());
    r.push(m.pdf.clone());
    r.push("-fpdf".to_owned());
    r.push("-dresolution=300".to_owned());
    r.push("-dpoint-and-click=#f".to_owned());
    r.push(m.source.clone());
    proof {
        assert(r.deep_view() =~~= spec_lilypond_args(m@));
    }
    r
}

} // verus!
