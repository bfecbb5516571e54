//! Selection of the records to compile: the conjunctive field filters,
//! the candidate walk over paths, and the optional record limit.

use crate::decode::{spec_decode, spec_is_candidate};
use crate::sheet::{MusicSheet, SheetView};
use crate::taxonomy::{Clef, Format, Instrument, Tone, Voice};
use vstd::prelude::*;

verus! {

/// Which records to compile. Every set field must match exactly; the
/// filters are conjunctive. `limit` keeps only the first records in input
/// order, as a smoke-test affordance.
pub struct FilterConfig {
    pub limit: Option<usize>,
    pub title: Option<String>,
    pub instrument: Option<Instrument>,
    pub voice: Option<Voice>,
    pub clef: Option<Clef>,
    pub format: Option<Format>,
    pub tone: Option<Tone>,
}

/// Mathematical image of a [`FilterConfig`].
pub ghost struct FilterConfigView {
    pub limit: Option<usize>,
    pub title: Option<Seq<char>>,
    pub instrument: Option<Instrument>,
    pub voice: Option<Voice>,
    pub clef: Option<Clef>,
    pub format: Option<Format>,
    pub tone: Option<Tone>,
}

impl View for FilterConfig {
    type V = FilterConfigView;

    open spec fn view(&self) -> FilterConfigView {
        FilterConfigView {
            limit: self.limit,
            title: match self.title {
                Some(t) => Some(t@),
                None => None,
            },
            instrument: self.instrument,
            voice: self.voice,
            clef: self.clef,
            format: self.format,
            tone: self.tone,
        }
    }
}

impl Default for FilterConfig {
    /// The configuration that keeps everything.
    fn default() -> (r: Self)
        ensures
            r@ == (FilterConfigView {
                limit: None,
                title: None,
                instrument: None,
                voice: None,
                clef: None,
                format: None,
                tone: None,
            }),
    {
        FilterConfig {
            limit: None,
            title: None,
            instrument: None,
            voice: None,
            clef: None,
            format: None,
            tone: None,
        }
    }
}

/// A record survives the filters when every set field agrees with it.
pub open spec fn spec_matches(v: SheetView, cfg: FilterConfigView) -> bool {
    &&& (cfg.title matches Some(t) ==> v.title == t)
    &&& (cfg.instrument matches Some(i) ==> v.instrument == i)
    &&& (cfg.format matches Some(f) ==> v.format == f)
    &&& (cfg.clef matches Some(c) ==> v.clef == c)
    &&& (cfg.voice matches Some(w) ==> v.voice == Some(w))
    &&& (cfg.tone matches Some(t) ==> v.tone == Some(t))
}

/// Tests a record against the configuration's field filters.
pub fn matches_filters(m: &MusicSheet, cfg: &FilterConfig) -> (r: bool)
    ensures
        r == spec_matches(m@, cfg@),
{
    let title_ok = match &cfg.title {
        Some(t) => crate::strutil::str_eq(t.as_str(), m.title.as_str()),
        None => true,
    };
    let instrument_ok = match cfg.instrument {
        Some(i) => i == m.instrument,
        None => true,
    };
    let format_ok = match cfg.format {
        Some(f) => f == m.format,
        None => true,
    };
    let clef_ok = match cfg.clef {
        Some(c) => c == m.clef,
        None => true,
    };
    let voice_ok = match cfg.voice {
        Some(w) => match m.voice {
            Some(mw) => mw == w,
            None => false,
        },
        None => true,
    };
    let tone_ok = match cfg.tone {
        Some(t) => match m.tone {
            Some(mt) => mt == t,
            None => false,
        },
        None => true,
    };
    title_ok && instrument_ok && format_ok && clef_ok && voice_ok && tone_ok
}

/// The records among `rs` that survive the field filters, in order.
pub open spec fn spec_survivors(rs: Seq<SheetView>, cfg: FilterConfigView) -> Seq<SheetView>
    decreases rs.len(),
{
    if rs.len() == 0 {
        Seq::<SheetView>::empty()
    } else {
        let prior = spec_survivors(rs.drop_last(), cfg);
        if spec_matches(rs.last(), cfg) {
            prior.push(rs.last())
        } else {
            prior
        }
    }
}

/// What walking a list of paths yields: each candidate path that decodes
/// and survives the field filters contributes its record, in input order.
pub open spec fn spec_selected(paths: Seq<Seq<char>>, cfg: FilterConfigView) -> Seq<SheetView>
    decreases paths.len(),
{
    if paths.len() == 0 {
        Seq::<SheetView>::empty()
    } else {
        let prior = spec_selected(paths.drop_last(), cfg);
        let p = paths.last();
        let d = spec_decode(p);
        if spec_is_candidate(p) && (d matches Ok(v) && spec_matches(v, cfg)) {
            prior.push(d->Ok_0)
        } else {
            prior
        }
    }
}

/// At most the first `limit` entries, when a limit is set.
pub open spec fn spec_limited(s: Seq<SheetView>, limit: Option<usize>) -> Seq<SheetView> {
    match limit {
        Some(l) => if s.len() <= l {
            s
        } else {
            s.take(l as int)
        },
        None => s,
    }
}

/// Walks the candidate paths and returns the decoded records that survive
/// the filters, in input order, cut to the configured limit. A path that
/// is no candidate or fails to decode is dropped silently.
pub fn get_ly_files(paths: &Vec<String>, cfg: &FilterConfig) -> (r: Vec<MusicSheet>)
    ensures
        r.deep_view() == spec_limited(spec_selected(paths.deep_view(), cfg@), cfg@.limit),
{
    let mut out: Vec<MusicSheet> = Vec::new();
    let n = paths.len();
    let mut i: usize = 0;
    proof {
        assert(out.deep_view() =~~= spec_selected(paths.deep_view().take(0), cfg@));
    }
    while i < n
        invariant
            i <= n,
            n == paths@.len(),
            out.deep_view() == spec_selected(paths.deep_view().take(i as int), cfg@),
        decreases n - i,
    {
        let ghost prev = out.deep_view();
        let p = &paths[i];
        proof {
            assert(p@ == paths.deep_view()[i as int]);
            assert(paths.deep_view().take(i + 1).drop_last() =~~= paths.deep_view().take(i as int));
        }
        if crate::decode::is_candidate(p.as_str()) {
            match MusicSheet::try_from(p.clone()) {
                Ok(m) => {
                    if matches_filters(&m, cfg) {
                        out.push(m);
                        proof {
                            assert(out.deep_view() =~~= prev.push(
                                spec_decode(p@)->Ok_0,
                            ));
                        }
                    }
                },
                Err(_) => {},
            }
        }
        i += 1;
    }
    proof {
        assert(paths.deep_view().take(n as int) =~~= paths.deep_view());
    }
    match cfg.limit {
        Some(l) => {
            if out.len() > l {
                let ghost full = out.deep_view();
                out.truncate(l);
                proof {
                    assert(out.deep_view() =~~= full.take(l as int));
                }
            }
        },
        None => {},
    }
    out
}

/// Field filters keep exactly the records that every filter keeps alone:
/// a record survives a configuration if and only if it is in the input and
/// matches it.
pub proof fn lemma_survivors_contains(rs: Seq<SheetView>, cfg: FilterConfigView, v: SheetView)
    ensures
        spec_survivors(rs, cfg).contains(v) <==> rs.contains(v) && spec_matches(v, cfg),
    decreases rs.len(),
{
    if rs.len() > 0 {
        lemma_survivors_contains(rs.drop_last(), cfg, v);
        let prior = spec_survivors(rs.drop_last(), cfg);
        if spec_matches(rs.last(), cfg) {
            assert(spec_survivors(rs, cfg) == prior.push(rs.last()));
            if prior.push(rs.last()).contains(v) {
                if v == rs.last() {
                    assert(rs.contains(v)) by {
                        assert(rs[rs.len() - 1] == v);
                    }
                } else {
                    assert(prior.contains(v)) by {
                        let j = choose|j: int|
                            0 <= j < prior.push(rs.last()).len() && prior.push(rs.last())[j] == v;
                        assert(prior[j] == v);
                    }
                    assert(rs.drop_last().contains(v));
                    let j = choose|j: int| 0 <= j < rs.drop_last().len() && rs.drop_last()[j] == v;
                    assert(rs[j] == v);
                }
            }
            if rs.contains(v) && spec_matches(v, cfg) {
                let j = choose|j: int| 0 <= j < rs.len() && rs[j] == v;
                if j < rs.len() - 1 {
                    assert(rs.drop_last()[j] == v);
                    assert(prior.contains(v));
                    let k = choose|k: int| 0 <= k < prior.len() && prior[k] == v;
                    assert(prior.push(rs.last())[k] == v);
                } else {
                    assert(prior.push(rs.last())[prior.len() as int] == v);
                }
            }
        } else {
            if rs.contains(v) && spec_matches(v, cfg) {
                let j = choose|j: int| 0 <= j < rs.len() && rs[j] == v;
                assert(j < rs.len() - 1);
                assert(rs.drop_last()[j] == v);
            }
            if prior.contains(v) {
                let j = choose|j: int| 0 <= j < rs.drop_last().len() && rs.drop_last()[j] == v;
                assert(rs[j] == v);
            }
        }
    }
}

/// The configuration view with no field filter set.
pub open spec fn cfg_no_field_filters() -> FilterConfigView {
    FilterConfigView {
        limit: None,
        title: None,
        instrument: None,
        voice: None,
        clef: None,
        format: None,
        tone: None,
    }
}

/// The pipeline filters after decoding: walking the paths under a
/// configuration's field filters yields the same records as walking them
/// with no field filters and then filtering the decoded records.
pub proof fn lemma_selected_is_filtered_decode(paths: Seq<Seq<char>>, cfg: FilterConfigView)
    ensures
        spec_selected(paths, cfg) == spec_survivors(
            spec_selected(paths, cfg_no_field_filters()),
            cfg,
        ),
    decreases paths.len(),
{
    if paths.len() > 0 {
        lemma_selected_is_filtered_decode(paths.drop_last(), cfg);
        let p = paths.last();
        let d = spec_decode(p);
        let all_prior = spec_selected(paths.drop_last(), cfg_no_field_filters());
        if spec_is_candidate(p) && d is Ok {
            assert(all_prior.push(d->Ok_0).drop_last() =~= all_prior);
            assert(all_prior.push(d->Ok_0).last() == d->Ok_0);
        }
    }
}

/// The configuration whose only field filter is an instrument.
pub open spec fn cfg_only_instrument(i: Instrument) -> FilterConfigView {
    FilterConfigView {
        limit: None,
        title: None,
        instrument: Some(i),
        voice: None,
        clef: None,
        format: None,
        tone: None,
    }
}

/// The configuration whose only field filter is a format.
pub open spec fn cfg_only_format(f: Format) -> FilterConfigView {
    FilterConfigView {
        limit: None,
        title: None,
        instrument: None,
        voice: None,
        clef: None,
        format: Some(f),
        tone: None,
    }
}

/// The configuration that filters on an instrument and a format together.
pub open spec fn cfg_instrument_and_format(i: Instrument, f: Format) -> FilterConfigView {
    FilterConfigView {
        limit: None,
        title: None,
        instrument: Some(i),
        voice: None,
        clef: None,
        format: Some(f),
        tone: None,
    }
}

/// Filter conjunction: filtering on an instrument and a format together
/// keeps exactly the records that each filter keeps alone — the surviving
/// records are those surviving both independent filters, and applying the
/// two filters one after the other gives the same sequence.
pub proof fn lemma_filter_conjunction(rs: Seq<SheetView>, i: Instrument, f: Format)
    ensures
        forall|v: SheetView|
            spec_survivors(rs, cfg_instrument_and_format(i, f)).contains(v) <==> (spec_survivors(
                rs,
                cfg_only_instrument(i),
            ).contains(v) && spec_survivors(rs, cfg_only_format(f)).contains(v)),
        spec_survivors(rs, cfg_instrument_and_format(i, f)) == spec_survivors(
            spec_survivors(rs, cfg_only_instrument(i)),
            cfg_only_format(f),
        ),
    decreases rs.len(),
{
    assert forall|v: SheetView|
        spec_survivors(rs, cfg_instrument_and_format(i, f)).contains(v) <==> (spec_survivors(
            rs,
            cfg_only_instrument(i),
        ).contains(v) && spec_survivors(rs, cfg_only_format(f)).contains(v)) by {
        lemma_survivors_contains(rs, cfg_instrument_and_format(i, f), v);
        lemma_survivors_contains(rs, cfg_only_instrument(i), v);
        lemma_survivors_contains(rs, cfg_only_format(f), v);
    }
    if rs.len() == 0 {
    } else {
        lemma_filter_conjunction(rs.drop_last(), i, f);
        let prior_i = spec_survivors(rs.drop_last(), cfg_only_instrument(i));
        if spec_matches(rs.last(), cfg_only_instrument(i)) {
            assert(prior_i.push(rs.last()).drop_last() =~= prior_i);
            assert(prior_i.push(rs.last()).last() == rs.last());
        }
    }
}

} // verus!
