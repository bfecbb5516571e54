//! String helpers shared by the decoder: splitting on a separator,
//! joining tokens with underscores, and suffix tests.

use vstd::prelude::*;

verus! {

/// The pieces of `s` between occurrences of `sep`, in order.
/// A string with no separator is one piece; every separator adds a piece,
/// so the result is never empty and empty pieces are kept.
pub open spec fn spec_split(s: Seq<char>, sep: char) -> Seq<Seq<char>>
    decreases s.len(),
{
    if s.len() == 0 {
        seq![Seq::<char>::empty()]
    } else if s.last() == sep {
        spec_split(s.drop_last(), sep).push(Seq::<char>::empty())
    } else {
        let r = spec_split(s.drop_last(), sep);
        r.update(r.len() - 1, r.last().push(s.last()))
    }
}

pub proof fn lemma_split_len(s: Seq<char>, sep: char)
    ensures
        spec_split(s, sep).len() >= 1,
    decreases s.len(),
{
    if s.len() > 0 {
        lemma_split_len(s.drop_last(), sep);
    }
}

/// The tokens joined with single underscores; no trailing separator.
pub open spec fn spec_join_us(toks: Seq<Seq<char>>) -> Seq<char>
    decreases toks.len(),
{
    if toks.len() == 0 {
        Seq::<char>::empty()
    } else if toks.len() == 1 {
        toks[0]
    } else {
        spec_join_us(toks.drop_last()) + "_"@ + toks.last()
    }
}

/// `s` ends with the suffix `suf`.
pub open spec fn ends_with(s: Seq<char>, suf: Seq<char>) -> bool {
    s.len() >= suf.len() && s.skip(s.len() - suf.len()) == suf
}

/// Character-for-character equality of two string slices.
pub fn str_eq(a: &str, b: &str) -> (r: bool)
    ensures
        r == (a@ == b@),
{
    let alen = a.unicode_len();
    let blen = b.unicode_len();
    if alen != blen {
        return false;
    }
    let mut i: usize = 0;
    while i < alen
        invariant
            i <= alen,
            alen == a@.len(),
            alen == b@.len(),
            forall|j: int| 0 <= j < i ==> a@[j] == b@[j],
        decreases alen - i,
    {
        if a.get_char(i) != b.get_char(i) {
            return false;
        }
        i += 1;
    }
    proof {
        assert(a@ =~= b@);
    }
    true
}

/// Splits `s` on the separator character, keeping empty pieces.
pub fn split_str(s: &str, sep: char) -> (r: Vec<String>)
    ensures
        r.deep_view() == spec_split(s@, sep),
{
    let len = s.unicode_len();
    let mut acc: Vec<String> = Vec::new();
    let mut start: usize = 0;
    let mut i: usize = 0;
    proof {
        assert(s@.take(0).len() == 0);
        assert(acc.deep_view() =~= Seq::<Seq<char>>::empty());
        assert(acc.deep_view().push(s@.subrange(0, 0)) =~~= spec_split(s@.take(0), sep));
    }
    while i < len
        invariant
            start <= i <= len,
            len == s@.len(),
            acc.deep_view().push(s@.subrange(start as int, i as int)) == spec_split(
                s@.take(i as int),
                sep,
            ),
            forall|j: int| start <= j < i ==> s@[j] != sep,
        decreases len - i,
    {
        let c = s.get_char(i);
        if c == sep {
            let piece = s.substring_char(start, i);
            let ghost prev = acc.deep_view();
            acc.push(piece.to_owned());
            proof {
                assert(s@.take(i + 1).drop_last() =~= s@.take(i as int));
                assert(s@.take(i + 1).last() == sep);
                assert(acc.deep_view() =~= prev.push(s@.subrange(start as int, i as int)));
                assert(s@.subrange(i + 1, i + 1) =~= Seq::<char>::empty());
                assert(acc.deep_view().push(s@.subrange(i + 1, i + 1)) =~= spec_split(
                    s@.take(i + 1),
                    sep,
                ));
            }
            start = i + 1;
        } else {
            proof {
                assert(s@.take(i + 1).drop_last() =~= s@.take(i as int));
                assert(s@.take(i + 1).last() == s@[i as int]);
                let r = spec_split(s@.take(i as int), sep);
                lemma_split_len(s@.take(i as int), sep);
                assert(r == acc.deep_view().push(s@.subrange(start as int, i as int)));
                assert(r.last() == s@.subrange(start as int, i as int));
                assert(r.last().push(s@[i as int]) =~= s@.subrange(start as int, i + 1));
                assert(r.update(r.len() - 1, r.last().push(s@[i as int])) =~= acc.deep_view().push(
                    s@.subrange(start as int, i + 1),
                ));
            }
        }
        i += 1;
    }
    let last = s.substring_char(start, len);
    let ghost prev = acc.deep_view();
    acc.push(last.to_owned());
    proof {
        assert(s@.take(len as int) =~= s@);
        assert(acc.deep_view() =~= prev.push(s@.subrange(start as int, len as int)));
    }
    acc
}

/// Joins the tokens from index `from` onward with underscores.
pub fn join_us_from(toks: &Vec<String>, from: usize) -> (r: String)
    requires
        from <= toks@.len(),
    ensures
        r@ == spec_join_us(toks.deep_view().skip(from as int)),
{
    let n = toks.len();
    if from >= n {
        let r = String::new();
        proof {
            assert(toks.deep_view().skip(from as int) =~~= Seq::<Seq<char>>::empty());
        }
        return r;
    }
    let mut r = toks[from].clone();
    let mut i: usize = from + 1;
    proof {
        assert(toks.deep_view().subrange(from as int, from + 1) =~~= seq![toks.deep_view()[from as int]]);
    }
    while i < n
        invariant
            from < i <= n,
            n == toks@.len(),
            r@ == spec_join_us(toks.deep_view().subrange(from as int, i as int)),
        decreases n - i,
    {
        r.append("_");
        r.append(toks[i].as_str());
        proof {
            let dv = toks.deep_view();
            assert(dv.subrange(from as int, i + 1).drop_last() =~~= dv.subrange(
                from as int,
                i as int,
            ));
            assert(dv.subrange(from as int, i + 1).last() == dv[i as int]);
        }
        i += 1;
    }
    proof {
        assert(toks.deep_view().subrange(from as int, n as int) =~~= toks.deep_view().skip(
            from as int,
        ));
    }
    r
}

} // verus!
