//! URL path templates: their parameters and prefixing.
use crate::text::{string_views, chars_of, push_char, string_of, trim_end_matches, trim_start_matches, trim_start, trim_end};
use vstd::prelude::*;

verus! {

/// The pieces of `s` between the occurrences of `sep` (an empty `s` gives one
/// empty piece).
pub open spec fn split_on(s: Seq<char>, sep: char) -> Seq<Seq<char>>
    decreases s.len(),
{
    if s.len() == 0 {
        seq![Seq::<char>::empty()]
    } else {
        let p = split_on(s.drop_last(), sep);
        if s.last() == sep {
            p.push(Seq::<char>::empty())
        } else {
            p.update(p.len() - 1, p.last().push(s.last()))
        }
    }
}

/// The parameter name of a `{name}` segment.
pub open spec fn param_of_segment(seg: Seq<char>) -> Option<Seq<char>> {
    if seg.len() >= 2 && seg[0] == '{' && seg.last() == '}' {
        Some(seg.subrange(1, seg.len() - 1))
    } else {
        None
    }
}

/// The parameter names of `segs`, in order of first occurrence, each once.
pub open spec fn params_of_segments(segs: Seq<Seq<char>>) -> Seq<Seq<char>>
    decreases segs.len(),
{
    if segs.len() == 0 {
        Seq::empty()
    } else {
        let p = params_of_segments(segs.drop_last());
        match param_of_segment(segs.last()) {
            Some(n) => if p.contains(n) {
                p
            } else {
                p.push(n)
            },
            None => p,
        }
    }
}

/// The path parameters of a template: the names of its `{name}` segments, in
/// order, without repeats.
pub open spec fn path_params(path: Seq<char>) -> Seq<Seq<char>> {
    params_of_segments(split_on(path, '/'))
}

proof fn lemma_split_nonempty(s: Seq<char>, sep: char)
    ensures
        split_on(s, sep).len() >= 1,
    decreases s.len(),
{
    if s.len() > 0 {
        lemma_split_nonempty(s.drop_last(), sep);
    }
}

/// Splitting at a separator splits each side on its own.
pub proof fn lemma_split_concat(a: Seq<char>, b: Seq<char>, sep: char)
    ensures
        split_on(a + seq![sep] + b, sep) == split_on(a, sep) + split_on(b, sep),
    decreases b.len(),
{
    let s = a + seq![sep] + b;
    if b.len() == 0 {
        assert(s.drop_last() =~= a);
        assert(s =~= a + seq![sep]);
        assert(split_on(b, sep) =~= seq![Seq::<char>::empty()]);
        assert(split_on(s, sep) =~= split_on(a, sep) + split_on(b, sep));
    } else {
        assert(s.drop_last() =~= a + seq![sep] + b.drop_last());
        assert(s.last() == b.last());
        lemma_split_concat(a, b.drop_last(), sep);
        lemma_split_nonempty(b.drop_last(), sep);
        let q = split_on(b.drop_last(), sep);
        let pa = split_on(a, sep);
        if b.last() == sep {
            assert(split_on(s, sep) =~= pa + q.push(Seq::<char>::empty()));
        } else {
            let whole = pa + q;
            assert(whole.last() == q.last());
            assert(whole.update(whole.len() - 1, whole.last().push(b.last())) =~= pa + q.update(
                q.len() - 1,
                q.last().push(b.last()),
            ));
        }
    }
}

/// A piece without separators is not split.
pub proof fn lemma_split_single(s: Seq<char>, sep: char)
    requires
        forall|i: int| 0 <= i < s.len() ==> s[i] != sep,
    ensures
        split_on(s, sep) == seq![s],
    decreases s.len(),
{
    if s.len() == 0 {
        assert(s =~= Seq::<char>::empty());
        assert(split_on(s, sep) =~= seq![s]);
    } else {
        lemma_split_single(s.drop_last(), sep);
        assert(s.last() == s[s.len() - 1]);
        assert(s.drop_last().push(s.last()) =~= s);
        assert(seq![s.drop_last()].update(0, s.drop_last().push(s.last())) =~= seq![s]);
    }
}

/// A template of two parameter segments, `/{x}/{y}`, has the parameters
/// `x` and `y`, in that order.
pub proof fn lemma_two_params(x: Seq<char>, y: Seq<char>)
    requires
        x != y,
        forall|i: int| 0 <= i < x.len() ==> x[i] != '/',
        forall|i: int| 0 <= i < y.len() ==> y[i] != '/',
    ensures
        path_params(seq!['/', '{'] + x + seq!['}', '/', '{'] + y + seq!['}']) == seq![x, y],
{
    let sx = seq!['{'] + x + seq!['}'];
    let sy = seq!['{'] + y + seq!['}'];
    let e = Seq::<char>::empty();
    assert(seq!['/', '{'] + x + seq!['}', '/', '{'] + y + seq!['}'] =~= e + seq!['/'] + (sx + seq!['/'] + sy));
    lemma_split_concat(e, sx + seq!['/'] + sy, '/');
    lemma_split_concat(sx, sy, '/');
    assert forall|i: int| 0 <= i < sx.len() implies sx[i] != '/' by {
        if 1 <= i < sx.len() - 1 {
            assert(sx[i] == x[i - 1]);
        }
    }
    assert forall|i: int| 0 <= i < sy.len() implies sy[i] != '/' by {
        if 1 <= i < sy.len() - 1 {
            assert(sy[i] == y[i - 1]);
        }
    }
    lemma_split_single(sx, '/');
    lemma_split_single(sy, '/');
    let segs = seq![e, sx, sy];
    assert(split_on(e, '/') =~= seq![e]);
    assert(seq![e] + (seq![sx] + seq![sy]) =~= segs);
    assert(param_of_segment(sx) == Some(x)) by {
        assert(sx.subrange(1, sx.len() - 1) =~= x);
    }
    assert(param_of_segment(sy) == Some(y)) by {
        assert(sy.subrange(1, sy.len() - 1) =~= y);
    }
    assert(segs.drop_last() =~= seq![e, sx]);
    assert(seq![e, sx].drop_last() =~= seq![e]);
    assert(seq![e].drop_last() =~= Seq::<Seq<char>>::empty());
    assert(param_of_segment(e) is None);
    assert(params_of_segments(Seq::<Seq<char>>::empty()) == Seq::<Seq<char>>::empty());
    assert(params_of_segments(seq![e]) =~= Seq::<Seq<char>>::empty());
    assert(params_of_segments(seq![e, sx]) =~= seq![x]);
    assert(!seq![x].contains(y)) by {
        if seq![x].contains(y) {
            let i = choose|i: int| 0 <= i < 1 && seq![x][i] == y;
        }
    }
    assert(params_of_segments(segs) =~= seq![x, y]);
}

/// Adds the parameter of `seg`, if it is one and not there yet.
fn add_segment_param(params: &mut Vec<String>, seg: &Vec<char>)
    ensures
        string_views(final(params)@) == match param_of_segment(seg@) {
            Some(n) => if string_views(old(params)@).contains(n) {
                string_views(old(params)@)
            } else {
                string_views(old(params)@).push(n)
            },
            None => string_views(old(params)@),
        },
{
    let n = seg.len();
    if n >= 2 && seg[0] == '{' && seg[n - 1] == '}' {
        let name = crate::text::slice_of(seg, 1, n - 1);
        assert(param_of_segment(seg@) == Some(name@));
        let mut k: usize = 0;
        while k < params.len()
            invariant
                name@ == seg@.subrange(1, n - 1),
                param_of_segment(seg@) == Some(name@),
                k <= params@.len(),
                params@ == old(params)@,
                forall|j: int| 0 <= j < k ==> params@[j]@ != name@,
            decreases params@.len() - k,
        {
            if params[k] == name {
                assert(string_views(params@)[k as int] == name@);
                assert(string_views(old(params)@).contains(name@));
                return;
            }
            k += 1;
        }
        assert(!string_views(params@).contains(name@));
        params.push(name);
        assert(string_views(params@) =~= string_views(old(params)@).push(name@));
    }
}

/// The path parameters of `path`: the names inside its `{name}` segments, in
/// order of first occurrence, each once.
pub fn extract_parameters_from_path(path: &str) -> (r: Vec<String>)
    ensures
        string_views(r@) == path_params(path@),
{
    let v = chars_of(path);
    let mut params: Vec<String> = Vec::new();
    let mut cur: Vec<char> = Vec::new();
    let ghost mut done: Seq<Seq<char>> = Seq::empty();
    let mut i: usize = 0;
    assert(split_on(path@.subrange(0, 0), '/') =~= seq![Seq::<char>::empty()]);
    assert(seq![Seq::<char>::empty()].drop_last() =~= Seq::<Seq<char>>::empty());
    while i < v.len()
        invariant
            v@ == path@,
            i <= v@.len(),
            split_on(path@.subrange(0, i as int), '/') == done.push(cur@),
            string_views(params@) == params_of_segments(done),
        decreases v@.len() - i,
    {
        let c = v[i];
        let ghost pre = path@.subrange(0, i as int);
        assert(path@.subrange(0, i + 1).drop_last() =~= pre);
        if c == '/' {
            add_segment_param(&mut params, &cur);
            proof {
                assert(done.push(cur@).drop_last() =~= done);
                done = done.push(cur@);
            }
            cur = Vec::new();
        } else {
            let ghost oc = cur@;
            cur.push(c);
            assert(done.push(oc).update(done.len() as int, cur@) =~= done.push(cur@));
        }
        i += 1;
    }
    assert(path@.subrange(0, v@.len() as int) =~= path@);
    add_segment_param(&mut params, &cur);
    assert(done.push(cur@).drop_last() =~= done);
    params
}

/// The pieces of `s` between the occurrences of `sep`.
pub fn split_on_char(s: &str, sep: char) -> (r: Vec<String>)
    ensures
        string_views(r@) == split_on(s@, sep),
{
    let v = chars_of(s);
    let mut pieces: Vec<String> = Vec::new();
    let mut cur: Vec<char> = Vec::new();
    let mut i: usize = 0;
    assert(split_on(s@.subrange(0, 0), sep) =~= seq![Seq::<char>::empty()]);
    assert(string_views(pieces@).push(cur@) =~= seq![Seq::<char>::empty()]);
    while i < v.len()
        invariant
            v@ == s@,
            i <= v@.len(),
            split_on(s@.subrange(0, i as int), sep) == string_views(pieces@).push(cur@),
        decreases v@.len() - i,
    {
        let c = v[i];
        assert(s@.subrange(0, i + 1).drop_last() =~= s@.subrange(0, i as int));
        let ghost done = string_views(pieces@);
        if c == sep {
            let piece = string_of(&cur);
            pieces.push(piece);
            assert(string_views(pieces@) =~= done.push(cur@));
            cur = Vec::new();
            assert(string_views(pieces@).push(cur@) =~= done.push(piece@).push(Seq::<char>::empty()));
        } else {
            let ghost oc = cur@;
            cur.push(c);
            assert(done.push(oc).update(done.len() as int, cur@) =~= done.push(cur@));
        }
        i += 1;
    }
    assert(s@.subrange(0, v@.len() as int) =~= s@);
    let ghost done = string_views(pieces@);
    let last = string_of(&cur);
    pieces.push(last);
    assert(string_views(pieces@) =~= done.push(cur@));
    pieces
}

/// The full path of a route: without a prefix the path itself, else the
/// prefix without trailing slashes, one slash, and the path without leading
/// slashes.
pub open spec fn full_path(prefix: Seq<char>, path: Seq<char>) -> Seq<char> {
    if prefix.len() == 0 {
        path
    } else {
        trim_end(prefix, '/') + seq!['/'] + trim_start(path, '/')
    }
}

/// Joins a prefix and a route path with exactly one slash between them.
pub fn build_full_path(prefix: &str, path: &str) -> (r: String)
    ensures
        r@ == full_path(prefix@, path@),
{
    if prefix.unicode_len() == 0 {
        String::from_str(path)
    } else {
        let mut out = trim_end_matches(prefix, '/');
        push_char(&mut out, '/');
        let rest = trim_start_matches(path, '/');
        out.append(rest.as_str());
        out
    }
}

} // verus!
