//! Route names derived from paths and methods.
use crate::case::{lowercase_of, sanitize_identifier, sanitized, to_lowercase};
use crate::config::NamingConfig;
use crate::path::full_path;
use crate::text::{lemma_trim_end_concat, lemma_trim_end_prefix, lemma_trim_idempotent, lemma_trim_start_head, lemma_trim_start_kept, trim_end, chars_of, has_prefix, push_char, slice_of, starts_with, string_of, trim, trim_matches, trim_start, trim_start_matches};
use crate::text::opt_seq;
use vstd::prelude::*;

verus! {

/// `s` with every `//` (taken left to right) made a single `/`.
pub open spec fn single_slashes(s: Seq<char>) -> Seq<char>
    decreases s.len(),
{
    if s.len() == 0 {
        s
    } else if s.len() >= 2 && s[0] == '/' && s[1] == '/' {
        seq!['/'] + single_slashes(s.subrange(2, s.len() as int))
    } else {
        seq![s[0]] + single_slashes(s.subrange(1, s.len() as int))
    }
}

/// `s` without its braces.
pub open spec fn without_braces(s: Seq<char>) -> Seq<char>
    decreases s.len(),
{
    if s.len() == 0 {
        s
    } else {
        let p = without_braces(s.drop_last());
        if s.last() == '{' || s.last() == '}' {
            p
        } else {
            p.push(s.last())
        }
    }
}

/// `s` with every character of `seps` made an underscore.
pub open spec fn separators_to_underscores(s: Seq<char>, seps: Seq<char>) -> Seq<char> {
    s.map_values(|x: char| if seps.contains(x) { '_' } else { x })
}

/// `s` with every run of underscores made a single underscore.
pub open spec fn collapse_underscores(s: Seq<char>) -> Seq<char>
    decreases s.len(),
{
    if s.len() == 0 {
        s
    } else {
        let p = collapse_underscores(s.drop_last());
        if s.len() >= 2 && s.last() == '_' && s[s.len() - 2] == '_' {
            p
        } else {
            p.push(s.last())
        }
    }
}

/// The separators in force: the configured ones, or else `-`, `/`, `.` and `:`.
pub open spec fn separators_in_force(seps: Option<Seq<char>>) -> Seq<char> {
    match seps {
        Some(s) => s,
        None => "-/.:"@,
    }
}

/// The part of a route name that comes from its path.
pub open spec fn cleaned_for_name(path: Seq<char>, seps: Option<Seq<char>>) -> Seq<char> {
    let a = without_braces(single_slashes(trim(path, '/')));
    trim(collapse_underscores(separators_to_underscores(a, separators_in_force(seps))), '_')
}

/// The path that a name is made from: where the configured prefix to strip
/// begins the path (both taken without outer slashes), what follows it
/// without leading slashes; else the path itself.
pub open spec fn path_for_name(path: Seq<char>, strip: Option<Seq<char>>) -> Seq<char> {
    match strip {
        Some(p) => {
            let np = trim(p, '/');
            let nq = trim(path, '/');
            if starts_with(nq, np) {
                trim_start(nq.subrange(np.len() as int, nq.len() as int), '/')
            } else {
                path
            }
        },
        None => path,
    }
}

/// The name of the route at `path` with `method`: its cleaned path (or
/// `root` where nothing is left), after the lower-cased method and an
/// underscore where methods are included, made into an identifier.
pub open spec fn route_name(
    path: Seq<char>,
    method: Seq<char>,
    include_method: bool,
    strip: Option<Seq<char>>,
    seps: Option<Seq<char>>,
) -> Seq<char> {
    let clean = cleaned_for_name(path_for_name(path, strip), seps);
    let base = if clean.len() == 0 || clean == seq!['/'] {
        "root"@
    } else {
        clean
    };
    let name = if include_method {
        lowercase_of(method) + seq!['_'] + base
    } else {
        base
    };
    sanitized(name)
}

/// Whether a naming configuration includes the method in names.
pub open spec fn includes_method(config: NamingConfig) -> bool {
    match config.include_method_in_names {
        Some(b) => b,
        None => true,
    }
}

/// The name that `config` gives the route at `path` with `method`.
pub open spec fn configured_route_name(
    path: Seq<char>,
    method: Seq<char>,
    config: NamingConfig,
) -> Seq<char> {
    route_name(
        path,
        method,
        includes_method(config),
        opt_seq(config.path_prefix_to_remove),
        opt_seq(config.word_separators),
    )
}

/// Applying a prefix and stripping it for naming are independent: under the
/// prefix `/w` (one segment), a route declared at `q` gets the path `/w/`
/// followed by `q` without leading slashes, while the name that strips `/w`
/// is the name that `q` alone gets without stripping.
pub proof fn lemma_prefix_independent(
    w: Seq<char>,
    q: Seq<char>,
    method: Seq<char>,
    include_method: bool,
    seps: Option<Seq<char>>,
)
    requires
        w.len() > 0,
        forall|i: int| 0 <= i < w.len() ==> w[i] != '/',
    ensures
        full_path(seq!['/'] + w, q) == seq!['/'] + w + seq!['/'] + trim_start(q, '/'),
        route_name(full_path(seq!['/'] + w, q), method, include_method, Some(seq!['/'] + w), seps)
            == route_name(q, method, include_method, None, seps),
{
    let p = seq!['/'] + w;
    let u = trim_start(q, '/');
    assert(p.last() == w.last());
    assert(w.last() == w[w.len() - 1]);
    assert(trim_end(p, '/') == p);
    let full = p + seq!['/'] + u;
    assert(full_path(p, q) == full);
    assert(p.subrange(1, p.len() as int) =~= w);
    lemma_trim_start_kept(w, Seq::<char>::empty(), '/');
    assert(w + Seq::<char>::empty() =~= w);
    assert(trim_start(p, '/') == w);
    assert(trim_end(w, '/') == w);
    assert(trim(p, '/') == w);
    let su = seq!['/'] + u;
    assert(full.subrange(1, full.len() as int) =~= w + su);
    lemma_trim_start_kept(w, su, '/');
    assert(trim_start(full, '/') == w + su);
    lemma_trim_end_concat(w, su, '/');
    lemma_trim_end_concat(seq!['/'], u, '/');
    lemma_trim_start_head(q, '/');
    lemma_trim_end_prefix(u, '/');
    let tu = trim_end(u, '/');
    let nq = trim(full, '/');
    if tu.len() > 0 {
        assert(trim_end(su, '/') == seq!['/'] + tu);
        assert(nq == w + (seq!['/'] + tu));
        assert(nq.subrange(0, w.len() as int) =~= w);
        assert(nq.subrange(w.len() as int, nq.len() as int) =~= seq!['/'] + tu);
        assert((seq!['/'] + tu).subrange(1, tu.len() as int + 1) =~= tu);
        assert(tu[0] == u[0]);
        lemma_trim_start_kept(tu, Seq::<char>::empty(), '/');
        assert(tu + Seq::<char>::empty() =~= tu);
        assert(trim_start(seq!['/'] + tu, '/') == tu);
    } else {
        assert(seq!['/'].drop_last() =~= Seq::<char>::empty());
        assert(trim_end(seq!['/'], '/') == trim_end(Seq::<char>::empty(), '/'));
        assert(trim_end(su, '/').len() == 0);
        assert(nq == w);
        assert(nq.subrange(0, w.len() as int) =~= w);
        assert(nq.subrange(w.len() as int, nq.len() as int) =~= Seq::<char>::empty());
    }
    assert(path_for_name(full, Some(p)) == trim(q, '/'));
    lemma_trim_idempotent(q, '/');
}

/// Deriving a name is deterministic: any two names derived from the same
/// path, method and configuration are the same.
pub proof fn lemma_route_name_deterministic(
    path: Seq<char>,
    method: Seq<char>,
    config: NamingConfig,
    first: Seq<char>,
    second: Seq<char>,
)
    requires
        first == configured_route_name(path, method, config),
        second == configured_route_name(path, method, config),
    ensures
        first == second,
{
}

proof fn lemma_push_concat(a: Seq<char>, x: char, b: Seq<char>)
    ensures
        a.push(x) + b == a + (seq![x] + b),
{
    assert(a.push(x) + b =~= a + (seq![x] + b));
}

fn collapse_double_slashes(v: &Vec<char>) -> (r: Vec<char>)
    ensures
        r@ == single_slashes(v@),
{
    let n = v.len();
    let mut out: Vec<char> = Vec::new();
    let mut i: usize = 0;
    assert(v@.subrange(0, n as int) =~= v@);
    while i < n
        invariant
            n == v@.len(),
            i <= n,
            out@ + single_slashes(v@.subrange(i as int, n as int)) == single_slashes(v@),
        decreases n - i,
    {
        let ghost r = v@.subrange(i as int, n as int);
        if i + 1 < n && v[i] == '/' && v[i + 1] == '/' {
            assert(r.subrange(2, r.len() as int) =~= v@.subrange(i + 2, n as int));
            proof {
                lemma_push_concat(out@, '/', single_slashes(v@.subrange(i + 2, n as int)));
            }
            out.push('/');
            i += 2;
        } else {
            assert(r.subrange(1, r.len() as int) =~= v@.subrange(i + 1, n as int));
            proof {
                lemma_push_concat(out@, v@[i as int], single_slashes(v@.subrange(i + 1, n as int)));
            }
            out.push(v[i]);
            i += 1;
        }
    }
    assert(out@ + single_slashes(v@.subrange(n as int, n as int)) =~= out@);
    out
}

fn remove_braces(v: &Vec<char>) -> (r: Vec<char>)
    ensures
        r@ == without_braces(v@),
{
    let mut out: Vec<char> = Vec::new();
    let mut i: usize = 0;
    while i < v.len()
        invariant
            i <= v@.len(),
            out@ == without_braces(v@.subrange(0, i as int)),
        decreases v@.len() - i,
    {
        assert(v@.subrange(0, i + 1).drop_last() =~= v@.subrange(0, i as int));
        if v[i] != '{' && v[i] != '}' {
            out.push(v[i]);
        }
        i += 1;
    }
    assert(v@.subrange(0, i as int) =~= v@);
    out
}

fn contains_char(s: &Vec<char>, c: char) -> (r: bool)
    ensures
        r == s@.contains(c),
{
    let mut i: usize = 0;
    while i < s.len()
        invariant
            i <= s@.len(),
            forall|j: int| 0 <= j < i ==> s@[j] != c,
        decreases s@.len() - i,
    {
        if s[i] == c {
            return true;
        }
        i += 1;
    }
    false
}

fn underscore_separators(v: &Vec<char>, seps: &Vec<char>) -> (r: Vec<char>)
    ensures
        r@ == separators_to_underscores(v@, seps@),
{
    let mut out: Vec<char> = Vec::new();
    let mut i: usize = 0;
    while i < v.len()
        invariant
            i <= v@.len(),
            out@ == separators_to_underscores(v@.subrange(0, i as int), seps@),
        decreases v@.len() - i,
    {
        let c = v[i];
        let d = if contains_char(seps, c) {
            '_'
        } else {
            c
        };
        out.push(d);
        assert(separators_to_underscores(v@.subrange(0, i + 1), seps@) =~= out@);
        i += 1;
    }
    assert(v@.subrange(0, i as int) =~= v@);
    out
}

fn collapse_runs(v: &Vec<char>) -> (r: Vec<char>)
    ensures
        r@ == collapse_underscores(v@),
{
    let mut out: Vec<char> = Vec::new();
    let mut i: usize = 0;
    while i < v.len()
        invariant
            i <= v@.len(),
            out@ == collapse_underscores(v@.subrange(0, i as int)),
        decreases v@.len() - i,
    {
        let ghost s = v@.subrange(0, i + 1);
        assert(s.drop_last() =~= v@.subrange(0, i as int));
        if !(i >= 1 && v[i] == '_' && v[i - 1] == '_') {
            out.push(v[i]);
        }
        i += 1;
    }
    assert(v@.subrange(0, i as int) =~= v@);
    out
}

/// The part of a route name that comes from `path` (see `cleaned_for_name`).
pub fn clean_route_path_for_name(path: &str, config: &NamingConfig) -> (r: String)
    ensures
        r@ == cleaned_for_name(path@, opt_seq(config.word_separators)),
{
    let trimmed = trim_matches(path, '/');
    let v = chars_of(trimmed.as_str());
    let a = remove_braces(&collapse_double_slashes(&v));
    let seps = match &config.word_separators {
        Some(s) => chars_of(s.as_str()),
        None => chars_of("-/.:"),
    };
    let b = collapse_runs(&underscore_separators(&a, &seps));
    let s = string_of(&b);
    trim_matches(s.as_str(), '_')
}

/// Derives the name of the route at `path` with `method` (see `route_name`);
/// a prefix to strip changes only the name, never the route's path.
pub fn generate_route_name(path: &str, method: &str, config: &NamingConfig) -> (r: String)
    ensures
        r@ == configured_route_name(path@, method@, *config),
{
    let include_method = match config.include_method_in_names {
        Some(b) => b,
        None => true,
    };
    let mut name_path = String::from_str(path);
    if let Some(prefix) = &config.path_prefix_to_remove {
        let np = trim_matches(prefix.as_str(), '/');
        let nq = trim_matches(path, '/');
        if has_prefix(nq.as_str(), np.as_str()) {
            let qv = chars_of(nq.as_str());
            let rest = slice_of(&qv, np.as_str().unicode_len(), qv.len());
            name_path = trim_start_matches(rest.as_str(), '/');
        }
    }
    assert(name_path@ == path_for_name(path@, opt_seq(config.path_prefix_to_remove)));
    let clean = clean_route_path_for_name(name_path.as_str(), config);
    proof {
        reveal_strlit("/");
        assert("/"@ =~= seq!['/']);
    }
    let ghost cv = clean@;
    let base = if clean.as_str().unicode_len() == 0 || crate::text::str_eq(clean.as_str(), "/") {
        String::from_str("root")
    } else {
        clean
    };
    assert(base@ == (if cv.len() == 0 || cv == seq!['/'] { "root"@ } else { cv }));
    assert(include_method == includes_method(*config));
    let name = if include_method {
        let mut m = to_lowercase(method);
        push_char(&mut m, '_');
        m.append(base.as_str());
        assert(m@ =~= lowercase_of(method@) + seq!['_'] + base@);
        m
    } else {
        base
    };
    sanitize_identifier(name.as_str())
}

} // verus!
