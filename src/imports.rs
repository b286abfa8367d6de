//! The type imports that generated TypeScript code needs.
use crate::routes::{routes_view, RouteInfo, RouteView};
use crate::text::{chars_of, ends_with, has_prefix, has_suffix, slice_of, starts_with, str_eq, string_of, string_views};
use crate::text::opt_seq;
use vstd::prelude::*;

verus! {

/// Whether `c` is white space, as Unicode's `White_Space` property (and
/// `char::is_whitespace`) has it.
pub open spec fn is_white_space(c: char) -> bool {
    ('\u{9}' <= c && c <= '\u{d}') || c == ' ' || c == '\u{85}' || c == '\u{a0}' || c == '\u{1680}'
        || ('\u{2000}' <= c && c <= '\u{200a}') || c == '\u{2028}' || c == '\u{2029}'
        || c == '\u{202f}' || c == '\u{205f}' || c == '\u{3000}'
}

/// The number of white-space characters at the start of `s`.
pub open spec fn leading_space(s: Seq<char>) -> nat
    decreases s.len(),
{
    if s.len() > 0 && is_white_space(s[0]) {
        1 + leading_space(s.subrange(1, s.len() as int))
    } else {
        0
    }
}

/// The number of white-space characters at the end of `s`.
pub open spec fn trailing_space(s: Seq<char>) -> nat
    decreases s.len(),
{
    if s.len() > 0 && is_white_space(s.last()) {
        1 + trailing_space(s.drop_last())
    } else {
        0
    }
}

/// `s` without white space at either end.
pub open spec fn trimmed_space(s: Seq<char>) -> Seq<char> {
    let t = s.subrange(leading_space(s) as int, s.len() as int);
    t.subrange(0, t.len() - trailing_space(t))
}

/// `s` up to its first comma.
pub open spec fn before_comma(s: Seq<char>) -> Seq<char>
    decreases s.len(),
{
    if s.len() == 0 || s[0] == ',' {
        Seq::empty()
    } else {
        seq![s[0]] + before_comma(s.subrange(1, s.len() as int))
    }
}

/// The argument of `Array<T>` or `Option<T>`, or the first argument of
/// `Result<T, E>` without surrounding white space.
pub open spec fn generic_inner(t: Seq<char>) -> Option<Seq<char>> {
    if starts_with(t, "Array<"@) && ends_with(t, ">"@) {
        Some(t.subrange(6, t.len() - 1))
    } else if starts_with(t, "Option<"@) && ends_with(t, ">"@) {
        Some(t.subrange(7, t.len() - 1))
    } else if starts_with(t, "Result<"@) && ends_with(t, ">"@) {
        Some(trimmed_space(before_comma(t.subrange(7, t.len() - 1))))
    } else {
        None
    }
}

/// TypeScript's builtin type names.
pub open spec fn is_builtin_ts(n: Seq<char>) -> bool {
    n == "string"@ || n == "number"@ || n == "boolean"@ || n == "any"@ || n == "void"@
        || n == "unknown"@ || n == "null"@ || n == "undefined"@ || n == "Array"@ || n == "Promise"@
}

/// The type to import for a written type: generic wrappers unwrapped, and
/// nothing for a builtin.
pub open spec fn importable_of(t: Seq<char>) -> Option<Seq<char>>
    decreases t.len(),
{
    match generic_inner(t) {
        Some(i) => if i.len() < t.len() {
            importable_of(i)
        } else {
            None
        },
        None => if is_builtin_ts(t) {
            None
        } else {
            Some(t)
        },
    }
}

/// `s` with `x` added at the end, unless it is there already.
pub open spec fn insert_new(s: Seq<Seq<char>>, x: Seq<char>) -> Seq<Seq<char>> {
    if s.contains(x) {
        s
    } else {
        s.push(x)
    }
}

/// The imports after those that one route needs.
pub open spec fn collect_route(st: (Seq<Seq<char>>, Seq<Seq<char>>), r: RouteView) -> (
    Seq<Seq<char>>,
    Seq<Seq<char>>,
) {
    let t0 = st.0;
    let t1 = match r.handler_info.body_param {
        Some(b) => match importable_of(b) {
            Some(i) => insert_new(t0, i),
            None => t0,
        },
        None => t0,
    };
    let t2 = match r.handler_info.return_type.found_type {
        Some(f) => if r.handler_info.return_type.is_importable {
            match importable_of(f) {
                Some(i) => insert_new(t1, i),
                None => t1,
            }
        } else {
            t1
        },
        None => t1,
    };
    (t2, insert_all(st.1, r.handler_info.return_type.error_types))
}

/// `s` with each of `xs` added in turn (see `insert_new`).
pub open spec fn insert_all(s: Seq<Seq<char>>, xs: Seq<Seq<char>>) -> Seq<Seq<char>>
    decreases xs.len(),
{
    if xs.len() == 0 {
        s
    } else {
        insert_new(insert_all(s, xs.drop_last()), xs.last())
    }
}

/// The imports after those that each of `rs` needs, in turn.
pub open spec fn collect_all(st: (Seq<Seq<char>>, Seq<Seq<char>>), rs: Seq<RouteView>) -> (
    Seq<Seq<char>>,
    Seq<Seq<char>>,
)
    decreases rs.len(),
{
    if rs.len() == 0 {
        st
    } else {
        collect_route(collect_all(st, rs.drop_last()), rs.last())
    }
}

/// The import statement of one type.
pub open spec fn import_line(t: Seq<char>) -> Seq<char> {
    "import { type "@ + t + " } from \"../../../bindings/"@ + t + "\";"@
}

/// The type names that generated code imports, each once, in the order in
/// which they were first needed: response and body types, and error types.
/// They are kept in vectors, not hash sets, so that the import lines come
/// out in the same order on every run.
pub struct TypeImportManager {
    pub type_imports: Vec<String>,
    pub error_imports: Vec<String>,
}

impl View for TypeImportManager {
    type V = (Seq<Seq<char>>, Seq<Seq<char>>);

    open spec fn view(&self) -> (Seq<Seq<char>>, Seq<Seq<char>>) {
        (string_views(self.type_imports@), string_views(self.error_imports@))
    }
}

proof fn lemma_insert_keeps_unique(s: Seq<Seq<char>>, x: Seq<char>)
    requires
        s.no_duplicates(),
    ensures
        insert_new(s, x).no_duplicates(),
{
    if !s.contains(x) {
        assert forall|i: int, j: int| 0 <= i < s.len() + 1 && 0 <= j < s.len() + 1 && i != j implies s.push(
            x,
        )[i] != s.push(x)[j] by {
            if i == s.len() as int {
                assert(s.push(x)[j] == s[j]);
            } else if j == s.len() as int {
                assert(s.push(x)[i] == s[i]);
            }
        }
    }
}

proof fn lemma_insert_all_keeps_unique(s: Seq<Seq<char>>, xs: Seq<Seq<char>>)
    requires
        s.no_duplicates(),
    ensures
        insert_all(s, xs).no_duplicates(),
    decreases xs.len(),
{
    if xs.len() > 0 {
        lemma_insert_all_keeps_unique(s, xs.drop_last());
        lemma_insert_keeps_unique(insert_all(s, xs.drop_last()), xs.last());
    }
}

/// Adds `x` to `v` unless it is there already.
fn insert_string(v: &mut Vec<String>, x: String)
    ensures
        string_views(final(v)@) == insert_new(string_views(old(v)@), x@),
{
    let mut k: usize = 0;
    while k < v.len()
        invariant
            k <= v@.len(),
            v@ == old(v)@,
            forall|j: int| 0 <= j < k ==> v@[j]@ != x@,
        decreases v@.len() - k,
    {
        if v[k] == x {
            assert(string_views(v@)[k as int] == x@);
            return;
        }
        k += 1;
    }
    assert(!string_views(v@).contains(x@));
    let ghost before = v@;
    v.push(x);
    assert(string_views(v@) =~= string_views(before).push(x@));
}

/// The characters of `s` up to its first comma.
fn up_to_comma(s: &Vec<char>) -> (r: Vec<char>)
    ensures
        r@ == before_comma(s@),
{
    let n = s.len();
    let mut i: usize = 0;
    assert(s@.subrange(0, n as int) =~= s@);
    assert(s@.subrange(0, 0) + before_comma(s@) =~= before_comma(s@));
    while i < n && s[i] != ','
        invariant
            n == s@.len(),
            i <= n,
            s@.subrange(0, i as int) + before_comma(s@.subrange(i as int, n as int)) == before_comma(s@),
        decreases n - i,
    {
        let ghost rest = s@.subrange(i as int, n as int);
        assert(rest.subrange(1, rest.len() as int) =~= s@.subrange(i + 1, n as int));
        assert(s@.subrange(0, i + 1) + before_comma(s@.subrange(i + 1, n as int)) =~= s@.subrange(
            0,
            i as int,
        ) + (seq![s@[i as int]] + before_comma(s@.subrange(i + 1, n as int))));
        i += 1;
    }
    assert(before_comma(s@.subrange(i as int, n as int)) =~= Seq::<char>::empty());
    assert(s@.subrange(0, i as int) + Seq::<char>::empty() =~= s@.subrange(0, i as int));
    let mut out: Vec<char> = Vec::new();
    let mut k: usize = 0;
    while k < i
        invariant
            i <= n,
            n == s@.len(),
            k <= i,
            out@ == s@.subrange(0, k as int),
        decreases i - k,
    {
        out.push(s[k]);
        assert(out@ =~= s@.subrange(0, k + 1));
        k += 1;
    }
    out
}

/// Whether `c` is white space (see `is_white_space`).
fn white_space(c: char) -> (r: bool)
    ensures
        r == is_white_space(c),
{
    ('\u{9}' <= c && c <= '\u{d}') || c == ' ' || c == '\u{85}' || c == '\u{a0}' || c == '\u{1680}'
        || ('\u{2000}' <= c && c <= '\u{200a}') || c == '\u{2028}' || c == '\u{2029}'
        || c == '\u{202f}' || c == '\u{205f}' || c == '\u{3000}'
}

/// `s` without white space at either end.
fn trim_space(s: &Vec<char>) -> (r: Vec<char>)
    ensures
        r@ == trimmed_space(s@),
        r@.len() <= s@.len(),
{
    let n = s.len();
    let mut i: usize = 0;
    assert(s@.subrange(0, n as int) =~= s@);
    while i < n && white_space(s[i])
        invariant
            n == s@.len(),
            i <= n,
            leading_space(s@) == i + leading_space(s@.subrange(i as int, n as int)),
        decreases n - i,
    {
        let ghost rest = s@.subrange(i as int, n as int);
        assert(rest.subrange(1, rest.len() as int) =~= s@.subrange(i + 1, n as int));
        i += 1;
    }
    let ghost t = s@.subrange(i as int, n as int);
    let mut j: usize = n;
    assert(t.subrange(0, (j - i) as int) =~= t);
    while j > i && white_space(s[j - 1])
        invariant
            n == s@.len(),
            i <= j <= n,
            t == s@.subrange(i as int, n as int),
            trailing_space(t) == (n - j) + trailing_space(t.subrange(0, j - i)),
        decreases j,
    {
        let ghost cur = t.subrange(0, j - i);
        assert(cur.drop_last() =~= t.subrange(0, j - 1 - i));
        assert(cur.last() == s@[j - 1]);
        j -= 1;
    }
    assert(t.subrange(0, t.len() - trailing_space(t)) =~= s@.subrange(i as int, j as int));
    let mut out: Vec<char> = Vec::new();
    let mut k: usize = i;
    while k < j
        invariant
            i <= k <= j <= n,
            n == s@.len(),
            out@ == s@.subrange(i as int, k as int),
        decreases j - k,
    {
        out.push(s[k]);
        assert(out@ =~= s@.subrange(i as int, k + 1));
        k += 1;
    }
    out
}

impl TypeImportManager {
    /// A manager with no imports.
    pub fn new() -> (r: Self)
        ensures
            r@.0 == Seq::<Seq<char>>::empty(),
            r@.1 == Seq::<Seq<char>>::empty(),
    {
        let r = TypeImportManager { type_imports: Vec::new(), error_imports: Vec::new() };
        assert(r@.0 =~= Seq::<Seq<char>>::empty());
        assert(r@.1 =~= Seq::<Seq<char>>::empty());
        r
    }

    /// Whether each type is recorded once.
    pub open spec fn wf(&self) -> bool {
        self@.0.no_duplicates() && self@.1.no_duplicates()
    }

    /// The argument of a generic wrapper (see `generic_inner`).
    fn extract_generic_inner_type(t: &str) -> (r: Option<String>)
        ensures
            crate::text::opt_seq(r) == generic_inner(t@),
            r matches Some(i) ==> i@.len() < t@.len(),
    {
        let v = chars_of(t);
        let n = v.len();
        let closes = has_suffix(t, ">");
        proof {
            reveal_strlit("Array<");
            reveal_strlit("Option<");
            reveal_strlit("Result<");
            reveal_strlit(">");
        }
        proof {
            if closes {
                assert(t@.subrange(n - 1, n as int)[0] == t@[n - 1]);
                assert(t@[n - 1] == '>');
            }
            if starts_with(t@, "Array<"@) {
                assert(t@.subrange(0, 6)[5] == t@[5]);
            }
            if starts_with(t@, "Option<"@) || starts_with(t@, "Result<"@) {
                assert(t@.subrange(0, 7)[6] == t@[6]);
            }
        }
        if has_prefix(t, "Array<") && closes {
            Some(slice_of(&v, 6, n - 1))
        } else if has_prefix(t, "Option<") && closes {
            Some(slice_of(&v, 7, n - 1))
        } else if has_prefix(t, "Result<") && closes {
            let inner = crate::text::slice_of(&v, 7, n - 1);
            let first = up_to_comma(&chars_of(inner.as_str()));
            proof {
                assert(before_comma(inner@).len() <= inner@.len()) by {
                    lemma_before_comma_len(inner@);
                }
            }
            Some(string_of(&trim_space(&first)))
        } else {
            None
        }
    }

    /// Whether `name` is a TypeScript builtin (see `is_builtin_ts`).
    fn is_builtin_type(name: &str) -> (r: bool)
        ensures
            r == is_builtin_ts(name@),
    {
        str_eq(name, "string") || str_eq(name, "number") || str_eq(name, "boolean") || str_eq(
            name,
            "any",
        ) || str_eq(name, "void") || str_eq(name, "unknown") || str_eq(name, "null") || str_eq(
            name,
            "undefined",
        ) || str_eq(name, "Array") || str_eq(name, "Promise")
    }

    /// Records the type to import for `t`, generic wrappers unwrapped and
    /// builtins left out (see `importable_of`).
    pub fn extract_importable_types(&mut self, t: &str)
        ensures
            final(self)@.0 == match importable_of(t@) {
                Some(i) => insert_new(old(self)@.0, i),
                None => old(self)@.0,
            },
            final(self)@.1 == old(self)@.1,
        decreases t@.len(),
    {
        match Self::extract_generic_inner_type(t) {
            Some(inner) => {
                self.extract_importable_types(inner.as_str());
            },
            None => {
                if !Self::is_builtin_type(t) {
                    insert_string(&mut self.type_imports, String::from_str(t));
                }
            },
        }
    }

    /// Records what each route needs: its body type, its response type where
    /// that is importable, and its error types.
    pub fn collect_from_routes(&mut self, routes: &Vec<RouteInfo>)
        ensures
            final(self)@ == collect_all(old(self)@, routes_view(routes@)),
            old(self).wf() ==> final(self).wf(),
    {
        let mut i: usize = 0;
        assert(routes_view(routes@).subrange(0, 0) =~= Seq::<RouteView>::empty());
        while i < routes.len()
            invariant
                i <= routes@.len(),
                self@ == collect_all(old(self)@, routes_view(routes@).subrange(0, i as int)),
                old(self).wf() ==> self.wf(),
            decreases routes@.len() - i,
        {
            let ghost cur = routes_view(routes@).subrange(0, i + 1);
            assert(cur.drop_last() =~= routes_view(routes@).subrange(0, i as int));
            let route = &routes[i];
            let ghost st0 = self@;
            if let Some(b) = &route.handler_info.body_param {
                self.extract_importable_types(b.as_str());
            }
            if let Some(f) = &route.handler_info.return_type.found_type {
                if route.handler_info.return_type.is_importable {
                    self.extract_importable_types(f.as_str());
                }
            }
            let errs = &route.handler_info.return_type.error_types;
            let mut k: usize = 0;
            let ghost mid = self@.0;
            assert(errs@.map_values(|s: String| s@).subrange(0, 0) =~= Seq::<Seq<char>>::empty());
            while k < errs.len()
                invariant
                    k <= errs@.len(),
                    self@.0 == mid,
                    self@.1 == insert_all(st0.1, errs@.map_values(|s: String| s@).subrange(0, k as int)),
                decreases errs@.len() - k,
            {
                assert(errs@.map_values(|s: String| s@).subrange(0, k + 1).drop_last()
                    =~= errs@.map_values(|s: String| s@).subrange(0, k as int));
                insert_string(&mut self.error_imports, errs[k].clone());
                k += 1;
            }
            assert(errs@.map_values(|s: String| s@).subrange(0, k as int) =~= errs@.map_values(
                |s: String| s@,
            ));
            proof {
                let t0 = st0.0;
                let r = routes@[i as int]@;
                let t1 = match r.handler_info.body_param {
                    Some(b) => match importable_of(b) {
                        Some(x) => insert_new(t0, x),
                        None => t0,
                    },
                    None => t0,
                };
                if st0.0.no_duplicates() {
                    match r.handler_info.body_param {
                        Some(b) => match importable_of(b) {
                            Some(x) => lemma_insert_keeps_unique(t0, x),
                            None => {},
                        },
                        None => {},
                    }
                    match r.handler_info.return_type.found_type {
                        Some(f) => match importable_of(f) {
                            Some(x) => lemma_insert_keeps_unique(t1, x),
                            None => {},
                        },
                        None => {},
                    }
                }
                if st0.1.no_duplicates() {
                    lemma_insert_all_keeps_unique(st0.1, r.handler_info.return_type.error_types);
                }
            }
            i += 1;
        }
        assert(routes_view(routes@).subrange(0, i as int) =~= routes_view(routes@));
    }

    /// One import statement for each recorded type, then one for each
    /// recorded error type.
    pub fn generate_imports(&self) -> (r: Vec<String>)
        ensures
            string_views(r@) == self@.0.map_values(|t: Seq<char>| import_line(t)) + self@.1.map_values(
                |t: Seq<char>| import_line(t),
            ),
    {
        let mut out: Vec<String> = Vec::new();
        let mut i: usize = 0;
        let n0 = self.type_imports.len();
        while i < n0
            invariant
                n0 == self@.0.len(),
                i <= n0,
                out@.len() == i,
                forall|j: int| 0 <= j < i ==> #[trigger] out@[j]@ == import_line(self@.0[j]),
            decreases n0 - i,
        {
            out.push(import_statement(self.type_imports[i].as_str()));
            i += 1;
        }
        let mut k: usize = 0;
        while k < self.error_imports.len()
            invariant
                n0 == self@.0.len(),
                k <= self@.1.len(),
                out@.len() == n0 + k,
                forall|j: int| 0 <= j < n0 ==> #[trigger] out@[j]@ == import_line(self@.0[j]),
                forall|j: int| 0 <= j < k ==> #[trigger] out@[n0 + j]@ == import_line(self@.1[j]),
            decreases self@.1.len() - k,
        {
            out.push(import_statement(self.error_imports[k].as_str()));
            assert(out@[n0 + k]@ == import_line(self@.1[k as int]));
            k += 1;
        }
        assert(string_views(out@) =~= self@.0.map_values(|t: Seq<char>| import_line(t)) + self@.1.map_values(
            |t: Seq<char>| import_line(t),
        )) by {
            assert forall|j: int| n0 <= j < out@.len() implies #[trigger] out@[j]@ == import_line(self@.1[j - n0]) by {
                assert(out@[n0 + (j - n0)]@ == import_line(self@.1[j - n0]));
            }
        }
        out
    }
}

impl Default for TypeImportManager {
    /// A manager with no imports.
    fn default() -> (r: Self)
        ensures
            r@.0 == Seq::<Seq<char>>::empty(),
            r@.1 == Seq::<Seq<char>>::empty(),
    {
        Self::new()
    }
}

proof fn lemma_before_comma_len(s: Seq<char>)
    ensures
        before_comma(s).len() <= s.len(),
    decreases s.len(),
{
    if s.len() > 0 && s[0] != ',' {
        lemma_before_comma_len(s.subrange(1, s.len() as int));
    }
}

/// The import statement of one type (see `import_line`).
fn import_statement(t: &str) -> (r: String)
    ensures
        r@ == import_line(t@),
{
    let mut out = String::from_str("import { type ");
    out.append(t);
    out.append(" } from \"../../../bindings/");
    out.append(t);
    out.append("\";");
    out
}

} // verus!
