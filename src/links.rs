//! The Rust link enumeration: one variant per route, with its path and method.
use crate::case::{
    camel_case_of, case_of_kind, convert_to_case, convert_to_case_kind, converted_case,
    sanitize_identifier, sanitized, CaseKind,
};
use crate::config::{Config, NamingConfig};
use crate::generators::CodeGenerator;
use crate::path::{extract_parameters_from_path, param_of_segment, path_params, split_on, split_on_char};
use crate::routes::{routes_view, Diagnostic, DiagnosticView, RouteInfo, RouteView};
use crate::text::{chars_of, join_with, joined, push_char, slice_of, string_views};
use crate::text::opt_seq;
use vstd::prelude::*;

verus! {

/// `s` as a Rust string literal: in double quotes, with backslashes and
/// double quotes escaped.
pub open spec fn rust_literal(s: Seq<char>) -> Seq<char> {
    "\""@ + escaped(s) + "\""@
}

/// `s` with backslashes and double quotes escaped.
pub open spec fn escaped(s: Seq<char>) -> Seq<char>
    decreases s.len(),
{
    if s.len() == 0 {
        s
    } else {
        let p = escaped(s.drop_last());
        if s.last() == '\\' || s.last() == '"' {
            p.push('\\').push(s.last())
        } else {
            p.push(s.last())
        }
    }
}

/// A name in the configured case, or else in `default`.
pub open spec fn in_configured_case(name: Seq<char>, case: Option<String>, default: CaseKind) -> Seq<char> {
    match opt_seq(case) {
        Some(c) => converted_case(name, c),
        None => case_of_kind(name, default),
    }
}

/// The variant name of a route name: in the configured case (PascalCase
/// by default), with the configured prefix and suffix, made an identifier.
pub open spec fn variant_name(name: Seq<char>, config: NamingConfig) -> Seq<char> {
    let pre = match opt_seq(config.variant_prefix) {
        Some(p) => p,
        None => Seq::empty(),
    };
    let suf = match opt_seq(config.variant_suffix) {
        Some(s) => s,
        None => Seq::empty(),
    };
    sanitized(pre + in_configured_case(name, config.variant_case, CaseKind::Pascal) + suf)
}

/// The field name of a path parameter: in the configured case (snake_case
/// by default), made an identifier.
pub open spec fn field_name(param: Seq<char>, config: NamingConfig) -> Seq<char> {
    sanitized(in_configured_case(param, config.field_case, CaseKind::Snake))
}

/// The non-empty pieces of a split path.
pub open spec fn nonempty_pieces(segs: Seq<Seq<char>>) -> Seq<Seq<char>>
    decreases segs.len(),
{
    if segs.len() == 0 {
        segs
    } else {
        let p = nonempty_pieces(segs.drop_last());
        if segs.last().len() > 0 {
            p.push(segs.last())
        } else {
            p
        }
    }
}

/// The step that adds one non-empty segment to the path being built: a
/// slash, then the variant's field for a parameter segment, else the
/// segment as written.
pub open spec fn push_step(seg: Seq<char>, config: NamingConfig) -> Seq<char> {
    "path.push('/'); "@ + match param_of_segment(seg) {
        Some(n) => "path.push_str(&"@ + field_name(n, config) + "); "@,
        None => "path.push_str("@ + rust_literal(seg) + "); "@,
    }
}

/// The steps for the first `n` non-empty segments.
pub open spec fn push_steps(segs: Seq<Seq<char>>, n: int, config: NamingConfig) -> Seq<char>
    decreases n,
{
    if n <= 0 || n > segs.len() {
        Seq::empty()
    } else {
        push_steps(segs, n - 1, config) + push_step(segs[n - 1], config)
    }
}

/// The code that renders a path template from the variant's fields: the
/// template rebuilt segment by segment, each after a slash.
pub open spec fn path_build_code(path: Seq<char>, config: NamingConfig) -> Seq<char> {
    let segs = nonempty_pieces(split_on(path, '/'));
    if segs.len() == 0 {
        "\"/\".to_string()"@
    } else {
        "{\n                let mut path = String::new();\n                "@ + push_steps(
            segs,
            segs.len() as int,
            config,
        ) + "\n                path\n            }"@
    }
}

/// The declaration of a route's variant.
pub open spec fn variant_decl(v: Seq<char>, fields: Seq<Seq<char>>) -> Seq<char> {
    if fields.len() == 0 {
        "    "@ + v
    } else {
        "    "@ + v + " { "@ + joined(fields.map_values(|f: Seq<char>| f + ": String"@), ", "@) + " }"@
    }
}

/// The arm of `to_path` for a route's variant.
pub open spec fn path_arm(v: Seq<char>, path: Seq<char>, fields: Seq<Seq<char>>, config: NamingConfig) -> Seq<char> {
    if fields.len() == 0 {
        "            Link::"@ + v + " => "@ + rust_literal(path) + ".to_string()"@
    } else {
        "            Link::"@ + v + " { "@ + joined(fields, ", "@) + " } => "@ + path_build_code(path, config)
    }
}

/// The arm of `method` for a route's variant.
pub open spec fn method_arm(v: Seq<char>, method: Seq<char>) -> Seq<char> {
    "            Link::"@ + v + " { .. } => "@ + rust_literal(method)
}

/// What the link enumeration is assembled from.
pub struct LinkParts {
    /// Each variant so far, with its route.
    pub seen: Seq<(Seq<char>, RouteView)>,
    pub variants: Seq<Seq<char>>,
    pub path_arms: Seq<Seq<char>>,
    pub method_arms: Seq<Seq<char>>,
    pub diagnostics: Seq<DiagnosticView>,
}

/// The route that already has variant `v`.
pub open spec fn find_variant(seen: Seq<(Seq<char>, RouteView)>, v: Seq<char>) -> Option<RouteView>
    decreases seen.len(),
{
    if seen.len() == 0 {
        None
    } else if seen.last().0 == v {
        Some(seen.last().1)
    } else {
        find_variant(seen.drop_last(), v)
    }
}

/// The parts of the link enumeration for `rs`: each route whose variant
/// name no earlier route has gets a variant and its two arms; each other
/// route is skipped with a diagnostic.
pub open spec fn link_parts(rs: Seq<RouteView>, config: NamingConfig) -> LinkParts
    decreases rs.len(),
{
    if rs.len() == 0 {
        LinkParts {
            seen: Seq::empty(),
            variants: Seq::empty(),
            path_arms: Seq::empty(),
            method_arms: Seq::empty(),
            diagnostics: Seq::empty(),
        }
    } else {
        let p = link_parts(rs.drop_last(), config);
        let r = rs.last();
        let v = variant_name(r.name, config);
        match find_variant(p.seen, v) {
            Some(e) => LinkParts {
                diagnostics: p.diagnostics.push(
                    DiagnosticView::DuplicateIdentifier {
                        identifier: v,
                        method: r.method,
                        path: r.path,
                        existing_method: e.method,
                        existing_path: e.path,
                    },
                ),
                ..p
            },
            None => {
                let fields = path_params(r.path).map_values(|q: Seq<char>| field_name(q, config));
                LinkParts {
                    seen: p.seen.push((v, r)),
                    variants: p.variants.push(variant_decl(v, fields)),
                    path_arms: p.path_arms.push(path_arm(v, r.path, fields, config)),
                    method_arms: p.method_arms.push(method_arm(v, r.method)),
                    diagnostics: p.diagnostics,
                }
            },
        }
    }
}

/// The link enumeration source for `rs`.
pub open spec fn links_file(rs: Seq<RouteView>, config: NamingConfig) -> Seq<char> {
    let p = link_parts(rs, config);
    "/// Links to all application routes\n#[derive(Debug, Clone, PartialEq)]\npub enum Link {\n"@
        + joined(p.variants, ",\n"@)
        + "\n}\n\nimpl Link {\n    /// Convert the link to a URL path string\n    pub fn to_path(&self) -> String {\n        match self {\n"@
        + joined(p.path_arms, ",\n"@)
        + "\n        }\n    }\n\n    /// Get the HTTP method for this route\n    pub fn method(&self) -> &'static str {\n        match self {\n"@
        + joined(p.method_arms, ",\n"@)
        + "\n        }\n    }\n}\n\nimpl std::fmt::Display for Link {\n    fn fmt(&self, f: &mut std::fmt::Formatter<'_>) -> std::fmt::Result {\n        write!(f, \"{}\", self.to_path())\n    }\n}\n"@
}

/// `s` as a Rust string literal (see `rust_literal`).
pub fn rust_string_literal(s: &str) -> (r: String)
    ensures
        r@ == rust_literal(s@),
{
    let v = chars_of(s);
    let mut out = String::new();
    let mut i: usize = 0;
    assert(v@.subrange(0, 0) =~= Seq::<char>::empty());
    while i < v.len()
        invariant
            v@ == s@,
            i <= v@.len(),
            out@ == escaped(v@.subrange(0, i as int)),
        decreases v@.len() - i,
    {
        assert(v@.subrange(0, i + 1).drop_last() =~= v@.subrange(0, i as int));
        let c = v[i];
        if c == '\\' || c == '"' {
            push_char(&mut out, '\\');
        }
        push_char(&mut out, c);
        i += 1;
    }
    assert(v@.subrange(0, i as int) =~= v@);
    let mut lit = String::from_str("\"");
    lit.append(out.as_str());
    lit.append("\"");
    lit
}

/// The variant name of a route name (see `variant_name`).
pub fn create_variant_name(name: &str, config: &NamingConfig) -> (r: String)
    ensures
        r@ == variant_name(name@, *config),
{
    let converted = match &config.variant_case {
        Some(c) => convert_to_case(name, c.as_str()),
        None => convert_to_case_kind(name, CaseKind::Pascal),
    };
    let mut result = match &config.variant_prefix {
        Some(p) => p.clone(),
        None => String::new(),
    };
    result.append(converted.as_str());
    if let Some(s) = &config.variant_suffix {
        result.append(s.as_str());
    }
    proof {
        let pre = match opt_seq(config.variant_prefix) {
            Some(p) => p,
            None => Seq::<char>::empty(),
        };
        let suf = match opt_seq(config.variant_suffix) {
            Some(s) => s,
            None => Seq::<char>::empty(),
        };
        assert(result@ =~= pre + in_configured_case(name@, config.variant_case, CaseKind::Pascal) + suf);
    }
    sanitize_identifier(result.as_str())
}

/// The field name of a path parameter (see `field_name`).
pub fn create_field_name(name: &str, config: &NamingConfig) -> (r: String)
    ensures
        r@ == field_name(name@, *config),
{
    let converted = match &config.field_case {
        Some(c) => convert_to_case(name, c.as_str()),
        None => convert_to_case_kind(name, CaseKind::Snake),
    };
    sanitize_identifier(converted.as_str())
}

/// The code that renders a path template from a variant's fields (see
/// `path_build_code`).
pub fn generate_path_build_code(path_template: &str, config: &NamingConfig) -> (r: String)
    ensures
        r@ == path_build_code(path_template@, *config),
{
    let all = split_on_char(path_template, '/');
    let mut segs: Vec<String> = Vec::new();
    let mut i: usize = 0;
    assert(string_views(all@).subrange(0, 0) =~= Seq::<Seq<char>>::empty());
    while i < all.len()
        invariant
            i <= all@.len(),
            string_views(segs@) == nonempty_pieces(string_views(all@).subrange(0, i as int)),
        decreases all@.len() - i,
    {
        assert(string_views(all@).subrange(0, i + 1).drop_last() =~= string_views(all@).subrange(0, i as int));
        if all[i].as_str().unicode_len() > 0 {
            let ghost before = segs@;
            segs.push(all[i].clone());
            assert(string_views(segs@) =~= string_views(before).push(all@[i as int]@));
        }
        i += 1;
    }
    assert(string_views(all@).subrange(0, i as int) =~= string_views(all@));
    if segs.len() == 0 {
        return String::from_str("\"/\".to_string()");
    }
    let mut ops = String::new();
    let mut k: usize = 0;
    while k < segs.len()
        invariant
            k <= segs@.len(),
            ops@ == push_steps(string_views(segs@), k as int, *config),
        decreases segs@.len() - k,
    {
        let seg = &segs[k];
        let ghost before = ops@;
        ops.append("path.push('/'); ");
        let sv = chars_of(seg.as_str());
        let n = sv.len();
        if n >= 2 && sv[0] == '{' && sv[n - 1] == '}' {
            let name = slice_of(&sv, 1, n - 1);
            assert(param_of_segment(seg@) == Some(name@));
            let field = create_field_name(name.as_str(), config);
            ops.append("path.push_str(&");
            ops.append(field.as_str());
            ops.append("); ");
        } else {
            let lit = rust_string_literal(seg.as_str());
            ops.append("path.push_str(");
            ops.append(lit.as_str());
            ops.append("); ");
        }
        assert(ops@ =~= before + push_step(string_views(segs@)[k as int], *config));
        k += 1;
    }
    let mut out = String::from_str("{\n                let mut path = String::new();\n                ");
    out.append(ops.as_str());
    out.append("\n                path\n            }");
    out
}

/// The link enumeration and the client's parameter interface follow the same
/// path parameters in the same order: one variant field and one interface
/// field for each parameter, both derived from the parameter at that
/// position, the interface field in camelCase as the URL template has it.
pub proof fn lemma_parameter_fields_agree(path: Seq<char>, config: NamingConfig)
    ensures
        ({
            let params = path_params(path);
            let fields = params.map_values(|q: Seq<char>| field_name(q, config));
            let iface = params.map_values(|q: Seq<char>| crate::client::interface_field(q));
            &&& fields.len() == params.len()
            &&& iface.len() == params.len()
            &&& forall|i: int|
                0 <= i < params.len() ==> #[trigger] fields[i] == sanitized(
                    in_configured_case(params[i], config.field_case, CaseKind::Snake),
                ) && iface[i] == "  "@ + camel_case_of(params[i]) + ": string;"@
        }),
{
}

/// Every segment of a rebuilt path follows a slash, the first one too, and a
/// parameter segment pushes the variant's field for that parameter, never
/// the placeholder text.
pub proof fn lemma_path_steps_follow_template(seg: Seq<char>, config: NamingConfig)
    ensures
        push_step(seg, config).subrange(0, 16) == "path.push('/'); "@,
        param_of_segment(seg) matches Some(n) ==> push_step(seg, config) == "path.push('/'); "@
            + "path.push_str(&"@ + field_name(n, config) + "); "@,
{
    reveal_strlit("path.push('/'); ");
    let rest = match param_of_segment(seg) {
        Some(n) => "path.push_str(&"@ + field_name(n, config) + "); "@,
        None => "path.push_str("@ + rust_literal(seg) + "); "@,
    };
    assert(("path.push('/'); "@ + rest).subrange(0, 16) =~= "path.push('/'); "@);
}

/// Generates the Rust link enumeration.
pub struct RustLinksGenerator;

/// The view of the variants seen so far, each with its route.
pub open spec fn seen_view(seen: Seq<(String, usize)>, routes: Seq<RouteInfo>) -> Seq<(Seq<char>, RouteView)> {
    seen.map_values(|e: (String, usize)| (e.0@, routes[e.1 as int]@))
}

/// Finds the route that already has variant `v` (see `find_variant`).
fn find_seen(seen: &Vec<(String, usize)>, routes: &Vec<RouteInfo>, v: &String) -> (r: Option<usize>)
    requires
        forall|j: int| 0 <= j < seen@.len() ==> (#[trigger] seen@[j]).1 < routes@.len(),
    ensures
        match r {
            Some(k) => k < routes@.len() && find_variant(seen_view(seen@, routes@), v@) == Some(routes@[k as int]@),
            None => find_variant(seen_view(seen@, routes@), v@) is None,
        },
{
    let mut j: usize = seen.len();
    assert(seen_view(seen@, routes@).subrange(0, j as int) =~= seen_view(seen@, routes@));
    while j > 0
        invariant
            j <= seen@.len(),
            forall|i: int| 0 <= i < seen@.len() ==> (#[trigger] seen@[i]).1 < routes@.len(),
            find_variant(seen_view(seen@, routes@), v@) == find_variant(
                seen_view(seen@, routes@).subrange(0, j as int),
                v@,
            ),
        decreases j,
    {
        assert(seen_view(seen@, routes@).subrange(0, j as int).drop_last() =~= seen_view(seen@, routes@).subrange(0, j - 1));
        if seen[j - 1].0 == *v {
            return Some(seen[j - 1].1);
        }
        j -= 1;
    }
    None
}

impl RustLinksGenerator {
    /// The link enumeration for `routes`, and a diagnostic for each route
    /// skipped because an earlier route has its variant name. The variants
    /// seen are kept with the index of their route, so that a diagnostic
    /// can name the earlier route.
    pub fn generate_with_diagnostics(routes: &Vec<RouteInfo>, config: &Config) -> (r: (String, Vec<Diagnostic>))
        ensures
            r.0@ == links_file(routes_view(routes@), config.naming),
            crate::routes::diagnostics_view(r.1@) == link_parts(routes_view(routes@), config.naming).diagnostics,
    {
        let naming = &config.naming;
        let mut seen: Vec<(String, usize)> = Vec::new();
        let mut variants: Vec<String> = Vec::new();
        let mut path_arms: Vec<String> = Vec::new();
        let mut method_arms: Vec<String> = Vec::new();
        let mut diags: Vec<Diagnostic> = Vec::new();
        let mut i: usize = 0;
        proof {
            let start = link_parts(routes_view(routes@).subrange(0, 0), *naming);
            assert(routes_view(routes@).subrange(0, 0) =~= Seq::<RouteView>::empty());
            assert(seen_view(seen@, routes@) =~= start.seen);
            assert(string_views(variants@) =~= start.variants);
            assert(string_views(path_arms@) =~= start.path_arms);
            assert(string_views(method_arms@) =~= start.method_arms);
            assert(crate::routes::diagnostics_view(diags@) =~= start.diagnostics);
        }
        while i < routes.len()
            invariant
                i <= routes@.len(),
                forall|j: int| 0 <= j < seen@.len() ==> (#[trigger] seen@[j]).1 < routes@.len(),
                seen_view(seen@, routes@) == link_parts(routes_view(routes@).subrange(0, i as int), *naming).seen,
                string_views(variants@) == link_parts(routes_view(routes@).subrange(0, i as int), *naming).variants,
                string_views(path_arms@) == link_parts(routes_view(routes@).subrange(0, i as int), *naming).path_arms,
                string_views(method_arms@) == link_parts(routes_view(routes@).subrange(0, i as int), *naming).method_arms,
                crate::routes::diagnostics_view(diags@) == link_parts(routes_view(routes@).subrange(0, i as int), *naming).diagnostics,
            decreases routes@.len() - i,
        {
            let ghost cur = routes_view(routes@).subrange(0, i + 1);
            assert(cur.drop_last() =~= routes_view(routes@).subrange(0, i as int));
            assert(cur.last() == routes@[i as int]@);
            let route = &routes[i];
            let v = create_variant_name(route.name.as_str(), naming);
            match find_seen(&seen, routes, &v) {
                Some(k) => {
                    let d = Diagnostic::DuplicateIdentifier {
                        identifier: v,
                        method: route.method.clone(),
                        path: route.path.clone(),
                        existing_method: routes[k].method.clone(),
                        existing_path: routes[k].path.clone(),
                    };
                    let ghost before = diags@;
                    diags.push(d);
                    assert(crate::routes::diagnostics_view(diags@) =~= crate::routes::diagnostics_view(before).push(d@));
                },
                None => {
                    let params = extract_parameters_from_path(route.path.as_str());
                    let mut fields: Vec<String> = Vec::new();
                    let mut k: usize = 0;
                    while k < params.len()
                        invariant
                            k <= params@.len(),
                            fields@.len() == k,
                            forall|j: int| 0 <= j < k ==> #[trigger] fields@[j]@ == field_name(params@[j]@, *naming),
                        decreases params@.len() - k,
                    {
                        fields.push(create_field_name(params[k].as_str(), naming));
                        k += 1;
                    }
                    let ghost fv = path_params(route@.path).map_values(|q: Seq<char>| field_name(q, *naming));
                    assert(string_views(fields@) =~= fv);
                    let mut decl = String::from_str("    ");
                    decl.append(v.as_str());
                    let mut arm = String::from_str("            Link::");
                    arm.append(v.as_str());
                    if fields.len() == 0 {
                        arm.append(" => ");
                        let lit = rust_string_literal(route.path.as_str());
                        arm.append(lit.as_str());
                        arm.append(".to_string()");
                    } else {
                        let mut typed: Vec<String> = Vec::new();
                        let mut k2: usize = 0;
                        while k2 < fields.len()
                            invariant
                                k2 <= fields@.len(),
                                typed@.len() == k2,
                                forall|j: int| 0 <= j < k2 ==> #[trigger] typed@[j]@ == fields@[j]@ + ": String"@,
                            decreases fields@.len() - k2,
                        {
                            let mut t = fields[k2].clone();
                            t.append(": String");
                            typed.push(t);
                            k2 += 1;
                        }
                        assert(string_views(typed@) =~= fv.map_values(|f: Seq<char>| f + ": String"@));
                        decl.append(" { ");
                        let ts = join_with(&typed, ", ");
                        decl.append(ts.as_str());
                        decl.append(" }");
                        arm.append(" { ");
                        let fs = join_with(&fields, ", ");
                        arm.append(fs.as_str());
                        arm.append(" } => ");
                        let code = generate_path_build_code(route.path.as_str(), naming);
                        arm.append(code.as_str());
                    }
                    assert(decl@ =~= variant_decl(v@, fv));
                    assert(arm@ =~= path_arm(v@, route@.path, fv, *naming));
                    let mut marm = String::from_str("            Link::");
                    marm.append(v.as_str());
                    marm.append(" { .. } => ");
                    let ml = rust_string_literal(route.method.as_str());
                    marm.append(ml.as_str());
                    let ghost (seen0, variants0, arms0, methods0) = (seen@, variants@, path_arms@, method_arms@);
                    seen.push((v, i));
                    variants.push(decl);
                    path_arms.push(arm);
                    method_arms.push(marm);
                    assert(seen_view(seen@, routes@) =~= seen_view(seen0, routes@).push((v@, routes@[i as int]@)));
                    assert(string_views(variants@) =~= string_views(variants0).push(decl@));
                    assert(string_views(path_arms@) =~= string_views(arms0).push(arm@));
                    assert(string_views(method_arms@) =~= string_views(methods0).push(marm@));
                },
            }
            i += 1;
        }
        assert(routes_view(routes@).subrange(0, i as int) =~= routes_view(routes@));
        let mut out = String::from_str(
            "/// Links to all application routes\n#[derive(Debug, Clone, PartialEq)]\npub enum Link {\n",
        );
        let vs = join_with(&variants, ",\n");
        out.append(vs.as_str());
        out.append(
            "\n}\n\nimpl Link {\n    /// Convert the link to a URL path string\n    pub fn to_path(&self) -> String {\n        match self {\n",
        );
        let ps = join_with(&path_arms, ",\n");
        out.append(ps.as_str());
        out.append(
            "\n        }\n    }\n\n    /// Get the HTTP method for this route\n    pub fn method(&self) -> &'static str {\n        match self {\n",
        );
        let ms = join_with(&method_arms, ",\n");
        out.append(ms.as_str());
        out.append(
            "\n        }\n    }\n}\n\nimpl std::fmt::Display for Link {\n    fn fmt(&self, f: &mut std::fmt::Formatter<'_>) -> std::fmt::Result {\n        write!(f, \"{}\", self.to_path())\n    }\n}\n",
        );
        (out, diags)
    }
}

impl CodeGenerator for RustLinksGenerator {
    type Config = Config;

    open spec fn generated(routes: Seq<RouteView>, config: Config) -> Seq<char> {
        links_file(routes, config.naming)
    }

    fn generate(routes: &Vec<RouteInfo>, config: &Config) -> (r: String) {
        let (code, _diagnostics) = Self::generate_with_diagnostics(routes, config);
        code
    }
}

} // verus!
