//! The TypeScript data-fetching hooks: a query hook for each GET route and a
//! mutation hook for every other route.
use crate::case::{convert_to_case_kind, pascal_case_of, CaseKind};
use crate::client::{
    append_when, body_type, body_type_name, format_ts_code, generate_import_lines, has_body, has_query,
    method_name_of, params_type_name, params_type_of, query_type, query_type_name,
    response_type, response_type_name, route_has_body, optional_text,
};
use crate::config::TypeScriptConfig;
use crate::generators::CodeGenerator;
use crate::path::{extract_parameters_from_path, path_params};
use crate::routes::{routes_view, RouteInfo, RouteView};
use crate::text::{join_with, joined, str_eq, string_views};
use vstd::prelude::*;

verus! {

/// The hook name of a route: `use` and its name in PascalCase.
pub open spec fn hook_name_of(r: RouteView) -> Seq<char> {
    "use"@ + pascal_case_of(r.name)
}

/// The query hook of a GET route, keyed by the method name and the path and
/// query parameters that the route has.
pub open spec fn query_hook(r: RouteView, method_name: Seq<char>, hook_name: Seq<char>, has_path: bool) -> Seq<char> {
    "export function "@ + hook_name + "("@ + optional_text(has_path, "params: "@ + params_type_of(method_name) + ", "@)
        + optional_text(has_query(r), "query: "@ + query_type(r) + ", "@) + "options?: Omit<UseQueryOptions<"@
        + response_type(r) + ", ApiError>, \"queryKey\">) {\n  return useQuery({\n    queryKey: [\""@
        + method_name + "\""@ + optional_text(has_path, ", params"@) + optional_text(has_query(r), ", query"@)
        + "],\n    queryFn: ({ signal }) => client."@ + method_name + "("@ + optional_text(has_path, "params, "@)
        + optional_text(has_query(r), "query, "@) + "{ signal }),\n    ...options,\n  });\n}"@
}

/// `p` alone where `c` holds, else nothing.
pub open spec fn part_when(c: bool, p: (Seq<char>, Seq<char>)) -> Seq<(Seq<char>, Seq<char>)> {
    if c {
        seq![p]
    } else {
        Seq::empty()
    }
}

/// The inputs of a mutation, by name and type: path parameters, query and
/// body, where the route has them.
pub open spec fn mutation_parts(r: RouteView, method_name: Seq<char>, has_path: bool) -> Seq<(Seq<char>, Seq<char>)> {
    part_when(has_path, ("params"@, params_type_of(method_name))) + part_when(
        has_query(r),
        ("query"@, query_type(r)),
    ) + part_when(has_body(r), ("body"@, body_type(r)))
}

/// The variables type of a mutation: `void`, the one input's type, or an
/// object of all inputs.
pub open spec fn mutation_vars(parts: Seq<(Seq<char>, Seq<char>)>) -> Seq<char> {
    if parts.len() == 0 {
        "void"@
    } else if parts.len() == 1 {
        parts[0].1
    } else {
        "{ "@ + joined(parts.map_values(|p: (Seq<char>, Seq<char>)| p.0 + ": "@ + p.1), ", "@) + " }"@
    }
}

/// The parameter of a mutation function.
pub open spec fn mutation_param(parts: Seq<(Seq<char>, Seq<char>)>) -> Seq<char> {
    if parts.len() == 0 {
        Seq::empty()
    } else if parts.len() == 1 {
        parts[0].0 + ": "@ + parts[0].1
    } else {
        "input: "@ + mutation_vars(parts)
    }
}

/// The arguments that a mutation function hands to the client method.
pub open spec fn mutation_call(parts: Seq<(Seq<char>, Seq<char>)>) -> Seq<char> {
    if parts.len() == 0 {
        Seq::empty()
    } else if parts.len() == 1 {
        parts[0].0
    } else {
        joined(parts.map_values(|p: (Seq<char>, Seq<char>)| "input."@ + p.0), ", "@)
    }
}

/// The mutation hook of a route other than GET.
pub open spec fn mutation_hook(r: RouteView, method_name: Seq<char>, hook_name: Seq<char>, has_path: bool) -> Seq<char> {
    let parts = mutation_parts(r, method_name, has_path);
    "export function "@ + hook_name + "(options?: UseMutationOptions<"@ + response_type(r) + ", ApiError, "@
        + mutation_vars(parts) + ", unknown>) {\n  return useMutation({\n    mutationFn: ("@
        + mutation_param(parts) + ") => client."@ + method_name + "("@ + mutation_call(parts)
        + "),\n    ...options,\n  });\n}"@
}

/// The hook of a route.
pub open spec fn ts_hook(r: RouteView, method_name: Seq<char>, hook_name: Seq<char>, params: Seq<Seq<char>>) -> Seq<char> {
    if r.method == "GET"@ {
        query_hook(r, method_name, hook_name, params.len() > 0)
    } else {
        mutation_hook(r, method_name, hook_name, params.len() > 0)
    }
}

/// The views of named inputs.
pub open spec fn parts_view(v: Seq<(String, String)>) -> Seq<(Seq<char>, Seq<char>)> {
    v.map_values(|p: (String, String)| (p.0@, p.1@))
}

/// The query hook of a GET route (see `query_hook`).
fn query_hook_text(route: &RouteInfo, method_name: &str, hook_name: &str, has_path: bool) -> (r: String)
    ensures
        r@ == query_hook(route@, method_name@, hook_name@, has_path),
{
    let pt = params_type_name(method_name);
    let qt = query_type_name(route);
    let ret = response_type_name(route);
    let hq = route.handler_info.query_params.is_some();
    let mut pp = String::from_str("params: ");
    pp.append(pt.as_str());
    pp.append(", ");
    let mut qp = String::from_str("query: ");
    qp.append(qt.as_str());
    qp.append(", ");
    let mut out = String::from_str("export function ");
    out.append(hook_name);
    out.append("(");
    append_when(&mut out, has_path, pp.as_str());
    append_when(&mut out, hq, qp.as_str());
    out.append("options?: Omit<UseQueryOptions<");
    out.append(ret.as_str());
    out.append(", ApiError>, \"queryKey\">) {\n  return useQuery({\n    queryKey: [\"");
    out.append(method_name);
    out.append("\"");
    append_when(&mut out, has_path, ", params");
    append_when(&mut out, hq, ", query");
    out.append("],\n    queryFn: ({ signal }) => client.");
    out.append(method_name);
    out.append("(");
    append_when(&mut out, has_path, "params, ");
    append_when(&mut out, hq, "query, ");
    out.append("{ signal }),\n    ...options,\n  });\n}");
    assert(out@ =~= query_hook(route@, method_name@, hook_name@, has_path));
    out
}

/// The inputs of a mutation (see `mutation_parts`).
fn mutation_parts_of(route: &RouteInfo, method_name: &str, has_path: bool) -> (r: Vec<(String, String)>)
    ensures
        parts_view(r@) == mutation_parts(route@, method_name@, has_path),
{
    let mut parts: Vec<(String, String)> = Vec::new();
    if has_path {
        parts.push((String::from_str("params"), params_type_name(method_name)));
    }
    let ghost a = parts_view(parts@);
    assert(a =~= part_when(has_path, ("params"@, params_type_of(method_name@))));
    if route.handler_info.query_params.is_some() {
        parts.push((String::from_str("query"), query_type_name(route)));
    }
    let ghost b = parts_view(parts@);
    assert(b =~= a + part_when(has_query(route@), ("query"@, query_type(route@))));
    if route_has_body(route) {
        parts.push((String::from_str("body"), body_type_name(route)));
    }
    assert(parts_view(parts@) =~= b + part_when(has_body(route@), ("body"@, body_type(route@))));
    parts
}

/// The variables type, parameter and call arguments of a mutation (see
/// `mutation_vars`, `mutation_param` and `mutation_call`).
fn mutation_pieces(parts: &Vec<(String, String)>) -> (r: (String, String, String))
    ensures
        r.0@ == mutation_vars(parts_view(parts@)),
        r.1@ == mutation_param(parts_view(parts@)),
        r.2@ == mutation_call(parts_view(parts@)),
{
    let n = parts.len();
    if n == 0 {
        (String::from_str("void"), String::new(), String::new())
    } else if n == 1 {
        let mut param = parts[0].0.clone();
        param.append(": ");
        param.append(parts[0].1.as_str());
        (parts[0].1.clone(), param, parts[0].0.clone())
    } else {
        let mut typed: Vec<String> = Vec::new();
        let mut named: Vec<String> = Vec::new();
        let mut i: usize = 0;
        while i < n
            invariant
                n == parts@.len(),
                i <= n,
                typed@.len() == i,
                named@.len() == i,
                forall|j: int| 0 <= j < i ==> #[trigger] typed@[j]@ == parts@[j].0@ + ": "@ + parts@[j].1@,
                forall|j: int| 0 <= j < i ==> #[trigger] named@[j]@ == "input."@ + parts@[j].0@,
            decreases n - i,
        {
            let mut t = parts[i].0.clone();
            t.append(": ");
            t.append(parts[i].1.as_str());
            typed.push(t);
            let mut m = String::from_str("input.");
            m.append(parts[i].0.as_str());
            named.push(m);
            i += 1;
        }
        assert(string_views(typed@) =~= parts_view(parts@).map_values(
            |p: (Seq<char>, Seq<char>)| p.0 + ": "@ + p.1,
        ));
        assert(string_views(named@) =~= parts_view(parts@).map_values(
            |p: (Seq<char>, Seq<char>)| "input."@ + p.0,
        ));
        let mut vars = String::from_str("{ ");
        let inner = join_with(&typed, ", ");
        vars.append(inner.as_str());
        vars.append(" }");
        let mut param = String::from_str("input: ");
        param.append(vars.as_str());
        let call = join_with(&named, ", ");
        (vars, param, call)
    }
}

/// The mutation hook of a route other than GET (see `mutation_hook`).
fn mutation_hook_text(route: &RouteInfo, method_name: &str, hook_name: &str, has_path: bool) -> (r: String)
    ensures
        r@ == mutation_hook(route@, method_name@, hook_name@, has_path),
{
    let parts = mutation_parts_of(route, method_name, has_path);
    let (vars, param, call) = mutation_pieces(&parts);
    let ret = response_type_name(route);
    let mut out = String::from_str("export function ");
    out.append(hook_name);
    out.append("(options?: UseMutationOptions<");
    out.append(ret.as_str());
    out.append(", ApiError, ");
    out.append(vars.as_str());
    out.append(", unknown>) {\n  return useMutation({\n    mutationFn: (");
    out.append(param.as_str());
    out.append(") => client.");
    out.append(method_name);
    out.append("(");
    out.append(call.as_str());
    out.append("),\n    ...options,\n  });\n}");
    out
}

/// The hook of a route: a query hook for GET, else a mutation hook, each
/// shaped by which of path parameters, query and body the route has.
pub fn generate_ts_hook(route: &RouteInfo, method_name: &str, hook_name: &str, path_params: &Vec<String>) -> (r: String)
    ensures
        r@ == ts_hook(route@, method_name@, hook_name@, string_views(path_params@)),
{
    assert(string_views(path_params@).len() == path_params@.len());
    if str_eq(route.method.as_str(), "GET") {
        query_hook_text(route, method_name, hook_name, path_params.len() > 0)
    } else {
        mutation_hook_text(route, method_name, hook_name, path_params.len() > 0)
    }
}

/// The types that the hooks import from the client: each path-parameter
/// interface, and each query type.
pub open spec fn client_type_imports(rs: Seq<RouteView>) -> Seq<Seq<char>>
    decreases rs.len(),
{
    if rs.len() == 0 {
        Seq::empty()
    } else {
        let r = rs.last();
        let a = client_type_imports(rs.drop_last());
        let b = if path_params(r.path).len() > 0 {
            a.push("type "@ + params_type_of(method_name_of(r)))
        } else {
            a
        };
        match r.handler_info.query_params {
            Some(q) => b.push("type "@ + q),
            None => b,
        }
    }
}

/// The fixed imports of the hooks file.
pub open spec fn hooks_fixed_imports() -> Seq<Seq<char>> {
    seq![
        "import { type ApiError, type BadRequestErrorDetails, isBadRequestError, client } from \"./client\";"@,
        "import { useQuery, useMutation, type UseQueryOptions, type UseMutationOptions } from \"@tanstack/react-query\";"@,
    ]
}

/// The whole hooks file for `rs`.
pub open spec fn hooks_file(rs: Seq<RouteView>) -> Seq<char> {
    let ci = client_type_imports(rs);
    let imports = crate::client::import_lines(hooks_fixed_imports(), rs) + (if ci.len() > 0 {
        seq!["import { "@ + joined(ci, ", "@) + " } from \"./client\";"@]
    } else {
        Seq::empty()
    });
    joined(imports, "\n"@)
        + "\n\n// Re-export error utilities for convenience\nexport { type ApiError, type BadRequestErrorDetails, isBadRequestError };\n\n// Hooks\n"@
        + joined(
        rs.map_values(|r: RouteView| ts_hook(r, method_name_of(r), hook_name_of(r), path_params(r.path))),
        "\n"@,
    ) + "\n"@
}

/// Generates the TypeScript hooks.
pub struct TypeScriptHooksGenerator;

impl CodeGenerator for TypeScriptHooksGenerator {
    type Config = TypeScriptConfig;

    open spec fn generated(routes: Seq<RouteView>, config: TypeScriptConfig) -> Seq<char> {
        hooks_file(routes)
    }

    fn generate(routes: &Vec<RouteInfo>, _config: &TypeScriptConfig) -> (r: String) {
        let mut fixed: Vec<String> = Vec::new();
        fixed.push(String::from_str(
            "import { type ApiError, type BadRequestErrorDetails, isBadRequestError, client } from \"./client\";",
        ));
        fixed.push(String::from_str(
            "import { useQuery, useMutation, type UseQueryOptions, type UseMutationOptions } from \"@tanstack/react-query\";",
        ));
        assert(string_views(fixed@) =~= hooks_fixed_imports());
        let mut imports = generate_import_lines(fixed, routes);
        let mut hooks: Vec<String> = Vec::new();
        let mut client_imports: Vec<String> = Vec::new();
        let mut i: usize = 0;
        assert(routes_view(routes@).subrange(0, 0) =~= Seq::<RouteView>::empty());
        while i < routes.len()
            invariant
                i <= routes@.len(),
                string_views(client_imports@) == client_type_imports(routes_view(routes@).subrange(0, i as int)),
                hooks@.len() == i,
                forall|j: int| 0 <= j < i ==> #[trigger] hooks@[j]@ == ts_hook(
                    routes@[j]@,
                    method_name_of(routes@[j]@),
                    hook_name_of(routes@[j]@),
                    path_params(routes@[j]@.path),
                ),
            decreases routes@.len() - i,
        {
            let route = &routes[i];
            let ghost cur = routes_view(routes@).subrange(0, i + 1);
            assert(cur.drop_last() =~= routes_view(routes@).subrange(0, i as int));
            let method_name = convert_to_case_kind(route.name.as_str(), CaseKind::Camel);
            let mut hook_name = String::from_str("use");
            let pascal = convert_to_case_kind(route.name.as_str(), CaseKind::Pascal);
            hook_name.append(pascal.as_str());
            let path_params = extract_parameters_from_path(route.path.as_str());
            let ghost c0 = string_views(client_imports@);
            if path_params.len() > 0 {
                let mut t = String::from_str("type ");
                let pt = params_type_name(method_name.as_str());
                t.append(pt.as_str());
                client_imports.push(t);
                assert(string_views(client_imports@) =~= c0.push(t@));
            }
            let ghost c1 = string_views(client_imports@);
            if let Some(q) = &route.handler_info.query_params {
                let mut t = String::from_str("type ");
                t.append(q.as_str());
                client_imports.push(t);
                assert(string_views(client_imports@) =~= c1.push(t@));
            }
            let h = generate_ts_hook(route, method_name.as_str(), hook_name.as_str(), &path_params);
            hooks.push(h);
            i += 1;
        }
        assert(routes_view(routes@).subrange(0, i as int) =~= routes_view(routes@));
        assert(string_views(hooks@) =~= routes_view(routes@).map_values(
            |r: RouteView| ts_hook(r, method_name_of(r), hook_name_of(r), path_params(r.path)),
        ));
        let ghost base = string_views(imports@);
        if client_imports.len() > 0 {
            let mut line = String::from_str("import { ");
            let inner = join_with(&client_imports, ", ");
            line.append(inner.as_str());
            line.append(" } from \"./client\";");
            imports.push(line);
            assert(string_views(imports@) =~= base + seq![line@]);
        } else {
            assert(string_views(imports@) =~= base + Seq::<Seq<char>>::empty());
        }
        let mut out = join_with(&imports, "\n");
        out.append(
            "\n\n// Re-export error utilities for convenience\nexport { type ApiError, type BadRequestErrorDetails, isBadRequestError };\n\n// Hooks\n",
        );
        let hs = join_with(&hooks, "\n");
        out.append(hs.as_str());
        out.append("\n");
        format_ts_code(out.as_str())
    }
}

} // verus!
