//! The TypeScript HTTP client: one method per route.
use crate::case::{camel_case_of, convert_to_case_kind, pascal_case_of, CaseKind};
use crate::config::TypeScriptConfig;
use crate::generators::CodeGenerator;
use crate::imports::{import_line, collect_all, TypeImportManager};
use crate::path::{extract_parameters_from_path, param_of_segment, path_params, split_on, split_on_char};
use crate::routes::{diagnostics_view, routes_view, Diagnostic, DiagnosticView, RouteInfo, RouteView};
use crate::text::{has_prefix, join_with, joined, starts_with, str_eq, string_views};
use vstd::prelude::*;

verus! {

/// The request helper that every generated client starts with.
pub const HTTP_CLIENT_SOURCE: &'static str = "// Base error type that comes from the server
export type RawApiError = {
  error: string;
  description: string;
};

// Parsed error type with structured details
export type ApiError<TDetails = unknown> = RawApiError & {
  details: TDetails;
};

// Common error details structure for Bad Request errors
export type BadRequestErrorDetails = {
  code: string;
  message: string;
};

// Type guard to check if error is a Bad Request with structured details
export function isBadRequestError(error: unknown): error is ApiError<BadRequestErrorDetails> {
  return (
    typeof error === \"object\" &&
    error !== null &&
    \"error\" in error &&
    (error as RawApiError).error === \"Bad Request\" &&
    \"details\" in error &&
    typeof (error as any).details === \"object\" &&
    (error as any).details !== null &&
    \"code\" in (error as any).details &&
    \"message\" in (error as any).details
  );
}

// Base HTTP client with authentication support
class ApiClient {
  private baseUrl: string = \"\";
  private getToken?: () => Promise<string | null>;

  constructor(config?: { baseUrl?: string; getToken?: () => Promise<string | null> }) {
    this.baseUrl = config?.baseUrl || \"\";
    this.getToken = config?.getToken;
  }

  async request<T, E = ApiError>(url: string, options: RequestInit & { requiresAuth?: boolean } = {}): Promise<T> {
    const headers = new Headers(options.headers as Record<string, string>);

    // Set Content-Type for requests with body
    if (options.body && !headers.has(\"Content-Type\")) {
      headers.set(\"Content-Type\", \"application/json\");
    }

    // Add Authorization header if required and token is available
    if (options.requiresAuth && this.getToken) {
      const token = await this.getToken();
      if (token) {
        headers.set(\"Authorization\", \"Bearer \" + token);
      }
    }

    const response = await fetch(this.baseUrl + url, {
      ...options,
      headers,
    });

    if (!response.ok) {
      const rawError = await response.json() as RawApiError;
      throw this.transformError(rawError);
    }

    // For 204 No Content responses, return null
    if (response.status === 204) {
      return null as T;
    }

    return response.json() as Promise<T>;
  }

  private transformError(rawError: RawApiError): ApiError {
    // For Bad Request errors, parse the description field
    if (rawError.error === \"Bad Request\" && rawError.description) {
      try {
        const details = JSON.parse(rawError.description) as BadRequestErrorDetails;
        return { ...rawError, details };
      } catch (e) {
        console.warn(\"Failed to parse error description:\", e);
        return { ...rawError, details: rawError.description };
      }
    }

    // For other error types, use the description as details
    return { ...rawError, details: rawError.description };
  }

  async get<T, E = ApiError>(url: string, options: { requiresAuth?: boolean; signal?: AbortSignal } = {}): Promise<T> {
    return this.request<T, E>(url, { method: \"GET\", requiresAuth: options.requiresAuth, signal: options.signal });
  }

  async post<T, E = ApiError>(url: string, data?: any, options: { requiresAuth?: boolean; signal?: AbortSignal } = {}): Promise<T> {
    return this.request<T, E>(url, { method: \"POST\", body: data ? JSON.stringify(data) : undefined, requiresAuth: options.requiresAuth, signal: options.signal });
  }

  async put<T, E = ApiError>(url: string, data?: any, options: { requiresAuth?: boolean; signal?: AbortSignal } = {}): Promise<T> {
    return this.request<T, E>(url, { method: \"PUT\", body: data ? JSON.stringify(data) : undefined, requiresAuth: options.requiresAuth, signal: options.signal });
  }

  async patch<T, E = ApiError>(url: string, data?: any, options: { requiresAuth?: boolean; signal?: AbortSignal } = {}): Promise<T> {
    return this.request<T, E>(url, { method: \"PATCH\", body: data ? JSON.stringify(data) : undefined, requiresAuth: options.requiresAuth, signal: options.signal });
  }

  async delete<T, E = ApiError>(url: string, data?: any, options: { requiresAuth?: boolean; signal?: AbortSignal } = {}): Promise<T> {
    return this.request<T, E>(url, { method: \"DELETE\", body: data ? JSON.stringify(data) : undefined, requiresAuth: options.requiresAuth, signal: options.signal });
  }
}

// Create default instance
export const apiClient = new ApiClient({
  getToken: async () => {
    return localStorage.getItem(TOKEN_KEY);
  },
});
";

/// The request helper that every generated client starts with.
pub fn generate_http_client() -> (r: String)
    ensures
        r@ == HTTP_CLIENT_SOURCE@,
{
    String::from_str(HTTP_CLIENT_SOURCE)
}


/// The client method name of a route: its name in camelCase.
pub open spec fn method_name_of(r: RouteView) -> Seq<char> {
    camel_case_of(r.name)
}

/// The name of the path-parameter interface of a client method.
pub open spec fn params_type_of(method_name: Seq<char>) -> Seq<char> {
    pascal_case_of(method_name) + "Params"@
}

/// The response type of a route: the type found, else `any`.
pub open spec fn response_type(r: RouteView) -> Seq<char> {
    match r.handler_info.return_type.found_type {
        Some(t) => t,
        None => "any"@,
    }
}

/// The body type of a route: its body parameter, else `void`.
pub open spec fn body_type(r: RouteView) -> Seq<char> {
    match r.handler_info.body_param {
        Some(t) => t,
        None => "void"@,
    }
}

/// The query type of a route: its query parameter type, else `void`.
pub open spec fn query_type(r: RouteView) -> Seq<char> {
    match r.handler_info.query_params {
        Some(t) => t,
        None => "void"@,
    }
}

/// Whether a route's calls carry a body: not a GET, and a body type known.
pub open spec fn has_body(r: RouteView) -> bool {
    r.method != "GET"@ && body_type(r) != "void"@
}

/// Whether a route's calls carry query parameters.
pub open spec fn has_query(r: RouteView) -> bool {
    r.handler_info.query_params is Some
}

/// `x` where `c` holds, else nothing.
pub open spec fn optional_text(c: bool, x: Seq<char>) -> Seq<char> {
    if c {
        x
    } else {
        Seq::empty()
    }
}

/// The error union of a route: `ApiError`, then ` | E` for each of its
/// error types.
pub open spec fn error_union(es: Seq<Seq<char>>) -> Seq<char>
    decreases es.len(),
{
    if es.len() == 0 {
        "ApiError"@
    } else {
        error_union(es.drop_last()) + " | "@ + es.last()
    }
}

/// The template text of the `i`th piece of a split path.
pub open spec fn template_piece(seg: Seq<char>, i: int) -> Seq<char> {
    if seg.len() == 0 {
        Seq::empty()
    } else {
        optional_text(i > 0, "/"@) + match param_of_segment(seg) {
            Some(n) => "${params."@ + camel_case_of(n) + "}"@,
            None => seg,
        }
    }
}

/// The template text of the first `n` pieces of a split path.
pub open spec fn template_of(segs: Seq<Seq<char>>, n: int) -> Seq<char>
    decreases n,
{
    if n <= 0 || n > segs.len() {
        Seq::empty()
    } else {
        template_of(segs, n - 1) + template_piece(segs[n - 1], n - 1)
    }
}

/// The URL of a client method as a template literal: each `{name}` becomes
/// `${params.name}` with the name in camelCase, empty segments are
/// dropped, and the result starts with a slash.
pub open spec fn ts_path_template(path: Seq<char>) -> Seq<char> {
    let segs = split_on(path, '/');
    let t = template_of(segs, segs.len() as int);
    let u = if t.len() == 0 {
        "/"@
    } else if !starts_with(t, "/"@) {
        "/"@ + t
    } else {
        t
    };
    "`"@ + u + "`"@
}

/// The verb of the request helper that a method calls.
pub open spec fn helper_verb(method: Seq<char>) -> Seq<char> {
    if method == "GET"@ {
        "get"@
    } else if method == "PUT"@ {
        "put"@
    } else if method == "PATCH"@ {
        "patch"@
    } else if method == "DELETE"@ {
        "delete"@
    } else {
        "post"@
    }
}

/// The lines that build the query string onto `url`.
pub open spec fn query_block() -> Seq<char> {
    QUERY_BLOCK@
}

/// Appends the query parameters to `url`.
pub const QUERY_BLOCK: &'static str = "    const queryString = new URLSearchParams();
    Object.entries(query).forEach(([key, value]) => {
      if (value !== undefined && value !== null) {
        queryString.append(key, value.toString());
      }
    });
    const queryStr = queryString.toString();
    if (queryStr) {
      url += \"?\" + queryStr;
    }
";

/// The parameter list of a client method: path parameters, query and body
/// where the route has them, then the request options.
pub open spec fn client_args(r: RouteView, method_name: Seq<char>, has_path: bool) -> Seq<char> {
    optional_text(has_path, "params: "@ + params_type_of(method_name) + ", "@) + optional_text(
        has_query(r),
        "query: "@ + query_type(r) + ", "@,
    ) + optional_text(has_body(r), "body: "@ + body_type(r) + ", "@) + "config?: { signal?: AbortSignal }"@
}

/// The statements of a client method that compute its URL.
pub open spec fn url_block(r: RouteView) -> Seq<char> {
    if has_query(r) {
        "    let url = "@ + ts_path_template(r.path) + ";\n"@ + query_block()
    } else {
        "    const url = "@ + ts_path_template(r.path) + ";\n"@
    }
}

/// The request of a client method: `get` takes no payload; the other verbs
/// take the body, or `undefined`.
pub open spec fn request_call(r: RouteView) -> Seq<char> {
    "    return apiClient."@ + helper_verb(r.method) + "<"@ + response_type(r) + ", "@ + error_union(
        r.handler_info.return_type.error_types,
    ) + ">(url, "@ + optional_text(
        r.method != "GET"@,
        optional_text(has_body(r), "body"@) + optional_text(!has_body(r), "undefined"@) + ", "@,
    ) + "{ requiresAuth: "@ + (if r.handler_info.requires_auth {
        "true"@
    } else {
        "false"@
    }) + ", signal: config?.signal });\n"@
}

/// The client method of a route.
pub open spec fn client_method(r: RouteView, method_name: Seq<char>, params: Seq<Seq<char>>) -> Seq<char> {
    "  "@ + method_name + ": async ("@ + client_args(r, method_name, params.len() > 0) + "): Promise<"@
        + response_type(r) + "> => {\n"@ + url_block(r) + request_call(r) + "  },"@
}

/// One interface field: the parameter in camelCase, typed `string`.
pub open spec fn interface_field(p: Seq<char>) -> Seq<char> {
    "  "@ + camel_case_of(p) + ": string;"@
}

/// The interface named after a method and a suffix, with one string field
/// for each parameter.
pub open spec fn ts_interface(method_name: Seq<char>, suffix: Seq<char>, params: Seq<Seq<char>>) -> Seq<char> {
    "export interface "@ + pascal_case_of(method_name) + suffix + " {\n"@ + joined(
        params.map_values(|p: Seq<char>| interface_field(p)),
        "\n"@,
    ) + "\n}"@
}

/// A route whose handler has an opaque return type and no recognized
/// response construction is typed `any` in the client, not refused.
pub proof fn lemma_opaque_response_is_any(f: crate::syntax::ItemFn, r: RouteView)
    requires
        crate::handlers::stmts_type(f.body@, f.body@.len() as int) is None,
        f.output matches Some(crate::syntax::TypeRef::ImplTrait),
        r.handler_info == crate::handlers::handler_of(f),
    ensures
        r.handler_info.return_type.found_type is None,
        response_type(r) == "any"@,
{
    crate::handlers::lemma_opaque_return_unknown(f);
}

/// Appends `x` where `c` holds.
pub(crate) fn append_when(out: &mut String, c: bool, x: &str)
    ensures
        final(out)@ == old(out)@ + optional_text(c, x@),
{
    if c {
        out.append(x);
    } else {
        assert(old(out)@ + optional_text(c, x@) =~= old(out)@);
    }
}

/// The error union of a route (see `error_union`).
fn generate_route_error_union(route: &RouteInfo) -> (r: String)
    ensures
        r@ == error_union(route@.handler_info.return_type.error_types),
{
    let es = &route.handler_info.return_type.error_types;
    let mut out = String::from_str("ApiError");
    let mut i: usize = 0;
    assert(es@.map_values(|s: String| s@).subrange(0, 0) =~= Seq::<Seq<char>>::empty());
    while i < es.len()
        invariant
            i <= es@.len(),
            out@ == error_union(es@.map_values(|s: String| s@).subrange(0, i as int)),
        decreases es@.len() - i,
    {
        assert(es@.map_values(|s: String| s@).subrange(0, i + 1).drop_last() =~= es@.map_values(
            |s: String| s@,
        ).subrange(0, i as int));
        out.append(" | ");
        out.append(es[i].as_str());
        i += 1;
    }
    assert(es@.map_values(|s: String| s@).subrange(0, i as int) =~= es@.map_values(|s: String| s@));
    out
}

/// The URL template of a client method (see `ts_path_template`).
pub fn generate_ts_path_template(path: &str, _params: &Vec<String>) -> (r: String)
    ensures
        r@ == ts_path_template(path@),
{
    let segs = split_on_char(path, '/');
    let mut t = String::new();
    let mut i: usize = 0;
    while i < segs.len()
        invariant
            i <= segs@.len(),
            string_views(segs@) == split_on(path@, '/'),
            t@ == template_of(string_views(segs@), i as int),
        decreases segs@.len() - i,
    {
        let seg = &segs[i];
        let ghost before = t@;
        let sv = crate::text::chars_of(seg.as_str());
        let n = sv.len();
        if n > 0 {
            append_when(&mut t, i > 0, "/");
            if n >= 2 && sv[0] == '{' && sv[n - 1] == '}' {
                let name = crate::text::slice_of(&sv, 1, n - 1);
                assert(param_of_segment(seg@) == Some(name@));
                t.append("${params.");
                let camel = convert_to_case_kind(name.as_str(), CaseKind::Camel);
                t.append(camel.as_str());
                t.append("}");
            } else {
                t.append(seg.as_str());
            }
        }
        assert(t@ =~= before + template_piece(string_views(segs@)[i as int], i as int));
        i += 1;
    }
    let mut out = String::from_str("`");
    if t.as_str().unicode_len() == 0 {
        out.append("/");
    } else if !has_prefix(t.as_str(), "/") {
        out.append("/");
        out.append(t.as_str());
    } else {
        out.append(t.as_str());
    }
    out.append("`");
    out
}

/// The parameter interface of a client method (see `ts_interface`).
pub fn generate_ts_interface(method_name: &str, suffix: &str, params: &Vec<String>) -> (r: String)
    ensures
        r@ == ts_interface(method_name@, suffix@, string_views(params@)),
{
    let mut fields: Vec<String> = Vec::new();
    let mut i: usize = 0;
    while i < params.len()
        invariant
            i <= params@.len(),
            fields@.len() == i,
            forall|j: int| 0 <= j < i ==> #[trigger] fields@[j]@ == interface_field(params@[j]@),
        decreases params@.len() - i,
    {
        let mut f = String::from_str("  ");
        let camel = convert_to_case_kind(params[i].as_str(), CaseKind::Camel);
        f.append(camel.as_str());
        f.append(": string;");
        fields.push(f);
        i += 1;
    }
    assert(string_views(fields@) =~= string_views(params@).map_values(|p: Seq<char>| interface_field(p)));
    let mut out = String::from_str("export interface ");
    let pascal = convert_to_case_kind(method_name, CaseKind::Pascal);
    out.append(pascal.as_str());
    out.append(suffix);
    out.append(" {\n");
    let body = join_with(&fields, "\n");
    out.append(body.as_str());
    out.append("\n}");
    out
}


/// The name of the path-parameter interface of a client method.
pub fn params_type_name(method_name: &str) -> (r: String)
    ensures
        r@ == params_type_of(method_name@),
{
    let mut out = convert_to_case_kind(method_name, CaseKind::Pascal);
    out.append("Params");
    out
}

/// The response type of a route (see `response_type`).
pub fn response_type_name(route: &RouteInfo) -> (r: String)
    ensures
        r@ == response_type(route@),
{
    match &route.handler_info.return_type.found_type {
        Some(t) => t.clone(),
        None => String::from_str("any"),
    }
}

/// The body type of a route (see `body_type`).
pub fn body_type_name(route: &RouteInfo) -> (r: String)
    ensures
        r@ == body_type(route@),
{
    match &route.handler_info.body_param {
        Some(t) => t.clone(),
        None => String::from_str("void"),
    }
}

/// The query type of a route (see `query_type`).
pub fn query_type_name(route: &RouteInfo) -> (r: String)
    ensures
        r@ == query_type(route@),
{
    match &route.handler_info.query_params {
        Some(t) => t.clone(),
        None => String::from_str("void"),
    }
}

/// Whether a route's calls carry a body (see `has_body`).
pub fn route_has_body(route: &RouteInfo) -> (r: bool)
    ensures
        r == has_body(route@),
{
    let b = body_type_name(route);
    !str_eq(route.method.as_str(), "GET") && !str_eq(b.as_str(), "void")
}

/// `a`, `b` and `c` in a row.
fn three(a: &str, b: &str, c: &str) -> (r: String)
    ensures
        r@ == a@ + b@ + c@,
{
    let mut out = String::from_str(a);
    out.append(b);
    out.append(c);
    out
}

/// The parameter list of a client method (see `client_args`).
fn client_args_text(route: &RouteInfo, method_name: &str, has_path: bool) -> (r: String)
    ensures
        r@ == client_args(route@, method_name@, has_path),
{
    let pt = params_type_name(method_name);
    let qt = query_type_name(route);
    let bt = body_type_name(route);
    let mut out = String::new();
    let p = three("params: ", pt.as_str(), ", ");
    append_when(&mut out, has_path, p.as_str());
    let q = three("query: ", qt.as_str(), ", ");
    append_when(&mut out, route.handler_info.query_params.is_some(), q.as_str());
    let b = three("body: ", bt.as_str(), ", ");
    append_when(&mut out, route_has_body(route), b.as_str());
    out.append("config?: { signal?: AbortSignal }");
    assert(out@ =~= client_args(route@, method_name@, has_path));
    out
}

/// The verb of the request helper for an HTTP method (see `helper_verb`).
fn helper_verb_of(method: &str) -> (r: &'static str)
    ensures
        r@ == helper_verb(method@),
{
    if str_eq(method, "GET") {
        "get"
    } else if str_eq(method, "PUT") {
        "put"
    } else if str_eq(method, "PATCH") {
        "patch"
    } else if str_eq(method, "DELETE") {
        "delete"
    } else {
        "post"
    }
}

/// The request of a client method (see `request_call`).
fn request_call_text(route: &RouteInfo) -> (r: String)
    ensures
        r@ == request_call(route@),
{
    let ret = response_type_name(route);
    let err = generate_route_error_union(route);
    let body = route_has_body(route);
    let mut payload = String::new();
    append_when(&mut payload, body, "body");
    append_when(&mut payload, !body, "undefined");
    payload.append(", ");
    let mut out = String::from_str("    return apiClient.");
    out.append(helper_verb_of(route.method.as_str()));
    out.append("<");
    out.append(ret.as_str());
    out.append(", ");
    out.append(err.as_str());
    out.append(">(url, ");
    append_when(&mut out, !str_eq(route.method.as_str(), "GET"), payload.as_str());
    out.append("{ requiresAuth: ");
    if route.handler_info.requires_auth {
        out.append("true");
    } else {
        out.append("false");
    }
    out.append(", signal: config?.signal });\n");
    assert(out@ =~= request_call(route@));
    out
}

/// The client method of a route, for each combination of path parameters,
/// query parameters and body (see `client_method`).
pub fn generate_client_method(route: &RouteInfo, method_name: &str, path_params: &Vec<String>) -> (r: String)
    ensures
        r@ == client_method(route@, method_name@, string_views(path_params@)),
{
    let template = generate_ts_path_template(route.path.as_str(), path_params);
    let args = client_args_text(route, method_name, path_params.len() > 0);
    let ret = response_type_name(route);
    let mut url = String::new();
    if route.handler_info.query_params.is_some() {
        url.append("    let url = ");
        url.append(template.as_str());
        url.append(";\n");
        url.append(QUERY_BLOCK);
    } else {
        url.append("    const url = ");
        url.append(template.as_str());
        url.append(";\n");
    }
    assert(url@ =~= url_block(route@));
    let call = request_call_text(route);
    let mut out = String::from_str("  ");
    out.append(method_name);
    out.append(": async (");
    out.append(args.as_str());
    out.append("): Promise<");
    out.append(ret.as_str());
    out.append("> => {\n");
    out.append(url.as_str());
    out.append(call.as_str());
    out.append("  },");
    assert(string_views(path_params@).len() == path_params@.len());
    out
}

/// The path-parameter interfaces of the routes that have path parameters.
pub open spec fn client_interfaces(rs: Seq<RouteView>) -> Seq<Seq<char>>
    decreases rs.len(),
{
    if rs.len() == 0 {
        Seq::empty()
    } else {
        let p = client_interfaces(rs.drop_last());
        let params = path_params(rs.last().path);
        if params.len() > 0 {
            p.push(ts_interface(method_name_of(rs.last()), "Params"@, params))
        } else {
            p
        }
    }
}

/// The import lines of a generated file: the fixed ones, then one for each
/// type that the routes need.
pub open spec fn import_lines(fixed: Seq<Seq<char>>, rs: Seq<RouteView>) -> Seq<Seq<char>> {
    let st = collect_all((Seq::empty(), Seq::empty()), rs);
    fixed + st.0.map_values(|t: Seq<char>| import_line(t)) + st.1.map_values(|t: Seq<char>| import_line(t))
}

/// The query-library import of the client.
pub open spec fn client_fixed_imports() -> Seq<Seq<char>> {
    seq![
        "import { useQuery, useMutation, type UseQueryOptions, type UseMutationOptions } from \"@tanstack/react-query\";"@,
        "import { TOKEN_KEY } from \"@/hooks/use-auth\";"@,
    ]
}

/// The whole client file for `rs`.
pub open spec fn client_file(rs: Seq<RouteView>) -> Seq<char> {
    joined(import_lines(client_fixed_imports(), rs), "\n"@) + "\n"@ + joined(client_interfaces(rs), "\n"@)
        + "\n\n// HTTP client with auth support\n"@ + HTTP_CLIENT_SOURCE@
        + "\n// Client\nexport const client = {\n"@ + joined(
        rs.map_values(|r: RouteView| client_method(r, method_name_of(r), path_params(r.path))),
        "\n"@,
    ) + "\n};\n"@
}

/// Generates the TypeScript HTTP client.
pub struct TypeScriptClientGenerator;

/// The import lines of a generated file (see `import_lines`).
pub fn generate_import_lines(fixed: Vec<String>, routes: &Vec<RouteInfo>) -> (r: Vec<String>)
    ensures
        string_views(r@) == import_lines(string_views(fixed@), routes_view(routes@)),
{
    let mut manager = TypeImportManager::new();
    manager.collect_from_routes(routes);
    let extra = manager.generate_imports();
    let mut out = fixed;
    let ghost first = string_views(out@);
    let mut i: usize = 0;
    while i < extra.len()
        invariant
            i <= extra@.len(),
            string_views(out@) == first + string_views(extra@).subrange(0, i as int),
        decreases extra@.len() - i,
    {
        let ghost before = out@;
        out.push(extra[i].clone());
        assert(string_views(out@) =~= string_views(before).push(extra@[i as int]@));
        assert(string_views(extra@).subrange(0, i + 1) =~= string_views(extra@).subrange(0, i as int).push(extra@[i as int]@));
        assert(first + string_views(extra@).subrange(0, i + 1) =~= (first + string_views(extra@).subrange(0, i as int)).push(extra@[i as int]@));
        i += 1;
    }
    assert(string_views(extra@).subrange(0, i as int) =~= string_views(extra@));
    assert(manager@ == collect_all((Seq::empty(), Seq::empty()), routes_view(routes@))) by {
        assert(Seq::<Seq<char>>::empty() =~= manager@.0.subrange(0, 0));
    }
    out
}

impl CodeGenerator for TypeScriptClientGenerator {
    type Config = TypeScriptConfig;

    open spec fn generated(routes: Seq<RouteView>, config: TypeScriptConfig) -> Seq<char> {
        client_file(routes)
    }

    fn generate(routes: &Vec<RouteInfo>, _config: &TypeScriptConfig) -> (r: String) {
        let mut fixed: Vec<String> = Vec::new();
        fixed.push(String::from_str(
            "import { useQuery, useMutation, type UseQueryOptions, type UseMutationOptions } from \"@tanstack/react-query\";",
        ));
        fixed.push(String::from_str("import { TOKEN_KEY } from \"@/hooks/use-auth\";"));
        assert(string_views(fixed@) =~= client_fixed_imports());
        let imports = generate_import_lines(fixed, routes);
        let mut interfaces: Vec<String> = Vec::new();
        let mut methods: Vec<String> = Vec::new();
        let mut i: usize = 0;
        assert(routes_view(routes@).subrange(0, 0) =~= Seq::<RouteView>::empty());
        while i < routes.len()
            invariant
                i <= routes@.len(),
                string_views(interfaces@) == client_interfaces(routes_view(routes@).subrange(0, i as int)),
                methods@.len() == i,
                forall|j: int| 0 <= j < i ==> #[trigger] methods@[j]@ == client_method(
                    routes@[j]@,
                    method_name_of(routes@[j]@),
                    path_params(routes@[j]@.path),
                ),
            decreases routes@.len() - i,
        {
            let route = &routes[i];
            let ghost cur = routes_view(routes@).subrange(0, i + 1);
            assert(cur.drop_last() =~= routes_view(routes@).subrange(0, i as int));
            let method_name = convert_to_case_kind(route.name.as_str(), CaseKind::Camel);
            let path_params = extract_parameters_from_path(route.path.as_str());
            if path_params.len() > 0 {
                let ghost before = interfaces@;
                let iface = generate_ts_interface(method_name.as_str(), "Params", &path_params);
                interfaces.push(iface);
                assert(string_views(interfaces@) =~= string_views(before).push(iface@));
            }
            let m = generate_client_method(route, method_name.as_str(), &path_params);
            methods.push(m);
            i += 1;
        }
        assert(routes_view(routes@).subrange(0, i as int) =~= routes_view(routes@));
        assert(string_views(methods@) =~= routes_view(routes@).map_values(
            |r: RouteView| client_method(r, method_name_of(r), path_params(r.path)),
        ));
        let mut out = join_with(&imports, "\n");
        out.append("\n");
        let ifaces = join_with(&interfaces, "\n");
        out.append(ifaces.as_str());
        out.append("\n\n// HTTP client with auth support\n");
        out.append(HTTP_CLIENT_SOURCE);
        out.append("\n// Client\nexport const client = {\n");
        let ms = join_with(&methods, "\n");
        out.append(ms.as_str());
        out.append("\n};\n");
        format_ts_code(out.as_str())
    }
}

/// The last route among `rs` whose client method name is `n`.
pub open spec fn find_method_name(rs: Seq<RouteView>, n: Seq<char>) -> Option<RouteView>
    decreases rs.len(),
{
    if rs.len() == 0 {
        None
    } else if method_name_of(rs.last()) == n {
        Some(rs.last())
    } else {
        find_method_name(rs.drop_last(), n)
    }
}

/// One diagnostic for each route whose client method (and hook) name an
/// earlier route already has, naming the last such earlier route.
pub open spec fn method_name_clashes(rs: Seq<RouteView>) -> Seq<DiagnosticView>
    decreases rs.len(),
{
    if rs.len() == 0 {
        Seq::empty()
    } else {
        let p = method_name_clashes(rs.drop_last());
        let r = rs.last();
        match find_method_name(rs.drop_last(), method_name_of(r)) {
            Some(e) => p.push(
                DiagnosticView::DuplicateIdentifier {
                    identifier: method_name_of(r),
                    method: r.method,
                    path: r.path,
                    existing_method: e.method,
                    existing_path: e.path,
                },
            ),
            None => p,
        }
    }
}

/// The last of the first `names.len()` routes whose client method name is `name`.
fn find_earlier_name(names: &Vec<String>, routes: &Vec<RouteInfo>, name: &String) -> (r: Option<usize>)
    requires
        names@.len() <= routes@.len(),
        forall|k: int| 0 <= k < names@.len() ==> #[trigger] names@[k]@ == method_name_of(routes@[k]@),
    ensures
        match r {
            Some(k) => k < names@.len() && find_method_name(
                routes_view(routes@).subrange(0, names@.len() as int),
                name@,
            ) == Some(routes@[k as int]@),
            None => find_method_name(routes_view(routes@).subrange(0, names@.len() as int), name@) is None,
        },
{
    let ghost pre = routes_view(routes@).subrange(0, names@.len() as int);
    let mut j: usize = names.len();
    assert(pre.subrange(0, j as int) =~= pre);
    while j > 0
        invariant
            j <= names@.len(),
            names@.len() <= routes@.len(),
            pre == routes_view(routes@).subrange(0, names@.len() as int),
            forall|k: int| 0 <= k < names@.len() ==> #[trigger] names@[k]@ == method_name_of(routes@[k]@),
            find_method_name(pre, name@) == find_method_name(pre.subrange(0, j as int), name@),
        decreases j,
    {
        assert(pre.subrange(0, j as int).drop_last() =~= pre.subrange(0, j - 1));
        assert(pre.subrange(0, j as int).last() == routes@[j - 1]@);
        if names[j - 1] == *name {
            return Some(j - 1);
        }
        j -= 1;
    }
    None
}

/// Reports each route whose client method name an earlier route already has
/// (see `method_name_clashes`).
pub fn check_method_names(routes: &Vec<RouteInfo>) -> (r: Vec<Diagnostic>)
    ensures
        diagnostics_view(r@) == method_name_clashes(routes_view(routes@)),
{
    let mut names: Vec<String> = Vec::new();
    let mut diags: Vec<Diagnostic> = Vec::new();
    let mut i: usize = 0;
    assert(routes_view(routes@).subrange(0, 0) =~= Seq::<RouteView>::empty());
    assert(diagnostics_view(diags@) =~= Seq::<DiagnosticView>::empty());
    while i < routes.len()
        invariant
            i <= routes@.len(),
            names@.len() == i,
            forall|j: int| 0 <= j < i ==> #[trigger] names@[j]@ == method_name_of(routes@[j]@),
            diagnostics_view(diags@) == method_name_clashes(routes_view(routes@).subrange(0, i as int)),
        decreases routes@.len() - i,
    {
        let ghost cur = routes_view(routes@).subrange(0, i + 1);
        let ghost pre = routes_view(routes@).subrange(0, i as int);
        assert(cur.drop_last() =~= pre);
        assert(cur.last() == routes@[i as int]@);
        let name = convert_to_case_kind(routes[i].name.as_str(), CaseKind::Camel);
        let found = find_earlier_name(&names, routes, &name);
        match found {
            Some(k) => {
                let d = Diagnostic::DuplicateIdentifier {
                    identifier: name.clone(),
                    method: routes[i].method.clone(),
                    path: routes[i].path.clone(),
                    existing_method: routes[k].method.clone(),
                    existing_path: routes[k].path.clone(),
                };
                let ghost before = diags@;
                diags.push(d);
                assert(diagnostics_view(diags@) =~= diagnostics_view(before).push(d@));
            },
            None => {},
        }
        names.push(name);
        i += 1;
    }
    assert(routes_view(routes@).subrange(0, i as int) =~= routes_view(routes@));
    diags
}

/// The final form of generated TypeScript: the text as it is.
pub fn format_ts_code(code: &str) -> (r: String)
    ensures
        r@ == code@,
{
    String::from_str(code)
}

} // verus!
