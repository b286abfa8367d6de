//! Route discovery: the builder chain of a module's `routes` function, the
//! join with handler metadata, and the run-wide de-duplication.
use crate::case::{to_uppercase, uppercase_of};
use crate::config::{Config, NamingConfig};
use crate::handlers::{
    entries_view, extract_handler_info, find_handler, handler_entries, lookup_handler,
    unresolved_handler, HandlerInfo, HandlerView,
};
use crate::naming::{configured_route_name, generate_route_name};
use crate::path::{build_full_path, full_path};
use crate::syntax::{last_ident, last_segment_ident, Expr, Item, ItemFn, Lit, SourceModule, Stmt};
use crate::text::{concat_str, ends_with, has_prefix, starts_with, str_eq};
use crate::text::opt_seq;
use vstd::prelude::*;

verus! {

/// One route: a method and a path template, dispatching to a handler.
#[derive(Debug, Clone, PartialEq, Eq, Hash)]
pub struct RouteInfo {
    /// The route's name before case conversion, unique after de-duplication.
    pub name: String,
    /// The full path template, prefix included.
    pub path: String,
    /// The upper-case HTTP method.
    pub method: String,
    /// The handler function's name.
    pub handler: String,
    pub handler_info: HandlerInfo,
}

/// The model of a `RouteInfo`.
pub struct RouteView {
    pub name: Seq<char>,
    pub path: Seq<char>,
    pub method: Seq<char>,
    pub handler: Seq<char>,
    pub handler_info: HandlerView,
}

impl View for RouteInfo {
    type V = RouteView;

    open spec fn view(&self) -> RouteView {
        RouteView {
            name: self.name@,
            path: self.path@,
            method: self.method@,
            handler: self.handler@,
            handler_info: self.handler_info@,
        }
    }
}

/// The views of a sequence of routes.
pub open spec fn routes_view(v: Seq<RouteInfo>) -> Seq<RouteView> {
    v.map_values(|r: RouteInfo| r@)
}

impl RouteInfo {
    /// An equal copy.
    pub fn duplicate(&self) -> (r: Self)
        ensures
            r@ == self@,
    {
        RouteInfo {
            name: self.name.clone(),
            path: self.path.clone(),
            method: self.method.clone(),
            handler: self.handler.clone(),
            handler_info: self.handler_info.duplicate(),
        }
    }
}

/// The value of a string literal.
pub open spec fn string_literal(e: Expr) -> Option<Seq<char>> {
    match e {
        Expr::Lit(Lit::Str(s)) => Some(s@),
        _ => None,
    }
}

/// The method and handler of `verb(handler)`: the verb upper-cased and the
/// handler's last path identifier.
pub open spec fn method_and_handler(e: Expr) -> Option<(Seq<char>, Seq<char>)> {
    match e {
        Expr::Call { func, args } => match *func {
            Expr::Path(segs) => if segs@.len() > 0 && args@.len() > 0 {
                match args@[0] {
                    Expr::Path(h) => if h@.len() > 0 {
                        Some((uppercase_of(segs@.last().ident@), h@.last().ident@))
                    } else {
                        None
                    },
                    _ => None,
                }
            } else {
                None
            },
            _ => None,
        },
        _ => None,
    }
}

/// A prefix made to start with a slash.
pub open spec fn slash_led(s: Seq<char>) -> Seq<char> {
    if starts_with(s, seq!['/']) {
        s
    } else {
        seq!['/'] + s
    }
}

/// The route that `add(path, verb(handler))` declares under `prefix`.
pub open spec fn declared_route(
    prefix: Seq<char>,
    path: Seq<char>,
    method: Seq<char>,
    handler: Seq<char>,
    config: NamingConfig,
) -> RouteView {
    let full = full_path(prefix, path);
    RouteView {
        name: configured_route_name(full, method, config),
        path: full,
        method: method,
        handler: handler,
        handler_info: unresolved_handler(),
    }
}

/// The walk of a builder chain, receiver first: the routes so far, the
/// prefix in force, and whether the chain could be read (an `add` whose path
/// or method cannot be read stops the rest of the chain).
/// `prefix(lit)` sets the prefix, a call of a path ending in `new` clears
/// it, and any other call is passed through.
pub open spec fn walk_chain(
    e: Expr,
    routes: Seq<RouteView>,
    prefix: Seq<char>,
    config: NamingConfig,
) -> (Seq<RouteView>, Seq<char>, bool)
    decreases e,
{
    match e {
        Expr::MethodCall { receiver, method, args } => {
            let (r1, prefix1, ok) = walk_chain(*receiver, routes, prefix, config);
            if !ok {
                (r1, prefix1, false)
            } else if method@ == "prefix"@ {
                let prefix2 = if args@.len() > 0 {
                    match string_literal(args@[0]) {
                        Some(s) => slash_led(s),
                        None => prefix1,
                    }
                } else {
                    prefix1
                };
                (r1, prefix2, true)
            } else if method@ == "add"@ && args@.len() >= 2 {
                match (string_literal(args@[0]), method_and_handler(args@[1])) {
                    (Some(path), Some((m, h))) => (
                        r1.push(declared_route(prefix1, path, m, h, config)),
                        prefix1,
                        true,
                    ),
                    _ => (r1, prefix1, false),
                }
            } else {
                (r1, prefix1, true)
            }
        },
        Expr::Call { func, args: _ } => match *func {
            Expr::Path(segs) => if last_ident(segs@) == Some("new"@) {
                (routes, Seq::empty(), true)
            } else {
                (routes, prefix, true)
            },
            _ => (routes, prefix, true),
        },
        _ => (routes, prefix, true),
    }
}

/// The routes and prefix after the expression statements of a function
/// body, each walked as a chain; the prefix carries over between statements.
pub open spec fn walk_stmts(ss: Seq<Stmt>, config: NamingConfig) -> (Seq<RouteView>, Seq<char>)
    decreases ss.len(),
{
    if ss.len() == 0 {
        (Seq::empty(), Seq::empty())
    } else {
        let (r, p) = walk_stmts(ss.drop_last(), config);
        match ss.last() {
            Stmt::Expr(e) => {
                let (r2, prefix2, _ok) = walk_chain(e, r, p, config);
                (r2, prefix2)
            },
            _ => (r, p),
        }
    }
}

/// The routes that the first function named `routes` with any routes declares.
pub open spec fn declared_routes(items: Seq<Item>, config: NamingConfig) -> Seq<RouteView>
    decreases items.len(),
{
    if items.len() == 0 {
        Seq::empty()
    } else {
        let rest = declared_routes(items.subrange(1, items.len() as int), config);
        match items[0] {
            Item::Fn(f) => if f.name@ == "routes"@ && walk_stmts(f.body@, config).0.len() > 0 {
                walk_stmts(f.body@, config).0
            } else {
                rest
            },
            Item::Other => rest,
        }
    }
}

/// `r` with the metadata of its handler, where `es` records one.
pub open spec fn with_handler(r: RouteView, es: Seq<(Seq<char>, HandlerView)>) -> RouteView {
    match lookup_handler(es, r.handler) {
        Some(h) => RouteView { handler_info: h, ..r },
        None => r,
    }
}

/// The routes of a module, each joined with its handler's metadata.
pub open spec fn module_routes(items: Seq<Item>, config: NamingConfig) -> Seq<RouteView> {
    let es = handler_entries(items);
    declared_routes(items, config).map_values(|r: RouteView| with_handler(r, es))
}

/// The string value of a literal expression.
fn extract_string_literal(expr: &Expr) -> (r: Option<String>)
    ensures
        crate::text::opt_seq(r) == string_literal(*expr),
{
    match expr {
        Expr::Lit(Lit::Str(s)) => Some(s.clone()),
        _ => None,
    }
}

/// The HTTP method and handler of `verb(handler)` (see `method_and_handler`).
fn extract_http_method_and_handler(expr: &Expr) -> (r: Option<(String, String)>)
    ensures
        match r {
            Some((m, h)) => method_and_handler(*expr) == Some((m@, h@)),
            None => method_and_handler(*expr) is None,
        },
{
    match expr {
        Expr::Call { func, args } => match &**func {
            Expr::Path(segs) => {
                if segs.len() > 0 && args.len() > 0 {
                    match &args[0] {
                        Expr::Path(h) => {
                            if h.len() > 0 {
                                let m = to_uppercase(segs[segs.len() - 1].ident.as_str());
                                Some((m, h[h.len() - 1].ident.clone()))
                            } else {
                                None
                            }
                        },
                        _ => None,
                    }
                } else {
                    None
                }
            },
            _ => None,
        },
        _ => None,
    }
}

/// Walks one builder chain (see `walk_chain`), adding its routes to
/// `routes` and keeping `prefix` up to date; false where an `add` could not
/// be read.
fn extract_routes_from_expr(
    expr: &Expr,
    routes: &mut Vec<RouteInfo>,
    prefix: &mut String,
    config: &NamingConfig,
) -> (ok: bool)
    ensures
        (routes_view(final(routes)@), final(prefix)@, ok) == walk_chain(
            *expr,
            routes_view(old(routes)@),
            old(prefix)@,
            *config,
        ),
    decreases expr,
{
    match expr {
        Expr::MethodCall { receiver, method, args } => {
            let ok = extract_routes_from_expr(receiver, routes, prefix, config);
            if !ok {
                return false;
            }
            if str_eq(method.as_str(), "prefix") {
                if args.len() > 0 {
                    if let Some(s) = extract_string_literal(&args[0]) {
                        proof {
                            reveal_strlit("/");
                            assert("/"@ =~= seq!['/']);
                        }
                        if has_prefix(s.as_str(), "/") {
                            *prefix = s;
                        } else {
                            *prefix = concat_str("/", s.as_str());
                        }
                    }
                }
                true
            } else if str_eq(method.as_str(), "add") && args.len() >= 2 {
                let path = extract_string_literal(&args[0]);
                let mh = extract_http_method_and_handler(&args[1]);
                match (path, mh) {
                    (Some(path), Some((m, h))) => {
                        let full = build_full_path(prefix.as_str(), path.as_str());
                        let name = generate_route_name(full.as_str(), m.as_str(), config);
                        let route = RouteInfo {
                            name,
                            path: full,
                            method: m,
                            handler: h,
                            handler_info: HandlerInfo::unresolved(),
                        };
                        let ghost before = routes@;
                        routes.push(route);
                        assert(routes_view(routes@) =~= routes_view(before).push(route@));
                        true
                    },
                    _ => false,
                }
            } else {
                true
            }
        },
        Expr::Call { func, args: _ } => {
            if let Expr::Path(segs) = &**func {
                if let Some(id) = last_segment_ident(segs) {
                    if str_eq(id.as_str(), "new") {
                        *prefix = String::new();
                    }
                }
            }
            true
        },
        _ => true,
    }
}

/// The routes that a `routes` function's body declares (see `walk_stmts`).
fn extract_routes_from_axum_function(func: &ItemFn, config: &NamingConfig) -> (r: Vec<RouteInfo>)
    ensures
        routes_view(r@) == walk_stmts(func.body@, *config).0,
{
    let mut routes: Vec<RouteInfo> = Vec::new();
    let mut prefix = String::new();
    let mut i: usize = 0;
    assert(routes_view(routes@) =~= Seq::<RouteView>::empty());
    while i < func.body.len()
        invariant
            i <= func.body@.len(),
            (routes_view(routes@), prefix@) == walk_stmts(func.body@.subrange(0, i as int), *config),
        decreases func.body@.len() - i,
    {
        assert(func.body@.subrange(0, i + 1).drop_last() =~= func.body@.subrange(0, i as int));
        if let Stmt::Expr(e) = &func.body[i] {
            let _ok = extract_routes_from_expr(e, &mut routes, &mut prefix, config);
        }
        i += 1;
    }
    assert(func.body@.subrange(0, i as int) =~= func.body@);
    routes
}

/// The routes of the first function named `routes` that declares any.
fn declared_routes_of(items: &Vec<Item>, config: &NamingConfig) -> (r: Vec<RouteInfo>)
    ensures
        routes_view(r@) == declared_routes(items@, *config),
{
    let mut i: usize = 0;
    assert(items@.subrange(0, items@.len() as int) =~= items@);
    while i < items.len()
        invariant
            i <= items@.len(),
            declared_routes(items@, *config) == declared_routes(items@.subrange(i as int, items@.len() as int), *config),
        decreases items@.len() - i,
    {
        let ghost rest = items@.subrange(i as int, items@.len() as int);
        assert(rest.subrange(1, rest.len() as int) =~= items@.subrange(i + 1, items@.len() as int));
        assert(rest[0] == items@[i as int]);
        if let Item::Fn(f) = &items[i] {
            if str_eq(f.name.as_str(), "routes") {
                let found = extract_routes_from_axum_function(f, config);
                if found.len() > 0 {
                    assert(routes_view(found@).len() > 0);
                    return found;
                }
            }
        }
        i += 1;
    }
    let none: Vec<RouteInfo> = Vec::new();
    assert(routes_view(none@) =~= Seq::<RouteView>::empty());
    none
}

/// The routes that a module declares, each joined with its handler's
/// metadata; a route whose handler is not found keeps the unresolved
/// metadata.
pub fn routes_of_module(module: &SourceModule, config: &NamingConfig) -> (r: Vec<RouteInfo>)
    ensures
        routes_view(r@) == module_routes(module.items@, *config),
{
    let items = &module.items;
    let declared = declared_routes_of(items, config);
    let entries = extract_handler_info(items);
    let mut out: Vec<RouteInfo> = Vec::new();
    let mut k: usize = 0;
    while k < declared.len()
        invariant
            k <= declared@.len(),
            entries_view(entries@) == handler_entries(items@),
            routes_view(declared@) == declared_routes(items@, *config),
            out@.len() == k,
            forall|j: int| 0 <= j < k ==> #[trigger] out@[j]@ == with_handler(declared@[j]@, handler_entries(items@)),
        decreases declared@.len() - k,
    {
        let mut route = declared[k].duplicate();
        if let Some(info) = find_handler(&entries, declared[k].handler.as_str()) {
            route.handler_info = info.duplicate();
        }
        assert(route@ == with_handler(declared@[k as int]@, handler_entries(items@)));
        out.push(route);
        k += 1;
    }
    assert(routes_view(out@) =~= module_routes(module.items@, *config));
    out
}


/// A warning of the run, reported apart from the generated code.
#[derive(Debug, Clone, PartialEq, Eq, Hash)]
pub enum Diagnostic {
    /// A route with the method and path of an earlier one was dropped.
    DuplicateRoute { method: String, path: String, kept_handler: String, dropped_handler: String },
    /// A route whose identifier another route already has was skipped.
    DuplicateIdentifier {
        identifier: String,
        method: String,
        path: String,
        existing_method: String,
        existing_path: String,
    },
}

/// The model of a `Diagnostic`.
pub enum DiagnosticView {
    DuplicateRoute {
        method: Seq<char>,
        path: Seq<char>,
        kept_handler: Seq<char>,
        dropped_handler: Seq<char>,
    },
    DuplicateIdentifier {
        identifier: Seq<char>,
        method: Seq<char>,
        path: Seq<char>,
        existing_method: Seq<char>,
        existing_path: Seq<char>,
    },
}

impl View for Diagnostic {
    type V = DiagnosticView;

    open spec fn view(&self) -> DiagnosticView {
        match self {
            Diagnostic::DuplicateRoute { method, path, kept_handler, dropped_handler } => {
                DiagnosticView::DuplicateRoute {
                    method: method@,
                    path: path@,
                    kept_handler: kept_handler@,
                    dropped_handler: dropped_handler@,
                }
            },
            Diagnostic::DuplicateIdentifier {
                identifier,
                method,
                path,
                existing_method,
                existing_path,
            } => DiagnosticView::DuplicateIdentifier {
                identifier: identifier@,
                method: method@,
                path: path@,
                existing_method: existing_method@,
                existing_path: existing_path@,
            },
        }
    }
}

/// The views of a sequence of diagnostics.
pub open spec fn diagnostics_view(v: Seq<Diagnostic>) -> Seq<DiagnosticView> {
    v.map_values(|d: Diagnostic| d@)
}

/// The text of a diagnostic.
pub open spec fn diagnostic_text(d: DiagnosticView) -> Seq<char> {
    match d {
        DiagnosticView::DuplicateRoute { method, path, kept_handler, dropped_handler } =>
            "Duplicate route skipped: "@ + method + " "@ + path + " (handler "@ + dropped_handler
            + " dropped, handler "@ + kept_handler + " kept)"@,
        DiagnosticView::DuplicateIdentifier {
            identifier,
            method,
            path,
            existing_method,
            existing_path,
        } => "Duplicate variant name '"@ + identifier + "' for routes: "@ + method + " "@ + path
            + " and "@ + existing_method + " "@ + existing_path,
    }
}

impl Diagnostic {
    /// An equal copy.
    pub fn duplicate(&self) -> (r: Self)
        ensures
            r@ == self@,
    {
        match self {
            Diagnostic::DuplicateRoute { method, path, kept_handler, dropped_handler } => Diagnostic::DuplicateRoute {
                method: method.clone(),
                path: path.clone(),
                kept_handler: kept_handler.clone(),
                dropped_handler: dropped_handler.clone(),
            },
            Diagnostic::DuplicateIdentifier { identifier, method, path, existing_method, existing_path } => Diagnostic::DuplicateIdentifier {
                identifier: identifier.clone(),
                method: method.clone(),
                path: path.clone(),
                existing_method: existing_method.clone(),
                existing_path: existing_path.clone(),
            },
        }
    }

    /// The text of the diagnostic, for the warning channel.
    pub fn message(&self) -> (r: String)
        ensures
            r@ == diagnostic_text(self@),
    {
        match self {
            Diagnostic::DuplicateRoute { method, path, kept_handler, dropped_handler } => {
                let mut out = String::from_str("Duplicate route skipped: ");
                out.append(method.as_str());
                out.append(" ");
                out.append(path.as_str());
                out.append(" (handler ");
                out.append(dropped_handler.as_str());
                out.append(" dropped, handler ");
                out.append(kept_handler.as_str());
                out.append(" kept)");
                out
            },
            Diagnostic::DuplicateIdentifier {
                identifier,
                method,
                path,
                existing_method,
                existing_path,
            } => {
                let mut out = String::from_str("Duplicate variant name '");
                out.append(identifier.as_str());
                out.append("' for routes: ");
                out.append(method.as_str());
                out.append(" ");
                out.append(path.as_str());
                out.append(" and ");
                out.append(existing_method.as_str());
                out.append(" ");
                out.append(existing_path.as_str());
                out
            },
        }
    }
}

/// The route among `k` with this method and path (the last, should there be several).
pub open spec fn find_key(k: Seq<RouteView>, method: Seq<char>, path: Seq<char>) -> Option<RouteView>
    decreases k.len(),
{
    if k.len() == 0 {
        None
    } else if k.last().method == method && k.last().path == path {
        Some(k.last())
    } else {
        find_key(k.drop_last(), method, path)
    }
}

/// The routes of `rs` that survive de-duplication: each whose method and
/// path no earlier route has.
pub open spec fn kept_routes(rs: Seq<RouteView>) -> Seq<RouteView>
    decreases rs.len(),
{
    if rs.len() == 0 {
        rs
    } else {
        let p = kept_routes(rs.drop_last());
        if find_key(p, rs.last().method, rs.last().path) is Some {
            p
        } else {
            p.push(rs.last())
        }
    }
}

/// One diagnostic for each route of `rs` that de-duplication drops, naming
/// its handler and that of the route kept in its place.
pub open spec fn dropped_routes(rs: Seq<RouteView>) -> Seq<DiagnosticView>
    decreases rs.len(),
{
    if rs.len() == 0 {
        Seq::empty()
    } else {
        let d = dropped_routes(rs.drop_last());
        match find_key(kept_routes(rs.drop_last()), rs.last().method, rs.last().path) {
            Some(x) => d.push(
                DiagnosticView::DuplicateRoute {
                    method: rs.last().method,
                    path: rs.last().path,
                    kept_handler: x.handler,
                    dropped_handler: rs.last().handler,
                },
            ),
            None => d,
        }
    }
}

proof fn lemma_find_key_none(k: Seq<RouteView>, method: Seq<char>, path: Seq<char>)
    ensures
        find_key(k, method, path) is None <==> forall|i: int|
            0 <= i < k.len() ==> !((#[trigger] k[i]).method == method && k[i].path == path),
    decreases k.len(),
{
    if k.len() > 0 {
        lemma_find_key_none(k.drop_last(), method, path);
        if find_key(k, method, path) is None {
            assert forall|i: int| 0 <= i < k.len() implies !((#[trigger] k[i]).method == method
                && k[i].path == path) by {
                if i < k.len() - 1 {
                    assert(k[i] == k.drop_last()[i]);
                }
            }
        } else {
            if !(k.last().method == method && k.last().path == path) {
                let i = choose|i: int|
                    0 <= i < k.drop_last().len() && (#[trigger] k.drop_last()[i]).method == method
                        && k.drop_last()[i].path == path;
                assert(k[i] == k.drop_last()[i]);
            }
        }
    }
}

/// After de-duplication no two routes share a method and a path, and every
/// route's method and path is still served by one that was kept.
pub proof fn lemma_kept_routes_distinct(rs: Seq<RouteView>)
    ensures
        forall|i: int, j: int|
            0 <= i < j < kept_routes(rs).len() ==> !((#[trigger] kept_routes(rs)[i]).method
                == (#[trigger] kept_routes(rs)[j]).method && kept_routes(rs)[i].path == kept_routes(rs)[j].path),
        forall|i: int| 0 <= i < rs.len() ==> find_key(kept_routes(rs), (#[trigger] rs[i]).method, rs[i].path) is Some,
    decreases rs.len(),
{
    if rs.len() > 0 {
        let p = kept_routes(rs.drop_last());
        lemma_kept_routes_distinct(rs.drop_last());
        lemma_find_key_none(p, rs.last().method, rs.last().path);
        let k = kept_routes(rs);
        if find_key(p, rs.last().method, rs.last().path) is None {
            assert(k == p.push(rs.last()));
            assert forall|i: int, j: int| 0 <= i < j < k.len() implies !((#[trigger] k[i]).method
                == (#[trigger] k[j]).method && k[i].path == k[j].path) by {
                if j == k.len() - 1 {
                    assert(k[i] == p[i]);
                } else {
                    assert(k[i] == p[i]);
                    assert(k[j] == p[j]);
                }
            }
            assert forall|i: int| 0 <= i < rs.len() implies find_key(k, (#[trigger] rs[i]).method, rs[i].path) is Some by {
                lemma_find_key_none(k, rs[i].method, rs[i].path);
                if i < rs.len() - 1 {
                    assert(rs[i] == rs.drop_last()[i]);
                    lemma_find_key_none(p, rs[i].method, rs[i].path);
                    let m = choose|m: int| 0 <= m < p.len() && (#[trigger] p[m]).method == rs[i].method && p[m].path == rs[i].path;
                    assert(k[m] == p[m]);
                } else {
                    assert(k[k.len() - 1] == rs.last());
                }
            }
        } else {
            assert(k == p);
            assert forall|i: int| 0 <= i < rs.len() implies find_key(k, (#[trigger] rs[i]).method, rs[i].path) is Some by {
                if i < rs.len() - 1 {
                    assert(rs[i] == rs.drop_last()[i]);
                }
            }
        }
    }
}

/// Reading a builder chain is deterministic: two readings of the same chain
/// from the same routes, prefix and configuration give the same routes, the
/// same prefix and the same outcome.
pub proof fn lemma_chain_deterministic(
    e: Expr,
    routes: Seq<RouteView>,
    prefix: Seq<char>,
    config: NamingConfig,
    first: (Seq<RouteView>, Seq<char>, bool),
    second: (Seq<RouteView>, Seq<char>, bool),
)
    requires
        first == walk_chain(e, routes, prefix, config),
        second == walk_chain(e, routes, prefix, config),
    ensures
        first == second,
{
}

/// Two routes with the same method and path: only the first survives, and
/// one diagnostic names the dropped handler and the kept one.
pub proof fn lemma_duplicate_pair(a: RouteView, b: RouteView)
    requires
        a.method == b.method,
        a.path == b.path,
    ensures
        kept_routes(seq![a, b]) == seq![a],
        dropped_routes(seq![a, b]) == seq![
            DiagnosticView::DuplicateRoute {
                method: b.method,
                path: b.path,
                kept_handler: a.handler,
                dropped_handler: b.handler,
            },
        ],
{
    let rs = seq![a, b];
    assert(rs.drop_last() =~= seq![a]);
    assert(seq![a].drop_last() =~= Seq::<RouteView>::empty());
    let e = Seq::<RouteView>::empty();
    assert(kept_routes(e) == e);
    assert(find_key(e, a.method, a.path) is None);
    assert(kept_routes(seq![a]) == e.push(a));
    assert(e.push(a) =~= seq![a]);
    assert(dropped_routes(e) == Seq::<DiagnosticView>::empty());
    assert(find_key(seq![a], b.method, b.path) == Some(a));
    assert(dropped_routes(seq![a]) =~= Seq::<DiagnosticView>::empty());
    assert(dropped_routes(rs) =~= Seq::<DiagnosticView>::empty().push(
        DiagnosticView::DuplicateRoute {
            method: b.method,
            path: b.path,
            kept_handler: a.handler,
            dropped_handler: b.handler,
        },
    ));
}

/// Routes and the warnings raised while they were assembled.
#[derive(Debug, Clone)]
pub struct ScanResult {
    pub routes: Vec<RouteInfo>,
    pub diagnostics: Vec<Diagnostic>,
}

/// Finds the kept route with this method and path (see `find_key`).
fn find_route_with_key(k: &Vec<RouteInfo>, method: &String, path: &String) -> (r: Option<usize>)
    ensures
        match r {
            Some(j) => j < k@.len() && find_key(routes_view(k@), method@, path@) == Some(k@[j as int]@),
            None => find_key(routes_view(k@), method@, path@) is None,
        },
{
    let mut j: usize = k.len();
    assert(routes_view(k@).subrange(0, j as int) =~= routes_view(k@));
    while j > 0
        invariant
            j <= k@.len(),
            find_key(routes_view(k@), method@, path@) == find_key(
                routes_view(k@).subrange(0, j as int),
                method@,
                path@,
            ),
        decreases j,
    {
        assert(routes_view(k@).subrange(0, j as int).drop_last() =~= routes_view(k@).subrange(0, j - 1));
        if k[j - 1].method == *method && k[j - 1].path == *path {
            return Some(j - 1);
        }
        j -= 1;
    }
    None
}

/// Keeps the first route of each (method, path) pair, in order, and reports
/// each later one with a diagnostic that names both handlers. The kept
/// routes themselves are searched for a key, so that the kept route's
/// handler can be named.
pub fn deduplicate_routes(routes: &Vec<RouteInfo>) -> (r: ScanResult)
    ensures
        routes_view(r.routes@) == kept_routes(routes_view(routes@)),
        diagnostics_view(r.diagnostics@) == dropped_routes(routes_view(routes@)),
{
    let mut kept: Vec<RouteInfo> = Vec::new();
    let mut diags: Vec<Diagnostic> = Vec::new();
    let mut i: usize = 0;
    assert(routes_view(kept@) =~= kept_routes(routes_view(routes@).subrange(0, 0)));
    assert(diagnostics_view(diags@) =~= dropped_routes(routes_view(routes@).subrange(0, 0)));
    while i < routes.len()
        invariant
            i <= routes@.len(),
            routes_view(kept@) == kept_routes(routes_view(routes@).subrange(0, i as int)),
            diagnostics_view(diags@) == dropped_routes(routes_view(routes@).subrange(0, i as int)),
        decreases routes@.len() - i,
    {
        let ghost cur = routes_view(routes@).subrange(0, i + 1);
        assert(cur.drop_last() =~= routes_view(routes@).subrange(0, i as int));
        assert(cur.last() == routes@[i as int]@);
        let route = &routes[i];
        match find_route_with_key(&kept, &route.method, &route.path) {
            Some(j) => {
                let d = Diagnostic::DuplicateRoute {
                    method: route.method.clone(),
                    path: route.path.clone(),
                    kept_handler: kept[j].handler.clone(),
                    dropped_handler: route.handler.clone(),
                };
                let ghost before = diags@;
                diags.push(d);
                assert(diagnostics_view(diags@) =~= diagnostics_view(before).push(d@));
            },
            None => {
                let ghost before = kept@;
                let copy = route.duplicate();
                kept.push(copy);
                assert(routes_view(kept@) =~= routes_view(before).push(copy@));
            },
        }
        i += 1;
    }
    assert(routes_view(routes@).subrange(0, i as int) =~= routes_view(routes@));
    ScanResult { routes: kept, diagnostics: diags }
}

/// Whether a file of the controllers directory holds a controller module:
/// a `.rs` file other than the directory's own `mod.rs`.
pub fn is_controller_file(file_name: &str) -> (r: bool)
    ensures
        r == (file_name@ != "mod.rs"@ && ends_with(file_name@, ".rs"@)),
{
    let ends = crate::text::has_suffix(file_name, ".rs");
    !str_eq(file_name, "mod.rs") && ends
}

/// The routes of all modules, in order, before de-duplication.
pub open spec fn all_module_routes(ms: Seq<SourceModule>, config: NamingConfig) -> Seq<RouteView>
    decreases ms.len(),
{
    if ms.len() == 0 {
        Seq::empty()
    } else {
        all_module_routes(ms.drop_last(), config) + module_routes(ms.last().items@, config)
    }
}

/// Assembles the routes of a run from its controller modules, in order:
/// each module's routes joined with its handlers' metadata, then
/// de-duplicated by method and path, with a diagnostic for each route dropped.
pub fn collect_routes(modules: &Vec<SourceModule>, config: &Config) -> (r: ScanResult)
    ensures
        routes_view(r.routes@) == kept_routes(all_module_routes(modules@, config.naming)),
        diagnostics_view(r.diagnostics@) == dropped_routes(all_module_routes(modules@, config.naming)),
{
    let mut all: Vec<RouteInfo> = Vec::new();
    let mut i: usize = 0;
    assert(routes_view(all@) =~= all_module_routes(modules@.subrange(0, 0), config.naming));
    while i < modules.len()
        invariant
            i <= modules@.len(),
            routes_view(all@) == all_module_routes(modules@.subrange(0, i as int), config.naming),
        decreases modules@.len() - i,
    {
        assert(modules@.subrange(0, i + 1).drop_last() =~= modules@.subrange(0, i as int));
        let found = routes_of_module(&modules[i], &config.naming);
        let ghost before = routes_view(all@);
        let mut k: usize = 0;
        while k < found.len()
            invariant
                k <= found@.len(),
                routes_view(all@) == before + routes_view(found@).subrange(0, k as int),
            decreases found@.len() - k,
        {
            let ghost prev = all@;
            let copy = found[k].duplicate();
            all.push(copy);
            assert(routes_view(all@) =~= routes_view(prev).push(copy@));
            assert(routes_view(found@).subrange(0, k + 1) =~= routes_view(found@).subrange(0, k as int).push(copy@));
            assert(before + routes_view(found@).subrange(0, k + 1) =~= (before + routes_view(found@).subrange(0, k as int)).push(copy@));
            k += 1;
        }
        assert(routes_view(found@).subrange(0, k as int) =~= routes_view(found@));
        i += 1;
    }
    assert(modules@.subrange(0, i as int) =~= modules@);
    deduplicate_routes(&all)
}

} // verus!
