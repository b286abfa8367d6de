//! Handler metadata: request body, authentication and response type.
use crate::syntax::{last_ident, last_segment_ident, Expr, FnParam, Item, ItemFn, PathSegment, Stmt, TypeRef};
use crate::text::str_eq;
use crate::text::opt_seq;
use vstd::prelude::*;

verus! {

/// What is known of a handler's response type: the type found, whether
/// generated client code has to import it, and the named error types that
/// the handler may surface.
#[derive(Debug, Clone, Default, PartialEq, Eq, Hash)]
pub struct ReturnTypeVisitor {
    pub found_type: Option<String>,
    pub is_importable: bool,
    pub error_types: Vec<String>,
}

/// The model of a `ReturnTypeVisitor`.
pub struct ReturnTypeView {
    pub found_type: Option<Seq<char>>,
    pub is_importable: bool,
    pub error_types: Seq<Seq<char>>,
}

impl View for ReturnTypeVisitor {
    type V = ReturnTypeView;

    open spec fn view(&self) -> ReturnTypeView {
        ReturnTypeView {
            found_type: opt_seq(self.found_type),
            is_importable: self.is_importable,
            error_types: self.error_types@.map_values(|s: String| s@),
        }
    }
}

/// A response type found in a handler: its name and whether it is importable.
pub type Found = (Seq<char>, bool);

/// `a` where it holds a result, else `b`.
pub open spec fn first_found(a: Option<Found>, b: Option<Found>) -> Option<Found> {
    match a {
        Some(x) => Some(x),
        None => b,
    }
}

/// The state after a search that found `r`: a state that already holds a
/// type keeps it, and nothing found changes nothing.
pub open spec fn after_search(st: ReturnTypeView, r: Option<Found>) -> ReturnTypeView {
    match (st.found_type, r) {
        (None, Some((t, imp))) => ReturnTypeView {
            found_type: Some(t),
            is_importable: imp,
            error_types: st.error_types,
        },
        _ => st,
    }
}

/// Rust's primitive and string type names.
pub open spec fn is_builtin_rust(n: Seq<char>) -> bool {
    n == "i8"@ || n == "i16"@ || n == "i32"@ || n == "i64"@ || n == "i128"@ || n == "isize"@
        || n == "u8"@ || n == "u16"@ || n == "u32"@ || n == "u64"@ || n == "u128"@
        || n == "usize"@ || n == "f32"@ || n == "f64"@ || n == "bool"@ || n == "char"@
        || n == "str"@ || n == "String"@
}

/// The element type of a `Vec::<T>::..` path: the last identifier of `T`.
pub open spec fn vec_element(segs: Seq<PathSegment>) -> Option<Seq<char>> {
    if segs.len() >= 2 && segs[0].ident@ == "Vec"@ && segs[0].args@.len() > 0 {
        match segs[0].args@[0] {
            TypeRef::Path(inner) => last_ident(inner@),
            _ => None,
        }
    } else {
        None
    }
}

/// The response type that a value handed to the JSON responder reveals:
/// `Vec::<T>::..` gives `Array<T>`, importable unless `T` is a builtin;
/// `Type::from(..)` (any path of two or more segments) gives the
/// second-to-last segment; `Type(..)` gives `Type`; these two are importable.
pub open spec fn conversion_type(e: Expr) -> Option<Found> {
    match e {
        Expr::Call { func, args } => match *func {
            Expr::Path(segs) => match vec_element(segs@) {
                Some(t) => Some(("Array<"@ + t + ">"@, !is_builtin_rust(t))),
                None => if segs@.len() >= 2 {
                    Some((segs@[segs@.len() - 2].ident@, true))
                } else if segs@.len() == 1 {
                    Some((segs@[0].ident@, true))
                } else {
                    None
                },
            },
            _ => None,
        },
        _ => None,
    }
}

/// Whether `func` names the JSON responder (a path ending in `json`).
pub open spec fn is_json_responder(func: Expr) -> bool {
    match func {
        Expr::Path(segs) => last_ident(segs@) == Some("json"@),
        _ => false,
    }
}

/// The first response type found in `e`, in textual order.
pub open spec fn expr_type(e: Expr) -> Option<Found>
    decreases e, 0int,
{
    match e {
        Expr::Call { func, args } => if is_json_responder(*func) && args@.len() > 0 {
            conversion_type(args@[0])
        } else {
            exprs_type(args@, args@.len() as int)
        },
        Expr::Return(v) => match v {
            Some(x) => expr_type(*x),
            None => None,
        },
        Expr::MethodCall { receiver, method, args } => first_found(
            expr_type(*receiver),
            exprs_type(args@, args@.len() as int),
        ),
        Expr::Block(stmts) => stmts_type(stmts@, stmts@.len() as int),
        Expr::If { cond, then_branch, else_branch } => first_found(
            expr_type(*cond),
            first_found(
                stmts_type(then_branch@, then_branch@.len() as int),
                match else_branch {
                    Some(x) => expr_type(*x),
                    None => None,
                },
            ),
        ),
        Expr::Match { scrutinee, arms } => first_found(
            expr_type(*scrutinee),
            exprs_type(arms@, arms@.len() as int),
        ),
        _ => None,
    }
}

/// The first response type found in the first `n` of `es`.
pub open spec fn exprs_type(es: Seq<Expr>, n: int) -> Option<Found>
    decreases es, n,
{
    if n <= 0 || n > es.len() {
        None
    } else {
        first_found(exprs_type(es, n - 1), expr_type(es[n - 1]))
    }
}

/// The first response type found in a statement.
pub open spec fn stmt_type(s: Stmt) -> Option<Found>
    decreases s, 0int,
{
    match s {
        Stmt::Local(init) => match init {
            Some(e) => expr_type(e),
            None => None,
        },
        Stmt::Expr(e) => expr_type(e),
        Stmt::Other => None,
    }
}

/// The first response type found in the first `n` of `ss`.
pub open spec fn stmts_type(ss: Seq<Stmt>, n: int) -> Option<Found>
    decreases ss, n,
{
    if n <= 0 || n > ss.len() {
        None
    } else {
        first_found(stmts_type(ss, n - 1), stmt_type(ss[n - 1]))
    }
}


/// Whether `e` builds an empty collection of `t`: a call of `Vec::<t>::..`
/// without arguments.
pub open spec fn is_empty_collection_of(e: Expr, t: Seq<char>) -> bool {
    match e {
        Expr::Call { func, args } => args@.len() == 0 && match *func {
            Expr::Path(segs) => vec_element(segs@) == Some(t),
            _ => false,
        },
        _ => false,
    }
}

/// A JSON response built from an empty collection of `t` gives the type
/// `Array<t>`, to be imported exactly when `t` is not a builtin.
pub proof fn lemma_empty_collection_response(c: Expr, t: Seq<char>)
    requires
        c matches Expr::Call { func, args } && is_json_responder(*func) && args@.len() > 0
            && is_empty_collection_of(args@[0], t),
    ensures
        expr_type(c) == Some(("Array<"@ + t + ">"@, !is_builtin_rust(t))),
        is_builtin_rust(t) ==> !expr_type(c).unwrap().1,
        !is_builtin_rust(t) ==> expr_type(c).unwrap().1,
{
}

/// The view of an optional found type.
pub open spec fn found_view(o: Option<(String, bool)>) -> Option<Found> {
    match o {
        Some((t, imp)) => Some((t@, imp)),
        None => None,
    }
}

proof fn lemma_search_twice(st: ReturnTypeView, a: Option<Found>, b: Option<Found>)
    ensures
        after_search(after_search(st, a), b) == after_search(st, first_found(a, b)),
{
}

/// Copies a sequence of strings.
pub fn copy_strings(v: &Vec<String>) -> (r: Vec<String>)
    ensures
        r@.map_values(|s: String| s@) == v@.map_values(|s: String| s@),
{
    let mut out: Vec<String> = Vec::new();
    let mut i: usize = 0;
    while i < v.len()
        invariant
            i <= v@.len(),
            out@.len() == i,
            forall|j: int| 0 <= j < i ==> out@[j]@ == v@[j]@,
        decreases v@.len() - i,
    {
        let c = v[i].clone();
        out.push(c);
        i += 1;
    }
    assert(out@.map_values(|s: String| s@) =~= v@.map_values(|s: String| s@));
    out
}

impl ReturnTypeVisitor {
    /// A state in which nothing is found yet.
    pub fn new() -> (r: Self)
        ensures
            r@.found_type is None,
            !r@.is_importable,
            r@.error_types == Seq::<Seq<char>>::empty(),
    {
        let r = ReturnTypeVisitor { found_type: None, is_importable: false, error_types: Vec::new() };
        assert(r@.error_types =~= Seq::<Seq<char>>::empty());
        r
    }

    /// An equal copy.
    pub fn duplicate(&self) -> (r: Self)
        ensures
            r@ == self@,
    {
        ReturnTypeVisitor {
            found_type: self.found_type.clone(),
            is_importable: self.is_importable,
            error_types: copy_strings(&self.error_types),
        }
    }

    /// Whether `name` is one of Rust's primitive or string types.
    pub fn is_builtin_type_rust(name: &str) -> (r: bool)
        ensures
            r == is_builtin_rust(name@),
    {
        str_eq(name, "i8") || str_eq(name, "i16") || str_eq(name, "i32")
            || str_eq(name, "i64") || str_eq(name, "i128") || str_eq(name, "isize")
            || str_eq(name, "u8") || str_eq(name, "u16") || str_eq(name, "u32")
            || str_eq(name, "u64") || str_eq(name, "u128") || str_eq(name, "usize")
            || str_eq(name, "f32") || str_eq(name, "f64") || str_eq(name, "bool")
            || str_eq(name, "char") || str_eq(name, "str") || str_eq(name, "String")
    }

    /// The element type `T` of a `Vec::<T>::..` path.
    fn extract_vec_type(path: &Vec<PathSegment>) -> (r: Option<String>)
        ensures
            opt_seq(r) == vec_element(path@),
    {
        if path.len() >= 2 && str_eq(path[0].ident.as_str(), "Vec") && path[0].args.len() > 0 {
            match &path[0].args[0] {
                TypeRef::Path(inner) => last_segment_ident(inner),
                _ => None,
            }
        } else {
            None
        }
    }

    /// The response type revealed by a value handed to the JSON responder
    /// (see `conversion_type`).
    fn conversion_found(expr: &Expr) -> (r: Option<(String, bool)>)
        ensures
            found_view(r) == conversion_type(*expr),
    {
        match expr {
            Expr::Call { func, args: _ } => match &**func {
                Expr::Path(segs) => match Self::extract_vec_type(segs) {
                    Some(t) => {
                        let imp = !Self::is_builtin_type_rust(t.as_str());
                        let mut name = String::from_str("Array<");
                        name.append(t.as_str());
                        name.append(">");
                        Some((name, imp))
                    },
                    None => {
                        let n = segs.len();
                        if n >= 2 {
                            Some((segs[n - 2].ident.clone(), true))
                        } else if n == 1 {
                            Some((segs[0].ident.clone(), true))
                        } else {
                            None
                        }
                    },
                },
                _ => None,
            },
            _ => None,
        }
    }

    /// Records the response type revealed by a value handed to the JSON responder.
    fn visit_conversion_expr(&mut self, expr: &Expr)
        ensures
            final(self)@ == after_search(old(self)@, conversion_type(*expr)),
    {
        if self.found_type.is_some() {
            return;
        }
        if let Some((t, imp)) = Self::conversion_found(expr) {
            self.found_type = Some(t);
            self.is_importable = imp;
        }
    }

    fn is_json_call(func: &Expr) -> (r: bool)
        ensures
            r == is_json_responder(*func),
    {
        match func {
            Expr::Path(segs) => match last_segment_ident(segs) {
                Some(id) => str_eq(id.as_str(), "json"),
                None => false,
            },
            _ => false,
        }
    }

    fn visit_exprs(&mut self, es: &Vec<Expr>)
        ensures
            final(self)@ == after_search(old(self)@, exprs_type(es@, es@.len() as int)),
        decreases es, 1int,
    {
        let mut i: usize = 0;
        while i < es.len()
            invariant
                i <= es@.len(),
                self@ == after_search(old(self)@, exprs_type(es@, i as int)),
            decreases es@.len() - i,
        {
            proof {
                lemma_search_twice(old(self)@, exprs_type(es@, i as int), expr_type(es@[i as int]));
            }
            self.visit_expr(&es[i]);
            i += 1;
        }
    }

    fn visit_stmts(&mut self, ss: &Vec<Stmt>)
        ensures
            final(self)@ == after_search(old(self)@, stmts_type(ss@, ss@.len() as int)),
        decreases ss, 1int,
    {
        let mut i: usize = 0;
        while i < ss.len()
            invariant
                i <= ss@.len(),
                self@ == after_search(old(self)@, stmts_type(ss@, i as int)),
            decreases ss@.len() - i,
        {
            proof {
                lemma_search_twice(old(self)@, stmts_type(ss@, i as int), stmt_type(ss@[i as int]));
            }
            self.visit_stmt(&ss[i]);
            i += 1;
        }
    }

    /// Searches `expr` for the first response construction, in textual order.
    pub fn visit_expr(&mut self, expr: &Expr)
        ensures
            final(self)@ == after_search(old(self)@, expr_type(*expr)),
        decreases expr, 0int,
    {
        if self.found_type.is_some() {
            return;
        }
        match expr {
            Expr::Call { func, args } => {
                if Self::is_json_call(func) && args.len() > 0 {
                    self.visit_conversion_expr(&args[0]);
                } else {
                    self.visit_exprs(args);
                }
            },
            Expr::Return(v) => {
                if let Some(x) = v {
                    self.visit_expr(x);
                }
            },
            Expr::MethodCall { receiver, method: _, args } => {
                proof {
                    lemma_search_twice(old(self)@, expr_type(**receiver), exprs_type(args@, args@.len() as int));
                }
                self.visit_expr(receiver);
                self.visit_exprs(args);
            },
            Expr::Block(stmts) => {
                self.visit_stmts(stmts);
            },
            Expr::If { cond, then_branch, else_branch } => {
                let ghost e = match else_branch {
                    Some(x) => expr_type(**x),
                    None => None,
                };
                let ghost t = stmts_type(then_branch@, then_branch@.len() as int);
                proof {
                    lemma_search_twice(old(self)@, expr_type(**cond), first_found(t, e));
                    lemma_search_twice(after_search(old(self)@, expr_type(**cond)), t, e);
                    lemma_search_twice(old(self)@, expr_type(**cond), t);
                }
                self.visit_expr(cond);
                self.visit_stmts(then_branch);
                if let Some(x) = else_branch {
                    self.visit_expr(x);
                }
            },
            Expr::Match { scrutinee, arms } => {
                proof {
                    lemma_search_twice(old(self)@, expr_type(**scrutinee), exprs_type(arms@, arms@.len() as int));
                }
                self.visit_expr(scrutinee);
                self.visit_exprs(arms);
            },
            _ => {},
        }
    }

    /// Searches a statement for the first response construction.
    pub fn visit_stmt(&mut self, stmt: &Stmt)
        ensures
            final(self)@ == after_search(old(self)@, stmt_type(*stmt)),
        decreases stmt, 0int,
    {
        if self.found_type.is_some() {
            return;
        }
        match stmt {
            Stmt::Local(init) => {
                if let Some(e) = init {
                    self.visit_expr(e);
                }
            },
            Stmt::Expr(e) => {
                self.visit_expr(e);
            },
            Stmt::Other => {},
        }
    }
}


/// Metadata of one handler function.
#[derive(Debug, Clone, PartialEq, Eq, Hash)]
pub struct HandlerInfo {
    /// The request-body payload type, if the handler takes one.
    pub body_param: Option<String>,
    /// The query-parameter type, if the handler takes one.
    pub query_params: Option<String>,
    /// Whether the handler takes an authentication token.
    pub requires_auth: bool,
    pub return_type: ReturnTypeVisitor,
}

/// The model of a `HandlerInfo`.
pub struct HandlerView {
    pub body_param: Option<Seq<char>>,
    pub query_params: Option<Seq<char>>,
    pub requires_auth: bool,
    pub return_type: ReturnTypeView,
}

impl View for HandlerInfo {
    type V = HandlerView;

    open spec fn view(&self) -> HandlerView {
        HandlerView {
            body_param: opt_seq(self.body_param),
            query_params: opt_seq(self.query_params),
            requires_auth: self.requires_auth,
            return_type: self.return_type@,
        }
    }
}

/// The metadata of a handler that could not be matched: no body, no
/// authentication, no query type, response type unknown.
pub open spec fn unresolved_handler() -> HandlerView {
    HandlerView {
        body_param: None,
        query_params: None,
        requires_auth: false,
        return_type: ReturnTypeView {
            found_type: None,
            is_importable: false,
            error_types: Seq::empty(),
        },
    }
}

impl HandlerInfo {
    /// The metadata of a handler that could not be matched.
    pub fn unresolved() -> (r: Self)
        ensures
            r@ == unresolved_handler(),
    {
        HandlerInfo {
            body_param: None,
            query_params: None,
            requires_auth: false,
            return_type: ReturnTypeVisitor::new(),
        }
    }

    /// An equal copy.
    pub fn duplicate(&self) -> (r: Self)
        ensures
            r@ == self@,
    {
        HandlerInfo {
            body_param: self.body_param.clone(),
            query_params: self.query_params.clone(),
            requires_auth: self.requires_auth,
            return_type: self.return_type.duplicate(),
        }
    }
}

/// Parameter types that carry the request body.
pub open spec fn is_body_wrapper(n: Seq<char>) -> bool {
    n == "Json"@ || n == "JsonValidate"@ || n == "JsonValidateWithMessage"@
}

/// Declared return types whose first argument is the response payload.
pub open spec fn is_payload_wrapper(n: Seq<char>) -> bool {
    n == "Result"@ || n == "Json"@
}

/// The last identifier of a segment's first generic argument, where that
/// argument is a path type.
pub open spec fn first_arg_ident(seg: PathSegment) -> Option<Seq<char>> {
    if seg.args@.len() > 0 {
        match seg.args@[0] {
            TypeRef::Path(inner) => last_ident(inner@),
            _ => None,
        }
    } else {
        None
    }
}

/// The body type that a parameter declares, as `Json<T>` and its kin do.
pub open spec fn param_body_type(p: FnParam) -> Option<Seq<char>> {
    match p.ty {
        TypeRef::Path(segs) => if segs@.len() > 0 && is_body_wrapper(segs@.last().ident@) {
            first_arg_ident(segs@.last())
        } else {
            None
        },
        _ => None,
    }
}

/// The body type of a parameter list: that of the last parameter declaring one.
pub open spec fn body_param_of(ps: Seq<FnParam>) -> Option<Seq<char>>
    decreases ps.len(),
{
    if ps.len() == 0 {
        None
    } else {
        match param_body_type(ps.last()) {
            Some(t) => Some(t),
            None => body_param_of(ps.drop_last()),
        }
    }
}

/// Whether a parameter is `auth` of the token type `JWT`.
pub open spec fn is_auth_param(p: FnParam) -> bool {
    opt_seq(p.name) == Some("auth"@) && match p.ty {
        TypeRef::Path(segs) => last_ident(segs@) == Some("JWT"@),
        _ => false,
    }
}

/// Whether a parameter list takes an authentication token.
pub open spec fn requires_auth_of(ps: Seq<FnParam>) -> bool {
    exists|i: int| 0 <= i < ps.len() && is_auth_param(#[trigger] ps[i])
}

/// Rust's container type names: a payload of one of these is no type of
/// the application's own.
pub open spec fn is_container_rust(n: Seq<char>) -> bool {
    n == "Vec"@ || n == "Option"@ || n == "Box"@ || n == "HashMap"@ || n == "BTreeMap"@
        || n == "HashSet"@ || n == "BTreeSet"@
}

/// The response type that a declared payload type gives: `Vec<T>` gives
/// `Array<T>`, importable unless `T` is a builtin; any other name is itself
/// the type, importable unless it is a builtin or a container.
pub open spec fn payload_type(seg: PathSegment) -> Found {
    match first_arg_ident(seg) {
        Some(t) => if seg.ident@ == "Vec"@ {
            ("Array<"@ + t + ">"@, !is_builtin_rust(t))
        } else {
            (seg.ident@, !is_builtin_rust(seg.ident@) && !is_container_rust(seg.ident@))
        },
        None => (seg.ident@, !is_builtin_rust(seg.ident@) && !is_container_rust(seg.ident@)),
    }
}

/// The response type that a declared return type gives: one level of
/// `Result<..>` or `Json<..>` unwrapped, else the declared type itself (see
/// `payload_type`); an `impl Trait` or other opaque type gives nothing.
pub open spec fn signature_type(output: Option<TypeRef>) -> Option<Found> {
    match output {
        Some(TypeRef::Path(segs)) => if segs@.len() > 0 {
            let last = segs@.last();
            if is_payload_wrapper(last.ident@) && last.args@.len() > 0 {
                match last.args@[0] {
                    TypeRef::Path(inner) => if inner@.len() > 0 {
                        Some(payload_type(inner@.last()))
                    } else {
                        None
                    },
                    _ => None,
                }
            } else {
                Some(payload_type(last))
            }
        } else {
            None
        },
        _ => None,
    }
}

/// The response type of a handler: the first one its body constructs, else
/// the one its signature declares.
pub open spec fn fn_return_type(f: ItemFn) -> Option<Found> {
    first_found(stmts_type(f.body@, f.body@.len() as int), signature_type(f.output))
}

/// The state of a search that has found nothing yet.
pub open spec fn empty_search() -> ReturnTypeView {
    ReturnTypeView { found_type: None, is_importable: false, error_types: Seq::empty() }
}

/// The metadata of handler `f`.
pub open spec fn handler_of(f: ItemFn) -> HandlerView {
    HandlerView {
        body_param: body_param_of(f.params@),
        query_params: None,
        requires_auth: requires_auth_of(f.params@),
        return_type: after_search(empty_search(), fn_return_type(f)),
    }
}

/// A handler whose body builds no recognized response and whose declared
/// return type is opaque has no known response type.
pub proof fn lemma_opaque_return_unknown(f: ItemFn)
    requires
        stmts_type(f.body@, f.body@.len() as int) is None,
        f.output matches Some(TypeRef::ImplTrait),
    ensures
        handler_of(f).return_type.found_type is None,
{
}

/// The metadata of every function among `items`, in order, under its name.
pub open spec fn handler_entries(items: Seq<Item>) -> Seq<(Seq<char>, HandlerView)>
    decreases items.len(),
{
    if items.len() == 0 {
        Seq::empty()
    } else {
        let p = handler_entries(items.drop_last());
        match items.last() {
            Item::Fn(f) => p.push((f.name@, handler_of(f))),
            Item::Other => p,
        }
    }
}

/// The view of handler entries.
pub open spec fn entries_view(v: Seq<(String, HandlerInfo)>) -> Seq<(Seq<char>, HandlerView)> {
    v.map_values(|e: (String, HandlerInfo)| (e.0@, e.1@))
}

impl ReturnTypeVisitor {
    /// Searches a function body for the first response construction.
    pub fn visit_item_fn(&mut self, func: &ItemFn)
        ensures
            final(self)@ == after_search(old(self)@, stmts_type(func.body@, func.body@.len() as int)),
    {
        self.visit_stmts(&func.body);
    }
}

/// The last identifier of a segment's first generic argument (see `first_arg_ident`).
fn first_arg_of(seg: &PathSegment) -> (r: Option<String>)
    ensures
        opt_seq(r) == first_arg_ident(*seg),
{
    if seg.args.len() > 0 {
        match &seg.args[0] {
            TypeRef::Path(inner) => last_segment_ident(inner),
            _ => None,
        }
    } else {
        None
    }
}

/// The response type that a declared payload type gives (see `payload_type`).
fn payload_found(seg: &PathSegment) -> (r: (String, bool))
    ensures
        (r.0@, r.1) == payload_type(*seg),
{
    let id = seg.ident.as_str();
    let plain = !ReturnTypeVisitor::is_builtin_type_rust(id) && !(str_eq(id, "Vec") || str_eq(id, "Option")
        || str_eq(id, "Box") || str_eq(id, "HashMap") || str_eq(id, "BTreeMap") || str_eq(id, "HashSet")
        || str_eq(id, "BTreeSet"));
    match first_arg_of(seg) {
        Some(t) => {
            if str_eq(id, "Vec") {
                let imp = !ReturnTypeVisitor::is_builtin_type_rust(t.as_str());
                let mut name = String::from_str("Array<");
                name.append(t.as_str());
                name.append(">");
                (name, imp)
            } else {
                (seg.ident.clone(), plain)
            }
        },
        None => (seg.ident.clone(), plain),
    }
}

/// The response type that a declared return type gives (see `signature_type`).
fn signature_found(output: &Option<TypeRef>) -> (r: Option<(String, bool)>)
    ensures
        found_view(r) == signature_type(*output),
{
    match output {
        Some(TypeRef::Path(segs)) => {
            if segs.len() > 0 {
                let last = &segs[segs.len() - 1];
                let id = last.ident.as_str();
                if (str_eq(id, "Result") || str_eq(id, "Json")) && last.args.len() > 0 {
                    match &last.args[0] {
                        TypeRef::Path(inner) => {
                            if inner.len() > 0 {
                                Some(payload_found(&inner[inner.len() - 1]))
                            } else {
                                None
                            }
                        },
                        _ => None,
                    }
                } else {
                    Some(payload_found(last))
                }
            } else {
                None
            }
        },
        _ => None,
    }
}

/// The response type of `func`: its body is searched first, and only where
/// that finds nothing does its declared return type decide.
pub fn extract_return_type_from_body(func: &ItemFn) -> (r: ReturnTypeVisitor)
    ensures
        r@ == after_search(empty_search(), fn_return_type(*func)),
{
    let mut visitor = ReturnTypeVisitor::new();
    visitor.visit_item_fn(func);
    if visitor.found_type.is_none() {
        if let Some((t, imp)) = signature_found(&func.output) {
            visitor.found_type = Some(t);
            visitor.is_importable = imp;
        }
    }
    visitor
}

/// The body type that parameter `p` declares (see `param_body_type`).
fn param_body_of(p: &FnParam) -> (r: Option<String>)
    ensures
        opt_seq(r) == param_body_type(*p),
{
    match &p.ty {
        TypeRef::Path(segs) => {
            if segs.len() > 0 {
                let last = &segs[segs.len() - 1];
                let id = last.ident.as_str();
                if str_eq(id, "Json") || str_eq(id, "JsonValidate") || str_eq(id, "JsonValidateWithMessage") {
                    first_arg_of(last)
                } else {
                    None
                }
            } else {
                None
            }
        },
        _ => None,
    }
}

/// Whether `p` is `auth` of the token type `JWT`.
fn is_auth(p: &FnParam) -> (r: bool)
    ensures
        r == is_auth_param(*p),
{
    let named = match &p.name {
        Some(n) => str_eq(n.as_str(), "auth"),
        None => false,
    };
    named && match &p.ty {
        TypeRef::Path(segs) => match last_segment_ident(segs) {
            Some(id) => str_eq(id.as_str(), "JWT"),
            None => false,
        },
        _ => false,
    }
}

/// The metadata of handler `func` (see `handler_of`).
pub fn handler_info_of(func: &ItemFn) -> (r: HandlerInfo)
    ensures
        r@ == handler_of(*func),
{
    let mut body_param: Option<String> = None;
    let mut requires_auth = false;
    let mut i: usize = 0;
    while i < func.params.len()
        invariant
            i <= func.params@.len(),
            opt_seq(body_param) == body_param_of(func.params@.subrange(0, i as int)),
            requires_auth == requires_auth_of(func.params@.subrange(0, i as int)),
        decreases func.params@.len() - i,
    {
        let p = &func.params[i];
        let ghost pre = func.params@.subrange(0, i as int);
        let ghost cur = func.params@.subrange(0, i + 1);
        assert(cur.drop_last() =~= pre);
        assert(cur.last() == func.params@[i as int]);
        if let Some(t) = param_body_of(p) {
            body_param = Some(t);
        }
        if is_auth(p) {
            assert(is_auth_param(cur[i as int]));
            requires_auth = true;
        } else {
            assert forall|j: int| 0 <= j < cur.len() && is_auth_param(#[trigger] cur[j]) implies 0 <= j
                < pre.len() && is_auth_param(pre[j]) by {
                if j == i {
                    assert(cur[j] == func.params@[i as int]);
                }
            }
        }
        proof {
            if requires_auth_of(pre) {
                let j = choose|j: int| 0 <= j < pre.len() && is_auth_param(#[trigger] pre[j]);
                assert(cur[j] == pre[j]);
            }
        }
        i += 1;
    }
    assert(func.params@.subrange(0, i as int) =~= func.params@);
    HandlerInfo {
        body_param,
        query_params: None,
        requires_auth,
        return_type: extract_return_type_from_body(func),
    }
}

/// The metadata of every function among `items`, in order, each under its
/// name; where two share a name the later one counts (see `find_handler`).
/// A list keyed by name stands for the map, so that the lookup's contract
/// can state which of two same-named functions counts.
pub fn extract_handler_info(items: &Vec<Item>) -> (r: Vec<(String, HandlerInfo)>)
    ensures
        entries_view(r@) == handler_entries(items@),
{
    let mut out: Vec<(String, HandlerInfo)> = Vec::new();
    let mut i: usize = 0;
    while i < items.len()
        invariant
            i <= items@.len(),
            entries_view(out@) == handler_entries(items@.subrange(0, i as int)),
        decreases items@.len() - i,
    {
        assert(items@.subrange(0, i + 1).drop_last() =~= items@.subrange(0, i as int));
        if let Item::Fn(f) = &items[i] {
            let ghost before = out@;
            out.push((f.name.clone(), handler_info_of(f)));
            assert(entries_view(out@) =~= entries_view(before).push((f.name@, handler_of(*f))));
        }
        i += 1;
    }
    assert(items@.subrange(0, i as int) =~= items@);
    out
}

/// The metadata recorded under `name`: the last entry with that name.
pub open spec fn lookup_handler(es: Seq<(Seq<char>, HandlerView)>, name: Seq<char>) -> Option<HandlerView>
    decreases es.len(),
{
    if es.len() == 0 {
        None
    } else if es.last().0 == name {
        Some(es.last().1)
    } else {
        lookup_handler(es.drop_last(), name)
    }
}

/// Finds the metadata recorded under `name` (the last entry with that name).
pub fn find_handler<'a>(es: &'a Vec<(String, HandlerInfo)>, name: &str) -> (r: Option<&'a HandlerInfo>)
    ensures
        match r {
            Some(h) => lookup_handler(entries_view(es@), name@) == Some(h@),
            None => lookup_handler(entries_view(es@), name@) is None,
        },
{
    let mut j: usize = es.len();
    assert(es@.subrange(0, j as int) =~= es@);
    while j > 0
        invariant
            j <= es@.len(),
            lookup_handler(entries_view(es@), name@) == lookup_handler(
                entries_view(es@.subrange(0, j as int)),
                name@,
            ),
        decreases j,
    {
        let ghost cur = es@.subrange(0, j as int);
        assert(entries_view(cur).drop_last() =~= entries_view(es@.subrange(0, j - 1)));
        if str_eq(es[j - 1].0.as_str(), name) {
            return Some(&es[j - 1].1);
        }
        j -= 1;
    }
    None
}

} // verus!
