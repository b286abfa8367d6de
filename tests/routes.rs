use route_links::case::{convert_to_case, sanitize_identifier};
use route_links::path::{build_full_path, extract_parameters_from_path};
use route_links::routes::deduplicate_routes;
use route_links::syntax::{Expr, FnParam, Item, ItemFn, Lit, PathSegment, SourceModule, Stmt, TypeRef};
use route_links::{
    collect_routes, extract_handler_info, generate_route_name, is_controller_file, Config,
    Diagnostic, HandlerInfo, NamingConfig, RouteInfo,
};

fn seg(s: &str) -> PathSegment {
    PathSegment { ident: s.to_string(), args: vec![] }
}

fn path_expr(parts: &[&str]) -> Expr {
    Expr::Path(parts.iter().map(|p| seg(p)).collect())
}

fn lit(s: &str) -> Expr {
    Expr::Lit(Lit::Str(s.to_string()))
}

fn call(func: Expr, args: Vec<Expr>) -> Expr {
    Expr::Call { func: Box::new(func), args }
}

fn mcall(receiver: Expr, method: &str, args: Vec<Expr>) -> Expr {
    Expr::MethodCall { receiver: Box::new(receiver), method: method.to_string(), args }
}

fn add(receiver: Expr, path: &str, verb: &str, handler: &str) -> Expr {
    mcall(receiver, "add", vec![lit(path), call(path_expr(&[verb]), vec![path_expr(&[handler])])])
}

fn routes_fn(body: Vec<Stmt>) -> Item {
    Item::Fn(ItemFn { name: "routes".to_string(), params: vec![], output: None, body })
}

fn plain_fn(name: &str) -> Item {
    Item::Fn(ItemFn { name: name.to_string(), params: vec![], output: None, body: vec![] })
}

fn module(items: Vec<Item>) -> SourceModule {
    SourceModule { file_name: "widgets.rs".to_string(), items }
}

fn new_chain() -> Expr {
    call(path_expr(&["Routes", "new"]), vec![])
}

fn route(method: &str, path: &str, handler: &str) -> RouteInfo {
    RouteInfo {
        name: "n".to_string(),
        path: path.to_string(),
        method: method.to_string(),
        handler: handler.to_string(),
        handler_info: HandlerInfo::unresolved(),
    }
}

#[test]
fn duplicate_widget_route_is_dropped_end_to_end() {
    let chain = add(
        add(mcall(new_chain(), "prefix", vec![lit("/v1")]), "/widgets/{id}", "get", "get_widget"),
        "/widgets/{id}",
        "get",
        "get_widget_dup",
    );
    let m = module(vec![routes_fn(vec![Stmt::Expr(chain)]), plain_fn("get_widget"), plain_fn("get_widget_dup")]);
    let result = collect_routes(&vec![m], &Config::default());
    assert_eq!(result.routes.len(), 1);
    let r = &result.routes[0];
    assert_eq!(r.name, "get_v1_widgets_id");
    assert_eq!(r.path, "/v1/widgets/{id}");
    assert_eq!(r.method, "GET");
    assert_eq!(r.handler, "get_widget");
    assert_eq!(extract_parameters_from_path(&r.path), vec!["id".to_string()]);
    assert_eq!(result.diagnostics.len(), 1);
    let msg = result.diagnostics[0].message();
    assert!(msg.contains("get_widget_dup"));
    assert!(msg.contains("get_widget "));
    assert!(msg.contains("GET /v1/widgets/{id}"));
}

#[test]
fn route_name_twice_is_identical() {
    let config = NamingConfig::default();
    let a = generate_route_name("/api/users/{id}", "GET", &config);
    let b = generate_route_name("/api/users/{id}", "GET", &config);
    assert_eq!(a, b);
    assert_eq!(a, "get_api_users_id");
}

#[test]
fn prefix_applies_to_path_but_not_to_name() {
    let chain = add(mcall(new_chain(), "prefix", vec![lit("/api")]), "/users", "get", "list_users");
    let m = module(vec![routes_fn(vec![Stmt::Expr(chain)])]);
    let mut config = Config::default();
    config.naming.path_prefix_to_remove = Some("/api".to_string());
    let result = collect_routes(&vec![m], &config);
    assert_eq!(result.routes.len(), 1);
    assert_eq!(result.routes[0].path, "/api/users");
    assert_eq!(result.routes[0].name, "get_users");
}

#[test]
fn two_adds_with_same_method_and_path_keep_one() {
    let routes = vec![route("POST", "/a", "first"), route("POST", "/a", "second"), route("GET", "/a", "third")];
    let r = deduplicate_routes(&routes);
    assert_eq!(r.routes.len(), 2);
    assert_eq!(r.routes[0].handler, "first");
    assert_eq!(r.routes[1].handler, "third");
    assert_eq!(r.diagnostics.len(), 1);
    match &r.diagnostics[0] {
        Diagnostic::DuplicateRoute { method, path, kept_handler, dropped_handler } => {
            assert_eq!(method, "POST");
            assert_eq!(path, "/a");
            assert_eq!(kept_handler, "first");
            assert_eq!(dropped_handler, "second");
        }
        _ => panic!("expected a duplicate route"),
    }
}

#[test]
fn prefix_without_slash_gets_one() {
    let chain = add(mcall(new_chain(), "prefix", vec![lit("v2/")]), "/items/", "post", "create");
    let m = module(vec![routes_fn(vec![Stmt::Expr(chain)])]);
    let result = collect_routes(&vec![m], &Config::default());
    assert_eq!(result.routes[0].path, "/v2/items/");
    assert_eq!(result.routes[0].method, "POST");
    assert_eq!(result.routes[0].name, "post_v2_items");
}

#[test]
fn new_chain_resets_prefix() {
    let first = add(mcall(new_chain(), "prefix", vec![lit("/a")]), "/x", "get", "x");
    let second = add(new_chain(), "/y", "get", "y");
    let m = module(vec![routes_fn(vec![Stmt::Expr(first), Stmt::Expr(second)])]);
    let result = collect_routes(&vec![m], &Config::default());
    assert_eq!(result.routes.len(), 2);
    assert_eq!(result.routes[0].path, "/a/x");
    assert_eq!(result.routes[1].path, "/y");
}

#[test]
fn unreadable_add_stops_only_its_statement() {
    let bad = mcall(new_chain(), "add", vec![path_expr(&["PATH"]), call(path_expr(&["get"]), vec![path_expr(&["h"])])]);
    let bad = add(bad, "/after", "get", "after");
    let good = add(new_chain(), "/ok", "get", "ok");
    let m = module(vec![routes_fn(vec![Stmt::Expr(bad), Stmt::Expr(good)])]);
    let result = collect_routes(&vec![m], &Config::default());
    assert_eq!(result.routes.len(), 1);
    assert_eq!(result.routes[0].path, "/ok");
}

#[test]
fn unknown_combinators_are_passed_through() {
    let chain = add(mcall(mcall(new_chain(), "layer", vec![lit("x")]), "prefix", vec![lit("/p")]), "/q", "delete", "remove");
    let m = module(vec![routes_fn(vec![Stmt::Expr(chain)])]);
    let result = collect_routes(&vec![m], &Config::default());
    assert_eq!(result.routes[0].path, "/p/q");
    assert_eq!(result.routes[0].method, "DELETE");
}

#[test]
fn handler_metadata_is_joined() {
    let chain = add(new_chain(), "/users", "post", "create_user");
    let handler = ItemFn {
        name: "create_user".to_string(),
        params: vec![
            FnParam {
                name: Some("auth".to_string()),
                ty: TypeRef::Path(vec![seg("auth"), seg("JWT")]),
            },
            FnParam {
                name: Some("params".to_string()),
                ty: TypeRef::Path(vec![PathSegment {
                    ident: "JsonValidate".to_string(),
                    args: vec![TypeRef::Path(vec![seg("CreateUser")])],
                }]),
            },
        ],
        output: None,
        body: vec![],
    };
    let m = module(vec![routes_fn(vec![Stmt::Expr(chain)]), Item::Fn(handler)]);
    let result = collect_routes(&vec![m], &Config::default());
    let info = &result.routes[0].handler_info;
    assert_eq!(info.body_param, Some("CreateUser".to_string()));
    assert!(info.requires_auth);
    assert_eq!(info.return_type.found_type, None);
}

#[test]
fn unmatched_handler_stays_unresolved() {
    let chain = add(new_chain(), "/x", "get", "missing");
    let m = module(vec![routes_fn(vec![Stmt::Expr(chain)])]);
    let result = collect_routes(&vec![m], &Config::default());
    let info = &result.routes[0].handler_info;
    assert_eq!(info.body_param, None);
    assert!(!info.requires_auth);
    assert_eq!(info.return_type.found_type, None);
}

#[test]
fn module_without_routes_gives_none() {
    let m = module(vec![plain_fn("routes"), plain_fn("other")]);
    let result = collect_routes(&vec![m], &Config::default());
    assert!(result.routes.is_empty());
    assert!(result.diagnostics.is_empty());
}

#[test]
fn later_handler_with_same_name_wins() {
    let mut first = ItemFn { name: "h".to_string(), params: vec![], output: None, body: vec![] };
    first.output = Some(TypeRef::Path(vec![seg("First")]));
    let mut second = ItemFn { name: "h".to_string(), params: vec![], output: None, body: vec![] };
    second.output = Some(TypeRef::Path(vec![seg("Second")]));
    let entries = extract_handler_info(&vec![Item::Fn(first), Item::Other, Item::Fn(second)]);
    assert_eq!(entries.len(), 2);
    let found = route_links::handlers::find_handler(&entries, "h").unwrap();
    assert_eq!(found.return_type.found_type, Some("Second".to_string()));
}

#[test]
fn full_path_joins_with_one_slash() {
    assert_eq!(build_full_path("", "/users"), "/users");
    assert_eq!(build_full_path("/api/", "/users"), "/api/users");
    assert_eq!(build_full_path("/api", "users"), "/api/users");
    assert_eq!(build_full_path("/api//", "//users"), "/api/users");
    assert_eq!(build_full_path("/api", ""), "/api/");
}

#[test]
fn parameters_are_unique_and_ordered() {
    assert_eq!(
        extract_parameters_from_path("/users/{id}/posts/{name}"),
        vec!["id".to_string(), "name".to_string()]
    );
    assert_eq!(
        extract_parameters_from_path("/a/{id}/b/{id}/{x}"),
        vec!["id".to_string(), "x".to_string()]
    );
    assert!(extract_parameters_from_path("/a/b{c}/").is_empty());
    assert!(extract_parameters_from_path("").is_empty());
}

#[test]
fn identifiers_are_sanitized() {
    assert_eq!(sanitize_identifier("1abc-d"), "_1abc_d");
    assert_eq!(sanitize_identifier("_ok"), "_ok");
    assert_eq!(sanitize_identifier("a.b c"), "a_b_c");
    assert_eq!(sanitize_identifier(""), "");
    assert_eq!(sanitize_identifier("été"), "été");
}

#[test]
fn cases_are_converted() {
    assert_eq!(convert_to_case("user_id", "camel"), "userId");
    assert_eq!(convert_to_case("user_id", "PascalCase"), "UserId");
    assert_eq!(convert_to_case("UserId", "snake"), "user_id");
    assert_eq!(convert_to_case("user_id", "kebab"), "user-id");
    assert_eq!(convert_to_case("user_id", "title"), "User Id");
    assert_eq!(convert_to_case("User", "upper"), "USER");
    assert_eq!(convert_to_case("User", "lower"), "user");
    assert_eq!(convert_to_case("User_x", "unknown"), "User_x");
}

#[test]
fn names_follow_the_naming_rules() {
    let mut config = NamingConfig::default();
    assert_eq!(generate_route_name("/", "GET", &config), "get_root");
    assert_eq!(generate_route_name("/a-b.c:d//e", "Put", &config), "put_a_b_c_d_e");
    config.include_method_in_names = Some(false);
    assert_eq!(generate_route_name("/users/{id}", "GET", &config), "users_id");
    config.path_prefix_to_remove = Some("/api/".to_string());
    assert_eq!(generate_route_name("/api", "GET", &config), "root");
    assert_eq!(generate_route_name("/other/x", "GET", &config), "other_x");
    config.word_separators = Some("-".to_string());
    assert_eq!(generate_route_name("/api/a-b/c", "GET", &config), "a_b_c");
}

#[test]
fn controller_files_are_recognized() {
    assert!(is_controller_file("users.rs"));
    assert!(!is_controller_file("mod.rs"));
    assert!(!is_controller_file("notes.txt"));
    assert!(!is_controller_file("rs"));
}

#[test]
fn duplicates_across_modules_keep_the_first_module() {
    let a = module(vec![routes_fn(vec![Stmt::Expr(add(new_chain(), "/shared", "get", "from_a"))])]);
    let b = module(vec![routes_fn(vec![Stmt::Expr(add(add(new_chain(), "/shared", "get", "from_b"), "/own", "get", "own"))])]);
    let result = collect_routes(&vec![a, b], &Config::default());
    assert_eq!(result.routes.len(), 2);
    assert_eq!(result.routes[0].handler, "from_a");
    assert_eq!(result.routes[1].handler, "own");
    assert_eq!(result.diagnostics.len(), 1);
}
