use route_links::client::{check_method_names, generate_client_method, generate_ts_interface, generate_ts_path_template};
use route_links::handlers::{extract_return_type_from_body, handler_info_of};
use route_links::hooks::generate_ts_hook;
use route_links::links::{create_field_name, create_variant_name, generate_path_build_code, rust_string_literal};
use route_links::path::extract_parameters_from_path;
use route_links::syntax::{Expr, FnParam, ItemFn, PathSegment, Stmt, TypeRef};
use route_links::{
    format_ts_code, generate_outputs, CodeGenerator, Config, Diagnostic, HandlerInfo, NamingConfig,
    ReturnTypeVisitor, RouteInfo, RustLinksGenerator, TypeImportManager, TypeScriptClientGenerator,
    TypeScriptConfig, TypeScriptHooksGenerator,
};

fn seg(s: &str) -> PathSegment {
    PathSegment { ident: s.to_string(), args: vec![] }
}

fn generic(s: &str, arg: &str) -> PathSegment {
    PathSegment { ident: s.to_string(), args: vec![TypeRef::Path(vec![seg(arg)])] }
}

fn json_of(arg: Expr) -> Expr {
    Expr::Call {
        func: Box::new(Expr::Path(vec![seg("format"), seg("json")])),
        args: vec![arg],
    }
}

fn empty_vec_of(t: &str) -> Expr {
    Expr::Call { func: Box::new(Expr::Path(vec![generic("Vec", t), seg("new")])), args: vec![] }
}

fn handler(body: Vec<Stmt>, output: Option<TypeRef>) -> ItemFn {
    ItemFn { name: "h".to_string(), params: vec![], output, body }
}

fn route(name: &str, method: &str, path: &str, info: HandlerInfo) -> RouteInfo {
    RouteInfo {
        name: name.to_string(),
        path: path.to_string(),
        method: method.to_string(),
        handler: "h".to_string(),
        handler_info: info,
    }
}

#[test]
fn two_parameters_agree_across_targets() {
    let r = route("get_users_id_name", "GET", "/users/{id}/{user_name}", HandlerInfo::unresolved());
    let params = extract_parameters_from_path(&r.path);
    assert_eq!(params, vec!["id".to_string(), "user_name".to_string()]);
    let mut config = Config::default();
    config.naming.field_case = None;
    let links = RustLinksGenerator::generate(&vec![r.duplicate()], &config);
    assert!(links.contains("GetUsersIdName { id: String, user_name: String }"));
    assert!(links.contains("Link::GetUsersIdName { id, user_name } =>"));
    let iface = generate_ts_interface("getUsersIdName", "Params", &params);
    assert_eq!(iface, "export interface GetUsersIdNameParams {\n  id: string;\n  userName: string;\n}");
    assert_eq!(generate_ts_path_template(&r.path, &params), "`/users/${params.id}/${params.userName}`");
}

#[test]
fn opaque_return_type_is_any_in_client() {
    let f = handler(vec![Stmt::Expr(Expr::Other)], Some(TypeRef::ImplTrait));
    let info = handler_info_of(&f);
    assert_eq!(info.return_type.found_type, None);
    let r = route("get_x", "GET", "/x", info);
    let text = generate_client_method(&r, "getX", &vec![]);
    assert!(text.contains("Promise<any>"));
    assert!(text.contains("apiClient.get<any, ApiError>"));
}

#[test]
fn empty_collection_of_custom_type_is_importable() {
    let f = handler(vec![Stmt::Expr(json_of(empty_vec_of("CustomType")))], None);
    let rt = extract_return_type_from_body(&f);
    assert_eq!(rt.found_type, Some("Array<CustomType>".to_string()));
    assert!(rt.is_importable);
    let g = handler(vec![Stmt::Expr(json_of(empty_vec_of("u32")))], None);
    let rt = extract_return_type_from_body(&g);
    assert_eq!(rt.found_type, Some("Array<u32>".to_string()));
    assert!(!rt.is_importable);
}

#[test]
fn conversion_patterns_give_their_type() {
    let from = Expr::Call { func: Box::new(Expr::Path(vec![seg("UserResponse"), seg("from")])), args: vec![Expr::Other] };
    let f = handler(vec![Stmt::Local(Some(Expr::Other)), Stmt::Expr(json_of(from))], None);
    assert_eq!(extract_return_type_from_body(&f).found_type, Some("UserResponse".to_string()));
    let ctor = Expr::Call { func: Box::new(Expr::Path(vec![seg("Wrapper")])), args: vec![Expr::Other] };
    let nested = Expr::If {
        cond: Box::new(Expr::Other),
        then_branch: vec![Stmt::Expr(Expr::Return(Some(Box::new(json_of(ctor)))))],
        else_branch: None,
    };
    let g = handler(vec![Stmt::Expr(nested)], Some(TypeRef::Path(vec![seg("Other")])));
    let rt = extract_return_type_from_body(&g);
    assert_eq!(rt.found_type, Some("Wrapper".to_string()));
    assert!(rt.is_importable);
}

#[test]
fn first_found_wins() {
    let a = json_of(Expr::Call { func: Box::new(Expr::Path(vec![seg("First")])), args: vec![] });
    let b = json_of(Expr::Call { func: Box::new(Expr::Path(vec![seg("Second")])), args: vec![] });
    let arms = Expr::Match { scrutinee: Box::new(Expr::Other), arms: vec![a, b] };
    let f = handler(vec![Stmt::Expr(arms)], None);
    assert_eq!(extract_return_type_from_body(&f).found_type, Some("First".to_string()));
}

#[test]
fn signature_decides_when_body_says_nothing() {
    let result_of = TypeRef::Path(vec![generic("Result", "Account")]);
    let f = handler(vec![], Some(result_of));
    let rt = extract_return_type_from_body(&f);
    assert_eq!(rt.found_type, Some("Account".to_string()));
    assert!(rt.is_importable);
    let g = handler(vec![], Some(TypeRef::Path(vec![seg("String")])));
    let rt = extract_return_type_from_body(&g);
    assert_eq!(rt.found_type, Some("String".to_string()));
    assert!(!rt.is_importable);
    let h = handler(vec![], None);
    assert_eq!(extract_return_type_from_body(&h).found_type, None);
}

#[test]
fn visitor_starts_empty() {
    let v = ReturnTypeVisitor::new();
    assert_eq!(v.found_type, None);
    assert!(!v.is_importable);
    assert!(ReturnTypeVisitor::is_builtin_type_rust("usize"));
    assert!(!ReturnTypeVisitor::is_builtin_type_rust("User"));
}

#[test]
fn body_and_auth_come_from_the_signature() {
    let f = ItemFn {
        name: "update".to_string(),
        params: vec![
            FnParam { name: Some("auth".to_string()), ty: TypeRef::Path(vec![seg("JWT")]) },
            FnParam { name: None, ty: TypeRef::Path(vec![seg("axum"), generic("Json", "UpdateUser")]) },
        ],
        output: None,
        body: vec![],
    };
    let info = handler_info_of(&f);
    assert_eq!(info.body_param, Some("UpdateUser".to_string()));
    assert!(info.requires_auth);
    let g = ItemFn {
        name: "g".to_string(),
        params: vec![FnParam { name: Some("token".to_string()), ty: TypeRef::Path(vec![seg("JWT")]) }],
        output: None,
        body: vec![],
    };
    assert!(!handler_info_of(&g).requires_auth);
}

#[test]
fn link_enum_has_variants_paths_and_methods() {
    let routes = vec![
        route("get_users", "GET", "/users", HandlerInfo::unresolved()),
        route("get_users_id", "GET", "/users/{id}", HandlerInfo::unresolved()),
    ];
    let (code, diags) = RustLinksGenerator::generate_with_diagnostics(&routes, &Config::default());
    assert!(diags.is_empty());
    assert!(code.contains("    GetUsers,\n    GetUsersId { id: String }"));
    assert!(code.contains("Link::GetUsers => \"/users\".to_string()"));
    assert!(code.contains("path.push('/'); path.push_str(\"users\"); path.push('/'); path.push_str(&id); "));
    assert!(code.contains("Link::GetUsersId { .. } => \"GET\""));
}

#[test]
fn duplicate_variant_names_are_reported() {
    let routes = vec![
        route("get_a", "GET", "/a", HandlerInfo::unresolved()),
        route("get-a", "POST", "/b", HandlerInfo::unresolved()),
    ];
    let (code, diags) = RustLinksGenerator::generate_with_diagnostics(&routes, &Config::default());
    assert_eq!(diags.len(), 1);
    match &diags[0] {
        Diagnostic::DuplicateIdentifier { identifier, method, existing_path, .. } => {
            assert_eq!(identifier, "GetA");
            assert_eq!(method, "POST");
            assert_eq!(existing_path, "/a");
        }
        _ => panic!("expected a duplicate identifier"),
    }
    assert!(!code.contains("\"/b\""));
}

#[test]
fn variant_and_field_names_follow_config() {
    let mut naming = NamingConfig::default();
    naming.variant_prefix = Some("R".to_string());
    naming.variant_suffix = Some("Link".to_string());
    assert_eq!(create_variant_name("get_users", &naming), "RGetUsersLink");
    naming.field_case = Some("camel".to_string());
    assert_eq!(create_field_name("user_id", &naming), "userId");
    assert_eq!(create_field_name("user_id", &NamingConfig::default()), "user_id");
}

#[test]
fn path_build_code_keeps_the_leading_slash_and_uses_fields() {
    let naming = NamingConfig::default();
    assert_eq!(generate_path_build_code("/", &naming), "\"/\".to_string()");
    let code = generate_path_build_code("/v1/widgets/{id}", &naming);
    assert!(code.contains("path.push('/'); path.push_str(\"v1\"); path.push('/'); path.push_str(\"widgets\"); path.push('/'); path.push_str(&id); "));
    let mut camel = NamingConfig::default();
    camel.field_case = Some("camel".to_string());
    let code = generate_path_build_code("/a/{user_id}", &camel);
    assert!(code.contains("path.push_str(&userId); "));
    assert!(!code.contains("{user_id}"));
    let mut config = Config::default();
    config.naming.field_case = Some("camel".to_string());
    let r = route("get_a_user_id", "GET", "/a/{user_id}", HandlerInfo::unresolved());
    let links = RustLinksGenerator::generate(&vec![r], &config);
    assert!(links.contains("GetAUserId { userId: String }"));
    assert!(links.contains("Link::GetAUserId { userId } =>"));
    assert_eq!(rust_string_literal("a\"b\\c"), "\"a\\\"b\\\\c\"");
}

#[test]
fn container_return_types_are_not_imported() {
    let vec_of_user = TypeRef::Path(vec![PathSegment {
        ident: "Result".to_string(),
        args: vec![TypeRef::Path(vec![generic("Vec", "User")])],
    }]);
    let rt = extract_return_type_from_body(&handler(vec![], Some(vec_of_user)));
    assert_eq!(rt.found_type, Some("Array<User>".to_string()));
    assert!(rt.is_importable);
    let opt = TypeRef::Path(vec![generic("Option", "User")]);
    let rt = extract_return_type_from_body(&handler(vec![], Some(opt)));
    assert_eq!(rt.found_type, Some("Option".to_string()));
    assert!(!rt.is_importable);
}

#[test]
fn client_methods_cover_the_parameter_matrix() {
    let mut info = HandlerInfo::unresolved();
    info.body_param = Some("NewItem".to_string());
    info.requires_auth = true;
    info.return_type.found_type = Some("Item".to_string());
    info.return_type.error_types = vec!["NotFound".to_string()];
    let r = route("post_items_id", "POST", "/items/{id}", info.duplicate());
    let params = extract_parameters_from_path(&r.path);
    let text = generate_client_method(&r, "postItemsId", &params);
    assert!(text.contains("postItemsId: async (params: PostItemsIdParams, body: NewItem, config?: { signal?: AbortSignal }): Promise<Item>"));
    assert!(text.contains("const url = `/items/${params.id}`;"));
    assert!(text.contains("apiClient.post<Item, ApiError | NotFound>(url, body, { requiresAuth: true"));
    info.query_params = Some("ItemQuery".to_string());
    info.body_param = None;
    let q = route("delete_items", "DELETE", "/items", info);
    let text = generate_client_method(&q, "deleteItems", &vec![]);
    assert!(text.contains("(query: ItemQuery, config?: { signal?: AbortSignal })"));
    assert!(text.contains("let url = `/items`;"));
    assert!(text.contains("url += \"?\" + queryStr;"));
    assert!(text.contains("apiClient.delete<Item, ApiError | NotFound>(url, undefined, "));
}

#[test]
fn hooks_cover_queries_and_mutations() {
    let get = route("get_items_id", "GET", "/items/{id}", HandlerInfo::unresolved());
    let params = extract_parameters_from_path(&get.path);
    let text = generate_ts_hook(&get, "getItemsId", "useGetItemsId", &params);
    assert!(text.contains("export function useGetItemsId(params: GetItemsIdParams, options?: Omit<UseQueryOptions<any, ApiError>, \"queryKey\">)"));
    assert!(text.contains("queryKey: [\"getItemsId\", params]"));
    assert!(text.contains("client.getItemsId(params, { signal })"));
    let mut info = HandlerInfo::unresolved();
    info.body_param = Some("Patch".to_string());
    let put = route("put_items_id", "PUT", "/items/{id}", info);
    let text = generate_ts_hook(&put, "putItemsId", "usePutItemsId", &params);
    assert!(text.contains("UseMutationOptions<any, ApiError, { params: PutItemsIdParams, body: Patch }, unknown>"));
    assert!(text.contains("mutationFn: (input: { params: PutItemsIdParams, body: Patch }) => client.putItemsId(input.params, input.body)"));
    let del = route("delete_all", "DELETE", "/all", HandlerInfo::unresolved());
    let text = generate_ts_hook(&del, "deleteAll", "useDeleteAll", &vec![]);
    assert!(text.contains("UseMutationOptions<any, ApiError, void, unknown>"));
    assert!(text.contains("mutationFn: () => client.deleteAll()"));
}

#[test]
fn imports_are_collected_once_in_order() {
    let mut a = HandlerInfo::unresolved();
    a.body_param = Some("User".to_string());
    a.return_type.found_type = Some("Array<Profile>".to_string());
    a.return_type.is_importable = true;
    let mut b = HandlerInfo::unresolved();
    b.body_param = Some("string".to_string());
    b.return_type.found_type = Some("User".to_string());
    b.return_type.is_importable = true;
    b.return_type.error_types = vec!["Conflict".to_string()];
    let routes = vec![route("a", "POST", "/a", a), route("b", "POST", "/b", b)];
    let mut m = TypeImportManager::new();
    m.collect_from_routes(&routes);
    assert_eq!(m.type_imports, vec!["User".to_string(), "Profile".to_string()]);
    assert_eq!(m.error_imports, vec!["Conflict".to_string()]);
    let lines = m.generate_imports();
    assert_eq!(lines[0], "import { type User } from \"../../../bindings/User\";");
    assert_eq!(lines.len(), 3);
    let mut n = TypeImportManager::new();
    n.extract_importable_types("Result<Option<Order>, Error>");
    n.extract_importable_types("Array<number>");
    assert_eq!(n.type_imports, vec!["Order".to_string()]);
}

#[test]
fn client_and_hooks_files_are_assembled() {
    let r = route("get_users_id", "GET", "/users/{id}", HandlerInfo::unresolved());
    let client = TypeScriptClientGenerator::generate(&vec![r.duplicate()], &TypeScriptConfig::default());
    assert!(client.contains("export interface GetUsersIdParams"));
    assert!(client.contains("class ApiClient"));
    assert!(client.contains("export const client = {\n  getUsersId: async"));
    let hooks = TypeScriptHooksGenerator::generate(&vec![r], &TypeScriptConfig::default());
    assert!(hooks.contains("import { type GetUsersIdParams } from \"./client\";"));
    assert!(hooks.contains("export function useGetUsersId("));
    assert_eq!(format_ts_code("x"), "x");
}

#[test]
fn typescript_is_skipped_without_output_directory() {
    let mut config = Config::default();
    config.typescript.generate_client = Some(true);
    let out = generate_outputs(&vec![], &config);
    assert!(out.client.is_none());
    assert!(out.hooks.is_none());
    assert!(out.links.contains("pub enum Link"));
    config.typescript.output_path = Some("web/src".to_string());
    let out = generate_outputs(&vec![], &config);
    assert!(out.client.is_some());
    assert!(out.hooks.is_some());
}

#[test]
fn clashing_client_method_names_are_reported() {
    let routes = vec![
        route("get_a", "GET", "/a", HandlerInfo::unresolved()),
        route("get_b", "GET", "/b", HandlerInfo::unresolved()),
        route("get-a", "POST", "/c", HandlerInfo::unresolved()),
    ];
    let diags = check_method_names(&routes);
    assert_eq!(diags.len(), 1);
    match &diags[0] {
        Diagnostic::DuplicateIdentifier { identifier, path, existing_path, .. } => {
            assert_eq!(identifier, "getA");
            assert_eq!(path, "/c");
            assert_eq!(existing_path, "/a");
        }
        _ => panic!("expected a duplicate identifier"),
    }
    assert!(diags[0].message().contains("'getA'"));
}
