//! Route discovery and client-binding generation for controller modules.
//!
//! The library reads controller modules (as syntax trees), recovers the
//! HTTP routes that their `routes` functions declare, infers the metadata of
//! each handler, and emits a Rust link enumeration and TypeScript client and
//! hook bindings, all from one route model.
pub mod case;
pub mod client;
pub mod config;
pub mod generators;
pub mod handlers;
pub mod hooks;
pub mod imports;
pub mod links;
pub mod naming;
pub mod path;
pub mod pipeline;
pub mod routes;
pub mod syntax;
pub mod text;

pub use client::{format_ts_code, TypeScriptClientGenerator};
pub use config::{Config, NamingConfig, TypeScriptConfig};
pub use generators::CodeGenerator;
pub use handlers::{extract_handler_info, HandlerInfo, ReturnTypeVisitor};
pub use hooks::TypeScriptHooksGenerator;
pub use imports::TypeImportManager;
pub use links::RustLinksGenerator;
pub use naming::generate_route_name;
pub use pipeline::{generate_outputs, generate_ts_client, generate_ts_hooks, GeneratedOutputs};
pub use routes::{collect_routes, is_controller_file, Diagnostic, RouteInfo, ScanResult};
