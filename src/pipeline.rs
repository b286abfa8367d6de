//! A whole run: from parsed controller modules to the generated sources.
use crate::client::{check_method_names, client_file, method_name_clashes, TypeScriptClientGenerator};
use crate::config::Config;
use crate::generators::CodeGenerator;
use crate::hooks::{hooks_file, TypeScriptHooksGenerator};
use crate::links::{link_parts, links_file, RustLinksGenerator};
use crate::routes::{
    DiagnosticView, all_module_routes, collect_routes, diagnostics_view, dropped_routes, kept_routes, Diagnostic,
};
use crate::syntax::SourceModule;
use vstd::prelude::*;

verus! {

/// The routes of a run over `modules`.
pub open spec fn run_routes(modules: Seq<SourceModule>, config: Config) -> Seq<crate::routes::RouteView> {
    kept_routes(all_module_routes(modules, config.naming))
}

/// Whether a run writes TypeScript bindings: the client is asked for and an
/// output directory is configured.
pub open spec fn wants_typescript(config: Config) -> bool {
    config.typescript.generate_client == Some(true) && config.typescript.output_path is Some
}

/// The sources of a run and its warnings.
#[derive(Debug, Clone)]
pub struct GeneratedOutputs {
    /// The Rust link enumeration.
    pub links: String,
    /// The TypeScript client, where one is asked for.
    pub client: Option<String>,
    /// The TypeScript hooks, where a client is asked for.
    pub hooks: Option<String>,
    /// Dropped routes, then skipped variants, then (where TypeScript is
    /// generated) clashing client method names.
    pub diagnostics: Vec<Diagnostic>,
}

/// The TypeScript client of the routes that `modules` declare.
pub fn generate_ts_client(modules: &Vec<SourceModule>, config: &Config) -> (r: String)
    ensures
        r@ == client_file(run_routes(modules@, *config)),
{
    let scan = collect_routes(modules, config);
    TypeScriptClientGenerator::generate(&scan.routes, &config.typescript)
}

/// The TypeScript hooks of the routes that `modules` declare.
pub fn generate_ts_hooks(modules: &Vec<SourceModule>, config: &Config) -> (r: String)
    ensures
        r@ == hooks_file(run_routes(modules@, *config)),
{
    let scan = collect_routes(modules, config);
    TypeScriptHooksGenerator::generate(&scan.routes, &config.typescript)
}

/// All sources of a run: the link enumeration always, the TypeScript client
/// and hooks only where `wants_typescript` holds; with the warnings of route
/// assembly, then those of the link enumeration, then (with TypeScript) one
/// for each clashing client method name.
pub fn generate_outputs(modules: &Vec<SourceModule>, config: &Config) -> (r: GeneratedOutputs)
    ensures
        r.links@ == links_file(run_routes(modules@, *config), config.naming),
        r.client is Some <==> wants_typescript(*config),
        r.hooks is Some <==> wants_typescript(*config),
        r.client matches Some(c) ==> c@ == client_file(run_routes(modules@, *config)),
        r.hooks matches Some(h) ==> h@ == hooks_file(run_routes(modules@, *config)),
        diagnostics_view(r.diagnostics@) == dropped_routes(all_module_routes(modules@, config.naming))
            + link_parts(run_routes(modules@, *config), config.naming).diagnostics + (if wants_typescript(
            *config,
        ) {
            method_name_clashes(run_routes(modules@, *config))
        } else {
            Seq::empty()
        }),
{
    let scan = collect_routes(modules, config);
    let (links, link_diags) = RustLinksGenerator::generate_with_diagnostics(&scan.routes, config);
    let wants = match (config.typescript.generate_client, &config.typescript.output_path) {
        (Some(true), Some(_)) => true,
        _ => false,
    };
    let (client, hooks, name_diags) = if wants {
        (
            Some(TypeScriptClientGenerator::generate(&scan.routes, &config.typescript)),
            Some(TypeScriptHooksGenerator::generate(&scan.routes, &config.typescript)),
            check_method_names(&scan.routes),
        )
    } else {
        let none: Vec<Diagnostic> = Vec::new();
        assert(diagnostics_view(none@) =~= Seq::<DiagnosticView>::empty());
        (None, None, none)
    };
    let mut diagnostics = scan.diagnostics;
    append_diagnostics(&mut diagnostics, &link_diags);
    append_diagnostics(&mut diagnostics, &name_diags);
    GeneratedOutputs { links, client, hooks, diagnostics }
}

/// Appends copies of `more` to `diags`.
fn append_diagnostics(diags: &mut Vec<Diagnostic>, more: &Vec<Diagnostic>)
    ensures
        diagnostics_view(final(diags)@) == diagnostics_view(old(diags)@) + diagnostics_view(more@),
{
    let ghost first = diagnostics_view(diags@);
    let mut i: usize = 0;
    assert(first + diagnostics_view(more@).subrange(0, 0) =~= first);
    while i < more.len()
        invariant
            i <= more@.len(),
            diagnostics_view(diags@) == first + diagnostics_view(more@).subrange(0, i as int),
        decreases more@.len() - i,
    {
        let ghost before = diags@;
        let d = more[i].duplicate();
        diags.push(d);
        assert(diagnostics_view(diags@) =~= diagnostics_view(before).push(d@));
        assert(diagnostics_view(more@).subrange(0, i + 1) =~= diagnostics_view(more@).subrange(0, i as int).push(d@));
        assert(first + diagnostics_view(more@).subrange(0, i + 1) =~= (first + diagnostics_view(more@).subrange(0, i as int)).push(d@));
        i += 1;
    }
    assert(diagnostics_view(more@).subrange(0, i as int) =~= diagnostics_view(more@));
}

} // verus!
