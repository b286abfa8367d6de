//! Configuration of a generation run.
use vstd::prelude::*;

verus! {

/// Settings of one generation run.
#[derive(Debug, Clone, Default)]
pub struct Config {
    /// Directory that holds the controller modules.
    pub controllers_path: String,
    pub naming: NamingConfig,
    pub typescript: TypeScriptConfig,
}

/// How route names, enum variants and fields are named.
#[derive(Debug, Clone, Default)]
pub struct NamingConfig {
    /// Whether to include HTTP methods in variant names (default: true)
    pub include_method_in_names: Option<bool>,
    /// Custom prefix to remove from paths when generating names
    pub path_prefix_to_remove: Option<String>,
    /// Case for variant names (default: "pascal")
    pub variant_case: Option<String>,
    /// Case for field names (default: "snake")
    pub field_case: Option<String>,
    /// Characters to treat as word separators in route names
    pub word_separators: Option<String>,
    /// Whether to preserve numbers as separate words
    pub preserve_numbers: Option<bool>,
    /// Custom prefix for variant names
    pub variant_prefix: Option<String>,
    /// Custom suffix for variant names
    pub variant_suffix: Option<String>,
}

/// Where and whether TypeScript bindings are written.
#[derive(Debug, Clone, Default)]
pub struct TypeScriptConfig {
    /// Optional output directory for the TypeScript client
    pub output_path: Option<String>,
    /// Whether to generate the TypeScript client
    pub generate_client: Option<bool>,
}


} // verus!
