//! The common shape of the three code generators.
use crate::routes::{routes_view, RouteInfo, RouteView};
use vstd::prelude::*;

verus! {

/// A generator of source text from the routes of a run.
pub trait CodeGenerator {
    /// The settings that the generator reads.
    type Config;

    /// The text generated for `routes` under `config`.
    spec fn generated(routes: Seq<RouteView>, config: Self::Config) -> Seq<char>;

    /// Generates the source text for `routes`.
    fn generate(routes: &Vec<RouteInfo>, config: &Self::Config) -> (r: String)
        ensures
            r@ == Self::generated(routes_view(routes@), *config),
    ;
}

} // verus!
