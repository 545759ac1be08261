//! Structural decoding settings, route configuration, and how the two are
//! resolved for one request.

use vstd::prelude::*;

verus! {

/// The nesting depth that the process-wide default configuration allows.
pub const DEFAULT_MAX_DEPTH: usize = 5;

/// Settings that the structural decoder works under.
#[derive(Clone, Copy, Debug, PartialEq, Eq, Structural)]
pub struct StructuralConfig {
    /// How deeply a key of the query may nest.
    pub max_depth: usize,
    /// Whether the decoder holds the query to the strict form of its syntax.
    pub strict: bool,
}

impl StructuralConfig {
    /// The process-wide default: nesting up to `DEFAULT_MAX_DEPTH`, strict.
    pub open spec fn process_default() -> StructuralConfig {
        StructuralConfig { max_depth: DEFAULT_MAX_DEPTH, strict: true }
    }

    /// A configuration with the given limit and strictness.
    pub fn new(max_depth: usize, strict: bool) -> (config: Self)
        ensures
            config == (StructuralConfig { max_depth, strict }),
    {
        StructuralConfig { max_depth, strict }
    }
}

impl Default for StructuralConfig {
    fn default() -> (config: Self)
        ensures
            config == StructuralConfig::process_default(),
    {
        StructuralConfig { max_depth: DEFAULT_MAX_DEPTH, strict: true }
    }
}

/// What a route registers: how its queries are decoded, and the hook, if
/// any, that turns its failures into transport errors.
///
/// The hook is kept by the route and only lent to an extraction, so one
/// hook serves every request of the route.
pub struct RouteConfig<H> {
    pub structural_config: StructuralConfig,
    pub error_hook: Option<H>,
}

impl<H> RouteConfig<H> {
    /// A route configuration with the process-wide default settings and no
    /// hook.
    pub fn new() -> (route: Self)
        ensures
            route.structural_config == StructuralConfig::process_default(),
            route.error_hook is None,
    {
        RouteConfig { structural_config: StructuralConfig::default(), error_hook: None }
    }

    /// The same route with `config` as its decoding settings.
    pub fn with_structural_config(self, config: StructuralConfig) -> (route: Self)
        ensures
            route.structural_config == config,
            route.error_hook == self.error_hook,
    {
        RouteConfig { structural_config: config, error_hook: self.error_hook }
    }

    /// The same route with `hook` as its error hook.
    pub fn with_error_hook(self, hook: H) -> (route: Self)
        ensures
            route.structural_config == self.structural_config,
            route.error_hook == Some(hook),
    {
        RouteConfig { structural_config: self.structural_config, error_hook: Some(hook) }
    }
}

impl<H> Default for RouteConfig<H> {
    fn default() -> (route: Self)
        ensures
            route.structural_config == StructuralConfig::process_default(),
            route.error_hook is None,
    {
        RouteConfig::new()
    }
}

/// The settings and the hook that govern a request: those of the attached
/// route configuration where there is one, else `default` and no hook.
pub open spec fn resolved<H>(route: Option<&RouteConfig<H>>, default: StructuralConfig) -> (
    StructuralConfig,
    Option<&H>,
) {
    match route {
        Some(attached) => (
            attached.structural_config,
            match attached.error_hook {
                Some(hook) => Some(&hook),
                None => None,
            },
        ),
        None => (default, None),
    }
}

/// Resolves the decoding settings and the error hook for one request.
///
/// An attached route configuration wins as a whole: its settings replace
/// `default`, and its hook, present or absent, is the hook. Resolution reads
/// only and always succeeds.
pub fn resolve<'a, H>(route: Option<&'a RouteConfig<H>>, default: &StructuralConfig) -> (out: (
    StructuralConfig,
    Option<&'a H>,
))
    ensures
        out == resolved(route, *default),
{
    match route {
        Some(attached) => (attached.structural_config, attached.error_hook.as_ref()),
        None => (*default, None),
    }
}

} // verus!
