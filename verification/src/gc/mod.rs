//! Garbage collection: which strategy runs, and what it runs.
pub mod docker;
pub mod script;

use vstd::prelude::*;

use crate::config::GcConfig;
use crate::types::GcStrategy;

verus! {

/// The strategy chosen: a configured script that exists, else a configured
/// registry config file that exists (Docker), else none.
pub open spec fn strategy_for(
    script_path: Seq<char>,
    script_exists: bool,
    registry_config_path: Seq<char>,
    registry_config_exists: bool,
) -> GcStrategy {
    if script_path.len() > 0 && script_exists {
        GcStrategy::Script
    } else if registry_config_path.len() > 0 && registry_config_exists {
        GcStrategy::Docker
    } else {
        GcStrategy::Unavailable
    }
}

/// Resolve which GC strategy to use based on configuration and on which of
/// the configured paths exist. Priority: shell script → Docker → Unavailable.
pub fn resolve_strategy(cfg: &GcConfig, script_exists: bool, registry_config_exists: bool) -> (s:
    GcStrategy)
    ensures
        s == strategy_for(
            cfg.script_path@,
            script_exists,
            cfg.registry_config_path@,
            registry_config_exists,
        ),
{
    if cfg.script_path.as_str().unicode_len() > 0 && script_exists {
        return GcStrategy::Script;
    }
    if cfg.registry_config_path.as_str().unicode_len() > 0 && registry_config_exists {
        return GcStrategy::Docker;
    }
    GcStrategy::Unavailable
}

} // verus!
