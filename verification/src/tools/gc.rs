//! The `run_gc` tool's options and its answer when no strategy is configured.
use vstd::prelude::*;

use crate::error::{gc_error_message, GcError};
use crate::tools::catalog::{ToolError, ToolErrorKind};
use crate::types::{GcStrategy, RunGcOutput};

verus! {

/// Parameters of `run_gc`.
#[derive(Debug)]
pub struct RunGcParams {
    /// If `true`, report what would be deleted without removing anything. Defaults to `true`.
    pub dry_run: Option<bool>,
    /// Pass `--delete-untagged` to the GC command. Defaults to `true`.
    pub delete_untagged: Option<bool>,
}

/// The options of a GC run: dry run and delete-untagged, each `true` unless
/// set otherwise.
pub fn gc_options(params: &RunGcParams) -> (r: (bool, bool))
    ensures
        r.0 == (params.dry_run != Some(false)),
        r.1 == (params.delete_untagged != Some(false)),
{
    let dry_run = match params.dry_run {
        Some(b) => b,
        None => true,
    };
    let delete_untagged = match params.delete_untagged {
        Some(b) => b,
        None => true,
    };
    (dry_run, delete_untagged)
}

/// The message when no GC strategy is configured.
pub open spec fn unavailable_message() -> Seq<char> {
    "No GC strategy is configured. To enable GC, set one of: gc.scriptPath (path to a shell script) or gc.registryConfigPath (path to a registry config.yml for Docker-based GC)."@
}

/// The output when no GC strategy is configured: nothing ran.
pub fn unavailable_gc_output(dry_run: bool) -> (out: RunGcOutput)
    ensures
        out.strategy == GcStrategy::Unavailable,
        out.dry_run == dry_run,
        out.exit_code is None,
        out.stdout@.len() == 0,
        out.stderr@.len() == 0,
        out.message@ == unavailable_message(),
{
    RunGcOutput {
        strategy: GcStrategy::Unavailable,
        dry_run,
        exit_code: None,
        stdout: String::new(),
        stderr: String::new(),
        message: String::from_str(
            "No GC strategy is configured. To enable GC, set one of: gc.scriptPath (path to a shell script) or gc.registryConfigPath (path to a registry config.yml for Docker-based GC).",
        ),
    }
}

/// What `run_gc` runs for a strategy.
#[derive(Debug, PartialEq, Eq)]
pub enum GcRun {
    /// The configured script, with these options.
    Script { dry_run: bool, delete_untagged: bool },
    /// The registry image's `garbage-collect` in a container, with these options.
    Docker { dry_run: bool, delete_untagged: bool },
    /// Nothing: this is the answer.
    Answer(RunGcOutput),
}

/// What `run_gc` runs: with the options (both `true` unless set otherwise),
/// the script for the script strategy, a container for the Docker
/// strategy; with no strategy, nothing runs and the answer says so.
pub fn gc_run(strategy: GcStrategy, params: &RunGcParams) -> (r: GcRun)
    ensures
        ({
            let dry_run = params.dry_run != Some(false);
            let delete_untagged = params.delete_untagged != Some(false);
            match strategy {
                GcStrategy::Script => r == GcRun::Script { dry_run, delete_untagged },
                GcStrategy::Docker => r == GcRun::Docker { dry_run, delete_untagged },
                GcStrategy::Unavailable => r matches GcRun::Answer(out) && out.strategy
                    == GcStrategy::Unavailable && out.dry_run == dry_run && out.exit_code is None
                    && out.stdout@.len() == 0 && out.stderr@.len() == 0 && out.message@
                    == unavailable_message(),
            }
        }),
{
    let (dry_run, delete_untagged) = gc_options(params);
    match strategy {
        GcStrategy::Script => GcRun::Script { dry_run, delete_untagged },
        GcStrategy::Docker => GcRun::Docker { dry_run, delete_untagged },
        GcStrategy::Unavailable => GcRun::Answer(unavailable_gc_output(dry_run)),
    }
}

/// How a GC run is reported: its output, or an internal error with the
/// GC error's text.
pub fn gc_result(r: Result<RunGcOutput, GcError>) -> (t: Result<RunGcOutput, ToolError>)
    ensures
        match r {
            Ok(out) => t == Ok::<RunGcOutput, ToolError>(out),
            Err(e) => t matches Err(te) && te.kind == ToolErrorKind::Internal && te.message@
                == gc_error_message(e),
        },
{
    match r {
        Ok(out) => Ok(out),
        Err(e) => Err(ToolError { kind: ToolErrorKind::Internal, message: e.message() }),
    }
}

} // verus!
