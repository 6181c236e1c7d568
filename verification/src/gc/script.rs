//! Garbage collection by a configured shell script.
use vstd::prelude::*;

use crate::config::Config;
use crate::error::GcError;
use crate::text::{signed_decimal, push_signed_decimal};
use crate::types::{GcStrategy, RunGcOutput};

verus! {

/// How the GC script is run: the program, its arguments, and the environment
/// variables it receives.
#[derive(Debug, PartialEq, Eq)]
pub struct ScriptInvocation {
    pub program: String,
    pub args: Vec<String>,
    pub env: Vec<(String, String)>,
}

/// `"true"` or `"false"`.
pub open spec fn flag_text(b: bool) -> Seq<char> {
    if b {
        "true"@
    } else {
        "false"@
    }
}

/// The arguments of the script: `--dry-run` and `--delete-untagged` as requested.
pub open spec fn script_args(dry_run: bool, delete_untagged: bool) -> Seq<Seq<char>> {
    (if dry_run {
        seq!["--dry-run"@]
    } else {
        Seq::empty()
    }) + (if delete_untagged {
        seq!["--delete-untagged"@]
    } else {
        Seq::empty()
    })
}

fn flag(b: bool) -> (s: String)
    ensures
        s@ == flag_text(b),
{
    if b {
        String::from_str("true")
    } else {
        String::from_str("false")
    }
}

/// The invocation of the GC script: an error when the script does not exist;
/// otherwise the script with the flags as arguments and the registry
/// settings and flags in its environment.
pub fn script_invocation(cfg: &Config, dry_run: bool, delete_untagged: bool, script_exists: bool) -> (r:
    Result<ScriptInvocation, GcError>)
    ensures
        match r {
            Err(e) => !script_exists && e == GcError::ScriptNotFound(cfg.gc.script_path),
            Ok(inv) => {
                &&& script_exists
                &&& inv.program == cfg.gc.script_path
                &&& inv.args@.map_values(|a: String| a@) == script_args(dry_run, delete_untagged)
                &&& inv.env@.map_values(|e: (String, String)| (e.0@, e.1@)) == seq![
                    ("REGISTRY_URL"@, cfg.registry.base_url@),
                    ("REGISTRY_USERNAME"@, cfg.registry.username@),
                    ("REGISTRY_PASSWORD"@, cfg.registry.password@),
                    ("DRY_RUN"@, flag_text(dry_run)),
                    ("DELETE_UNTAGGED"@, flag_text(delete_untagged)),
                ]
            },
        },
{
    if !script_exists {
        return Err(GcError::ScriptNotFound(cfg.gc.script_path.clone()));
    }
    let mut args: Vec<String> = Vec::new();
    if dry_run {
        args.push(String::from_str("--dry-run"));
    }
    if delete_untagged {
        args.push(String::from_str("--delete-untagged"));
    }
    let mut env: Vec<(String, String)> = Vec::new();
    env.push((String::from_str("REGISTRY_URL"), cfg.registry.base_url.clone()));
    env.push((String::from_str("REGISTRY_USERNAME"), cfg.registry.username.clone()));
    env.push((String::from_str("REGISTRY_PASSWORD"), cfg.registry.password.clone()));
    env.push((String::from_str("DRY_RUN"), flag(dry_run)));
    env.push((String::from_str("DELETE_UNTAGGED"), flag(delete_untagged)));
    let inv = ScriptInvocation { program: cfg.gc.script_path.clone(), args, env };
    assert(inv.args@.map_values(|a: String| a@) =~= script_args(dry_run, delete_untagged));
    assert(inv.env@.map_values(|e: (String, String)| (e.0@, e.1@)) =~= seq![
        ("REGISTRY_URL"@, cfg.registry.base_url@),
        ("REGISTRY_USERNAME"@, cfg.registry.username@),
        ("REGISTRY_PASSWORD"@, cfg.registry.password@),
        ("DRY_RUN"@, flag_text(dry_run)),
        ("DELETE_UNTAGGED"@, flag_text(delete_untagged)),
    ]);
    Ok(inv)
}

/// The message of a finished script run.
pub open spec fn script_message(success: bool, exit_code: i32, dry_run: bool) -> Seq<char> {
    if success {
        "GC script completed successfully"@ + (if dry_run {
            " (dry run)"@
        } else {
            Seq::empty()
        }) + "."@
    } else {
        "GC script exited with code "@ + signed_decimal(exit_code as int) + "."@
    }
}

/// The output of a finished script run; a run without an exit code (ended
/// by a signal) reports -1.
pub fn script_gc_output(dry_run: bool, success: bool, code: Option<i32>, stdout: String, stderr: String) -> (out:
    RunGcOutput)
    ensures
        out.strategy == GcStrategy::Script,
        out.dry_run == dry_run,
        out.exit_code == Some(
            match code {
                Some(c) => c,
                None => -1i32,
            },
        ),
        out.stdout == stdout,
        out.stderr == stderr,
        out.message@ == script_message(success, out.exit_code.unwrap(), dry_run),
{
    let exit_code = match code {
        Some(c) => c,
        None => -1,
    };
    let mut message = String::new();
    if success {
        message.append("GC script completed successfully");
        if dry_run {
            message.append(" (dry run)");
        }
        message.append(".");
    } else {
        message.append("GC script exited with code ");
        push_signed_decimal(&mut message, exit_code as i64);
        message.append(".");
    }
    assert(message@ =~= script_message(success, exit_code, dry_run));
    RunGcOutput {
        strategy: GcStrategy::Script,
        dry_run,
        exit_code: Some(exit_code),
        stdout,
        stderr,
        message,
    }
}

} // verus!
