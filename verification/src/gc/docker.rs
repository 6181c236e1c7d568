//! Garbage collection in a Docker container running the registry image.
use vstd::prelude::*;

use crate::config::GcConfig;
use crate::error::GcError;
use crate::text::{chars_of, push_signed_decimal, signed_decimal, substring, trim_end_char, trim_end_char_bound};
use crate::tools::tag::ProgressNote;
use crate::types::{GcStrategy, RunGcOutput};

verus! {

/// The container that runs the registry's `garbage-collect` command.
#[derive(Debug, PartialEq, Eq)]
pub struct GcContainerSpec {
    pub image: String,
    pub cmd: Vec<String>,
    pub env: Vec<String>,
    /// Labels that mark the container as a GC run.
    pub labels: Vec<(String, String)>,
    /// The registry config file, mounted read-only where the command reads it.
    pub binds: Vec<String>,
    /// The Docker network, or the default one.
    pub network_mode: Option<String>,
}

/// The command of the GC container.
pub open spec fn gc_command(dry_run: bool, delete_untagged: bool) -> Seq<Seq<char>> {
    seq!["/bin/registry"@, "garbage-collect"@, "/etc/docker/registry/config.yml"@] + (if dry_run {
        seq!["--dry-run"@]
    } else {
        Seq::empty()
    }) + (if delete_untagged {
        seq!["--delete-untagged"@]
    } else {
        Seq::empty()
    })
}

/// The GC command is `/bin/registry garbage-collect` on the mounted config,
/// then `--dry-run` exactly when a dry run is asked for and
/// `--delete-untagged` exactly when untagged manifests are to be deleted.
pub proof fn law_gc_command_flags(dry_run: bool, delete_untagged: bool)
    ensures
        gc_command(dry_run, delete_untagged).take(3) == seq![
            "/bin/registry"@,
            "garbage-collect"@,
            "/etc/docker/registry/config.yml"@,
        ],
        gc_command(dry_run, delete_untagged).contains("--dry-run"@) <==> dry_run,
        gc_command(dry_run, delete_untagged).contains("--delete-untagged"@) <==> delete_untagged,
        gc_command(dry_run, delete_untagged).len() == 3 + (if dry_run {
            1int
        } else {
            0int
        }) + (if delete_untagged {
            1int
        } else {
            0int
        }),
{
    reveal_strlit("/bin/registry");
    reveal_strlit("garbage-collect");
    reveal_strlit("/etc/docker/registry/config.yml");
    reveal_strlit("--dry-run");
    reveal_strlit("--delete-untagged");
    let c = gc_command(dry_run, delete_untagged);
    let fixed = seq!["/bin/registry"@, "garbage-collect"@, "/etc/docker/registry/config.yml"@];
    assert(c.take(3) =~= fixed);
    assert(forall|i: int| 0 <= i < c.len() ==> (#[trigger] c[i]).len() != "--dry-run"@.len()
        || c[i] == "--dry-run"@);
    if dry_run {
        assert(c[3] == "--dry-run"@);
    } else {
        assert forall|i: int| 0 <= i < c.len() implies #[trigger] c[i] != "--dry-run"@ by {
            assert(c[i].len() != "--dry-run"@.len());
        }
    }
    if delete_untagged {
        assert(c[c.len() - 1] == "--delete-untagged"@);
    } else {
        assert forall|i: int| 0 <= i < c.len() implies #[trigger] c[i] != "--delete-untagged"@ by {
            assert(c[i].len() != "--delete-untagged"@.len());
        }
    }
}

/// The container for a GC run: the configured registry image running
/// `garbage-collect` on the mounted config, with the HTTP listener
/// suppressed, on the configured network (Docker's default when empty).
pub fn gc_container_spec(cfg: &GcConfig, dry_run: bool, delete_untagged: bool) -> (s:
    GcContainerSpec)
    ensures
        s.image == cfg.registry_image,
        s.cmd@.map_values(|c: String| c@) == gc_command(dry_run, delete_untagged),
        s.env@.map_values(|e: String| e@) == seq!["REGISTRY_HTTP_ADDR="@],
        s.labels@.map_values(|l: (String, String)| (l.0@, l.1@)) == seq![
            ("registry-mcp.gc"@, "true"@),
        ],
        s.binds@.map_values(|b: String| b@) == seq![
            cfg.registry_config_path@ + ":/etc/docker/registry/config.yml:ro"@,
        ],
        s.network_mode == if cfg.docker_network@.len() == 0 {
            None
        } else {
            Some(cfg.docker_network)
        },
{
    let mut cmd: Vec<String> = Vec::new();
    cmd.push(String::from_str("/bin/registry"));
    cmd.push(String::from_str("garbage-collect"));
    cmd.push(String::from_str("/etc/docker/registry/config.yml"));
    if dry_run {
        cmd.push(String::from_str("--dry-run"));
    }
    if delete_untagged {
        cmd.push(String::from_str("--delete-untagged"));
    }
    let mut env: Vec<String> = Vec::new();
    env.push(String::from_str("REGISTRY_HTTP_ADDR="));
    let mut labels: Vec<(String, String)> = Vec::new();
    labels.push((String::from_str("registry-mcp.gc"), String::from_str("true")));
    let mut bind = cfg.registry_config_path.clone();
    bind.append(":/etc/docker/registry/config.yml:ro");
    let mut binds: Vec<String> = Vec::new();
    binds.push(bind);
    let network_mode = if cfg.docker_network.as_str().unicode_len() == 0 {
        None
    } else {
        Some(cfg.docker_network.clone())
    };
    let s = GcContainerSpec {
        image: cfg.registry_image.clone(),
        cmd,
        env,
        labels,
        binds,
        network_mode,
    };
    assert(s.cmd@.map_values(|c: String| c@) =~= gc_command(dry_run, delete_untagged));
    assert(s.env@.map_values(|e: String| e@) =~= seq!["REGISTRY_HTTP_ADDR="@]);
    assert(s.labels@.map_values(|l: (String, String)| (l.0@, l.1@)) =~= seq![
        ("registry-mcp.gc"@, "true"@),
    ]);
    assert(s.binds@.map_values(|b: String| b@) =~= seq![
        cfg.registry_config_path@ + ":/etc/docker/registry/config.yml:ro"@,
    ]);
    s
}

/// The log of a GC container so far: its standard output and error, and
/// how many log lines were seen.
#[derive(Debug, PartialEq, Eq)]
pub struct GcLog {
    pub stdout: String,
    pub stderr: String,
    pub lines: u64,
}

/// A chunk of a container's log: its text and whether it came from the
/// error stream.
pub type LogChunk = (Seq<char>, bool);

/// A log as plain values: output, error, and the number of chunks seen.
pub type LogView = (Seq<char>, Seq<char>, nat);

/// A log's plain values.
pub open spec fn gc_log_view(l: GcLog) -> LogView {
    (l.stdout@, l.stderr@, l.lines as nat)
}

/// The log after one more chunk: its text is appended to its stream.
pub open spec fn log_step(l: LogView, c: LogChunk) -> LogView {
    if c.1 {
        (l.0, l.1 + c.0, l.2 + 1)
    } else {
        (l.0 + c.0, l.1, l.2 + 1)
    }
}

/// The log after some chunks, in order.
pub open spec fn log_after(start: LogView, chunks: Seq<LogChunk>) -> LogView
    decreases chunks.len(),
{
    if chunks.len() == 0 {
        start
    } else {
        log_step(log_after(start, chunks.drop_last()), chunks.last())
    }
}

/// A chunk from the error stream.
pub open spec fn from_stderr() -> spec_fn(LogChunk) -> bool {
    |c: LogChunk| c.1
}

/// A chunk from the output stream.
pub open spec fn from_stdout() -> spec_fn(LogChunk) -> bool {
    |c: LogChunk| !c.1
}

/// A chunk's text.
pub open spec fn chunk_text() -> spec_fn(LogChunk) -> Seq<char> {
    |c: LogChunk| c.0
}

/// Over a whole log stream, starting from an empty log: the output is the
/// output chunks joined in order, the error the error chunks joined in
/// order, and the count (the progress of the last notification) is the
/// number of chunks.
pub proof fn law_gc_log_streams(chunks: Seq<LogChunk>)
    ensures
        log_after((Seq::empty(), Seq::empty(), 0), chunks).0 == chunks.filter(
            from_stdout(),
        ).map_values(chunk_text()).flatten(),
        log_after((Seq::empty(), Seq::empty(), 0), chunks).1 == chunks.filter(
            from_stderr(),
        ).map_values(chunk_text()).flatten(),
        log_after((Seq::empty(), Seq::empty(), 0), chunks).2 == chunks.len(),
    decreases chunks.len(),
{
    reveal(Seq::filter);
    if chunks.len() == 0 {
        assert(chunks.filter(from_stdout()).map_values(chunk_text()) =~= Seq::empty());
        assert(chunks.filter(from_stderr()).map_values(chunk_text()) =~= Seq::empty());
    } else {
        let init = chunks.drop_last();
        let c = chunks.last();
        law_gc_log_streams(init);
        let out = init.filter(from_stdout()).map_values(chunk_text());
        let err = init.filter(from_stderr()).map_values(chunk_text());
        if c.1 {
            assert(chunks.filter(from_stderr()) == init.filter(from_stderr()).push(c));
            assert(chunks.filter(from_stdout()) == init.filter(from_stdout()));
            assert(init.filter(from_stderr()).push(c).map_values(chunk_text()) =~= err.push(c.0));
            err.lemma_flatten_push(c.0);
        } else {
            assert(chunks.filter(from_stdout()) == init.filter(from_stdout()).push(c));
            assert(chunks.filter(from_stderr()) == init.filter(from_stderr()));
            assert(init.filter(from_stdout()).push(c).map_values(chunk_text()) =~= out.push(c.0));
            out.lemma_flatten_push(c.0);
        }
    }
}

impl GcLog {
    /// An empty log.
    pub fn new() -> (l: GcLog)
        ensures
            l.stdout@.len() == 0,
            l.stderr@.len() == 0,
            l.lines == 0,
            gc_log_view(l) == (Seq::<char>::empty(), Seq::<char>::empty(), 0nat),
    {
        let l = GcLog { stdout: String::new(), stderr: String::new(), lines: 0 };
        assert(l.stdout@ =~= Seq::<char>::empty());
        assert(l.stderr@ =~= Seq::<char>::empty());
        l
    }

    /// Records a log line from the container's output or error stream, and
    /// gives its progress notification: the line count so far and the line
    /// without its trailing newlines.
    pub fn record_line(&mut self, line: &str, is_stderr: bool) -> (note: ProgressNote)
        requires
            old(self).lines < u64::MAX,
        ensures
            final(self).lines == old(self).lines + 1,
            is_stderr ==> final(self).stderr@ == old(self).stderr@ + line@ && final(self).stdout
                == old(self).stdout,
            !is_stderr ==> final(self).stdout@ == old(self).stdout@ + line@ && final(self).stderr
                == old(self).stderr,
            gc_log_view(*final(self)) == log_step(gc_log_view(*old(self)), (line@, is_stderr)),
            note.progress == final(self).lines,
            note.total is None,
            note.message@ == trim_end_char(line@, '\n'),
    {
        if is_stderr {
            self.stderr.append(line);
        } else {
            self.stdout.append(line);
        }
        self.lines = self.lines + 1;
        let v = chars_of(line);
        let e = trim_end_char_bound(&v, 0, v.len(), '\n');
        assert(v@.subrange(0, v@.len() as int) =~= v@);
        ProgressNote { progress: self.lines, total: None, message: substring(line, 0, e) }
    }
}

/// The exit code of the container: its wait status (as `i32`), or -1 when
/// waiting produced none.
pub fn wait_exit_code(status: Option<i64>) -> (c: i32)
    ensures
        c == match status {
            Some(s) => s as i32,
            None => -1i32,
        },
{
    match status {
        Some(s) => s as i32,
        None => -1,
    }
}

/// The message of a finished container run.
pub open spec fn docker_gc_message(exit_code: i32, dry_run: bool) -> Seq<char> {
    if exit_code == 0 {
        "GC completed successfully"@ + (if dry_run {
            " (dry run)"@
        } else {
            Seq::empty()
        }) + "."@
    } else {
        "GC container exited with code "@ + signed_decimal(exit_code as int) + "."@
    }
}

/// The output of a finished container run, with its full log.
pub fn docker_gc_output(dry_run: bool, exit_code: i32, log: GcLog) -> (out: RunGcOutput)
    ensures
        out.strategy == GcStrategy::Docker,
        out.dry_run == dry_run,
        out.exit_code == Some(exit_code),
        out.stdout == log.stdout,
        out.stderr == log.stderr,
        out.message@ == docker_gc_message(exit_code, dry_run),
{
    let mut message = String::new();
    if exit_code == 0 {
        message.append("GC completed successfully");
        if dry_run {
            message.append(" (dry run)");
        }
        message.append(".");
    } else {
        message.append("GC container exited with code ");
        push_signed_decimal(&mut message, exit_code as i64);
        message.append(".");
    }
    assert(message@ =~= docker_gc_message(exit_code, dry_run));
    RunGcOutput {
        strategy: GcStrategy::Docker,
        dry_run,
        exit_code: Some(exit_code),
        stdout: log.stdout,
        stderr: log.stderr,
        message,
    }
}

/// What follows a container run: the container is removed, whatever the
/// run gave, and the run's result is the answer (a failed removal is only
/// reported, never the answer).
#[derive(Debug)]
pub struct ContainerCleanup {
    /// The container to remove.
    pub remove: String,
    /// The answer once it is removed.
    pub answer: Result<RunGcOutput, GcError>,
}

/// The cleanup after running the container `id`.
pub fn after_container_run(id: String, run: Result<RunGcOutput, GcError>) -> (c: ContainerCleanup)
    ensures
        c.remove == id,
        c.answer == run,
{
    ContainerCleanup { remove: id, answer: run }
}

} // verus!
