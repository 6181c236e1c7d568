//! Creating and removing tag references.
use vstd::prelude::*;

use crate::error::{registry_fault_message, RegistryError, RegistryFault};
use crate::registry::client::manifest_resource_spec;
use crate::text::{decimal, push_decimal};
use crate::tools::catalog::{ToolError, ToolErrorKind};
use crate::types::{TagManifestOutput, UntagFailure, UntagOutput};

verus! {

/// The most tags one `untag` call removes.
pub const MAX_UNTAG: usize = 20;

/// Parameters of `untag`.
#[derive(Debug)]
pub struct UntagParams {
    /// Repository name, e.g. `library/nginx`
    pub repository: String,
    /// Tags to remove (1–20). Each tag reference is deleted individually —
    /// the manifest and any other tags pointing to the same digest are unaffected.
    pub tags: Vec<String>,
}

/// Why an `untag` request is refused: no tags, or more than the maximum.
pub open spec fn untag_refusal(count: nat) -> Option<Seq<char>> {
    if count == 0 {
        Some("tags must not be empty"@)
    } else if count > MAX_UNTAG {
        Some(
            "too many tags: "@ + decimal(count) + " requested, maximum is "@ + decimal(
                MAX_UNTAG as nat,
            ),
        )
    } else {
        None
    }
}

/// Checks the number of tags of an `untag` request; a refusal blames the parameters.
pub fn check_untag_request(tags: &Vec<String>) -> (r: Result<(), ToolError>)
    ensures
        match r {
            Ok(()) => untag_refusal(tags@.len()) is None,
            Err(e) => e.kind == ToolErrorKind::InvalidParams && untag_refusal(tags@.len()) == Some(
                e.message@,
            ),
        },
{
    if tags.len() == 0 {
        return Err(
            ToolError {
                kind: ToolErrorKind::InvalidParams,
                message: String::from_str("tags must not be empty"),
            },
        );
    }
    if tags.len() > MAX_UNTAG {
        let mut m = String::from_str("too many tags: ");
        push_decimal(&mut m, tags.len() as u64);
        m.append(" requested, maximum is ");
        push_decimal(&mut m, MAX_UNTAG as u64);
        assert(m@ =~= untag_refusal(tags@.len()).unwrap());
        return Err(ToolError { kind: ToolErrorKind::InvalidParams, message: m });
    }
    Ok(())
}

/// A progress notification: how many of how many, and what happened.
#[derive(Debug, PartialEq, Eq)]
pub struct ProgressNote {
    pub progress: u64,
    pub total: Option<u64>,
    pub message: String,
}

/// The removals and failures of an `untag` call so far.
pub struct UntagProgress {
    total: usize,
    removed: Vec<String>,
    failed: Vec<UntagFailure>,
}

/// What an `untag` call has done so far, as plain values.
pub struct UntagProgressView {
    pub total: nat,
    pub removed: Seq<Seq<char>>,
    pub failed: Seq<(Seq<char>, Seq<char>)>,
}

impl View for UntagProgress {
    type V = UntagProgressView;

    closed spec fn view(&self) -> UntagProgressView {
        UntagProgressView {
            total: self.total as nat,
            removed: self.removed@.map_values(|s: String| s@),
            failed: self.failed@.map_values(|f: UntagFailure| (f.tag@, f.error@)),
        }
    }
}

/// The progress message for a removed tag.
pub open spec fn removed_note(tag: Seq<char>, done: nat, total: nat) -> Seq<char> {
    "Removed '"@ + tag + "'"@ + " ("@ + decimal(done) + "/"@ + decimal(total) + ")"@
}

/// The progress message for a tag that could not be removed.
pub open spec fn failed_note(tag: Seq<char>, error: Seq<char>, done: nat, total: nat) -> Seq<char> {
    "Failed '"@ + tag + "': "@ + error + " ("@ + decimal(done) + "/"@ + decimal(total) + ")"@
}

/// The summary message of an `untag` call.
pub open spec fn untag_message(removed: nat, failed: nat, repository: Seq<char>) -> Seq<char> {
    if failed == 0 {
        decimal(removed) + " tag(s) removed from "@ + repository + "."@
    } else if removed == 0 {
        "All "@ + decimal(failed) + " tag(s) failed to remove from "@ + repository + "."@
    } else {
        decimal(removed) + " tag(s) removed, "@ + decimal(failed) + " failed from "@ + repository
            + "."@
    }
}

/// Appends "({done}/{total})".
fn push_count(m: &mut String, done: u64, total: u64)
    ensures
        final(m)@ == old(m)@ + " ("@ + decimal(done as nat) + "/"@ + decimal(total as nat) + ")"@,
{
    m.append(" (");
    push_decimal(m, done);
    m.append("/");
    push_decimal(m, total);
    m.append(")");
    assert(final(m)@ =~= old(m)@ + " ("@ + decimal(done as nat) + "/"@ + decimal(total as nat)
        + ")"@);
}

/// One tag of an `untag` call and what deleting it gave: `None` when it
/// was removed, else the registry's error.
pub type UntagAttempt = (Seq<char>, Option<RegistryFault>);

/// Nothing done yet, out of `total` tags.
pub open spec fn untag_start(total: nat) -> UntagProgressView {
    UntagProgressView { total, removed: Seq::empty(), failed: Seq::empty() }
}

/// The progress after one more tag: a removed tag is listed as removed, a
/// failed one with the text of its error.
pub open spec fn untag_step(v: UntagProgressView, a: UntagAttempt) -> UntagProgressView {
    match a.1 {
        None => UntagProgressView { removed: v.removed.push(a.0), ..v },
        Some(e) => UntagProgressView { failed: v.failed.push((a.0, registry_fault_message(e))), ..v },
    }
}

/// The progress after the tags of a call, in order.
pub open spec fn untag_run(total: nat, attempts: Seq<UntagAttempt>) -> UntagProgressView
    decreases attempts.len(),
{
    if attempts.len() == 0 {
        untag_start(total)
    } else {
        untag_step(untag_run(total, attempts.drop_last()), attempts.last())
    }
}

/// A tag that was removed.
pub open spec fn was_removed() -> spec_fn(UntagAttempt) -> bool {
    |a: UntagAttempt| a.1 is None
}

/// A tag that could not be removed.
pub open spec fn was_refused() -> spec_fn(UntagAttempt) -> bool {
    |a: UntagAttempt| a.1 is Some
}

/// The tag of an attempt.
pub open spec fn attempt_tag() -> spec_fn(UntagAttempt) -> Seq<char> {
    |a: UntagAttempt| a.0
}

/// The failure entry of a refused attempt: the tag and the error's text.
pub open spec fn attempt_failure() -> spec_fn(UntagAttempt) -> (Seq<char>, Seq<char>) {
    |a: UntagAttempt| (a.0, registry_fault_message(a.1.unwrap()))
}

/// Over a whole `untag` call, one deletion per tag: the removed tags are
/// those whose deletion succeeded and the failures those whose deletion
/// failed, each with its error's text, both in the order of the request;
/// together they account for every tag, and the last notification counts
/// them all.
pub proof fn law_untag_run(attempts: Seq<UntagAttempt>)
    ensures
        untag_run(attempts.len(), attempts).removed == attempts.filter(was_removed()).map_values(
            attempt_tag(),
        ),
        untag_run(attempts.len(), attempts).failed == attempts.filter(was_refused()).map_values(
            attempt_failure(),
        ),
        untag_run(attempts.len(), attempts).removed.len() + untag_run(
            attempts.len(),
            attempts,
        ).failed.len() == attempts.len(),
        untag_run(attempts.len(), attempts).total == attempts.len(),
{
    lemma_untag_run(attempts.len(), attempts);
}

proof fn lemma_untag_run(total: nat, attempts: Seq<UntagAttempt>)
    ensures
        untag_run(total, attempts).removed == attempts.filter(was_removed()).map_values(
            attempt_tag(),
        ),
        untag_run(total, attempts).failed == attempts.filter(was_refused()).map_values(
            attempt_failure(),
        ),
        untag_run(total, attempts).removed.len() + untag_run(total, attempts).failed.len()
            == attempts.len(),
        untag_run(total, attempts).total == total,
    decreases attempts.len(),
{
    reveal(Seq::filter);
    if attempts.len() == 0 {
        assert(attempts.filter(was_removed()).map_values(attempt_tag()) =~= Seq::empty());
        assert(attempts.filter(was_refused()).map_values(attempt_failure()) =~= Seq::empty());
    } else {
        let init = attempts.drop_last();
        let a = attempts.last();
        lemma_untag_run(total, init);
        if a.1 is None {
            assert(attempts.filter(was_removed()) == init.filter(was_removed()).push(a));
            assert(attempts.filter(was_refused()) == init.filter(was_refused()));
            assert(init.filter(was_removed()).push(a).map_values(attempt_tag()) =~= init.filter(
                was_removed(),
            ).map_values(attempt_tag()).push(a.0));
        } else {
            assert(attempts.filter(was_refused()) == init.filter(was_refused()).push(a));
            assert(attempts.filter(was_removed()) == init.filter(was_removed()));
            assert(init.filter(was_refused()).push(a).map_values(attempt_failure()) =~= init.filter(
                was_refused(),
            ).map_values(attempt_failure()).push(attempt_failure()(a)));
        }
    }
}

/// A tag that is not there fails with the text "not found: {repository}:{tag}".
pub proof fn law_untag_missing_tag_text(repository: Seq<char>, tag: Seq<char>)
    ensures
        registry_fault_message(
            RegistryFault::NotFound { resource: manifest_resource_spec(repository, tag) },
        ) == "not found: "@ + repository + ":"@ + tag,
{
    assert(("not found: "@ + (repository + ":"@ + tag)) =~= ("not found: "@ + repository + ":"@
        + tag));
}

impl UntagProgress {
    /// Nothing done yet, out of `total` tags.
    pub fn new(total: usize) -> (p: UntagProgress)
        ensures
            p@.total == total,
            p@.removed.len() == 0,
            p@.failed.len() == 0,
            p@ == untag_start(total as nat),
    {
        let p = UntagProgress { total, removed: Vec::new(), failed: Vec::new() };
        assert(p@.removed =~= Seq::<Seq<char>>::empty());
        assert(p@.failed =~= Seq::<(Seq<char>, Seq<char>)>::empty());
        assert(p@.removed =~= untag_start(total as nat).removed);
        assert(p@.failed =~= untag_start(total as nat).failed);
        p
    }

    /// How many tags have been handled.
    pub open spec fn done(self) -> nat {
        self@.removed.len() + self@.failed.len()
    }

    /// Records a removed tag and gives its progress notification.
    pub fn record_removed(&mut self, tag: String) -> (note: ProgressNote)
        requires
            old(self).done() < old(self)@.total,
        ensures
            final(self)@.total == old(self)@.total,
            final(self)@.removed == old(self)@.removed.push(tag@),
            final(self)@.failed == old(self)@.failed,
            final(self)@ == untag_step(old(self)@, (tag@, None)),
            final(self).done() == old(self).done() + 1,
            note.progress == final(self).done(),
            note.total == Some(old(self)@.total as u64),
            note.message@ == removed_note(tag@, final(self).done(), old(self)@.total),
    {
        let done = (self.removed.len() + self.failed.len() + 1) as u64;
        let mut m = String::from_str("Removed '");
        m.append(tag.as_str());
        m.append("'");
        push_count(&mut m, done, self.total as u64);
        let ghost t = tag@;
        self.removed.push(tag);
        proof {
            assert(self@.removed =~= old(self)@.removed.push(t));
            assert(self@.failed =~= old(self)@.failed);
            assert(m@ =~= removed_note(t, self.done(), old(self)@.total));
        }
        ProgressNote { progress: done, total: Some(self.total as u64), message: m }
    }

    /// Records a tag that could not be removed, with the error's text, and
    /// gives its progress notification.
    pub fn record_failed(&mut self, tag: String, error: &RegistryError) -> (note: ProgressNote)
        requires
            old(self).done() < old(self)@.total,
        ensures
            final(self)@.total == old(self)@.total,
            final(self)@.removed == old(self)@.removed,
            final(self)@.failed == old(self)@.failed.push((tag@, registry_fault_message(error@))),
            final(self)@ == untag_step(old(self)@, (tag@, Some(error@))),
            final(self).done() == old(self).done() + 1,
            note.progress == final(self).done(),
            note.total == Some(old(self)@.total as u64),
            note.message@ == failed_note(
                tag@,
                registry_fault_message(error@),
                final(self).done(),
                old(self)@.total,
            ),
    {
        let done = (self.removed.len() + self.failed.len() + 1) as u64;
        let text = error.message();
        let mut m = String::from_str("Failed '");
        m.append(tag.as_str());
        m.append("': ");
        m.append(text.as_str());
        push_count(&mut m, done, self.total as u64);
        let ghost t = tag@;
        let ghost e = text@;
        self.failed.push(UntagFailure { tag, error: text });
        proof {
            assert(self@.failed =~= old(self)@.failed.push((t, e)));
            assert(self@.removed =~= old(self)@.removed);
            assert(m@ =~= failed_note(t, e, self.done(), old(self)@.total));
        }
        ProgressNote { progress: done, total: Some(self.total as u64), message: m }
    }

    /// The output of `untag`: the removed tags, the failures, and a summary.
    pub fn finish(self, repository: String) -> (out: UntagOutput)
        ensures
            out.repository == repository,
            out.removed@.map_values(|s: String| s@) == self@.removed,
            out.failed@.map_values(|f: UntagFailure| (f.tag@, f.error@)) == self@.failed,
            out.message@ == untag_message(
                self@.removed.len(),
                self@.failed.len(),
                repository@,
            ),
    {
        let r = self.removed.len();
        let f = self.failed.len();
        let mut m = String::new();
        if f == 0 {
            push_decimal(&mut m, r as u64);
            m.append(" tag(s) removed from ");
        } else if r == 0 {
            m.append("All ");
            push_decimal(&mut m, f as u64);
            m.append(" tag(s) failed to remove from ");
        } else {
            push_decimal(&mut m, r as u64);
            m.append(" tag(s) removed, ");
            push_decimal(&mut m, f as u64);
            m.append(" failed from ");
        }
        m.append(repository.as_str());
        m.append(".");
        assert(m@ =~= untag_message(self@.removed.len(), self@.failed.len(), repository@));
        UntagOutput { repository, removed: self.removed, failed: self.failed, message: m }
    }
}

/// Parameters of `tag_manifest`.
#[derive(Debug)]
pub struct TagManifestParams {
    /// Repository name, e.g. `library/nginx`
    pub repository: String,
    /// Source tag or digest to copy from, e.g. `latest` or `sha256:abc123…`
    pub source: String,
    /// New tag name to create or overwrite
    pub new_tag: String,
}

/// The digest a new tag points to: what the registry echoed on the PUT, or
/// when it echoed nothing, the digest of the source manifest.
pub open spec fn retag_digest(returned: Seq<char>, fetched: Seq<char>) -> Seq<char> {
    if returned.len() == 0 {
        fetched
    } else {
        returned
    }
}

/// The output of `tag_manifest`, given the digest the source manifest was
/// fetched with and the digest the registry reported on the PUT.
pub fn tag_manifest_output(params: TagManifestParams, fetched_digest: String, returned_digest: String) -> (out:
    TagManifestOutput)
    ensures
        out.repository == params.repository,
        out.source == params.source,
        out.new_tag == params.new_tag,
        out.digest@ == retag_digest(returned_digest@, fetched_digest@),
        out.message@ == "Tag '"@ + params.new_tag@ + "' created pointing to "@ + out.digest@ + "."@,
{
    let digest = if returned_digest.as_str().unicode_len() == 0 {
        fetched_digest
    } else {
        returned_digest
    };
    let mut message = String::from_str("Tag '");
    message.append(params.new_tag.as_str());
    message.append("' created pointing to ");
    message.append(digest.as_str());
    message.append(".");
    TagManifestOutput {
        message,
        repository: params.repository,
        source: params.source,
        new_tag: params.new_tag,
        digest,
    }
}

/// How a registry failure of `tag_manifest` is reported: an internal error
/// with the registry error's text.
pub fn tag_manifest_error(e: &RegistryError) -> (t: ToolError)
    ensures
        t.kind == ToolErrorKind::Internal,
        t.message@ == registry_fault_message(e@),
{
    ToolError { kind: ToolErrorKind::Internal, message: e.message() }
}

} // verus!
