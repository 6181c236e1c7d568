//! Deleting a manifest by tag, guarded by a dry run.
use vstd::prelude::*;

use crate::types::DeleteTagOutput;

verus! {

/// Parameters of `delete_tag`.
#[derive(Debug)]
pub struct DeleteTagParams {
    /// Repository name, e.g. `library/nginx`.
    pub repository: String,
    /// Tag to delete.
    pub tag: String,
    /// Must be `true` to perform the actual deletion. Defaults to `false` (dry run).
    pub confirm: Option<bool>,
}

/// Whether the deletion is to be performed: only when `confirm` is `true`.
pub fn confirmed(confirm: Option<bool>) -> (b: bool)
    ensures
        b == (confirm == Some(true)),
{
    match confirm {
        Some(c) => c,
        None => false,
    }
}

/// The message of a dry run.
pub open spec fn dry_run_message(repository: Seq<char>, tag: Seq<char>, digest: Seq<char>) -> Seq<char> {
    "Dry run — set confirm: true to delete manifest "@ + digest + " (tag: "@ + tag + " in "@
        + repository + ")"@
}

/// The message of a performed deletion.
pub open spec fn deleted_message(digest: Seq<char>) -> Seq<char> {
    "Manifest "@ + digest + " deleted."@
}

/// The output of a dry run: the resolved digest, nothing deleted.
pub fn dry_run_output(params: DeleteTagParams, digest: String) -> (out: DeleteTagOutput)
    ensures
        out.repository == params.repository,
        out.tag == params.tag,
        out.digest == digest,
        !out.deleted,
        out.message@ == dry_run_message(params.repository@, params.tag@, digest@),
{
    let mut message = String::from_str("Dry run — set confirm: true to delete manifest ");
    message.append(digest.as_str());
    message.append(" (tag: ");
    message.append(params.tag.as_str());
    message.append(" in ");
    message.append(params.repository.as_str());
    message.append(")");
    assert(message@ =~= dry_run_message(params.repository@, params.tag@, digest@));
    DeleteTagOutput {
        repository: params.repository,
        tag: params.tag,
        digest,
        deleted: false,
        message,
    }
}

/// The output after the manifest was deleted.
pub fn deleted_output(params: DeleteTagParams, digest: String) -> (out: DeleteTagOutput)
    ensures
        out.repository == params.repository,
        out.tag == params.tag,
        out.digest == digest,
        out.deleted,
        out.message@ == deleted_message(digest@),
{
    let mut message = String::from_str("Manifest ");
    message.append(digest.as_str());
    message.append(" deleted.");
    assert(message@ =~= deleted_message(digest@));
    DeleteTagOutput {
        repository: params.repository,
        tag: params.tag,
        digest,
        deleted: true,
        message,
    }
}

} // verus!
