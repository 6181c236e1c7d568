//! Repository and tag listing, and how registry errors reach the caller.
use vstd::prelude::*;

use crate::error::{RegistryError, RegistryFault};
use crate::text::{decimal, push_decimal};
use crate::types::{CatalogResponse, ListRepositoriesOutput, ListTagsOutput, TagsResponse};

verus! {

/// Parameters of `list_repositories`.
#[derive(Debug)]
pub struct ListRepositoriesParams {
    /// Pagination cursor — last repository name from the previous page.
    pub last: Option<String>,
    /// Maximum repositories to return (1–1000). Defaults to 100.
    pub limit: Option<u32>,
}

/// Parameters of `list_tags`.
#[derive(Debug)]
pub struct ListTagsParams {
    /// Repository name, e.g. `library/nginx`.
    pub repository: String,
    /// Pagination cursor — last tag name from the previous page.
    pub last: Option<String>,
    /// Maximum tags to return (1–1000). Defaults to 100.
    pub limit: Option<u32>,
}

/// The page size requested: 100 by default, clamped to 1..=1000.
pub open spec fn page_limit(limit: Option<u32>) -> u32 {
    let l = match limit {
        Some(l) => l,
        None => 100,
    };
    if l < 1 {
        1
    } else if l > 1000 {
        1000
    } else {
        l
    }
}

/// A page holds as many entries as asked for when that is between 1 and
/// 1000; 1 when 0 is asked for; 1000 when more is asked for; and 100 when
/// nothing is asked for.
pub proof fn law_page_limit_clamps(asked: u32)
    ensures
        1 <= asked <= 1000 ==> page_limit(Some(asked)) == asked,
        asked == 0 ==> page_limit(Some(asked)) == 1,
        asked > 1000 ==> page_limit(Some(asked)) == 1000,
        page_limit(None) == 100,
{
}

/// The page size requested: 100 by default, clamped to 1..=1000.
pub fn effective_limit(limit: Option<u32>) -> (l: u32)
    ensures
        l == page_limit(limit),
        1 <= l <= 1000,
        limit matches Some(x) ==> (1 <= x <= 1000 ==> l == x),
        limit is None ==> l == 100,
{
    let l = match limit {
        Some(l) => l,
        None => 100,
    };
    if l < 1 {
        1
    } else if l > 1000 {
        1000
    } else {
        l
    }
}

/// The pagination cursor: the given one, or empty for the first page.
pub fn effective_cursor(last: Option<String>) -> (c: String)
    ensures
        c@ == match last {
            Some(l) => l@,
            None => Seq::<char>::empty(),
        },
{
    match last {
        Some(l) => l,
        None => String::new(),
    }
}

/// The cursor for the next page: the last name returned, or empty.
pub open spec fn next_cursor(names: Seq<String>) -> Seq<char> {
    if names.len() > 0 {
        names.last()@
    } else {
        Seq::<char>::empty()
    }
}

/// The last name of a page, or empty when the page is empty.
fn last_name(names: &Vec<String>) -> (n: String)
    ensures
        n@ == next_cursor(names@),
{
    if names.len() > 0 {
        names[names.len() - 1].clone()
    } else {
        String::new()
    }
}

/// The output of `list_repositories` for a page of the catalog: the names,
/// the cursor for the next page, and how many were returned.
pub fn list_repositories_output(catalog: CatalogResponse) -> (out: ListRepositoriesOutput)
    ensures
        out.repositories == catalog.repositories,
        out.next_last@ == next_cursor(catalog.repositories@),
        out.total_returned == catalog.repositories@.len(),
{
    let repositories = catalog.repositories;
    let next_last = last_name(&repositories);
    let total_returned = repositories.len();
    ListRepositoriesOutput { repositories, next_last, total_returned }
}

/// The output of `list_tags` for a page of a repository's tags; a missing tag
/// list counts as empty.
pub fn list_tags_output(repository: String, resp: TagsResponse) -> (out: ListTagsOutput)
    ensures
        out.repository == repository,
        match resp.tags {
            Some(t) => out.tags == t,
            None => out.tags@.len() == 0,
        },
        out.next_last@ == next_cursor(out.tags@),
        out.total_returned == out.tags@.len(),
{
    let tags = match resp.tags {
        Some(t) => t,
        None => Vec::new(),
    };
    let next_last = last_name(&tags);
    let total_returned = tags.len();
    ListTagsOutput { repository, tags, next_last, total_returned }
}

// ── Errors reported to the caller ────────────────────────────────────────────

/// The kind of error a tool reports.
#[derive(Debug, Clone, Copy, PartialEq, Eq, Structural)]
pub enum ToolErrorKind {
    /// The caller's parameters were at fault.
    InvalidParams,
    /// The server or the registry failed.
    Internal,
}

/// An error a tool reports to its caller.
#[derive(Debug, PartialEq, Eq)]
pub struct ToolError {
    pub kind: ToolErrorKind,
    pub message: String,
}

/// How a registry error is reported: a missing resource is the caller's
/// fault, everything else is internal; each has its message.
pub open spec fn tool_error_for(f: RegistryFault) -> (ToolErrorKind, Seq<char>) {
    match f {
        RegistryFault::NotFound { resource } => (
            ToolErrorKind::InvalidParams,
            "Not found: "@ + resource,
        ),
        RegistryFault::Unauthorized => (
            ToolErrorKind::Internal,
            "Registry authentication failed — check credentials"@,
        ),
        RegistryFault::Forbidden => (ToolErrorKind::Internal, "Access denied by registry"@),
        RegistryFault::DeleteNotEnabled => (
            ToolErrorKind::Internal,
            "Registry does not permit deletions — enable storage.delete in registry config"@,
        ),
        RegistryFault::UnexpectedStatus { status, body } => (
            ToolErrorKind::Internal,
            "Registry returned HTTP "@ + decimal(status as nat) + ": "@ + body,
        ),
        RegistryFault::Transport(m) => (ToolErrorKind::Internal, "HTTP transport error: "@ + m),
        RegistryFault::InvalidResponse(m) => (
            ToolErrorKind::Internal,
            "Invalid registry response: "@ + m,
        ),
    }
}

/// Map a registry error to the error a tool reports.
pub fn registry_err(e: RegistryError) -> (t: ToolError)
    ensures
        (t.kind, t.message@) == tool_error_for(e@),
{
    let ghost f = e@;
    let mut m = String::new();
    let kind = match e {
        RegistryError::NotFound { resource } => {
            m.append("Not found: ");
            m.append(resource.as_str());
            ToolErrorKind::InvalidParams
        },
        RegistryError::Unauthorized => {
            m.append("Registry authentication failed — check credentials");
            ToolErrorKind::Internal
        },
        RegistryError::Forbidden => {
            m.append("Access denied by registry");
            ToolErrorKind::Internal
        },
        RegistryError::DeleteNotEnabled => {
            m.append(
                "Registry does not permit deletions — enable storage.delete in registry config",
            );
            ToolErrorKind::Internal
        },
        RegistryError::UnexpectedStatus { status, body } => {
            m.append("Registry returned HTTP ");
            push_decimal(&mut m, status as u64);
            m.append(": ");
            m.append(body.as_str());
            ToolErrorKind::Internal
        },
        RegistryError::Transport(e) => {
            m.append("HTTP transport error: ");
            m.append(e.as_str());
            ToolErrorKind::Internal
        },
        RegistryError::InvalidResponse(msg) => {
            m.append("Invalid registry response: ");
            m.append(msg.as_str());
            ToolErrorKind::Internal
        },
    };
    assert(m@ =~= tool_error_for(f).1);
    ToolError { kind, message: m }
}

/// An internal error carrying a message as it is.
pub fn internal_error(message: String) -> (t: ToolError)
    ensures
        t.kind == ToolErrorKind::Internal,
        t.message == message,
{
    ToolError { kind: ToolErrorKind::Internal, message }
}

} // verus!
