//! Manifest shapes of the OCI Distribution API and the outputs of the tools.
use vstd::prelude::*;

verus! {

// ── OCI / Docker manifest media types ────────────────────────────────────────

pub const MEDIA_TYPE_OCI_INDEX: &'static str = "application/vnd.oci.image.index.v1+json";

pub const MEDIA_TYPE_DOCKER_MANIFEST_LIST: &'static str =
    "application/vnd.docker.distribution.manifest.list.v2+json";

// ── Raw OCI/Docker API response shapes ───────────────────────────────────────

/// A content descriptor as it appears in manifest JSON.
#[derive(Debug, PartialEq, Eq)]
pub struct Descriptor {
    pub media_type: String,
    pub digest: String,
    pub size: i64,
    /// Platform info — present in image index entries.
    pub platform: Option<Platform>,
}

#[derive(Debug, PartialEq, Eq)]
pub struct Platform {
    pub architecture: String,
    pub os: String,
    pub variant: Option<String>,
}

/// A single-platform image manifest (OCI or Docker schema v2).
#[derive(Debug, PartialEq, Eq)]
pub struct RawManifest {
    pub schema_version: u32,
    pub media_type: String,
    pub config: Descriptor,
    pub layers: Vec<Descriptor>,
}

/// A multi-platform image index (OCI) or manifest list (Docker).
#[derive(Debug, PartialEq, Eq)]
pub struct RawIndex {
    pub schema_version: u32,
    pub manifests: Vec<Descriptor>,
}

/// Tag list response from `/v2/<name>/tags/list`.
#[derive(Debug, PartialEq, Eq)]
pub struct TagsResponse {
    pub tags: Option<Vec<String>>,
}

/// Catalog response from `/v2/_catalog`.
#[derive(Debug, PartialEq, Eq)]
pub struct CatalogResponse {
    pub repositories: Vec<String>,
}

// ── Tool output shapes ────────────────────────────────────────────────────────

/// Output of `list_repositories`.
#[derive(Debug, PartialEq, Eq)]
pub struct ListRepositoriesOutput {
    pub repositories: Vec<String>,
    pub next_last: String,
    pub total_returned: usize,
}

/// Output of `list_tags`.
#[derive(Debug, PartialEq, Eq)]
pub struct ListTagsOutput {
    pub repository: String,
    pub tags: Vec<String>,
    pub next_last: String,
    pub total_returned: usize,
}

/// Per-layer detail in `get_manifest` output.
#[derive(Debug, PartialEq, Eq)]
pub struct LayerInfo {
    pub digest: String,
    pub media_type: String,
    pub size_bytes: i64,
}

/// An entry in an image index (multi-platform manifest list).
#[derive(Debug, PartialEq, Eq)]
pub struct IndexEntry {
    pub digest: String,
    pub media_type: String,
    pub size_bytes: i64,
    pub platform: Option<Platform>,
}

/// Output of `get_manifest`.
#[derive(Debug, PartialEq, Eq)]
pub struct GetManifestOutput {
    pub repository: String,
    pub reference: String,
    pub digest: String,
    pub media_type: String,
    pub schema_version: u32,
    pub total_size_bytes: i64,
    pub is_image_index: bool,
    /// Present for single-platform manifests.
    pub config: Option<LayerInfo>,
    /// Present for single-platform manifests.
    pub layers: Option<Vec<LayerInfo>>,
    /// Present for image indexes.
    pub manifests: Option<Vec<IndexEntry>>,
}

/// Per-tag summary in `get_repository_disk_usage` output.
#[derive(Debug, PartialEq, Eq)]
pub struct TagDiskUsage {
    pub tag: String,
    pub digest: String,
    pub layer_count: usize,
    pub total_size_bytes: i64,
}

/// Output of `get_repository_disk_usage`.
#[derive(Debug, PartialEq, Eq)]
pub struct DiskUsageOutput {
    pub repository: String,
    pub unique_blob_count: usize,
    pub unique_size_bytes: i64,
    pub tags: Vec<TagDiskUsage>,
    /// Tags that could not be fetched (e.g. deleted mid-flight).
    pub skipped_tags: Vec<String>,
}

/// Output of `delete_tag`.
#[derive(Debug, PartialEq, Eq)]
pub struct DeleteTagOutput {
    pub repository: String,
    pub tag: String,
    pub digest: String,
    pub deleted: bool,
    pub message: String,
}

/// A tag that `untag` could not remove, with the reason.
#[derive(Debug, PartialEq, Eq)]
pub struct UntagFailure {
    pub tag: String,
    pub error: String,
}

/// Output of `untag`.
#[derive(Debug, PartialEq, Eq)]
pub struct UntagOutput {
    pub repository: String,
    pub removed: Vec<String>,
    pub failed: Vec<UntagFailure>,
    pub message: String,
}

/// Output of `tag_manifest`.
#[derive(Debug, PartialEq, Eq)]
pub struct TagManifestOutput {
    pub repository: String,
    pub source: String,
    pub new_tag: String,
    pub digest: String,
    pub message: String,
}

/// Output of `migrate`.
#[derive(Debug, PartialEq, Eq)]
pub struct MigrateOutput {
    pub source: String,
    pub target_repository: String,
    pub target_tag: String,
    pub digest: String,
    pub is_multi_arch: bool,
    pub manifests_copied: usize,
    pub blobs_copied: usize,
    pub blobs_skipped: usize,
    pub requires_auth: bool,
    pub message: String,
}

/// Which GC strategy was selected.
#[derive(Debug, Clone, Copy, PartialEq, Eq, Structural)]
pub enum GcStrategy {
    Script,
    Docker,
    Unavailable,
}

/// Output of `run_gc`.
#[derive(Debug, PartialEq, Eq)]
pub struct RunGcOutput {
    pub strategy: GcStrategy,
    pub dry_run: bool,
    pub exit_code: Option<i32>,
    pub stdout: String,
    pub stderr: String,
    pub message: String,
}

} // verus!
