//! The `migrate` tool: what it copies from where, and how it reports.
use vstd::prelude::*;

use crate::config::{creds_config_spec, RegistryConfig, RegistryConfigView};
use crate::error::{RegistryError, RegistryFault};
use crate::migrate::{
    parse_source, parse_source_spec, CopyFailure, CopyStats, RegistrySide, SourceImage,
};
use crate::text::{decimal, push_decimal};
use crate::tools::catalog::{registry_err, tool_error_for, ToolError};
use crate::types::MigrateOutput;

verus! {

/// Parameters of `migrate`.
#[derive(Debug)]
pub struct MigrateParams {
    /// Full source image reference, e.g. `docker.io/library/nginx:latest`,
    /// `registry.example.com/myorg/myimage:v1.0`, or just `nginx:alpine`.
    pub source: String,
    /// Repository in this registry to push to, e.g. `library/nginx`
    pub target_repository: String,
    /// Tag to create or overwrite, e.g. `latest`
    pub target_tag: String,
    /// Source registry username. Leave unset for public registries.
    pub source_username: Option<String>,
    /// Source registry password or access token.
    pub source_password: Option<String>,
}

/// An optional text, as characters.
pub open spec fn opt_text(o: Option<String>) -> Option<Seq<char>> {
    match o {
        Some(s) => Some(s@),
        None => None,
    }
}

/// Where `migrate` copies from: the parsed source reference, and the
/// configuration of a client for its registry with the given credentials.
pub fn migrate_source(params: &MigrateParams) -> (r: (SourceImage, RegistryConfig))
    ensures
        r.0@ == parse_source_spec(params.source@),
        r.1@ == creds_config_spec(
            parse_source_spec(params.source@).base_url,
            opt_text(params.source_username),
            opt_text(params.source_password),
        ),
{
    let img = match parse_source(params.source.as_str()) {
        Ok(img) => img,
        Err(_) => {
            // parse_source accepts every reference.
            assert(false);
            return (
                SourceImage { base_url: String::new(), repository: String::new(), reference: String::new() },
                RegistryConfig::from_creds("", None, None),
            );
        },
    };
    let username = match &params.source_username {
        Some(u) => Some(u.as_str()),
        None => None,
    };
    let password = match &params.source_password {
        Some(p) => Some(p.as_str()),
        None => None,
    };
    let cfg = RegistryConfig::from_creds(img.base_url.as_str(), username, password);
    (img, cfg)
}

/// The message of a completed migration.
pub open spec fn migrated_message(
    repository: Seq<char>,
    tag: Seq<char>,
    manifests: nat,
    copied: nat,
    skipped: nat,
) -> Seq<char> {
    "Migrated to "@ + repository + "/"@ + tag + ". "@ + decimal(manifests) + " manifest(s), "@
        + decimal(copied) + " blob(s) copied, "@ + decimal(skipped) + " already present."@
}

/// The message asking the caller for source credentials.
pub open spec fn auth_required_message() -> Seq<char> {
    "Source registry requires authentication. Retry with source_username and source_password."@
}

/// How `migrate` reports the outcome of a copy: the statistics of a completed
/// copy; a soft failure asking for credentials when the source registry
/// refused access and none were given; any other error, a refusal by the
/// destination registry among them, as a tool error.
pub fn migrate_outcome(params: MigrateParams, result: Result<CopyStats, CopyFailure>) -> (r:
    Result<MigrateOutput, ToolError>)
    ensures
        match result {
            Ok(stats) => r matches Ok(out) && {
                &&& out.source == params.source
                &&& out.target_repository@ == params.target_repository@
                &&& out.target_tag@ == params.target_tag@
                &&& out.digest == stats.final_digest
                &&& out.is_multi_arch == stats.is_multi_arch
                &&& out.manifests_copied == stats.manifests_copied
                &&& out.blobs_copied == stats.blobs_copied
                &&& out.blobs_skipped == stats.blobs_skipped
                &&& !out.requires_auth
                &&& out.message@ == migrated_message(
                    params.target_repository@,
                    params.target_tag@,
                    stats.manifests_copied as nat,
                    stats.blobs_copied as nat,
                    stats.blobs_skipped as nat,
                )
            },
            Err(f) => if f.side == RegistrySide::Source && f.error@ == RegistryFault::Unauthorized
                && params.source_username is None {
                r matches Ok(out) && {
                    &&& out.source == params.source
                    &&& out.target_repository == params.target_repository
                    &&& out.target_tag == params.target_tag
                    &&& out.digest@.len() == 0
                    &&& !out.is_multi_arch
                    &&& out.manifests_copied == 0
                    &&& out.blobs_copied == 0
                    &&& out.blobs_skipped == 0
                    &&& out.requires_auth
                    &&& out.message@ == auth_required_message()
                }
            } else {
                r matches Err(t) && (t.kind, t.message@) == tool_error_for(f.error@)
            },
        },
{
    let has_creds = params.source_username.is_some();
    match result {
        Ok(stats) => {
            let mut m = String::from_str("Migrated to ");
            m.append(params.target_repository.as_str());
            m.append("/");
            m.append(params.target_tag.as_str());
            m.append(". ");
            push_decimal(&mut m, stats.manifests_copied as u64);
            m.append(" manifest(s), ");
            push_decimal(&mut m, stats.blobs_copied as u64);
            m.append(" blob(s) copied, ");
            push_decimal(&mut m, stats.blobs_skipped as u64);
            m.append(" already present.");
            assert(m@ =~= migrated_message(
                params.target_repository@,
                params.target_tag@,
                stats.manifests_copied as nat,
                stats.blobs_copied as nat,
                stats.blobs_skipped as nat,
            ));
            Ok(
                MigrateOutput {
                    source: params.source,
                    target_repository: params.target_repository.clone(),
                    target_tag: params.target_tag.clone(),
                    digest: stats.final_digest,
                    is_multi_arch: stats.is_multi_arch,
                    manifests_copied: stats.manifests_copied,
                    blobs_copied: stats.blobs_copied,
                    blobs_skipped: stats.blobs_skipped,
                    requires_auth: false,
                    message: m,
                },
            )
        },
        Err(f) => {
            let from_source = match f.side {
                RegistrySide::Source => true,
                RegistrySide::Destination => false,
            };
            let unauthorized = match f.error {
                RegistryError::Unauthorized => true,
                _ => false,
            };
            if from_source && unauthorized && !has_creds {
                Ok(
                    MigrateOutput {
                        source: params.source,
                        target_repository: params.target_repository,
                        target_tag: params.target_tag,
                        digest: String::new(),
                        is_multi_arch: false,
                        manifests_copied: 0,
                        blobs_copied: 0,
                        blobs_skipped: 0,
                        requires_auth: true,
                        message: String::from_str(
                            "Source registry requires authentication. Retry with source_username and source_password.",
                        ),
                    },
                )
            } else {
                Err(registry_err(f.error))
            }
        },
    }
}

} // verus!
