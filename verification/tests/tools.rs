use registry_mcp::error::RegistryError;
use registry_mcp::error::GcError;
use registry_mcp::gc::docker::after_container_run;
use registry_mcp::migrate::{
    blob_plan, child_plan, index_plan, CopyAction, CopyFailure, CopyStats, IndexStep, ManifestCopy,
    RegistrySide,
};
use registry_mcp::tools::gc::{gc_result, gc_run, GcRun, RunGcParams};
use registry_mcp::types::GcStrategy;
use registry_mcp::registry::client::{
    manifest_resource, manifest_result, ManifestBody, ManifestResult,
};
use registry_mcp::tools::catalog::{
    effective_cursor, effective_limit, list_repositories_output, list_tags_output, registry_err,
    ToolErrorKind,
};
use registry_mcp::tools::delete::{confirmed, deleted_output, dry_run_output, DeleteTagParams};
use registry_mcp::tools::manifest::{
    manifest_output, tag_page, DiskUsage, GetManifestParams, SizeOverflow,
};
use registry_mcp::tools::migrate::{migrate_outcome, migrate_source, MigrateParams};
use registry_mcp::tools::tag::{
    check_untag_request, tag_manifest_error, tag_manifest_output, TagManifestParams,
    UntagProgress,
};
use registry_mcp::types::{
    CatalogResponse, Descriptor, Platform, RawIndex, RawManifest, TagsResponse,
};

fn desc(digest: &str, size: i64) -> Descriptor {
    Descriptor {
        media_type: "application/vnd.oci.image.layer.v1.tar+gzip".into(),
        digest: digest.into(),
        size,
        platform: None,
    }
}

fn manifest(layers: Vec<Descriptor>) -> RawManifest {
    RawManifest {
        schema_version: 2,
        media_type: "application/vnd.oci.image.manifest.v1+json".into(),
        config: desc("sha256:cfg", 10),
        layers,
    }
}

#[test]
fn limits_and_cursors() {
    assert_eq!(effective_limit(None), 100);
    assert_eq!(effective_limit(Some(0)), 1);
    assert_eq!(effective_limit(Some(5000)), 1000);
    assert_eq!(effective_limit(Some(42)), 42);
    assert_eq!(effective_cursor(None), "");
    assert_eq!(effective_cursor(Some("x".into())), "x");
}

#[test]
fn listing_outputs() {
    let out = list_repositories_output(CatalogResponse {
        repositories: vec!["library/nginx".into(), "myapp/worker".into()],
    });
    assert_eq!(out.next_last, "myapp/worker");
    assert_eq!(out.total_returned, 2);
    let out = list_repositories_output(CatalogResponse { repositories: vec![] });
    assert_eq!(out.next_last, "");
    assert_eq!(out.total_returned, 0);
    let out = list_tags_output("myapp/api".into(), TagsResponse { tags: None });
    assert!(out.tags.is_empty());
    assert_eq!(out.next_last, "");
    let out = list_tags_output(
        "myapp/api".into(),
        TagsResponse { tags: Some(vec!["1.0.0".into(), "stable".into()]) },
    );
    assert_eq!(out.repository, "myapp/api");
    assert_eq!(out.next_last, "stable");
    assert_eq!(out.total_returned, 2);
}

#[test]
fn registry_errors_reach_the_caller() {
    let t = registry_err(RegistryError::NotFound { resource: "/v2/a/manifests/x".into() });
    assert_eq!(t.kind, ToolErrorKind::InvalidParams);
    assert_eq!(t.message, "Not found: /v2/a/manifests/x");
    let t = registry_err(RegistryError::UnexpectedStatus { status: 502, body: "bad".into() });
    assert_eq!(t.kind, ToolErrorKind::Internal);
    assert_eq!(t.message, "Registry returned HTTP 502: bad");
    assert_eq!(registry_err(RegistryError::Forbidden).message, "Access denied by registry");
    assert_eq!(
        registry_err(RegistryError::DeleteNotEnabled).message,
        "Registry does not permit deletions — enable storage.delete in registry config"
    );
    assert_eq!(registry_err(RegistryError::Transport("t".into())).message, "HTTP transport error: t");
    assert_eq!(
        registry_err(RegistryError::InvalidResponse("m".into())).message,
        "Invalid registry response: m"
    );
}

#[test]
fn single_manifest_output() {
    let params = GetManifestParams { repository: "myapp/api".into(), reference: "1.2.0".into() };
    let result = ManifestResult::Single {
        digest: "sha256:d4".into(),
        media_type: "application/vnd.oci.image.manifest.v1+json".into(),
        inner: manifest(vec![desc("sha256:a", 29360128), desc("sha256:b", 23064576)]),
    };
    let out = manifest_output(params, result).unwrap();
    assert_eq!(out.total_size_bytes, 29360128 + 23064576 + 10);
    assert!(!out.is_image_index);
    assert_eq!(out.config.unwrap().digest, "sha256:cfg");
    let layers = out.layers.unwrap();
    assert_eq!(layers.len(), 2);
    assert_eq!(layers[1].size_bytes, 23064576);
    assert!(out.manifests.is_none());
}

#[test]
fn index_manifest_output() {
    let mut child = desc("sha256:amd", 1234);
    child.platform = Some(Platform { architecture: "arm64".into(), os: "linux".into(), variant: Some("v8".into()) });
    let result = ManifestResult::Index {
        digest: "sha256:idx".into(),
        media_type: "application/vnd.docker.distribution.manifest.list.v2+json".into(),
        inner: RawIndex { schema_version: 2, manifests: vec![child, desc("sha256:x", 1)] },
    };
    let out = manifest_output(
        GetManifestParams { repository: "library/nginx".into(), reference: "latest".into() },
        result,
    )
    .unwrap();
    assert!(out.is_image_index);
    assert_eq!(out.total_size_bytes, 1235);
    let ms = out.manifests.unwrap();
    assert_eq!(ms[0].platform.as_ref().unwrap().variant.as_deref(), Some("v8"));
    assert!(out.config.is_none() && out.layers.is_none());
}

#[test]
fn manifest_output_overflow() {
    let result = ManifestResult::Single {
        digest: "d".into(),
        media_type: "m".into(),
        inner: manifest(vec![desc("a", i64::MAX), desc("b", 1)]),
    };
    let r = manifest_output(GetManifestParams { repository: "r".into(), reference: "x".into() }, result);
    assert_eq!(r, Err(SizeOverflow));
}

#[test]
fn disk_usage_counts_shared_blobs_once() {
    let mut usage = DiskUsage::new();
    let m1 = manifest(vec![desc("sha256:base", 100), desc("sha256:app1", 10)]);
    let m2 = manifest(vec![desc("sha256:base", 100), desc("sha256:app2", 20)]);
    usage.record_single("1.0.0".into(), "sha256:aaa".into(), &m1).unwrap();
    usage.record_single("1.1.0".into(), "sha256:bbb".into(), &m2).unwrap();
    usage.record_single("latest".into(), "sha256:bbb".into(), &m2).unwrap();
    usage.skip_tag("gone".into());
    let out = usage.finish("myapp/api".into());
    assert_eq!(out.unique_blob_count, 3);
    assert_eq!(out.unique_size_bytes, 130);
    assert_eq!(out.tags.len(), 3);
    assert_eq!(out.tags[0].total_size_bytes, 110);
    assert_eq!(out.tags[2].layer_count, 2);
    assert_eq!(out.tags[2].total_size_bytes, 120);
    assert_eq!(out.skipped_tags, vec!["gone".to_string()]);
}

#[test]
fn disk_usage_index_children() {
    let mut usage = DiskUsage::new();
    let children = vec![
        Ok(ManifestResult::Single {
            digest: "c1".into(),
            media_type: "m".into(),
            inner: manifest(vec![desc("l1", 5), desc("l2", 6)]),
        }),
        Err(RegistryError::NotFound { resource: "x".into() }),
        Ok(ManifestResult::Index {
            digest: "nested".into(),
            media_type: "m".into(),
            inner: RawIndex { schema_version: 2, manifests: vec![desc("zz", 999)] },
        }),
        Ok(ManifestResult::Single {
            digest: "c2".into(),
            media_type: "m".into(),
            inner: manifest(vec![desc("l1", 5), desc("l3", 7)]),
        }),
    ];
    usage.record_index("latest".into(), "sha256:idx".into(), &children).unwrap();
    let out = usage.finish("library/nginx".into());
    assert_eq!(out.unique_blob_count, 3);
    assert_eq!(out.unique_size_bytes, 18);
    assert_eq!(out.tags[0].layer_count, 4);
    assert_eq!(out.tags[0].total_size_bytes, 23);
}

#[test]
fn disk_usage_overflow_records_nothing() {
    let mut usage = DiskUsage::new();
    let m = manifest(vec![desc("a", i64::MAX), desc("b", 1)]);
    assert_eq!(usage.record_single("t".into(), "d".into(), &m), Err(SizeOverflow));
    let out = usage.finish("r".into());
    assert_eq!(out.unique_blob_count, 0);
    assert!(out.tags.is_empty());
}

#[test]
fn tag_pages() {
    let (tags, next) = tag_page(None);
    assert!(tags.is_empty() && next.is_none());
    let (tags, next) = tag_page(Some(vec!["a".into(), "b".into()]));
    assert_eq!(tags.len(), 2);
    assert!(next.is_none());
    let full: Vec<String> = (0..1000).map(|i| format!("t{i}")).collect();
    let (tags, next) = tag_page(Some(full));
    assert_eq!(tags.len(), 1000);
    assert_eq!(next.unwrap(), "t999");
}

#[test]
fn delete_tag_dry_run_and_confirm() {
    assert!(!confirmed(None));
    assert!(!confirmed(Some(false)));
    assert!(confirmed(Some(true)));
    let p = DeleteTagParams { repository: "myapp/api".into(), tag: "1.0.0".into(), confirm: None };
    let out = dry_run_output(p, "sha256:aaa111".into());
    assert!(!out.deleted);
    assert_eq!(
        out.message,
        "Dry run — set confirm: true to delete manifest sha256:aaa111 (tag: 1.0.0 in myapp/api)"
    );
    let p = DeleteTagParams { repository: "myapp/api".into(), tag: "1.0.0".into(), confirm: Some(true) };
    let out = deleted_output(p, "sha256:aaa111".into());
    assert!(out.deleted);
    assert_eq!(out.message, "Manifest sha256:aaa111 deleted.");
}

#[test]
fn untag_request_limits() {
    let e = check_untag_request(&vec![]).unwrap_err();
    assert_eq!(e.kind, ToolErrorKind::InvalidParams);
    assert_eq!(e.message, "tags must not be empty");
    let many: Vec<String> = (0..21).map(|i| format!("t{i}")).collect();
    assert_eq!(
        check_untag_request(&many).unwrap_err().message,
        "too many tags: 21 requested, maximum is 20"
    );
    let twenty: Vec<String> = (0..20).map(|i| format!("t{i}")).collect();
    assert!(check_untag_request(&twenty).is_ok());
}

#[test]
fn untag_progress_and_summary() {
    let mut p = UntagProgress::new(3);
    let n = p.record_removed("branch-feature-x".into());
    assert_eq!(n.progress, 1);
    assert_eq!(n.total, Some(3));
    assert_eq!(n.message, "Removed 'branch-feature-x' (1/3)");
    p.record_removed("branch-feature-y".into());
    let n = p.record_failed(
        "pr-42".into(),
        &RegistryError::NotFound { resource: manifest_resource("myapp/api", "pr-42") },
    );
    assert_eq!(n.progress, 3);
    assert_eq!(n.message, "Failed 'pr-42': not found: myapp/api:pr-42 (3/3)");
    let out = p.finish("myapp/api".into());
    assert_eq!(out.removed, vec!["branch-feature-x".to_string(), "branch-feature-y".into()]);
    assert_eq!(out.failed[0].tag, "pr-42");
    assert_eq!(out.failed[0].error, "not found: myapp/api:pr-42");
    assert_eq!(out.message, "2 tag(s) removed, 1 failed from myapp/api.");

    let mut p = UntagProgress::new(3);
    for t in ["a", "b", "c"] {
        p.record_removed(t.into());
    }
    assert_eq!(p.finish("myapp/api".into()).message, "3 tag(s) removed from myapp/api.");

    let mut p = UntagProgress::new(1);
    p.record_failed("a".into(), &RegistryError::Forbidden);
    assert_eq!(p.finish("r".into()).message, "All 1 tag(s) failed to remove from r.");
}

#[test]
fn tag_manifest_digest_fallback() {
    let params = || TagManifestParams {
        repository: "myapp/api".into(),
        source: "1.2.0".into(),
        new_tag: "stable".into(),
    };
    let out = tag_manifest_output(params(), "sha256:get".into(), String::new());
    assert_eq!(out.digest, "sha256:get");
    assert_eq!(out.message, "Tag 'stable' created pointing to sha256:get.");
    let out = tag_manifest_output(params(), "sha256:get".into(), "sha256:put".into());
    assert_eq!(out.digest, "sha256:put");
    let e = tag_manifest_error(&RegistryError::Forbidden);
    assert_eq!(e.kind, ToolErrorKind::Internal);
    assert_eq!(e.message, "access denied by registry");
}

fn migrate_params(user: Option<&str>) -> MigrateParams {
    MigrateParams {
        source: "nginx:1.25-alpine".into(),
        target_repository: "mirrors/nginx".into(),
        target_tag: "1.25-alpine".into(),
        source_username: user.map(String::from),
        source_password: user.map(|_| "secret".to_string()),
    }
}

#[test]
fn migrate_source_client() {
    let (img, cfg) = migrate_source(&migrate_params(Some("robot")));
    assert_eq!(img.repository, "library/nginx");
    assert_eq!(img.reference, "1.25-alpine");
    assert_eq!(cfg.base_url, "https://registry-1.docker.io");
    assert_eq!(cfg.username, "robot");
    assert_eq!(cfg.password, "secret");
    assert!(cfg.bearer_token.is_empty());
    let (_, cfg) = migrate_source(&migrate_params(None));
    assert!(cfg.username.is_empty() && cfg.password.is_empty());
}

#[test]
fn migrate_reports() {
    let stats = CopyStats {
        is_multi_arch: true,
        manifests_copied: 16,
        blobs_copied: 26,
        blobs_skipped: 0,
        final_digest: "sha256:4724b8".into(),
    };
    let out = migrate_outcome(migrate_params(None), Ok(stats)).unwrap();
    assert_eq!(
        out.message,
        "Migrated to mirrors/nginx/1.25-alpine. 16 manifest(s), 26 blob(s) copied, 0 already present."
    );
    assert!(!out.requires_auth);
    let src_401 = || CopyFailure { side: RegistrySide::Source, error: RegistryError::Unauthorized };
    let out = migrate_outcome(migrate_params(None), Err(src_401())).unwrap();
    assert!(out.requires_auth);
    assert_eq!(out.blobs_copied, 0);
    assert_eq!(
        out.message,
        "Source registry requires authentication. Retry with source_username and source_password."
    );
    let e = migrate_outcome(migrate_params(Some("u")), Err(src_401())).unwrap_err();
    assert_eq!(e.message, "Registry authentication failed — check credentials");
    let dst_401 = CopyFailure { side: RegistrySide::Destination, error: RegistryError::Unauthorized };
    let e = migrate_outcome(migrate_params(None), Err(dst_401)).unwrap_err();
    assert_eq!(e.message, "Registry authentication failed — check credentials");
    let forbidden = CopyFailure { side: RegistrySide::Source, error: RegistryError::Forbidden };
    let e = migrate_outcome(migrate_params(None), Err(forbidden)).unwrap_err();
    assert_eq!(e.kind, ToolErrorKind::Internal);
}

#[test]
fn copy_stats_bookkeeping() {
    let mut s = CopyStats::start("application/vnd.oci.image.index.v1+json", "sha256:src".into());
    assert!(s.is_multi_arch);
    s.blobs_copied = 1;
    s.blobs_skipped = 1;
    s.record_manifest();
    s.record_index_pushed(String::new());
    assert_eq!(s.final_digest, "sha256:src");
    assert_eq!((s.manifests_copied, s.blobs_copied, s.blobs_skipped), (2, 1, 1));
    s.record_index_pushed("sha256:dst".into());
    assert_eq!(s.final_digest, "sha256:dst");

    let again = CopyStats::start("application/vnd.oci.image.manifest.v1+json", "d".into());
    assert!(!again.is_multi_arch);
}

#[test]
fn copy_plans() {
    let m = manifest(vec![desc("l1", 1), desc("l2", 2)]);
    assert_eq!(blob_plan(&m), vec!["sha256:cfg".to_string(), "l1".into(), "l2".into()]);
    let idx = RawIndex { schema_version: 2, manifests: vec![desc("c1", 1), desc("c2", 1)] };
    assert_eq!(child_plan(&idx), vec!["c1".to_string(), "c2".into()]);
}

#[test]
fn disk_usage_run_counts_shared_blobs_once() {
    let mut d = DiskUsage::new();
    let m = manifest(vec![desc("l1", 5), desc("l2", 7)]);
    d.record_single("a".into(), "sha256:a".into(), &m).unwrap();
    d.skip_tag("broken".into());
    let m2 = manifest(vec![desc("l2", 7), desc("l3", 1)]);
    d.record_single("b".into(), "sha256:b".into(), &m2).unwrap();
    let out = d.finish("repo".into());
    assert_eq!(out.unique_blob_count, 3);
    assert_eq!(out.unique_size_bytes, 13);
    let listed: Vec<&str> = out.tags.iter().map(|t| t.tag.as_str()).collect();
    assert_eq!(listed, vec!["a", "b"]);
    assert_eq!(out.tags[1].total_size_bytes, 8);
    assert_eq!(out.skipped_tags, vec!["broken".to_string()]);
}

#[test]
fn manifest_copy_requests_in_order() {
    let m = manifest(vec![desc("l1", 1), desc("l2", 2)]);
    let mut s = CopyStats::start("application/vnd.oci.image.manifest.v1+json", "d".into());
    let mut c = ManifestCopy::new(&m, "v1".into());
    assert_eq!(c.next(), CopyAction::CheckBlob("sha256:cfg".into()));
    c.on_presence(true, &mut s);
    assert_eq!(c.next(), CopyAction::CheckBlob("l1".into()));
    c.on_presence(false, &mut s);
    assert_eq!(c.next(), CopyAction::TransferBlob("l1".into()));
    c.on_transfer(Ok(()), &mut s).unwrap();
    assert_eq!(c.next(), CopyAction::CheckBlob("l2".into()));
    c.on_presence(false, &mut s);
    let failure = CopyFailure { side: RegistrySide::Source, error: RegistryError::Forbidden };
    assert!(c.on_transfer(Err(failure), &mut s).is_err());
    assert_eq!((s.blobs_copied, s.blobs_skipped), (1, 1));
    assert_eq!(c.next(), CopyAction::TransferBlob("l2".into()));
    c.on_transfer(Ok(()), &mut s).unwrap();
    assert_eq!(c.next(), CopyAction::PutManifest("v1".into()));
    c.on_put(&mut s);
    assert_eq!(c.next(), CopyAction::Done);
    assert_eq!((s.manifests_copied, s.blobs_copied, s.blobs_skipped), (1, 2, 1));
}

#[test]
fn index_children_before_index() {
    let idx = RawIndex { schema_version: 2, manifests: vec![desc("c1", 1), desc("c2", 1)] };
    assert_eq!(
        index_plan(&idx, "latest"),
        vec![
            IndexStep::CopyChild("c1".into()),
            IndexStep::CopyChild("c2".into()),
            IndexStep::PutIndex("latest".into()),
        ]
    );
}

#[test]
fn gc_dispatch_and_errors() {
    let defaults = RunGcParams { dry_run: None, delete_untagged: None };
    assert_eq!(
        gc_run(GcStrategy::Script, &defaults),
        GcRun::Script { dry_run: true, delete_untagged: true }
    );
    let real = RunGcParams { dry_run: Some(false), delete_untagged: None };
    assert_eq!(
        gc_run(GcStrategy::Docker, &real),
        GcRun::Docker { dry_run: false, delete_untagged: true }
    );
    match gc_run(GcStrategy::Unavailable, &defaults) {
        GcRun::Answer(out) => {
            assert_eq!(out.strategy, GcStrategy::Unavailable);
            assert!(out.dry_run);
            assert_eq!(out.exit_code, None);
        }
        other => panic!("unexpected {other:?}"),
    }
    let e = gc_result(Err(GcError::ScriptNotFound("/gc.sh".into()))).unwrap_err();
    assert_eq!(e.kind, ToolErrorKind::Internal);
    assert_eq!(e.message, "GC script not found: /gc.sh");
    let cleanup = after_container_run("c1".into(), Err(GcError::Docker("boom".into())));
    assert_eq!(cleanup.remove, "c1");
    assert_eq!(cleanup.answer, Err(GcError::Docker("boom".into())));
}

#[test]
fn manifest_result_media_types() {
    let m = manifest(vec![desc("l1", 1)]);
    match manifest_result("sha256:d".into(), String::new(), ManifestBody::Single(m)) {
        ManifestResult::Single { digest, media_type, .. } => {
            assert_eq!(digest, "sha256:d");
            assert_eq!(media_type, "application/vnd.oci.image.manifest.v1+json");
        }
        _ => panic!("expected a single manifest"),
    }
    let idx = RawIndex { schema_version: 2, manifests: vec![desc("c1", 1)] };
    let ct = "application/vnd.oci.image.index.v1+json".to_string();
    match manifest_result("sha256:i".into(), ct.clone(), ManifestBody::Index(idx)) {
        ManifestResult::Index { media_type, inner, .. } => {
            assert_eq!(media_type, ct);
            assert_eq!(inner.manifests.len(), 1);
        }
        _ => panic!("expected an index"),
    }
}
