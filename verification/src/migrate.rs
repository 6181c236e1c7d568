//! Image references and the bookkeeping of copying an image between registries.
use vstd::prelude::*;

use crate::error::RegistryError;
use crate::registry::client::{is_index_media_type, is_index_media_type_spec};
use crate::text::{chars_of, contains_between, find_in, range_equals, rfind_before, substring};
use crate::types::{RawIndex, RawManifest};

verus! {

// ── Source image reference parsing ───────────────────────────────────────────

/// Parsed components of a source image reference such as
/// `docker.io/library/nginx:latest` or `registry.example.com:5000/myimage:v1`.
#[derive(Debug, PartialEq, Eq)]
pub struct SourceImage {
    /// Registry base URL, e.g. `https://registry-1.docker.io`
    pub base_url: String,
    /// Repository path within the registry, e.g. `library/nginx`
    pub repository: String,
    /// Tag or digest, e.g. `latest` or `sha256:abc…`
    pub reference: String,
}

/// The components of a parsed reference, as character sequences.
pub struct SourceImageView {
    pub base_url: Seq<char>,
    pub repository: Seq<char>,
    pub reference: Seq<char>,
}

impl View for SourceImage {
    type V = SourceImageView;

    open spec fn view(&self) -> SourceImageView {
        SourceImageView {
            base_url: self.base_url@,
            repository: self.repository@,
            reference: self.reference@,
        }
    }
}

/// A first path component names a registry host when it has a dot or a
/// port, or is `localhost`.
pub open spec fn registry_component(s: Seq<char>) -> bool {
    s.contains('.') || s.contains(':') || s == "localhost"@
}

/// The reference without its `@digest` suffix, and the digest if there is one.
/// The digest starts after the first `@`.
pub open spec fn split_digest(src: Seq<char>) -> (Seq<char>, Option<Seq<char>>) {
    match src.index_of_first('@') {
        Some(p) => (src.take(p), Some(src.skip(p + 1))),
        None => (src, None),
    }
}

/// The name without its `:tag` suffix, and the tag if there is one. The tag
/// follows the last `:`, unless a `/` comes after that colon (it is then a
/// registry port).
pub open spec fn split_tag(s: Seq<char>) -> (Seq<char>, Option<Seq<char>>) {
    match s.index_of_last(':') {
        Some(p) => if !s.skip(p + 1).contains('/') {
            (s.take(p), Some(s.skip(p + 1)))
        } else {
            (s, None)
        },
        None => (s, None),
    }
}

/// Registry host and repository of a name. Without a registry component the
/// image lives on Docker Hub, and a name without any `/` gets `library/`.
pub open spec fn split_registry(name: Seq<char>) -> (Seq<char>, Seq<char>) {
    match name.index_of_first('/') {
        Some(s) => if registry_component(name.take(s)) {
            (name.take(s), name.skip(s + 1))
        } else {
            ("docker.io"@, name)
        },
        None => ("docker.io"@, "library/"@ + name),
    }
}

/// The HTTPS base URL of a registry host; Docker Hub is served from
/// `registry-1.docker.io`.
pub open spec fn registry_base_url(registry: Seq<char>) -> Seq<char> {
    if registry == "docker.io"@ {
        "https://registry-1.docker.io"@
    } else {
        "https://"@ + registry
    }
}

/// What an image reference denotes: the digest if pinned, else the tag,
/// else `latest`.
pub open spec fn parse_source_spec(src: Seq<char>) -> SourceImageView {
    let (without_digest, digest) = split_digest(src);
    let (name, tag) = split_tag(without_digest);
    let reference = match digest {
        Some(d) => d,
        None => match tag {
            Some(t) => t,
            None => "latest"@,
        },
    };
    let (registry, repository) = split_registry(name);
    SourceImageView { base_url: registry_base_url(registry), repository, reference }
}

/// Every parsed reference names an HTTPS registry.
pub proof fn law_source_registry_is_https(src: Seq<char>)
    ensures
        "https://"@.is_prefix_of(parse_source_spec(src).base_url),
{
    let (name, _) = split_tag(split_digest(src).0);
    let registry = split_registry(name).0;
    if registry == "docker.io"@ {
        reveal_strlit("https://");
        reveal_strlit("https://registry-1.docker.io");
    } else {
        assert(("https://"@ + registry).take("https://"@.len() as int) =~= "https://"@);
    }
}

/// A Docker Hub name with a tag, `name:tag`, where neither holds `:`, `/` or
/// `@`, names the official image `library/name` on Docker Hub at that tag,
/// whatever characters the tag holds (a tag of digits is no port).
pub proof fn law_docker_hub_name_and_tag(name: Seq<char>, tag: Seq<char>)
    requires
        !name.contains(':') && !name.contains('/') && !name.contains('@'),
        !tag.contains(':') && !tag.contains('/') && !tag.contains('@'),
    ensures
        parse_source_spec(name + ":"@ + tag).base_url == "https://registry-1.docker.io"@,
        parse_source_spec(name + ":"@ + tag).repository == "library/"@ + name,
        parse_source_spec(name + ":"@ + tag).reference == tag,
{
    reveal_strlit(":");
    let s = name + ":"@ + tag;
    let n = name.len() as int;
    assert(s[n] == ':');
    assert forall|j: int| 0 <= j < s.len() implies s[j] != '@' by {
        if j < n {
            assert(s[j] == name[j]);
        } else if j > n {
            assert(s[j] == tag[j - n - 1]);
        }
    }
    s.index_of_first_ensures('@');
    assert(split_digest(s).0 == s);
    assert(split_digest(s).1 is None);
    s.index_of_last_ensures(':');
    assert(s.contains(':'));
    let p = s.index_of_last(':').unwrap();
    if p < n {
        assert(s[p] == name[p]);
    }
    if p > n {
        assert(s[p] == tag[p - n - 1]);
    }
    assert(p == n);
    assert(s.skip(p + 1) =~= tag);
    assert(s.take(p) =~= name);
    assert(split_tag(s) == (name, Some(tag)));
    name.index_of_first_ensures('/');
    assert(split_registry(name) == ("docker.io"@, "library/"@ + name));
}

/// Whether the first component of an image name denotes a registry host.
pub fn is_registry_component(s: &str) -> (b: bool)
    ensures
        b == registry_component(s@),
{
    let v = chars_of(s);
    let localhost = chars_of("localhost");
    assert(v@.subrange(0, v@.len() as int) =~= v@);
    contains_between(&v, 0, v.len(), '.') || contains_between(&v, 0, v.len(), ':')
        || range_equals(&v, 0, v.len(), &localhost)
}

/// Parse a Docker/OCI image reference into its components.
///
/// Supported forms:
/// - `nginx` → Docker Hub `library/nginx:latest`
/// - `myorg/myimage:v1` → Docker Hub `myorg/myimage:v1`
/// - `docker.io/library/nginx:latest` → Docker Hub `library/nginx:latest`
/// - `registry.example.com/repo:tag` → explicit registry
/// - `registry.example.com:5000/repo:tag` → explicit registry with port
/// - `image@sha256:abc…` → pinned by digest
pub fn parse_source(source: &str) -> (r: Result<SourceImage, String>)
    ensures
        r matches Ok(img) && img@ == parse_source_spec(source@),
{
    let v = chars_of(source);
    let n = v.len();
    let ghost src = source@;
    assert(src.subrange(0, n as int) =~= src);

    // Strip the digest (`@sha256:...`).
    let at = find_in(&v, 0, n, '@');
    let end = match at {
        Some(p) => p,
        None => n,
    };
    let ghost (without_digest, digest) = split_digest(src);
    assert(without_digest =~= src.take(end as int));

    // Strip the tag: the last `:` not followed by a `/`.
    let colon = rfind_before(&v, end, ':');
    let (name_end, tag_at) = match colon {
        Some(p) => {
            if !contains_between(&v, p + 1, end, '/') {
                (p, Some(p + 1))
            } else {
                (end, None)
            }
        },
        None => (end, None),
    };
    let ghost (name, tag) = split_tag(without_digest);
    proof {
        if let Some(p) = colon {
            assert(without_digest.skip(p + 1) =~= src.subrange(p + 1, end as int));
        }
    }
    assert(name =~= src.take(name_end as int));

    let reference = match at {
        Some(p) => substring(source, p + 1, n),
        None => match tag_at {
            Some(t) => substring(source, t, end),
            None => String::from_str("latest"),
        },
    };
    proof {
        if let Some(p) = at {
            assert(src.skip(p + 1) =~= src.subrange(p + 1, n as int));
        }
        if let Some(t) = tag_at {
            assert(without_digest.skip(t as int) =~= src.subrange(t as int, end as int));
        }
    }

    // Split the name into registry and repository.
    let docker_io = chars_of("docker.io");
    let slash = find_in(&v, 0, name_end, '/');
    let ghost (registry, repository_spec) = split_registry(name);
    assert(src.subrange(0, name_end as int) =~= name);
    let (registry_is_hub, registry_end, repository) = match slash {
        Some(s) => {
            let first = substring(source, 0, s);
            assert(first@ =~= name.take(s as int));
            if is_registry_component(first.as_str()) {
                let repo = substring(source, s + 1, name_end);
                assert(repo@ =~= name.skip(s + 1));
                (range_equals(&v, 0, s, &docker_io), s, repo)
            } else {
                (true, 0, substring(source, 0, name_end))
            }
        },
        None => {
            let mut repo = String::from_str("library/");
            repo.append(substring(source, 0, name_end).as_str());
            (true, 0, repo)
        },
    };
    assert(registry_is_hub == (registry == "docker.io"@));

    let base_url = if registry_is_hub {
        String::from_str("https://registry-1.docker.io")
    } else {
        let mut url = String::from_str("https://");
        url.append(substring(source, 0, registry_end).as_str());
        url
    };
    let img = SourceImage { base_url, repository, reference };
    assert(img@.base_url =~= parse_source_spec(src).base_url);
    assert(img@.repository =~= parse_source_spec(src).repository);
    assert(img@.reference =~= parse_source_spec(src).reference);
    Ok(img)
}

// ── Copy statistics ───────────────────────────────────────────────────────────

/// The registry that a copy request went to.
#[derive(Debug, PartialEq, Eq, Clone, Copy)]
pub enum RegistrySide {
    /// The registry the image is copied from.
    Source,
    /// The registry the image is copied into.
    Destination,
}

/// Why a copy stopped: which registry failed, and how.
#[derive(Debug, PartialEq, Eq)]
pub struct CopyFailure {
    pub side: RegistrySide,
    pub error: RegistryError,
}

/// What a copy has done so far.
#[derive(Debug, PartialEq, Eq)]
pub struct CopyStats {
    pub is_multi_arch: bool,
    pub manifests_copied: usize,
    pub blobs_copied: usize,
    pub blobs_skipped: usize,
    pub final_digest: String,
}

/// The counters of a copy, as plain values.
pub struct CopyCounts {
    pub manifests_copied: nat,
    pub blobs_copied: nat,
    pub blobs_skipped: nat,
}

impl CopyStats {
    /// The counters.
    pub open spec fn counts(self) -> CopyCounts {
        CopyCounts {
            manifests_copied: self.manifests_copied as nat,
            blobs_copied: self.blobs_copied as nat,
            blobs_skipped: self.blobs_skipped as nat,
        }
    }

    /// The start of a copy of a source manifest fetched with the given content
    /// type and digest: it is multi-arch when the content type is an index,
    /// nothing is copied yet, and the digest is the source's until the pushed
    /// index reports another.
    pub fn start(content_type: &str, digest: String) -> (s: CopyStats)
        ensures
            s.is_multi_arch == is_index_media_type_spec(content_type@),
            s.manifests_copied == 0,
            s.blobs_copied == 0,
            s.blobs_skipped == 0,
            s.final_digest == digest,
    {
        CopyStats {
            is_multi_arch: is_index_media_type(content_type),
            manifests_copied: 0,
            blobs_copied: 0,
            blobs_skipped: 0,
            final_digest: digest,
        }
    }

    /// Records a manifest pushed to the destination.
    pub fn record_manifest(&mut self)
        requires
            old(self).manifests_copied < usize::MAX,
        ensures
            final(self).manifests_copied == old(self).manifests_copied + 1,
            final(self).blobs_copied == old(self).blobs_copied,
            final(self).blobs_skipped == old(self).blobs_skipped,
            final(self).is_multi_arch == old(self).is_multi_arch,
            final(self).final_digest == old(self).final_digest,
    {
        self.manifests_copied = self.manifests_copied + 1;
    }

    /// Records the index manifest pushed under the target tag: the digest the
    /// registry reported replaces the source digest unless it is empty.
    pub fn record_index_pushed(&mut self, returned_digest: String)
        requires
            old(self).manifests_copied < usize::MAX,
        ensures
            final(self).manifests_copied == old(self).manifests_copied + 1,
            final(self).blobs_copied == old(self).blobs_copied,
            final(self).blobs_skipped == old(self).blobs_skipped,
            final(self).is_multi_arch == old(self).is_multi_arch,
            final(self).final_digest@ == if returned_digest@.len() == 0 {
                old(self).final_digest@
            } else {
                returned_digest@
            },
    {
        if returned_digest.as_str().unicode_len() > 0 {
            self.final_digest = returned_digest;
        }
        self.manifests_copied = self.manifests_copied + 1;
    }
}

/// The counters after one blob: a present blob is skipped, any other copied.
pub open spec fn blob_step(c: CopyCounts, present: bool) -> CopyCounts {
    if present {
        CopyCounts { blobs_skipped: c.blobs_skipped + 1, ..c }
    } else {
        CopyCounts { blobs_copied: c.blobs_copied + 1, ..c }
    }
}

/// The counters after a sequence of blobs, by whether each was present.
pub open spec fn blob_steps(c: CopyCounts, present: Seq<bool>) -> CopyCounts
    decreases present.len(),
{
    if present.len() == 0 {
        c
    } else {
        blob_step(blob_steps(c, present.drop_last()), present.last())
    }
}

/// Every blob visited is counted once, as copied or as skipped.
pub proof fn law_every_blob_counted_once(c: CopyCounts, present: Seq<bool>)
    ensures
        blob_steps(c, present).blobs_copied + blob_steps(c, present).blobs_skipped
            == c.blobs_copied + c.blobs_skipped + present.len(),
        blob_steps(c, present).manifests_copied == c.manifests_copied,
    decreases present.len(),
{
    if present.len() > 0 {
        law_every_blob_counted_once(c, present.drop_last());
    }
}

/// Copying again when every blob is already at the destination transfers
/// nothing: re-running a migration is safe.
pub proof fn law_rerun_copies_no_blob(c: CopyCounts, present: Seq<bool>)
    requires
        forall|i: int| 0 <= i < present.len() ==> #[trigger] present[i],
    ensures
        blob_steps(c, present).blobs_copied == c.blobs_copied,
        blob_steps(c, present).blobs_skipped == c.blobs_skipped + present.len(),
    decreases present.len(),
{
    if present.len() > 0 {
        assert forall|i: int| 0 <= i < present.drop_last().len() implies #[trigger] present.drop_last()[i] by {
            assert(present.drop_last()[i] == present[i]);
        }
        law_rerun_copies_no_blob(c, present.drop_last());
        assert(present[present.len() - 1]);
    }
}

/// How many blobs of a manifest were already present at the destination.
pub open spec fn count_present(present: Seq<bool>) -> nat
    decreases present.len(),
{
    if present.len() == 0 {
        0
    } else {
        count_present(present.drop_last()) + if present.last() {
            1nat
        } else {
            0nat
        }
    }
}

/// The counters after copying one single-platform manifest: each of its
/// blobs, by whether it was present, then the manifest itself.
pub open spec fn manifest_copy(c: CopyCounts, present: Seq<bool>) -> CopyCounts {
    let b = blob_steps(c, present);
    CopyCounts { manifests_copied: b.manifests_copied + 1, ..b }
}

/// The counters after copying some single-platform manifests, in order.
pub open spec fn manifests_copy(c: CopyCounts, ms: Seq<Seq<bool>>) -> CopyCounts
    decreases ms.len(),
{
    if ms.len() == 0 {
        c
    } else {
        manifest_copy(manifests_copy(c, ms.drop_last()), ms.last())
    }
}

/// The counters of a whole copy: the single-platform manifests, in order
/// (an image's own manifest, or each child of an index), then, for an
/// index, the index itself.
pub open spec fn image_copy(multi_arch: bool, ms: Seq<Seq<bool>>) -> CopyCounts {
    let c = manifests_copy(CopyCounts { manifests_copied: 0, blobs_copied: 0, blobs_skipped: 0 }, ms);
    if multi_arch {
        CopyCounts { manifests_copied: c.manifests_copied + 1, ..c }
    } else {
        c
    }
}

/// The blobs of some manifests.
pub open spec fn blob_total(ms: Seq<Seq<bool>>) -> nat
    decreases ms.len(),
{
    if ms.len() == 0 {
        0
    } else {
        blob_total(ms.drop_last()) + ms.last().len()
    }
}

/// The blobs of some manifests already present at the destination.
pub open spec fn present_total(ms: Seq<Seq<bool>>) -> nat
    decreases ms.len(),
{
    if ms.len() == 0 {
        0
    } else {
        present_total(ms.drop_last()) + count_present(ms.last())
    }
}

proof fn lemma_blob_steps_counts(c: CopyCounts, present: Seq<bool>)
    ensures
        blob_steps(c, present).blobs_skipped == c.blobs_skipped + count_present(present),
        blob_steps(c, present).blobs_copied + count_present(present) == c.blobs_copied
            + present.len(),
        blob_steps(c, present).manifests_copied == c.manifests_copied,
    decreases present.len(),
{
    if present.len() > 0 {
        lemma_blob_steps_counts(c, present.drop_last());
    }
}

proof fn lemma_manifests_copy_counts(c: CopyCounts, ms: Seq<Seq<bool>>)
    ensures
        manifests_copy(c, ms).manifests_copied == c.manifests_copied + ms.len(),
        manifests_copy(c, ms).blobs_skipped == c.blobs_skipped + present_total(ms),
        manifests_copy(c, ms).blobs_copied + present_total(ms) == c.blobs_copied + blob_total(ms),
    decreases ms.len(),
{
    if ms.len() > 0 {
        lemma_manifests_copy_counts(c, ms.drop_last());
        lemma_blob_steps_counts(manifests_copy(c, ms.drop_last()), ms.last());
    }
}

/// Over a whole copy: one manifest is counted per single-platform manifest
/// pushed, plus one for an index; every blob of every manifest is counted
/// once, as skipped when the destination had it and as copied otherwise.
pub proof fn law_copy_counts(multi_arch: bool, ms: Seq<Seq<bool>>)
    ensures
        image_copy(multi_arch, ms).manifests_copied == ms.len() + if multi_arch {
            1nat
        } else {
            0nat
        },
        image_copy(multi_arch, ms).blobs_skipped == present_total(ms),
        image_copy(multi_arch, ms).blobs_copied == blob_total(ms) - present_total(ms),
        image_copy(multi_arch, ms).blobs_copied + image_copy(multi_arch, ms).blobs_skipped
            == blob_total(ms),
{
    lemma_manifests_copy_counts(
        CopyCounts { manifests_copied: 0, blobs_copied: 0, blobs_skipped: 0 },
        ms,
    );
}

// ── Copying one single-platform manifest ────────────────────────────────────

/// The next request of a manifest copy.
#[derive(Debug, PartialEq, Eq)]
pub enum CopyAction {
    /// Ask the destination whether it has this blob.
    CheckBlob(String),
    /// Fetch this blob from the source and push it to the destination.
    TransferBlob(String),
    /// Put the manifest under this reference at the destination.
    PutManifest(String),
    /// The manifest is copied.
    Done,
}

/// A request of a manifest copy, as plain values.
pub enum CopyActionView {
    CheckBlob(Seq<char>),
    TransferBlob(Seq<char>),
    PutManifest(Seq<char>),
    Done,
}

impl View for CopyAction {
    type V = CopyActionView;

    open spec fn view(&self) -> CopyActionView {
        match self {
            CopyAction::CheckBlob(d) => CopyActionView::CheckBlob(d@),
            CopyAction::TransferBlob(d) => CopyActionView::TransferBlob(d@),
            CopyAction::PutManifest(r) => CopyActionView::PutManifest(r@),
            CopyAction::Done => CopyActionView::Done,
        }
    }
}

/// Where a copy of one single-platform manifest stands: its blobs in the
/// order they are copied, the reference it is put under, how many blobs
/// are done, whether the current blob is being transferred, and whether
/// the manifest was put.
pub struct ManifestCopy {
    blobs: Vec<String>,
    reference: String,
    pos: usize,
    transferring: bool,
    put: bool,
}

/// A manifest copy, as plain values.
pub struct ManifestCopyView {
    pub blobs: Seq<Seq<char>>,
    pub reference: Seq<char>,
    pub pos: nat,
    pub transferring: bool,
    pub put: bool,
}

impl View for ManifestCopy {
    type V = ManifestCopyView;

    closed spec fn view(&self) -> ManifestCopyView {
        ManifestCopyView {
            blobs: self.blobs@.map_values(|d: String| d@),
            reference: self.reference@,
            pos: self.pos as nat,
            transferring: self.transferring,
            put: self.put,
        }
    }
}

/// A consistent manifest copy.
pub open spec fn copy_wf(v: ManifestCopyView) -> bool {
    &&& v.pos <= v.blobs.len()
    &&& v.transferring ==> v.pos < v.blobs.len()
    &&& v.put ==> v.pos == v.blobs.len() && !v.transferring
}

/// The start of a copy: no blob done.
pub open spec fn copy_start(blobs: Seq<Seq<char>>, reference: Seq<char>) -> ManifestCopyView {
    ManifestCopyView { blobs, reference, pos: 0, transferring: false, put: false }
}

/// The next request: the current blob's transfer when one was decided, else
/// the check of the next blob, else, once every blob is done, the put of the
/// manifest; nothing once it is put.
pub open spec fn copy_next(v: ManifestCopyView) -> CopyActionView {
    if v.put {
        CopyActionView::Done
    } else if v.transferring {
        CopyActionView::TransferBlob(v.blobs[v.pos as int])
    } else if v.pos < v.blobs.len() {
        CopyActionView::CheckBlob(v.blobs[v.pos as int])
    } else {
        CopyActionView::PutManifest(v.reference)
    }
}

/// After the destination said whether it has the current blob: a present
/// blob is done (skipped); a missing one is to be transferred.
pub open spec fn after_presence(v: ManifestCopyView, present: bool) -> ManifestCopyView {
    if present {
        ManifestCopyView { pos: v.pos + 1, ..v }
    } else {
        ManifestCopyView { transferring: true, ..v }
    }
}

/// After the current blob was transferred: it is done.
pub open spec fn after_transfer(v: ManifestCopyView) -> ManifestCopyView {
    ManifestCopyView { pos: v.pos + 1, transferring: false, ..v }
}

/// After the manifest was put.
pub open spec fn after_put(v: ManifestCopyView) -> ManifestCopyView {
    ManifestCopyView { put: true, ..v }
}

impl ManifestCopy {
    /// The copy of a manifest's blobs (config first, then the layers), to be
    /// put under `reference`.
    pub fn new(manifest: &RawManifest, reference: String) -> (m: ManifestCopy)
        ensures
            m@ == copy_start(blob_plan_spec(*manifest), reference@),
    {
        let blobs = blob_plan(manifest);
        ManifestCopy { blobs, reference, pos: 0, transferring: false, put: false }
    }

    /// Whether the copy is consistent.
    pub open spec fn wf(&self) -> bool {
        copy_wf(self@)
    }

    /// The next request.
    pub fn next(&self) -> (a: CopyAction)
        requires
            self.wf(),
        ensures
            a@ == copy_next(self@),
    {
        if self.put {
            CopyAction::Done
        } else if self.transferring {
            CopyAction::TransferBlob(self.blobs[self.pos].clone())
        } else if self.pos < self.blobs.len() {
            CopyAction::CheckBlob(self.blobs[self.pos].clone())
        } else {
            CopyAction::PutManifest(self.reference.clone())
        }
    }

    /// Takes the destination's answer on the checked blob: a present blob is
    /// counted as skipped and nothing is fetched or pushed for it; a missing
    /// one is to be transferred next, and counts nothing yet.
    pub fn on_presence(&mut self, present: bool, stats: &mut CopyStats)
        requires
            old(self).wf(),
            copy_next(old(self)@) is CheckBlob,
            old(stats).blobs_skipped < usize::MAX,
        ensures
            final(self).wf(),
            final(self)@ == after_presence(old(self)@, present),
            present ==> final(stats).counts() == blob_step(old(stats).counts(), true),
            !present ==> final(stats).counts() == old(stats).counts(),
            final(stats).is_multi_arch == old(stats).is_multi_arch,
            final(stats).final_digest == old(stats).final_digest,
    {
        let n = self.blobs.len();
        assert(self@.blobs.len() == n);
        assert(self.pos < n);
        if present {
            self.pos = self.pos + 1;
            stats.blobs_skipped = stats.blobs_skipped + 1;
        } else {
            self.transferring = true;
        }
    }

    /// Takes the outcome of transferring the current blob: a success counts
    /// it as copied and moves on; a failure stops the copy with its error,
    /// counting nothing.
    pub fn on_transfer(&mut self, result: Result<(), CopyFailure>, stats: &mut CopyStats) -> (r:
        Result<(), CopyFailure>)
        requires
            old(self).wf(),
            copy_next(old(self)@) is TransferBlob,
            old(stats).blobs_copied < usize::MAX,
        ensures
            final(self).wf(),
            r == result,
            result is Ok ==> final(self)@ == after_transfer(old(self)@) && final(stats).counts()
                == blob_step(old(stats).counts(), false),
            result is Err ==> final(self)@ == old(self)@ && final(stats).counts() == old(
                stats,
            ).counts(),
            final(stats).is_multi_arch == old(stats).is_multi_arch,
            final(stats).final_digest == old(stats).final_digest,
    {
        let n = self.blobs.len();
        assert(self@.blobs.len() == n);
        assert(self.pos < n);
        if result.is_ok() {
            self.pos = self.pos + 1;
            self.transferring = false;
            stats.blobs_copied = stats.blobs_copied + 1;
        }
        result
    }

    /// Takes the success of putting the manifest: it counts as copied.
    pub fn on_put(&mut self, stats: &mut CopyStats)
        requires
            old(self).wf(),
            copy_next(old(self)@) is PutManifest,
            old(stats).manifests_copied < usize::MAX,
        ensures
            final(self).wf(),
            final(self)@ == after_put(old(self)@),
            final(stats).manifests_copied == old(stats).manifests_copied + 1,
            final(stats).blobs_copied == old(stats).blobs_copied,
            final(stats).blobs_skipped == old(stats).blobs_skipped,
            final(stats).is_multi_arch == old(stats).is_multi_arch,
            final(stats).final_digest == old(stats).final_digest,
    {
        self.put = true;
        stats.manifests_copied = stats.manifests_copied + 1;
    }
}

/// The requests of a copy driven from a state, the destination answering
/// `present[i]` for the `i`th blob and every transfer and put succeeding.
pub open spec fn copy_requests(v: ManifestCopyView, present: Seq<bool>) -> Seq<CopyActionView>
    decreases v.blobs.len() - v.pos, if v.transferring {
        0int
    } else {
        1int
    }, if v.put {
        0int
    } else {
        1int
    },
{
    if v.put || v.pos > v.blobs.len() {
        Seq::empty()
    } else if v.transferring {
        if v.pos < v.blobs.len() {
            seq![copy_next(v)] + copy_requests(after_transfer(v), present)
        } else {
            Seq::empty()
        }
    } else if v.pos < v.blobs.len() {
        seq![copy_next(v)] + copy_requests(after_presence(v, present[v.pos as int]), present)
    } else {
        seq![copy_next(v)] + copy_requests(after_put(v), present)
    }
}

/// The requests of a manifest copy, from blob `i` on: each blob is checked,
/// in order, and transferred right after its check exactly when the
/// destination lacks it; then the manifest is put.
pub open spec fn expected_requests(
    blobs: Seq<Seq<char>>,
    present: Seq<bool>,
    reference: Seq<char>,
    i: int,
) -> Seq<CopyActionView>
    decreases blobs.len() - i,
{
    if i >= blobs.len() {
        seq![CopyActionView::PutManifest(reference)]
    } else {
        seq![CopyActionView::CheckBlob(blobs[i])] + (if present[i] {
            Seq::empty()
        } else {
            seq![CopyActionView::TransferBlob(blobs[i])]
        }) + expected_requests(blobs, present, reference, i + 1)
    }
}

proof fn lemma_copy_requests_from(blobs: Seq<Seq<char>>, present: Seq<bool>, reference: Seq<char>, i: nat)
    requires
        i <= blobs.len(),
        present.len() == blobs.len(),
    ensures
        copy_requests(
            ManifestCopyView { blobs, reference, pos: i, transferring: false, put: false },
            present,
        ) == expected_requests(blobs, present, reference, i as int),
    decreases blobs.len() - i,
{
    let v = ManifestCopyView { blobs, reference, pos: i, transferring: false, put: false };
    if i == blobs.len() {
        let w = after_put(v);
        assert(copy_requests(w, present) == Seq::<CopyActionView>::empty());
        assert(copy_requests(v, present) =~= seq![CopyActionView::PutManifest(reference)]);
    } else {
        lemma_copy_requests_from(blobs, present, reference, i + 1);
        let next = ManifestCopyView { blobs, reference, pos: i + 1, transferring: false, put: false };
        let rest = expected_requests(blobs, present, reference, (i + 1) as int);
        if present[i as int] {
            assert(after_presence(v, true) == next);
            assert(copy_requests(v, present) =~= seq![CopyActionView::CheckBlob(blobs[i as int])]
                + rest);
            assert(expected_requests(blobs, present, reference, i as int) =~= seq![
                CopyActionView::CheckBlob(blobs[i as int]),
            ] + rest);
        } else {
            let t = after_presence(v, false);
            assert(after_transfer(t) == next);
            assert(copy_requests(t, present) =~= seq![CopyActionView::TransferBlob(blobs[i as int])]
                + rest);
            assert(copy_requests(v, present) =~= seq![
                CopyActionView::CheckBlob(blobs[i as int]),
                CopyActionView::TransferBlob(blobs[i as int]),
            ] + rest);
            assert(expected_requests(blobs, present, reference, i as int) =~= seq![
                CopyActionView::CheckBlob(blobs[i as int]),
                CopyActionView::TransferBlob(blobs[i as int]),
            ] + rest);
        }
    }
}

/// The requests of a whole manifest copy, each the `next` of the state the
/// previous answers led to: every blob of the manifest (config first, then
/// the layers) is checked once, in order; a blob the destination has is
/// neither fetched nor pushed; a missing one is transferred right after its
/// check; and the manifest is put only after all its blobs.
pub proof fn law_manifest_copy_order(blobs: Seq<Seq<char>>, present: Seq<bool>, reference: Seq<char>)
    requires
        present.len() == blobs.len(),
    ensures
        copy_requests(copy_start(blobs, reference), present) == expected_requests(
            blobs,
            present,
            reference,
            0,
        ),
{
    lemma_copy_requests_from(blobs, present, reference, 0);
}

/// The blobs of a single-platform manifest, in the order they are copied:
/// the config, then each layer.
pub open spec fn blob_plan_spec(m: RawManifest) -> Seq<Seq<char>> {
    seq![m.config.digest@] + m.layers@.map_values(|d: crate::types::Descriptor| d.digest@)
}

/// The digests of the blobs to copy for a single-platform manifest, in order.
pub fn blob_plan(manifest: &RawManifest) -> (plan: Vec<String>)
    ensures
        plan@.map_values(|s: String| s@) == blob_plan_spec(*manifest),
{
    let mut plan: Vec<String> = Vec::new();
    plan.push(manifest.config.digest.clone());
    let mut i: usize = 0;
    while i < manifest.layers.len()
        invariant
            i <= manifest.layers@.len(),
            plan@.len() == i + 1,
            plan@[0]@ == manifest.config.digest@,
            forall|j: int| 0 <= j < i ==> #[trigger] plan@[j + 1]@ == manifest.layers@[j].digest@,
        decreases manifest.layers@.len() - i,
    {
        plan.push(manifest.layers[i].digest.clone());
        i = i + 1;
    }
    assert(plan@.map_values(|s: String| s@) =~= blob_plan_spec(*manifest)) by {
        assert forall|j: int| 1 <= j < plan@.len() implies plan@[j]@ == blob_plan_spec(
            *manifest,
        )[j] by {
            assert(plan@[(j - 1) + 1]@ == manifest.layers@[j - 1].digest@);
        }
    }
    plan
}

/// The child manifests of an index, in the order they are copied; each is
/// copied under its own digest.
pub fn child_plan(index: &RawIndex) -> (plan: Vec<String>)
    ensures
        plan@.map_values(|s: String| s@) == index.manifests@.map_values(
            |d: crate::types::Descriptor| d.digest@,
        ),
{
    let mut plan: Vec<String> = Vec::new();
    let mut i: usize = 0;
    while i < index.manifests.len()
        invariant
            i <= index.manifests@.len(),
            plan@.len() == i,
            forall|j: int| 0 <= j < i ==> #[trigger] plan@[j]@ == index.manifests@[j].digest@,
        decreases index.manifests@.len() - i,
    {
        plan.push(index.manifests[i].digest.clone());
        i = i + 1;
    }
    assert(plan@.map_values(|s: String| s@) =~= index.manifests@.map_values(
        |d: crate::types::Descriptor| d.digest@,
    ));
    plan
}

/// Copying a manifest again when the destination has every blob fetches
/// and pushes no blob: every request is a check, except the final put.
pub proof fn law_rerun_transfers_no_blob(
    blobs: Seq<Seq<char>>,
    present: Seq<bool>,
    reference: Seq<char>,
)
    requires
        present.len() == blobs.len(),
        forall|i: int| 0 <= i < present.len() ==> #[trigger] present[i],
    ensures
        copy_requests(copy_start(blobs, reference), present).len() == blobs.len() + 1,
        forall|k: int|
            0 <= k < blobs.len() ==> #[trigger] copy_requests(copy_start(blobs, reference), present)[k]
                == CopyActionView::CheckBlob(blobs[k]),
        copy_requests(copy_start(blobs, reference), present)[blobs.len() as int]
            == CopyActionView::PutManifest(reference),
{
    law_manifest_copy_order(blobs, present, reference);
    lemma_all_present_requests(blobs, present, reference, 0);
}

proof fn lemma_all_present_requests(
    blobs: Seq<Seq<char>>,
    present: Seq<bool>,
    reference: Seq<char>,
    i: int,
)
    requires
        0 <= i <= blobs.len(),
        present.len() == blobs.len(),
        forall|j: int| 0 <= j < present.len() ==> #[trigger] present[j],
    ensures
        expected_requests(blobs, present, reference, i).len() == blobs.len() - i + 1,
        forall|k: int|
            0 <= k < blobs.len() - i ==> #[trigger] expected_requests(blobs, present, reference, i)[k]
                == CopyActionView::CheckBlob(blobs[i + k]),
        expected_requests(blobs, present, reference, i)[blobs.len() - i]
            == CopyActionView::PutManifest(reference),
    decreases blobs.len() - i,
{
    if i < blobs.len() {
        lemma_all_present_requests(blobs, present, reference, i + 1);
        let rest = expected_requests(blobs, present, reference, i + 1);
        assert(present[i]);
        let e = expected_requests(blobs, present, reference, i);
        assert(e =~= seq![CopyActionView::CheckBlob(blobs[i])] + rest);
        assert forall|k: int| 0 <= k < blobs.len() - i implies #[trigger] e[k]
            == CopyActionView::CheckBlob(blobs[i + k]) by {
            if k > 0 {
                assert(e[k] == rest[k - 1]);
                assert(i + 1 + (k - 1) == i + k);
            }
        }
        assert(e[blobs.len() - i] == rest[blobs.len() - (i + 1)]);
    }
}

/// A step of copying an image index.
#[derive(Debug, PartialEq, Eq)]
pub enum IndexStep {
    /// Copy this child manifest (fetched by its digest) under its digest.
    CopyChild(String),
    /// Put the index itself under this tag.
    PutIndex(String),
}

/// The steps of copying an image index: each child, in the index's order,
/// then, after all of them, the index under the target tag.
pub fn index_plan(index: &RawIndex, target_tag: &str) -> (plan: Vec<IndexStep>)
    ensures
        plan@.len() == index.manifests@.len() + 1,
        forall|i: int|
            0 <= i < index.manifests@.len() ==> (#[trigger] plan@[i] matches IndexStep::CopyChild(d)
                && d@ == index.manifests@[i].digest@),
        plan@[index.manifests@.len() as int] matches IndexStep::PutIndex(t) && t@ == target_tag@,
{
    let mut plan: Vec<IndexStep> = Vec::new();
    let mut i: usize = 0;
    while i < index.manifests.len()
        invariant
            i <= index.manifests@.len(),
            plan@.len() == i,
            forall|j: int|
                0 <= j < i ==> (#[trigger] plan@[j] matches IndexStep::CopyChild(d) && d@
                    == index.manifests@[j].digest@),
        decreases index.manifests@.len() - i,
    {
        plan.push(IndexStep::CopyChild(index.manifests[i].digest.clone()));
        i = i + 1;
    }
    plan.push(IndexStep::PutIndex(String::from_str(target_tag)));
    plan
}

} // verus!
