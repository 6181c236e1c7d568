//! Manifest inspection and repository disk usage.
use vstd::prelude::*;

use crate::error::RegistryError;
use crate::registry::client::ManifestResult;
use crate::types::{
    Descriptor, DiskUsageOutput, GetManifestOutput, IndexEntry, LayerInfo, RawManifest,
    TagDiskUsage,
};

verus! {

/// Parameters of `get_manifest`.
#[derive(Debug)]
pub struct GetManifestParams {
    /// Repository name, e.g. `library/nginx`.
    pub repository: String,
    /// Tag name or digest (`sha256:…`).
    pub reference: String,
}

/// Parameters of `get_repository_disk_usage`.
#[derive(Debug)]
pub struct DiskUsageParams {
    /// Repository name, e.g. `library/nginx`.
    pub repository: String,
}

/// A size total left the range of `i64`.
#[derive(Debug, PartialEq, Eq)]
pub struct SizeOverflow;

// ── Sums of sizes ────────────────────────────────────────────────────────────

/// The sum of some sizes.
pub open spec fn total(s: Seq<i64>) -> int
    decreases s.len(),
{
    if s.len() == 0 {
        0
    } else {
        total(s.drop_last()) + s.last()
    }
}

/// Whether every running total of `s`, started at `start`, stays within
/// `i64` (so that adding the sizes one by one in `i64` never overflows).
pub open spec fn running_totals_fit(start: int, s: Seq<i64>) -> bool {
    forall|k: int|
        0 <= k <= s.len() ==> i64::MIN <= #[trigger] (start + total(s.take(k))) <= i64::MAX
}

/// The sizes of some descriptors.
pub open spec fn descriptor_sizes(ds: Seq<Descriptor>) -> Seq<i64> {
    ds.map_values(|d: Descriptor| d.size)
}

proof fn lemma_total_push(s: Seq<i64>, x: i64)
    ensures
        total(s.push(x)) == total(s) + x,
{
    assert(s.push(x).drop_last() =~= s);
}

proof fn lemma_total_concat(s: Seq<i64>, t: Seq<i64>)
    ensures
        total(s + t) == total(s) + total(t),
    decreases t.len(),
{
    if t.len() > 0 {
        lemma_total_concat(s, t.drop_last());
        assert((s + t).drop_last() =~= s + t.drop_last());
    } else {
        assert(s + t =~= s);
    }
}

/// Adds up sizes in `i64` order, reporting an overflow of any running total.
fn sum_sizes(ds: &Vec<Descriptor>, start: i64) -> (r: Result<i64, SizeOverflow>)
    ensures
        match r {
            Ok(t) => running_totals_fit(start as int, descriptor_sizes(ds@)) && t == start + total(
                descriptor_sizes(ds@),
            ),
            Err(_) => !running_totals_fit(start as int, descriptor_sizes(ds@)),
        },
{
    let ghost sizes = descriptor_sizes(ds@);
    let mut acc: i64 = start;
    let mut i: usize = 0;
    assert(sizes.take(0) =~= Seq::<i64>::empty());
    while i < ds.len()
        invariant
            i <= ds@.len(),
            sizes == descriptor_sizes(ds@),
            acc == start + total(sizes.take(i as int)),
            forall|k: int|
                0 <= k <= i ==> i64::MIN <= #[trigger] (start + total(sizes.take(k))) <= i64::MAX,
        decreases ds@.len() - i,
    {
        let size = ds[i].size;
        proof {
            assert(sizes.take(i + 1) =~= sizes.take(i as int).push(size));
            lemma_total_push(sizes.take(i as int), size);
        }
        let next = acc as i128 + size as i128;
        if next < i64::MIN as i128 || next > i64::MAX as i128 {
            assert(!(i64::MIN <= start + total(sizes.take(i + 1)) <= i64::MAX));
            return Err(SizeOverflow);
        }
        acc = next as i64;
        i = i + 1;
    }
    assert(sizes.take(ds@.len() as int) =~= sizes);
    Ok(acc)
}

// ── get_manifest ─────────────────────────────────────────────────────────────

/// How a layer descriptor is reported.
pub open spec fn layer_info_of(d: Descriptor) -> LayerInfo {
    LayerInfo { digest: d.digest, media_type: d.media_type, size_bytes: d.size }
}

/// How an index entry is reported.
pub open spec fn index_entry_of(d: Descriptor) -> IndexEntry {
    IndexEntry { digest: d.digest, media_type: d.media_type, size_bytes: d.size, platform: d.platform }
}

fn layer_infos(ds: Vec<Descriptor>) -> (r: Vec<LayerInfo>)
    ensures
        r@ == ds@.map_values(|d: Descriptor| layer_info_of(d)),
{
    let ghost orig = ds@;
    let mut r: Vec<LayerInfo> = Vec::new();
    for d in it: ds.into_iter()
        invariant
            it.seq() == orig,
            r@ == orig.take(it.index()).map_values(|d: Descriptor| layer_info_of(d)),
    {
        let ghost i = it.index();
        assert(orig.take(i + 1) =~= orig.take(i).push(d));
        r.push(LayerInfo { digest: d.digest, media_type: d.media_type, size_bytes: d.size });
        assert(r@ =~= orig.take(i + 1).map_values(|d: Descriptor| layer_info_of(d)));
    }
    assert(orig.take(orig.len() as int) =~= orig);
    r
}

fn index_entries(ds: Vec<Descriptor>) -> (r: Vec<IndexEntry>)
    ensures
        r@ == ds@.map_values(|d: Descriptor| index_entry_of(d)),
{
    let ghost orig = ds@;
    let mut r: Vec<IndexEntry> = Vec::new();
    for d in it: ds.into_iter()
        invariant
            it.seq() == orig,
            r@ == orig.take(it.index()).map_values(|d: Descriptor| index_entry_of(d)),
    {
        let ghost i = it.index();
        assert(orig.take(i + 1) =~= orig.take(i).push(d));
        r.push(
            IndexEntry {
                digest: d.digest,
                media_type: d.media_type,
                size_bytes: d.size,
                platform: d.platform,
            },
        );
        assert(r@ =~= orig.take(i + 1).map_values(|d: Descriptor| index_entry_of(d)));
    }
    assert(orig.take(orig.len() as int) =~= orig);
    r
}

/// The `get_manifest` output for a fetched manifest. A single-platform
/// manifest reports its config and layers, with the total of their sizes; an
/// index reports its child manifests, with the total of their sizes. An `Err`
/// means a running total left `i64`.
pub fn manifest_output(params: GetManifestParams, result: ManifestResult) -> (r: Result<
    GetManifestOutput,
    SizeOverflow,
>)
    ensures
        match result {
            ManifestResult::Single { digest, media_type, inner } => {
                let sizes = descriptor_sizes(inner.layers@).push(inner.config.size);
                match r {
                    Ok(out) => {
                        &&& running_totals_fit(0, sizes)
                        &&& out.repository == params.repository
                        &&& out.reference == params.reference
                        &&& out.digest == digest
                        &&& out.media_type == media_type
                        &&& out.schema_version == inner.schema_version
                        &&& out.total_size_bytes == total(sizes)
                        &&& !out.is_image_index
                        &&& out.config == Some(layer_info_of(inner.config))
                        &&& out.layers matches Some(ls) && ls@ == inner.layers@.map_values(
                            |d: Descriptor| layer_info_of(d),
                        )
                        &&& out.manifests is None
                    },
                    Err(_) => !running_totals_fit(0, sizes),
                }
            },
            ManifestResult::Index { digest, media_type, inner } => {
                let sizes = descriptor_sizes(inner.manifests@);
                match r {
                    Ok(out) => {
                        &&& running_totals_fit(0, sizes)
                        &&& out.repository == params.repository
                        &&& out.reference == params.reference
                        &&& out.digest == digest
                        &&& out.media_type == media_type
                        &&& out.schema_version == inner.schema_version
                        &&& out.total_size_bytes == total(sizes)
                        &&& out.is_image_index
                        &&& out.config is None
                        &&& out.layers is None
                        &&& out.manifests matches Some(ms) && ms@ == inner.manifests@.map_values(
                            |d: Descriptor| index_entry_of(d),
                        )
                    },
                    Err(_) => !running_totals_fit(0, sizes),
                }
            },
        },
{
    match result {
        ManifestResult::Single { digest, media_type, inner } => {
            let ghost sizes = descriptor_sizes(inner.layers@).push(inner.config.size);
            let ghost layer_sizes = descriptor_sizes(inner.layers@);
            let layers_total = match sum_sizes(&inner.layers, 0) {
                Ok(t) => t,
                Err(e) => {
                    assert forall|k: int| 0 <= k <= layer_sizes.len() implies #[trigger] sizes.take(k)
                        == layer_sizes.take(k) by {
                        assert(sizes.take(k) =~= layer_sizes.take(k));
                    }
                    assert(!running_totals_fit(0, sizes)) by {
                        let k = choose|k: int|
                            0 <= k <= layer_sizes.len() && !(i64::MIN <= #[trigger] (0 + total(
                                layer_sizes.take(k),
                            )) <= i64::MAX);
                        assert(sizes.take(k) == layer_sizes.take(k));
                    }
                    return Err(e);
                },
            };
            let config_size = inner.config.size;
            proof {
                assert(sizes.take(sizes.len() as int) =~= layer_sizes.push(config_size));
                assert(layer_sizes.take(layer_sizes.len() as int) =~= layer_sizes);
                lemma_total_push(layer_sizes, config_size);
                assert forall|k: int| 0 <= k <= layer_sizes.len() implies #[trigger] sizes.take(k)
                    == layer_sizes.take(k) by {
                    assert(sizes.take(k) =~= layer_sizes.take(k));
                }
            }
            let total_size = layers_total as i128 + config_size as i128;
            if total_size < i64::MIN as i128 || total_size > i64::MAX as i128 {
                assert(!(i64::MIN <= 0 + total(sizes.take(sizes.len() as int)) <= i64::MAX));
                return Err(SizeOverflow);
            }
            assert(running_totals_fit(0, sizes)) by {
                assert forall|k: int| 0 <= k <= sizes.len() implies i64::MIN <= #[trigger] (0
                    + total(sizes.take(k))) <= i64::MAX by {
                    if k <= layer_sizes.len() {
                        assert(sizes.take(k) == layer_sizes.take(k));
                    }
                }
            }
            let config = LayerInfo {
                digest: inner.config.digest,
                media_type: inner.config.media_type,
                size_bytes: config_size,
            };
            let layers = layer_infos(inner.layers);
            Ok(
                GetManifestOutput {
                    repository: params.repository,
                    reference: params.reference,
                    digest,
                    media_type,
                    schema_version: inner.schema_version,
                    total_size_bytes: total_size as i64,
                    is_image_index: false,
                    config: Some(config),
                    layers: Some(layers),
                    manifests: None,
                },
            )
        },
        ManifestResult::Index { digest, media_type, inner } => {
            let total_size = match sum_sizes(&inner.manifests, 0) {
                Ok(t) => t,
                Err(e) => {
                    return Err(e);
                },
            };
            let entries = index_entries(inner.manifests);
            Ok(
                GetManifestOutput {
                    repository: params.repository,
                    reference: params.reference,
                    digest,
                    media_type,
                    schema_version: inner.schema_version,
                    total_size_bytes: total_size,
                    is_image_index: true,
                    config: None,
                    layers: None,
                    manifests: Some(entries),
                },
            )
        },
    }
}

// ── get_repository_disk_usage ───────────────────────────────────────────────

/// The page size used when listing every tag of a repository.
pub const TAG_PAGE_SIZE: u32 = 1000;

/// A blob as counted for disk usage: its digest and size.
pub open spec fn blob_entry(d: Descriptor) -> (Seq<char>, i64) {
    (d.digest@, d.size)
}

/// The blobs that some layer descriptors name, in order.
pub open spec fn blob_entries(ds: Seq<Descriptor>) -> Seq<(Seq<char>, i64)> {
    ds.map_values(|d: Descriptor| blob_entry(d))
}

/// Whether a digest has been counted.
pub open spec fn counted(seen: Seq<(Seq<char>, i64)>, digest: Seq<char>) -> bool {
    exists|i: int| 0 <= i < seen.len() && #[trigger] seen[i].0 == digest
}

/// The counted blobs after some layers: each layer whose digest was not yet
/// counted is appended with its size; a digest shared with an earlier layer
/// (of this or another tag) is counted once, with the size first seen.
pub open spec fn count_blobs(seen: Seq<(Seq<char>, i64)>, layers: Seq<(Seq<char>, i64)>) -> Seq<
    (Seq<char>, i64),
>
    decreases layers.len(),
{
    if layers.len() == 0 {
        seen
    } else {
        let s = count_blobs(seen, layers.drop_last());
        if counted(s, layers.last().0) {
            s
        } else {
            s.push(layers.last())
        }
    }
}

/// The sizes of counted blobs.
pub open spec fn blob_sizes(seen: Seq<(Seq<char>, i64)>) -> Seq<i64> {
    seen.map_values(|e: (Seq<char>, i64)| e.1)
}

/// No digest is counted twice.
pub open spec fn distinct_digests(seen: Seq<(Seq<char>, i64)>) -> bool {
    forall|i: int, j: int|
        0 <= i < j < seen.len() ==> #[trigger] seen[i].0 != #[trigger] seen[j].0
}

/// Counting blobs only appends to what was counted.
pub proof fn lemma_count_blobs_extends(seen: Seq<(Seq<char>, i64)>, layers: Seq<(Seq<char>, i64)>)
    ensures
        seen.len() <= count_blobs(seen, layers).len(),
        count_blobs(seen, layers).take(seen.len() as int) == seen,
    decreases layers.len(),
{
    if layers.len() > 0 {
        lemma_count_blobs_extends(seen, layers.drop_last());
        let s = count_blobs(seen, layers.drop_last());
        if !counted(s, layers.last().0) {
            assert(s.push(layers.last()).take(seen.len() as int) =~= s.take(seen.len() as int));
        }
    } else {
        assert(seen.take(seen.len() as int) =~= seen);
    }
}

/// Counting the first layers gives a prefix of counting them all.
pub proof fn lemma_count_blobs_prefix(
    seen: Seq<(Seq<char>, i64)>,
    layers: Seq<(Seq<char>, i64)>,
    i: int,
)
    requires
        0 <= i <= layers.len(),
    ensures
        count_blobs(seen, layers.take(i)).len() <= count_blobs(seen, layers).len(),
        count_blobs(seen, layers).take(count_blobs(seen, layers.take(i)).len() as int)
            == count_blobs(seen, layers.take(i)),
    decreases layers.len() - i,
{
    if i == layers.len() {
        assert(layers.take(i) =~= layers);
        let c = count_blobs(seen, layers);
        assert(c.take(c.len() as int) =~= c);
    } else {
        lemma_count_blobs_prefix(seen, layers, i + 1);
        let a = count_blobs(seen, layers.take(i));
        let b = count_blobs(seen, layers.take(i + 1));
        assert(layers.take(i + 1).drop_last() =~= layers.take(i));
        let c = count_blobs(seen, layers);
        if !counted(a, layers[i].0) {
            assert(b == a.push(layers[i]));
            assert(c.take(a.len() as int) =~= c.take(b.len() as int).take(a.len() as int));
            assert(b.take(a.len() as int) =~= a);
        }
    }
}

/// A digest is counted after some layers exactly when it was counted before
/// or one of the layers names it: every blob of every recorded tag is counted.
pub proof fn law_counted_digests_are_those_seen(
    seen: Seq<(Seq<char>, i64)>,
    layers: Seq<(Seq<char>, i64)>,
    digest: Seq<char>,
)
    ensures
        counted(count_blobs(seen, layers), digest) <==> (counted(seen, digest) || exists|j: int|
            0 <= j < layers.len() && #[trigger] layers[j].0 == digest),
    decreases layers.len(),
{
    if layers.len() > 0 {
        let init = layers.drop_last();
        let last = layers.last();
        law_counted_digests_are_those_seen(seen, init, digest);
        let s = count_blobs(seen, init);
        let c = count_blobs(seen, layers);
        let in_layers = exists|j: int| 0 <= j < layers.len() && #[trigger] layers[j].0 == digest;
        let in_init = exists|j: int| 0 <= j < init.len() && #[trigger] init[j].0 == digest;
        assert(in_init ==> in_layers) by {
            if in_init {
                let j = choose|j: int| 0 <= j < init.len() && #[trigger] init[j].0 == digest;
                assert(layers[j].0 == digest);
            }
        }
        assert(in_layers ==> (in_init || last.0 == digest)) by {
            if in_layers {
                let j = choose|j: int| 0 <= j < layers.len() && #[trigger] layers[j].0 == digest;
                if j < init.len() {
                    assert(init[j].0 == digest);
                }
            }
        }
        if counted(s, last.0) {
            assert(c == s);
            if last.0 == digest {
                assert(counted(c, digest));
            }
        } else {
            assert(c == s.push(last));
            if counted(c, digest) {
                let k = choose|k: int| 0 <= k < c.len() && #[trigger] c[k].0 == digest;
                if k < s.len() {
                    assert(s[k].0 == digest);
                } else {
                    assert(layers[layers.len() - 1].0 == digest);
                }
            }
            if counted(s, digest) {
                let k = choose|k: int| 0 <= k < s.len() && #[trigger] s[k].0 == digest;
                assert(c[k].0 == digest);
            }
            if last.0 == digest {
                assert(c[s.len() as int].0 == digest);
            }
        }
    }
}

/// Counting keeps digests distinct: a blob shared between tags (or layers)
/// is counted once.
pub proof fn law_counted_digests_distinct(seen: Seq<(Seq<char>, i64)>, layers: Seq<(Seq<char>, i64)>)
    requires
        distinct_digests(seen),
    ensures
        distinct_digests(count_blobs(seen, layers)),
    decreases layers.len(),
{
    if layers.len() > 0 {
        law_counted_digests_distinct(seen, layers.drop_last());
        let s = count_blobs(seen, layers.drop_last());
        if !counted(s, layers.last().0) {
            let t = s.push(layers.last());
            assert forall|i: int, j: int| 0 <= i < j < t.len() implies #[trigger] t[i].0
                != #[trigger] t[j].0 by {
                if j == s.len() {
                    assert(s[i].0 == t[i].0);
                    if t[i].0 == t[j].0 {
                        assert(counted(s, layers.last().0));
                    }
                } else {
                    assert(s[i].0 != s[j].0);
                }
            }
        }
    }
}

/// Counting the same layers again counts nothing new: a tag whose blobs are
/// all counted adds nothing to the unique total.
pub proof fn law_count_blobs_idempotent(seen: Seq<(Seq<char>, i64)>, layers: Seq<(Seq<char>, i64)>)
    ensures
        count_blobs(count_blobs(seen, layers), layers) == count_blobs(seen, layers),
    decreases layers.len(),
{
    let c = count_blobs(seen, layers);
    assert forall|j: int| 0 <= j < layers.len() implies counted(c, #[trigger] layers[j].0) by {
        law_counted_digests_are_those_seen(seen, layers, layers[j].0);
    }
    lemma_count_blobs_no_new(c, layers);
}

/// Layers whose digests are all counted change nothing.
pub proof fn lemma_count_blobs_no_new(seen: Seq<(Seq<char>, i64)>, layers: Seq<(Seq<char>, i64)>)
    requires
        forall|j: int| 0 <= j < layers.len() ==> counted(seen, #[trigger] layers[j].0),
    ensures
        count_blobs(seen, layers) == seen,
    decreases layers.len(),
{
    if layers.len() > 0 {
        let init = layers.drop_last();
        assert forall|j: int| 0 <= j < init.len() implies counted(seen, #[trigger] init[j].0) by {
            assert(init[j] == layers[j]);
        }
        lemma_count_blobs_no_new(seen, init);
        assert(counted(seen, layers[layers.len() - 1].0));
    }
}

/// A tag's summary, as plain values: tag, digest, layer count, total size.
pub open spec fn tag_summary(t: TagDiskUsage) -> (Seq<char>, Seq<char>, usize, i64) {
    (t.tag@, t.digest@, t.layer_count, t.total_size_bytes)
}

/// Accumulated disk usage of a repository, tag by tag. The counted blobs
/// are a list whose digests are kept distinct (see `wf`) rather than a hash
/// set: a `HashSet<String>` is opaque to the proofs here (its contents
/// cannot be stated for `String` keys), while the list's contents can.
pub struct DiskUsage {
    seen: Vec<(String, i64)>,
    unique_size_bytes: i64,
    tags: Vec<TagDiskUsage>,
    skipped_tags: Vec<String>,
}

/// Accumulated disk usage, as plain values.
pub struct DiskUsageView {
    /// Each distinct blob digest counted so far, with the size first seen.
    pub blobs: Seq<(Seq<char>, i64)>,
    /// The sum of the sizes of the distinct blobs.
    pub unique_size_bytes: i64,
    /// The summaries of the tags recorded so far, in order.
    pub tags: Seq<(Seq<char>, Seq<char>, usize, i64)>,
    /// The tags that could not be fetched, in order.
    pub skipped_tags: Seq<Seq<char>>,
}

impl View for DiskUsage {
    type V = DiskUsageView;

    closed spec fn view(&self) -> DiskUsageView {
        DiskUsageView {
            blobs: self.seen@.map_values(|e: (String, i64)| (e.0@, e.1)),
            unique_size_bytes: self.unique_size_bytes,
            tags: self.tags@.map_values(|t: TagDiskUsage| tag_summary(t)),
            skipped_tags: self.skipped_tags@.map_values(|s: String| s@),
        }
    }
}

/// The blob digests of a tag: its layers, or for an index the layers of each
/// child manifest that was fetched as a single-platform manifest, in order.
pub open spec fn child_layers(children: Seq<Result<ManifestResult, RegistryError>>) -> Seq<
    Descriptor,
>
    decreases children.len(),
{
    if children.len() == 0 {
        Seq::empty()
    } else {
        child_layers(children.drop_last()) + match children.last() {
            Ok(ManifestResult::Single { inner, .. }) => inner.layers@,
            _ => Seq::empty(),
        }
    }
}

impl DiskUsage {
    /// The accumulated state is consistent: digests are distinct and the
    /// unique total is the sum of their sizes.
    pub closed spec fn wf(self) -> bool {
        &&& distinct_digests(self@.blobs)
        &&& self@.unique_size_bytes == total(blob_sizes(self@.blobs))
    }

    /// Nothing recorded yet.
    pub fn new() -> (d: DiskUsage)
        ensures
            d.wf(),
            d@.blobs.len() == 0,
            d@.unique_size_bytes == 0,
            d@.tags.len() == 0,
            d@.skipped_tags.len() == 0,
            d@ == empty_usage(),
    {
        let d = DiskUsage {
            seen: Vec::new(),
            unique_size_bytes: 0,
            tags: Vec::new(),
            skipped_tags: Vec::new(),
        };
        assert(blob_sizes(d@.blobs) =~= Seq::<i64>::empty());
        assert(d@.blobs =~= empty_usage().blobs);
        assert(d@.tags =~= empty_usage().tags);
        assert(d@.skipped_tags =~= empty_usage().skipped_tags);
        d
    }

    /// Records a tag that could not be fetched.
    pub fn skip_tag(&mut self, tag: String)
        requires
            old(self).wf(),
        ensures
            final(self).wf(),
            final(self)@.blobs == old(self)@.blobs,
            final(self)@.unique_size_bytes == old(self)@.unique_size_bytes,
            final(self)@.tags == old(self)@.tags,
            final(self)@.skipped_tags == old(self)@.skipped_tags.push(tag@),
            final(self)@ == usage_step(old(self)@, (tag@, None)),
    {
        let ghost t = tag@;
        self.skipped_tags.push(tag);
        assert(self@.skipped_tags =~= old(self)@.skipped_tags.push(t));
        assert(self@.blobs =~= old(self)@.blobs);
        assert(self@.tags =~= old(self)@.tags);
    }

    /// Whether a digest is counted.
    fn is_counted(&self, digest: &String) -> (b: bool)
        ensures
            b == counted(self@.blobs, digest@),
    {
        let mut i: usize = 0;
        while i < self.seen.len()
            invariant
                i <= self.seen@.len(),
                forall|j: int| 0 <= j < i ==> #[trigger] self@.blobs[j].0 != digest@,
            decreases self.seen@.len() - i,
        {
            if self.seen[i].0 == *digest {
                assert(self@.blobs[i as int].0 == digest@);
                return true;
            }
            i = i + 1;
        }
        false
    }

    /// Records a tag whose manifest names `layers`: its summary (layer count
    /// and total size) is appended and the layers' blobs are counted. An `Err`
    /// (with nothing recorded) means a running total left `i64`.
    pub fn record_tag(&mut self, tag: String, digest: String, layers: &Vec<Descriptor>) -> (r:
        Result<(), SizeOverflow>)
        requires
            old(self).wf(),
        ensures
            final(self).wf(),
            r is Ok ==> final(self)@ == usage_step(old(self)@, (tag@, Some((digest@, layers@)))),
            ({
                let before = old(self)@;
                let blobs = count_blobs(before.blobs, blob_entries(layers@));
                let added = blob_sizes(blobs.skip(before.blobs.len() as int));
                let fits = running_totals_fit(0, descriptor_sizes(layers@)) && running_totals_fit(
                    before.unique_size_bytes as int,
                    added,
                );
                match r {
                    Ok(()) => {
                        &&& fits
                        &&& final(self)@.blobs == blobs
                        &&& final(self)@.unique_size_bytes == before.unique_size_bytes + total(
                            added,
                        )
                        &&& final(self)@.tags == before.tags.push(
                            (tag@, digest@, layers@.len() as usize, total(descriptor_sizes(layers@)) as i64),
                        )
                        &&& final(self)@.skipped_tags == before.skipped_tags
                    },
                    Err(_) => !fits && final(self)@ == before,
                }
            }),
    {
        let ghost before = self@;
        let ghost entries = blob_entries(layers@);
        let ghost sizes = descriptor_sizes(layers@);
        let mut added: Vec<(String, i64)> = Vec::new();
        let mut tag_total: i64 = 0;
        let mut unique: i64 = self.unique_size_bytes;
        let mut i: usize = 0;
        proof {
            assert(entries.take(0) =~= Seq::<(Seq<char>, i64)>::empty());
            assert(sizes.take(0) =~= Seq::<i64>::empty());
            assert(before.blobs.skip(before.blobs.len() as int) =~= Seq::<(Seq<char>, i64)>::empty());
            assert(blob_sizes(Seq::<(Seq<char>, i64)>::empty()) =~= Seq::<i64>::empty());
        }
        while i < layers.len()
            invariant
                self@ == before,
                i <= layers@.len(),
                entries == blob_entries(layers@),
                sizes == descriptor_sizes(layers@),
                before.blobs + added@.map_values(|e: (String, i64)| (e.0@, e.1)) == count_blobs(
                    before.blobs,
                    entries.take(i as int),
                ),
                tag_total == total(sizes.take(i as int)),
                forall|k: int|
                    0 <= k <= i ==> i64::MIN <= #[trigger] (0 + total(sizes.take(k)))
                        <= i64::MAX,
                unique == before.unique_size_bytes + total(
                    blob_sizes(added@.map_values(|e: (String, i64)| (e.0@, e.1))),
                ),
                self.wf(),
                running_totals_fit(
                    before.unique_size_bytes as int,
                    blob_sizes(added@.map_values(|e: (String, i64)| (e.0@, e.1))),
                ),
            decreases layers@.len() - i,
        {
            let ghost added_v = added@.map_values(|e: (String, i64)| (e.0@, e.1));
            let layer = &layers[i];
            let size = layer.size;
            proof {
                assert(sizes.take(i + 1) =~= sizes.take(i as int).push(size));
                lemma_total_push(sizes.take(i as int), size);
                assert(entries.take(i + 1).drop_last() =~= entries.take(i as int));
                assert(entries.take(i + 1).last() == blob_entry(layers@[i as int]));
            }
            let next_total = tag_total as i128 + size as i128;
            if next_total < i64::MIN as i128 || next_total > i64::MAX as i128 {
                assert(!(i64::MIN <= 0 + total(sizes.take(i + 1)) <= i64::MAX));
                assert(!running_totals_fit(0, sizes));
                return Err(SizeOverflow);
            }
            tag_total = next_total as i64;

            let fresh = !self.is_counted(&layer.digest) && !entry_listed(&added, &layer.digest);
            let ghost prev = before.blobs + added_v;
            proof {
                if fresh {
                    assert(!counted(prev, layer.digest@)) by {
                        if counted(prev, layer.digest@) {
                            let k = choose|k: int| 0 <= k < prev.len() && #[trigger] prev[k].0
                                == layer.digest@;
                            if k < before.blobs.len() {
                                assert(before.blobs[k].0 == layer.digest@);
                            } else {
                                assert(added_v[k - before.blobs.len()].0 == layer.digest@);
                            }
                        }
                    }
                } else {
                    if counted(before.blobs, layer.digest@) {
                        let k = choose|k: int| 0 <= k < before.blobs.len() && #[trigger] before.blobs[k].0
                            == layer.digest@;
                        assert(prev[k].0 == layer.digest@);
                    } else {
                        let k = choose|k: int| 0 <= k < added_v.len() && #[trigger] added_v[k].0
                            == layer.digest@;
                        assert(prev[before.blobs.len() + k].0 == layer.digest@);
                    }
                }
            }
            if fresh {
                let next_unique = unique as i128 + size as i128;
                let ghost new_added = added_v.push((layer.digest@, size));
                proof {
                    assert(blob_sizes(new_added) =~= blob_sizes(added_v).push(size));
                    lemma_total_push(blob_sizes(added_v), size);
                    lemma_count_blobs_prefix(before.blobs, entries, i + 1);
                    lemma_count_blobs_extends(before.blobs, entries);
                    assert(count_blobs(before.blobs, entries.take(i + 1)) == prev.push(
                        (layer.digest@, size),
                    ));
                }
                if next_unique < i64::MIN as i128 || next_unique > i64::MAX as i128 {
                    proof {
                        let all = count_blobs(before.blobs, entries);
                        let fin = blob_sizes(all.skip(before.blobs.len() as int));
                        let m = new_added.len() as int;
                        assert(all.take(prev.len() as int + 1) == prev.push((layer.digest@, size)));
                        assert(fin.take(m) =~= blob_sizes(new_added)) by {
                            assert forall|q: int| 0 <= q < m implies fin.take(m)[q] == blob_sizes(
                                new_added,
                            )[q] by {
                                assert(all.take(prev.len() as int + 1)[before.blobs.len() + q] == all[before.blobs.len() + q]);
                            }
                        }
                        assert(blob_sizes(new_added).take(m) =~= blob_sizes(new_added));
                        assert(!(i64::MIN <= before.unique_size_bytes + total(fin.take(m))
                            <= i64::MAX));
                        assert(!running_totals_fit(before.unique_size_bytes as int, fin));
                    }
                    return Err(SizeOverflow);
                }
                unique = next_unique as i64;
                added.push((layer.digest.clone(), size));
                proof {
                    assert(added@.map_values(|e: (String, i64)| (e.0@, e.1)) =~= new_added);
                    assert(prev + Seq::<(Seq<char>, i64)>::empty().push((layer.digest@, size))
                        =~= before.blobs + new_added);
                    assert forall|k: int| 0 <= k <= blob_sizes(new_added).len() implies i64::MIN
                        <= #[trigger] (before.unique_size_bytes + total(
                        blob_sizes(new_added).take(k),
                    )) <= i64::MAX by {
                        if k < blob_sizes(new_added).len() {
                            assert(blob_sizes(new_added).take(k) =~= blob_sizes(added_v).take(k));
                        } else {
                            assert(blob_sizes(new_added).take(k) =~= blob_sizes(new_added));
                        }
                    }
                }
            } else {
                proof {
                    assert(count_blobs(before.blobs, entries.take(i + 1)) == prev);
                }
            }
            i = i + 1;
        }
        let ghost added_v = added@.map_values(|e: (String, i64)| (e.0@, e.1));
        proof {
            assert(entries.take(layers@.len() as int) =~= entries);
            assert(sizes.take(layers@.len() as int) =~= sizes);
            let all = count_blobs(before.blobs, entries);
            assert(all.skip(before.blobs.len() as int) =~= added_v);
            law_counted_digests_distinct(before.blobs, entries);
            assert(blob_sizes(before.blobs + added_v) =~= blob_sizes(before.blobs) + blob_sizes(
                added_v,
            ));
            lemma_total_concat(blob_sizes(before.blobs), blob_sizes(added_v));
        }
        self.seen.append(&mut added);
        self.unique_size_bytes = unique;
        let ghost t = (tag@, digest@, layers@.len() as usize, tag_total);
        self.tags.push(
            TagDiskUsage { tag, digest, layer_count: layers.len(), total_size_bytes: tag_total },
        );
        proof {
            assert(self@.blobs =~= before.blobs + added_v);
            assert(self@.tags =~= before.tags.push(t));
            assert(self@.skipped_tags =~= before.skipped_tags);
        }
        Ok(())
    }

    /// Records a tag whose manifest is single-platform.
    pub fn record_single(&mut self, tag: String, digest: String, manifest: &RawManifest) -> (r:
        Result<(), SizeOverflow>)
        requires
            old(self).wf(),
        ensures
            final(self).wf(),
            r is Ok ==> final(self)@ == usage_step(
                old(self)@,
                (tag@, Some((digest@, manifest.layers@))),
            ),
            ({
                let before = old(self)@;
                let layers = manifest.layers@;
                let blobs = count_blobs(before.blobs, blob_entries(layers));
                let added = blob_sizes(blobs.skip(before.blobs.len() as int));
                let fits = running_totals_fit(0, descriptor_sizes(layers)) && running_totals_fit(
                    before.unique_size_bytes as int,
                    added,
                );
                match r {
                    Ok(()) => {
                        &&& fits
                        &&& final(self)@.blobs == blobs
                        &&& final(self)@.unique_size_bytes == before.unique_size_bytes + total(
                            added,
                        )
                        &&& final(self)@.tags == before.tags.push(
                            (tag@, digest@, layers.len() as usize, total(descriptor_sizes(layers)) as i64),
                        )
                        &&& final(self)@.skipped_tags == before.skipped_tags
                    },
                    Err(_) => !fits && final(self)@ == before,
                }
            }),
    {
        self.record_tag(tag, digest, &manifest.layers)
    }

    /// Records a tag whose manifest is an image index, given the results of
    /// fetching its child manifests: the layers of every child fetched as a
    /// single-platform manifest count, in order; nested indexes and failed
    /// fetches are passed over.
    pub fn record_index(
        &mut self,
        tag: String,
        digest: String,
        children: &Vec<Result<ManifestResult, RegistryError>>,
    ) -> (r: Result<(), SizeOverflow>)
        requires
            old(self).wf(),
        ensures
            final(self).wf(),
            r is Ok ==> final(self)@ == usage_step(
                old(self)@,
                (tag@, Some((digest@, child_layers(children@)))),
            ),
            ({
                let before = old(self)@;
                let layers = child_layers(children@);
                let blobs = count_blobs(before.blobs, blob_entries(layers));
                let added = blob_sizes(blobs.skip(before.blobs.len() as int));
                let fits = running_totals_fit(0, descriptor_sizes(layers)) && running_totals_fit(
                    before.unique_size_bytes as int,
                    added,
                );
                match r {
                    Ok(()) => {
                        &&& fits
                        &&& final(self)@.blobs == blobs
                        &&& final(self)@.unique_size_bytes == before.unique_size_bytes + total(
                            added,
                        )
                        &&& final(self)@.tags == before.tags.push(
                            (tag@, digest@, layers.len() as usize, total(descriptor_sizes(layers)) as i64),
                        )
                        &&& final(self)@.skipped_tags == before.skipped_tags
                    },
                    Err(_) => !fits && final(self)@ == before,
                }
            }),
    {
        let mut layers: Vec<Descriptor> = Vec::new();
        let mut i: usize = 0;
        while i < children.len()
            invariant
                i <= children@.len(),
                layers@ == child_layers(children@.take(i as int)),
            decreases children@.len() - i,
        {
            assert(children@.take(i + 1).drop_last() =~= children@.take(i as int));
            match &children[i] {
                Ok(ManifestResult::Single { inner, .. }) => {
                    let mut j: usize = 0;
                    let ghost start = layers@;
                    while j < inner.layers.len()
                        invariant
                            j <= inner.layers@.len(),
                            layers@ == start + inner.layers@.take(j as int),
                        decreases inner.layers@.len() - j,
                    {
                        layers.push(copy_descriptor(&inner.layers[j]));
                        assert(inner.layers@.take(j + 1) =~= inner.layers@.take(j as int).push(
                            inner.layers@[j as int],
                        ));
                        j = j + 1;
                    }
                    assert(inner.layers@.take(inner.layers@.len() as int) =~= inner.layers@);
                },
                _ => {
                    assert(layers@ =~= layers@ + Seq::<Descriptor>::empty());
                },
            }
            i = i + 1;
        }
        assert(children@.take(children@.len() as int) =~= children@);
        self.record_tag(tag, digest, &layers)
    }

    /// The output of `get_repository_disk_usage`.
    pub fn finish(self, repository: String) -> (out: DiskUsageOutput)
        requires
            self.wf(),
        ensures
            out.repository == repository,
            out.unique_blob_count == self@.blobs.len(),
            out.unique_size_bytes == self@.unique_size_bytes,
            out.unique_size_bytes == total(blob_sizes(self@.blobs)),
            out.tags@.map_values(|t: TagDiskUsage| tag_summary(t)) == self@.tags,
            out.skipped_tags@.map_values(|s: String| s@) == self@.skipped_tags,
    {
        DiskUsageOutput {
            repository,
            unique_blob_count: self.seen.len(),
            unique_size_bytes: self.unique_size_bytes,
            tags: self.tags,
            skipped_tags: self.skipped_tags,
        }
    }
}

/// Whether a digest is among some counted entries.
fn entry_listed(entries: &Vec<(String, i64)>, digest: &String) -> (b: bool)
    ensures
        b == counted(entries@.map_values(|e: (String, i64)| (e.0@, e.1)), digest@),
{
    let ghost v = entries@.map_values(|e: (String, i64)| (e.0@, e.1));
    let mut i: usize = 0;
    while i < entries.len()
        invariant
            i <= entries@.len(),
            v == entries@.map_values(|e: (String, i64)| (e.0@, e.1)),
            forall|j: int| 0 <= j < i ==> #[trigger] v[j].0 != digest@,
        decreases entries@.len() - i,
    {
        if entries[i].0 == *digest {
            assert(v[i as int].0 == digest@);
            return true;
        }
        i = i + 1;
    }
    false
}

/// A copy of a descriptor.
pub fn copy_descriptor(d: &Descriptor) -> (c: Descriptor)
    ensures
        c == *d,
{
    let platform = match &d.platform {
        Some(p) => Some(
            crate::types::Platform {
                architecture: p.architecture.clone(),
                os: p.os.clone(),
                variant: match &p.variant {
                    Some(v) => Some(v.clone()),
                    None => None,
                },
            },
        ),
        None => None,
    };
    Descriptor {
        media_type: d.media_type.clone(),
        digest: d.digest.clone(),
        size: d.size,
        platform,
    }
}

/// What a page of tags contributes when every tag is listed: the tags, and
/// the cursor for the next page, or `None` when this was the last page (an
/// empty page, or one shorter than the page size).
pub fn tag_page(tags: Option<Vec<String>>) -> (r: (Vec<String>, Option<String>))
    ensures
        match tags {
            Some(t) => r.0 == t && if t@.len() == 0 || t@.len() < TAG_PAGE_SIZE {
                r.1 is None
            } else {
                r.1 matches Some(c) && c@ == t@.last()@
            },
            None => r.0@.len() == 0 && r.1 is None,
        },
{
    let tags = match tags {
        Some(t) => t,
        None => {
            return (Vec::new(), None);
        },
    };
    if tags.len() == 0 || tags.len() < TAG_PAGE_SIZE as usize {
        return (tags, None);
    }
    let last = tags[tags.len() - 1].clone();
    (tags, Some(last))
}


// ── A whole disk-usage run ───────────────────────────────────────────────────

/// One tag of a run: its name, and the digest and layers of its manifest
/// when it could be fetched (for an index, the layers of its children).
pub type TagFetch = (Seq<char>, Option<(Seq<char>, Seq<Descriptor>)>);

/// Nothing recorded.
pub open spec fn empty_usage() -> DiskUsageView {
    DiskUsageView {
        blobs: Seq::empty(),
        unique_size_bytes: 0,
        tags: Seq::empty(),
        skipped_tags: Seq::empty(),
    }
}

/// The usage after one more tag: a tag that could not be fetched is
/// skipped; a fetched one adds its summary and counts its blobs.
pub open spec fn usage_step(v: DiskUsageView, f: TagFetch) -> DiskUsageView {
    match f.1 {
        None => DiskUsageView { skipped_tags: v.skipped_tags.push(f.0), ..v },
        Some((digest, layers)) => {
            let blobs = count_blobs(v.blobs, blob_entries(layers));
            let added = blob_sizes(blobs.skip(v.blobs.len() as int));
            DiskUsageView {
                blobs,
                unique_size_bytes: (v.unique_size_bytes + total(added)) as i64,
                tags: v.tags.push(
                    (f.0, digest, layers.len() as usize, total(descriptor_sizes(layers)) as i64),
                ),
                skipped_tags: v.skipped_tags,
            }
        },
    }
}

/// The usage after the tags of a run, in order.
pub open spec fn usage_run(fs: Seq<TagFetch>) -> DiskUsageView
    decreases fs.len(),
{
    if fs.len() == 0 {
        empty_usage()
    } else {
        usage_step(usage_run(fs.drop_last()), fs.last())
    }
}

/// The blobs of every fetched tag of a run, in order.
pub open spec fn run_layers(fs: Seq<TagFetch>) -> Seq<(Seq<char>, i64)>
    decreases fs.len(),
{
    if fs.len() == 0 {
        Seq::empty()
    } else {
        run_layers(fs.drop_last()) + match fs.last().1 {
            Some((_, layers)) => blob_entries(layers),
            None => Seq::empty(),
        }
    }
}

/// Whether a tag of a run was fetched.
pub open spec fn was_fetched() -> spec_fn(TagFetch) -> bool {
    |f: TagFetch| f.1 is Some
}

/// Whether a tag of a run could not be fetched.
pub open spec fn was_skipped() -> spec_fn(TagFetch) -> bool {
    |f: TagFetch| f.1 is None
}

/// The name of a tag of a run.
pub open spec fn fetch_tag() -> spec_fn(TagFetch) -> Seq<char> {
    |f: TagFetch| f.0
}

/// The tag names of some tag summaries.
pub open spec fn summary_tags(ts: Seq<(Seq<char>, Seq<char>, usize, i64)>) -> Seq<Seq<char>> {
    ts.map_values(|t: (Seq<char>, Seq<char>, usize, i64)| t.0)
}

/// Counting two runs of layers one after the other is counting them joined.
pub proof fn lemma_count_blobs_concat(
    seen: Seq<(Seq<char>, i64)>,
    a: Seq<(Seq<char>, i64)>,
    b: Seq<(Seq<char>, i64)>,
)
    ensures
        count_blobs(seen, a + b) == count_blobs(count_blobs(seen, a), b),
    decreases b.len(),
{
    if b.len() == 0 {
        assert(a + b =~= a);
    } else {
        lemma_count_blobs_concat(seen, a, b.drop_last());
        assert((a + b).drop_last() =~= a + b.drop_last());
        assert((a + b).last() == b.last());
    }
}

/// Each counted blob is the first layer with its digest: its size is the
/// size first seen.
pub proof fn law_counted_sizes_are_first_seen(layers: Seq<(Seq<char>, i64)>)
    ensures
        forall|k: int|
            0 <= k < count_blobs(Seq::empty(), layers).len() ==> exists|j: int|
                0 <= j < layers.len() && layers[j] == #[trigger] count_blobs(
                    Seq::empty(),
                    layers,
                )[k] && forall|i: int| 0 <= i < j ==> layers[i].0 != layers[j].0,
    decreases layers.len(),
{
    let c = count_blobs(Seq::empty(), layers);
    if layers.len() > 0 {
        let init = layers.drop_last();
        let last = layers.last();
        let s = count_blobs(Seq::empty(), init);
        law_counted_sizes_are_first_seen(init);
        assert forall|k: int| 0 <= k < c.len() implies exists|j: int|
            0 <= j < layers.len() && layers[j] == #[trigger] c[k] && forall|i: int|
                0 <= i < j ==> layers[i].0 != layers[j].0 by {
            if k < s.len() {
                assert(c[k] == s[k]);
                let j = choose|j: int|
                    0 <= j < init.len() && init[j] == #[trigger] s[k] && forall|i: int|
                        0 <= i < j ==> init[i].0 != init[j].0;
                assert(layers[j] == init[j]);
                assert forall|i: int| 0 <= i < j implies layers[i].0 != layers[j].0 by {
                    assert(layers[i] == init[i]);
                }
            } else {
                assert(!counted(s, last.0));
                assert(c == s.push(last));
                let j = layers.len() - 1;
                law_counted_digests_are_those_seen(Seq::empty(), init, last.0);
                assert forall|i: int| 0 <= i < j implies layers[i].0 != layers[j].0 by {
                    assert(layers[i] == init[i]);
                    if layers[i].0 == layers[j].0 {
                        assert(init[i].0 == last.0);
                    }
                }
            }
        }
    }
}

/// Over a whole run of `get_repository_disk_usage`: the counted blobs are
/// the distinct digests of the layers of every fetched tag, each counted
/// once with the size first seen; the listed tags are the fetched ones and
/// the skipped tags the others, each in the order of the tag list, so that
/// together they account for every tag.
pub proof fn law_disk_usage_run(fs: Seq<TagFetch>)
    ensures
        usage_run(fs).blobs == count_blobs(Seq::empty(), run_layers(fs)),
        distinct_digests(usage_run(fs).blobs),
        forall|d: Seq<char>|
            counted(usage_run(fs).blobs, d) <==> exists|j: int|
                0 <= j < run_layers(fs).len() && #[trigger] run_layers(fs)[j].0 == d,
        forall|k: int|
            0 <= k < usage_run(fs).blobs.len() ==> exists|j: int|
                0 <= j < run_layers(fs).len() && run_layers(fs)[j]
                    == #[trigger] usage_run(fs).blobs[k] && forall|i: int|
                    0 <= i < j ==> run_layers(fs)[i].0 != run_layers(fs)[j].0,
        summary_tags(usage_run(fs).tags) == fs.filter(was_fetched()).map_values(fetch_tag()),
        usage_run(fs).skipped_tags == fs.filter(was_skipped()).map_values(fetch_tag()),
        usage_run(fs).tags.len() + usage_run(fs).skipped_tags.len() == fs.len(),
    decreases fs.len(),
{
    lemma_run_parts(fs);
    let l = run_layers(fs);
    law_counted_digests_distinct(Seq::empty(), l);
    assert forall|d: Seq<char>| counted(usage_run(fs).blobs, d) <==> exists|j: int|
        0 <= j < l.len() && #[trigger] l[j].0 == d by {
        law_counted_digests_are_those_seen(Seq::empty(), l, d);
    }
    law_counted_sizes_are_first_seen(l);
}

proof fn lemma_run_parts(fs: Seq<TagFetch>)
    ensures
        usage_run(fs).blobs == count_blobs(Seq::empty(), run_layers(fs)),
        summary_tags(usage_run(fs).tags) == fs.filter(was_fetched()).map_values(fetch_tag()),
        usage_run(fs).skipped_tags == fs.filter(was_skipped()).map_values(fetch_tag()),
        usage_run(fs).tags.len() + usage_run(fs).skipped_tags.len() == fs.len(),
    decreases fs.len(),
{
    reveal(Seq::filter);
    if fs.len() == 0 {
        assert(summary_tags(Seq::empty()) =~= Seq::empty());
        assert(fs.filter(was_fetched()).map_values(fetch_tag()) =~= Seq::empty());
        assert(fs.filter(was_skipped()).map_values(fetch_tag()) =~= Seq::empty());
    } else {
        let init = fs.drop_last();
        let f = fs.last();
        lemma_run_parts(init);
        let v = usage_run(init);
        match f.1 {
            Some((digest, layers)) => {
                lemma_count_blobs_concat(Seq::empty(), run_layers(init), blob_entries(layers));
                assert(fs.filter(was_fetched()) == init.filter(was_fetched()).push(f));
                assert(fs.filter(was_skipped()) == init.filter(was_skipped()));
                assert(summary_tags(usage_run(fs).tags) =~= summary_tags(v.tags).push(f.0));
                assert(init.filter(was_fetched()).push(f).map_values(fetch_tag()) =~= init.filter(
                    was_fetched(),
                ).map_values(fetch_tag()).push(f.0));
            },
            None => {
                assert(run_layers(fs) =~= run_layers(init));
                assert(fs.filter(was_fetched()) == init.filter(was_fetched()));
                assert(fs.filter(was_skipped()) == init.filter(was_skipped()).push(f));
                assert(init.filter(was_skipped()).push(f).map_values(fetch_tag()) =~= init.filter(
                    was_skipped(),
                ).map_values(fetch_tag()).push(f.0));
            },
        }
    }
}

/// The sizes a fetched tag adds to the unique total: those of its blobs
/// not counted before.
pub open spec fn added_sizes(v: DiskUsageView, layers: Seq<Descriptor>) -> Seq<i64> {
    blob_sizes(count_blobs(v.blobs, blob_entries(layers)).skip(v.blobs.len() as int))
}

/// Whether the unique total of a run stays within `i64` after every tag
/// (when it does not, recording the tag reports the overflow instead).
pub open spec fn run_fits(fs: Seq<TagFetch>) -> bool
    decreases fs.len(),
{
    if fs.len() == 0 {
        true
    } else {
        run_fits(fs.drop_last()) && match fs.last().1 {
            Some((_, layers)) => i64::MIN <= usage_run(fs.drop_last()).unique_size_bytes + total(
                added_sizes(usage_run(fs.drop_last()), layers),
            ) <= i64::MAX,
            None => true,
        }
    }
}

/// Over a whole run whose totals fit: the unique size is the sum of the
/// sizes of the distinct blobs counted (each with the size first seen), and
/// the unique count is their number.
pub proof fn law_disk_usage_totals(fs: Seq<TagFetch>)
    requires
        run_fits(fs),
    ensures
        usage_run(fs).unique_size_bytes == total(blob_sizes(usage_run(fs).blobs)),
        usage_run(fs).blobs.len() == count_blobs(Seq::empty(), run_layers(fs)).len(),
    decreases fs.len(),
{
    law_disk_usage_run(fs);
    if fs.len() == 0 {
        assert(blob_sizes(Seq::<(Seq<char>, i64)>::empty()) =~= Seq::<i64>::empty());
    } else {
        let init = fs.drop_last();
        law_disk_usage_totals(init);
        let v = usage_run(init);
        match fs.last().1 {
            Some((_, layers)) => {
                let blobs = count_blobs(v.blobs, blob_entries(layers));
                lemma_count_blobs_extends(v.blobs, blob_entries(layers));
                let rest = blobs.skip(v.blobs.len() as int);
                assert(blobs =~= v.blobs + rest);
                assert(blob_sizes(blobs) =~= blob_sizes(v.blobs) + blob_sizes(rest));
                lemma_total_concat(blob_sizes(v.blobs), blob_sizes(rest));
            },
            None => {},
        }
    }
}

} // verus!
