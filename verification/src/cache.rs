//! Per-frame resource caches: logical asset handles mapped to their
//! uploaded GPU counterparts.
//!
//! Each cache owns upload-on-miss and rebuild-on-stale logic: a lookup
//! with an unchanged (handle, version) pair is a hit and changes
//! nothing; a stale entry is rebuilt in place; a handle with no backing
//! data resolves to nothing for this frame and its stale entry is
//! evicted. At most one GPU object exists per logical handle at a time,
//! and a second lookup of the same unchanged handle triggers no second
//! build.

use vstd::prelude::*;
use crate::framework::geometry_buffer::{ElementKind, GeometryBuffer, GeometryBufferKind};
use crate::framework::gpu_program::{
    prepare_source_code, prepared_source, shared_source_bytes, shared_source_text,
};
use crate::framework::gpu_texture::{
    GpuTexture, GpuTextureKind, MagnificationFilter, MinificationFilter, PixelKind,
};
use crate::framework::state::{DeviceCommand, PipelineState};
use vstd::string::StringSliceAdditionalSpecFns;

verus! {

/// One cache slot: a logical handle, the version of the asset the slot
/// was built from, and the GPU object.
#[derive(Clone, Copy, Debug, PartialEq, Eq)]
pub struct CacheEntry<T> {
    pub handle: u64,
    pub version: u64,
    pub value: T,
}

/// First index at or after `from` whose entry has handle `h`, or the
/// length.
pub open spec fn store_find<T>(s: Seq<CacheEntry<T>>, h: u64, from: int) -> int
    decreases s.len() - from,
{
    if from < 0 || from >= s.len() {
        s.len() as int
    } else if s[from].handle == h {
        from
    } else {
        store_find(s, h, from + 1)
    }
}

/// The cache invariant: at most one entry per logical handle.
pub open spec fn store_wf<T>(s: Seq<CacheEntry<T>>) -> bool {
    forall|i: int, j: int|
        0 <= i < j < s.len() ==> (#[trigger] s[i]).handle != (#[trigger] s[j]).handle
}

/// What [`store_find`] finds: the first entry with the handle, after
/// entries without it; the length means no entry has it.
pub proof fn lemma_store_find_char<T>(s: Seq<CacheEntry<T>>, h: u64, from: int)
    requires
        0 <= from <= s.len(),
    ensures
        from <= store_find(s, h, from) <= s.len(),
        store_find(s, h, from) < s.len() ==> s[store_find(s, h, from)].handle == h,
        forall|j: int| from <= j < store_find(s, h, from) ==> (#[trigger] s[j]).handle != h,
    decreases s.len() - from,
{
    if from < s.len() && s[from].handle != h {
        lemma_store_find_char(s, h, from + 1);
    }
}

/// If `k` is the first index at or after `from` whose handle is `h`,
/// the search finds it.
pub proof fn lemma_store_find_is<T>(s: Seq<CacheEntry<T>>, h: u64, from: int, k: int)
    requires
        0 <= from <= k < s.len(),
        s[k].handle == h,
        forall|j: int| from <= j < k ==> (#[trigger] s[j]).handle != h,
    ensures
        store_find(s, h, from) == k,
    decreases k - from,
{
    if from < k {
        lemma_store_find_is(s, h, from + 1, k);
    }
}

/// If no entry at or after `from` has handle `h`, the search yields the
/// length.
pub proof fn lemma_store_find_none<T>(s: Seq<CacheEntry<T>>, h: u64, from: int)
    requires
        0 <= from <= s.len(),
        forall|j: int| from <= j < s.len() ==> (#[trigger] s[j]).handle != h,
    ensures
        store_find(s, h, from) == s.len(),
    decreases s.len() - from,
{
    if from < s.len() {
        lemma_store_find_none(s, h, from + 1);
    }
}

/// Finds the entry for a handle, matching [`store_find`].
fn store_find_index<T>(entries: &Vec<CacheEntry<T>>, h: u64) -> (r: usize)
    ensures
        r as int == store_find(entries@, h, 0),
{
    let mut i: usize = 0;
    while i < entries.len()
        invariant
            i <= entries@.len(),
            store_find(entries@, h, 0) == store_find(entries@, h, i as int),
        decreases entries@.len() - i,
    {
        if entries[i].handle == h {
            return i;
        }
        i = i + 1;
    }
    i
}

/// The entries after storing `e`: replaces the entry with `e.handle` in
/// place if one exists, appends otherwise.
pub open spec fn store_put_spec<T>(s: Seq<CacheEntry<T>>, e: CacheEntry<T>) -> Seq<CacheEntry<T>> {
    if store_find(s, e.handle, 0) < s.len() {
        s.update(store_find(s, e.handle, 0), e)
    } else {
        s.push(e)
    }
}

/// The entries after evicting handle `h`, if present.
pub open spec fn store_evict_spec<T>(s: Seq<CacheEntry<T>>, h: u64) -> Seq<CacheEntry<T>> {
    if store_find(s, h, 0) < s.len() {
        s.remove(store_find(s, h, 0))
    } else {
        s
    }
}

/// Stores an entry, replacing in place or appending; keeps the
/// one-entry-per-handle invariant.
fn store_put<T>(entries: &mut Vec<CacheEntry<T>>, e: CacheEntry<T>)
    requires
        store_wf(old(entries)@),
    ensures
        final(entries)@ == store_put_spec(old(entries)@, e),
        store_wf(final(entries)@),
{
    proof {
        lemma_store_find_char(entries@, e.handle, 0);
    }
    let i = store_find_index(entries, e.handle);
    if i < entries.len() {
        entries.remove(i);
        entries.insert(i, e);
        proof {
            assert(entries@ =~= old(entries)@.update(i as int, e));
            assert forall|a: int, b: int|
                0 <= a < b < entries@.len() implies (#[trigger] entries@[a]).handle != (
            #[trigger] entries@[b]).handle by {
                assert(old(entries)@[a].handle != old(entries)@[b].handle);
                assert(entries@[a].handle == if a == i {
                    e.handle
                } else {
                    old(entries)@[a].handle
                });
                assert(old(entries)@[i as int].handle == e.handle);
            };
        }
    } else {
        entries.push(e);
        proof {
            assert forall|a: int, b: int|
                0 <= a < b < entries@.len() implies (#[trigger] entries@[a]).handle != (
            #[trigger] entries@[b]).handle by {
                if b < old(entries)@.len() {
                    assert(old(entries)@[a].handle != old(entries)@[b].handle);
                } else {
                    assert(entries@[b] == e);
                    assert(old(entries)@[a].handle != e.handle);
                }
            };
        }
    }
}

/// Evicts the entry for a handle, if present; keeps the invariant.
fn store_evict<T>(entries: &mut Vec<CacheEntry<T>>, h: u64)
    requires
        store_wf(old(entries)@),
    ensures
        final(entries)@ == store_evict_spec(old(entries)@, h),
        store_wf(final(entries)@),
{
    proof {
        lemma_store_find_char(entries@, h, 0);
    }
    let i = store_find_index(entries, h);
    if i < entries.len() {
        entries.remove(i);
        proof {
            assert forall|a: int, b: int|
                0 <= a < b < entries@.len() implies (#[trigger] entries@[a]).handle != (
            #[trigger] entries@[b]).handle by {
                let oa = if a < i { a } else { a + 1 };
                let ob = if b < i { b } else { b + 1 };
                assert(entries@[a] == old(entries)@[oa]);
                assert(entries@[b] == old(entries)@[ob]);
                assert(old(entries)@[oa].handle != old(entries)@[ob].handle);
            };
        }
    }
}

/// The entry a handle resolves to, if any.
pub open spec fn store_lookup<T>(s: Seq<CacheEntry<T>>, h: u64) -> Option<CacheEntry<T>> {
    if store_find(s, h, 0) < s.len() {
        Some(s[store_find(s, h, 0)])
    } else {
        None
    }
}

/// Storing an entry only changes the lookup of its own handle.
pub proof fn lemma_store_put_lookup<T>(s: Seq<CacheEntry<T>>, e: CacheEntry<T>, h: u64)
    requires
        store_wf(s),
    ensures
        store_lookup(store_put_spec(s, e), h) == if e.handle == h {
            Some(e)
        } else {
            store_lookup(s, h)
        },
{
    lemma_store_find_char(s, e.handle, 0);
    lemma_store_find_char(s, h, 0);
    let i = store_find(s, e.handle, 0);
    if i < s.len() {
        let s1 = s.update(i, e);
        assert(s[i].handle == e.handle);
        assert forall|j: int| 0 <= j < s1.len() implies (#[trigger] s1[j]).handle == s[j].handle by {
        };
        if e.handle == h {
            assert forall|j: int| 0 <= j < i implies (#[trigger] s1[j]).handle != h by {
                assert(s1[j] == s[j]);
            };
            lemma_store_find_is(s1, h, 0, i);
        } else {
            let k = store_find(s, h, 0);
            if k < s.len() {
                assert forall|j: int| 0 <= j < k implies (#[trigger] s1[j]).handle != h by {
                    assert(s1[j].handle == s[j].handle);
                };
                lemma_store_find_is(s1, h, 0, k);
                assert(k != i);
                assert(s1[k] == s[k]);
            } else {
                assert forall|j: int| 0 <= j < s1.len() implies (#[trigger] s1[j]).handle != h by {
                    assert(s1[j].handle == s[j].handle);
                };
                lemma_store_find_none(s1, h, 0);
            }
        }
    } else {
        let s1 = s.push(e);
        if e.handle == h {
            assert forall|j: int| 0 <= j < s.len() implies (#[trigger] s1[j]).handle != h by {
                assert(s1[j] == s[j]);
            };
            lemma_store_find_is(s1, h, 0, s.len() as int);
        } else {
            let k = store_find(s, h, 0);
            if k < s.len() {
                assert forall|j: int| 0 <= j < k implies (#[trigger] s1[j]).handle != h by {
                    assert(s1[j] == s[j]);
                };
                assert(s1[k] == s[k]);
                lemma_store_find_is(s1, h, 0, k);
            } else {
                assert forall|j: int| 0 <= j < s1.len() implies (#[trigger] s1[j]).handle != h by {
                    if j < s.len() {
                        assert(s1[j] == s[j]);
                    } else {
                        assert(s1[j] == e);
                    }
                };
                lemma_store_find_none(s1, h, 0);
            }
        }
    }
}

/// Evicting a handle only changes the lookup of that handle.
pub proof fn lemma_store_evict_lookup<T>(s: Seq<CacheEntry<T>>, h2: u64, h: u64)
    requires
        store_wf(s),
    ensures
        store_lookup(store_evict_spec(s, h2), h) == if h2 == h {
            Option::<CacheEntry<T>>::None
        } else {
            store_lookup(s, h)
        },
{
    lemma_store_find_char(s, h2, 0);
    lemma_store_find_char(s, h, 0);
    let i = store_find(s, h2, 0);
    if i < s.len() {
        let s1 = s.remove(i);
        if h2 == h {
            assert forall|j: int| 0 <= j < s1.len() implies (#[trigger] s1[j]).handle != h by {
                if j < i {
                    assert(s1[j] == s[j]);
                } else {
                    assert(s1[j] == s[j + 1]);
                    assert(s[i].handle != s[j + 1].handle);
                }
            };
            lemma_store_find_none(s1, h, 0);
        } else {
            let k = store_find(s, h, 0);
            if k < s.len() {
                assert(k != i);
                let k1 = if k < i {
                    k
                } else {
                    k - 1
                };
                assert(s1[k1] == s[k]);
                assert forall|j: int| 0 <= j < k1 implies (#[trigger] s1[j]).handle != h by {
                    if j < i {
                        assert(s1[j] == s[j]);
                    } else {
                        assert(s1[j] == s[j + 1]);
                    }
                };
                lemma_store_find_is(s1, h, 0, k1);
            } else {
                assert forall|j: int| 0 <= j < s1.len() implies (#[trigger] s1[j]).handle != h by {
                    if j < i {
                        assert(s1[j] == s[j]);
                    } else {
                        assert(s1[j] == s[j + 1]);
                    }
                };
                lemma_store_find_none(s1, h, 0);
            }
        }
    }
}

/// Whether a lookup of (`h`, `v`) hits an up-to-date entry.
pub open spec fn store_hit<T>(s: Seq<CacheEntry<T>>, h: u64, v: u64) -> bool {
    store_find(s, h, 0) < s.len() && s[store_find(s, h, 0)].version == v
}

/// The entries after one lookup of (`h`, `v`): evicted when the asset
/// has no backing data (unloaded), unchanged on an up-to-date hit,
/// rebuilt in place or inserted otherwise.
pub open spec fn store_get_entries<T>(
    s: Seq<CacheEntry<T>>,
    h: u64,
    v: u64,
    has_data: bool,
    built: CacheEntry<T>,
) -> Seq<CacheEntry<T>> {
    if !has_data {
        store_evict_spec(s, h)
    } else if store_hit(s, h, v) {
        s
    } else {
        store_put_spec(s, built)
    }
}

/// Whether one lookup of (`h`, `v`) triggers a build.
pub open spec fn store_get_builds<T>(s: Seq<CacheEntry<T>>, h: u64, v: u64, has_data: bool) -> bool {
    has_data && !store_hit(s, h, v)
}

/// Cache lookups are idempotent: after one lookup of an unchanged
/// handle, a second lookup of the same handle hits the same entry (when
/// data exists), changes nothing, and triggers no second build.
pub proof fn lemma_store_get_idempotent<T>(
    s: Seq<CacheEntry<T>>,
    h: u64,
    v: u64,
    has_data: bool,
    built: CacheEntry<T>,
)
    requires
        store_wf(s),
        built.handle == h,
        built.version == v,
    ensures
        ({
            let s1 = store_get_entries(s, h, v, has_data, built);
            &&& has_data ==> store_hit(s1, h, v)
            &&& !store_get_builds(s1, h, v, has_data)
            &&& forall|built2: CacheEntry<T>|
                (built2.handle == h && built2.version == v) ==> store_get_entries(
                    s1,
                    h,
                    v,
                    has_data,
                    built2,
                ) == s1
            &&& has_data ==> s1[store_find(s1, h, 0)] == if store_hit(s, h, v) {
                s[store_find(s, h, 0)]
            } else {
                built
            }
        }),
{
    lemma_store_find_char(s, h, 0);
    let i = store_find(s, h, 0);
    if !has_data {
        if i < s.len() {
            let s1 = s.remove(i);
            assert forall|j: int| 0 <= j < s1.len() implies (#[trigger] s1[j]).handle != h by {
                if j < i {
                    assert(s1[j] == s[j]);
                } else {
                    assert(s1[j] == s[j + 1]);
                    assert(s[i].handle == h);
                    assert(s[i].handle != s[j + 1].handle);
                }
            };
            lemma_store_find_none(s1, h, 0);
        }
    } else if store_hit(s, h, v) {
        // Hit: nothing changes, and the second lookup hits the same slot.
    } else {
        if i < s.len() {
            let s1 = s.update(i, built);
            assert forall|j: int| 0 <= j < i implies (#[trigger] s1[j]).handle != h by {
                assert(s1[j] == s[j]);
            };
            lemma_store_find_is(s1, h, 0, i);
        } else {
            let s1 = s.push(built);
            assert forall|j: int| 0 <= j < s.len() implies (#[trigger] s1[j]).handle != h by {
                assert(s1[j] == s[j]);
            };
            lemma_store_find_is(s1, h, 0, s.len() as int);
        }
    }
}

/// A texture asset snapshot: a logical handle, the version counter of
/// its backing data, and the pixel data when it is loaded.
#[derive(Clone, Debug, PartialEq, Eq)]
pub struct TextureResource {
    pub handle: u64,
    pub version: u64,
    pub data: Option<TexturePixelData>,
}

/// The decoded pixels of a texture asset, ready for upload.
#[derive(Clone, Debug, PartialEq, Eq)]
pub struct TexturePixelData {
    pub kind: GpuTextureKind,
    pub pixel_kind: PixelKind,
    pub bytes: Vec<u8>,
}

/// The texture a cache build uploads for a given data snapshot and
/// device id.
pub open spec fn built_texture(id: u32, kind: GpuTextureKind, pixel_kind: PixelKind) -> GpuTexture {
    GpuTexture {
        id,
        kind,
        pixel_kind,
        minification_filter: MinificationFilter::Linear,
        magnification_filter: MagnificationFilter::Linear,
        mip_count: 1,
    }
}

/// What a texture lookup returns: nothing when the asset is unloaded,
/// the cached texture id on an up-to-date hit, the freshly allocated id
/// otherwise.
pub open spec fn texture_get_result(
    s: Seq<CacheEntry<GpuTexture>>,
    next_id: u32,
    res: TextureResource,
) -> Option<u32> {
    if res.data is None {
        Option::<u32>::None
    } else if store_hit(s, res.handle, res.version) {
        Some(s[store_find(s, res.handle, 0)].value.id)
    } else {
        Some(next_id)
    }
}

/// The entry a texture lookup of `res` would build.
pub open spec fn texture_built_entry(next_id: u32, res: TextureResource) -> CacheEntry<
    GpuTexture,
> {
    CacheEntry {
        handle: res.handle,
        version: res.version,
        value: built_texture(next_id, res.data->0.kind, res.data->0.pixel_kind),
    }
}

/// Maps texture asset handles to uploaded GPU textures.
pub struct TextureCache {
    pub entries: Vec<CacheEntry<GpuTexture>>,
    pub builds: u64,
}

impl TextureCache {
    /// An empty cache.
    pub fn new() -> (r: TextureCache)
        ensures
            r.entries@.len() == 0,
            r.builds == 0,
    {
        TextureCache { entries: Vec::new(), builds: 0 }
    }

    /// How many uploads this cache has performed.
    pub fn build_count(&self) -> (r: u64)
        ensures
            r == self.builds,
    {
        self.builds
    }

    /// Looks a texture asset up, uploading or rebuilding it if needed.
    /// Returns the device texture id backing the handle this frame, or
    /// nothing when the asset has no data to build from.
    pub fn get(&mut self, state: &mut PipelineState, res: &TextureResource) -> (r: Option<u32>)
        requires
            store_wf(old(self).entries@),
            old(state).next_id < 0xFFFF_FFFFu32,
            old(self).builds < 0xFFFF_FFFF_FFFF_FFFFu64,
        ensures
            store_wf(final(self).entries@),
            crate::framework::state::draw_seq(final(state).commands@)
                == crate::framework::state::draw_seq(old(state).commands@),
            r == texture_get_result(old(self).entries@, old(state).next_id, *res),
            final(self).entries@ == store_get_entries(
                old(self).entries@,
                res.handle,
                res.version,
                res.data is Some,
                texture_built_entry(old(state).next_id, *res),
            ),
            final(self).builds == old(self).builds + if store_get_builds(
                old(self).entries@,
                res.handle,
                res.version,
                res.data is Some,
            ) {
                1int
            } else {
                0int
            },
            store_get_builds(
                old(self).entries@,
                res.handle,
                res.version,
                res.data is Some,
            ) ==> {
                &&& final(state).next_id == old(state).next_id + 1
                &&& final(state).commands@ == old(state).commands@.push(
                    DeviceCommand::CreateTexture {
                        id: old(state).next_id,
                        kind: res.data->0.kind,
                        pixel_kind: res.data->0.pixel_kind,
                        minification_filter: MinificationFilter::Linear,
                        magnification_filter: MagnificationFilter::Linear,
                        mip_count: 1,
                        with_data: true,
                    },
                )
                &&& final(state).cache == old(state).cache
            },
            !store_get_builds(
                old(self).entries@,
                res.handle,
                res.version,
                res.data is Some,
            ) ==> *final(state) == *old(state),
    {
        proof {
            lemma_store_find_char(self.entries@, res.handle, 0);
        }
        match &res.data {
            Some(data) => {
                let i = store_find_index(&self.entries, res.handle);
                if i < self.entries.len() && self.entries[i].version == res.version {
                    let id = self.entries[i].value.id;
                    return Some(id);
                }
                let texture = match GpuTexture::new(
                    state,
                    data.kind,
                    data.pixel_kind,
                    MinificationFilter::Linear,
                    MagnificationFilter::Linear,
                    1,
                    Some(&data.bytes),
                ) {
                    Ok(t) => t,
                    Err(_) => {
                        proof {
                            assert(false);
                        }
                        return None;
                    },
                };
                let id = texture.id();
                store_put(
                    &mut self.entries,
                    CacheEntry { handle: res.handle, version: res.version, value: texture },
                );
                self.builds = self.builds + 1;
                proof {
                    assert(state.commands@.subrange(0, old(state).commands@.len() as int)
                        =~= old(state).commands@);
                    crate::framework::state::lemma_draw_seq_extend_non_draws(
                        old(state).commands@,
                        state.commands@,
                    );
                }
                Some(id)
            },
            None => {
                store_evict(&mut self.entries, res.handle);
                None
            },
        }
    }
}

/// A geometry (surface data) asset snapshot.
#[derive(Clone, Debug, PartialEq, Eq)]
pub struct SurfaceResource {
    pub handle: u64,
    pub version: u64,
    pub data: Option<SurfaceSource>,
}

/// The vertex and triangle counts a surface uploads.
#[derive(Clone, Copy, Debug, PartialEq, Eq, Structural)]
pub struct SurfaceSource {
    pub vertex_count: usize,
    pub triangle_count: usize,
}

/// The geometry buffer a cache build creates for a surface snapshot.
pub open spec fn built_geometry(id: u32, src: SurfaceSource) -> GeometryBuffer {
    GeometryBuffer {
        id,
        element_kind: ElementKind::Triangle,
        kind: GeometryBufferKind::StaticDraw,
        vertex_count: src.vertex_count,
        triangle_count: src.triangle_count,
    }
}

/// What a surface lookup returns: nothing when the surface is unloaded,
/// the cached buffer on an up-to-date hit, the freshly built buffer
/// otherwise.
pub open spec fn geometry_get_result(
    s: Seq<CacheEntry<GeometryBuffer>>,
    next_id: u32,
    res: SurfaceResource,
) -> Option<GeometryBuffer> {
    if res.data is None {
        Option::<GeometryBuffer>::None
    } else if store_hit(s, res.handle, res.version) {
        Some(s[store_find(s, res.handle, 0)].value)
    } else {
        Some(built_geometry(next_id, res.data->0))
    }
}

/// Maps surface-data handles to uploaded geometry buffers.
pub struct GeometryCache {
    pub entries: Vec<CacheEntry<GeometryBuffer>>,
    pub builds: u64,
}

impl GeometryCache {
    /// An empty cache.
    pub fn new() -> (r: GeometryCache)
        ensures
            r.entries@.len() == 0,
            r.builds == 0,
    {
        GeometryCache { entries: Vec::new(), builds: 0 }
    }

    /// Looks surface data up, uploading or rebuilding its geometry
    /// buffer if needed. Returns the buffer to draw with, or nothing
    /// when the surface has no data this frame.
    pub fn get(&mut self, state: &mut PipelineState, res: &SurfaceResource) -> (r: Option<
        GeometryBuffer,
    >)
        requires
            store_wf(old(self).entries@),
            old(state).next_id < 0xFFFF_FFFFu32,
            old(self).builds < 0xFFFF_FFFF_FFFF_FFFFu64,
        ensures
            store_wf(final(self).entries@),
            crate::framework::state::draw_seq(final(state).commands@)
                == crate::framework::state::draw_seq(old(state).commands@),
            r == geometry_get_result(old(self).entries@, old(state).next_id, *res),
            final(self).entries@ == store_get_entries(
                old(self).entries@,
                res.handle,
                res.version,
                res.data is Some,
                CacheEntry {
                    handle: res.handle,
                    version: res.version,
                    value: built_geometry(old(state).next_id, res.data->0),
                },
            ),
            final(self).builds == old(self).builds + if store_get_builds(
                old(self).entries@,
                res.handle,
                res.version,
                res.data is Some,
            ) {
                1int
            } else {
                0int
            },
            store_get_builds(
                old(self).entries@,
                res.handle,
                res.version,
                res.data is Some,
            ) ==> {
                &&& final(state).next_id == old(state).next_id + 1
                &&& final(state).commands@ == old(state).commands@.push(
                    DeviceCommand::CreateGeometryBuffer { id: old(state).next_id },
                ).push(
                    DeviceCommand::UploadVertices {
                        buffer: old(state).next_id,
                        count: res.data->0.vertex_count,
                    },
                ).push(
                    DeviceCommand::UploadTriangles {
                        buffer: old(state).next_id,
                        count: res.data->0.triangle_count,
                    },
                )
                &&& final(state).cache == old(state).cache
            },
            !store_get_builds(
                old(self).entries@,
                res.handle,
                res.version,
                res.data is Some,
            ) ==> *final(state) == *old(state),
    {
        proof {
            lemma_store_find_char(self.entries@, res.handle, 0);
        }
        match &res.data {
            Some(src) => {
                let i = store_find_index(&self.entries, res.handle);
                if i < self.entries.len() && self.entries[i].version == res.version {
                    let value = self.entries[i].value;
                    return Some(value);
                }
                let mut buffer = match GeometryBuffer::new(
                    state,
                    ElementKind::Triangle,
                    GeometryBufferKind::StaticDraw,
                ) {
                    Ok(b) => b,
                    Err(_) => {
                        proof {
                            assert(false);
                        }
                        return None;
                    },
                };
                buffer.set_buffer_data(state, src.vertex_count);
                buffer.set_triangles(state, src.triangle_count);
                store_put(
                    &mut self.entries,
                    CacheEntry { handle: res.handle, version: res.version, value: buffer },
                );
                self.builds = self.builds + 1;
                proof {
                    assert(state.commands@.subrange(0, old(state).commands@.len() as int)
                        =~= old(state).commands@);
                    crate::framework::state::lemma_draw_seq_extend_non_draws(
                        old(state).commands@,
                        state.commands@,
                    );
                }
                Some(buffer)
            },
            None => {
                store_evict(&mut self.entries, res.handle);
                None
            },
        }
    }
}

/// Law: a texture-cache lookup is idempotent for an unchanged logical
/// handle. After one lookup of `res`, a second lookup returns the same
/// object identity, changes nothing, and triggers no second build —
/// whatever device id the second lookup would have allocated.
pub proof fn lemma_texture_cache_get_idempotent(
    s: Seq<CacheEntry<GpuTexture>>,
    next_id: u32,
    next_id2: u32,
    res: TextureResource,
)
    requires
        store_wf(s),
    ensures
        ({
            let s1 = store_get_entries(
                s,
                res.handle,
                res.version,
                res.data is Some,
                texture_built_entry(next_id, res),
            );
            &&& texture_get_result(s1, next_id2, res) == texture_get_result(s, next_id, res)
            &&& store_get_entries(
                s1,
                res.handle,
                res.version,
                res.data is Some,
                texture_built_entry(next_id2, res),
            ) == s1
            &&& !store_get_builds(s1, res.handle, res.version, res.data is Some)
        }),
{
    let built = texture_built_entry(next_id, res);
    lemma_store_get_idempotent(s, res.handle, res.version, res.data is Some, built);
    let s1 = store_get_entries(s, res.handle, res.version, res.data is Some, built);
    if res.data is Some {
        lemma_store_find_char(s1, res.handle, 0);
        if store_hit(s, res.handle, res.version) {
            lemma_store_find_char(s, res.handle, 0);
        }
    }
}

/// Render passes a material shader can carry a program for.
#[derive(Clone, Copy, Debug, PartialEq, Eq, Structural)]
pub enum RenderPassKind {
    GBuffer,
    Forward,
    SpotShadow,
    PointShadow,
    DirectionalShadow,
}

/// One render pass of a shader asset: the pass it serves and its two
/// GLSL stages.
#[derive(Clone, Debug, PartialEq, Eq)]
pub struct ShaderPassSource {
    pub kind: RenderPassKind,
    pub vertex_source: Vec<u8>,
    pub fragment_source: Vec<u8>,
}

/// The loaded definition of a shader asset.
#[derive(Clone, Debug, PartialEq, Eq)]
pub struct ShaderSetSource {
    pub passes: Vec<ShaderPassSource>,
}

/// A shader asset snapshot.
#[derive(Clone, Debug, PartialEq, Eq)]
pub struct ShaderResource {
    pub handle: u64,
    pub version: u64,
    pub data: Option<ShaderSetSource>,
}

/// A compiled shader set: one device program per render pass.
#[derive(Clone, Debug, PartialEq, Eq)]
pub struct ShaderSet {
    pub passes: Vec<(RenderPassKind, u32)>,
}

/// The programs a shader-set build creates: pass `k` gets device id
/// `next_id + k`.
pub open spec fn built_passes(next_id: u32, d: ShaderSetSource) -> Seq<(RenderPassKind, u32)> {
    Seq::new(d.passes@.len(), |k: int| (d.passes@[k].kind, (next_id + k) as u32))
}

/// The device commands a shader-set build issues: one program creation
/// per pass, ids in order, both stages prepared with the shared chunk.
pub open spec fn shader_build_commands_ok(
    cmds: Seq<DeviceCommand>,
    next_id: u32,
    passes: Seq<ShaderPassSource>,
) -> bool {
    &&& cmds.len() == passes.len()
    &&& forall|k: int|
        0 <= k < passes.len() ==> ((#[trigger] cmds[k]) matches DeviceCommand::CreateProgram {
            id,
            vertex_source,
            fragment_source,
        } && id == next_id + k && vertex_source@ == prepared_source(
            passes[k].vertex_source@,
            shared_source_bytes(),
        ) && fragment_source@ == prepared_source(
            passes[k].fragment_source@,
            shared_source_bytes(),
        ))
}

/// First index at or after `from` of a pass entry for `kind`, or the
/// length.
pub open spec fn pass_find(s: Seq<(RenderPassKind, u32)>, kind: RenderPassKind, from: int) -> int
    decreases s.len() - from,
{
    if from < 0 || from >= s.len() {
        s.len() as int
    } else if s[from].0 == kind {
        from
    } else {
        pass_find(s, kind, from + 1)
    }
}

/// Maps material shader handles to compiled shader sets.
pub struct ShaderCache {
    pub entries: Vec<CacheEntry<ShaderSet>>,
    pub builds: u64,
}

impl ShaderCache {
    /// An empty cache.
    pub fn new() -> (r: ShaderCache)
        ensures
            r.entries@.len() == 0,
            r.builds == 0,
    {
        ShaderCache { entries: Vec::new(), builds: 0 }
    }

    /// Looks a shader asset up, compiling its per-pass programs on a
    /// miss or a stale entry. Returns whether the handle resolves to a
    /// shader set this frame.
    pub fn get(&mut self, state: &mut PipelineState, res: &ShaderResource) -> (r: bool)
        requires
            store_wf(old(self).entries@),
            old(self).builds < 0xFFFF_FFFF_FFFF_FFFFu64,
            res.data matches Some(d) ==> old(state).next_id as int + d.passes@.len()
                < 0x1_0000_0000,
        ensures
            store_wf(final(self).entries@),
            r == (res.data is Some),
            crate::framework::state::draw_seq(final(state).commands@)
                == crate::framework::state::draw_seq(old(state).commands@),
            res.data is None ==> {
                &&& final(self).entries@ == store_evict_spec(old(self).entries@, res.handle)
                &&& final(self).builds == old(self).builds
                &&& *final(state) == *old(state)
            },
            res.data is Some && store_hit(old(self).entries@, res.handle, res.version) ==> {
                &&& final(self).entries@ == old(self).entries@
                &&& final(self).builds == old(self).builds
                &&& *final(state) == *old(state)
            },
            res.data is Some && !store_hit(old(self).entries@, res.handle, res.version) ==> {
                &&& final(self).builds == old(self).builds + 1
                &&& final(state).next_id == old(state).next_id
                    + res.data->0.passes@.len()
                &&& final(state).commands@.len() == old(state).commands@.len()
                    + res.data->0.passes@.len()
                &&& final(state).commands@.subrange(0, old(state).commands@.len() as int) == old(
                    state,
                ).commands@
                &&& shader_build_commands_ok(
                    final(state).commands@.subrange(
                        old(state).commands@.len() as int,
                        final(state).commands@.len() as int,
                    ),
                    old(state).next_id,
                    res.data->0.passes@,
                )
                &&& final(state).cache == old(state).cache
                &&& ({
                    let i = store_find(final(self).entries@, res.handle, 0);
                    &&& i < final(self).entries@.len()
                    &&& final(self).entries@[i].version == res.version
                    &&& final(self).entries@[i].value.passes@ == built_passes(
                        old(state).next_id,
                        res.data->0,
                    )
                    &&& final(self).entries@ == store_put_spec(
                        old(self).entries@,
                        final(self).entries@[i],
                    )
                })
            },
    {
        proof {
            lemma_store_find_char(self.entries@, res.handle, 0);
        }
        match &res.data {
            None => {
                store_evict(&mut self.entries, res.handle);
                false
            },
            Some(d) => {
                let i = store_find_index(&self.entries, res.handle);
                if i < self.entries.len() && self.entries[i].version == res.version {
                    return true;
                }
                let ghost base = state.commands@;
                let ghost n0 = state.next_id;
                let shared = shared_source_text();
                let mut passes: Vec<(RenderPassKind, u32)> = Vec::new();
                let mut k: usize = 0;
                while k < d.passes.len()
                    invariant
                        k <= d.passes@.len(),
                        n0 as int + d.passes@.len() < 0x1_0000_0000,
                        state.next_id == n0 + k,
                        state.commands@.len() == base.len() + k,
                        state.commands@.subrange(0, base.len() as int) == base,
                        shader_build_commands_ok(
                            state.commands@.subrange(
                                base.len() as int,
                                state.commands@.len() as int,
                            ),
                            n0,
                            d.passes@.subrange(0, k as int),
                        ),
                        crate::framework::state::draw_seq(state.commands@)
                            == crate::framework::state::draw_seq(base),
                        state.cache == old(state).cache,
                        passes@ =~= built_passes(n0, *d).subrange(0, k as int),
                        shared.spec_bytes() == shared_source_bytes(),
                    decreases d.passes@.len() - k,
                {
                    let id = state.alloc_id();
                    let vs = prepare_source_code(
                        d.passes[k].vertex_source.as_slice(),
                        shared.as_bytes(),
                    );
                    let fs = prepare_source_code(
                        d.passes[k].fragment_source.as_slice(),
                        shared.as_bytes(),
                    );
                    let cmd = DeviceCommand::CreateProgram {
                        id,
                        vertex_source: vs,
                        fragment_source: fs,
                    };
                    let ghost gcmd = cmd;
                    let ghost pre = state.commands@;
                    state.push_command(cmd);
                    passes.push((d.passes[k].kind, id));
                    k = k + 1;
                    proof {
                        assert(state.commands@.subrange(0, base.len() as int) =~= base);
                        let built_cmds = state.commands@.subrange(
                            base.len() as int,
                            state.commands@.len() as int,
                        );
                        let prev_cmds = pre.subrange(base.len() as int, pre.len() as int);
                        assert forall|kk: int| 0 <= kk < k implies ((#[trigger] built_cmds[kk])
                            matches DeviceCommand::CreateProgram {
                            id,
                            vertex_source,
                            fragment_source,
                        } && id == n0 + kk && vertex_source@ == prepared_source(
                            d.passes@.subrange(0, k as int)[kk].vertex_source@,
                            shared_source_bytes(),
                        ) && fragment_source@ == prepared_source(
                            d.passes@.subrange(0, k as int)[kk].fragment_source@,
                            shared_source_bytes(),
                        )) by {
                            assert(d.passes@.subrange(0, k as int)[kk] == d.passes@[kk]);
                            if kk < k - 1 {
                                assert(built_cmds[kk] == state.commands@[base.len() + kk]);
                                assert(state.commands@[base.len() + kk] == pre[base.len() + kk]);
                                assert(prev_cmds[kk] == pre[base.len() + kk]);
                                assert(d.passes@.subrange(0, k as int - 1)[kk] == d.passes@[kk]);
                            } else {
                                assert(built_cmds[kk] == gcmd);
                            }
                        };
                    }
                }
                proof {
                    assert(d.passes@.subrange(0, d.passes@.len() as int) =~= d.passes@);
                    assert(passes@ =~= built_passes(n0, *d));
                    assert(state.commands@.subrange(0, base.len() as int) =~= base);
                }
                let entry = CacheEntry {
                    handle: res.handle,
                    version: res.version,
                    value: ShaderSet { passes },
                };
                let ghost built = entry;
                store_put(&mut self.entries, entry);
                self.builds = self.builds + 1;
                proof {
                    lemma_store_get_idempotent(
                        old(self).entries@,
                        res.handle,
                        res.version,
                        true,
                        built,
                    );
                }
                true
            },
        }
    }

    /// The program a cached shader set carries for one render pass, or
    /// nothing when the handle has no entry or the set lacks that pass.
    pub fn pass_program(&self, handle: u64, kind: RenderPassKind) -> (r: Option<u32>)
        ensures
            ({
                let i = store_find(self.entries@, handle, 0);
                if i < self.entries@.len() {
                    let ps = self.entries@[i].value.passes@;
                    let j = pass_find(ps, kind, 0);
                    if j < ps.len() {
                        r == Some(ps[j].1)
                    } else {
                        r is None
                    }
                } else {
                    r is None
                }
            }),
    {
        let i = store_find_index(&self.entries, handle);
        if i >= self.entries.len() {
            return None;
        }
        let ps = &self.entries[i].value.passes;
        let mut j: usize = 0;
        while j < ps.len()
            invariant
                j <= ps@.len(),
                i as int == store_find(self.entries@, handle, 0),
                i < self.entries@.len(),
                ps@ == self.entries@[i as int].value.passes@,
                pass_find(ps@, kind, 0) == pass_find(ps@, kind, j as int),
            decreases ps@.len() - j,
        {
            if ps[j].0 == kind {
                proof {
                    assert(pass_find(ps@, kind, j as int) == j as int);
                }
                return Some(ps[j].1);
            }
            j = j + 1;
        }
        None
    }
}

} // verus!
