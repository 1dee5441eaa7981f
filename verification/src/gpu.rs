//! GPU-side synchronization of flow fields: the mirror object, the
//! preparation policy, the upload byte layout, and the shared sampler
//! configuration.
//!
//! A [`GpuFlowField`] mirrors one source field into a sampleable texture.
//! The texture and view handles are opaque identities handed out by the
//! rendering-resource boundary; the decisions of a preparation pass —
//! whether the previous texture can be reused, what is installed on
//! success, that nothing is installed on failure — are made here, in
//! verified code, by [`prepare_asset`] and [`MirrorRegistry::prepare`].
//! The caller performs the actual allocation when (and only when)
//! [`needs_new_texture`] says so, and unconditionally re-uploads the full
//! texel buffer, laid out by [`texel_bytes`], on every pass.

use vstd::prelude::*;

use std::collections::HashMap;

use crate::field::FlowField;
use crate::field::UInt3;

verus! {

broadcast use vstd::std_specs::hash::group_hash_axioms;

/// Opaque identity of a GPU texture, as handed out by the rendering-
/// resource boundary.
pub type TextureId = u64;

/// Opaque identity of a GPU texture view.
pub type TextureViewId = u64;

/// The render-side mirror of one flow field: a texture and a view sized
/// to the field's grid extents, at four half-precision channels per
/// texel.
#[derive(Debug)]
pub struct GpuFlowField {
    /// The source field's descriptive label, if any.
    pub label: Option<String>,
    /// The mirrored field's grid extents.
    pub size: UInt3,
    /// Identity of the mirror's texture.
    pub texture: TextureId,
    /// Identity of the mirror's texture view.
    pub texture_view: TextureViewId,
}

impl GpuFlowField {
    /// The mirrored field's descriptive label, if one was set.
    pub fn label(&self) -> (r: &Option<String>)
        ensures
            r == &self.label,
    {
        &self.label
    }

    /// The mirrored field's grid extents.
    pub fn size(&self) -> (r: UInt3)
        ensures
            r == self.size,
    {
        self.size
    }

    /// The identity of the mirror's texture.
    pub fn texture(&self) -> (r: TextureId)
        ensures
            r == self.texture,
    {
        self.texture
    }

    /// The identity of the mirror's texture view.
    pub fn texture_view(&self) -> (r: TextureViewId)
        ensures
            r == self.texture_view,
    {
        self.texture_view
    }
}

/// Why a preparation pass failed.
#[derive(Clone, Copy, PartialEq, Eq, Structural, Debug)]
pub enum PrepareError {
    /// The rendering-resource boundary supplied no texture although a
    /// new one was needed. The caller may retry on a later pass.
    ResourceMissing,
}

/// Whether the previous mirror's texture can serve the new source: a
/// previous mirror exists and its extents equal the source's.
pub open spec fn spec_reuses(source: FlowField, previous: Option<&GpuFlowField>) -> bool {
    match previous {
        Some(p) => p.size == source.size,
        None => false,
    }
}

/// Whether a preparation pass for `source` must allocate a fresh
/// texture: there is no previous mirror, or its extents differ.
pub fn needs_new_texture(source: &FlowField, previous: Option<&GpuFlowField>) -> (r: bool)
    ensures
        r == !spec_reuses(*source, previous),
{
    match previous {
        Some(p) => !(p.size == source.size),
        None => true,
    }
}

/// One preparation pass decision for a field.
///
/// If the previous mirror's extents equal the source's, its texture and
/// view are reused and `fresh` is not consumed; reallocation is expensive
/// relative to re-upload, so this is deliberate. Otherwise the freshly
/// allocated pair is installed; when a fresh pair is needed but none was
/// supplied, the pass fails and no mirror is produced. The caller
/// re-uploads the full texel buffer (see [`texel_bytes`]) in every
/// successful pass.
pub fn prepare_asset(
    source: &FlowField,
    previous: Option<&GpuFlowField>,
    fresh: Option<(TextureId, TextureViewId)>,
) -> (r: Result<GpuFlowField, PrepareError>)
    ensures
        spec_reuses(*source, previous) ==> (r matches Ok(m) && m.texture
            == previous.unwrap().texture && m.texture_view == previous.unwrap().texture_view),
        !spec_reuses(*source, previous) && fresh is Some ==> (r matches Ok(m) && m.texture
            == fresh.unwrap().0 && m.texture_view == fresh.unwrap().1),
        !spec_reuses(*source, previous) && fresh is None ==> (r matches Err(e) && e
            == PrepareError::ResourceMissing),
        (r matches Ok(m) ==> m.size == source.size && m.label == source.label),
{
    let label = match &source.label {
        Some(s) => Some(s.clone()),
        None => None,
    };
    let reuse = match previous {
        Some(p) => p.size == source.size,
        None => false,
    };
    if reuse {
        let p = previous.unwrap();
        Ok(
            GpuFlowField {
                label,
                size: source.size,
                texture: p.texture,
                texture_view: p.texture_view,
            },
        )
    } else {
        match fresh {
            Some((texture, texture_view)) => Ok(
                GpuFlowField { label, size: source.size, texture, texture_view },
            ),
            None => Err(PrepareError::ResourceMissing),
        }
    }
}

/// Across two preparation passes of one field identity, the texture
/// identity is kept exactly when the grid extents are unchanged: a
/// same-size pass reuses the previous texture, and a changed-size pass
/// installs the fresh allocation, which is distinct whenever the
/// allocator hands out a handle it has not handed out before. The
/// hypotheses about `result` are what [`prepare_asset`] ensures of the
/// second pass.
pub proof fn lemma_mirror_reuse(
    source: FlowField,
    previous: GpuFlowField,
    fresh: (TextureId, TextureViewId),
    result: GpuFlowField,
)
    requires
        previous.size == source.size ==> result.texture == previous.texture,
        previous.size != source.size ==> result.texture == fresh.0,
        fresh.0 != previous.texture,
    ensures
        (result.texture == previous.texture) <==> (previous.size == source.size),
{
}

/// The bytes uploaded to the mirror's texture in one pass: the texels in
/// storage order, eight bytes per texel — four half-precision channels,
/// each little-endian.
pub fn texel_bytes(source: &FlowField) -> (r: Vec<u8>)
    requires
        source.texels@.len() * 8 <= usize::MAX,
    ensures
        r@.len() == source.texels@.len() * 8,
        forall|i: int|
            0 <= i < source.texels@.len() ==> {
                &&& r@[8 * i] == (source.texels@[i].x & 0xFF) as u8
                &&& r@[8 * i + 1] == (source.texels@[i].x >> 8) as u8
                &&& r@[8 * i + 2] == (source.texels@[i].y & 0xFF) as u8
                &&& r@[8 * i + 3] == (source.texels@[i].y >> 8) as u8
                &&& r@[8 * i + 4] == (source.texels@[i].z & 0xFF) as u8
                &&& r@[8 * i + 5] == (source.texels@[i].z >> 8) as u8
                &&& r@[8 * i + 6] == (source.texels@[i].w & 0xFF) as u8
                &&& r@[8 * i + 7] == (source.texels@[i].w >> 8) as u8
            },
{
    let mut bytes: Vec<u8> = Vec::new();
    let mut i: usize = 0;
    while i < source.texels.len()
        invariant
            i <= source.texels@.len(),
            source.texels@.len() * 8 <= usize::MAX,
            bytes@.len() == 8 * i,
            forall|j: int|
                0 <= j < i ==> {
                    &&& bytes@[8 * j] == (source.texels@[j].x & 0xFF) as u8
                    &&& bytes@[8 * j + 1] == (source.texels@[j].x >> 8) as u8
                    &&& bytes@[8 * j + 2] == (source.texels@[j].y & 0xFF) as u8
                    &&& bytes@[8 * j + 3] == (source.texels@[j].y >> 8) as u8
                    &&& bytes@[8 * j + 4] == (source.texels@[j].z & 0xFF) as u8
                    &&& bytes@[8 * j + 5] == (source.texels@[j].z >> 8) as u8
                    &&& bytes@[8 * j + 6] == (source.texels@[j].w & 0xFF) as u8
                    &&& bytes@[8 * j + 7] == (source.texels@[j].w >> 8) as u8
                },
        decreases source.texels@.len() - i,
    {
        let t = source.texels[i];
        bytes.push((t.x & 0xFF) as u8);
        bytes.push((t.x >> 8) as u8);
        bytes.push((t.y & 0xFF) as u8);
        bytes.push((t.y >> 8) as u8);
        bytes.push((t.z & 0xFF) as u8);
        bytes.push((t.z >> 8) as u8);
        bytes.push((t.w & 0xFF) as u8);
        bytes.push((t.w >> 8) as u8);
        i = i + 1;
    }
    bytes
}

/// How a sampler addresses coordinates outside the texture.
#[derive(Clone, Copy, PartialEq, Eq, Structural, Debug)]
pub enum AddressMode {
    /// Coordinates are clamped to the texture's edge.
    ClampToEdge,
    /// Coordinates wrap around the texture.
    Repeat,
}

/// How a sampler interpolates between texels.
#[derive(Clone, Copy, PartialEq, Eq, Structural, Debug)]
pub enum FilterMode {
    /// Linear interpolation.
    Linear,
    /// Nearest-texel lookup.
    Nearest,
}

/// The single sampler resource shared process-wide by every flow field
/// mirror; created once at startup and never rebuilt.
pub struct FlowFieldSampler {
    /// Opaque identity of the sampler resource.
    pub sampler: u64,
}

/// The configuration of the shared flow field sampler.
pub struct SamplerConfig {
    /// Addressing on the first texture axis.
    pub address_mode_u: AddressMode,
    /// Addressing on the second texture axis.
    pub address_mode_v: AddressMode,
    /// Addressing on the third texture axis.
    pub address_mode_w: AddressMode,
    /// Magnification filtering.
    pub mag_filter: FilterMode,
    /// Minification filtering.
    pub min_filter: FilterMode,
    /// Filtering between mipmap levels.
    pub mipmap_filter: FilterMode,
}

/// The flow field sampler's configuration: linear filtering with
/// clamp-to-edge addressing on every axis.
pub fn flow_field_sampler_config() -> (r: SamplerConfig)
    ensures
        r.address_mode_u == AddressMode::ClampToEdge,
        r.address_mode_v == AddressMode::ClampToEdge,
        r.address_mode_w == AddressMode::ClampToEdge,
        r.mag_filter == FilterMode::Linear,
        r.min_filter == FilterMode::Linear,
        r.mipmap_filter == FilterMode::Linear,
{
    SamplerConfig {
        address_mode_u: AddressMode::ClampToEdge,
        address_mode_v: AddressMode::ClampToEdge,
        address_mode_w: AddressMode::ClampToEdge,
        mag_filter: FilterMode::Linear,
        min_filter: FilterMode::Linear,
        mipmap_filter: FilterMode::Linear,
    }
}

/// The error reported when a field's prepared mirror is needed but none
/// exists yet for its identity; the caller may prepare and retry.
#[derive(Clone, Copy, PartialEq, Eq, Structural, Debug)]
pub struct FlowFieldMissingError {
    /// The identity whose mirror was missing.
    pub id: u64,
}

/// The prepared mirrors, keyed by field identity.
///
/// One preparation pass per changed field runs against this registry: it
/// either fully completes (the new mirror is installed) or fully fails
/// (the registry keeps its prior state), never anything in between.
pub struct MirrorRegistry {
    /// The prepared mirror of each field identity.
    pub mirrors: HashMap<u64, GpuFlowField>,
}

impl MirrorRegistry {
    /// An empty registry: no field has a prepared mirror yet.
    pub fn new() -> (r: MirrorRegistry)
        ensures
            r.mirrors@ == Map::<u64, GpuFlowField>::empty(),
    {
        MirrorRegistry { mirrors: HashMap::new() }
    }

    /// The prepared mirror for `id`, or [`FlowFieldMissingError`] when
    /// none exists yet.
    pub fn get(&self, id: u64) -> (r: Result<&GpuFlowField, FlowFieldMissingError>)
        ensures
            self.mirrors@.contains_key(id) ==> (r matches Ok(m) && *m == self.mirrors@[id]),
            !self.mirrors@.contains_key(id) ==> (r matches Err(e) && e.id == id),
    {
        match self.mirrors.get(&id) {
            Some(m) => Ok(m),
            None => Err(FlowFieldMissingError { id }),
        }
    }

    /// Runs one preparation pass for the field with identity `id`: reuses
    /// the registered mirror's texture when the extents are unchanged,
    /// installs the fresh allocation otherwise, and on failure leaves the
    /// registry exactly as it was.
    pub fn prepare(
        &mut self,
        id: u64,
        source: &FlowField,
        fresh: Option<(TextureId, TextureViewId)>,
    ) -> (r: Result<(), PrepareError>)
        ensures
            (old(self).mirrors@.contains_key(id) && old(self).mirrors@[id].size == source.size)
                || fresh is Some ==> r is Ok,
            !(old(self).mirrors@.contains_key(id) && old(self).mirrors@[id].size == source.size)
                && fresh is None ==> r is Err,
            r is Ok ==> {
                &&& final(self).mirrors@.contains_key(id)
                &&& final(self).mirrors@[id].size == source.size
                &&& final(self).mirrors@ == old(self).mirrors@.insert(
                    id,
                    final(self).mirrors@[id],
                )
                &&& (old(self).mirrors@.contains_key(id) && old(self).mirrors@[id].size
                    == source.size ==> final(self).mirrors@[id].texture
                    == old(self).mirrors@[id].texture)
                &&& (!(old(self).mirrors@.contains_key(id) && old(self).mirrors@[id].size
                    == source.size) ==> fresh is Some && final(self).mirrors@[id].texture
                    == fresh.unwrap().0)
            },
            r is Err ==> final(self).mirrors@ == old(self).mirrors@ && (r matches Err(e) && e
                == PrepareError::ResourceMissing),
    {
        let previous = self.mirrors.get(&id);
        match prepare_asset(source, previous, fresh) {
            Ok(mirror) => {
                self.mirrors.insert(id, mirror);
                Ok(())
            },
            Err(e) => Err(e),
        }
    }
}

} // verus!
