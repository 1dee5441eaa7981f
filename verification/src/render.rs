//! Render-world bookkeeping for regions of flows: the extracted
//! snapshot of each flow, the per-region table assigning texture
//! indices to field identities, and the packed per-flow uniform
//! records.
//!
//! The GPU buffer writes themselves belong to the rendering-resource
//! boundary; what is verified here is what ends up in the records: which
//! texture index each flow receives, that an index is assigned at most
//! once per field identity, and that a missing mirror is reported as
//! [`FlowFieldMissingError`] for exactly the first flow whose field has
//! none.

use vstd::prelude::*;

use std::collections::HashMap;

use crate::flow::FlowFlags;
use crate::flow::FlowInfluence;
use crate::flow::FlowLayers;
use crate::generator::Affine3;
use crate::gpu::FlowFieldMissingError;
use crate::gpu::GpuFlowField;
use crate::gpu::MirrorRegistry;
use crate::gpu::TextureViewId;
use crate::activity::Aabb3;
use crate::vector::Float3;
use crate::vector::Float4;

verus! {

broadcast use vstd::std_specs::hash::group_hash_axioms;

/// Names the plugin that installs this module's systems into the
/// application shell; the wiring itself lives outside the verified core.
pub struct VaneRenderPlugin;

/// The render-world snapshot of one flow, extracted from the simulation
/// world once per pass.
pub struct ExtractedFlow {
    /// The flow's world transform.
    pub transform: Affine3,
    /// The flow's bounding box.
    pub aabb: Aabb3,
    /// Identity of the flow field asset the flow samples from.
    pub field_id: u64,
    /// Which velocity-inheritance behaviours the flow carries.
    pub flags: FlowFlags,
    /// The flow's layer mask.
    pub layers: FlowLayers,
    /// How strongly the flow contributes.
    pub influence: FlowInfluence,
    /// The flow's inherited linear velocity.
    pub linear_velocity: Float3,
    /// The flow's inherited angular velocity.
    pub angular_velocity: Float3,
}

/// The render-world snapshot of one region: the flows it contains, in
/// the order the extraction delivered them.
pub struct ExtractedRegion {
    /// The region's extracted flows.
    pub flows: Vec<ExtractedFlow>,
}

/// The scale, rotation and translation that
/// `bevy_math`'s transform decomposition reads out of the affine
/// transform with the given column-major entries: three scale lanes,
/// four rotation lanes, three translation lanes, in that order.
pub uninterp spec fn srt_bits(entries: Seq<u32>) -> Seq<u32>;

/// The scale part of the decomposition of `entries`.
pub open spec fn spec_srt_scale(entries: Seq<u32>) -> Float3 {
    Float3 { x: srt_bits(entries)[0], y: srt_bits(entries)[1], z: srt_bits(entries)[2] }
}

/// The rotation part of the decomposition of `entries`.
pub open spec fn spec_srt_rotation(entries: Seq<u32>) -> Float4 {
    Float4 {
        x: srt_bits(entries)[3],
        y: srt_bits(entries)[4],
        z: srt_bits(entries)[5],
        w: srt_bits(entries)[6],
    }
}

/// The translation part of the decomposition of `entries`.
pub open spec fn spec_srt_translation(entries: Seq<u32>) -> Float3 {
    Float3 { x: srt_bits(entries)[7], y: srt_bits(entries)[8], z: srt_bits(entries)[9] }
}

/// Relies on `bevy_math::Affine3A::to_scale_rotation_translation`: the
/// decomposition is a function of the transform's entries alone.
#[verifier::external_body]
fn decompose_affine(transform: &Affine3) -> (r: (Float3, Float4, Float3))
    ensures
        r.0.x == srt_bits(transform.entries@)[0],
        r.0.y == srt_bits(transform.entries@)[1],
        r.0.z == srt_bits(transform.entries@)[2],
        r.1.x == srt_bits(transform.entries@)[3],
        r.1.y == srt_bits(transform.entries@)[4],
        r.1.z == srt_bits(transform.entries@)[5],
        r.1.w == srt_bits(transform.entries@)[6],
        r.2.x == srt_bits(transform.entries@)[7],
        r.2.y == srt_bits(transform.entries@)[8],
        r.2.z == srt_bits(transform.entries@)[9],
{
    let a = bevy_math::Affine3A::from_cols_array(&bytemuck::cast(transform.entries));
    let (scale, rotation, translation) = a.to_scale_rotation_translation();
    let s = scale.to_array();
    let q = rotation.to_array();
    let t = translation.to_array();
    (
        Float3 { x: s[0].to_bits(), y: s[1].to_bits(), z: s[2].to_bits() },
        Float4 { x: q[0].to_bits(), y: q[1].to_bits(), z: q[2].to_bits(), w: q[3].to_bits() },
        Float3 { x: t[0].to_bits(), y: t[1].to_bits(), z: t[2].to_bits() },
    )
}

/// The per-region table handing one texture index to each distinct
/// field identity, together with the texture views in index order.
pub struct ExtractedRegionFields {
    /// The index assigned to each field identity.
    pub indices: HashMap<u64, u32>,
    /// The mirrors' texture views, in index order.
    pub field_textures: Vec<TextureViewId>,
}

impl ExtractedRegionFields {
    /// An empty table.
    pub fn new() -> (r: ExtractedRegionFields)
        ensures
            r.indices@ == Map::<u64, u32>::empty(),
            r.field_textures@ == Seq::<TextureViewId>::empty(),
    {
        ExtractedRegionFields { indices: HashMap::new(), field_textures: Vec::new() }
    }

    /// The index under which `field_id`'s texture view is listed. A
    /// field already in the table keeps its index and nothing changes;
    /// a new field is handed the next index and its mirror's view is
    /// appended. `field` is the prepared mirror looked up for
    /// `field_id`; when there is none, that is reported and nothing
    /// changes.
    pub fn insert(&mut self, field: Option<&GpuFlowField>, field_id: u64) -> (r: Result<
        u32,
        FlowFieldMissingError,
    >)
        requires
            old(self).field_textures@.len() < u32::MAX,
        ensures
            field is None ==> r == Err::<u32, FlowFieldMissingError>(
                FlowFieldMissingError { id: field_id },
            ) && final(self).indices@ == old(self).indices@ && final(self).field_textures@
                == old(self).field_textures@,
            field is Some && old(self).indices@.contains_key(field_id) ==> r == Ok::<
                u32,
                FlowFieldMissingError,
            >(old(self).indices@[field_id]) && final(self).indices@ == old(self).indices@
                && final(self).field_textures@ == old(self).field_textures@,
            field is Some && !old(self).indices@.contains_key(field_id) ==> {
                &&& r == Ok::<u32, FlowFieldMissingError>(old(self).field_textures@.len() as u32)
                &&& final(self).indices@ == old(self).indices@.insert(
                    field_id,
                    old(self).field_textures@.len() as u32,
                )
                &&& final(self).field_textures@ == old(self).field_textures@.push(
                    field.unwrap().texture_view,
                )
            },
    {
        match field {
            None => Err(FlowFieldMissingError { id: field_id }),
            Some(f) => {
                match self.indices.get(&field_id) {
                    Some(index) => Ok(*index),
                    None => {
                        let index = self.field_textures.len() as u32;
                        self.field_textures.push(f.texture_view);
                        self.indices.insert(field_id, index);
                        Ok(index)
                    },
                }
            },
        }
    }

    /// Empties the table for the next pass.
    pub fn clear(&mut self)
        ensures
            final(self).indices@ == Map::<u64, u32>::empty(),
            final(self).field_textures@ == Seq::<TextureViewId>::empty(),
    {
        self.indices.clear();
        self.field_textures.clear();
        proof {
            assert(self.field_textures@ =~= Seq::<TextureViewId>::empty());
        }
    }
}

/// Rebuilds a region's texture index table from the prepared mirrors:
/// clears the table, then lists every flow's field. Succeeds exactly
/// when every flow's field has a prepared mirror; otherwise reports the
/// first flow's field that has none, with the table left holding the
/// flows before it.
pub fn prepare_flow_field_indices(
    region: &ExtractedRegion,
    registry: &MirrorRegistry,
    table: &mut ExtractedRegionFields,
) -> (r: Result<(), FlowFieldMissingError>)
    requires
        region.flows@.len() < u32::MAX,
    ensures
        r is Ok ==> forall|i: int|
            0 <= i < region.flows@.len() ==> registry.mirrors@.contains_key(
                #[trigger] region.flows@[i].field_id,
            ) && final(table).indices@.contains_key(region.flows@[i].field_id),
        forall|id: u64|
            final(table).indices@.contains_key(id) ==> {
                &&& registry.mirrors@.contains_key(id)
                &&& final(table).indices@[id] < final(table).field_textures@.len()
                &&& final(table).field_textures@[final(table).indices@[id] as int]
                    == registry.mirrors@[id].texture_view
            },
        r matches Err(e) ==> exists|i: int|
            {
                &&& 0 <= i < region.flows@.len()
                &&& !registry.mirrors@.contains_key(#[trigger] region.flows@[i].field_id)
                &&& e.id == region.flows@[i].field_id
                &&& forall|j: int|
                    0 <= j < i ==> registry.mirrors@.contains_key(
                        #[trigger] region.flows@[j].field_id,
                    )
            },
{
    table.clear();
    let mut i: usize = 0;
    while i < region.flows.len()
        invariant
            i <= region.flows@.len(),
            region.flows@.len() < u32::MAX,
            table.field_textures@.len() <= i,
            forall|j: int|
                0 <= j < i ==> registry.mirrors@.contains_key(
                    #[trigger] region.flows@[j].field_id,
                ) && table.indices@.contains_key(region.flows@[j].field_id),
            forall|id: u64|
                table.indices@.contains_key(id) ==> {
                    &&& registry.mirrors@.contains_key(id)
                    &&& table.indices@[id] < table.field_textures@.len()
                    &&& table.field_textures@[table.indices@[id] as int]
                        == registry.mirrors@[id].texture_view
                },
        decreases region.flows@.len() - i,
    {
        let field_id = region.flows[i].field_id;
        let field = match registry.mirrors.get(&field_id) {
            Some(m) => Some(m),
            None => None,
        };
        if field.is_none() {
            return Err(FlowFieldMissingError { id: field_id });
        }
        let result = table.insert(field, field_id);
        match result {
            Ok(_) => (),
            Err(e) => {
                return Err(e);
            },
        }
        i = i + 1;
    }
    Ok(())
}

/// The uniform record of one flow, as the sampling shader reads it.
pub struct GpuFlow {
    /// The flow's translation.
    pub translation: Float3,
    /// The index of the flow's field texture in its region's table.
    pub field_index: u32,
    /// The flow's rotation.
    pub rotation: Float4,
    /// The flow's scale.
    pub scale: Float3,
    /// Which velocity-inheritance behaviours the flow carries.
    pub flags: FlowFlags,
    /// The flow's inherited linear velocity.
    pub linear_velocity: Float3,
    /// The flow's layer mask.
    pub layers: FlowLayers,
    /// The flow's inherited angular velocity.
    pub angular_velocity: Float3,
    /// How strongly the flow contributes.
    pub influence: FlowInfluence,
}

/// The per-region uniform records staged for upload; the buffer write
/// itself belongs to the rendering-resource boundary.
pub struct RegionUniforms(pub Vec<GpuFlow>);

impl Default for RegionUniforms {
    /// No records are staged initially.
    fn default() -> (r: Self)
        ensures
            r.0@ == Seq::<GpuFlow>::empty(),
    {
        RegionUniforms(Vec::new())
    }
}

/// The uniform record packed for `flow` under the texture index
/// `field_index`: the decomposed transform beside the flow's own
/// attributes.
pub open spec fn spec_flow_uniform(flow: ExtractedFlow, field_index: u32) -> GpuFlow {
    GpuFlow {
        translation: spec_srt_translation(flow.transform.entries@),
        field_index,
        rotation: spec_srt_rotation(flow.transform.entries@),
        scale: spec_srt_scale(flow.transform.entries@),
        flags: flow.flags,
        linear_velocity: flow.linear_velocity,
        layers: flow.layers,
        angular_velocity: flow.angular_velocity,
        influence: flow.influence,
    }
}

/// Packs one flow's uniform record.
fn flow_uniform(flow: &ExtractedFlow, field_index: u32) -> (r: GpuFlow)
    ensures
        r == spec_flow_uniform(*flow, field_index),
{
    let (scale, rotation, translation) = decompose_affine(&flow.transform);
    GpuFlow {
        translation,
        field_index,
        rotation,
        scale,
        flags: flow.flags,
        linear_velocity: flow.linear_velocity,
        layers: flow.layers,
        angular_velocity: flow.angular_velocity,
        influence: flow.influence,
    }
}

/// Packs the uniform records of a region's flows, in extraction order,
/// each under the texture index its field identity holds in `indices`.
/// Succeeds exactly when every flow's field identity is listed;
/// otherwise reports the first that is not.
pub fn prepare_flow_uniforms(region: &ExtractedRegion, indices: &ExtractedRegionFields) -> (r:
    Result<Vec<GpuFlow>, FlowFieldMissingError>)
    ensures
        r matches Ok(records) ==> records@.len() == region.flows@.len() && forall|i: int|
            0 <= i < region.flows@.len() ==> indices.indices@.contains_key(
                #[trigger] region.flows@[i].field_id,
            ) && records@[i] == spec_flow_uniform(
                region.flows@[i],
                indices.indices@[region.flows@[i].field_id],
            ),
        r matches Err(e) ==> exists|i: int|
            {
                &&& 0 <= i < region.flows@.len()
                &&& !indices.indices@.contains_key(#[trigger] region.flows@[i].field_id)
                &&& e.id == region.flows@[i].field_id
                &&& forall|j: int|
                    0 <= j < i ==> indices.indices@.contains_key(
                        #[trigger] region.flows@[j].field_id,
                    )
            },
{
    let mut records: Vec<GpuFlow> = Vec::new();
    let mut i: usize = 0;
    while i < region.flows.len()
        invariant
            i <= region.flows@.len(),
            records@.len() == i,
            forall|j: int|
                0 <= j < i ==> indices.indices@.contains_key(
                    #[trigger] region.flows@[j].field_id,
                ) && records@[j] == spec_flow_uniform(
                    region.flows@[j],
                    indices.indices@[region.flows@[j].field_id],
                ),
        decreases region.flows@.len() - i,
    {
        let flow = &region.flows[i];
        let field_index = match indices.indices.get(&flow.field_id) {
            Some(index) => *index,
            None => {
                return Err(FlowFieldMissingError { id: flow.field_id });
            },
        };
        records.push(flow_uniform(flow, field_index));
        i = i + 1;
    }
    Ok(records)
}

} // verus!
