//! Activity tracking: which tracked entities lie inside an active
//! region.
//!
//! The verified core is the geometric decision: an axis-aligned bounding
//! box ([`Aabb3`]) built from a transform's scale and translation, the
//! box-overlap test used to decide activity, and the change test that
//! decides whether a region's box must be rewritten. The entity wiring
//! that applies those decisions lives outside the verified core.

use vstd::prelude::*;

use crate::flow::EntityId;
use crate::vector::Float3;
use crate::vector::FlowVector;
use crate::vector::HALF_F32;
use crate::vector::add_bits;
use crate::vector::lt_bits;
use crate::vector::mul_bits;
use crate::vector::sub_bits;

verus! {

/// Names the plugin that installs this module's systems into the
/// application shell; the wiring itself lives outside the verified core.
pub struct ActivityPlugin;

/// Marks a region within which tracked entities count as active.
pub struct ActiveRegion;

/// Marks an entity whose activity is tracked against active regions.
pub struct TrackActivity;

/// Marks an entity that is currently active.
pub struct Active;

/// Marker label for the systems that keep activity up to date.
pub struct ActivitySystems;

/// Announces that an entity became active.
pub struct Activate {
    /// The entity that became active.
    pub entity: EntityId,
}

/// Announces that an entity became inactive.
pub struct Deactivate {
    /// The entity that became inactive.
    pub entity: EntityId,
}

/// Announces an entity's new activity state.
pub struct SetActive {
    /// The entity whose state changed.
    pub entity: EntityId,
    /// Whether the entity is now active.
    pub active: bool,
}

/// An axis-aligned bounding box: a center and half-extents, each a
/// triple of single-precision bit patterns.
#[derive(Clone, Copy, PartialEq, Eq, Structural, Debug)]
pub struct Aabb3 {
    /// The box's center.
    pub center: Float3,
    /// The box's half-extents along each axis.
    pub half_extents: Float3,
}

/// The componentwise single-precision sum of two triples.
pub open spec fn spec_add3(a: Float3, b: Float3) -> Float3 {
    Float3 { x: add_bits(a.x, b.x), y: add_bits(a.y, b.y), z: add_bits(a.z, b.z) }
}

/// The componentwise single-precision difference of two triples.
pub open spec fn spec_sub3(a: Float3, b: Float3) -> Float3 {
    Float3 { x: sub_bits(a.x, b.x), y: sub_bits(a.y, b.y), z: sub_bits(a.z, b.z) }
}

/// The box's minimum corner: center minus half-extents.
pub open spec fn spec_aabb_min(a: Aabb3) -> Float3 {
    spec_sub3(a.center, a.half_extents)
}

/// The box's maximum corner: center plus half-extents.
pub open spec fn spec_aabb_max(a: Aabb3) -> Float3 {
    spec_add3(a.center, a.half_extents)
}

/// Whether every component of `a` is strictly below the corresponding
/// component of `b` under single-precision comparison.
pub open spec fn spec_all_lt(a: Float3, b: Float3) -> bool {
    lt_bits(a.x, b.x) && lt_bits(a.y, b.y) && lt_bits(a.z, b.z)
}

/// The overlap test activity tracking uses: one box's minimum corner
/// lies strictly below the other's maximum corner on every axis, in
/// either direction.
pub open spec fn spec_aabbs_intersect(a: Aabb3, b: Aabb3) -> bool {
    spec_all_lt(spec_aabb_min(a), spec_aabb_max(b)) || spec_all_lt(
        spec_aabb_min(b),
        spec_aabb_max(a),
    )
}

/// Computes a triple sum through the flow vector lanes.
fn add3(a: Float3, b: Float3) -> (r: Float3)
    ensures
        r == spec_add3(a, b),
{
    let s = FlowVector { x: a.x, y: a.y, z: a.z, w: 0u32 }.add(
        FlowVector { x: b.x, y: b.y, z: b.z, w: 0u32 },
    );
    Float3 { x: s.x, y: s.y, z: s.z }
}

/// Computes a triple difference through the flow vector lanes.
fn sub3(a: Float3, b: Float3) -> (r: Float3)
    ensures
        r == spec_sub3(a, b),
{
    let s = FlowVector { x: a.x, y: a.y, z: a.z, w: 0u32 }.sub(
        FlowVector { x: b.x, y: b.y, z: b.z, w: 0u32 },
    );
    Float3 { x: s.x, y: s.y, z: s.z }
}

/// Decides whether two boxes overlap, as activity tracking counts
/// overlap.
pub fn aabbs_intersect(a: Aabb3, b: Aabb3) -> (r: bool)
    ensures
        r == spec_aabbs_intersect(a, b),
{
    let a_min = sub3(a.center, a.half_extents);
    let a_max = add3(a.center, a.half_extents);
    let b_min = sub3(b.center, b.half_extents);
    let b_max = add3(b.center, b.half_extents);
    float3_all_lt(a_min, b_max) || float3_all_lt(b_min, a_max)
}

/// Decides whether a tracked entity with bounding box `entity` is
/// active: it overlaps at least one active region's box.
pub fn region_activation(entity: Aabb3, regions: &Vec<Aabb3>) -> (r: bool)
    ensures
        r == exists|i: int|
            0 <= i < regions@.len() && spec_aabbs_intersect(entity, regions@[i]),
{
    let mut i: usize = 0;
    while i < regions.len()
        invariant
            i <= regions@.len(),
            forall|j: int| 0 <= j < i ==> !spec_aabbs_intersect(entity, regions@[j]),
        decreases regions@.len() - i,
    {
        if aabbs_intersect(entity, regions[i]) {
            return true;
        }
        i = i + 1;
    }
    false
}

/// Bit pattern of the single-precision machine epsilon.
pub const EPSILON_F32: u32 = 0x3400_0000;

/// The single-precision absolute value of the scalar with bit pattern
/// `a`: the sign bit cleared.
pub open spec fn spec_abs_bits(a: u32) -> u32 {
    a & 0x7FFF_FFFF
}

/// Clears the sign bit: the absolute value of an IEEE-754 scalar.
fn abs_bits(a: u32) -> (r: u32)
    ensures
        r == spec_abs_bits(a),
{
    a & 0x7FFF_FFFF
}

/// Whether the two scalars differ by more than the machine epsilon
/// under single-precision arithmetic: the change test for region boxes.
pub open spec fn spec_differs(a: u32, b: u32) -> bool {
    lt_bits(EPSILON_F32, spec_abs_bits(sub_bits(a, b)))
}

/// Whether any axis of the two triples differs by more than the machine
/// epsilon.
pub open spec fn spec_any_differs(a: Float3, b: Float3) -> bool {
    spec_differs(a.x, b.x) || spec_differs(a.y, b.y) || spec_differs(a.z, b.z)
}

/// One update step of an active region's bounding box: the box follows
/// the region's translation as its center and half its scale as its
/// half-extents, and is rewritten only when either moved by more than
/// the machine epsilon on some axis.
pub fn region_aabb_update(scale: Float3, translation: Float3, current: Aabb3) -> (r: Option<
    Aabb3,
>)
    ensures
        ({
            let center = translation;
            let half_extents = Float3 {
                x: mul_bits(scale.x, HALF_F32),
                y: mul_bits(scale.y, HALF_F32),
                z: mul_bits(scale.z, HALF_F32),
            };
            if spec_any_differs(center, current.center) || spec_any_differs(
                half_extents,
                current.half_extents,
            ) {
                r == Some(Aabb3 { center, half_extents })
            } else {
                r is None
            }
        }),
{
    let center = translation;
    let scaled = FlowVector { x: scale.x, y: scale.y, z: scale.z, w: 0u32 }.mul(HALF_F32);
    let half_extents = Float3 { x: scaled.x, y: scaled.y, z: scaled.z };
    let center_changed = float3_any_changed(center, current.center);
    let half_extents_changed = float3_any_changed(half_extents, current.half_extents);
    if center_changed || half_extents_changed {
        Some(Aabb3 { center, half_extents })
    } else {
        None
    }
}

/// Decides whether any axis of the two triples differs by more than the
/// machine epsilon.
fn float3_any_changed(a: Float3, b: Float3) -> (r: bool)
    ensures
        r == spec_any_differs(a, b),
{
    let d = sub3(a, b);
    let magnitude = Float3 { x: abs_bits(d.x), y: abs_bits(d.y), z: abs_bits(d.z) };
    let eps = Float3 { x: EPSILON_F32, y: EPSILON_F32, z: EPSILON_F32 };
    float3_any_gt(magnitude, eps)
}

/// Relies on `bevy_math::Vec3::cmplt` and `BVec3::all`: componentwise
/// single-precision strict comparison, all three lanes below.
#[verifier::external_body]
fn float3_all_lt(a: Float3, b: Float3) -> (r: bool)
    ensures
        r == (lt_bits(a.x, b.x) && lt_bits(a.y, b.y) && lt_bits(a.z, b.z)),
{
    let va: bevy_math::Vec3 = bytemuck::cast([a.x, a.y, a.z]);
    let vb: bevy_math::Vec3 = bytemuck::cast([b.x, b.y, b.z]);
    va.cmplt(vb).all()
}

/// Relies on `bevy_math::Vec3::cmpgt` and `BVec3::any`: componentwise
/// single-precision strict comparison (`x > y` is `y < x`), some lane
/// above.
#[verifier::external_body]
fn float3_any_gt(a: Float3, b: Float3) -> (r: bool)
    ensures
        r == (lt_bits(b.x, a.x) || lt_bits(b.y, a.y) || lt_bits(b.z, a.z)),
{
    let va: bevy_math::Vec3 = bytemuck::cast([a.x, a.y, a.z]);
    let vb: bevy_math::Vec3 = bytemuck::cast([b.x, b.y, b.z]);
    va.cmpgt(vb).any()
}

} // verus!
