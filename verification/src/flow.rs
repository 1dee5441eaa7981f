//! Flow entities and their layer masks.
//!
//! A [`Flow`] places one flow field asset in a region; [`FlowLayers`] is the
//! 32-bit layer mask deciding which flows a sampler observes, and
//! [`FlowFlags`] records which velocity-inheritance behaviours a flow carries
//! on the render side.

use vstd::prelude::*;

use crate::vector::Float3;
use crate::vector::Float4;
use crate::vector::ONE_F32;
use crate::vector::TWO_F32;
use crate::vector::add_bits;
use crate::vector::div_bits;
use crate::vector::mul_bits;
use crate::vector::scalar_add;
use crate::vector::scalar_div;
use crate::vector::scalar_mul;
use crate::vector::scalar_sub;
use crate::vector::sub_bits;

verus! {

/// Identity of a flow field asset, as handed out by the asset collaborator.
pub type FieldId = u64;

/// Identity of an entity, as handed out by the entity collaborator.
pub type EntityId = u64;

/// A single layer index of a [`FlowLayers`] mask.
pub type Layer = u8;

/// Names the plugin that installs this module's systems into the
/// application shell; the wiring itself lives outside the verified core.
pub struct FlowPlugin;

/// Marker label for the systems that keep flow state up to date.
pub struct FlowSystems;

/// Relates a flow to the region that samples it.
pub struct InRegion(pub EntityId);

/// The flows a region contains.
pub struct Contains(pub Vec<EntityId>);

/// Places the flow field asset with the given identity at an entity.
pub struct Flow {
    /// Identity of the flow field asset this flow samples from.
    pub field: FieldId,
}

impl Flow {
    /// The identity of the field asset backing this flow.
    pub fn as_asset_id(&self) -> (r: FieldId)
        ensures
            r == self.field,
    {
        self.field
    }
}

/// How strongly a flow contributes when flows are layered; stores the raw
/// bit pattern of an IEEE-754 single-precision scalar.
#[derive(Clone, Copy, PartialEq, Eq, Structural, Debug)]
pub struct FlowInfluence(pub u32);

impl Default for FlowInfluence {
    /// The default influence is one: the flow contributes at full strength.
    fn default() -> (r: Self)
        ensures
            r.0 == ONE_F32,
    {
        FlowInfluence(ONE_F32)
    }
}

/// A 32-way layer mask: bit `n` set means the owner participates in layer `n`.
#[derive(Clone, Copy, PartialEq, Eq, Structural, Debug)]
pub struct FlowLayers(pub u32);

/// The mask selecting the layers of `layers`, folded from the left.
pub open spec fn layers_mask(layers: Seq<Layer>) -> u32
    decreases layers.len(),
{
    if layers.len() == 0 {
        0u32
    } else {
        layers_mask(layers.drop_last()) | (1u32 << layers.last())
    }
}

impl FlowLayers {
    /// The mask with every layer selected.
    pub fn all() -> (r: Self)
        ensures
            r.0 == !0u32,
    {
        FlowLayers(!0u32)
    }

    /// The mask with no layer selected.
    pub fn none() -> (r: Self)
        ensures
            r.0 == 0u32,
    {
        FlowLayers(0u32)
    }

    /// The mask selecting exactly `layer`.
    pub fn layer(layer: Layer) -> (r: Self)
        requires
            layer < 32,
        ensures
            r.0 == 1u32 << layer,
    {
        FlowLayers(1u32 << layer)
    }

    /// The mask selecting exactly the given layers.
    pub fn from_layers(layers: &Vec<Layer>) -> (r: Self)
        requires
            forall|i: int| 0 <= i < layers@.len() ==> layers@[i] < 32,
        ensures
            r.0 == layers_mask(layers@),
    {
        let mut raw_layers: u32 = 0;
        let mut i: usize = 0;
        while i < layers.len()
            invariant
                i <= layers@.len(),
                forall|j: int| 0 <= j < layers@.len() ==> layers@[j] < 32,
                raw_layers == layers_mask(layers@.take(i as int)),
            decreases layers@.len() - i,
        {
            proof {
                assert(layers@.take(i + 1).drop_last() =~= layers@.take(i as int));
            }
            raw_layers = raw_layers | (1u32 << layers[i]);
            i = i + 1;
        }
        proof {
            assert(layers@.take(layers@.len() as int) =~= layers@);
        }
        FlowLayers(raw_layers)
    }

    /// This mask with `layer` also selected.
    pub fn with(self, layer: Layer) -> (r: Self)
        requires
            layer < 32,
        ensures
            r.0 == self.0 | (1u32 << layer),
    {
        FlowLayers(self.0 | (1u32 << layer))
    }

    /// This mask with `layer` deselected.
    pub fn without(self, layer: Layer) -> (r: Self)
        requires
            layer < 32,
        ensures
            r.0 == self.0 & !(1u32 << layer),
    {
        FlowLayers(self.0 & !(1u32 << layer))
    }

    /// Whether the two masks share at least one layer.
    pub fn intersects(self, other: Self) -> (r: bool)
        ensures
            r == ((self.0 & other.0) != 0),
    {
        self.0 & other.0 != 0
    }
}

impl Default for FlowLayers {
    /// The default mask selects no layer.
    fn default() -> (r: Self)
        ensures
            r.0 == 0u32,
    {
        FlowLayers::none()
    }
}

/// Marks a flow whose sampled momentum inherits the owner's linear velocity.
pub struct InheritLinearVelocity;

/// Marks a flow whose sampled momentum inherits the owner's angular velocity.
pub struct InheritAngularVelocity;

/// Marks an entity that groups flows into one sampled region.
pub struct Region;

/// The velocities a flow inherits from its owner's motion, tracked
/// between updates together with the owner's previous rotation and
/// translation.
pub struct InheritedVelocity {
    /// The owner's rotation and translation at the previous update, if
    /// one has happened.
    pub previous: Option<(Float4, Float3)>,
    /// The inherited linear velocity.
    pub linear_velocity: Float3,
    /// The inherited angular velocity.
    pub angular_velocity: Float3,
}

impl Default for InheritedVelocity {
    /// Before the first update nothing is inherited.
    fn default() -> (r: Self)
        ensures
            r.previous is None,
            r.linear_velocity == spec_zero3(),
            r.angular_velocity == spec_zero3(),
    {
        InheritedVelocity {
            previous: None,
            linear_velocity: Float3 { x: 0u32, y: 0u32, z: 0u32 },
            angular_velocity: Float3 { x: 0u32, y: 0u32, z: 0u32 },
        }
    }
}

/// The all-zero triple: the single-precision zero vector.
pub open spec fn spec_zero3() -> Float3 {
    Float3 { x: 0u32, y: 0u32, z: 0u32 }
}

/// The linear velocity of a motion from `prev` to `cur` over the time
/// step with bit pattern `dt`: the componentwise difference divided by
/// the step.
pub open spec fn spec_linear_velocity(prev: Float3, cur: Float3, dt: u32) -> Float3 {
    Float3 {
        x: div_bits(sub_bits(cur.x, prev.x), dt),
        y: div_bits(sub_bits(cur.y, prev.y), dt),
        z: div_bits(sub_bits(cur.z, prev.z), dt),
    }
}

/// Computes the linear velocity of a motion from `prev` to `cur` over
/// the time step with bit pattern `dt`.
pub fn linear_velocity_between(prev: Float3, cur: Float3, dt: u32) -> (r: Float3)
    ensures
        r == spec_linear_velocity(prev, cur, dt),
{
    Float3 {
        x: scalar_div(scalar_sub(cur.x, prev.x), dt),
        y: scalar_div(scalar_sub(cur.y, prev.y), dt),
        z: scalar_div(scalar_sub(cur.z, prev.z), dt),
    }
}

/// Bit pattern of the single-precision value minus one.
pub const MINUS_ONE_F32: u32 = 0xBF80_0000;

/// One lane of the angular-velocity formula: the derivative term of the
/// quaternion pair `(a, b, c, d)` with the per-lane signs `(sb, sc, sd)`,
/// all under single-precision arithmetic.
pub open spec fn spec_angular_lane(
    w1: u32,
    qa: u32,
    tb: u32,
    sb: u32,
    tc: u32,
    sc: u32,
    td: u32,
    sd: u32,
) -> u32 {
    add_bits(
        add_bits(add_bits(mul_bits(w1, qa), mul_bits(tb, sb)), mul_bits(tc, sc)),
        mul_bits(td, sd),
    )
}

/// The angular velocity carrying the rotation `q1` to `q2` over the time
/// step with bit pattern `dt`, from the quaternion derivative formula,
/// evaluated lane by lane under single-precision arithmetic and scaled
/// by `2 / dt`.
pub open spec fn spec_angular_velocity(q1: Float4, q2: Float4, dt: u32) -> Float3 {
    let s = div_bits(TWO_F32, dt);
    Float3 {
        x: mul_bits(
            spec_angular_lane(
                q1.w,
                q2.x,
                mul_bits(q2.x, q2.w),
                MINUS_ONE_F32,
                mul_bits(q2.y, q2.z),
                MINUS_ONE_F32,
                mul_bits(q2.z, q2.y),
                ONE_F32,
            ),
            s,
        ),
        y: mul_bits(
            spec_angular_lane(
                q1.w,
                q2.y,
                mul_bits(q2.x, q2.z),
                ONE_F32,
                mul_bits(q2.y, q2.w),
                MINUS_ONE_F32,
                mul_bits(q2.z, q2.x),
                MINUS_ONE_F32,
            ),
            s,
        ),
        z: mul_bits(
            spec_angular_lane(
                q1.w,
                q2.z,
                mul_bits(q2.x, q2.y),
                MINUS_ONE_F32,
                mul_bits(q2.y, q2.x),
                ONE_F32,
                mul_bits(q2.z, q2.w),
                MINUS_ONE_F32,
            ),
            s,
        ),
    }
}

/// Computes the angular velocity carrying the rotation `q1` to `q2` over
/// the time step with bit pattern `dt`.
pub fn angular_velocity_between(q1: Float4, q2: Float4, dt: u32) -> (r: Float3)
    ensures
        r == spec_angular_velocity(q1, q2, dt),
{
    let s = scalar_div(TWO_F32, dt);
    let x = angular_lane(
        q1.w,
        q2.x,
        scalar_mul(q2.x, q2.w),
        MINUS_ONE_F32,
        scalar_mul(q2.y, q2.z),
        MINUS_ONE_F32,
        scalar_mul(q2.z, q2.y),
        ONE_F32,
    );
    let y = angular_lane(
        q1.w,
        q2.y,
        scalar_mul(q2.x, q2.z),
        ONE_F32,
        scalar_mul(q2.y, q2.w),
        MINUS_ONE_F32,
        scalar_mul(q2.z, q2.x),
        MINUS_ONE_F32,
    );
    let z = angular_lane(
        q1.w,
        q2.z,
        scalar_mul(q2.x, q2.y),
        MINUS_ONE_F32,
        scalar_mul(q2.y, q2.x),
        ONE_F32,
        scalar_mul(q2.z, q2.w),
        MINUS_ONE_F32,
    );
    Float3 { x: scalar_mul(x, s), y: scalar_mul(y, s), z: scalar_mul(z, s) }
}

/// Computes one lane of the angular-velocity formula.
fn angular_lane(w1: u32, qa: u32, tb: u32, sb: u32, tc: u32, sc: u32, td: u32, sd: u32) -> (r:
    u32)
    ensures
        r == spec_angular_lane(w1, qa, tb, sb, tc, sc, td, sd),
{
    scalar_add(
        scalar_add(scalar_add(scalar_mul(w1, qa), scalar_mul(tb, sb)), scalar_mul(tc, sc)),
        scalar_mul(td, sd),
    )
}

/// One update step of a flow's inherited velocities: given the owner's
/// current rotation and translation, the time step, and which
/// inheritance markers the flow carries, produces the new tracked state.
/// A velocity is inherited only when its marker is present and a
/// previous transform exists; otherwise it is zero.
pub fn update_velocity(
    state: &InheritedVelocity,
    rotation: Float4,
    translation: Float3,
    dt: u32,
    inherit_linear: bool,
    inherit_angular: bool,
) -> (r: InheritedVelocity)
    ensures
        r.previous == Some((rotation, translation)),
        r.linear_velocity == (if inherit_linear && state.previous is Some {
            spec_linear_velocity(state.previous.unwrap().1, translation, dt)
        } else {
            spec_zero3()
        }),
        r.angular_velocity == (if inherit_angular && state.previous is Some {
            spec_angular_velocity(state.previous.unwrap().0, rotation, dt)
        } else {
            spec_zero3()
        }),
{
    let linear_velocity = match &state.previous {
        Some(prev) if inherit_linear => linear_velocity_between(prev.1, translation, dt),
        _ => Float3 { x: 0u32, y: 0u32, z: 0u32 },
    };
    let angular_velocity = match &state.previous {
        Some(prev) if inherit_angular => angular_velocity_between(prev.0, rotation, dt),
        _ => Float3 { x: 0u32, y: 0u32, z: 0u32 },
    };
    InheritedVelocity { previous: Some((rotation, translation)), linear_velocity, angular_velocity }
}

/// Render-side record of which inheritance behaviours a flow carries.
#[derive(Clone, Copy, PartialEq, Eq, Structural, Debug)]
pub struct FlowFlags(pub u32);

/// Flag bit recording linear-velocity inheritance.
pub const INHERIT_LINEAR_VELOCITY: u32 = 1;

/// Flag bit recording angular-velocity inheritance.
pub const INHERIT_ANGULAR_VELOCITY: u32 = 2;

impl FlowFlags {
    /// No behaviour flag set.
    pub fn empty() -> (r: Self)
        ensures
            r.0 == 0u32,
    {
        FlowFlags(0u32)
    }

    /// The flags carried by a flow with the given inheritance markers.
    pub fn for_inheritance(linear: bool, angular: bool) -> (r: Self)
        ensures
            r.0 == (if linear { INHERIT_LINEAR_VELOCITY } else { 0u32 })
                | (if angular { INHERIT_ANGULAR_VELOCITY } else { 0u32 }),
    {
        let linear_bit: u32 = if linear { INHERIT_LINEAR_VELOCITY } else { 0 };
        let angular_bit: u32 = if angular { INHERIT_ANGULAR_VELOCITY } else { 0 };
        FlowFlags(linear_bit | angular_bit)
    }

    /// Whether every flag of `other` is set in `self`.
    pub fn contains(self, other: Self) -> (r: bool)
        ensures
            r == ((self.0 & other.0) == other.0),
    {
        self.0 & other.0 == other.0
    }
}

} // verus!
