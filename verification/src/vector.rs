//! The flow vector value type and its arithmetic.
//!
//! A [`FlowVector`] describes the flow of a fluid at one location: a
//! three-component momentum density (units: kg·m/s·m⁻³) and one scalar
//! density (units: kg·m⁻³). Tracking momentum density rather than velocity
//! keeps layered flows physically meaningful: momenta add, velocities do not.
//!
//! Every scalar is an IEEE-754 single-precision value carried as its raw
//! 32-bit pattern. The arithmetic itself is done by `bevy_math`'s
//! componentwise vector operations behind the trusted wrappers below; the
//! result of each operation is named by an uninterpreted spec function
//! (`add_bits`, `mul_bits`, ...), and all contracts of this crate speak in
//! those names.

use vstd::prelude::*;

verus! {

/// Bit pattern of the single-precision value `1.0`.
pub const ONE_F32: u32 = 0x3F80_0000;

/// Bit pattern of the single-precision value `0.5`.
pub const HALF_F32: u32 = 0x3F00_0000;

/// Bit pattern of the single-precision value `2.0`.
pub const TWO_F32: u32 = 0x4000_0000;

/// A triple of single-precision scalars, carried as raw bit patterns.
#[derive(Clone, Copy, PartialEq, Eq, Structural, Debug)]
pub struct Float3 {
    /// Bit pattern of the first component.
    pub x: u32,
    /// Bit pattern of the second component.
    pub y: u32,
    /// Bit pattern of the third component.
    pub z: u32,
}

/// A quadruple of single-precision scalars, carried as raw bit patterns;
/// used for rotation quaternions.
#[derive(Clone, Copy, PartialEq, Eq, Structural, Debug)]
pub struct Float4 {
    /// Bit pattern of the first component.
    pub x: u32,
    /// Bit pattern of the second component.
    pub y: u32,
    /// Bit pattern of the third component.
    pub z: u32,
    /// Bit pattern of the fourth component.
    pub w: u32,
}

/// Whether `a` is the bit pattern of a single-precision NaN: all exponent
/// bits set and a non-zero mantissa.
pub open spec fn is_nan_bits(a: u32) -> bool {
    (a >> 23) & 0xFF == 0xFF && (a & 0x7F_FFFF) != 0
}

/// The bit pattern of the single-precision sum of the scalars `a` and `b`.
pub uninterp spec fn add_bits(a: u32, b: u32) -> u32;

/// The bit pattern of the single-precision difference of `a` and `b`.
pub uninterp spec fn sub_bits(a: u32, b: u32) -> u32;

/// The bit pattern of the single-precision product of `a` and `b`.
pub uninterp spec fn mul_bits(a: u32, b: u32) -> u32;

/// The bit pattern of the single-precision quotient of `a` by `b`.
pub uninterp spec fn div_bits(a: u32, b: u32) -> u32;

/// The bit pattern of the single-precision negation of `a`.
pub uninterp spec fn neg_bits(a: u32) -> u32;

/// Whether the single-precision scalar with bit pattern `a` compares
/// strictly below the one with bit pattern `b` (false when either is
/// NaN).
pub uninterp spec fn lt_bits(a: u32, b: u32) -> bool;

/// The single-precision quotient of `a` by `b`, with the one exact case the
/// contracts rely on spelled out: division by `1.0` returns a non-NaN
/// numerator unchanged (the quotient is exact, so IEEE-754 rounding returns
/// it bit-for-bit).
pub open spec fn div_lane(a: u32, b: u32) -> u32 {
    if b == ONE_F32 && !is_nan_bits(a) {
        a
    } else {
        div_bits(a, b)
    }
}

/// Describes the flow of a fluid at a given location: momentum density in
/// the lanes `x`, `y`, `z` and density in the lane `w`, each lane the raw
/// bit pattern of a single-precision scalar.
#[derive(Clone, Copy, PartialEq, Eq, Structural, Debug)]
pub struct FlowVector {
    /// Bit pattern of the first momentum density component.
    pub x: u32,
    /// Bit pattern of the second momentum density component.
    pub y: u32,
    /// Bit pattern of the third momentum density component.
    pub z: u32,
    /// Bit pattern of the density.
    pub w: u32,
}

/// Relies on `bevy_math::Vec4`'s componentwise addition: each output lane is
/// the single-precision sum of the corresponding input lanes.
#[verifier::external_body]
fn vec4_add(a: FlowVector, b: FlowVector) -> (r: FlowVector)
    ensures
        r.x == add_bits(a.x, b.x),
        r.y == add_bits(a.y, b.y),
        r.z == add_bits(a.z, b.z),
        r.w == add_bits(a.w, b.w),
{
    let va: bevy_math::Vec4 = bytemuck::cast([a.x, a.y, a.z, a.w]);
    let vb: bevy_math::Vec4 = bytemuck::cast([b.x, b.y, b.z, b.w]);
    let s = (va + vb).to_array();
    FlowVector { x: s[0].to_bits(), y: s[1].to_bits(), z: s[2].to_bits(), w: s[3].to_bits() }
}

/// Relies on `bevy_math::Vec4`'s componentwise subtraction: each output lane
/// is the single-precision difference of the corresponding input lanes.
#[verifier::external_body]
fn vec4_sub(a: FlowVector, b: FlowVector) -> (r: FlowVector)
    ensures
        r.x == sub_bits(a.x, b.x),
        r.y == sub_bits(a.y, b.y),
        r.z == sub_bits(a.z, b.z),
        r.w == sub_bits(a.w, b.w),
{
    let va: bevy_math::Vec4 = bytemuck::cast([a.x, a.y, a.z, a.w]);
    let vb: bevy_math::Vec4 = bytemuck::cast([b.x, b.y, b.z, b.w]);
    let s = (va - vb).to_array();
    FlowVector { x: s[0].to_bits(), y: s[1].to_bits(), z: s[2].to_bits(), w: s[3].to_bits() }
}

/// Relies on `bevy_math::Vec4`'s componentwise multiplication: each output
/// lane is the single-precision product of the input lane and the scalar.
#[verifier::external_body]
fn vec4_mul_scalar(a: FlowVector, s: u32) -> (r: FlowVector)
    ensures
        r.x == mul_bits(a.x, s),
        r.y == mul_bits(a.y, s),
        r.z == mul_bits(a.z, s),
        r.w == mul_bits(a.w, s),
{
    let va: bevy_math::Vec4 = bytemuck::cast([a.x, a.y, a.z, a.w]);
    let vs: bevy_math::Vec4 = bytemuck::cast([s, s, s, s]);
    let p = (va * vs).to_array();
    FlowVector { x: p[0].to_bits(), y: p[1].to_bits(), z: p[2].to_bits(), w: p[3].to_bits() }
}

/// Relies on `bevy_math::Vec4`'s componentwise division: each output lane is
/// the single-precision quotient of the input lane by the scalar. Division
/// by `1.0` is exact, so it returns a non-NaN numerator unchanged.
#[verifier::external_body]
fn vec4_div_scalar(a: FlowVector, s: u32) -> (r: FlowVector)
    ensures
        r.x == div_bits(a.x, s),
        r.y == div_bits(a.y, s),
        r.z == div_bits(a.z, s),
        r.w == div_bits(a.w, s),
        s == ONE_F32 && !is_nan_bits(a.x) ==> r.x == a.x,
        s == ONE_F32 && !is_nan_bits(a.y) ==> r.y == a.y,
        s == ONE_F32 && !is_nan_bits(a.z) ==> r.z == a.z,
        s == ONE_F32 && !is_nan_bits(a.w) ==> r.w == a.w,
{
    let va: bevy_math::Vec4 = bytemuck::cast([a.x, a.y, a.z, a.w]);
    let vs: bevy_math::Vec4 = bytemuck::cast([s, s, s, s]);
    let q = (va / vs).to_array();
    FlowVector { x: q[0].to_bits(), y: q[1].to_bits(), z: q[2].to_bits(), w: q[3].to_bits() }
}

/// Relies on `bevy_math::Vec4`'s componentwise negation: each output lane is
/// the single-precision negation of the input lane.
#[verifier::external_body]
fn vec4_neg(a: FlowVector) -> (r: FlowVector)
    ensures
        r.x == neg_bits(a.x),
        r.y == neg_bits(a.y),
        r.z == neg_bits(a.z),
        r.w == neg_bits(a.w),
{
    let va: bevy_math::Vec4 = bytemuck::cast([a.x, a.y, a.z, a.w]);
    let n = (-va).to_array();
    FlowVector { x: n[0].to_bits(), y: n[1].to_bits(), z: n[2].to_bits(), w: n[3].to_bits() }
}

/// The sum of `s`, folded from the left starting at the zero vector.
pub open spec fn spec_sum(s: Seq<FlowVector>) -> FlowVector
    decreases s.len(),
{
    if s.len() == 0 {
        FlowVector::spec_zero()
    } else {
        spec_sum(s.drop_last()).spec_add(s.last())
    }
}

impl FlowVector {
    /// The distinguished zero vector: no momentum, no density. Its lanes are
    /// the all-zero bit pattern, which is the single-precision `+0.0`.
    pub open spec fn spec_zero() -> FlowVector {
        FlowVector { x: 0u32, y: 0u32, z: 0u32, w: 0u32 }
    }

    /// Returns the zero vector: momentum density `(0, 0, 0)` and density `0`.
    pub fn zero() -> (r: Self)
        ensures
            r == FlowVector::spec_zero(),
    {
        FlowVector { x: 0u32, y: 0u32, z: 0u32, w: 0u32 }
    }

    /// Returns a [`FlowVector`] with the given momentum density and density.
    pub fn new(momentum_density: Float3, density: u32) -> (r: Self)
        ensures
            r.x == momentum_density.x,
            r.y == momentum_density.y,
            r.z == momentum_density.z,
            r.w == density,
    {
        FlowVector { x: momentum_density.x, y: momentum_density.y, z: momentum_density.z, w: density }
    }

    /// Creates a [`FlowVector`] given the fluid's velocity and density: the
    /// momentum density is the velocity scaled by the density.
    ///
    /// [`FlowVector::new`] should be preferred in most cases since it better
    /// represents how the fluid will interact with objects.
    pub fn from_velocity(velocity: Float3, density: u32) -> (r: Self)
        ensures
            r.x == mul_bits(velocity.x, density),
            r.y == mul_bits(velocity.y, density),
            r.z == mul_bits(velocity.z, density),
            r.w == density,
    {
        let scaled = vec4_mul_scalar(
            FlowVector { x: velocity.x, y: velocity.y, z: velocity.z, w: 0u32 },
            density,
        );
        FlowVector { x: scaled.x, y: scaled.y, z: scaled.z, w: density }
    }

    /// The momentum density of the fluid flow.
    pub open spec fn spec_momentum_density(self) -> Float3 {
        Float3 { x: self.x, y: self.y, z: self.z }
    }

    /// Returns the momentum density of the fluid flow (units: kg·m/s·m⁻³).
    pub fn momentum_density(self) -> (r: Float3)
        ensures
            r == self.spec_momentum_density(),
    {
        Float3 { x: self.x, y: self.y, z: self.z }
    }

    /// Returns the density of the fluid flow (units: kg·m⁻³).
    pub fn density(self) -> (r: u32)
        ensures
            r == self.w,
    {
        self.w
    }

    /// The velocity of the fluid flow: momentum density divided by density,
    /// component by component. Nothing guards a zero density; the division
    /// proceeds under IEEE-754 rules and may yield an infinity or NaN.
    pub open spec fn spec_velocity(self) -> Float3 {
        Float3 {
            x: div_lane(self.x, self.w),
            y: div_lane(self.y, self.w),
            z: div_lane(self.z, self.w),
        }
    }

    /// Returns the velocity of the fluid flow (units: m/s). This is
    /// `momentum_density` divided by `density`, component by component.
    pub fn velocity(self) -> (r: Float3)
        ensures
            r == self.spec_velocity(),
    {
        let q = vec4_div_scalar(self, self.w);
        Float3 { x: q.x, y: q.y, z: q.z }
    }

    /// The componentwise single-precision sum of `self` and `rhs`.
    pub open spec fn spec_add(self, rhs: Self) -> Self {
        FlowVector {
            x: add_bits(self.x, rhs.x),
            y: add_bits(self.y, rhs.y),
            z: add_bits(self.z, rhs.z),
            w: add_bits(self.w, rhs.w),
        }
    }

    /// Adds two flow vectors component by component.
    pub fn add(self, rhs: Self) -> (r: Self)
        ensures
            r == self.spec_add(rhs),
    {
        vec4_add(self, rhs)
    }

    /// The componentwise single-precision difference of `self` and `rhs`.
    pub open spec fn spec_sub(self, rhs: Self) -> Self {
        FlowVector {
            x: sub_bits(self.x, rhs.x),
            y: sub_bits(self.y, rhs.y),
            z: sub_bits(self.z, rhs.z),
            w: sub_bits(self.w, rhs.w),
        }
    }

    /// Subtracts `rhs` from `self` component by component.
    pub fn sub(self, rhs: Self) -> (r: Self)
        ensures
            r == self.spec_sub(rhs),
    {
        vec4_sub(self, rhs)
    }

    /// `self` scaled by the single-precision scalar with bit pattern `rhs`.
    pub open spec fn spec_mul(self, rhs: u32) -> Self {
        FlowVector {
            x: mul_bits(self.x, rhs),
            y: mul_bits(self.y, rhs),
            z: mul_bits(self.z, rhs),
            w: mul_bits(self.w, rhs),
        }
    }

    /// Scales every lane by the scalar with bit pattern `rhs`.
    pub fn mul(self, rhs: u32) -> (r: Self)
        ensures
            r == self.spec_mul(rhs),
    {
        vec4_mul_scalar(self, rhs)
    }

    /// `self` divided by the single-precision scalar with bit pattern `rhs`.
    pub open spec fn spec_div(self, rhs: u32) -> Self {
        FlowVector {
            x: div_lane(self.x, rhs),
            y: div_lane(self.y, rhs),
            z: div_lane(self.z, rhs),
            w: div_lane(self.w, rhs),
        }
    }

    /// Divides every lane by the scalar with bit pattern `rhs`.
    pub fn div(self, rhs: u32) -> (r: Self)
        ensures
            r == self.spec_div(rhs),
    {
        vec4_div_scalar(self, rhs)
    }

    /// The componentwise single-precision negation of `self`.
    pub open spec fn spec_neg(self) -> Self {
        FlowVector {
            x: neg_bits(self.x),
            y: neg_bits(self.y),
            z: neg_bits(self.z),
            w: neg_bits(self.w),
        }
    }

    /// Negates every lane.
    pub fn neg(self) -> (r: Self)
        ensures
            r == self.spec_neg(),
    {
        vec4_neg(self)
    }

    /// Sums a sequence of flow vectors, folding from the left starting at
    /// the zero vector.
    pub fn sum(values: &Vec<FlowVector>) -> (r: Self)
        ensures
            r == spec_sum(values@),
    {
        let mut acc = FlowVector::zero();
        let mut i: usize = 0;
        while i < values.len()
            invariant
                i <= values@.len(),
                acc == spec_sum(values@.take(i as int)),
            decreases values@.len() - i,
        {
            proof {
                assert(values@.take(i + 1).drop_last() =~= values@.take(i as int));
            }
            acc = acc.add(values[i]);
            i = i + 1;
        }
        proof {
            assert(values@.take(values@.len() as int) =~= values@);
        }
        acc
    }
}

/// Adds two single-precision scalars given as bit patterns.
pub(crate) fn scalar_add(a: u32, b: u32) -> (r: u32)
    ensures
        r == add_bits(a, b),
{
    vec4_add(FlowVector { x: a, y: a, z: a, w: a }, FlowVector { x: b, y: b, z: b, w: b }).x
}

/// Subtracts two single-precision scalars given as bit patterns.
pub(crate) fn scalar_sub(a: u32, b: u32) -> (r: u32)
    ensures
        r == sub_bits(a, b),
{
    vec4_sub(FlowVector { x: a, y: a, z: a, w: a }, FlowVector { x: b, y: b, z: b, w: b }).x
}

/// Multiplies two single-precision scalars given as bit patterns.
pub(crate) fn scalar_mul(a: u32, b: u32) -> (r: u32)
    ensures
        r == mul_bits(a, b),
{
    vec4_mul_scalar(FlowVector { x: a, y: a, z: a, w: a }, b).x
}

/// Divides two single-precision scalars given as bit patterns.
pub(crate) fn scalar_div(a: u32, b: u32) -> (r: u32)
    ensures
        r == div_bits(a, b),
{
    vec4_div_scalar(FlowVector { x: a, y: a, z: a, w: a }, b).x
}

/// Velocity is momentum density divided by density, component by component;
/// in particular, at density `1.0` the velocity equals the momentum density
/// exactly for every non-NaN momentum lane.
pub proof fn lemma_velocity_unit_density(v: FlowVector)
    requires
        v.w == ONE_F32,
        !is_nan_bits(v.x),
        !is_nan_bits(v.y),
        !is_nan_bits(v.z),
    ensures
        v.spec_velocity() == v.spec_momentum_density(),
{
}

} // verus!
