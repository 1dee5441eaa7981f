//! The composable generator algebra: rules mapping a 3D position to a
//! flow vector, used to author fields.
//!
//! A [`FlowFieldGenerator`] evaluates one position at a time; combinators
//! wrap generators without inspecting their internals:
//!
//! - [`SumGenerator`]: an ordered collection of generators whose outputs
//!   are added; the empty sum evaluates to the zero vector everywhere.
//! - [`Transformed`]: maps the sample position into the wrapped
//!   generator's local space through the inverse of an affine transform,
//!   computed once at construction.
//! - [`Amplified`]: scales the wrapped generator's output by a scalar.
//! - [`Uniform`]: ignores the position and returns a fixed value.
//!
//! Evaluation is purely functional: the contract of
//! [`FlowFieldGenerator::generate`] pins the result to the generator's
//! evaluation spec, so a fill may sample the grid in any order.

use vstd::prelude::*;

use crate::vector::Float3;
use crate::vector::FlowVector;

verus! {

/// An affine transform of 3D space: a 3×3 linear part and a translation,
/// stored column-major as twelve single-precision bit patterns (three
/// basis columns, then the translation).
#[derive(Clone, Copy, Debug)]
pub struct Affine3 {
    /// Column-major entries: the three columns of the linear part, then
    /// the translation, each three single-precision bit patterns.
    pub entries: [u32; 12],
}

/// The column-major entries of the inverse of the affine transform with
/// the given column-major entries.
pub uninterp spec fn inverse_bits(entries: Seq<u32>) -> Seq<u32>;

/// The point reached by applying the affine transform with the given
/// column-major entries to the point `p` (both as single-precision bit
/// patterns, three per point).
pub uninterp spec fn transform_point_bits(entries: Seq<u32>, p: Seq<u32>) -> Seq<u32>;

/// The affine transform `entries` applied to `p`, as a [`Float3`].
pub open spec fn spec_transform_point(entries: Seq<u32>, p: Float3) -> Float3 {
    Float3 {
        x: transform_point_bits(entries, seq![p.x, p.y, p.z])[0],
        y: transform_point_bits(entries, seq![p.x, p.y, p.z])[1],
        z: transform_point_bits(entries, seq![p.x, p.y, p.z])[2],
    }
}

/// Relies on `bevy_math::Affine3A::inverse`: the inverse affine
/// transform, a function of the entries alone.
#[verifier::external_body]
fn affine_inverse(transform: &Affine3) -> (r: Affine3)
    ensures
        r.entries@ == inverse_bits(transform.entries@),
{
    let a = bevy_math::Affine3A::from_cols_array(&bytemuck::cast(transform.entries));
    Affine3 { entries: bytemuck::cast(a.inverse().to_cols_array()) }
}

/// Relies on `bevy_math::Affine3A::transform_point3`: applies the affine
/// transform to a point, a function of the entries and the point alone.
#[verifier::external_body]
fn affine_apply(transform: &Affine3, p: Float3) -> (r: Float3)
    ensures
        r.x == transform_point_bits(transform.entries@, seq![p.x, p.y, p.z])[0],
        r.y == transform_point_bits(transform.entries@, seq![p.x, p.y, p.z])[1],
        r.z == transform_point_bits(transform.entries@, seq![p.x, p.y, p.z])[2],
{
    let a = bevy_math::Affine3A::from_cols_array(&bytemuck::cast(transform.entries));
    let q = a.transform_point3(bytemuck::cast([p.x, p.y, p.z])).to_array();
    Float3 { x: q[0].to_bits(), y: q[1].to_bits(), z: q[2].to_bits() }
}

/// A rule producing a flow vector for any 3D position.
///
/// Evaluation is purely functional: the result of `generate` is pinned
/// to `spec_generate` of the generator's value, so callers may sample
/// positions in any order and any number of times. Every generator of
/// this crate is a plain value; a rule that needs per-call state (a
/// seeded noise source, say) would have to manage it behind interior
/// mutability and could promise correspondingly less here.
pub trait FlowFieldGenerator: Sized {
    /// The value this generator produces at `position`.
    spec fn spec_generate(self, position: Float3) -> FlowVector;

    /// Evaluates the generator at `position`.
    fn generate(&self, position: Float3) -> (r: FlowVector)
        ensures
            r == self.spec_generate(position),
    ;

    /// Wraps this generator so that sample positions are mapped into its
    /// local space through the inverse of `transform`, computed here,
    /// once, not per evaluation.
    fn transformed(self, transform: &Affine3) -> (r: Transformed<Self>)
        ensures
            r.inner == self,
            r.world_to_local.entries@ == inverse_bits(transform.entries@),
    {
        Transformed { inner: self, world_to_local: affine_inverse(transform) }
    }

    /// Wraps this generator so that its output is scaled by the
    /// single-precision scalar with bit pattern `multiplier`.
    fn amplified(self, multiplier: u32) -> (r: Amplified<Self>)
        ensures
            r.inner == self,
            r.multiplier == multiplier,
    {
        Amplified { inner: self, multiplier }
    }
}

/// A generator returning a fixed value everywhere.
#[derive(Clone, Copy, PartialEq, Eq, Structural, Debug)]
pub struct Uniform(pub FlowVector);

impl FlowFieldGenerator for Uniform {
    open spec fn spec_generate(self, position: Float3) -> FlowVector {
        self.0
    }

    fn generate(&self, position: Float3) -> (r: FlowVector) {
        self.0
    }
}

/// The generator returning `value` at every position.
pub fn uniform_flow_field(value: FlowVector) -> (r: Uniform)
    ensures
        r == Uniform(value),
{
    Uniform(value)
}

/// The outputs of the generators of `gens` at `position`, in order.
pub open spec fn spec_outputs<G: FlowFieldGenerator>(gens: Seq<G>, position: Float3) -> Seq<
    FlowVector,
> {
    gens.map_values(|g: G| g.spec_generate(position))
}

/// The outputs of `s` added in order, starting from the first output;
/// the empty sequence yields the zero vector. Starting from the first
/// output rather than from zero keeps the two-generator composition
/// exactly the sum of the two outputs.
pub open spec fn spec_added(s: Seq<FlowVector>) -> FlowVector
    decreases s.len(),
{
    if s.len() == 0 {
        FlowVector::spec_zero()
    } else if s.len() == 1 {
        s[0]
    } else {
        spec_added(s.drop_last()).spec_add(s.last())
    }
}

/// An ordered collection of generators whose outputs are added; composing
/// zero generators yields the zero vector everywhere.
pub struct SumGenerator<G: FlowFieldGenerator> {
    /// The composed generators, evaluated in order.
    pub generators: Vec<G>,
}

impl<G: FlowFieldGenerator> FlowFieldGenerator for SumGenerator<G> {
    open spec fn spec_generate(self, position: Float3) -> FlowVector {
        spec_added(spec_outputs(self.generators@, position))
    }

    fn generate(&self, position: Float3) -> (r: FlowVector) {
        let ghost outs = spec_outputs(self.generators@, position);
        if self.generators.len() == 0 {
            return FlowVector::zero();
        }
        let mut acc = self.generators[0].generate(position);
        proof {
            assert(outs.take(1) =~= seq![self.generators@[0].spec_generate(position)]);
        }
        let mut i: usize = 1;
        while i < self.generators.len()
            invariant
                1 <= i <= self.generators@.len(),
                outs == spec_outputs(self.generators@, position),
                acc == spec_added(outs.take(i as int)),
            decreases self.generators@.len() - i,
        {
            proof {
                assert(outs.take(i + 1).drop_last() =~= outs.take(i as int));
            }
            acc = acc.add(self.generators[i].generate(position));
            i = i + 1;
        }
        proof {
            assert(outs.take(self.generators@.len() as int) =~= outs);
        }
        acc
    }
}

/// Wraps a generator and an affine transform; every sample position is
/// mapped into the wrapped generator's local space through the inverse of
/// that transform before delegating.
#[derive(Clone, Copy, Debug)]
pub struct Transformed<G: FlowFieldGenerator> {
    /// The wrapped generator.
    pub inner: G,
    /// The inverse of the supplied transform, computed at construction.
    pub world_to_local: Affine3,
}

impl<G: FlowFieldGenerator> FlowFieldGenerator for Transformed<G> {
    open spec fn spec_generate(self, position: Float3) -> FlowVector {
        self.inner.spec_generate(spec_transform_point(self.world_to_local.entries@, position))
    }

    fn generate(&self, position: Float3) -> (r: FlowVector) {
        let local = affine_apply(&self.world_to_local, position);
        self.inner.generate(local)
    }
}

/// Wraps a generator and a scalar; the wrapped generator's output is
/// multiplied by that scalar.
#[derive(Clone, Copy, Debug)]
pub struct Amplified<G: FlowFieldGenerator> {
    /// The wrapped generator.
    pub inner: G,
    /// Bit pattern of the single-precision amplification factor.
    pub multiplier: u32,
}

impl<G: FlowFieldGenerator> FlowFieldGenerator for Amplified<G> {
    open spec fn spec_generate(self, position: Float3) -> FlowVector {
        self.inner.spec_generate(position).spec_mul(self.multiplier)
    }

    fn generate(&self, position: Float3) -> (r: FlowVector) {
        self.inner.generate(position).mul(self.multiplier)
    }
}

/// Sum composition of two generators: the composed generator evaluates to
/// the sum of the two evaluations, exactly.
pub proof fn lemma_sum_of_two<G: FlowFieldGenerator>(s: SumGenerator<G>, position: Float3)
    requires
        s.generators@.len() == 2,
    ensures
        s.spec_generate(position) == s.generators@[0].spec_generate(position).spec_add(
            s.generators@[1].spec_generate(position),
        ),
{
    let outs = spec_outputs(s.generators@, position);
    let v0 = s.generators@[0].spec_generate(position);
    let v1 = s.generators@[1].spec_generate(position);
    assert(outs.drop_last() =~= seq![v0]);
    assert(spec_added(seq![v0]) == v0);
    assert(outs.last() == v1);
}

/// Sum composition of no generators: the empty composition evaluates to
/// the zero vector at every position.
pub proof fn lemma_sum_of_none<G: FlowFieldGenerator>(s: SumGenerator<G>, position: Float3)
    requires
        s.generators@.len() == 0,
    ensures
        s.spec_generate(position) == FlowVector::spec_zero(),
{
    assert(spec_outputs(s.generators@, position) =~= Seq::<FlowVector>::empty());
}

/// Amplified composition: the wrapped generator's output is scaled by the
/// multiplier, at every position and for every multiplier.
pub proof fn lemma_amplified_composition<G: FlowFieldGenerator>(
    a: Amplified<G>,
    position: Float3,
)
    ensures
        a.spec_generate(position) == a.inner.spec_generate(position).spec_mul(a.multiplier),
{
}

/// Transformed composition: the combinator built from `g` and `transform`
/// evaluates `g` at the position mapped through the inverse of
/// `transform`. The hypotheses are exactly what
/// [`FlowFieldGenerator::transformed`] ensures of `t`.
pub proof fn lemma_transformed_composition<G: FlowFieldGenerator>(
    g: G,
    transform: Affine3,
    t: Transformed<G>,
    position: Float3,
)
    requires
        t.inner == g,
        t.world_to_local.entries@ == inverse_bits(transform.entries@),
    ensures
        t.spec_generate(position) == g.spec_generate(
            spec_transform_point(inverse_bits(transform.entries@), position),
        ),
{
}

} // verus!
