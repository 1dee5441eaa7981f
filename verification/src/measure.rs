//! Measures: derived quantities computed from a vane's delivered
//! samples.
//!
//! A [`Measure`] reduces the samples of one vane to a value — the mean
//! flow vector, or one of its derived quantities. [`Measured`] stores
//! the latest such value and reports a distinct "not yet available"
//! condition, [`MissingMeasuredValueError`], rather than a default when
//! nothing has been measured yet.

use vstd::prelude::*;

use crate::field::UInt3;
use crate::field::float_of_uint;
use crate::field::uint3_to_float;
use crate::vane::Vane;
use crate::vane::VaneSample;
use crate::vector::Float3;
use crate::vector::FlowVector;
use crate::vector::spec_sum;

verus! {

/// A rule reducing one vane's samples to a derived value.
pub trait Measure: Sized {
    /// The derived value's type.
    type Value: Copy;

    /// The value this measure derives from `samples` taken by `vane`.
    spec fn spec_measure(vane: Vane, samples: Seq<VaneSample>) -> Self::Value;

    /// Derives the value from the samples taken by `vane`.
    fn measure(vane: &Vane, samples: &Vec<VaneSample>) -> (r: Self::Value)
        ensures
            r == Self::spec_measure(*vane, samples@),
    ;
}

/// The sampled flows of `samples`, in order.
pub open spec fn spec_sample_flows(samples: Seq<VaneSample>) -> Seq<FlowVector> {
    samples.map_values(|s: VaneSample| s.flow)
}

impl Measure for FlowVector {
    type Value = FlowVector;

    /// The mean sampled flow: the sum of the sampled flows divided by
    /// their count, under single-precision arithmetic (an empty sample
    /// set divides zero by zero).
    open spec fn spec_measure(vane: Vane, samples: Seq<VaneSample>) -> FlowVector {
        spec_sum(spec_sample_flows(samples)).spec_div(float_of_uint(samples.len() as u32))
    }

    fn measure(vane: &Vane, samples: &Vec<VaneSample>) -> (r: FlowVector) {
        let mut flows: Vec<FlowVector> = Vec::new();
        let mut i: usize = 0;
        while i < samples.len()
            invariant
                i <= samples@.len(),
                flows@.len() == i,
                forall|j: int| 0 <= j < i ==> flows@[j] == samples@[j].flow,
            decreases samples@.len() - i,
        {
            flows.push(samples[i].flow);
            i = i + 1;
        }
        proof {
            assert(flows@ =~= spec_sample_flows(samples@));
        }
        let total = FlowVector::sum(&flows);
        let n: u32 = #[verifier::truncate] (samples.len() as u32);
        let count = uint3_to_float(UInt3 { x: n, y: n, z: n });
        total.div(count.x)
    }
}

/// Measures the mean momentum density of the sampled flow.
pub struct MomentumDensity;

impl Measure for MomentumDensity {
    type Value = Float3;

    /// The momentum density of the mean sampled flow.
    open spec fn spec_measure(vane: Vane, samples: Seq<VaneSample>) -> Float3 {
        <FlowVector as Measure>::spec_measure(vane, samples).spec_momentum_density()
    }

    fn measure(vane: &Vane, samples: &Vec<VaneSample>) -> (r: Float3) {
        <FlowVector as Measure>::measure(vane, samples).momentum_density()
    }
}

/// Measures the mean density of the sampled flow.
pub struct Density;

impl Measure for Density {
    type Value = u32;

    /// The density of the mean sampled flow (a single-precision bit
    /// pattern).
    open spec fn spec_measure(vane: Vane, samples: Seq<VaneSample>) -> u32 {
        <FlowVector as Measure>::spec_measure(vane, samples).w
    }

    fn measure(vane: &Vane, samples: &Vec<VaneSample>) -> (r: u32) {
        <FlowVector as Measure>::measure(vane, samples).density()
    }
}

/// Measures the velocity of the mean sampled flow.
pub struct Velocity;

impl Measure for Velocity {
    type Value = Float3;

    /// The velocity of the mean sampled flow: its momentum density
    /// divided by its density.
    open spec fn spec_measure(vane: Vane, samples: Seq<VaneSample>) -> Float3 {
        <FlowVector as Measure>::spec_measure(vane, samples).spec_velocity()
    }

    fn measure(vane: &Vane, samples: &Vec<VaneSample>) -> (r: Float3) {
        <FlowVector as Measure>::measure(vane, samples).velocity()
    }
}

/// Why a measure could not be taken.
#[non_exhaustive]
#[derive(Clone, Copy, PartialEq, Eq, Structural, Debug)]
pub enum MeasureError {
    /// The measure does not support the given vane shape.
    UnsupportedVane(Vane),
}

/// The error reported when a measured value is read before any
/// measurement has been delivered.
#[derive(Clone, Copy, PartialEq, Eq, Structural, Debug)]
pub struct MissingMeasuredValueError;

/// One end of a measured-value range: inclusive, exclusive, or open.
#[derive(Clone, Copy, PartialEq, Eq, Structural, Debug)]
pub enum TriggerBound<T> {
    /// The range includes the bound.
    Included(T),
    /// The range excludes the bound.
    Excluded(T),
    /// The range is open on this side.
    Unbounded,
}

/// Fires when the scalar derived by the measure `M` enters the given
/// range; each bound is the bit pattern of a single-precision scalar.
pub struct Trigger<M: Measure> {
    /// The range's lower end.
    pub start: TriggerBound<u32>,
    /// The range's upper end.
    pub end: TriggerBound<u32>,
    /// The measure the trigger watches.
    pub measure: core::marker::PhantomData<M>,
}

impl<M: Measure> Trigger<M> {
    /// A trigger over the given range.
    pub fn from_bounds(start: TriggerBound<u32>, end: TriggerBound<u32>) -> (r: Trigger<M>)
        ensures
            r.start == start,
            r.end == end,
    {
        Trigger { start, end, measure: core::marker::PhantomData }
    }

    /// The range's lower end.
    pub fn start_bound(&self) -> (r: TriggerBound<u32>)
        ensures
            r == self.start,
    {
        self.start
    }

    /// The range's upper end.
    pub fn end_bound(&self) -> (r: TriggerBound<u32>)
        ensures
            r == self.end,
    {
        self.end
    }
}

/// The latest value derived by the measure `M` for one vane, if any
/// measurement has been delivered yet.
pub struct Measured<M: Measure> {
    /// The latest derived value.
    pub value: Option<M::Value>,
}

impl<M: Measure> Default for Measured<M> {
    /// Before the first measurement there is no value.
    fn default() -> (r: Self)
        ensures
            r.value is None,
    {
        Measured { value: None }
    }
}

impl<M: Measure> Measured<M> {
    /// The latest measured value, or [`MissingMeasuredValueError`] when
    /// none has been delivered yet.
    pub fn value(&self) -> (r: Result<M::Value, MissingMeasuredValueError>)
        ensures
            self.value is Some ==> r == Ok::<M::Value, MissingMeasuredValueError>(
                self.value.unwrap(),
            ),
            self.value is None ==> r == Err::<M::Value, MissingMeasuredValueError>(
                MissingMeasuredValueError,
            ),
    {
        match self.value {
            Some(v) => Ok(v),
            None => Err(MissingMeasuredValueError),
        }
    }
}

} // verus!
