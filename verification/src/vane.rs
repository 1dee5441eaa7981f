//! Vanes: simulated sensors that sample the layered flow around them.

use vstd::prelude::*;

use crate::flow::EntityId;
use crate::vector::Float3;
use crate::vector::FlowVector;

verus! {

/// Names the plugin that installs this module's systems into the
/// application shell; the wiring itself lives outside the verified core.
pub struct VanePlugin;

/// The shape of a vane's sampling volume.
#[derive(Clone, Copy, PartialEq, Eq, Structural, Debug)]
#[non_exhaustive]
pub enum Vane {
    /// A single sample at the vane's own position.
    Point,
}

impl Default for Vane {
    /// The default vane samples a single point.
    fn default() -> (r: Self)
        ensures
            r == Vane::Point,
    {
        Vane::Point
    }
}

/// A half-open range of indices into a delivery's sample buffer.
#[derive(Clone, Copy, PartialEq, Eq, Structural, Debug)]
pub struct SampleRange {
    /// The first sample index of the range.
    pub start: u32,
    /// One past the last sample index of the range.
    pub end: u32,
}

/// Delivers one batch of samples to many vanes at once: each vane
/// receives the slice of `samples` its range selects. Times are in the
/// unit of the delivering collaborator.
pub struct UpdateManyVanes {
    /// When the samples were taken.
    pub timestamp: u64,
    /// How long the delivery took.
    pub latency: u64,
    /// Which part of `samples` belongs to each vane.
    pub ranges: Vec<(EntityId, SampleRange)>,
    /// The sampled flows, in range order.
    pub samples: Vec<FlowVector>,
}

/// Delivers one batch of samples to a single vane.
pub struct UpdateVane {
    /// When the samples were taken.
    pub timestamp: u64,
    /// How long the delivery took.
    pub latency: u64,
    /// The vane the samples belong to.
    pub vane: EntityId,
    /// The sampled flows.
    pub samples: Vec<FlowVector>,
}

/// One sample taken for a vane: the flow observed at a position.
#[derive(Clone, Copy, PartialEq, Eq, Structural, Debug)]
pub struct VaneSample {
    /// The sampled flow.
    pub flow: FlowVector,
    /// Where the sample was taken.
    pub position: Float3,
}

/// The samples most recently delivered to a vane, and when they
/// arrived (in the time unit of the delivering collaborator).
pub struct VaneData {
    /// The delivered samples.
    pub samples: Vec<VaneSample>,
    /// When the last delivery happened, if one has.
    pub last_update: Option<u64>,
}

impl Default for VaneData {
    /// Before the first delivery a vane holds no samples.
    fn default() -> (r: Self)
        ensures
            r.samples@.len() == 0,
            r.last_update is None,
    {
        VaneData { samples: Vec::new(), last_update: None }
    }
}

} // verus!
