//! Volumetric fluid-flow fields for simulated sensors ("vanes") and a GPU
//! sampling stage.
//!
//! The core of the crate is the flow field engine:
//!
//! - [`vector::FlowVector`]: a four-channel physical value (momentum density
//!   plus density) with vector-space arithmetic and a derived velocity.
//! - [`field::FlowField`]: compressed volumetric storage, one half-precision
//!   texel per grid cell.
//! - [`field::FlowFieldGuard`]: a scoped edit session that decompresses a
//!   field into a full-precision scratch buffer and recompresses on release.
//! - [`generator::FlowFieldGenerator`]: a composable rule mapping a position
//!   to a flow vector, with sum, affine-transform and amplitude combinators.
//! - [`gpu::GpuFlowField`]: the render-side mirror of a field, reusing its
//!   texture across preparation passes while the grid size is unchanged.
//!
//! Scalar quantities throughout the verified core are IEEE-754 single- or
//! half-precision values carried as their raw bit patterns (`u32` and `u16`).
//! Floating-point arithmetic is performed by `bevy_math` behind a small
//! trusted boundary; each trusted operation names its result with an
//! uninterpreted spec function, and everything layered above is verified
//! against those names. The half-precision storage codec ([`codec`]) is
//! pure bit manipulation and is itself verified, down to its rounding.

use vstd::prelude::*;

pub mod activity;
pub mod codec;
pub mod culling;
pub mod field;
pub mod flow;
pub mod generator;
pub mod gpu;
pub mod measure;
pub mod render;
pub mod vane;
pub mod vector;

verus! {

/// Names the group of plugins that installs the whole crate into the
/// application shell; the wiring itself lives outside the verified core.
pub struct VanePlugins;

} // verus!
