//! Culling resolution: how finely an active region is voxelized when
//! sampling work is culled.

use vstd::prelude::*;

use crate::field::UInt3;
use crate::vector::Float3;
use crate::vector::ONE_F32;

verus! {

/// Names the plugin that installs this module's systems into the
/// application shell; the wiring itself lives outside the verified core.
pub struct CullingPlugin;

/// How a region's culling grid is sized.
pub enum CullingResolution {
    /// A fixed number of voxels along each axis.
    Fixed(UInt3),
    /// Whatever voxel count approximates the given voxel edge lengths
    /// (single-precision bit patterns).
    ApproxVoxelSize(Float3),
}

impl Default for CullingResolution {
    /// By default a region aims for voxels of edge length one.
    fn default() -> (r: Self)
        ensures
            r == CullingResolution::ApproxVoxelSize(
                Float3 { x: ONE_F32, y: ONE_F32, z: ONE_F32 },
            ),
    {
        CullingResolution::ApproxVoxelSize(Float3 { x: ONE_F32, y: ONE_F32, z: ONE_F32 })
    }
}

} // verus!
