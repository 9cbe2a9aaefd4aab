//! The off-screen multisampled color target: it exists exactly when the
//! negotiated sample count is above 1, and its extent and format always
//! equal the surface configuration's.

use vstd::prelude::*;
use crate::surface::SurfaceConfig;
use crate::surface::SurfaceFormat;

verus! {

/// Descriptor of the multisampled color target the shell allocates: a
/// two-dimensional single-mip render-attachment texture of this extent,
/// format and sample count, resolved into the presentable image each
/// frame.
#[derive(Clone, Copy, Debug, PartialEq, Eq)]
pub struct MsaaTarget {
    pub width: u32,
    pub height: u32,
    pub format: SurfaceFormat,
    pub sample_count: u32,
}

/// The target a configuration and sample count call for: none for single
/// sampling, else one sized and formatted exactly like the surface.
pub open spec fn msaa_target_for(config: SurfaceConfig, sample_count: u32) -> Option<MsaaTarget> {
    if sample_count == 1 {
        None
    } else {
        Some(
            MsaaTarget {
                width: config.width,
                height: config.height,
                format: config.format,
                sample_count,
            },
        )
    }
}

/// Recompute the multisample target descriptor for the current surface
/// configuration. Returns none exactly when the sample count is 1; the
/// returned target's extent and format equal the configuration's. Must
/// run after every successful resize, so the off-screen target never
/// holds a stale size.
pub fn ensure_msaa_target(config: &SurfaceConfig, sample_count: u32) -> (r: Option<MsaaTarget>)
    ensures
        r == msaa_target_for(*config, sample_count),
{
    if sample_count == 1 {
        None
    } else {
        Some(
            MsaaTarget {
                width: config.width,
                height: config.height,
                format: config.format,
                sample_count,
            },
        )
    }
}

} // verus!
