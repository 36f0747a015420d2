//! Runtime graphics settings and the device capability probe.

use vstd::prelude::*;

verus! {

/// Hardware multisampling level of the forward pass.
#[derive(Clone, Copy, PartialEq, Eq, Structural, Debug)]
pub enum Msaa {
    Off,
    X2,
    X4,
    X8,
}

impl Msaa {
    /// Samples per pixel of the forward attachments.
    pub fn sample_count(self) -> (result: u32)
        ensures
            result == self.spec_sample_count(),
    {
        match self {
            Msaa::Off => 1,
            Msaa::X2 => 2,
            Msaa::X4 => 4,
            Msaa::X8 => 8,
        }
    }

    pub open spec fn spec_sample_count(self) -> u32 {
        match self {
            Msaa::Off => 1,
            Msaa::X2 => 2,
            Msaa::X4 => 4,
            Msaa::X8 => 8,
        }
    }

    /// True when the forward pass renders into a multisampled
    /// attachment that has to be resolved before presentation.
    pub fn multisampling_activated(self) -> (result: bool)
        ensures
            result == self.spec_multisampling_activated(),
    {
        !matches!(self, Msaa::Off)
    }

    pub open spec fn spec_multisampling_activated(self) -> bool {
        self != Msaa::Off
    }
}

/// Post-process anti-aliasing mode, the alternative to multisampling.
#[derive(Clone, Copy, PartialEq, Eq, Structural, Debug)]
pub enum ScreenSpaceAntiAliasing {
    Off,
    Fxaa,
    Cmaa2,
}

/// Shadow-map quality setting; each level fixes the resolution of the
/// directional shadow map and of every point-shadow cube face.
#[derive(Clone, Copy, PartialEq, Eq, Structural, Debug)]
pub enum ShadowDetail {
    Low,
    Medium,
    High,
    Ultra,
}

impl ShadowDetail {
    /// Edge length of the square directional shadow map, in pixels.
    pub fn directional_shadow_resolution(self) -> (result: u32)
        ensures
            result == self.spec_directional_shadow_resolution(),
    {
        match self {
            ShadowDetail::Low => 1024,
            ShadowDetail::Medium => 2048,
            ShadowDetail::High => 4096,
            ShadowDetail::Ultra => 8192,
        }
    }

    pub open spec fn spec_directional_shadow_resolution(self) -> u32 {
        match self {
            ShadowDetail::Low => 1024,
            ShadowDetail::Medium => 2048,
            ShadowDetail::High => 4096,
            ShadowDetail::Ultra => 8192,
        }
    }

    /// Edge length of one point-shadow cube face, in pixels.
    pub fn point_shadow_resolution(self) -> (result: u32)
        ensures
            result == self.spec_point_shadow_resolution(),
    {
        match self {
            ShadowDetail::Low => 128,
            ShadowDetail::Medium => 256,
            ShadowDetail::High => 512,
            ShadowDetail::Ultra => 1024,
        }
    }

    pub open spec fn spec_point_shadow_resolution(self) -> u32 {
        match self {
            ShadowDetail::Low => 128,
            ShadowDetail::Medium => 256,
            ShadowDetail::High => 512,
            ShadowDetail::Ultra => 1024,
        }
    }
}

/// Filtering mode of the sampler used for scene textures.
#[derive(Clone, Copy, PartialEq, Eq, Structural, Debug)]
pub enum TextureSamplerType {
    Nearest,
    Linear,
    Anisotropic,
}

/// Optional device features, probed once at initialisation.  Missing
/// support is a policy decision, never a per-frame error: drawing falls
/// back to per-instruction draw calls or to solid fill.
#[derive(Clone, Copy, PartialEq, Eq, Structural, Debug)]
pub struct Capabilities {
    pub multidraw_indirect: bool,
    pub polygon_mode_line: bool,
}

impl Capabilities {
    pub fn supports_multidraw_indirect(self) -> (result: bool)
        ensures
            result == self.multidraw_indirect,
    {
        self.multidraw_indirect
    }

    pub fn supports_polygon_mode_line(self) -> (result: bool)
        ensures
            result == self.polygon_mode_line,
    {
        self.polygon_mode_line
    }
}

} // verus!
