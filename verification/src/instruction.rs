//! The per-frame render instruction set.
//!
//! The scene layer produces one immutable instruction snapshot per
//! frame and every resource owner stages its GPU data from it.  Float
//! payloads (matrices, world positions, colors, timers) are not read by
//! the bookkeeping logic; the snapshot carries them as opaque handles
//! (`u64` references into the scene layer's own storage) that travel
//! unchanged into the staged uniform records.

use vstd::prelude::*;

use crate::screen::ScreenPosition;

verus! {

/// A color either taken from the scene or overridden to black, the way
/// the debug toggles darken lights that are switched off.
#[derive(Clone, Copy, PartialEq, Eq, Structural, Debug)]
pub enum ColorSelection {
    /// The color payload the scene supplied, by handle.
    Scene(u64),
    /// Black, the override for a disabled light.
    Black,
}

/// Camera matrices, timers and ambient light of the frame.
#[derive(Clone, Copy, PartialEq, Eq, Structural, Debug)]
pub struct UniformsInstruction {
    pub view_matrix_ref: u64,
    pub projection_matrix_ref: u64,
    pub animation_timer_ref: u64,
    pub day_timer_ref: u64,
    pub water_level_ref: u64,
    pub ambient_light_color_ref: u64,
}

/// The ground indicator quad under the pointer, when one is shown.
#[derive(Clone, Copy, PartialEq, Eq, Structural, Debug)]
pub struct IndicatorInstruction {
    pub upper_left_ref: u64,
    pub upper_right_ref: u64,
    pub lower_left_ref: u64,
    pub lower_right_ref: u64,
    pub color_ref: u64,
}

/// The directional light, which always casts the cascaded shadow map.
#[derive(Clone, Copy, PartialEq, Eq, Structural, Debug)]
pub struct DirectionalLightInstruction {
    pub view_projection_matrix_ref: u64,
    pub color_ref: u64,
    pub direction_ref: u64,
}

/// A point light without a shadow map.
#[derive(Clone, Copy, PartialEq, Eq, Structural, Debug)]
pub struct PointLightInstruction {
    pub position_ref: u64,
    pub color_ref: u64,
    pub range_ref: u64,
}

/// A point light that renders a shadow cube this frame; it carries one
/// view-projection matrix per cube face.
#[derive(Clone, Copy, Debug)]
pub struct PointShadowCasterInstruction {
    pub position_ref: u64,
    pub color_ref: u64,
    pub range_ref: u64,
    pub view_projection_matrix_refs: [u64; 6],
}

/// One model draw: a world matrix and a range of vertices in the shared
/// vertex buffer.
#[derive(Clone, Copy, PartialEq, Eq, Structural, Debug)]
pub struct ModelInstruction {
    pub model_matrix_ref: u64,
    pub vertex_offset: usize,
    pub vertex_count: usize,
}

/// Debug visibility toggles.  The struct is always present so that the
/// renderer has a single code path; without the debug extension it is
/// simply never read.
#[derive(Clone, Copy, PartialEq, Eq, Structural, Debug)]
pub struct RenderSettings {
    pub show_ambient_light: bool,
    pub show_directional_light: bool,
    pub show_picker_buffer: bool,
    pub show_directional_shadow_map: bool,
    /// Slot of the point-shadow map to inspect, counted from 1;
    /// `None` shows none.
    pub show_point_shadow_map: Option<u32>,
    pub show_light_culling_count_buffer: bool,
    pub show_font_atlas: bool,
    pub show_wireframe: bool,
}

impl RenderSettings {
    /// Settings with every debug overlay off and every light visible.
    pub fn all_lights_visible() -> (result: RenderSettings)
        ensures
            result.show_ambient_light,
            result.show_directional_light,
            !result.show_picker_buffer,
            !result.show_directional_shadow_map,
            result.show_point_shadow_map is None,
            !result.show_light_culling_count_buffer,
            !result.show_font_atlas,
            !result.show_wireframe,
    {
        RenderSettings {
            show_ambient_light: true,
            show_directional_light: true,
            show_picker_buffer: false,
            show_directional_shadow_map: false,
            show_point_shadow_map: None,
            show_light_culling_count_buffer: false,
            show_font_atlas: false,
            show_wireframe: false,
        }
    }
}

/// The instruction snapshot of one frame, consumed read-only by every
/// staging step and discarded after upload.
pub struct RenderInstruction {
    pub uniforms: UniformsInstruction,
    pub indicator: Option<IndicatorInstruction>,
    pub picker_position: ScreenPosition,
    pub directional_light_with_shadow: DirectionalLightInstruction,
    /// Shadow-casting point lights; slot `i` renders into cube `i`.
    pub point_light_shadow_caster: Vec<PointShadowCasterInstruction>,
    /// Point lights without shadows.
    pub point_light: Vec<PointLightInstruction>,
    /// Model draws, already batched by texture by the scene layer.
    pub models: Vec<ModelInstruction>,
    pub render_settings: RenderSettings,
}

impl RenderInstruction {
    /// Bounds under which staging the snapshot cannot overflow any
    /// count or byte size.
    pub open spec fn valid(self) -> bool {
        &&& self.point_light_shadow_caster.len() + self.point_light.len() <= u32::MAX as int
        &&& self.models.len() <= u32::MAX as int
        &&& forall|i: int|
            0 <= i < self.models.len() ==> (#[trigger] self.models[i]).vertex_offset
                + self.models[i].vertex_count <= u32::MAX as int
    }
}

} // verus!
