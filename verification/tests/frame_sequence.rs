//! Whole frames through the orchestrator: staging, upload and the
//! steady-state guarantee that bind groups are only rebuilt when a
//! buffer grows.

use render_core::context::GlobalContext;
use render_core::device::{BindGroupLayouts, GraphicsDevice};
use render_core::forward::ForwardModelDrawer;
use render_core::frame::render_frame;
use render_core::instruction::{
    DirectionalLightInstruction, ModelInstruction, PointLightInstruction, RenderInstruction,
    RenderSettings, UniformsInstruction,
};
use render_core::point_shadow::PointShadowRenderPassContext;
use render_core::screen::{ScreenPosition, ScreenSize};
use render_core::settings::{
    Capabilities, Msaa, ScreenSpaceAntiAliasing, ShadowDetail, TextureSamplerType,
};
use render_core::texture::TextureFormat;

fn snapshot(light_count: u64, model_count: usize) -> RenderInstruction {
    RenderInstruction {
        uniforms: UniformsInstruction {
            view_matrix_ref: 1,
            projection_matrix_ref: 2,
            animation_timer_ref: 3,
            day_timer_ref: 4,
            water_level_ref: 5,
            ambient_light_color_ref: 6,
        },
        indicator: None,
        picker_position: ScreenPosition { left: 0, top: 0 },
        directional_light_with_shadow: DirectionalLightInstruction {
            view_projection_matrix_ref: 7,
            color_ref: 8,
            direction_ref: 9,
        },
        point_light_shadow_caster: Vec::new(),
        point_light: (0..light_count)
            .map(|i| PointLightInstruction {
                position_ref: 100 + i,
                color_ref: 200 + i,
                range_ref: 300 + i,
            })
            .collect(),
        models: (0..model_count)
            .map(|i| ModelInstruction {
                model_matrix_ref: 400 + i as u64,
                vertex_offset: i * 3,
                vertex_count: 3,
            })
            .collect(),
        render_settings: RenderSettings::all_lights_visible(),
    }
}

#[test]
fn steady_state_frames_rebuild_nothing() {
    let mut device = GraphicsDevice::new(256);
    let layouts = BindGroupLayouts::new(&mut device);
    let mut context = GlobalContext::new(
        &mut device,
        &layouts,
        TextureFormat::Rgba8UnormSrgb,
        Msaa::Off,
        ScreenSpaceAntiAliasing::Off,
        ScreenSize { width: 1280, height: 720 },
        ShadowDetail::Medium,
        TextureSamplerType::Linear,
        900,
        901,
        false,
    );
    let mut drawer = ForwardModelDrawer::new(
        &mut device,
        Capabilities { multidraw_indirect: true, polygon_mode_line: false },
    );
    let mut shadow_pass = PointShadowRenderPassContext::new(&mut device, &layouts, &context);

    // Well within every initial capacity: no rebuild, ever.
    for _ in 0..3 {
        let rebuilds = render_frame(
            &mut device,
            &mut context,
            &mut drawer,
            &mut shadow_pass,
            &snapshot(10, 50),
        );
        assert!(!rebuilds.context_bind_groups);
        assert!(!rebuilds.forward_bind_group);
    }
    assert_eq!(context.global_uniforms.point_light_count, 10);
}

#[test]
fn growth_rebuilds_exactly_once_then_settles() {
    let mut device = GraphicsDevice::new(256);
    let layouts = BindGroupLayouts::new(&mut device);
    let mut context = GlobalContext::new(
        &mut device,
        &layouts,
        TextureFormat::Rgba8UnormSrgb,
        Msaa::Off,
        ScreenSpaceAntiAliasing::Off,
        ScreenSize { width: 1280, height: 720 },
        ShadowDetail::Medium,
        TextureSamplerType::Linear,
        900,
        901,
        false,
    );
    let mut drawer = ForwardModelDrawer::new(
        &mut device,
        Capabilities { multidraw_indirect: true, polygon_mode_line: false },
    );
    let mut shadow_pass = PointShadowRenderPassContext::new(&mut device, &layouts, &context);

    // 130 lights outgrow the 128-light buffer, 300 models the
    // 256-instance buffer: one rebuild each.
    let grown = snapshot(130, 300);
    let rebuilds =
        render_frame(&mut device, &mut context, &mut drawer, &mut shadow_pass, &grown);
    assert!(rebuilds.context_bind_groups);
    assert!(rebuilds.forward_bind_group);

    // The same scene again fits into the grown buffers.
    let rebuilds =
        render_frame(&mut device, &mut context, &mut drawer, &mut shadow_pass, &grown);
    assert!(!rebuilds.context_bind_groups);
    assert!(!rebuilds.forward_bind_group);
}
