//! The point-shadow pass: per-face staging and dynamic-offset
//! addressing.

use render_core::context::GlobalContext;
use render_core::device::{BindGroupLayouts, GraphicsDevice};
use render_core::instruction::{
    DirectionalLightInstruction, PointShadowCasterInstruction, RenderInstruction, RenderSettings,
    UniformsInstruction,
};
use render_core::point_shadow::{PointShadowData, PointShadowRenderPassContext};
use render_core::screen::{ScreenPosition, ScreenSize};
use render_core::settings::{Msaa, ScreenSpaceAntiAliasing, ShadowDetail, TextureSamplerType};
use render_core::texture::TextureFormat;

fn setup() -> (GraphicsDevice, BindGroupLayouts, GlobalContext, PointShadowRenderPassContext) {
    let mut device = GraphicsDevice::new(256);
    let layouts = BindGroupLayouts::new(&mut device);
    let context = GlobalContext::new(
        &mut device,
        &layouts,
        TextureFormat::Rgba8UnormSrgb,
        Msaa::Off,
        ScreenSpaceAntiAliasing::Off,
        ScreenSize { width: 1280, height: 720 },
        ShadowDetail::High,
        TextureSamplerType::Linear,
        900,
        901,
        false,
    );
    let pass_context = PointShadowRenderPassContext::new(&mut device, &layouts, &context);
    (device, layouts, context, pass_context)
}

fn caster(seed: u64) -> PointShadowCasterInstruction {
    PointShadowCasterInstruction {
        position_ref: seed,
        color_ref: seed + 1,
        range_ref: seed + 2,
        view_projection_matrix_refs: [seed + 3, seed + 4, seed + 5, seed + 6, seed + 7, seed + 8],
    }
}

fn snapshot(casters: Vec<PointShadowCasterInstruction>) -> RenderInstruction {
    RenderInstruction {
        uniforms: UniformsInstruction {
            view_matrix_ref: 1,
            projection_matrix_ref: 2,
            animation_timer_ref: 77,
            day_timer_ref: 4,
            water_level_ref: 5,
            ambient_light_color_ref: 6,
        },
        indicator: None,
        picker_position: ScreenPosition { left: 0, top: 0 },
        directional_light_with_shadow: DirectionalLightInstruction {
            view_projection_matrix_ref: 7,
            color_ref: 8,
            direction_ref: 9,
        },
        point_light_shadow_caster: casters,
        point_light: Vec::new(),
        models: Vec::new(),
        render_settings: RenderSettings::all_lights_visible(),
    }
}

#[test]
fn record_stride_is_padded_to_the_device_alignment() {
    let (_device, _layouts, _context, pass_context) = setup();
    // A 96-byte record padded to a 256-byte offset alignment.
    assert_eq!(pass_context.aligned_size, 256);
    // One aligned record per (slot, face) pair.
    assert_eq!(pass_context.uniforms_buffer.capacity, 256 * 6 * 6);
}

#[test]
fn prepare_stages_six_records_per_caster_in_face_order() {
    let (_device, _layouts, _context, mut pass_context) = setup();
    pass_context.prepare(&snapshot(vec![caster(100), caster(200)]));

    assert_eq!(pass_context.uniforms_data.len(), 12);
    // Caster 0, face 0 and face 5.
    assert_eq!(pass_context.uniforms_data[0].view_projection_matrix_ref, 103);
    assert_eq!(pass_context.uniforms_data[0].light_position_ref, 100);
    assert_eq!(pass_context.uniforms_data[0].animation_timer_ref, 77);
    assert_eq!(pass_context.uniforms_data[5].view_projection_matrix_ref, 108);
    // Caster 1, face 1 sits at slot 7.
    assert_eq!(pass_context.uniforms_data[7].view_projection_matrix_ref, 204);
    assert_eq!(pass_context.uniforms_data[7].light_position_ref, 200);
}

#[test]
fn prepare_regenerates_the_list_from_scratch() {
    let (_device, _layouts, _context, mut pass_context) = setup();
    pass_context.prepare(&snapshot(vec![caster(100), caster(200)]));
    pass_context.prepare(&snapshot(vec![caster(500)]));

    assert_eq!(pass_context.uniforms_data.len(), 6);
    assert_eq!(pass_context.uniforms_data[0].light_position_ref, 500);
}

#[test]
fn upload_never_reallocates_the_fixed_buffer() {
    let (mut device, _layouts, _context, mut pass_context) = setup();
    pass_context.prepare(&snapshot(vec![caster(100)]));
    let bind_group_before = pass_context.bind_group.id;
    let buffer_id_before = pass_context.uniforms_buffer.id;

    let rebuilt = pass_context.upload(&mut device);

    assert!(!rebuilt);
    assert_eq!(pass_context.bind_group.id, bind_group_before);
    assert_eq!(pass_context.uniforms_buffer.id, buffer_id_before);
}

#[test]
fn pass_offsets_address_light_and_face() {
    let (_device, _layouts, context, pass_context) = setup();

    let pass = pass_context.create_pass(
        &context,
        PointShadowData { shadow_caster_index: 0, face_index: 0 },
    );
    assert_eq!(pass.dynamic_offset, 0);

    let pass = pass_context.create_pass(
        &context,
        PointShadowData { shadow_caster_index: 1, face_index: 2 },
    );
    // (1 * 6 + 2) aligned records of 256 bytes.
    assert_eq!(pass.dynamic_offset, 8 * 256);

    let pass = pass_context.create_pass(
        &context,
        PointShadowData { shadow_caster_index: 5, face_index: 5 },
    );
    assert_eq!(pass.dynamic_offset, 35 * 256);
}

#[test]
fn distinct_light_face_pairs_never_alias() {
    let (_device, _layouts, context, pass_context) = setup();
    let mut offsets = Vec::new();
    for light in 0..6 {
        for face in 0..6 {
            let pass = pass_context.create_pass(
                &context,
                PointShadowData { shadow_caster_index: light, face_index: face },
            );
            offsets.push(pass.dynamic_offset);
        }
    }
    // All 36 offsets are distinct and one full record apart.
    for a in 0..offsets.len() {
        for b in (a + 1)..offsets.len() {
            let low = offsets[a].min(offsets[b]);
            let high = offsets[a].max(offsets[b]);
            assert!(low + 256 <= high);
        }
    }
}

#[test]
fn pass_targets_the_requested_cube_face() {
    let (_device, _layouts, context, pass_context) = setup();
    let pass = pass_context.create_pass(
        &context,
        PointShadowData { shadow_caster_index: 3, face_index: 4 },
    );

    assert_eq!(pass.target.texture_id, context.point_shadow_map_textures.id);
    assert_eq!(pass.target.slot, 3);
    assert_eq!(pass.target.face, 4);
    assert!(pass.clear_depth_to_far);
    // High shadow detail: 512-pixel cube faces.
    assert_eq!(pass.viewport_width, 512);
    assert_eq!(pass.viewport_height, 512);
    assert_eq!(pass.global_bind_group_id, context.global_bind_group.id);
    assert_eq!(pass.pass_bind_group_id, pass_context.bind_group.id);
}
