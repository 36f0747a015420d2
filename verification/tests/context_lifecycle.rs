//! Lifecycle of the global context: creation, per-frame staging and
//! upload, and the narrow settings updates.

use render_core::context::{
    AntiAliasingResource, GlobalContext, INITIAL_POINT_LIGHT_CAPACITY, MAX_BUFFER_SIZE,
    POINT_LIGHT_DATA_SIZE, TILE_LIGHT_INDICES_SIZE,
};
use render_core::device::{BindGroupLayouts, GraphicsDevice};
use render_core::instruction::{
    ColorSelection, DirectionalLightInstruction, PointLightInstruction,
    PointShadowCasterInstruction, RenderInstruction, RenderSettings, UniformsInstruction,
};
use render_core::screen::{ScreenPosition, ScreenSize};
use render_core::settings::{Msaa, ScreenSpaceAntiAliasing, ShadowDetail, TextureSamplerType};
use render_core::texture::{AttachmentTextureType, TextureFormat};

fn new_context(
    device: &mut GraphicsDevice,
    layouts: &BindGroupLayouts,
    width: u32,
    height: u32,
    msaa: Msaa,
    anti_aliasing: ScreenSpaceAntiAliasing,
    enable_debug: bool,
) -> GlobalContext {
    GlobalContext::new(
        device,
        layouts,
        TextureFormat::Rgba8UnormSrgb,
        msaa,
        anti_aliasing,
        ScreenSize { width, height },
        ShadowDetail::Medium,
        TextureSamplerType::Linear,
        900,
        901,
        enable_debug,
    )
}

fn snapshot(
    casters: Vec<PointShadowCasterInstruction>,
    lights: Vec<PointLightInstruction>,
    settings: RenderSettings,
) -> RenderInstruction {
    RenderInstruction {
        uniforms: UniformsInstruction {
            view_matrix_ref: 1,
            projection_matrix_ref: 2,
            animation_timer_ref: 3,
            day_timer_ref: 4,
            water_level_ref: 5,
            ambient_light_color_ref: 6,
        },
        indicator: None,
        picker_position: ScreenPosition { left: 12, top: 34 },
        directional_light_with_shadow: DirectionalLightInstruction {
            view_projection_matrix_ref: 7,
            color_ref: 8,
            direction_ref: 9,
        },
        point_light_shadow_caster: casters,
        point_light: lights,
        models: Vec::new(),
        render_settings: settings,
    }
}

fn plain_light(seed: u64) -> PointLightInstruction {
    PointLightInstruction { position_ref: seed, color_ref: seed + 1, range_ref: seed + 2 }
}

fn caster_light(seed: u64) -> PointShadowCasterInstruction {
    PointShadowCasterInstruction {
        position_ref: seed,
        color_ref: seed + 1,
        range_ref: seed + 2,
        view_projection_matrix_refs: [seed + 3, seed + 4, seed + 5, seed + 6, seed + 7, seed + 8],
    }
}

#[test]
fn creation_sizes_every_screen_resource() {
    let mut device = GraphicsDevice::new(256);
    let layouts = BindGroupLayouts::new(&mut device);
    let context = new_context(
        &mut device,
        &layouts,
        1920,
        1080,
        Msaa::Off,
        ScreenSpaceAntiAliasing::Off,
        false,
    );

    assert_eq!(context.forward_color_texture.width, 1920);
    assert_eq!(context.forward_color_texture.height, 1080);
    assert_eq!(context.forward_depth_texture.width, 1920);
    assert_eq!(context.interface_buffer_texture.width, 1920);
    assert_eq!(context.picker_buffer_texture.width, 1920);
    assert_eq!(context.tile_light_count_texture.width, 120);
    assert_eq!(context.tile_light_count_texture.height, 68);
    assert_eq!(
        context.tile_light_indices_buffer.capacity,
        120 * 68 * TILE_LIGHT_INDICES_SIZE
    );
    assert_eq!(
        context.point_light_data_buffer.capacity,
        INITIAL_POINT_LIGHT_CAPACITY * POINT_LIGHT_DATA_SIZE
    );
    // Shadow maps follow the quality setting, not the screen.
    assert_eq!(context.directional_shadow_map_texture.width, 2048);
    assert_eq!(context.point_shadow_map_textures.face_size, 256);
    assert_eq!(context.point_shadow_map_textures.count, 6);
    // No multisampling: there is no resolve target.
    assert!(context.resolved_color_texture.is_none());
    assert!(matches!(context.anti_aliasing_resources, AntiAliasingResource::Off));
    assert!(context.debug.is_none());
}

#[test]
fn resize_recreates_screen_resources_and_keeps_shadows() {
    let mut device = GraphicsDevice::new(256);
    let layouts = BindGroupLayouts::new(&mut device);
    let mut context = new_context(
        &mut device,
        &layouts,
        1920,
        1080,
        Msaa::Off,
        ScreenSpaceAntiAliasing::Off,
        false,
    );
    let directional_shadow_before = context.directional_shadow_map_texture;
    let point_shadow_before = context.point_shadow_map_textures;
    let global_bind_group_before = context.global_bind_group.id;

    context.update_screen_size_resources(&mut device, ScreenSize { width: 800, height: 600 });

    // Every screen-size-dependent resource reports the new size.
    assert_eq!(context.forward_color_texture.width, 800);
    assert_eq!(context.forward_color_texture.height, 600);
    assert_eq!(context.forward_depth_texture.height, 600);
    assert_eq!(context.interface_buffer_texture.width, 800);
    assert_eq!(context.picker_buffer_texture.height, 600);
    assert_eq!(context.tile_light_count_texture.width, 50);
    assert_eq!(context.tile_light_count_texture.height, 38);
    assert_eq!(
        context.tile_light_indices_buffer.capacity,
        1900 * TILE_LIGHT_INDICES_SIZE
    );
    // Shadow resources and the global bind group are untouched.
    assert_eq!(context.directional_shadow_map_texture, directional_shadow_before);
    assert_eq!(context.point_shadow_map_textures, point_shadow_before);
    assert_eq!(context.global_bind_group.id, global_bind_group_before);
}

#[test]
fn sampler_update_touches_only_the_global_bind_group() {
    let mut device = GraphicsDevice::new(256);
    let layouts = BindGroupLayouts::new(&mut device);
    let mut context = new_context(
        &mut device,
        &layouts,
        1920,
        1080,
        Msaa::X4,
        ScreenSpaceAntiAliasing::Fxaa,
        true,
    );

    let forward_color_before = context.forward_color_texture;
    let resolved_before = context.resolved_color_texture;
    let directional_shadow_before = context.directional_shadow_map_texture;
    let point_shadow_before = context.point_shadow_map_textures;
    let tile_indices_before = context.tile_light_indices_buffer;
    let light_culling_before = context.light_culling_bind_group.id;
    let forward_bind_group_before = context.forward_bind_group.id;
    let debug_bind_group_before = context.debug.as_ref().unwrap().debug_bind_group.id;
    let nearest_before = context.nearest_sampler;

    context.update_texture_sampler(&mut device, TextureSamplerType::Nearest);

    assert_eq!(context.texture_sampler.sampler_type, TextureSamplerType::Nearest);
    // The global bind group now references the new sampler.
    assert_eq!(
        *context.global_bind_group.entries.last().unwrap(),
        context.texture_sampler.id
    );
    // Everything else is exactly as before.
    assert_eq!(context.forward_color_texture, forward_color_before);
    assert_eq!(context.resolved_color_texture, resolved_before);
    assert_eq!(context.directional_shadow_map_texture, directional_shadow_before);
    assert_eq!(context.point_shadow_map_textures, point_shadow_before);
    assert_eq!(context.tile_light_indices_buffer, tile_indices_before);
    assert_eq!(context.light_culling_bind_group.id, light_culling_before);
    assert_eq!(context.forward_bind_group.id, forward_bind_group_before);
    assert_eq!(
        context.debug.as_ref().unwrap().debug_bind_group.id,
        debug_bind_group_before
    );
    assert_eq!(context.nearest_sampler, nearest_before);
}

#[test]
fn msaa_update_swaps_only_the_forward_and_resolve_targets() {
    let mut device = GraphicsDevice::new(256);
    let layouts = BindGroupLayouts::new(&mut device);
    let mut context = new_context(
        &mut device,
        &layouts,
        1920,
        1080,
        Msaa::Off,
        ScreenSpaceAntiAliasing::Off,
        false,
    );
    assert!(context.resolved_color_texture.is_none());
    let picker_before = context.picker_buffer_texture;
    let forward_bind_group_before = context.forward_bind_group.id;

    context.update_msaa(&mut device, Msaa::X4);

    assert_eq!(context.forward_color_texture.sample_count, 4);
    assert_eq!(context.forward_depth_texture.sample_count, 4);
    let resolved = context.resolved_color_texture.expect("multisampling needs a resolve target");
    assert_eq!(resolved.sample_count, 1);
    assert_eq!(resolved.width, 1920);
    assert_eq!(context.picker_buffer_texture, picker_before);
    assert_eq!(context.forward_bind_group.id, forward_bind_group_before);
}

#[test]
fn anti_aliasing_update_builds_the_mode_resources() {
    let mut device = GraphicsDevice::new(256);
    let layouts = BindGroupLayouts::new(&mut device);
    let mut context = new_context(
        &mut device,
        &layouts,
        1920,
        1080,
        Msaa::Off,
        ScreenSpaceAntiAliasing::Off,
        false,
    );

    context.update_screen_space_anti_aliasing(&mut device, ScreenSpaceAntiAliasing::Cmaa2);

    // Single-sampled rendering with the morphological pass lets the
    // forward color target double as a storage image.
    assert_eq!(
        context.forward_color_texture.texture_type,
        AttachmentTextureType::ColorStorageAttachment
    );
    match &context.anti_aliasing_resources {
        AntiAliasingResource::Cmaa2(resources) => {
            assert_eq!(resources.edges_texture.width, 960);
            assert_eq!(resources.edges_texture.height, 1080);
            assert_eq!(resources.shape_candidates_buffer.capacity, 1920 * 1080 / 4 * 4);
            assert_eq!(resources.deferred_blend_item_list_buffer.capacity, 1920 * 1080 / 2 * 8);
            assert_eq!(
                resources.deferred_blend_location_list_buffer.capacity,
                (1920 * 1080 + 3) / 6 * 4
            );
            assert_eq!(resources.bind_group.entries.len(), 7);
        }
        other => panic!("expected morphological resources, got {:?}", other),
    }

    context.update_screen_space_anti_aliasing(&mut device, ScreenSpaceAntiAliasing::Fxaa);
    match &context.anti_aliasing_resources {
        AntiAliasingResource::Fxaa(resources) => {
            assert_eq!(resources.color_with_luma_texture.width, 1920);
            assert_eq!(resources.color_with_luma_texture.format, TextureFormat::Rgba8UnormSrgb);
        }
        other => panic!("expected fxaa resources, got {:?}", other),
    }
}

#[test]
fn oversized_blend_lists_are_clamped_to_the_allocation_cap() {
    let mut device = GraphicsDevice::new(256);
    let layouts = BindGroupLayouts::new(&mut device);
    let huge = ScreenSize { width: 8192, height: 8192 };
    let resources = GlobalContext::create_anti_aliasing_resources(
        &mut device,
        &layouts,
        ScreenSpaceAntiAliasing::Cmaa2,
        huge,
    );
    match resources {
        AntiAliasingResource::Cmaa2(resources) => {
            // 8192 * 8192 / 2 items of 8 bytes would exceed the cap.
            assert_eq!(resources.deferred_blend_item_list_buffer.capacity, MAX_BUFFER_SIZE);
            // The smaller estimates still fit and stay exact.
            assert_eq!(resources.shape_candidates_buffer.capacity, 8192 * 8192 / 4 * 4);
            assert_eq!(
                resources.deferred_blend_location_list_buffer.capacity,
                (8192 * 8192 + 3) / 6 * 4
            );
        }
        other => panic!("expected morphological resources, got {:?}", other),
    }
}

#[test]
fn zero_point_lights_skip_the_storage_write() {
    let mut device = GraphicsDevice::new(256);
    let layouts = BindGroupLayouts::new(&mut device);
    let mut context = new_context(
        &mut device,
        &layouts,
        1920,
        1080,
        Msaa::Off,
        ScreenSpaceAntiAliasing::Off,
        false,
    );

    context.prepare(&snapshot(Vec::new(), Vec::new(), RenderSettings::all_lights_visible()));
    assert_eq!(context.global_uniforms.point_light_count, 0);
    assert!(context.point_light_data.is_empty());

    let point_light_buffer_before = context.point_light_data_buffer;
    let rebuilt = context.upload(&mut device);

    assert!(!rebuilt);
    // The point-light buffer was not even written.
    assert_eq!(context.point_light_data_buffer, point_light_buffer_before);
    assert_eq!(context.point_light_data_buffer.count, 0);
}

#[test]
fn staged_lights_put_shadow_casters_first() {
    let mut device = GraphicsDevice::new(256);
    let layouts = BindGroupLayouts::new(&mut device);
    let mut context = new_context(
        &mut device,
        &layouts,
        1920,
        1080,
        Msaa::Off,
        ScreenSpaceAntiAliasing::Off,
        false,
    );

    context.prepare(&snapshot(
        vec![caster_light(100), caster_light(200)],
        vec![plain_light(300)],
        RenderSettings::all_lights_visible(),
    ));

    assert_eq!(context.global_uniforms.point_light_count, 3);
    assert_eq!(context.point_light_data.len(), 3);
    // Casters carry their cube slot counted from one.
    assert_eq!(context.point_light_data[0].texture_index, 1);
    assert_eq!(context.point_light_data[0].position_ref, 100);
    assert_eq!(context.point_light_data[1].texture_index, 2);
    assert_eq!(context.point_light_data[1].position_ref, 200);
    // Lights without shadows carry slot zero.
    assert_eq!(context.point_light_data[2].texture_index, 0);
    assert_eq!(context.point_light_data[2].position_ref, 300);
}

#[test]
fn debug_toggles_darken_disabled_lights() {
    let mut device = GraphicsDevice::new(256);
    let layouts = BindGroupLayouts::new(&mut device);

    let mut settings = RenderSettings::all_lights_visible();
    settings.show_ambient_light = false;

    // With the debug extension the toggle takes effect.
    let mut debug_context = new_context(
        &mut device,
        &layouts,
        1920,
        1080,
        Msaa::Off,
        ScreenSpaceAntiAliasing::Off,
        true,
    );
    debug_context.prepare(&snapshot(Vec::new(), Vec::new(), settings));
    assert_eq!(debug_context.global_uniforms.ambient_color, ColorSelection::Black);
    assert_eq!(
        debug_context.directional_light_uniforms.color,
        ColorSelection::Scene(8)
    );

    // Without it the scene colors pass through.
    let mut release_context = new_context(
        &mut device,
        &layouts,
        1920,
        1080,
        Msaa::Off,
        ScreenSpaceAntiAliasing::Off,
        false,
    );
    release_context.prepare(&snapshot(Vec::new(), Vec::new(), settings));
    assert_eq!(
        release_context.global_uniforms.ambient_color,
        ColorSelection::Scene(6)
    );
}

#[test]
fn debug_extension_stages_the_overlay_toggles() {
    let mut device = GraphicsDevice::new(256);
    let layouts = BindGroupLayouts::new(&mut device);
    let mut context = new_context(
        &mut device,
        &layouts,
        1920,
        1080,
        Msaa::Off,
        ScreenSpaceAntiAliasing::Off,
        true,
    );

    let mut settings = RenderSettings::all_lights_visible();
    settings.show_directional_shadow_map = true;
    settings.show_point_shadow_map = Some(2);
    context.prepare(&snapshot(Vec::new(), Vec::new(), settings));

    let debug = context.debug.as_ref().unwrap();
    assert!(debug.debug_uniforms.show_directional_shadow_map);
    assert_eq!(debug.debug_uniforms.show_point_shadow_map, 2);
    assert!(!debug.debug_uniforms.show_picker_buffer);
}

#[test]
fn composition_reads_the_resolve_target_only_under_multisampling() {
    let mut device = GraphicsDevice::new(256);
    let layouts = BindGroupLayouts::new(&mut device);
    let single_sampled = new_context(
        &mut device,
        &layouts,
        1280,
        720,
        Msaa::Off,
        ScreenSpaceAntiAliasing::Off,
        false,
    );
    assert_eq!(
        single_sampled.get_color_texture().id,
        single_sampled.forward_color_texture.id
    );

    let multisampled = new_context(
        &mut device,
        &layouts,
        1280,
        720,
        Msaa::X4,
        ScreenSpaceAntiAliasing::Off,
        false,
    );
    assert_eq!(
        multisampled.get_color_texture().id,
        multisampled.resolved_color_texture.unwrap().id
    );
}

#[test]
fn light_overflow_reallocates_and_rebuilds_bind_groups_once() {
    let mut device = GraphicsDevice::new(256);
    let layouts = BindGroupLayouts::new(&mut device);
    let mut context = new_context(
        &mut device,
        &layouts,
        1920,
        1080,
        Msaa::Off,
        ScreenSpaceAntiAliasing::Off,
        false,
    );
    assert_eq!(
        context.point_light_data_buffer.capacity,
        128 * POINT_LIGHT_DATA_SIZE
    );

    // 130 lights exceed the capacity the buffer was created with.
    let lights: Vec<PointLightInstruction> =
        (0..130).map(|i| plain_light(1000 + i * 10)).collect();
    context.prepare(&snapshot(Vec::new(), lights, RenderSettings::all_lights_visible()));

    let buffer_id_before = context.point_light_data_buffer.id;
    let global_before = context.global_bind_group.id;
    let light_culling_before = context.light_culling_bind_group.id;
    let forward_before = context.forward_bind_group.id;

    let rebuilt = context.upload(&mut device);

    assert!(rebuilt);
    assert_ne!(context.point_light_data_buffer.id, buffer_id_before);
    assert_eq!(context.point_light_data_buffer.capacity, 130 * POINT_LIGHT_DATA_SIZE);
    assert_eq!(context.point_light_data_buffer.count, 130);
    assert_ne!(context.global_bind_group.id, global_before);
    assert_ne!(context.light_culling_bind_group.id, light_culling_before);
    assert_ne!(context.forward_bind_group.id, forward_before);
    // The rebuilt groups reference the grown buffer.
    assert_eq!(
        context.light_culling_bind_group.entries[0],
        context.point_light_data_buffer.id
    );
    assert_eq!(
        context.forward_bind_group.entries[1],
        context.point_light_data_buffer.id
    );

    // A second frame with the same lights fits: no further rebuild.
    let global_after = context.global_bind_group.id;
    let rebuilt_again = context.upload(&mut device);
    assert!(!rebuilt_again);
    assert_eq!(context.global_bind_group.id, global_after);
}
