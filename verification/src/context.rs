//! The global context: owner of every GPU resource that render passes
//! share, and the single writer that resizes or replaces them.

use vstd::prelude::*;

use crate::buffer::{Buffer, BufferUsage};
use crate::device::{create_new_sampler, BindGroup, BindGroupLayouts, GraphicsDevice, Sampler};
use crate::device::MAX_IDS_PER_REBUILD;
use crate::instruction::{ColorSelection, IndicatorInstruction, PointLightInstruction,
    PointShadowCasterInstruction, RenderInstruction};
use crate::screen::{calculate_light_tile_count, ceil_div, ScreenPosition, ScreenSize};
use crate::settings::{Msaa, ScreenSpaceAntiAliasing, ShadowDetail, TextureSamplerType};
use crate::texture::{AttachmentTexture, AttachmentTextureFactory, AttachmentTextureType,
    CubeArrayTexture, StorageTexture, TextureFormat};

verus! {

/// Number of point-light slots that can render shadow cubes, fixed at
/// compile time; the cube-array texture holds one face set per slot.
pub const NUMBER_OF_POINT_LIGHTS_WITH_SHADOWS: u32 = 6;

/// Hard cap, in bytes, on any single buffer allocation.  Worst-case
/// size estimates that exceed it are clamped, not rejected.
pub const MAX_BUFFER_SIZE: u64 = 128 * 1024 * 1024;

/// Byte sizes of the GPU-side uniform and storage records.  The
/// global record holds five matrices, two colors, the screen size and
/// pointer position, three timers and scalars, and the light count.
pub const GLOBAL_UNIFORMS_SIZE: u64 = 384;

pub const DIRECTIONAL_LIGHT_UNIFORMS_SIZE: u64 = 96;

pub const POINT_LIGHT_DATA_SIZE: u64 = 48;

pub const DEBUG_UNIFORMS_SIZE: u64 = 20;

/// One per-tile light index list: 256 `u32` slots.
pub const TILE_LIGHT_INDICES_SIZE: u64 = 1024;

pub const PICKER_VALUE_SIZE: u64 = 8;

pub const DISPATCH_INDIRECT_ARGS_SIZE: u64 = 12;

/// Initial element capacity of the point-light storage buffer.
pub const INITIAL_POINT_LIGHT_CAPACITY: u64 = 128;

/// Rows of picker attachments are padded so that one row can be copied
/// into a read-back buffer: the row pitch must be a multiple of this
/// many bytes.
pub const COPY_BYTES_PER_ROW_ALIGNMENT: u32 = 256;

/// Bytes of one picker texel (two 32-bit channels).
pub const PICKER_BLOCK_SIZE: u32 = 8;

/// The global uniform record staged once per frame.  Matrix, timer and
/// color payloads stay opaque handles; the integer fields are the ones
/// the bookkeeping computes itself.
#[derive(Clone, Copy, PartialEq, Eq, Structural, Debug)]
pub struct GlobalUniforms {
    pub view_matrix_ref: u64,
    pub projection_matrix_ref: u64,
    pub indicator: Option<IndicatorInstruction>,
    pub ambient_color: ColorSelection,
    pub screen_size: ScreenSize,
    pub pointer_position: ScreenPosition,
    pub animation_timer_ref: u64,
    pub day_timer_ref: u64,
    pub water_level_ref: u64,
    pub point_light_count: u32,
}

impl Default for GlobalUniforms {
    fn default() -> (result: GlobalUniforms)
        ensures
            result == GlobalUniforms::spec_default(),
    {
        GlobalUniforms {
            view_matrix_ref: 0,
            projection_matrix_ref: 0,
            indicator: None,
            ambient_color: ColorSelection::Black,
            screen_size: ScreenSize { width: 1, height: 1 },
            pointer_position: ScreenPosition { left: 0, top: 0 },
            animation_timer_ref: 0,
            day_timer_ref: 0,
            water_level_ref: 0,
            point_light_count: 0,
        }
    }
}

impl GlobalUniforms {
    pub open spec fn spec_default() -> GlobalUniforms {
        GlobalUniforms {
            view_matrix_ref: 0,
            projection_matrix_ref: 0,
            indicator: None,
            ambient_color: ColorSelection::Black,
            screen_size: ScreenSize { width: 1, height: 1 },
            pointer_position: ScreenPosition { left: 0, top: 0 },
            animation_timer_ref: 0,
            day_timer_ref: 0,
            water_level_ref: 0,
            point_light_count: 0,
        }
    }
}

/// The directional-light uniform record.
#[derive(Clone, Copy, PartialEq, Eq, Structural, Debug)]
pub struct DirectionalLightUniforms {
    pub view_projection_matrix_ref: u64,
    pub color: ColorSelection,
    pub direction_ref: u64,
}

impl Default for DirectionalLightUniforms {
    fn default() -> (result: DirectionalLightUniforms)
        ensures
            result == DirectionalLightUniforms::spec_default(),
    {
        DirectionalLightUniforms {
            view_projection_matrix_ref: 0,
            color: ColorSelection::Black,
            direction_ref: 0,
        }
    }
}

impl DirectionalLightUniforms {
    pub open spec fn spec_default() -> DirectionalLightUniforms {
        DirectionalLightUniforms {
            view_projection_matrix_ref: 0,
            color: ColorSelection::Black,
            direction_ref: 0,
        }
    }
}

/// One element of the point-light storage buffer.  `texture_index` is 0
/// for lights without shadows; a shadow-casting light in slot `i` of
/// the cube array carries `i + 1`.
#[derive(Clone, Copy, PartialEq, Eq, Structural, Debug)]
pub struct PointLightData {
    pub position_ref: u64,
    pub color_ref: u64,
    pub range_ref: u64,
    pub texture_index: u32,
}

/// The debug uniform record: which intermediate buffers the overlay
/// shows.  `show_point_shadow_map` is the inspected slot counted from
/// 1, or 0 for none, matching the shader-side encoding.
#[derive(Clone, Copy, PartialEq, Eq, Structural, Debug)]
pub struct DebugUniforms {
    pub show_picker_buffer: bool,
    pub show_directional_shadow_map: bool,
    pub show_point_shadow_map: u32,
    pub show_light_culling_count_buffer: bool,
    pub show_font_atlas: bool,
}

impl Default for DebugUniforms {
    fn default() -> (result: DebugUniforms)
        ensures
            result == DebugUniforms::spec_default(),
    {
        DebugUniforms {
            show_picker_buffer: false,
            show_directional_shadow_map: false,
            show_point_shadow_map: 0,
            show_light_culling_count_buffer: false,
            show_font_atlas: false,
        }
    }
}

impl DebugUniforms {
    pub open spec fn spec_default() -> DebugUniforms {
        DebugUniforms {
            show_picker_buffer: false,
            show_directional_shadow_map: false,
            show_point_shadow_map: 0,
            show_light_culling_count_buffer: false,
            show_font_atlas: false,
        }
    }
}

/// Resources of the fast approximate anti-aliasing pass.
#[derive(Clone, Copy, PartialEq, Eq, Structural, Debug)]
pub struct FxaaResources {
    pub color_with_luma_texture: AttachmentTexture,
}

/// Resources of the conservative morphological anti-aliasing pipeline.
#[derive(Clone, Debug)]
pub struct Cmaa2Resources {
    /// Edge classification, at half the horizontal resolution.
    pub edges_texture: StorageTexture,
    /// Three atomic counters: shape candidates, blend locations and
    /// deferred blend items, plus one padding slot.
    pub control_buffer: Buffer,
    pub shape_candidates_buffer: Buffer,
    /// Dispatch arguments written by one compute stage and consumed
    /// indirectly by the next.
    pub indirect_buffer: Buffer,
    pub deferred_blend_item_list_heads_buffer: Buffer,
    pub deferred_blend_item_list_buffer: Buffer,
    pub deferred_blend_location_list_buffer: Buffer,
    pub bind_group: BindGroup,
}

/// The per-mode anti-aliasing resource set; constructed and torn down
/// exactly when the anti-aliasing setting changes.
#[derive(Clone, Debug)]
pub enum AntiAliasingResource {
    Off,
    Fxaa(FxaaResources),
    Cmaa2(Cmaa2Resources),
}

/// The debug extension: present when the renderer was created with the
/// debug overlay, absent otherwise, so that release and debug share one
/// code path.
#[derive(Clone, Debug)]
pub struct DebugExtension {
    pub debug_uniforms_buffer: Buffer,
    pub debug_bind_group: BindGroup,
    pub debug_uniforms: DebugUniforms,
}

/// The textures that depend on the screen size and are torn down and
/// recreated together whenever it changes.
pub struct ScreenSizeTextures {
    pub forward_color_texture: AttachmentTexture,
    pub forward_depth_texture: AttachmentTexture,
    pub picker_buffer_texture: AttachmentTexture,
    pub picker_depth_texture: AttachmentTexture,
    pub interface_buffer_texture: AttachmentTexture,
    pub tile_light_count_texture: StorageTexture,
}

// Sizing rules, stated once and shared by the constructors and the
// well-formedness predicate.

/// Picker attachments pad their width so that a row of
/// `PICKER_BLOCK_SIZE`-byte texels meets the row-copy alignment: the
/// row is rounded up to a whole number of 256-byte units, then
/// measured back in texels (256 bytes are 32 texels).
pub open spec fn spec_picker_padded_width(width: u32) -> int {
    ceil_div(width * PICKER_BLOCK_SIZE, COPY_BYTES_PER_ROW_ALIGNMENT as int) * (
    COPY_BYTES_PER_ROW_ALIGNMENT / PICKER_BLOCK_SIZE) as int
}

/// Number of light-culling tiles of a screen along x.
pub open spec fn spec_tile_count_x(screen_size: ScreenSize) -> int {
    ceil_div(screen_size.width as int, 16)
}

/// Number of light-culling tiles of a screen along y.
pub open spec fn spec_tile_count_y(screen_size: ScreenSize) -> int {
    ceil_div(screen_size.height as int, 16)
}

/// Byte capacity of the tile light index buffer: one
/// `TILE_LIGHT_INDICES_SIZE` record per tile, and at least one record.
pub open spec fn spec_tile_light_indices_capacity(screen_size: ScreenSize) -> int {
    let tiles = spec_tile_count_x(screen_size) * spec_tile_count_y(screen_size);
    (if tiles >= 1 {
        tiles
    } else {
        1
    }) * TILE_LIGHT_INDICES_SIZE
}

/// Worst-case estimates of the morphological anti-aliasing lists,
/// proportional to the screen area and clamped to `MAX_BUFFER_SIZE`.
pub open spec fn spec_clamped_capacity(elements: int, element_size: int) -> int {
    let bytes = (if elements >= 1 {
        elements
    } else {
        1
    }) * element_size;
    if bytes <= MAX_BUFFER_SIZE {
        bytes
    } else {
        MAX_BUFFER_SIZE as int
    }
}

pub open spec fn spec_cmaa2_shape_candidates(screen_size: ScreenSize) -> int {
    screen_size.width * screen_size.height / 4
}

pub open spec fn spec_cmaa2_blend_item_heads(screen_size: ScreenSize) -> int {
    ((screen_size.width + 1) / 2) * ((screen_size.height + 1) / 2)
}

pub open spec fn spec_cmaa2_blend_items(screen_size: ScreenSize) -> int {
    screen_size.width * screen_size.height / 2
}

pub open spec fn spec_cmaa2_blend_locations(screen_size: ScreenSize) -> int {
    (screen_size.width * screen_size.height + 3) / 6
}

/// The forward color target doubles as a compute storage image exactly
/// when the morphological pass will read it in place: single-sampled
/// rendering with that mode selected.
pub open spec fn spec_forward_texture_type(
    msaa: Msaa,
    screen_space_anti_aliasing: ScreenSpaceAntiAliasing,
) -> AttachmentTextureType {
    if !msaa.spec_multisampling_activated() && screen_space_anti_aliasing
        == ScreenSpaceAntiAliasing::Cmaa2 {
        AttachmentTextureType::ColorStorageAttachment
    } else {
        AttachmentTextureType::ColorAttachment
    }
}

/// The resolve target exists exactly when multisampling is active, and
/// doubles as a storage image when the morphological pass reads it.
pub open spec fn spec_resolved_texture_type(
    screen_space_anti_aliasing: ScreenSpaceAntiAliasing,
) -> AttachmentTextureType {
    if screen_space_anti_aliasing == ScreenSpaceAntiAliasing::Cmaa2 {
        AttachmentTextureType::ColorStorageAttachment
    } else {
        AttachmentTextureType::ColorAttachment
    }
}

// The per-resource shape predicates: what each shared resource must
// look like for a given screen size and settings.  The constructors
// establish them and `GlobalContext::well_formed` is their conjunction.

pub open spec fn picker_buffer_texture_ok(t: AttachmentTexture, screen_size: ScreenSize) -> bool {
    &&& t.width == spec_picker_padded_width(screen_size.width)
    &&& t.height == screen_size.height
    &&& t.sample_count == 1
    &&& t.format == TextureFormat::Rg32Uint
    &&& t.texture_type == AttachmentTextureType::PickerAttachment
}

pub open spec fn picker_depth_texture_ok(t: AttachmentTexture, screen_size: ScreenSize) -> bool {
    &&& t.width == spec_picker_padded_width(screen_size.width)
    &&& t.height == screen_size.height
    &&& t.sample_count == 1
    &&& t.format == TextureFormat::Depth32Float
    &&& t.texture_type == AttachmentTextureType::Depth
}

pub open spec fn forward_color_texture_ok(
    t: AttachmentTexture,
    screen_size: ScreenSize,
    msaa: Msaa,
    screen_space_anti_aliasing: ScreenSpaceAntiAliasing,
) -> bool {
    &&& t.width == screen_size.width
    &&& t.height == screen_size.height
    &&& t.sample_count == msaa.spec_sample_count()
    &&& t.format == TextureFormat::Rgba16Float
    &&& t.texture_type == spec_forward_texture_type(msaa, screen_space_anti_aliasing)
}

pub open spec fn forward_depth_texture_ok(
    t: AttachmentTexture,
    screen_size: ScreenSize,
    msaa: Msaa,
) -> bool {
    &&& t.width == screen_size.width
    &&& t.height == screen_size.height
    &&& t.sample_count == msaa.spec_sample_count()
    &&& t.format == TextureFormat::Depth32Float
    &&& t.texture_type == AttachmentTextureType::Depth
}

pub open spec fn interface_buffer_texture_ok(
    t: AttachmentTexture,
    screen_size: ScreenSize,
) -> bool {
    &&& t.width == screen_size.width
    &&& t.height == screen_size.height
    &&& t.sample_count == 4
    &&& t.format == TextureFormat::Rgba8UnormSrgb
    &&& t.texture_type == AttachmentTextureType::ColorAttachment
}

pub open spec fn tile_light_count_texture_ok(t: StorageTexture, screen_size: ScreenSize) -> bool {
    &&& t.width == spec_tile_count_x(screen_size)
    &&& t.height == spec_tile_count_y(screen_size)
    &&& t.format == TextureFormat::R32Uint
}

pub open spec fn resolved_color_texture_ok(
    t: Option<AttachmentTexture>,
    screen_size: ScreenSize,
    msaa: Msaa,
    screen_space_anti_aliasing: ScreenSpaceAntiAliasing,
) -> bool {
    match t {
        Some(texture) => {
            &&& msaa.spec_multisampling_activated()
            &&& texture.width == screen_size.width
            &&& texture.height == screen_size.height
            &&& texture.sample_count == 1
            &&& texture.format == TextureFormat::Rgba16Float
            &&& texture.texture_type == spec_resolved_texture_type(screen_space_anti_aliasing)
        },
        None => !msaa.spec_multisampling_activated(),
    }
}

pub open spec fn directional_shadow_texture_ok(t: AttachmentTexture, size: ScreenSize) -> bool {
    &&& t.width == size.width
    &&& t.height == size.height
    &&& t.sample_count == 1
    &&& t.format == TextureFormat::Depth32Float
    &&& t.texture_type == AttachmentTextureType::DepthAttachment
}

pub open spec fn point_shadow_textures_ok(t: CubeArrayTexture, size: ScreenSize) -> bool {
    &&& t.face_size == size.width
    &&& size.height == size.width
    &&& t.format == TextureFormat::Depth32Float
    &&& t.texture_type == AttachmentTextureType::DepthAttachment
    &&& t.count == NUMBER_OF_POINT_LIGHTS_WITH_SHADOWS
}

pub open spec fn global_uniforms_buffer_ok(b: Buffer) -> bool {
    &&& b.element_size == GLOBAL_UNIFORMS_SIZE
    &&& b.capacity >= GLOBAL_UNIFORMS_SIZE
    &&& b.usage == (BufferUsage {
        copy_dst: true,
        map_read: false,
        uniform: true,
        storage: false,
        indirect: false,
        vertex: false,
    })
}

pub open spec fn directional_light_uniforms_buffer_ok(b: Buffer) -> bool {
    &&& b.element_size == DIRECTIONAL_LIGHT_UNIFORMS_SIZE
    &&& b.capacity >= DIRECTIONAL_LIGHT_UNIFORMS_SIZE
    &&& b.usage == (BufferUsage {
        copy_dst: true,
        map_read: false,
        uniform: true,
        storage: false,
        indirect: false,
        vertex: false,
    })
}

pub open spec fn point_light_data_buffer_ok(b: Buffer) -> bool {
    &&& b.element_size == POINT_LIGHT_DATA_SIZE
    &&& b.capacity >= POINT_LIGHT_DATA_SIZE * INITIAL_POINT_LIGHT_CAPACITY
    &&& b.usage == (BufferUsage {
        copy_dst: true,
        map_read: false,
        uniform: false,
        storage: true,
        indirect: false,
        vertex: false,
    })
}

pub open spec fn debug_uniforms_buffer_ok(b: Buffer) -> bool {
    &&& b.element_size == DEBUG_UNIFORMS_SIZE
    &&& b.capacity >= DEBUG_UNIFORMS_SIZE
    &&& b.usage == (BufferUsage {
        copy_dst: true,
        map_read: false,
        uniform: true,
        storage: false,
        indirect: false,
        vertex: false,
    })
}

pub open spec fn picker_value_buffer_ok(b: Buffer) -> bool {
    &&& b.element_size == PICKER_VALUE_SIZE
    &&& b.capacity >= PICKER_VALUE_SIZE
    &&& b.usage == (BufferUsage {
        copy_dst: true,
        map_read: true,
        uniform: false,
        storage: false,
        indirect: false,
        vertex: false,
    })
}

pub open spec fn tile_light_indices_buffer_ok(b: Buffer, screen_size: ScreenSize) -> bool {
    &&& b.element_size == TILE_LIGHT_INDICES_SIZE
    &&& b.capacity == spec_tile_light_indices_capacity(screen_size)
    &&& b.usage == (BufferUsage {
        copy_dst: false,
        map_read: false,
        uniform: false,
        storage: true,
        indirect: false,
        vertex: false,
    })
}

pub open spec fn global_bind_group_ok(
    bg: BindGroup,
    layouts: BindGroupLayouts,
    global_uniforms_buffer: Buffer,
    nearest_sampler: Sampler,
    linear_sampler: Sampler,
    texture_sampler: Sampler,
) -> bool {
    &&& bg.layout_id == layouts.global.id
    &&& bg.entries@ == seq![
        global_uniforms_buffer.id,
        nearest_sampler.id,
        linear_sampler.id,
        texture_sampler.id,
    ]
}

pub open spec fn light_culling_bind_group_ok(
    bg: BindGroup,
    layouts: BindGroupLayouts,
    point_light_data_buffer: Buffer,
    tile_light_count_texture: StorageTexture,
    tile_light_indices_buffer: Buffer,
) -> bool {
    &&& bg.layout_id == layouts.light_culling.id
    &&& bg.entries@ == seq![
        point_light_data_buffer.id,
        tile_light_count_texture.id,
        tile_light_indices_buffer.id,
    ]
}

pub open spec fn forward_bind_group_ok(
    bg: BindGroup,
    layouts: BindGroupLayouts,
    directional_light_uniforms_buffer: Buffer,
    point_light_data_buffer: Buffer,
    tile_light_count_texture: StorageTexture,
    tile_light_indices_buffer: Buffer,
    directional_shadow_map_texture: AttachmentTexture,
    point_shadow_map_textures: CubeArrayTexture,
) -> bool {
    &&& bg.layout_id == layouts.forward.id
    &&& bg.entries@ == seq![
        directional_light_uniforms_buffer.id,
        point_light_data_buffer.id,
        tile_light_count_texture.id,
        tile_light_indices_buffer.id,
        directional_shadow_map_texture.id,
        point_shadow_map_textures.id,
    ]
}

pub open spec fn debug_bind_group_ok(
    bg: BindGroup,
    layouts: BindGroupLayouts,
    debug_uniforms_buffer: Buffer,
    picker_buffer_texture: AttachmentTexture,
    directional_shadow_map_texture: AttachmentTexture,
    tile_light_count_texture: StorageTexture,
    point_shadow_map_textures: CubeArrayTexture,
) -> bool {
    &&& bg.layout_id == layouts.debug.id
    &&& bg.entries@ == seq![
        debug_uniforms_buffer.id,
        picker_buffer_texture.id,
        directional_shadow_map_texture.id,
        tile_light_count_texture.id,
        point_shadow_map_textures.id,
    ]
}

pub open spec fn cmaa2_resources_ok(
    c: Cmaa2Resources,
    layouts: BindGroupLayouts,
    screen_size: ScreenSize,
) -> bool {
    &&& c.edges_texture.width == (screen_size.width + 1) / 2
    &&& c.edges_texture.height == screen_size.height
    &&& c.edges_texture.format == TextureFormat::R8Uint
    &&& c.control_buffer.element_size == 4
    &&& c.control_buffer.capacity == 16
    &&& c.control_buffer.usage.storage
    &&& c.shape_candidates_buffer.element_size == 4
    &&& c.shape_candidates_buffer.capacity == spec_clamped_capacity(
        spec_cmaa2_shape_candidates(screen_size),
        4,
    )
    &&& c.shape_candidates_buffer.usage.storage
    &&& c.indirect_buffer.element_size == DISPATCH_INDIRECT_ARGS_SIZE
    &&& c.indirect_buffer.capacity == DISPATCH_INDIRECT_ARGS_SIZE
    &&& c.indirect_buffer.usage.storage
    &&& c.indirect_buffer.usage.indirect
    &&& c.deferred_blend_item_list_heads_buffer.element_size == 4
    &&& c.deferred_blend_item_list_heads_buffer.capacity == spec_clamped_capacity(
        spec_cmaa2_blend_item_heads(screen_size),
        4,
    )
    &&& c.deferred_blend_item_list_heads_buffer.usage.storage
    &&& c.deferred_blend_item_list_buffer.element_size == 8
    &&& c.deferred_blend_item_list_buffer.capacity == spec_clamped_capacity(
        spec_cmaa2_blend_items(screen_size),
        8,
    )
    &&& c.deferred_blend_item_list_buffer.usage.storage
    &&& c.deferred_blend_location_list_buffer.element_size == 4
    &&& c.deferred_blend_location_list_buffer.capacity == spec_clamped_capacity(
        spec_cmaa2_blend_locations(screen_size),
        4,
    )
    &&& c.deferred_blend_location_list_buffer.usage.storage
    &&& c.bind_group.layout_id == layouts.cmaa2.id
    &&& c.bind_group.entries@ == seq![
        c.edges_texture.id,
        c.control_buffer.id,
        c.shape_candidates_buffer.id,
        c.indirect_buffer.id,
        c.deferred_blend_item_list_heads_buffer.id,
        c.deferred_blend_item_list_buffer.id,
        c.deferred_blend_location_list_buffer.id,
    ]
}

pub open spec fn anti_aliasing_resources_ok(
    aa: AntiAliasingResource,
    screen_space_anti_aliasing: ScreenSpaceAntiAliasing,
    layouts: BindGroupLayouts,
    screen_size: ScreenSize,
) -> bool {
    match aa {
        AntiAliasingResource::Off => screen_space_anti_aliasing == ScreenSpaceAntiAliasing::Off,
        AntiAliasingResource::Fxaa(f) => {
            &&& screen_space_anti_aliasing == ScreenSpaceAntiAliasing::Fxaa
            &&& f.color_with_luma_texture.width == screen_size.width
            &&& f.color_with_luma_texture.height == screen_size.height
            &&& f.color_with_luma_texture.sample_count == 1
            &&& f.color_with_luma_texture.format == TextureFormat::Rgba8UnormSrgb
            &&& f.color_with_luma_texture.texture_type == AttachmentTextureType::ColorAttachment
        },
        AntiAliasingResource::Cmaa2(c) => {
            &&& screen_space_anti_aliasing == ScreenSpaceAntiAliasing::Cmaa2
            &&& cmaa2_resources_ok(c, layouts, screen_size)
        },
    }
}

/// Owner of every GPU resource shared by the render passes.  All
/// mutation of shared resources goes through its methods; pass contexts
/// only ever borrow.
pub struct GlobalContext {
    pub surface_texture_format: TextureFormat,
    pub msaa: Msaa,
    pub screen_space_anti_aliasing: ScreenSpaceAntiAliasing,
    /// The shared one-pixel white texture, by asset handle.
    pub solid_pixel_texture_ref: u64,
    /// The walk-indicator texture supplied by the asset loader.
    pub walk_indicator_texture_ref: u64,
    pub forward_depth_texture: AttachmentTexture,
    pub picker_buffer_texture: AttachmentTexture,
    pub picker_depth_texture: AttachmentTexture,
    pub forward_color_texture: AttachmentTexture,
    pub resolved_color_texture: Option<AttachmentTexture>,
    pub interface_buffer_texture: AttachmentTexture,
    pub directional_shadow_map_texture: AttachmentTexture,
    pub point_shadow_map_textures: CubeArrayTexture,
    pub tile_light_count_texture: StorageTexture,
    pub global_uniforms_buffer: Buffer,
    pub directional_light_uniforms_buffer: Buffer,
    pub point_light_data_buffer: Buffer,
    pub picker_value_buffer: Buffer,
    pub tile_light_indices_buffer: Buffer,
    pub anti_aliasing_resources: AntiAliasingResource,
    pub nearest_sampler: Sampler,
    pub linear_sampler: Sampler,
    pub texture_sampler: Sampler,
    /// The process-wide layouts, created once and reused by every
    /// rebuild.
    pub layouts: BindGroupLayouts,
    pub global_bind_group: BindGroup,
    pub light_culling_bind_group: BindGroup,
    pub forward_bind_group: BindGroup,
    /// Debug overlay resources, present only when the context was
    /// created with the overlay enabled.
    pub debug: Option<DebugExtension>,
    pub screen_size: ScreenSize,
    pub directional_shadow_size: ScreenSize,
    pub point_shadow_size: ScreenSize,
    /// CPU staging area of the per-frame uniform records.
    pub global_uniforms: GlobalUniforms,
    pub directional_light_uniforms: DirectionalLightUniforms,
    pub point_light_data: Vec<PointLightData>,
}

impl GlobalContext {
    /// The consistency invariant of the shared resources: sizes follow
    /// the screen and shadow sizes, buffer shapes are fixed, and every
    /// bind group references exactly the current resources.  Methods
    /// that replace a resource must rebuild the bind groups that
    /// mention it, and only those, to restore this predicate.
    pub open spec fn well_formed(self) -> bool {
        &&& self.screen_size.valid()
        &&& self.directional_shadow_size.valid()
        &&& self.directional_shadow_size.width == self.directional_shadow_size.height
        &&& self.point_shadow_size.valid()
        &&& self.point_shadow_size.width == self.point_shadow_size.height
        &&& self.layouts.well_formed()
        &&& picker_buffer_texture_ok(self.picker_buffer_texture, self.screen_size)
        &&& picker_depth_texture_ok(self.picker_depth_texture, self.screen_size)
        &&& forward_color_texture_ok(
            self.forward_color_texture,
            self.screen_size,
            self.msaa,
            self.screen_space_anti_aliasing,
        )
        &&& forward_depth_texture_ok(self.forward_depth_texture, self.screen_size, self.msaa)
        &&& interface_buffer_texture_ok(self.interface_buffer_texture, self.screen_size)
        &&& tile_light_count_texture_ok(self.tile_light_count_texture, self.screen_size)
        &&& resolved_color_texture_ok(
            self.resolved_color_texture,
            self.screen_size,
            self.msaa,
            self.screen_space_anti_aliasing,
        )
        &&& directional_shadow_texture_ok(
            self.directional_shadow_map_texture,
            self.directional_shadow_size,
        )
        &&& point_shadow_textures_ok(self.point_shadow_map_textures, self.point_shadow_size)
        &&& global_uniforms_buffer_ok(self.global_uniforms_buffer)
        &&& directional_light_uniforms_buffer_ok(self.directional_light_uniforms_buffer)
        &&& point_light_data_buffer_ok(self.point_light_data_buffer)
        &&& picker_value_buffer_ok(self.picker_value_buffer)
        &&& tile_light_indices_buffer_ok(self.tile_light_indices_buffer, self.screen_size)
        &&& anti_aliasing_resources_ok(
            self.anti_aliasing_resources,
            self.screen_space_anti_aliasing,
            self.layouts,
            self.screen_size,
        )
        &&& global_bind_group_ok(
            self.global_bind_group,
            self.layouts,
            self.global_uniforms_buffer,
            self.nearest_sampler,
            self.linear_sampler,
            self.texture_sampler,
        )
        &&& light_culling_bind_group_ok(
            self.light_culling_bind_group,
            self.layouts,
            self.point_light_data_buffer,
            self.tile_light_count_texture,
            self.tile_light_indices_buffer,
        )
        &&& forward_bind_group_ok(
            self.forward_bind_group,
            self.layouts,
            self.directional_light_uniforms_buffer,
            self.point_light_data_buffer,
            self.tile_light_count_texture,
            self.tile_light_indices_buffer,
            self.directional_shadow_map_texture,
            self.point_shadow_map_textures,
        )
        &&& match self.debug {
            Some(debug) => {
                &&& debug_uniforms_buffer_ok(debug.debug_uniforms_buffer)
                &&& debug_bind_group_ok(
                    debug.debug_bind_group,
                    self.layouts,
                    debug.debug_uniforms_buffer,
                    self.picker_buffer_texture,
                    self.directional_shadow_map_texture,
                    self.tile_light_count_texture,
                    self.point_shadow_map_textures,
                )
            },
            None => true,
        }
        &&& self.point_light_data.len() <= u32::MAX as int
    }
}

/// Width, in texels, of the picker attachments: the screen width
/// padded so that one row meets the row-copy alignment.
pub fn picker_padded_width(width: u32) -> (result: u32)
    requires
        1 <= width <= crate::screen::MAX_SCREEN_DIMENSION,
    ensures
        result == spec_picker_padded_width(width),
        result >= width,
        result < width + 32,
        (result * PICKER_BLOCK_SIZE) as int % COPY_BYTES_PER_ROW_ALIGNMENT as int == 0,
{
    let row_units = (width * PICKER_BLOCK_SIZE + (COPY_BYTES_PER_ROW_ALIGNMENT - 1))
        / COPY_BYTES_PER_ROW_ALIGNMENT;
    proof {
        crate::screen::lemma_align_up_properties(
            (width * PICKER_BLOCK_SIZE) as int,
            COPY_BYTES_PER_ROW_ALIGNMENT as int,
        );
        vstd::arithmetic::div_mod::lemma_div_is_ordered(
            width * PICKER_BLOCK_SIZE + 255,
            (65536 * 8 + 255) as int,
            256,
        );
        assert(row_units == ceil_div(width * PICKER_BLOCK_SIZE, 256));
        assert(row_units <= 2048);
        assert(row_units * 32 >= width) by {
            assert(row_units * 256 >= width * 8);
        };
        assert(row_units * 32 < width + 32) by {
            assert(row_units * 256 < width * 8 + 256);
        };
        assert((row_units * 32) * 8 % 256 == 0) by {
            vstd::arithmetic::div_mod::lemma_mod_multiples_basic(row_units as int, 256);
            assert((row_units * 32) * 8 == row_units * 256);
        };
    }
    row_units * (COPY_BYTES_PER_ROW_ALIGNMENT / PICKER_BLOCK_SIZE)
}

impl GlobalContext {
    /// Creates the six textures that share the screen size.
    pub fn create_screen_size_textures(
        device: &mut GraphicsDevice,
        screen_size: ScreenSize,
        msaa: Msaa,
        screen_space_anti_aliasing: ScreenSpaceAntiAliasing,
    ) -> (result: ScreenSizeTextures)
        requires
            screen_size.valid(),
            old(device).next_id <= u64::MAX - 8,
        ensures
            picker_buffer_texture_ok(result.picker_buffer_texture, screen_size),
            picker_depth_texture_ok(result.picker_depth_texture, screen_size),
            forward_color_texture_ok(
                result.forward_color_texture,
                screen_size,
                msaa,
                screen_space_anti_aliasing,
            ),
            forward_depth_texture_ok(result.forward_depth_texture, screen_size, msaa),
            interface_buffer_texture_ok(result.interface_buffer_texture, screen_size),
            tile_light_count_texture_ok(result.tile_light_count_texture, screen_size),
            old(device).next_id <= final(device).next_id,
            final(device).next_id <= old(device).next_id + 8,
            final(device).same_limits(*old(device)),
    {
        let picker_width = picker_padded_width(screen_size.width);
        let picker_factory = AttachmentTextureFactory::new(screen_size, 1, Some(picker_width));
        let picker_buffer_texture = picker_factory.new_attachment(
            device,
            TextureFormat::Rg32Uint,
            AttachmentTextureType::PickerAttachment,
        );
        let picker_depth_texture = picker_factory.new_attachment(
            device,
            TextureFormat::Depth32Float,
            AttachmentTextureType::Depth,
        );

        let (forward_color_texture, forward_depth_texture) = Self::create_forward_texture(
            device,
            screen_size,
            msaa,
            screen_space_anti_aliasing,
        );

        let interface_factory = AttachmentTextureFactory::new(screen_size, 4, None);
        let interface_buffer_texture = interface_factory.new_attachment(
            device,
            TextureFormat::Rgba8UnormSrgb,
            AttachmentTextureType::ColorAttachment,
        );

        let (tile_count_x, tile_count_y) = calculate_light_tile_count(screen_size);
        let tile_light_count_texture = StorageTexture::new(
            device,
            tile_count_x,
            tile_count_y,
            TextureFormat::R32Uint,
        );

        ScreenSizeTextures {
            forward_color_texture,
            forward_depth_texture,
            picker_buffer_texture,
            picker_depth_texture,
            interface_buffer_texture,
            tile_light_count_texture,
        }
    }

    /// Creates the forward color and depth pair, multisampled per the
    /// current setting.
    pub fn create_forward_texture(
        device: &mut GraphicsDevice,
        screen_size: ScreenSize,
        msaa: Msaa,
        screen_space_anti_aliasing: ScreenSpaceAntiAliasing,
    ) -> (result: (AttachmentTexture, AttachmentTexture))
        requires
            screen_size.valid(),
            old(device).next_id <= u64::MAX - 4,
        ensures
            forward_color_texture_ok(result.0, screen_size, msaa, screen_space_anti_aliasing),
            forward_depth_texture_ok(result.1, screen_size, msaa),
            old(device).next_id <= final(device).next_id,
            final(device).next_id <= old(device).next_id + 4,
            final(device).same_limits(*old(device)),
    {
        let texture_type = if !msaa.multisampling_activated() && screen_space_anti_aliasing
            == ScreenSpaceAntiAliasing::Cmaa2 {
            AttachmentTextureType::ColorStorageAttachment
        } else {
            AttachmentTextureType::ColorAttachment
        };

        let factory = AttachmentTextureFactory::new(screen_size, msaa.sample_count(), None);
        let color_texture = factory.new_attachment(device, TextureFormat::Rgba16Float, texture_type);
        let depth_texture = factory.new_attachment(
            device,
            TextureFormat::Depth32Float,
            AttachmentTextureType::Depth,
        );
        (color_texture, depth_texture)
    }

    /// Creates the single-sampled resolve target, needed exactly when
    /// multisampling is active.
    pub fn create_resolved_color_texture(
        device: &mut GraphicsDevice,
        screen_size: ScreenSize,
        msaa: Msaa,
        screen_space_anti_aliasing: ScreenSpaceAntiAliasing,
    ) -> (result: Option<AttachmentTexture>)
        requires
            screen_size.valid(),
            old(device).next_id <= u64::MAX - 2,
        ensures
            resolved_color_texture_ok(result, screen_size, msaa, screen_space_anti_aliasing),
            old(device).next_id <= final(device).next_id,
            final(device).next_id <= old(device).next_id + 2,
            final(device).same_limits(*old(device)),
    {
        let attachment_type = if screen_space_anti_aliasing == ScreenSpaceAntiAliasing::Cmaa2 {
            AttachmentTextureType::ColorStorageAttachment
        } else {
            AttachmentTextureType::ColorAttachment
        };

        if msaa.multisampling_activated() {
            let factory = AttachmentTextureFactory::new(screen_size, 1, None);
            Some(factory.new_attachment(device, TextureFormat::Rgba16Float, attachment_type))
        } else {
            None
        }
    }

    /// Creates the directional shadow map at the configured resolution.
    pub fn create_directional_shadow_texture(
        device: &mut GraphicsDevice,
        shadow_size: ScreenSize,
    ) -> (result: AttachmentTexture)
        requires
            shadow_size.valid(),
            old(device).next_id <= u64::MAX - 2,
        ensures
            directional_shadow_texture_ok(result, shadow_size),
            old(device).next_id <= final(device).next_id,
            final(device).next_id <= old(device).next_id + 2,
            final(device).same_limits(*old(device)),
    {
        let factory = AttachmentTextureFactory::new(shadow_size, 1, None);
        factory.new_attachment(
            device,
            TextureFormat::Depth32Float,
            AttachmentTextureType::DepthAttachment,
        )
    }

    /// Creates the cube array holding one shadow face set per
    /// shadow-casting point-light slot.
    pub fn create_point_shadow_textures(
        device: &mut GraphicsDevice,
        shadow_size: ScreenSize,
    ) -> (result: CubeArrayTexture)
        requires
            shadow_size.valid(),
            shadow_size.width == shadow_size.height,
            old(device).next_id <= u64::MAX - 2,
        ensures
            point_shadow_textures_ok(result, shadow_size),
            old(device).next_id <= final(device).next_id,
            final(device).next_id <= old(device).next_id + 2,
            final(device).same_limits(*old(device)),
    {
        CubeArrayTexture::new(
            device,
            shadow_size,
            TextureFormat::Depth32Float,
            AttachmentTextureType::DepthAttachment,
            NUMBER_OF_POINT_LIGHTS_WITH_SHADOWS,
        )
    }

    /// Creates the per-tile light index storage buffer, one record per
    /// light-culling tile and at least one record.
    pub fn create_tile_light_indices_buffer(
        device: &mut GraphicsDevice,
        screen_size: ScreenSize,
    ) -> (result: Buffer)
        requires
            screen_size.valid(),
            old(device).next_id <= u64::MAX - 2,
        ensures
            tile_light_indices_buffer_ok(result, screen_size),
            old(device).next_id <= final(device).next_id,
            final(device).next_id <= old(device).next_id + 2,
            final(device).same_limits(*old(device)),
    {
        let (tile_count_x, tile_count_y) = calculate_light_tile_count(screen_size);
        proof {
            vstd::arithmetic::div_mod::lemma_div_is_ordered(
                screen_size.width + 15,
                (65536 + 15) as int,
                16,
            );
            vstd::arithmetic::div_mod::lemma_div_is_ordered(
                screen_size.height + 15,
                (65536 + 15) as int,
                16,
            );
            assert(tile_count_x as int * tile_count_y as int <= 4096 * 4096) by (nonlinear_arith)
                requires
                    0 <= tile_count_x <= 4096,
                    0 <= tile_count_y <= 4096,
            ;
        }
        let tiles = (tile_count_x as u64) * (tile_count_y as u64);
        let records = if tiles >= 1 {
            tiles
        } else {
            1
        };
        Buffer::with_capacity(
            device,
            BufferUsage {
                copy_dst: false,
                map_read: false,
                uniform: false,
                storage: true,
                indirect: false,
                vertex: false,
            },
            TILE_LIGHT_INDICES_SIZE,
            records * TILE_LIGHT_INDICES_SIZE,
        )
    }

    /// Binds the global uniforms and the three shared samplers.
    pub fn create_global_bind_group(
        device: &mut GraphicsDevice,
        layouts: &BindGroupLayouts,
        global_uniforms_buffer: &Buffer,
        nearest_sampler: &Sampler,
        linear_sampler: &Sampler,
        texture_sampler: &Sampler,
    ) -> (result: BindGroup)
        requires
            old(device).next_id <= u64::MAX - 2,
        ensures
            global_bind_group_ok(
                result,
                *layouts,
                *global_uniforms_buffer,
                *nearest_sampler,
                *linear_sampler,
                *texture_sampler,
            ),
            result.id == old(device).next_id,
            old(device).next_id <= final(device).next_id,
            final(device).next_id <= old(device).next_id + 2,
            final(device).same_limits(*old(device)),
    {
        let mut entries: Vec<u64> = Vec::new();
        entries.push(global_uniforms_buffer.id);
        entries.push(nearest_sampler.id);
        entries.push(linear_sampler.id);
        entries.push(texture_sampler.id);
        proof {
            assert(entries@ =~= seq![
                global_uniforms_buffer.id,
                nearest_sampler.id,
                linear_sampler.id,
                texture_sampler.id,
            ]);
        }
        BindGroup { id: device.fresh_id(), layout_id: layouts.global.id, entries }
    }

    /// Binds the light-culling inputs and outputs: the point-light
    /// list, the per-tile count image and the per-tile index lists.
    pub fn create_light_culling_bind_group(
        device: &mut GraphicsDevice,
        layouts: &BindGroupLayouts,
        point_light_data_buffer: &Buffer,
        tile_light_count_texture: &StorageTexture,
        tile_light_indices_buffer: &Buffer,
    ) -> (result: BindGroup)
        requires
            old(device).next_id <= u64::MAX - 2,
        ensures
            light_culling_bind_group_ok(
                result,
                *layouts,
                *point_light_data_buffer,
                *tile_light_count_texture,
                *tile_light_indices_buffer,
            ),
            result.id == old(device).next_id,
            old(device).next_id <= final(device).next_id,
            final(device).next_id <= old(device).next_id + 2,
            final(device).same_limits(*old(device)),
    {
        let mut entries: Vec<u64> = Vec::new();
        entries.push(point_light_data_buffer.id);
        entries.push(tile_light_count_texture.id);
        entries.push(tile_light_indices_buffer.id);
        proof {
            assert(entries@ =~= seq![
                point_light_data_buffer.id,
                tile_light_count_texture.id,
                tile_light_indices_buffer.id,
            ]);
        }
        BindGroup { id: device.fresh_id(), layout_id: layouts.light_culling.id, entries }
    }

    /// Binds everything the forward shading pass reads: light data,
    /// the culling output and both shadow maps.
    pub fn create_forward_bind_group(
        device: &mut GraphicsDevice,
        layouts: &BindGroupLayouts,
        directional_light_uniforms_buffer: &Buffer,
        point_light_data_buffer: &Buffer,
        tile_light_count_texture: &StorageTexture,
        tile_light_indices_buffer: &Buffer,
        directional_shadow_map_texture: &AttachmentTexture,
        point_shadow_map_textures: &CubeArrayTexture,
    ) -> (result: BindGroup)
        requires
            old(device).next_id <= u64::MAX - 2,
        ensures
            forward_bind_group_ok(
                result,
                *layouts,
                *directional_light_uniforms_buffer,
                *point_light_data_buffer,
                *tile_light_count_texture,
                *tile_light_indices_buffer,
                *directional_shadow_map_texture,
                *point_shadow_map_textures,
            ),
            result.id == old(device).next_id,
            old(device).next_id <= final(device).next_id,
            final(device).next_id <= old(device).next_id + 2,
            final(device).same_limits(*old(device)),
    {
        let mut entries: Vec<u64> = Vec::new();
        entries.push(directional_light_uniforms_buffer.id);
        entries.push(point_light_data_buffer.id);
        entries.push(tile_light_count_texture.id);
        entries.push(tile_light_indices_buffer.id);
        entries.push(directional_shadow_map_texture.id);
        entries.push(point_shadow_map_textures.id);
        proof {
            assert(entries@ =~= seq![
                directional_light_uniforms_buffer.id,
                point_light_data_buffer.id,
                tile_light_count_texture.id,
                tile_light_indices_buffer.id,
                directional_shadow_map_texture.id,
                point_shadow_map_textures.id,
            ]);
        }
        BindGroup { id: device.fresh_id(), layout_id: layouts.forward.id, entries }
    }

    /// Binds the debug uniforms and the intermediate textures the
    /// overlay can show.
    pub fn create_debug_bind_group(
        device: &mut GraphicsDevice,
        layouts: &BindGroupLayouts,
        debug_uniforms_buffer: &Buffer,
        picker_buffer_texture: &AttachmentTexture,
        directional_shadow_map_texture: &AttachmentTexture,
        tile_light_count_texture: &StorageTexture,
        point_shadow_map_textures: &CubeArrayTexture,
    ) -> (result: BindGroup)
        requires
            old(device).next_id <= u64::MAX - 2,
        ensures
            debug_bind_group_ok(
                result,
                *layouts,
                *debug_uniforms_buffer,
                *picker_buffer_texture,
                *directional_shadow_map_texture,
                *tile_light_count_texture,
                *point_shadow_map_textures,
            ),
            result.id == old(device).next_id,
            old(device).next_id <= final(device).next_id,
            final(device).next_id <= old(device).next_id + 2,
            final(device).same_limits(*old(device)),
    {
        let mut entries: Vec<u64> = Vec::new();
        entries.push(debug_uniforms_buffer.id);
        entries.push(picker_buffer_texture.id);
        entries.push(directional_shadow_map_texture.id);
        entries.push(tile_light_count_texture.id);
        entries.push(point_shadow_map_textures.id);
        proof {
            assert(entries@ =~= seq![
                debug_uniforms_buffer.id,
                picker_buffer_texture.id,
                directional_shadow_map_texture.id,
                tile_light_count_texture.id,
                point_shadow_map_textures.id,
            ]);
        }
        BindGroup { id: device.fresh_id(), layout_id: layouts.debug.id, entries }
    }

    /// Binds the working set of the morphological anti-aliasing
    /// pipeline.
    pub fn create_cmaa2_bind_group(
        device: &mut GraphicsDevice,
        layouts: &BindGroupLayouts,
        edges_texture: &StorageTexture,
        control_buffer: &Buffer,
        shape_candidates_buffer: &Buffer,
        indirect_buffer: &Buffer,
        deferred_blend_item_list_heads_buffer: &Buffer,
        deferred_blend_item_list_buffer: &Buffer,
        deferred_blend_location_list_buffer: &Buffer,
    ) -> (result: BindGroup)
        requires
            old(device).next_id <= u64::MAX - 2,
        ensures
            result.layout_id == layouts.cmaa2.id,
            result.entries@ == seq![
                edges_texture.id,
                control_buffer.id,
                shape_candidates_buffer.id,
                indirect_buffer.id,
                deferred_blend_item_list_heads_buffer.id,
                deferred_blend_item_list_buffer.id,
                deferred_blend_location_list_buffer.id,
            ],
            result.id == old(device).next_id,
            old(device).next_id <= final(device).next_id,
            final(device).next_id <= old(device).next_id + 2,
            final(device).same_limits(*old(device)),
    {
        let mut entries: Vec<u64> = Vec::new();
        entries.push(edges_texture.id);
        entries.push(control_buffer.id);
        entries.push(shape_candidates_buffer.id);
        entries.push(indirect_buffer.id);
        entries.push(deferred_blend_item_list_heads_buffer.id);
        entries.push(deferred_blend_item_list_buffer.id);
        entries.push(deferred_blend_location_list_buffer.id);
        proof {
            assert(entries@ =~= seq![
                edges_texture.id,
                control_buffer.id,
                shape_candidates_buffer.id,
                indirect_buffer.id,
                deferred_blend_item_list_heads_buffer.id,
                deferred_blend_item_list_buffer.id,
                deferred_blend_location_list_buffer.id,
            ]);
        }
        BindGroup { id: device.fresh_id(), layout_id: layouts.cmaa2.id, entries }
    }

    /// Binds the color target the anti-aliasing pass writes back to.
    pub fn create_cmaa2_output_bind_group(
        device: &mut GraphicsDevice,
        layouts: &BindGroupLayouts,
        output_color_texture: &AttachmentTexture,
    ) -> (result: BindGroup)
        requires
            old(device).next_id <= u64::MAX - 2,
        ensures
            result.layout_id == layouts.cmaa2_output.id,
            result.entries@ == seq![output_color_texture.id],
            result.id == old(device).next_id,
            old(device).next_id <= final(device).next_id,
            final(device).next_id <= old(device).next_id + 2,
            final(device).same_limits(*old(device)),
    {
        let mut entries: Vec<u64> = Vec::new();
        entries.push(output_color_texture.id);
        proof {
            assert(entries@ =~= seq![output_color_texture.id]);
        }
        BindGroup { id: device.fresh_id(), layout_id: layouts.cmaa2_output.id, entries }
    }

    /// Creates the resource set of the selected anti-aliasing mode.
    /// The morphological-pass lists are sized from worst-case per-area
    /// estimates and clamped to `MAX_BUFFER_SIZE`; a clamped estimate
    /// is acceptable because the estimates are upper bounds that real
    /// scenes do not reach.
    pub fn create_anti_aliasing_resources(
        device: &mut GraphicsDevice,
        layouts: &BindGroupLayouts,
        screen_space_anti_aliasing: ScreenSpaceAntiAliasing,
        screen_size: ScreenSize,
    ) -> (result: AntiAliasingResource)
        requires
            screen_size.valid(),
            old(device).next_id <= u64::MAX - 16,
        ensures
            anti_aliasing_resources_ok(
                result,
                screen_space_anti_aliasing,
                *layouts,
                screen_size,
            ),
            old(device).next_id <= final(device).next_id,
            final(device).next_id <= old(device).next_id + 16,
            final(device).same_limits(*old(device)),
    {
        match screen_space_anti_aliasing {
            ScreenSpaceAntiAliasing::Off => AntiAliasingResource::Off,
            ScreenSpaceAntiAliasing::Fxaa => {
                let factory = AttachmentTextureFactory::new(screen_size, 1, None);
                let color_with_luma_texture = factory.new_attachment(
                    device,
                    TextureFormat::Rgba8UnormSrgb,
                    AttachmentTextureType::ColorAttachment,
                );
                AntiAliasingResource::Fxaa(FxaaResources { color_with_luma_texture })
            },
            ScreenSpaceAntiAliasing::Cmaa2 => {
                let width = screen_size.width as u64;
                let height = screen_size.height as u64;

                proof {
                    assert(width * height <= 65536 * 65536) by (nonlinear_arith)
                        requires
                            0 <= width <= 65536,
                            0 <= height <= 65536,
                    ;
                    assert(((width + 1) / 2) * ((height + 1) / 2) <= 32768 * 32768)
                        by (nonlinear_arith)
                        requires
                            0 <= width <= 65536,
                            0 <= height <= 65536,
                    ;
                }

                let max_shape_candidates = width * height / 4;
                let max_deferred_blend_items = width * height / 2;
                let max_deferred_blend_locations = (width * height + 3) / 6;

                let edges_texture = StorageTexture::new(
                    device,
                    (screen_size.width + 1) / 2,
                    screen_size.height,
                    TextureFormat::R8Uint,
                );
                let storage_usage = BufferUsage {
                    copy_dst: false,
                    map_read: false,
                    uniform: false,
                    storage: true,
                    indirect: false,
                    vertex: false,
                };
                let control_buffer = Buffer::with_capacity(device, storage_usage, 4, 16);
                let indirect_buffer = Buffer::with_capacity(
                    device,
                    BufferUsage { indirect: true, ..storage_usage },
                    DISPATCH_INDIRECT_ARGS_SIZE,
                    DISPATCH_INDIRECT_ARGS_SIZE,
                );
                let shape_candidates_buffer = Buffer::with_capacity(
                    device,
                    storage_usage,
                    4,
                    clamped_capacity(max_shape_candidates, 4),
                );
                let deferred_blend_item_list_heads_buffer = Buffer::with_capacity(
                    device,
                    storage_usage,
                    4,
                    clamped_capacity(((width + 1) / 2) * ((height + 1) / 2), 4),
                );
                let deferred_blend_item_list_buffer = Buffer::with_capacity(
                    device,
                    storage_usage,
                    8,
                    clamped_capacity(max_deferred_blend_items, 8),
                );
                let deferred_blend_location_list_buffer = Buffer::with_capacity(
                    device,
                    storage_usage,
                    4,
                    clamped_capacity(max_deferred_blend_locations, 4),
                );

                let bind_group = Self::create_cmaa2_bind_group(
                    device,
                    layouts,
                    &edges_texture,
                    &control_buffer,
                    &shape_candidates_buffer,
                    &indirect_buffer,
                    &deferred_blend_item_list_heads_buffer,
                    &deferred_blend_item_list_buffer,
                    &deferred_blend_location_list_buffer,
                );

                AntiAliasingResource::Cmaa2(
                    Cmaa2Resources {
                        edges_texture,
                        control_buffer,
                        shape_candidates_buffer,
                        indirect_buffer,
                        deferred_blend_item_list_heads_buffer,
                        deferred_blend_item_list_buffer,
                        deferred_blend_location_list_buffer,
                        bind_group,
                    },
                )
            },
        }
    }
}

impl GlobalContext {
    /// Allocates every shared resource for the initial settings: all
    /// screen-sized and shadow-sized textures, the uniform and storage
    /// buffers at their initial capacities, the three samplers, the
    /// anti-aliasing set of the selected mode and the bind groups over
    /// all of them.  Resource-creation failure on the device side is
    /// fatal and happens before any context exists; there is no
    /// partially constructed context.
    pub fn new(
        device: &mut GraphicsDevice,
        layouts: &BindGroupLayouts,
        surface_texture_format: TextureFormat,
        msaa: Msaa,
        screen_space_anti_aliasing: ScreenSpaceAntiAliasing,
        screen_size: ScreenSize,
        shadow_detail: ShadowDetail,
        texture_sampler: TextureSamplerType,
        solid_pixel_texture_ref: u64,
        walk_indicator_texture_ref: u64,
        enable_debug: bool,
    ) -> (result: GlobalContext)
        requires
            screen_size.valid(),
            layouts.well_formed(),
            old(device).ids_available(),
        ensures
            result.well_formed(),
            result.surface_texture_format == surface_texture_format,
            result.msaa == msaa,
            result.screen_space_anti_aliasing == screen_space_anti_aliasing,
            result.screen_size == screen_size,
            result.layouts == *layouts,
            result.solid_pixel_texture_ref == solid_pixel_texture_ref,
            result.walk_indicator_texture_ref == walk_indicator_texture_ref,
            result.directional_shadow_size.width
                == shadow_detail.spec_directional_shadow_resolution(),
            result.directional_shadow_size.height
                == shadow_detail.spec_directional_shadow_resolution(),
            result.point_shadow_size.width == shadow_detail.spec_point_shadow_resolution(),
            result.point_shadow_size.height == shadow_detail.spec_point_shadow_resolution(),
            result.nearest_sampler.sampler_type == TextureSamplerType::Nearest,
            result.linear_sampler.sampler_type == TextureSamplerType::Linear,
            result.texture_sampler.sampler_type == texture_sampler,
            result.debug is Some <==> enable_debug,
            result.global_uniforms == GlobalUniforms::spec_default(),
            result.directional_light_uniforms == DirectionalLightUniforms::spec_default(),
            result.point_light_data@ =~= Seq::<PointLightData>::empty(),
            result.global_uniforms_buffer.capacity == GLOBAL_UNIFORMS_SIZE,
            result.directional_light_uniforms_buffer.capacity
                == DIRECTIONAL_LIGHT_UNIFORMS_SIZE,
            result.point_light_data_buffer.capacity == POINT_LIGHT_DATA_SIZE
                * INITIAL_POINT_LIGHT_CAPACITY,
            result.point_light_data_buffer.count == 0,
            match result.debug {
                Some(debug) => {
                    &&& debug.debug_uniforms_buffer.capacity == DEBUG_UNIFORMS_SIZE
                    &&& debug.debug_uniforms == DebugUniforms::spec_default()
                },
                None => true,
            },
            old(device).next_id <= final(device).next_id,
            final(device).next_id <= old(device).next_id + MAX_IDS_PER_REBUILD,
            final(device).same_limits(*old(device)),
    {
        let directional_shadow_size = ScreenSize::uniform(
            shadow_detail.directional_shadow_resolution(),
        );
        let point_shadow_size = ScreenSize::uniform(shadow_detail.point_shadow_resolution());

        let screen_textures = Self::create_screen_size_textures(
            device,
            screen_size,
            msaa,
            screen_space_anti_aliasing,
        );
        let directional_shadow_map_texture = Self::create_directional_shadow_texture(
            device,
            directional_shadow_size,
        );
        let point_shadow_map_textures = Self::create_point_shadow_textures(
            device,
            point_shadow_size,
        );
        let resolved_color_texture = Self::create_resolved_color_texture(
            device,
            screen_size,
            msaa,
            screen_space_anti_aliasing,
        );

        let picker_value_buffer = Buffer::with_capacity(
            device,
            BufferUsage {
                copy_dst: true,
                map_read: true,
                uniform: false,
                storage: false,
                indirect: false,
                vertex: false,
            },
            PICKER_VALUE_SIZE,
            PICKER_VALUE_SIZE,
        );

        let uniform_usage = BufferUsage {
            copy_dst: true,
            map_read: false,
            uniform: true,
            storage: false,
            indirect: false,
            vertex: false,
        };
        let global_uniforms_buffer = Buffer::with_capacity(
            device,
            uniform_usage,
            GLOBAL_UNIFORMS_SIZE,
            GLOBAL_UNIFORMS_SIZE,
        );
        let directional_light_uniforms_buffer = Buffer::with_capacity(
            device,
            uniform_usage,
            DIRECTIONAL_LIGHT_UNIFORMS_SIZE,
            DIRECTIONAL_LIGHT_UNIFORMS_SIZE,
        );
        let point_light_data_buffer = Buffer::with_capacity(
            device,
            BufferUsage {
                copy_dst: true,
                map_read: false,
                uniform: false,
                storage: true,
                indirect: false,
                vertex: false,
            },
            POINT_LIGHT_DATA_SIZE,
            INITIAL_POINT_LIGHT_CAPACITY * POINT_LIGHT_DATA_SIZE,
        );

        let tile_light_indices_buffer = Self::create_tile_light_indices_buffer(
            device,
            screen_size,
        );

        let nearest_sampler = create_new_sampler(device, TextureSamplerType::Nearest);
        let linear_sampler = create_new_sampler(device, TextureSamplerType::Linear);
        let texture_sampler = create_new_sampler(device, texture_sampler);

        let anti_aliasing_resources = Self::create_anti_aliasing_resources(
            device,
            layouts,
            screen_space_anti_aliasing,
            screen_size,
        );

        let global_bind_group = Self::create_global_bind_group(
            device,
            layouts,
            &global_uniforms_buffer,
            &nearest_sampler,
            &linear_sampler,
            &texture_sampler,
        );
        let light_culling_bind_group = Self::create_light_culling_bind_group(
            device,
            layouts,
            &point_light_data_buffer,
            &screen_textures.tile_light_count_texture,
            &tile_light_indices_buffer,
        );
        let forward_bind_group = Self::create_forward_bind_group(
            device,
            layouts,
            &directional_light_uniforms_buffer,
            &point_light_data_buffer,
            &screen_textures.tile_light_count_texture,
            &tile_light_indices_buffer,
            &directional_shadow_map_texture,
            &point_shadow_map_textures,
        );

        let debug = if enable_debug {
            let debug_uniforms_buffer = Buffer::with_capacity(
                device,
                uniform_usage,
                DEBUG_UNIFORMS_SIZE,
                DEBUG_UNIFORMS_SIZE,
            );
            let debug_bind_group = Self::create_debug_bind_group(
                device,
                layouts,
                &debug_uniforms_buffer,
                &screen_textures.picker_buffer_texture,
                &directional_shadow_map_texture,
                &screen_textures.tile_light_count_texture,
                &point_shadow_map_textures,
            );
            Some(
                DebugExtension {
                    debug_uniforms_buffer,
                    debug_bind_group,
                    debug_uniforms: DebugUniforms::default(),
                },
            )
        } else {
            None
        };

        GlobalContext {
            surface_texture_format,
            msaa,
            screen_space_anti_aliasing,
            solid_pixel_texture_ref,
            walk_indicator_texture_ref,
            forward_depth_texture: screen_textures.forward_depth_texture,
            picker_buffer_texture: screen_textures.picker_buffer_texture,
            picker_depth_texture: screen_textures.picker_depth_texture,
            forward_color_texture: screen_textures.forward_color_texture,
            resolved_color_texture,
            interface_buffer_texture: screen_textures.interface_buffer_texture,
            directional_shadow_map_texture,
            point_shadow_map_textures,
            tile_light_count_texture: screen_textures.tile_light_count_texture,
            global_uniforms_buffer,
            directional_light_uniforms_buffer,
            point_light_data_buffer,
            picker_value_buffer,
            tile_light_indices_buffer,
            anti_aliasing_resources,
            nearest_sampler,
            linear_sampler,
            texture_sampler,
            layouts: *layouts,
            global_bind_group,
            light_culling_bind_group,
            forward_bind_group,
            debug,
            screen_size,
            directional_shadow_size,
            point_shadow_size,
            global_uniforms: GlobalUniforms::default(),
            directional_light_uniforms: DirectionalLightUniforms::default(),
            point_light_data: Vec::new(),
        }
    }

    /// The point-light record staged for shadow-casting slot `slot`.
    pub open spec fn spec_caster_light(
        caster: PointShadowCasterInstruction,
        slot: int,
    ) -> PointLightData {
        PointLightData {
            position_ref: caster.position_ref,
            color_ref: caster.color_ref,
            range_ref: caster.range_ref,
            texture_index: (slot + 1) as u32,
        }
    }

    /// The point-light record staged for a light without a shadow map.
    pub open spec fn spec_plain_light(light: PointLightInstruction) -> PointLightData {
        PointLightData {
            position_ref: light.position_ref,
            color_ref: light.color_ref,
            range_ref: light.range_ref,
            texture_index: 0,
        }
    }

    /// The debug uniform record derived from the frame's settings.
    pub open spec fn spec_debug_uniforms(
        settings: crate::instruction::RenderSettings,
    ) -> DebugUniforms {
        DebugUniforms {
            show_picker_buffer: settings.show_picker_buffer,
            show_directional_shadow_map: settings.show_directional_shadow_map,
            show_point_shadow_map: match settings.show_point_shadow_map {
                Some(slot) => slot,
                None => 0,
            },
            show_light_culling_count_buffer: settings.show_light_culling_count_buffer,
            show_font_atlas: settings.show_font_atlas,
        }
    }

    /// Stages the per-frame uniform records from the instruction
    /// snapshot: the shadow-casting point lights first, tagged with
    /// their cube slot counted from 1, then the remaining point lights
    /// tagged 0, into one contiguous list; the global and
    /// directional-light records, darkening lights that a debug toggle
    /// disabled.  Pure bookkeeping: no GPU resource is touched.
    pub fn prepare(&mut self, instructions: &RenderInstruction)
        requires
            old(self).well_formed(),
            instructions.valid(),
        ensures
            final(self).well_formed(),
            // Staged point lights: shadow casters first, in order.
            final(self).point_light_data@.len() == instructions.point_light_shadow_caster.len()
                + instructions.point_light.len(),
            forall|j: int|
                0 <= j < instructions.point_light_shadow_caster.len()
                    ==> #[trigger] final(self).point_light_data@[j] == Self::spec_caster_light(
                    instructions.point_light_shadow_caster@[j],
                    j,
                ),
            forall|k: int|
                instructions.point_light_shadow_caster.len() <= k
                    < final(self).point_light_data@.len()
                    ==> #[trigger] final(self).point_light_data@[k] == Self::spec_plain_light(
                    instructions.point_light@[k - instructions.point_light_shadow_caster.len()],
                ),
            final(self).global_uniforms == (GlobalUniforms {
                view_matrix_ref: instructions.uniforms.view_matrix_ref,
                projection_matrix_ref: instructions.uniforms.projection_matrix_ref,
                indicator: instructions.indicator,
                ambient_color: if old(self).debug is Some
                    && !instructions.render_settings.show_ambient_light {
                    ColorSelection::Black
                } else {
                    ColorSelection::Scene(instructions.uniforms.ambient_light_color_ref)
                },
                screen_size: old(self).screen_size,
                pointer_position: instructions.picker_position,
                animation_timer_ref: instructions.uniforms.animation_timer_ref,
                day_timer_ref: instructions.uniforms.day_timer_ref,
                water_level_ref: instructions.uniforms.water_level_ref,
                point_light_count: (instructions.point_light_shadow_caster.len()
                    + instructions.point_light.len()) as u32,
            }),
            final(self).directional_light_uniforms == (DirectionalLightUniforms {
                view_projection_matrix_ref: instructions
                    .directional_light_with_shadow
                    .view_projection_matrix_ref,
                color: if old(self).debug is Some
                    && !instructions.render_settings.show_directional_light {
                    ColorSelection::Black
                } else {
                    ColorSelection::Scene(instructions.directional_light_with_shadow.color_ref)
                },
                direction_ref: instructions.directional_light_with_shadow.direction_ref,
            }),
            // The debug overlay record follows the frame's toggles;
            // its buffer and bind group are untouched.
            (final(self).debug is Some) == (old(self).debug is Some),
            old(self).debug is Some ==> final(self).debug == Some(
                DebugExtension {
                    debug_uniforms: Self::spec_debug_uniforms(instructions.render_settings),
                    ..old(self).debug->0
                },
            ),
            // No GPU resource changes during staging.
            final(self).surface_texture_format == old(self).surface_texture_format,
            final(self).msaa == old(self).msaa,
            final(self).screen_space_anti_aliasing == old(self).screen_space_anti_aliasing,
            final(self).solid_pixel_texture_ref == old(self).solid_pixel_texture_ref,
            final(self).walk_indicator_texture_ref == old(self).walk_indicator_texture_ref,
            final(self).forward_depth_texture == old(self).forward_depth_texture,
            final(self).picker_buffer_texture == old(self).picker_buffer_texture,
            final(self).picker_depth_texture == old(self).picker_depth_texture,
            final(self).forward_color_texture == old(self).forward_color_texture,
            final(self).resolved_color_texture == old(self).resolved_color_texture,
            final(self).interface_buffer_texture == old(self).interface_buffer_texture,
            final(self).directional_shadow_map_texture == old(
                self,
            ).directional_shadow_map_texture,
            final(self).point_shadow_map_textures == old(self).point_shadow_map_textures,
            final(self).tile_light_count_texture == old(self).tile_light_count_texture,
            final(self).global_uniforms_buffer == old(self).global_uniforms_buffer,
            final(self).directional_light_uniforms_buffer == old(
                self,
            ).directional_light_uniforms_buffer,
            final(self).point_light_data_buffer == old(self).point_light_data_buffer,
            final(self).picker_value_buffer == old(self).picker_value_buffer,
            final(self).tile_light_indices_buffer == old(self).tile_light_indices_buffer,
            final(self).anti_aliasing_resources == old(self).anti_aliasing_resources,
            final(self).nearest_sampler == old(self).nearest_sampler,
            final(self).linear_sampler == old(self).linear_sampler,
            final(self).texture_sampler == old(self).texture_sampler,
            final(self).layouts == old(self).layouts,
            final(self).global_bind_group == old(self).global_bind_group,
            final(self).light_culling_bind_group == old(self).light_culling_bind_group,
            final(self).forward_bind_group == old(self).forward_bind_group,
            final(self).screen_size == old(self).screen_size,
            final(self).directional_shadow_size == old(self).directional_shadow_size,
            final(self).point_shadow_size == old(self).point_shadow_size,
    {
        let debug_enabled = self.debug.is_some();

        let mut point_light_data: Vec<PointLightData> = Vec::new();
        let num_casters = instructions.point_light_shadow_caster.len();
        let num_plain = instructions.point_light.len();

        let mut i: usize = 0;
        while i < num_casters
            invariant
                num_casters == instructions.point_light_shadow_caster.len(),
                num_casters + num_plain <= u32::MAX,
                i <= num_casters,
                point_light_data@.len() == i,
                forall|j: int|
                    0 <= j < i ==> point_light_data@[j] == Self::spec_caster_light(
                        instructions.point_light_shadow_caster@[j],
                        j,
                    ),
            decreases num_casters - i,
        {
            let caster = instructions.point_light_shadow_caster[i];
            point_light_data.push(
                PointLightData {
                    position_ref: caster.position_ref,
                    color_ref: caster.color_ref,
                    range_ref: caster.range_ref,
                    texture_index: (i as u32) + 1,
                },
            );
            i += 1;
        }

        let mut k: usize = 0;
        while k < num_plain
            invariant
                num_casters == instructions.point_light_shadow_caster.len(),
                num_plain == instructions.point_light.len(),
                num_casters + num_plain <= u32::MAX,
                k <= num_plain,
                point_light_data@.len() == num_casters + k,
                forall|j: int|
                    0 <= j < num_casters ==> point_light_data@[j] == Self::spec_caster_light(
                        instructions.point_light_shadow_caster@[j],
                        j,
                    ),
                forall|j: int|
                    0 <= j < k ==> point_light_data@[num_casters + j] == Self::spec_plain_light(
                        instructions.point_light@[j],
                    ),
            decreases num_plain - k,
        {
            let light = instructions.point_light[k];
            point_light_data.push(
                PointLightData {
                    position_ref: light.position_ref,
                    color_ref: light.color_ref,
                    range_ref: light.range_ref,
                    texture_index: 0,
                },
            );
            k += 1;
        }

        let ambient_color = if debug_enabled && !instructions.render_settings.show_ambient_light {
            ColorSelection::Black
        } else {
            ColorSelection::Scene(instructions.uniforms.ambient_light_color_ref)
        };
        let directional_color = if debug_enabled
            && !instructions.render_settings.show_directional_light {
            ColorSelection::Black
        } else {
            ColorSelection::Scene(instructions.directional_light_with_shadow.color_ref)
        };

        self.global_uniforms = GlobalUniforms {
            view_matrix_ref: instructions.uniforms.view_matrix_ref,
            projection_matrix_ref: instructions.uniforms.projection_matrix_ref,
            indicator: instructions.indicator,
            ambient_color,
            screen_size: self.screen_size,
            pointer_position: instructions.picker_position,
            animation_timer_ref: instructions.uniforms.animation_timer_ref,
            day_timer_ref: instructions.uniforms.day_timer_ref,
            water_level_ref: instructions.uniforms.water_level_ref,
            point_light_count: (num_casters as u32) + (num_plain as u32),
        };

        self.directional_light_uniforms = DirectionalLightUniforms {
            view_projection_matrix_ref: instructions
                .directional_light_with_shadow
                .view_projection_matrix_ref,
            color: directional_color,
            direction_ref: instructions.directional_light_with_shadow.direction_ref,
        };

        self.point_light_data = point_light_data;

        match &mut self.debug {
            Some(debug) => {
                debug.debug_uniforms = DebugUniforms {
                    show_picker_buffer: instructions.render_settings.show_picker_buffer,
                    show_directional_shadow_map: instructions
                        .render_settings
                        .show_directional_shadow_map,
                    show_point_shadow_map: match instructions.render_settings.show_point_shadow_map {
                        Some(slot) => slot,
                        None => 0,
                    },
                    show_light_culling_count_buffer: instructions
                        .render_settings
                        .show_light_culling_count_buffer,
                    show_font_atlas: instructions.render_settings.show_font_atlas,
                };
            },
            None => {},
        }
    }

    /// Uploads the staged records into their GPU buffers, then, only
    /// if some buffer had to be reallocated to fit, rebuilds the bind
    /// groups that reference those buffers — once for the whole frame.
    /// Under steady-state light counts nothing reallocates and no bind
    /// group is touched.  An empty point-light list skips the
    /// point-light write entirely.  Returns whether the bind groups
    /// were rebuilt.
    pub fn upload(&mut self, device: &mut GraphicsDevice) -> (rebuilt: bool)
        requires
            old(self).well_formed(),
            old(device).ids_available(),
        ensures
            final(self).well_formed(),
            // The fixed-size uniform buffers always fit: no
            // reallocation can come from them.
            final(self).global_uniforms_buffer == (Buffer {
                count: 1,
                ..old(self).global_uniforms_buffer
            }),
            final(self).directional_light_uniforms_buffer == (Buffer {
                count: 1,
                ..old(self).directional_light_uniforms_buffer
            }),
            // The point-light write is skipped when no light was
            // staged, and grows the buffer exactly when the staged
            // bytes exceed its capacity.
            old(self).point_light_data.len() == 0 ==> final(self).point_light_data_buffer == old(
                self,
            ).point_light_data_buffer,
            old(self).point_light_data.len() > 0 ==> (
            final(self).point_light_data_buffer,
            rebuilt,
            ) == old(self).point_light_data_buffer.spec_write(
                *old(device),
                old(self).point_light_data.len() as u64,
            ),
            rebuilt == (old(self).point_light_data.len() > 0 && old(
                self,
            ).point_light_data.len() * POINT_LIGHT_DATA_SIZE > old(
                self,
            ).point_light_data_buffer.capacity),
            // Bind groups are rebuilt exactly when a reallocation
            // happened; otherwise they are identical to before.
            !rebuilt ==> {
                &&& final(self).global_bind_group == old(self).global_bind_group
                &&& final(self).light_culling_bind_group == old(self).light_culling_bind_group
                &&& final(self).forward_bind_group == old(self).forward_bind_group
                &&& (old(self).debug is Some ==> final(self).debug->0.debug_bind_group == old(
                    self,
                ).debug->0.debug_bind_group)
                &&& *final(device) == *old(device)
            },
            rebuilt ==> {
                &&& final(self).global_bind_group.id >= old(device).next_id
                &&& final(self).light_culling_bind_group.id >= old(device).next_id
                &&& final(self).forward_bind_group.id >= old(device).next_id
            },
            (final(self).debug is Some) == (old(self).debug is Some),
            old(self).debug is Some ==> final(self).debug->0.debug_uniforms_buffer == (Buffer {
                count: 1,
                ..old(self).debug->0.debug_uniforms_buffer
            }) && final(self).debug->0.debug_uniforms == old(self).debug->0.debug_uniforms,
            // Everything that is not a written buffer or a rebuilt
            // bind group is untouched.
            final(self).surface_texture_format == old(self).surface_texture_format,
            final(self).msaa == old(self).msaa,
            final(self).screen_space_anti_aliasing == old(self).screen_space_anti_aliasing,
            final(self).solid_pixel_texture_ref == old(self).solid_pixel_texture_ref,
            final(self).walk_indicator_texture_ref == old(self).walk_indicator_texture_ref,
            final(self).forward_depth_texture == old(self).forward_depth_texture,
            final(self).picker_buffer_texture == old(self).picker_buffer_texture,
            final(self).picker_depth_texture == old(self).picker_depth_texture,
            final(self).forward_color_texture == old(self).forward_color_texture,
            final(self).resolved_color_texture == old(self).resolved_color_texture,
            final(self).interface_buffer_texture == old(self).interface_buffer_texture,
            final(self).directional_shadow_map_texture == old(
                self,
            ).directional_shadow_map_texture,
            final(self).point_shadow_map_textures == old(self).point_shadow_map_textures,
            final(self).tile_light_count_texture == old(self).tile_light_count_texture,
            final(self).picker_value_buffer == old(self).picker_value_buffer,
            final(self).tile_light_indices_buffer == old(self).tile_light_indices_buffer,
            final(self).anti_aliasing_resources == old(self).anti_aliasing_resources,
            final(self).nearest_sampler == old(self).nearest_sampler,
            final(self).linear_sampler == old(self).linear_sampler,
            final(self).texture_sampler == old(self).texture_sampler,
            final(self).layouts == old(self).layouts,
            final(self).screen_size == old(self).screen_size,
            final(self).directional_shadow_size == old(self).directional_shadow_size,
            final(self).point_shadow_size == old(self).point_shadow_size,
            final(self).global_uniforms == old(self).global_uniforms,
            final(self).directional_light_uniforms == old(self).directional_light_uniforms,
            final(self).point_light_data == old(self).point_light_data,
            old(device).next_id <= final(device).next_id,
            final(device).next_id <= old(device).next_id + MAX_IDS_PER_REBUILD,
            final(device).same_limits(*old(device)),
    {
        let mut recreated = self.global_uniforms_buffer.write(device, 1);
        recreated = recreated || self.directional_light_uniforms_buffer.write(device, 1);

        if self.point_light_data.len() > 0 {
            let staged_count = self.point_light_data.len();
            proof {
                assert(staged_count * POINT_LIGHT_DATA_SIZE <= u32::MAX * POINT_LIGHT_DATA_SIZE)
                    by (nonlinear_arith)
                    requires
                        staged_count <= u32::MAX,
                ;
            }
            let reallocated = self.point_light_data_buffer.write(device, staged_count as u64);
            recreated = recreated || reallocated;
        }

        match &mut self.debug {
            Some(debug) => {
                let reallocated = debug.debug_uniforms_buffer.write(device, 1);
                recreated = recreated || reallocated;
            },
            None => {},
        }

        if recreated {
            self.global_bind_group = Self::create_global_bind_group(
                device,
                &self.layouts,
                &self.global_uniforms_buffer,
                &self.nearest_sampler,
                &self.linear_sampler,
                &self.texture_sampler,
            );
            self.light_culling_bind_group = Self::create_light_culling_bind_group(
                device,
                &self.layouts,
                &self.point_light_data_buffer,
                &self.tile_light_count_texture,
                &self.tile_light_indices_buffer,
            );
            self.forward_bind_group = Self::create_forward_bind_group(
                device,
                &self.layouts,
                &self.directional_light_uniforms_buffer,
                &self.point_light_data_buffer,
                &self.tile_light_count_texture,
                &self.tile_light_indices_buffer,
                &self.directional_shadow_map_texture,
                &self.point_shadow_map_textures,
            );
            match &mut self.debug {
                Some(debug) => {
                    debug.debug_bind_group = Self::create_debug_bind_group(
                        device,
                        &self.layouts,
                        &debug.debug_uniforms_buffer,
                        &self.picker_buffer_texture,
                        &self.directional_shadow_map_texture,
                        &self.tile_light_count_texture,
                        &self.point_shadow_map_textures,
                    );
                },
                None => {},
            }
        }

        recreated
    }

    /// Tears down and recreates every screen-size-dependent texture
    /// and buffer for the new size, and rebuilds the two bind groups
    /// that reference them (three with the debug overlay).  Shadow
    /// resources, uniform buffers, samplers and the global bind group
    /// are left untouched.
    pub fn update_screen_size_resources(
        &mut self,
        device: &mut GraphicsDevice,
        screen_size: ScreenSize,
    )
        requires
            old(self).well_formed(),
            screen_size.valid(),
            old(device).ids_available(),
        ensures
            final(self).well_formed(),
            final(self).screen_size == screen_size,
            // Untouched: shadow resources and everything not sized by
            // the screen.
            final(self).surface_texture_format == old(self).surface_texture_format,
            final(self).msaa == old(self).msaa,
            final(self).screen_space_anti_aliasing == old(self).screen_space_anti_aliasing,
            final(self).solid_pixel_texture_ref == old(self).solid_pixel_texture_ref,
            final(self).walk_indicator_texture_ref == old(self).walk_indicator_texture_ref,
            final(self).directional_shadow_map_texture == old(
                self,
            ).directional_shadow_map_texture,
            final(self).point_shadow_map_textures == old(self).point_shadow_map_textures,
            final(self).directional_shadow_size == old(self).directional_shadow_size,
            final(self).point_shadow_size == old(self).point_shadow_size,
            final(self).global_uniforms_buffer == old(self).global_uniforms_buffer,
            final(self).directional_light_uniforms_buffer == old(
                self,
            ).directional_light_uniforms_buffer,
            final(self).point_light_data_buffer == old(self).point_light_data_buffer,
            final(self).picker_value_buffer == old(self).picker_value_buffer,
            final(self).nearest_sampler == old(self).nearest_sampler,
            final(self).linear_sampler == old(self).linear_sampler,
            final(self).texture_sampler == old(self).texture_sampler,
            final(self).layouts == old(self).layouts,
            final(self).global_bind_group == old(self).global_bind_group,
            (final(self).debug is Some) == (old(self).debug is Some),
            old(self).debug is Some ==> {
                &&& final(self).debug->0.debug_uniforms_buffer == old(
                    self,
                ).debug->0.debug_uniforms_buffer
                &&& final(self).debug->0.debug_uniforms == old(self).debug->0.debug_uniforms
            },
            final(self).global_uniforms == old(self).global_uniforms,
            final(self).directional_light_uniforms == old(self).directional_light_uniforms,
            final(self).point_light_data == old(self).point_light_data,
            old(device).next_id <= final(device).next_id,
            final(device).next_id <= old(device).next_id + MAX_IDS_PER_REBUILD,
            final(device).same_limits(*old(device)),
    {
        self.screen_size = screen_size;
        let screen_textures = Self::create_screen_size_textures(
            device,
            screen_size,
            self.msaa,
            self.screen_space_anti_aliasing,
        );
        let resolved_color_texture = Self::create_resolved_color_texture(
            device,
            screen_size,
            self.msaa,
            self.screen_space_anti_aliasing,
        );

        self.forward_color_texture = screen_textures.forward_color_texture;
        self.forward_depth_texture = screen_textures.forward_depth_texture;
        self.picker_buffer_texture = screen_textures.picker_buffer_texture;
        self.picker_depth_texture = screen_textures.picker_depth_texture;
        self.resolved_color_texture = resolved_color_texture;
        self.interface_buffer_texture = screen_textures.interface_buffer_texture;
        self.tile_light_count_texture = screen_textures.tile_light_count_texture;

        self.tile_light_indices_buffer = Self::create_tile_light_indices_buffer(
            device,
            screen_size,
        );

        self.anti_aliasing_resources = Self::create_anti_aliasing_resources(
            device,
            &self.layouts,
            self.screen_space_anti_aliasing,
            screen_size,
        );

        // These two bind groups reference the recreated resources and
        // are not rebuilt each frame, so they must be updated here.
        self.light_culling_bind_group = Self::create_light_culling_bind_group(
            device,
            &self.layouts,
            &self.point_light_data_buffer,
            &self.tile_light_count_texture,
            &self.tile_light_indices_buffer,
        );
        self.forward_bind_group = Self::create_forward_bind_group(
            device,
            &self.layouts,
            &self.directional_light_uniforms_buffer,
            &self.point_light_data_buffer,
            &self.tile_light_count_texture,
            &self.tile_light_indices_buffer,
            &self.directional_shadow_map_texture,
            &self.point_shadow_map_textures,
        );
        match &mut self.debug {
            Some(debug) => {
                debug.debug_bind_group = Self::create_debug_bind_group(
                    device,
                    &self.layouts,
                    &debug.debug_uniforms_buffer,
                    &self.picker_buffer_texture,
                    &self.directional_shadow_map_texture,
                    &self.tile_light_count_texture,
                    &self.point_shadow_map_textures,
                );
            },
            None => {},
        }
    }

    /// Tears down and recreates the two shadow maps for the new
    /// quality setting and rebuilds the bind groups that sample them
    /// (forward; debug when present).  Screen-size resources and the
    /// other bind groups are left untouched.
    pub fn update_shadow_size_textures(
        &mut self,
        device: &mut GraphicsDevice,
        shadow_detail: ShadowDetail,
    )
        requires
            old(self).well_formed(),
            old(device).ids_available(),
        ensures
            final(self).well_formed(),
            final(self).directional_shadow_size.width
                == shadow_detail.spec_directional_shadow_resolution(),
            final(self).directional_shadow_size.height
                == shadow_detail.spec_directional_shadow_resolution(),
            final(self).point_shadow_size.width == shadow_detail.spec_point_shadow_resolution(),
            final(self).point_shadow_size.height == shadow_detail.spec_point_shadow_resolution(),
            // Untouched: every screen-size resource, every buffer,
            // samplers and the bind groups that do not sample shadows.
            final(self).surface_texture_format == old(self).surface_texture_format,
            final(self).msaa == old(self).msaa,
            final(self).screen_space_anti_aliasing == old(self).screen_space_anti_aliasing,
            final(self).solid_pixel_texture_ref == old(self).solid_pixel_texture_ref,
            final(self).walk_indicator_texture_ref == old(self).walk_indicator_texture_ref,
            final(self).screen_size == old(self).screen_size,
            final(self).forward_depth_texture == old(self).forward_depth_texture,
            final(self).picker_buffer_texture == old(self).picker_buffer_texture,
            final(self).picker_depth_texture == old(self).picker_depth_texture,
            final(self).forward_color_texture == old(self).forward_color_texture,
            final(self).resolved_color_texture == old(self).resolved_color_texture,
            final(self).interface_buffer_texture == old(self).interface_buffer_texture,
            final(self).tile_light_count_texture == old(self).tile_light_count_texture,
            final(self).global_uniforms_buffer == old(self).global_uniforms_buffer,
            final(self).directional_light_uniforms_buffer == old(
                self,
            ).directional_light_uniforms_buffer,
            final(self).point_light_data_buffer == old(self).point_light_data_buffer,
            final(self).picker_value_buffer == old(self).picker_value_buffer,
            final(self).tile_light_indices_buffer == old(self).tile_light_indices_buffer,
            final(self).anti_aliasing_resources == old(self).anti_aliasing_resources,
            final(self).nearest_sampler == old(self).nearest_sampler,
            final(self).linear_sampler == old(self).linear_sampler,
            final(self).texture_sampler == old(self).texture_sampler,
            final(self).layouts == old(self).layouts,
            final(self).global_bind_group == old(self).global_bind_group,
            final(self).light_culling_bind_group == old(self).light_culling_bind_group,
            (final(self).debug is Some) == (old(self).debug is Some),
            old(self).debug is Some ==> {
                &&& final(self).debug->0.debug_uniforms_buffer == old(
                    self,
                ).debug->0.debug_uniforms_buffer
                &&& final(self).debug->0.debug_uniforms == old(self).debug->0.debug_uniforms
            },
            final(self).global_uniforms == old(self).global_uniforms,
            final(self).directional_light_uniforms == old(self).directional_light_uniforms,
            final(self).point_light_data == old(self).point_light_data,
            old(device).next_id <= final(device).next_id,
            final(device).next_id <= old(device).next_id + MAX_IDS_PER_REBUILD,
            final(device).same_limits(*old(device)),
    {
        self.directional_shadow_size = ScreenSize::uniform(
            shadow_detail.directional_shadow_resolution(),
        );
        self.point_shadow_size = ScreenSize::uniform(shadow_detail.point_shadow_resolution());

        self.directional_shadow_map_texture = Self::create_directional_shadow_texture(
            device,
            self.directional_shadow_size,
        );
        self.point_shadow_map_textures = Self::create_point_shadow_textures(
            device,
            self.point_shadow_size,
        );

        // These bind groups sample the recreated shadow maps and are
        // not rebuilt each frame, so they must be updated here.
        self.forward_bind_group = Self::create_forward_bind_group(
            device,
            &self.layouts,
            &self.directional_light_uniforms_buffer,
            &self.point_light_data_buffer,
            &self.tile_light_count_texture,
            &self.tile_light_indices_buffer,
            &self.directional_shadow_map_texture,
            &self.point_shadow_map_textures,
        );
        match &mut self.debug {
            Some(debug) => {
                debug.debug_bind_group = Self::create_debug_bind_group(
                    device,
                    &self.layouts,
                    &debug.debug_uniforms_buffer,
                    &self.picker_buffer_texture,
                    &self.directional_shadow_map_texture,
                    &self.tile_light_count_texture,
                    &self.point_shadow_map_textures,
                );
            },
            None => {},
        }
    }

    /// Replaces the scene-texture sampler and rebuilds the one bind
    /// group that contains it.  No texture, buffer or other bind
    /// group is touched.
    pub fn update_texture_sampler(
        &mut self,
        device: &mut GraphicsDevice,
        texture_sampler_type: TextureSamplerType,
    )
        requires
            old(self).well_formed(),
            old(device).ids_available(),
        ensures
            final(self).well_formed(),
            final(self).texture_sampler.sampler_type == texture_sampler_type,
            // Only the sampler and the global bind group change.
            final(self).surface_texture_format == old(self).surface_texture_format,
            final(self).msaa == old(self).msaa,
            final(self).screen_space_anti_aliasing == old(self).screen_space_anti_aliasing,
            final(self).solid_pixel_texture_ref == old(self).solid_pixel_texture_ref,
            final(self).walk_indicator_texture_ref == old(self).walk_indicator_texture_ref,
            final(self).screen_size == old(self).screen_size,
            final(self).directional_shadow_size == old(self).directional_shadow_size,
            final(self).point_shadow_size == old(self).point_shadow_size,
            final(self).forward_depth_texture == old(self).forward_depth_texture,
            final(self).picker_buffer_texture == old(self).picker_buffer_texture,
            final(self).picker_depth_texture == old(self).picker_depth_texture,
            final(self).forward_color_texture == old(self).forward_color_texture,
            final(self).resolved_color_texture == old(self).resolved_color_texture,
            final(self).interface_buffer_texture == old(self).interface_buffer_texture,
            final(self).directional_shadow_map_texture == old(
                self,
            ).directional_shadow_map_texture,
            final(self).point_shadow_map_textures == old(self).point_shadow_map_textures,
            final(self).tile_light_count_texture == old(self).tile_light_count_texture,
            final(self).global_uniforms_buffer == old(self).global_uniforms_buffer,
            final(self).directional_light_uniforms_buffer == old(
                self,
            ).directional_light_uniforms_buffer,
            final(self).point_light_data_buffer == old(self).point_light_data_buffer,
            final(self).picker_value_buffer == old(self).picker_value_buffer,
            final(self).tile_light_indices_buffer == old(self).tile_light_indices_buffer,
            final(self).anti_aliasing_resources == old(self).anti_aliasing_resources,
            final(self).nearest_sampler == old(self).nearest_sampler,
            final(self).linear_sampler == old(self).linear_sampler,
            final(self).layouts == old(self).layouts,
            final(self).light_culling_bind_group == old(self).light_culling_bind_group,
            final(self).forward_bind_group == old(self).forward_bind_group,
            final(self).debug == old(self).debug,
            final(self).global_uniforms == old(self).global_uniforms,
            final(self).directional_light_uniforms == old(self).directional_light_uniforms,
            final(self).point_light_data == old(self).point_light_data,
            old(device).next_id <= final(device).next_id,
            final(device).next_id <= old(device).next_id + MAX_IDS_PER_REBUILD,
            final(device).same_limits(*old(device)),
    {
        self.texture_sampler = create_new_sampler(device, texture_sampler_type);
        self.global_bind_group = Self::create_global_bind_group(
            device,
            &self.layouts,
            &self.global_uniforms_buffer,
            &self.nearest_sampler,
            &self.linear_sampler,
            &self.texture_sampler,
        );
    }

    /// Switches the multisampling level: only the forward color and
    /// depth pair and the resolve target are recreated.  No bind group
    /// references them, so none is rebuilt.
    pub fn update_msaa(&mut self, device: &mut GraphicsDevice, msaa: Msaa)
        requires
            old(self).well_formed(),
            old(device).ids_available(),
        ensures
            final(self).well_formed(),
            final(self).msaa == msaa,
            // Only the forward pair and the resolve target change.
            final(self).surface_texture_format == old(self).surface_texture_format,
            final(self).screen_space_anti_aliasing == old(self).screen_space_anti_aliasing,
            final(self).solid_pixel_texture_ref == old(self).solid_pixel_texture_ref,
            final(self).walk_indicator_texture_ref == old(self).walk_indicator_texture_ref,
            final(self).screen_size == old(self).screen_size,
            final(self).directional_shadow_size == old(self).directional_shadow_size,
            final(self).point_shadow_size == old(self).point_shadow_size,
            final(self).picker_buffer_texture == old(self).picker_buffer_texture,
            final(self).picker_depth_texture == old(self).picker_depth_texture,
            final(self).interface_buffer_texture == old(self).interface_buffer_texture,
            final(self).directional_shadow_map_texture == old(
                self,
            ).directional_shadow_map_texture,
            final(self).point_shadow_map_textures == old(self).point_shadow_map_textures,
            final(self).tile_light_count_texture == old(self).tile_light_count_texture,
            final(self).global_uniforms_buffer == old(self).global_uniforms_buffer,
            final(self).directional_light_uniforms_buffer == old(
                self,
            ).directional_light_uniforms_buffer,
            final(self).point_light_data_buffer == old(self).point_light_data_buffer,
            final(self).picker_value_buffer == old(self).picker_value_buffer,
            final(self).tile_light_indices_buffer == old(self).tile_light_indices_buffer,
            final(self).anti_aliasing_resources == old(self).anti_aliasing_resources,
            final(self).nearest_sampler == old(self).nearest_sampler,
            final(self).linear_sampler == old(self).linear_sampler,
            final(self).texture_sampler == old(self).texture_sampler,
            final(self).layouts == old(self).layouts,
            final(self).global_bind_group == old(self).global_bind_group,
            final(self).light_culling_bind_group == old(self).light_culling_bind_group,
            final(self).forward_bind_group == old(self).forward_bind_group,
            final(self).debug == old(self).debug,
            final(self).global_uniforms == old(self).global_uniforms,
            final(self).directional_light_uniforms == old(self).directional_light_uniforms,
            final(self).point_light_data == old(self).point_light_data,
            old(device).next_id <= final(device).next_id,
            final(device).next_id <= old(device).next_id + MAX_IDS_PER_REBUILD,
            final(device).same_limits(*old(device)),
    {
        self.msaa = msaa;

        let (forward_color_texture, forward_depth_texture) = Self::create_forward_texture(
            device,
            self.screen_size,
            self.msaa,
            self.screen_space_anti_aliasing,
        );
        self.forward_color_texture = forward_color_texture;
        self.forward_depth_texture = forward_depth_texture;

        self.resolved_color_texture = Self::create_resolved_color_texture(
            device,
            self.screen_size,
            self.msaa,
            self.screen_space_anti_aliasing,
        );
    }

    /// Switches the post-process anti-aliasing mode: the forward pair
    /// and the resolve target are recreated (their storage-image usage
    /// depends on the mode) and the mode's resource set is swapped.
    /// Nothing else is touched.
    pub fn update_screen_space_anti_aliasing(
        &mut self,
        device: &mut GraphicsDevice,
        screen_space_anti_aliasing: ScreenSpaceAntiAliasing,
    )
        requires
            old(self).well_formed(),
            old(device).ids_available(),
        ensures
            final(self).well_formed(),
            final(self).screen_space_anti_aliasing == screen_space_anti_aliasing,
            // Only the forward pair, the resolve target and the
            // anti-aliasing set change.
            final(self).surface_texture_format == old(self).surface_texture_format,
            final(self).msaa == old(self).msaa,
            final(self).solid_pixel_texture_ref == old(self).solid_pixel_texture_ref,
            final(self).walk_indicator_texture_ref == old(self).walk_indicator_texture_ref,
            final(self).screen_size == old(self).screen_size,
            final(self).directional_shadow_size == old(self).directional_shadow_size,
            final(self).point_shadow_size == old(self).point_shadow_size,
            final(self).picker_buffer_texture == old(self).picker_buffer_texture,
            final(self).picker_depth_texture == old(self).picker_depth_texture,
            final(self).interface_buffer_texture == old(self).interface_buffer_texture,
            final(self).directional_shadow_map_texture == old(
                self,
            ).directional_shadow_map_texture,
            final(self).point_shadow_map_textures == old(self).point_shadow_map_textures,
            final(self).tile_light_count_texture == old(self).tile_light_count_texture,
            final(self).global_uniforms_buffer == old(self).global_uniforms_buffer,
            final(self).directional_light_uniforms_buffer == old(
                self,
            ).directional_light_uniforms_buffer,
            final(self).point_light_data_buffer == old(self).point_light_data_buffer,
            final(self).picker_value_buffer == old(self).picker_value_buffer,
            final(self).tile_light_indices_buffer == old(self).tile_light_indices_buffer,
            final(self).nearest_sampler == old(self).nearest_sampler,
            final(self).linear_sampler == old(self).linear_sampler,
            final(self).texture_sampler == old(self).texture_sampler,
            final(self).layouts == old(self).layouts,
            final(self).global_bind_group == old(self).global_bind_group,
            final(self).light_culling_bind_group == old(self).light_culling_bind_group,
            final(self).forward_bind_group == old(self).forward_bind_group,
            final(self).debug == old(self).debug,
            final(self).global_uniforms == old(self).global_uniforms,
            final(self).directional_light_uniforms == old(self).directional_light_uniforms,
            final(self).point_light_data == old(self).point_light_data,
            old(device).next_id <= final(device).next_id,
            final(device).next_id <= old(device).next_id + MAX_IDS_PER_REBUILD,
            final(device).same_limits(*old(device)),
    {
        self.screen_space_anti_aliasing = screen_space_anti_aliasing;

        let (forward_color_texture, forward_depth_texture) = Self::create_forward_texture(
            device,
            self.screen_size,
            self.msaa,
            self.screen_space_anti_aliasing,
        );
        self.forward_color_texture = forward_color_texture;
        self.forward_depth_texture = forward_depth_texture;

        self.resolved_color_texture = Self::create_resolved_color_texture(
            device,
            self.screen_size,
            self.msaa,
            self.screen_space_anti_aliasing,
        );

        self.anti_aliasing_resources = Self::create_anti_aliasing_resources(
            device,
            &self.layouts,
            self.screen_space_anti_aliasing,
            self.screen_size,
        );
    }

    /// The texture later passes composite from: the resolve target
    /// when multisampling is active, the forward color target
    /// otherwise.
    pub fn get_color_texture(&self) -> (result: &AttachmentTexture)
        ensures
            *result == match self.resolved_color_texture {
                Some(texture) => texture,
                None => self.forward_color_texture,
            },
    {
        match &self.resolved_color_texture {
            Some(texture) => texture,
            None => &self.forward_color_texture,
        }
    }
}

/// Bytes of a worst-case element estimate, forced to at least one
/// element and clamped to the allocation cap.
pub fn clamped_capacity(elements: u64, element_size: u64) -> (result: u64)
    requires
        1 <= element_size <= 8,
        elements <= 0x0100_0000_0000_0000,
    ensures
        result == spec_clamped_capacity(elements as int, element_size as int),
{
    let at_least_one = if elements >= 1 {
        elements
    } else {
        1
    };
    proof {
        assert(at_least_one * element_size <= 0x0100_0000_0000_0000 * 8) by (nonlinear_arith)
            requires
                1 <= at_least_one <= 0x0100_0000_0000_0000,
                1 <= element_size <= 8,
        ;
    }
    let bytes = at_least_one * element_size;
    if bytes <= MAX_BUFFER_SIZE {
        bytes
    } else {
        MAX_BUFFER_SIZE
    }
}

} // verus!

