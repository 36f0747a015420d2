//! The point-shadow render pass: scene depth rendered into one cube
//! face at a time, for each shadow-casting point light.
//!
//! One uniform buffer holds a record per (light slot, cube face) pair
//! at offsets padded to the device's dynamic-offset alignment; each
//! pass binds the buffer once and selects its record with a dynamic
//! offset.  [`lemma_point_shadow_offsets_disjoint`] states that no two
//! distinct (light, face) pairs ever alias the same offset range.

use vstd::prelude::*;

use crate::buffer::{Buffer, BufferUsage};
use crate::context::{GlobalContext, NUMBER_OF_POINT_LIGHTS_WITH_SHADOWS};
use crate::device::{BindGroup, BindGroupLayout, BindGroupLayouts, GraphicsDevice};
use crate::instruction::{PointShadowCasterInstruction, RenderInstruction};
use crate::screen::{align_up, ceil_div};
use crate::texture::{CubeFaceView, TextureFormat};

verus! {

/// Faces of a cube map.
pub const NUMBER_FACES: usize = 6;

/// Bytes of one per-face uniform record (view-projection matrix, light
/// position, animation timer and padding).
pub const PASS_UNIFORMS_SIZE: u64 = 96;

/// One per-face uniform record, by payload handle.
#[derive(Clone, Copy, PartialEq, Eq, Structural, Debug)]
pub struct PassUniforms {
    pub view_projection_matrix_ref: u64,
    pub light_position_ref: u64,
    pub animation_timer_ref: u64,
}

/// Which (light slot, cube face) pair a pass renders into.
#[derive(Clone, Copy, PartialEq, Eq, Structural, Debug)]
pub struct PointShadowData {
    pub shadow_caster_index: usize,
    pub face_index: usize,
}

/// Description of one begun point-shadow pass, for the device layer to
/// execute: the depth-only target face, the fixed viewport, and the
/// two bind groups with the dynamic offset selecting this pass's
/// uniform record.
#[derive(Clone, Copy, PartialEq, Eq, Structural, Debug)]
pub struct PointShadowPass {
    /// The 2D view of the one cube face rendered into.
    pub target: CubeFaceView,
    /// Depth is cleared to the far plane before drawing; there is no
    /// color attachment.
    pub clear_depth_to_far: bool,
    pub viewport_width: u32,
    pub viewport_height: u32,
    pub global_bind_group_id: u64,
    pub pass_bind_group_id: u64,
    /// Byte offset of this pass's uniform record in the shared buffer.
    pub dynamic_offset: u32,
}

/// The uniform record staged for face `face` of one shadow caster.
pub open spec fn spec_pass_uniform(
    caster: PointShadowCasterInstruction,
    face: int,
    animation_timer_ref: u64,
) -> PassUniforms {
    PassUniforms {
        view_projection_matrix_ref: caster.view_projection_matrix_refs@[face],
        light_position_ref: caster.position_ref,
        animation_timer_ref,
    }
}

/// The point-shadow pass context: the dynamically offset uniform
/// buffer, its bind group, and the staging list rebuilt every frame.
pub struct PointShadowRenderPassContext {
    pub point_shadow_texture_format: TextureFormat,
    pub uniforms_buffer: Buffer,
    pub pass_layout: BindGroupLayout,
    pub bind_group: BindGroup,
    /// Staged records, cleared and regenerated each frame, in
    /// (light slot, face) order: slot 0 faces 0..6, then slot 1, ...
    pub uniforms_data: Vec<PassUniforms>,
    /// Stride between records: the record size padded to the device's
    /// dynamic-offset alignment.
    pub aligned_size: u64,
}

impl PointShadowRenderPassContext {
    /// The buffer holds one aligned record per (slot, face) pair and
    /// the bind group references it.
    pub open spec fn well_formed(self) -> bool {
        &&& PASS_UNIFORMS_SIZE <= self.aligned_size <= PASS_UNIFORMS_SIZE + 65536
        &&& self.uniforms_buffer.element_size == 1
        &&& self.uniforms_buffer.capacity == self.aligned_size
            * NUMBER_OF_POINT_LIGHTS_WITH_SHADOWS * NUMBER_FACES
        &&& self.uniforms_buffer.usage == (BufferUsage {
            copy_dst: true,
            map_read: false,
            uniform: true,
            storage: false,
            indirect: false,
            vertex: false,
        })
        &&& self.bind_group.layout_id == self.pass_layout.id
        &&& self.bind_group.entries@ == seq![self.uniforms_buffer.id]
    }

    /// Creates the pass context: computes the aligned record stride
    /// from the device limit, allocates the uniform buffer with one
    /// record per (slot, face) pair, and binds it.
    pub fn new(
        device: &mut GraphicsDevice,
        layouts: &BindGroupLayouts,
        global_context: &GlobalContext,
    ) -> (result: PointShadowRenderPassContext)
        requires
            old(device).valid(),
            old(device).next_id <= u64::MAX - 4,
        ensures
            result.well_formed(),
            result.aligned_size == ceil_div(
                PASS_UNIFORMS_SIZE as int,
                old(device).min_uniform_buffer_offset_alignment as int,
            ) * old(device).min_uniform_buffer_offset_alignment,
            result.aligned_size as int % old(device).min_uniform_buffer_offset_alignment as int
                == 0,
            result.aligned_size < PASS_UNIFORMS_SIZE
                + old(device).min_uniform_buffer_offset_alignment,
            result.pass_layout == layouts.point_shadow_pass,
            result.point_shadow_texture_format
                == global_context.point_shadow_map_textures.format,
            result.uniforms_data@ =~= Seq::<PassUniforms>::empty(),
            old(device).next_id <= final(device).next_id,
            final(device).next_id <= old(device).next_id + 4,
            final(device).same_limits(*old(device)),
    {
        let point_shadow_texture_format = global_context.point_shadow_map_textures.format;

        let uniform_alignment = device.min_uniform_buffer_offset_alignment as u64;
        let aligned_size = align_up(PASS_UNIFORMS_SIZE, uniform_alignment);
        let shadow_slots: u64 = NUMBER_OF_POINT_LIGHTS_WITH_SHADOWS as u64;
        let face_slots: u64 = NUMBER_FACES as u64;
        let record_slots = shadow_slots * face_slots;
        proof {
            assert(aligned_size <= 65536 + 96);
            assert(aligned_size * record_slots <= 65632 * 36) by (nonlinear_arith)
                requires
                    0 <= aligned_size <= 65632,
                    record_slots == 36,
            ;
        }
        let buffer_size = aligned_size * record_slots;

        let uniforms_buffer = Buffer::with_capacity(
            device,
            BufferUsage {
                copy_dst: true,
                map_read: false,
                uniform: true,
                storage: false,
                indirect: false,
                vertex: false,
            },
            1,
            buffer_size,
        );

        let bind_group = Self::create_bind_group(
            device,
            &layouts.point_shadow_pass,
            &uniforms_buffer,
        );

        PointShadowRenderPassContext {
            point_shadow_texture_format,
            uniforms_buffer,
            pass_layout: layouts.point_shadow_pass,
            bind_group,
            uniforms_data: Vec::new(),
            aligned_size,
        }
    }

    /// Binds the shared uniform buffer with a dynamic offset slot.
    pub fn create_bind_group(
        device: &mut GraphicsDevice,
        pass_layout: &BindGroupLayout,
        uniforms_buffer: &Buffer,
    ) -> (result: BindGroup)
        requires
            old(device).next_id < u64::MAX,
        ensures
            result.layout_id == pass_layout.id,
            result.entries@ == seq![uniforms_buffer.id],
            result.id == old(device).next_id,
            final(device).next_id == old(device).next_id + 1,
            final(device).same_limits(*old(device)),
    {
        let mut entries: Vec<u64> = Vec::new();
        entries.push(uniforms_buffer.id);
        proof {
            assert(entries@ =~= seq![uniforms_buffer.id]);
        }
        BindGroup { id: device.fresh_id(), layout_id: pass_layout.id, entries }
    }

    /// Rebuilds the full per-face uniform list from the shadow-caster
    /// instructions: six records per caster, in face order, every
    /// frame from scratch.
    pub fn prepare(&mut self, instructions: &RenderInstruction)
        requires
            old(self).well_formed(),
            instructions.point_light_shadow_caster.len()
                <= NUMBER_OF_POINT_LIGHTS_WITH_SHADOWS,
        ensures
            final(self).well_formed(),
            final(self).uniforms_data@.len() == instructions.point_light_shadow_caster.len()
                * NUMBER_FACES,
            forall|k: int|
                0 <= k < final(self).uniforms_data@.len()
                    ==> #[trigger] final(self).uniforms_data@[k] == spec_pass_uniform(
                    instructions.point_light_shadow_caster@[k / NUMBER_FACES as int],
                    k % NUMBER_FACES as int,
                    instructions.uniforms.animation_timer_ref,
                ),
            final(self).uniforms_buffer == old(self).uniforms_buffer,
            final(self).bind_group == old(self).bind_group,
            final(self).pass_layout == old(self).pass_layout,
            final(self).aligned_size == old(self).aligned_size,
            final(self).point_shadow_texture_format == old(self).point_shadow_texture_format,
    {
        let mut uniforms_data: Vec<PassUniforms> = Vec::new();
        let caster_count = instructions.point_light_shadow_caster.len();
        let animation_timer_ref = instructions.uniforms.animation_timer_ref;

        let mut i: usize = 0;
        while i < caster_count
            invariant
                caster_count == instructions.point_light_shadow_caster.len(),
                caster_count <= NUMBER_OF_POINT_LIGHTS_WITH_SHADOWS,
                i <= caster_count,
                uniforms_data@.len() == i * NUMBER_FACES,
                forall|k: int|
                    0 <= k < uniforms_data@.len() ==> #[trigger] uniforms_data@[k]
                        == spec_pass_uniform(
                        instructions.point_light_shadow_caster@[k / NUMBER_FACES as int],
                        k % NUMBER_FACES as int,
                        animation_timer_ref,
                    ),
            decreases caster_count - i,
        {
            let caster = instructions.point_light_shadow_caster[i];
            let mut face_index: usize = 0;
            while face_index < NUMBER_FACES
                invariant
                    caster_count == instructions.point_light_shadow_caster.len(),
                    caster_count <= NUMBER_OF_POINT_LIGHTS_WITH_SHADOWS,
                    i < caster_count,
                    face_index <= NUMBER_FACES,
                    caster == instructions.point_light_shadow_caster@[i as int],
                    uniforms_data@.len() == i * NUMBER_FACES + face_index,
                    forall|k: int|
                        0 <= k < uniforms_data@.len() ==> #[trigger] uniforms_data@[k]
                            == spec_pass_uniform(
                            instructions.point_light_shadow_caster@[k / NUMBER_FACES as int],
                            k % NUMBER_FACES as int,
                            animation_timer_ref,
                        ),
                decreases NUMBER_FACES - face_index,
            {
                proof {
                    vstd::arithmetic::div_mod::lemma_fundamental_div_mod_converse(
                        (i * NUMBER_FACES + face_index) as int,
                        NUMBER_FACES as int,
                        i as int,
                        face_index as int,
                    );
                }
                uniforms_data.push(
                    PassUniforms {
                        view_projection_matrix_ref: caster.view_projection_matrix_refs[face_index],
                        light_position_ref: caster.position_ref,
                        animation_timer_ref,
                    },
                );
                face_index += 1;
            }
            i += 1;
        }

        self.uniforms_data = uniforms_data;
    }

    /// Uploads the serialised record block.  The buffer was allocated
    /// at its fixed full size, so the write never reallocates and the
    /// bind group never needs a rebuild.
    pub fn upload(&mut self, device: &mut GraphicsDevice) -> (rebuilt: bool)
        requires
            old(self).well_formed(),
            old(device).ids_available(),
        ensures
            final(self).well_formed(),
            !rebuilt,
            *final(device) == *old(device),
            final(self).uniforms_buffer == (Buffer {
                count: old(self).uniforms_buffer.capacity,
                ..old(self).uniforms_buffer
            }),
            final(self).bind_group == old(self).bind_group,
            final(self).pass_layout == old(self).pass_layout,
            final(self).uniforms_data == old(self).uniforms_data,
            final(self).aligned_size == old(self).aligned_size,
            final(self).point_shadow_texture_format == old(self).point_shadow_texture_format,
    {
        let byte_count = self.uniforms_buffer.capacity;
        let recreated = self.uniforms_buffer.write(device, byte_count);

        if recreated {
            self.bind_group = Self::create_bind_group(
                device,
                &self.pass_layout,
                &self.uniforms_buffer,
            );
        }
        recreated
    }

    /// Describes the depth-only pass into one cube face: the dynamic
    /// offset selects the (slot, face) record, the target is that
    /// face's view, the viewport is the configured shadow resolution
    /// and depth is cleared to the far plane.
    pub fn create_pass(
        &self,
        global_context: &GlobalContext,
        pass_data: PointShadowData,
    ) -> (result: PointShadowPass)
        requires
            self.well_formed(),
            global_context.well_formed(),
            pass_data.shadow_caster_index < NUMBER_OF_POINT_LIGHTS_WITH_SHADOWS,
            pass_data.face_index < NUMBER_FACES,
        ensures
            result.dynamic_offset == (pass_data.shadow_caster_index * NUMBER_FACES
                + pass_data.face_index) * self.aligned_size,
            result.target == (CubeFaceView {
                texture_id: global_context.point_shadow_map_textures.id,
                slot: pass_data.shadow_caster_index as u32,
                face: pass_data.face_index as u32,
            }),
            result.clear_depth_to_far,
            result.viewport_width == global_context.point_shadow_size.width,
            result.viewport_height == global_context.point_shadow_size.height,
            result.global_bind_group_id == global_context.global_bind_group.id,
            result.pass_bind_group_id == self.bind_group.id,
    {
        proof {
            assert((pass_data.shadow_caster_index * NUMBER_FACES + pass_data.face_index)
                * self.aligned_size <= 35 * (PASS_UNIFORMS_SIZE + 65536)) by (nonlinear_arith)
                requires
                    0 <= pass_data.shadow_caster_index < 6,
                    0 <= pass_data.face_index < 6,
                    0 < self.aligned_size <= PASS_UNIFORMS_SIZE + 65536,
            ;
        }
        let record_index = pass_data.shadow_caster_index * NUMBER_FACES + pass_data.face_index;
        let dynamic_offset = (record_index as u64) * self.aligned_size;

        let target = global_context.point_shadow_map_textures.face_view(
            pass_data.shadow_caster_index as u32,
            pass_data.face_index as u32,
        );

        PointShadowPass {
            target,
            clear_depth_to_far: true,
            viewport_width: global_context.point_shadow_size.width,
            viewport_height: global_context.point_shadow_size.height,
            global_bind_group_id: global_context.global_bind_group.id,
            pass_bind_group_id: self.bind_group.id,
            dynamic_offset: dynamic_offset as u32,
        }
    }
}

/// Dynamic offsets of the point-shadow pass never alias: for two
/// distinct (light slot, face) pairs, the two byte ranges of one
/// aligned record each are disjoint.  With the offset of pair
/// `(l, f)` being `(l * 6 + f) * aligned_size`, distinct pairs give
/// record indices at least one apart, so the ranges cannot overlap.
pub proof fn lemma_point_shadow_offsets_disjoint(
    aligned_size: int,
    l1: int,
    f1: int,
    l2: int,
    f2: int,
)
    requires
        aligned_size >= 1,
        0 <= l1 < NUMBER_OF_POINT_LIGHTS_WITH_SHADOWS,
        0 <= f1 < NUMBER_FACES,
        0 <= l2 < NUMBER_OF_POINT_LIGHTS_WITH_SHADOWS,
        0 <= f2 < NUMBER_FACES,
        l1 != l2 || f1 != f2,
    ensures
        ({
            let offset1 = (l1 * NUMBER_FACES + f1) * aligned_size;
            let offset2 = (l2 * NUMBER_FACES + f2) * aligned_size;
            offset1 + aligned_size <= offset2 || offset2 + aligned_size <= offset1
        }),
{
    let k1 = l1 * NUMBER_FACES + f1;
    let k2 = l2 * NUMBER_FACES + f2;
    assert(k1 != k2) by (nonlinear_arith)
        requires
            0 <= f1 < 6,
            0 <= f2 < 6,
            0 <= l1,
            0 <= l2,
            k1 == l1 * 6 + f1,
            k2 == l2 * 6 + f2,
            l1 != l2 || f1 != f2,
    ;
    if k1 < k2 {
        assert((k1 + 1) * aligned_size <= k2 * aligned_size) by (nonlinear_arith)
            requires
                aligned_size >= 1,
                k1 + 1 <= k2,
        ;
        assert((k1 + 1) * aligned_size == k1 * aligned_size + aligned_size) by (nonlinear_arith);
    } else {
        assert((k2 + 1) * aligned_size <= k1 * aligned_size) by (nonlinear_arith)
            requires
                aligned_size >= 1,
                k2 + 1 <= k1,
        ;
        assert((k2 + 1) * aligned_size == k2 * aligned_size + aligned_size) by (nonlinear_arith);
    }
}

} // verus!
