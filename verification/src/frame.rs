//! Frame orchestration: one frame stages every resource owner from
//! the instruction snapshot, then uploads all staged data in one
//! batch, in dependency order — light data is staged before the bind
//! groups that reference it can be rebuilt, and every upload happens
//! before any pass encoding reads the buffers.

use vstd::prelude::*;

use crate::context::{GlobalContext, POINT_LIGHT_DATA_SIZE};
use crate::device::GraphicsDevice;
use crate::forward::{ForwardModelDrawer, INSTANCE_DATA_SIZE};
use crate::instruction::RenderInstruction;
use crate::point_shadow::PointShadowRenderPassContext;

verus! {

/// Which bind groups a frame's upload step had to rebuild.
#[derive(Clone, Copy, PartialEq, Eq, Structural, Debug)]
pub struct FrameRebuilds {
    /// The context's shared bind groups, rebuilt when a shared buffer
    /// grew.
    pub context_bind_groups: bool,
    /// The forward drawer's bind group, rebuilt when the instance
    /// buffer grew.
    pub forward_bind_group: bool,
}

/// Stages and uploads one frame for every resource owner.
///
/// The staging half is pure bookkeeping; the upload half writes the
/// staged records and rebuilds a bind group only where a buffer had
/// to grow, so that under steady-state scene sizes a frame touches no
/// bind group at all.
pub fn render_frame(
    device: &mut GraphicsDevice,
    context: &mut GlobalContext,
    forward_drawer: &mut ForwardModelDrawer,
    point_shadow_pass: &mut PointShadowRenderPassContext,
    instructions: &RenderInstruction,
) -> (rebuilds: FrameRebuilds)
    requires
        old(context).well_formed(),
        old(forward_drawer).well_formed(),
        old(point_shadow_pass).well_formed(),
        instructions.valid(),
        instructions.point_light_shadow_caster.len()
            <= crate::context::NUMBER_OF_POINT_LIGHTS_WITH_SHADOWS,
        old(device).next_id <= u64::MAX - 192,
    ensures
        final(context).well_formed(),
        final(forward_drawer).well_formed(),
        final(point_shadow_pass).well_formed(),
        // The staged light list of this frame, as `prepare` leaves it;
        // uploading changes no staged record.
        final(context).point_light_data@.len() == instructions.point_light_shadow_caster.len()
            + instructions.point_light.len(),
        final(context).global_uniforms.point_light_count
            == instructions.point_light_shadow_caster.len() + instructions.point_light.len(),
        final(point_shadow_pass).uniforms_data@.len()
            == instructions.point_light_shadow_caster.len() * crate::point_shadow::NUMBER_FACES,
        // The context rebuilds its bind groups exactly when the staged
        // lights outgrew the point-light buffer.
        rebuilds.context_bind_groups == (instructions.point_light_shadow_caster.len()
            + instructions.point_light.len() > 0 && (
        instructions.point_light_shadow_caster.len() + instructions.point_light.len())
            * POINT_LIGHT_DATA_SIZE > old(context).point_light_data_buffer.capacity),
        // The drawer rebuilds its bind group exactly when this frame's
        // staged instances (or, with no models, last frame's) outgrew
        // the instance buffer.
        rebuilds.forward_bind_group == ({
            let staged = if instructions.models.len() > 0 {
                instructions.models.len() as u64
            } else {
                old(forward_drawer).instance_data.len() as u64
            };
            staged * INSTANCE_DATA_SIZE > old(forward_drawer).instance_data_buffer.capacity
        }),
        // Screen and shadow resources are never touched by a frame.
        final(context).screen_size == old(context).screen_size,
        final(context).directional_shadow_map_texture == old(
            context,
        ).directional_shadow_map_texture,
        final(context).point_shadow_map_textures == old(context).point_shadow_map_textures,
        final(context).forward_color_texture == old(context).forward_color_texture,
        final(context).anti_aliasing_resources == old(context).anti_aliasing_resources,
        final(device).same_limits(*old(device)),
{
    context.prepare(instructions);
    forward_drawer.prepare(instructions);
    point_shadow_pass.prepare(instructions);

    let context_bind_groups = context.upload(device);
    let forward_bind_group = forward_drawer.upload(device);
    let _ = point_shadow_pass.upload(device);

    FrameRebuilds { context_bind_groups, forward_bind_group }
}

} // verus!
