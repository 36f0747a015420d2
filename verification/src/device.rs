//! The device model: resource identities, device limits, bind-group
//! layouts and samplers.
//!
//! The crate never talks to a graphics device itself.  It decides which
//! resources exist and records each one with a fresh identity drawn
//! from [`GraphicsDevice`]; the embedding application mirrors those
//! decisions with real device objects.  Two resource records with the
//! same identity describe the same device object, so a contract stating
//! that an identity is unchanged states that no reallocation happened.

use vstd::prelude::*;

use crate::settings::TextureSamplerType;

verus! {

/// Upper bound on the identities a single rebuild step may draw; every
/// compound update stays far below it.
pub const MAX_IDS_PER_REBUILD: u64 = 64;

/// Stand-in for the graphics device: a source of fresh resource
/// identities together with the device limits the crate reads.
pub struct GraphicsDevice {
    /// Next unused resource identity.
    pub next_id: u64,
    /// Required alignment, in bytes, of dynamic uniform-buffer offsets.
    pub min_uniform_buffer_offset_alignment: u32,
}

impl GraphicsDevice {
    /// Devices state the offset alignment as a small power of two; the
    /// crate only relies on it being positive and small.
    pub open spec fn valid(self) -> bool {
        1 <= self.min_uniform_buffer_offset_alignment <= 65536
    }

    /// True while enough identities are left for any one rebuild step.
    pub open spec fn ids_available(self) -> bool {
        self.next_id <= u64::MAX - MAX_IDS_PER_REBUILD
    }

    /// Drawing identities never changes the device limits.
    pub open spec fn same_limits(self, other: GraphicsDevice) -> bool {
        self.min_uniform_buffer_offset_alignment == other.min_uniform_buffer_offset_alignment
    }

    pub fn new(min_uniform_buffer_offset_alignment: u32) -> (result: GraphicsDevice)
        requires
            1 <= min_uniform_buffer_offset_alignment <= 65536,
        ensures
            result.next_id == 0,
            result.min_uniform_buffer_offset_alignment == min_uniform_buffer_offset_alignment,
            result.valid(),
            result.ids_available(),
    {
        GraphicsDevice { next_id: 0, min_uniform_buffer_offset_alignment }
    }

    /// Draws a fresh resource identity.
    pub fn fresh_id(&mut self) -> (id: u64)
        requires
            old(self).next_id < u64::MAX,
        ensures
            id == old(self).next_id,
            final(self).next_id == old(self).next_id + 1,
            final(self).min_uniform_buffer_offset_alignment == old(
                self,
            ).min_uniform_buffer_offset_alignment,
    {
        let id = self.next_id;
        self.next_id = self.next_id + 1;
        id
    }
}

/// A bind-group layout: the immutable contract between a shader and the
/// resources bound to it.  Layouts are created once per device and
/// reused for every rebuild, so a record only carries its identity and
/// the number of entries the matching bind groups must have.
#[derive(Clone, Copy, PartialEq, Eq, Structural, Debug)]
pub struct BindGroupLayout {
    pub id: u64,
    pub entry_count: usize,
}

/// The layouts shared across the whole renderer, created once at
/// context creation and passed by reference afterwards.
#[derive(Clone, Copy, PartialEq, Eq, Structural, Debug)]
pub struct BindGroupLayouts {
    /// Global uniforms and the three shared samplers.
    pub global: BindGroupLayout,
    /// Point-light storage, tile count texture, tile index storage.
    pub light_culling: BindGroupLayout,
    /// Directional light, point lights, culling output and shadow maps.
    pub forward: BindGroupLayout,
    /// Edge texture, control, candidate, indirect and blend-list buffers.
    pub cmaa2: BindGroupLayout,
    /// The single resolved color target of the anti-aliasing pass.
    pub cmaa2_output: BindGroupLayout,
    /// Debug uniforms and the inspectable intermediate textures.
    pub debug: BindGroupLayout,
    /// The dynamically offset per-face uniform of the point-shadow pass.
    pub point_shadow_pass: BindGroupLayout,
}

/// Entry counts of the shared layouts, fixed by the shader interfaces.
pub const GLOBAL_LAYOUT_ENTRIES: usize = 4;

pub const LIGHT_CULLING_LAYOUT_ENTRIES: usize = 3;

pub const FORWARD_LAYOUT_ENTRIES: usize = 6;

pub const CMAA2_LAYOUT_ENTRIES: usize = 7;

pub const CMAA2_OUTPUT_LAYOUT_ENTRIES: usize = 1;

pub const DEBUG_LAYOUT_ENTRIES: usize = 5;

pub const POINT_SHADOW_PASS_LAYOUT_ENTRIES: usize = 1;

impl BindGroupLayouts {
    /// The entry counts every layout set carries.
    pub open spec fn well_formed(self) -> bool {
        &&& self.global.entry_count == GLOBAL_LAYOUT_ENTRIES
        &&& self.light_culling.entry_count == LIGHT_CULLING_LAYOUT_ENTRIES
        &&& self.forward.entry_count == FORWARD_LAYOUT_ENTRIES
        &&& self.cmaa2.entry_count == CMAA2_LAYOUT_ENTRIES
        &&& self.cmaa2_output.entry_count == CMAA2_OUTPUT_LAYOUT_ENTRIES
        &&& self.debug.entry_count == DEBUG_LAYOUT_ENTRIES
        &&& self.point_shadow_pass.entry_count == POINT_SHADOW_PASS_LAYOUT_ENTRIES
    }

    /// Creates the shared layouts.  This happens exactly once per
    /// device; every later rebuild binds new resources to these same
    /// layouts.
    pub fn new(device: &mut GraphicsDevice) -> (result: BindGroupLayouts)
        requires
            old(device).ids_available(),
        ensures
            result.well_formed(),
            // Seven layouts, each with its own identity.
            result.global.id == old(device).next_id,
            result.light_culling.id == old(device).next_id + 1,
            result.forward.id == old(device).next_id + 2,
            result.cmaa2.id == old(device).next_id + 3,
            result.cmaa2_output.id == old(device).next_id + 4,
            result.debug.id == old(device).next_id + 5,
            result.point_shadow_pass.id == old(device).next_id + 6,
            final(device).next_id <= old(device).next_id + MAX_IDS_PER_REBUILD,
            final(device).next_id >= old(device).next_id,
            final(device).min_uniform_buffer_offset_alignment == old(
                device,
            ).min_uniform_buffer_offset_alignment,
    {
        BindGroupLayouts {
            global: BindGroupLayout { id: device.fresh_id(), entry_count: GLOBAL_LAYOUT_ENTRIES },
            light_culling: BindGroupLayout {
                id: device.fresh_id(),
                entry_count: LIGHT_CULLING_LAYOUT_ENTRIES,
            },
            forward: BindGroupLayout { id: device.fresh_id(), entry_count: FORWARD_LAYOUT_ENTRIES },
            cmaa2: BindGroupLayout { id: device.fresh_id(), entry_count: CMAA2_LAYOUT_ENTRIES },
            cmaa2_output: BindGroupLayout {
                id: device.fresh_id(),
                entry_count: CMAA2_OUTPUT_LAYOUT_ENTRIES,
            },
            debug: BindGroupLayout { id: device.fresh_id(), entry_count: DEBUG_LAYOUT_ENTRIES },
            point_shadow_pass: BindGroupLayout {
                id: device.fresh_id(),
                entry_count: POINT_SHADOW_PASS_LAYOUT_ENTRIES,
            },
        }
    }
}

/// A bound set of resources matching one layout.  The entries record
/// the identities of the bound resources in binding order, which is
/// what the consistency invariants of the renderer are stated over.
#[derive(Clone, Debug)]
pub struct BindGroup {
    pub id: u64,
    pub layout_id: u64,
    pub entries: Vec<u64>,
}

impl BindGroup {
    /// A bind group matches a layout when it was built against it with
    /// the entry count the layout demands.
    pub open spec fn matches_layout(self, layout: BindGroupLayout) -> bool {
        self.layout_id == layout.id && self.entries.len() == layout.entry_count
    }
}

/// A texture sampler, recorded with the filtering mode it was created
/// for.
#[derive(Clone, Copy, PartialEq, Eq, Structural, Debug)]
pub struct Sampler {
    pub id: u64,
    pub sampler_type: TextureSamplerType,
}

/// Creates a sampler with the given filtering mode.
pub fn create_new_sampler(device: &mut GraphicsDevice, sampler_type: TextureSamplerType) -> (result:
    Sampler)
    requires
        old(device).next_id < u64::MAX,
    ensures
        result.sampler_type == sampler_type,
        result.id == old(device).next_id,
        final(device).next_id == old(device).next_id + 1,
        final(device).min_uniform_buffer_offset_alignment == old(
            device,
        ).min_uniform_buffer_offset_alignment,
{
    Sampler { id: device.fresh_id(), sampler_type }
}

} // verus!
