//! GPU image resource models: attachment, storage and cube-array
//! textures, and the factory that applies consistent sizing rules.

use vstd::prelude::*;

use crate::device::GraphicsDevice;
use crate::screen::ScreenSize;

verus! {

/// Texel formats the renderer allocates.
#[derive(Clone, Copy, PartialEq, Eq, Structural, Debug)]
pub enum TextureFormat {
    Rgba8Unorm,
    Rgba8UnormSrgb,
    Rgba16Float,
    Rg32Uint,
    R32Uint,
    R8Uint,
    Depth32Float,
}

/// Usage category of an attachment texture; it fixes which usage flags
/// and view dimensions the attachment is created with.
#[derive(Clone, Copy, PartialEq, Eq, Structural, Debug)]
pub enum AttachmentTextureType {
    /// Render target, sampled by later passes.
    ColorAttachment,
    /// Render target that compute passes also access as a storage
    /// image.
    ColorStorageAttachment,
    /// Depth target, sampled by later passes.
    Depth,
    /// Depth target only used while rendering.
    DepthAttachment,
    /// Render target copied to a read-back buffer for picking.
    PickerAttachment,
}

/// A texture usable as a render-pass color or depth target.
#[derive(Clone, Copy, PartialEq, Eq, Structural, Debug)]
pub struct AttachmentTexture {
    pub id: u64,
    pub width: u32,
    pub height: u32,
    pub sample_count: u32,
    pub format: TextureFormat,
    pub texture_type: AttachmentTextureType,
}

/// A texture compute passes write through storage-image bindings.
#[derive(Clone, Copy, PartialEq, Eq, Structural, Debug)]
pub struct StorageTexture {
    pub id: u64,
    pub width: u32,
    pub height: u32,
    pub format: TextureFormat,
}

impl StorageTexture {
    pub fn new(
        device: &mut GraphicsDevice,
        width: u32,
        height: u32,
        format: TextureFormat,
    ) -> (result: StorageTexture)
        requires
            old(device).next_id < u64::MAX,
            width >= 1,
            height >= 1,
        ensures
            result == (StorageTexture { id: old(device).next_id, width, height, format }),
            final(device).next_id == old(device).next_id + 1,
            final(device).min_uniform_buffer_offset_alignment == old(
                device,
            ).min_uniform_buffer_offset_alignment,
    {
        StorageTexture { id: device.fresh_id(), width, height, format }
    }
}

/// An array of cube textures, one face set per point-light shadow slot,
/// with one renderable 2D view per (slot, face) pair.
#[derive(Clone, Copy, PartialEq, Eq, Structural, Debug)]
pub struct CubeArrayTexture {
    pub id: u64,
    /// Edge length of one face, in pixels.
    pub face_size: u32,
    pub format: TextureFormat,
    pub texture_type: AttachmentTextureType,
    /// Number of cube slots in the array.
    pub count: u32,
}

/// A renderable 2D view of one face of one slot of a cube-array
/// texture.
#[derive(Clone, Copy, PartialEq, Eq, Structural, Debug)]
pub struct CubeFaceView {
    pub texture_id: u64,
    pub slot: u32,
    pub face: u32,
}

impl CubeArrayTexture {
    pub fn new(
        device: &mut GraphicsDevice,
        face_size: ScreenSize,
        format: TextureFormat,
        texture_type: AttachmentTextureType,
        count: u32,
    ) -> (result: CubeArrayTexture)
        requires
            old(device).next_id < u64::MAX,
            face_size.width == face_size.height,
            face_size.width >= 1,
            count >= 1,
        ensures
            result == (CubeArrayTexture {
                id: old(device).next_id,
                face_size: face_size.width,
                format,
                texture_type,
                count,
            }),
            final(device).next_id == old(device).next_id + 1,
            final(device).min_uniform_buffer_offset_alignment == old(
                device,
            ).min_uniform_buffer_offset_alignment,
    {
        CubeArrayTexture { id: device.fresh_id(), face_size: face_size.width, format, texture_type, count }
    }

    /// The renderable view of face `face` of slot `slot`.
    pub fn face_view(&self, slot: u32, face: u32) -> (result: CubeFaceView)
        requires
            slot < self.count,
            face < 6,
        ensures
            result == (CubeFaceView { texture_id: self.id, slot, face }),
    {
        CubeFaceView { texture_id: self.id, slot, face }
    }
}

/// Creates attachment textures that share one size, sample count and
/// optional width override, so that attachments that must match (a
/// color target and its depth target) cannot drift apart.
pub struct AttachmentTextureFactory {
    pub size: ScreenSize,
    pub sample_count: u32,
    pub width_override: Option<u32>,
}

impl AttachmentTextureFactory {
    pub fn new(size: ScreenSize, sample_count: u32, width_override: Option<u32>) -> (result:
        AttachmentTextureFactory)
        requires
            size.width >= 1,
            size.height >= 1,
            sample_count >= 1,
            width_override is Some ==> width_override->0 >= 1,
        ensures
            result == (AttachmentTextureFactory { size, sample_count, width_override }),
    {
        AttachmentTextureFactory { size, sample_count, width_override }
    }

    /// Width the factory stamps on new attachments: the shared width,
    /// unless an override (for copy-alignment padding) was given.
    pub open spec fn effective_width(self) -> u32 {
        match self.width_override {
            Some(width) => width,
            None => self.size.width,
        }
    }

    /// Creates one attachment with the factory's shared dimensions.
    pub fn new_attachment(
        &self,
        device: &mut GraphicsDevice,
        format: TextureFormat,
        texture_type: AttachmentTextureType,
    ) -> (result: AttachmentTexture)
        requires
            old(device).next_id < u64::MAX,
        ensures
            result == (AttachmentTexture {
                id: old(device).next_id,
                width: self.effective_width(),
                height: self.size.height,
                sample_count: self.sample_count,
                format,
                texture_type,
            }),
            final(device).next_id == old(device).next_id + 1,
            final(device).min_uniform_buffer_offset_alignment == old(
                device,
            ).min_uniform_buffer_offset_alignment,
    {
        let width = match self.width_override {
            Some(width) => width,
            None => self.size.width,
        };
        AttachmentTexture {
            id: device.fresh_id(),
            width,
            height: self.size.height,
            sample_count: self.sample_count,
            format,
            texture_type,
        }
    }
}

} // verus!
