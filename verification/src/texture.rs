//! Texture data model: the dimensions, format and contents the pipeline
//! reasons about. The backend object itself lives with whoever drives the
//! graphics API; `handle` records the object name the backend assigned.

use vstd::prelude::*;
use crate::framebuffer::{AttachmentPoint, TexelFormat};

verus! {

/// What a texture's texels come from.
#[derive(Debug)]
pub enum TextureType {
    /// Loaded image bytes, uploaded once.
    Data(Vec<u8>),
    /// Storage written by rendering into a framebuffer.
    FramebufferAttachment(AttachmentPoint),
}

/// A texture as the pipeline sees it.
#[derive(Debug)]
pub struct Texture {
    /// Backend object name, assigned by the backend at creation.
    pub handle: u32,
    pub internal_format: TexelFormat,
    pub dimensions: (u32, u32),
    pub texture_type: TextureType,
}

impl Texture {
    /// A texture backing a framebuffer attachment.
    pub fn create_with_attachment(
        handle: u32,
        internal_format: TexelFormat,
        dimensions: (u32, u32),
        attachment_point: AttachmentPoint,
    ) -> (r: Self)
        ensures
            r.handle == handle,
            r.internal_format == internal_format,
            r.dimensions == dimensions,
            r.texture_type == TextureType::FramebufferAttachment(attachment_point),
    {
        Texture {
            handle,
            internal_format,
            dimensions,
            texture_type: TextureType::FramebufferAttachment(attachment_point),
        }
    }

    /// A texture holding loaded image bytes.
    pub fn create_with_data(
        handle: u32,
        internal_format: TexelFormat,
        dimensions: (u32, u32),
        bytes: Vec<u8>,
    ) -> (r: Self)
        ensures
            r.handle == handle,
            r.internal_format == internal_format,
            r.dimensions == dimensions,
            r.texture_type matches TextureType::Data(b) && b@ == bytes@,
    {
        Texture { handle, internal_format, dimensions, texture_type: TextureType::Data(bytes) }
    }
}

} // verus!
