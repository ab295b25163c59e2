//! The stencil plane that the passes of a frame share.

use vstd::prelude::*;
use crate::geometry::Size;
use crate::renderer::mtl::mtl_texture::{MTLPixelFormat, TextureDescriptor, TextureUsage};

verus! {

/// The description of a stencil texture of the given size: one level of
/// 8-bit stencil values that only the device touches.
pub open spec fn stencil_descriptor(size: Size) -> TextureDescriptor {
    TextureDescriptor {
        pixel_format: MTLPixelFormat::Stencil8,
        width: size.w,
        height: size.h,
        mipmapped: false,
        usage: TextureUsage { render_target: true, shader_read: false, shader_write: false },
        private_storage: true,
    }
}

pub fn create_stencil_texture_descriptor(size: Size) -> (desc: TextureDescriptor)
    ensures
        desc == stencil_descriptor(size),
{
    TextureDescriptor {
        pixel_format: MTLPixelFormat::Stencil8,
        width: size.w,
        height: size.h,
        mipmapped: false,
        usage: TextureUsage { render_target: true, shader_read: false, shader_write: false },
        private_storage: true,
    }
}

/// The stencil texture: its size, and the number of times it was made
/// anew. It only ever grows, so that targets of changing sizes do not make
/// it be allocated again and again.
#[derive(Copy, Clone, Debug, PartialEq, Eq, Structural)]
pub struct StencilTexture {
    pub size: Size,
    pub gen: u32,
}

impl StencilTexture {
    pub fn new(size: Size) -> (texture: Self)
        ensures
            texture == (StencilTexture { size, gen: 0 }),
    {
        Self { size, gen: 0 }
    }

    pub fn size(&self) -> (size: Size)
        ensures
            size == self.size,
    {
        self.size
    }

    /// The description of the texture for the device.
    pub fn descriptor(&self) -> (desc: TextureDescriptor)
        ensures
            desc == stencil_descriptor(self.size),
    {
        create_stencil_texture_descriptor(self.size)
    }

    /// The texture after it was asked to hold `size`.
    pub open spec fn resized(self, size: Size) -> StencilTexture {
        if self.size.spec_contains(size) {
            self
        } else {
            StencilTexture {
                size: size.spec_max(self.size),
                gen: if self.gen == u32::MAX {
                    0
                } else {
                    (self.gen + 1) as u32
                },
            }
        }
    }

    /// Makes the texture hold `size`. A texture that is large enough
    /// stays; otherwise it is made anew, as large as the larger of the two
    /// in each direction.
    pub fn resize(&mut self, size: Size)
        ensures
            *final(self) == old(self).resized(size),
    {
        if self.size.contains(&size) {
            return ;
        }
        let size = size.max(&self.size);
        self.size = size;
        self.gen = if self.gen == u32::MAX {
            0
        } else {
            self.gen + 1
        };
    }
}

/// The stencil texture grows only: after a resize it holds what it held
/// before and what was asked for, and a second request for the same size
/// changes nothing.
pub proof fn lemma_stencil_grows(texture: StencilTexture, size: Size)
    ensures
        texture.resized(size).size.spec_contains(texture.size),
        texture.resized(size).size.spec_contains(size),
        texture.resized(size).resized(size) == texture.resized(size),
        texture.resized(size).resized(texture.size) == texture.resized(size),
{
}

} // verus!
