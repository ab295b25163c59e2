//! The operations that a frame consists of.

use vstd::prelude::*;
use crate::geometry::Size;
use crate::image::ImageId;
use crate::paint::{Color, Params};
use crate::renderer::mtl::rps_cache::{PipelineKind, RPS};
use crate::renderer::mtl::stencil::StencilState;
use crate::renderer::mtl::stencil_texture::StencilTexture;
use crate::renderer::RenderTarget;

verus! {

/// Which triangles the device drops by their facing.
#[derive(Copy, Clone, Debug, PartialEq, Eq, Structural)]
pub enum CullMode {
    /// Draws triangles of both facings.
    Off,
    /// Drops back-facing triangles.
    Back,
}

/// How the device assembles vertices into triangles.
#[derive(Copy, Clone, Debug, PartialEq, Eq, Structural)]
pub enum Primitive {
    Triangle,
    TriangleStrip,
}

/// The texture bound to a slot of the fragment stage.
#[derive(Copy, Clone, Debug, PartialEq, Eq, Structural)]
pub enum TextureSlot {
    /// The one-pixel texture that stands in where a draw has no image.
    Pseudo,
    Image(ImageId),
}

/// One operation on the graphics device. A frame is a list of these, in
/// the order in which the device has to see them.
#[derive(Copy, Clone, Debug, PartialEq, Eq, Structural)]
pub enum EncoderOp {
    /// Opens a render pass on `target`: color is loaded and stored, the
    /// stencil plane `stencil` starts at zero and is not kept. The pass
    /// begins with back-face culling, counter-clockwise front faces,
    /// stencil reference zero, a viewport of `view_size` and the frame's
    /// vertices bound. With `acquire`, the screen's next drawable is
    /// asked for first.
    BeginPass {
        target: RenderTarget,
        acquire: bool,
        clear_color: Color,
        view_size: Size,
        stencil: StencilTexture,
    },
    /// Closes the open render pass.
    EndPass,
    /// Binds a pipeline of a set.
    Pipeline { rps: RPS, kind: PipelineKind },
    Cull(CullMode),
    Stencil(StencilState),
    /// Binds the uniform block and the two textures of the fragment stage.
    Uniforms { paint: Params, image: TextureSlot, alpha: TextureSlot },
    /// Draws `index_count` indices as triangles, beginning `byte_offset`
    /// bytes into the index buffer.
    DrawIndexed { index_count: usize, byte_offset: usize },
    /// Draws `count` vertices from `start`.
    Draw { primitive: Primitive, start: usize, count: usize },
    /// Restricts drawing to a rectangle of the target.
    Scissor { x: usize, y: usize, width: usize, height: usize },
    /// Draws one quad over the whole target in one color.
    ClearQuad { color: Color },
    /// Binds the frame's vertices and the view size again.
    BindVertices { view_size: Size },
    /// Presents the screen's drawable.
    Present,
}

} // verus!
