//! The command and vertex model and the renderer interface.

use vstd::prelude::*;
use crate::error::ErrorKind;
use crate::geometry::Size;
use crate::image::{ImageId, ImageInfo, ImageSource, ImageStore};
use crate::paint::{Color, CompositeOperationState, FillRule, Params};

pub mod mtl;
pub mod void;

pub use mtl::MtlTexture;
pub use void::Void;

verus! {

/// The geometry of one path of a command: a range of fill vertices and a
/// range of vertices of the anti-aliasing fringe, each as `(start, count)`
/// into the vertex array of the frame.
#[derive(Copy, Clone, Debug, Default)]
pub struct Drawable {
    pub fill_verts: Option<(usize, usize)>,
    pub stroke_verts: Option<(usize, usize)>,
}

/// The surface that receives the output of draws.
#[derive(Copy, Clone, Debug, PartialEq, Eq, Structural)]
pub enum RenderTarget {
    /// No surface; never a legal operand.
    Unset,
    Screen,
    Image(ImageId),
}

/// What a command does.
#[derive(Copy, Clone, Debug, PartialEq, Eq, Structural)]
pub enum CommandType {
    SetRenderTarget(RenderTarget),
    ClearRect { x: u32, y: u32, width: u32, height: u32, color: Color },
    ConvexFill { params: Params },
    ConcaveFill { stencil_params: Params, fill_params: Params },
    Stroke { params: Params },
    StencilStroke { params1: Params, params2: Params },
    Triangles { params: Params },
}

/// One entry of the ordered command list of a frame.
pub struct Command {
    pub cmd_type: CommandType,
    pub drawables: Vec<Drawable>,
    pub triangles_verts: Option<(usize, usize)>,
    pub image: Option<ImageId>,
    pub alpha_mask: Option<ImageId>,
    pub fill_rule: FillRule,
    pub composite_operation: CompositeOperationState,
}

impl Command {
    /// A command of the given type with no geometry, no images, the
    /// non-zero fill rule and source-over blending.
    pub fn new(cmd_type: CommandType) -> (cmd: Self)
        ensures
            cmd.cmd_type == cmd_type,
            cmd.drawables@ == Seq::<Drawable>::empty(),
            cmd.triangles_verts.is_none(),
            cmd.image.is_none(),
            cmd.alpha_mask.is_none(),
            cmd.fill_rule == FillRule::NonZero,
            cmd.composite_operation == CompositeOperationState::source_over(),
    {
        Self {
            cmd_type,
            drawables: Vec::new(),
            triangles_verts: None,
            image: None,
            alpha_mask: None,
            fill_rule: FillRule::default(),
            composite_operation: CompositeOperationState::default(),
        }
    }
}

/// Token of a backend for reusing its per-frame resources.
pub trait BufferCache {

}

/// The token of a backend that reuses nothing.
pub struct VoidCache {
    _inner: u32,
}

impl VoidCache {
    /// What the token holds; always zero.
    pub closed spec fn token(&self) -> u32 {
        self._inner
    }

    pub fn new() -> (cache: Self)
        ensures
            cache.token() == 0,
    {
        Self { _inner: 0 }
    }
}

impl BufferCache for VoidCache {

}

/// A vertex of the frame's geometry: position and texture coordinate,
/// each as the bit pattern of a single-precision value. Four 32-bit
/// fields, tightly packed.
#[derive(Copy, Clone, Debug, PartialEq, Eq, Structural, Default)]
pub struct Vertex {
    pub x: u32,
    pub y: u32,
    pub u: u32,
    pub v: u32,
}

impl Vertex {
    pub fn new(x: u32, y: u32, u: u32, v: u32) -> (vertex: Self)
        ensures
            vertex == (Vertex { x, y, u, v }),
    {
        Self { x, y, u, v }
    }

    pub fn set(&mut self, x: u32, y: u32, u: u32, v: u32)
        ensures
            *final(self) == (Vertex { x, y, u, v }),
    {
        *self = Self { x, y, u, v };
    }
}

/// Which program the fragment stage runs.
#[derive(Copy, Clone, Debug, PartialEq, Eq, Structural)]
pub enum ShaderType {
    FillGradient,
    FillImage,
    Stencil,
}

impl Default for ShaderType {
    fn default() -> (shader: ShaderType)
        ensures
            shader == ShaderType::FillGradient,
    {
        Self::FillGradient
    }
}

impl ShaderType {
    /// The number of the shader as the fragment stage reads it: the bit
    /// pattern of the single-precision value 0.0, 1.0 or 2.0.
    pub open spec fn spec_to_f32(self) -> u32 {
        match self {
            ShaderType::FillGradient => 0,
            ShaderType::FillImage => 0x3F80_0000,
            ShaderType::Stencil => 0x4000_0000,
        }
    }

    pub fn to_f32(self) -> (bits: u32)
        ensures
            bits == self.spec_to_f32(),
    {
        match self {
            Self::FillGradient => 0,
            Self::FillImage => 0x3F80_0000,
            Self::Stencil => 0x4000_0000,
        }
    }
}

/// Pixels read back from a render target, four bytes per pixel in the
/// order red, green, blue, alpha, row by row from the top.
pub struct PixelBuffer {
    pub width: usize,
    pub height: usize,
    pub data: Vec<u8>,
}

/// Whether an update of `width` by `height` pixels at `(x, y)` reaches
/// outside an image described by `info`.
pub open spec fn update_exceeds(info: ImageInfo, x: usize, y: usize, width: usize, height: usize) -> bool {
    x + width > info.spec_width() || y + height > info.spec_height()
}

/// What an update must fail with, if the pixels themselves decide
/// nothing: the bounds are tested first, then the format.
pub open spec fn update_rejection(info: ImageInfo, data: ImageSource, x: usize, y: usize) -> Option<
    ErrorKind,
> {
    if update_exceeds(info, x, y, data.spec_dimensions().0, data.spec_dimensions().1) {
        Some(ErrorKind::ImageUpdateOutOfBounds)
    } else if info.spec_format() != data.spec_format() {
        Some(ErrorKind::ImageUpdateWithDifferentFormat)
    } else {
        None
    }
}

/// An update that reaches outside the image is rejected as out of
/// bounds, wherever it lies and whatever its size and format; one inside
/// the image is rejected for its format exactly if that differs from the
/// image's; and nothing else is rejected.
pub proof fn lemma_update_rejections(info: ImageInfo, data: ImageSource, x: usize, y: usize)
    ensures
        update_exceeds(info, x, y, data.spec_dimensions().0, data.spec_dimensions().1)
            ==> update_rejection(info, data, x, y) == Some(ErrorKind::ImageUpdateOutOfBounds),
        !update_exceeds(info, x, y, data.spec_dimensions().0, data.spec_dimensions().1)
            && info.spec_format() != data.spec_format() ==> update_rejection(info, data, x, y)
            == Some(ErrorKind::ImageUpdateWithDifferentFormat),
        update_rejection(info, data, x, y) is None <==> x + data.spec_dimensions().0
            <= info.spec_width() && y + data.spec_dimensions().1 <= info.spec_height()
            && info.spec_format() == data.spec_format(),
{
}

/// Tests an update against the image it is meant for.
pub fn check_update(info: ImageInfo, data: ImageSource, x: usize, y: usize) -> (result: Result<
    (),
    ErrorKind,
>)
    ensures
        result == match update_rejection(info, data, x, y) {
            Some(e) => Err::<(), ErrorKind>(e),
            None => Ok(()),
        },
{
    let size = data.dimensions();
    match x.checked_add(size.0) {
        Some(right) => {
            if right > info.width() {
                return Err(ErrorKind::ImageUpdateOutOfBounds);
            }
        },
        None => {
            return Err(ErrorKind::ImageUpdateOutOfBounds);
        },
    }
    match y.checked_add(size.1) {
        Some(bottom) => {
            if bottom > info.height() {
                return Err(ErrorKind::ImageUpdateOutOfBounds);
            }
        },
        None => {
            return Err(ErrorKind::ImageUpdateOutOfBounds);
        },
    }
    if info.format() != data.format() {
        return Err(ErrorKind::ImageUpdateWithDifferentFormat);
    }
    Ok(())
}

/// The interface of a graphics backend.
pub trait Renderer {
    /// The backend's token for reusing per-frame resources.
    type BufferCache: BufferCache;

    /// The logical size of what is rendered to.
    spec fn spec_view_size(&self) -> Size;

    /// Whether the backend can take a frame: on other frames `render`
    /// would have to stop half way.
    spec fn accepts(&self, images: &ImageStore, verts: Seq<Vertex>, commands: Seq<Command>) -> bool;

    /// Whether the backend can name the image `id` of `images`.
    spec fn labels(&self, images: &ImageStore, id: ImageId) -> bool;

    /// Sets the logical size; the next `render` works with it.
    fn set_size(&mut self, width: u32, height: u32)
        ensures
            final(self).spec_view_size() == (Size { w: width as usize, h: height as usize }),
    ;

    fn alloc_buffer_cache(&self) -> Self::BufferCache;

    /// Executes the command list. Returns `false` if the frame was
    /// dropped because an earlier one is still in flight.
    fn render(
        &mut self,
        images: &ImageStore,
        cache: &mut Self::BufferCache,
        verts: &[Vertex],
        commands: &[Command],
    ) -> (submitted: bool)
        requires
            old(self).accepts(images, verts@, commands@),
    ;

    /// Allocates an image after `info`.
    fn alloc_image(&mut self, info: ImageInfo) -> (result: Result<MtlTexture, ErrorKind>)
        ensures
            result matches Ok(image) ==> image.info == info,
    ;

    /// Writes `data` into `image` with its top left corner at `(x, y)`.
    /// An update that reaches outside the image fails with
    /// `ImageUpdateOutOfBounds`; one inside it whose format is not the
    /// image's fails with `ImageUpdateWithDifferentFormat`.
    fn update_image(&mut self, image: &mut MtlTexture, data: ImageSource, x: usize, y: usize) -> (result:
        Result<(), ErrorKind>)
        ensures
            final(image).info == old(image).info,
            update_rejection(old(image).info, data, x, y) matches Some(e) ==> result == Err::<
                (),
                ErrorKind,
            >(e),
    ;

    fn delete_image(&mut self, image: MtlTexture);

    /// Reads back the pixels of the current render target.
    fn screenshot(&mut self, images: &ImageStore) -> (result: Result<PixelBuffer, ErrorKind>)
        ensures
            result matches Ok(pixels) ==> pixels.data@.len() == 4 * pixels.width * pixels.height,
    ;

    /// Whether the backend's targets have their origin at the bottom.
    fn flip_y() -> bool;

    /// Whether the backend's textures have their origin at the bottom.
    fn flip_uv() -> bool;

    fn start_capture(&self);

    fn stop_capture(&self);

    /// The debugging label of an image.
    fn label(&self, images: &ImageStore, id: ImageId) -> String
        requires
            self.labels(images, id),
    ;

    /// Gives an image a debugging label. At most the label of that one
    /// image changes.
    fn set_label(&self, images: &mut ImageStore, id: ImageId, label: &str)
        requires
            self.labels(old(images), id),
        ensures
            final(images)@.dom() == old(images)@.dom(),
            final(images).spent() == old(images).spent(),
            forall|other: ImageId|
                old(images).has(other) ==> (#[trigger] final(images)@[other]).info == old(
                    images,
                )@[other].info,
            forall|other: ImageId|
                old(images).has(other) && other != id ==> #[trigger] final(images)@[other] == old(
                    images,
                )@[other],
    ;

    #[verifier::when_used_as_spec(spec_view_size)]
    fn view_size(&self) -> (size: Size)
        ensures
            size == self.spec_view_size(),
    ;
}

} // verus!
