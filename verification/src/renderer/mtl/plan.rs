//! What the planner does, as functions on mathematical values.
//!
//! The state of the planner is an [`MtlView`]; each command of a frame is
//! a function from state to state that appends operations, and a frame is
//! the composition of its commands.

use vstd::prelude::*;
use crate::fan::{fan_index_count, fan_indices};
use crate::geometry::Size;
use crate::image::ImageId;
use crate::paint::{Color, CompositeOperationState, Params};
use crate::renderer::mtl::blend::device_blend;
use crate::renderer::mtl::mtl_texture::{device_format, MTLPixelFormat, MtlTexture};
use crate::renderer::mtl::ops::{CullMode, EncoderOp, Primitive, TextureSlot};
use crate::renderer::mtl::rps_cache::{set_id, sets_after_get, sets_valid, PipelineKind, RPS};
use crate::renderer::mtl::stencil::StencilState;
use crate::renderer::mtl::stencil_texture::StencilTexture;
use crate::renderer::{Command, CommandType, Drawable, RenderTarget, Vertex};

verus! {

/// Bytes of one index.
pub const INDEX_SIZE: usize = 4;

/// Everything that the planner knows, as mathematical values.
#[verifier::ext_equal]
pub struct MtlView {
    pub antialias: bool,
    pub view_size: Size,
    pub screen_size: Size,
    pub screen_format: MTLPixelFormat,
    pub clear_color: Color,
    pub stencil_texture: StencilTexture,
    pub sets: Seq<RPS>,
    pub current_rps: Option<RPS>,
    pub indices: Seq<u32>,
    pub index_capacity: usize,
    pub vertices: Seq<Vertex>,
    pub render_target: RenderTarget,
    pub frame: usize,
    pub in_flight: bool,
    pub encoding: bool,
    pub screen_acquired: bool,
    pub ops: Seq<EncoderOp>,
}

/// Where the planner stands between two frames or within one.
#[derive(Copy, Clone, Debug, PartialEq, Eq, Structural)]
pub enum Phase {
    /// No frame is under way or in flight.
    Idle,
    /// A frame is being planned; a pass is open on the target.
    Encoding(RenderTarget),
    /// A frame is with the device, which is not done with it.
    Presenting,
}

/// The slot content for an optional image.
pub open spec fn slot_of(image: Option<ImageId>) -> TextureSlot {
    match image {
        Some(id) => TextureSlot::Image(id),
        None => TextureSlot::Pseudo,
    }
}

/// Number of indices that the fill of a drawable needs.
pub open spec fn fill_count(d: Drawable) -> int {
    match d.fill_verts {
        Some((_, count)) => fan_index_count(count as int),
        None => 0,
    }
}

/// Number of indices that the fills of `ds` need together.
pub open spec fn fills_total(ds: Seq<Drawable>) -> int
    decreases ds.len(),
{
    if ds.len() == 0 {
        0
    } else {
        fills_total(ds.drop_last()) + fill_count(ds.last())
    }
}

/// Whether the fill of a drawable can be indexed: its vertices have
/// numbers that fit the index type.
pub open spec fn fill_fits(d: Drawable) -> bool {
    match d.fill_verts {
        Some((start, count)) => start + count <= u32::MAX,
        None => true,
    }
}

/// Whether the fill of each of `ds` can be indexed.
pub open spec fn fills_fit(ds: Seq<Drawable>) -> bool {
    forall|i: int| 0 <= i < ds.len() ==> fill_fits(#[trigger] ds[i])
}

/// Whether a range of vertices lies within an array of `len` vertices.
pub open spec fn range_within(range: Option<(usize, usize)>, len: int) -> bool {
    match range {
        Some((start, count)) => start + count <= len,
        None => true,
    }
}

/// Whether both ranges of a drawable lie within an array of `len`
/// vertices.
pub open spec fn drawable_within(d: Drawable, len: int) -> bool {
    range_within(d.fill_verts, len) && range_within(d.stroke_verts, len)
}

/// Whether an optional image is one of `images`.
pub open spec fn image_known(images: Map<ImageId, MtlTexture>, image: Option<ImageId>) -> bool {
    match image {
        Some(id) => images.dom().contains(id),
        None => true,
    }
}

/// Whether a target can be rendered to: it is the screen or one of
/// `images`.
pub open spec fn target_known(images: Map<ImageId, MtlTexture>, target: RenderTarget) -> bool {
    match target {
        RenderTarget::Screen => true,
        RenderTarget::Image(id) => images.dom().contains(id),
        RenderTarget::Unset => false,
    }
}

/// Whether a command draws fans, which need indices.
pub open spec fn draws_fans(cmd_type: CommandType) -> bool {
    cmd_type is ConvexFill || cmd_type is ConcaveFill
}

/// Whether a command binds the images it carries.
pub open spec fn binds_images(cmd_type: CommandType) -> bool {
    !(cmd_type is ClearRect || cmd_type is SetRenderTarget)
}

/// Number of indices that a command needs.
pub open spec fn command_fills(cmd: Command) -> int {
    if draws_fans(cmd.cmd_type) {
        fills_total(cmd.drawables@)
    } else {
        0
    }
}

/// Number of indices that a frame needs.
pub open spec fn frame_fills(cmds: Seq<Command>) -> int
    decreases cmds.len(),
{
    if cmds.len() == 0 {
        0
    } else {
        frame_fills(cmds.drop_last()) + command_fills(cmds.last())
    }
}

/// Whether a command fits a frame of `vertex_count` vertices and the
/// images at hand: its vertex ranges lie within the vertex array, the
/// images it binds exist, and a target it sets can be rendered to.
pub open spec fn command_valid(images: Map<ImageId, MtlTexture>, vertex_count: int, cmd: Command) -> bool {
    &&& forall|i: int|
        0 <= i < cmd.drawables@.len() ==> drawable_within(#[trigger] cmd.drawables@[i], vertex_count)
    &&& range_within(cmd.triangles_verts, vertex_count)
    &&& binds_images(cmd.cmd_type) ==> image_known(images, cmd.image) && image_known(
        images,
        cmd.alpha_mask,
    )
    &&& cmd.cmd_type matches CommandType::SetRenderTarget(target) ==> target_known(images, target)
}

impl MtlView {
    /// Whether `other` is this state but for the operations planned.
    pub open spec fn only_ops_differ(self, other: MtlView) -> bool {
        other == (MtlView { ops: other.ops, ..self })
    }

    /// Whether `other` is this state but for the operations planned and
    /// the indices written.
    pub open spec fn only_recording_differs(self, other: MtlView) -> bool {
        other == (MtlView { ops: other.ops, indices: other.indices, ..self })
    }

    /// Whether `other` belongs to the same frame of the same planner:
    /// what a command never changes is the same in both.
    pub open spec fn same_frame(self, other: MtlView) -> bool {
        &&& other.antialias == self.antialias
        &&& other.screen_size == self.screen_size
        &&& other.screen_format == self.screen_format
        &&& other.clear_color == self.clear_color
        &&& other.vertices == self.vertices
        &&& other.index_capacity == self.index_capacity
        &&& other.frame == self.frame
        &&& other.in_flight == self.in_flight
        &&& other.encoding == self.encoding
    }

    /// Where the planner stands.
    pub open spec fn phase(self) -> Phase {
        if self.encoding {
            Phase::Encoding(self.render_target)
        } else if self.in_flight {
            Phase::Presenting
        } else {
            Phase::Idle
        }
    }

    /// The state with one more operation.
    pub open spec fn push(self, op: EncoderOp) -> MtlView {
        MtlView { ops: self.ops.push(op), ..self }
    }

    /// Whether the index buffer is within what was reserved for it.
    pub open spec fn wf(self) -> bool {
        &&& self.indices.len() <= self.index_capacity
        &&& INDEX_SIZE * self.index_capacity <= usize::MAX
        &&& sets_valid(self.sets)
        &&& self.current_rps matches Some(rps) ==> 0 <= rps.id < self.sets.len()
            && self.sets[rps.id as int] == rps
    }

    /// Whether the fills of `ds` can be drawn: they can be indexed and
    /// their indices find room in what was reserved.
    pub open spec fn has_room(self, ds: Seq<Drawable>) -> bool {
        fills_fit(ds) && self.indices.len() + fills_total(ds) <= self.index_capacity
    }

    pub open spec fn set_uniforms(self, paint: Params, image: Option<ImageId>, alpha: Option<ImageId>) -> MtlView {
        self.push(EncoderOp::Uniforms { paint, image: slot_of(image), alpha: slot_of(alpha) })
    }

    /// Draws the fringe of a drawable, if it has one, as a triangle
    /// strip.
    pub open spec fn draw_stroke(self, d: Drawable) -> MtlView {
        match d.stroke_verts {
            Some((start, count)) => self.push(
                EncoderOp::Draw { primitive: Primitive::TriangleStrip, start, count },
            ),
            None => self,
        }
    }

    /// Draws the fringes of `ds` in order.
    pub open spec fn draw_strokes(self, ds: Seq<Drawable>) -> MtlView
        decreases ds.len(),
    {
        if ds.len() == 0 {
            self
        } else {
            self.draw_strokes(ds.drop_last()).draw_stroke(ds.last())
        }
    }

    /// Draws the fill of a drawable, if it has one: the indices of its fan
    /// go to the end of the index buffer and are drawn from there. With
    /// `fringe`, the drawable's fringe follows.
    pub open spec fn draw_fill(self, d: Drawable, fringe: bool) -> MtlView {
        let filled = match d.fill_verts {
            Some((start, count)) => MtlView {
                ops: self.ops.push(
                    EncoderOp::DrawIndexed {
                        index_count: fan_index_count(count as int) as usize,
                        byte_offset: (INDEX_SIZE * self.indices.len()) as usize,
                    },
                ),
                indices: self.indices + fan_indices(start as u32, count as u32),
                ..self
            },
            None => self,
        };
        if fringe {
            filled.draw_stroke(d)
        } else {
            filled
        }
    }

    /// Draws the fills of `ds` in order.
    pub open spec fn draw_fills(self, ds: Seq<Drawable>, fringe: bool) -> MtlView
        decreases ds.len(),
    {
        if ds.len() == 0 {
            self
        } else {
            self.draw_fills(ds.drop_last(), fringe).draw_fill(ds.last(), fringe)
        }
    }

    /// Draws the triangle range of a command, if it has one.
    pub open spec fn draw_range(self, primitive: Primitive, range: Option<(usize, usize)>) -> MtlView {
        match range {
            Some((start, count)) => self.push(EncoderOp::Draw { primitive, start, count }),
            None => self,
        }
    }

    /// A convex fill: the fans and fringes of the command, drawn directly
    /// with the color pipeline.
    pub open spec fn convex_fill(self, cmd: Command, paint: Params) -> MtlView {
        self.push(
            EncoderOp::Pipeline { rps: self.current_rps.unwrap(), kind: PipelineKind::Color },
        ).set_uniforms(paint, cmd.image, cmd.alpha_mask).draw_fills(cmd.drawables@, true)
    }

    /// A stroke: the fringes of the command, drawn directly.
    pub open spec fn stroke(self, cmd: Command, paint: Params) -> MtlView {
        self.set_uniforms(paint, cmd.image, cmd.alpha_mask).draw_strokes(cmd.drawables@)
    }

    /// A list of triangles, drawn directly with the color pipeline.
    pub open spec fn triangles(self, cmd: Command, paint: Params) -> MtlView {
        self.set_uniforms(paint, cmd.image, cmd.alpha_mask).push(
            EncoderOp::Pipeline { rps: self.current_rps.unwrap(), kind: PipelineKind::Color },
        ).draw_range(Primitive::Triangle, cmd.triangles_verts)
    }
    /// The anti-aliasing pass of a concave fill: with anti-aliasing on,
    /// the fringes are drawn where the stencil plane shows the outside
    /// of the shape.
    pub open spec fn anti_alias_fill(self, cmd: Command) -> MtlView {
        if self.antialias {
            self.push(EncoderOp::Stencil(StencilState::FillAntiAlias(cmd.fill_rule))).draw_strokes(
                cmd.drawables@,
            )
        } else {
            self
        }
    }

    /// A concave fill. The fans are drawn into the stencil plane only,
    /// with both facings; then the fringes where the plane shows the
    /// outside; then the bounding strip where it shows the inside; then
    /// the stencil state is the default again.
    pub open spec fn concave_fill(self, cmd: Command, stencil_paint: Params, fill_paint: Params) -> MtlView {
        let rps = self.current_rps.unwrap();
        self.push(EncoderOp::Cull(CullMode::Off)).push(
            EncoderOp::Stencil(StencilState::FillShape),
        ).push(EncoderOp::Pipeline { rps, kind: PipelineKind::StencilOnly }).set_uniforms(
            stencil_paint,
            None,
            None,
        ).draw_fills(cmd.drawables@, false).push(EncoderOp::Cull(CullMode::Back)).push(
            EncoderOp::Pipeline { rps, kind: PipelineKind::Color },
        ).set_uniforms(fill_paint, cmd.image, cmd.alpha_mask).anti_alias_fill(cmd).push(
            EncoderOp::Stencil(StencilState::Fill(cmd.fill_rule)),
        ).draw_range(Primitive::TriangleStrip, cmd.triangles_verts).push(
            EncoderOp::Stencil(StencilState::Default),
        )
    }

    /// A stencilled stroke. The stroke is drawn once per pixel, then its
    /// anti-aliased rim, then the marks are cleared from the stencil
    /// plane; then the stencil state is the default again.
    pub open spec fn stencil_stroke(self, cmd: Command, paint1: Params, paint2: Params) -> MtlView {
        let rps = self.current_rps.unwrap();
        self.set_uniforms(paint2, cmd.image, cmd.alpha_mask).push(
            EncoderOp::Stencil(StencilState::StrokeShape),
        ).push(EncoderOp::Pipeline { rps, kind: PipelineKind::Color }).draw_strokes(
            cmd.drawables@,
        ).set_uniforms(paint1, cmd.image, cmd.alpha_mask).push(
            EncoderOp::Stencil(StencilState::StrokeAntiAlias),
        ).draw_strokes(cmd.drawables@).push(EncoderOp::Stencil(StencilState::StrokeClear)).push(
            EncoderOp::Pipeline { rps, kind: PipelineKind::StencilOnly },
        ).draw_strokes(cmd.drawables@).push(EncoderOp::Stencil(StencilState::Default))
    }

    /// Clears a rectangle of the target to one color: a quad over the
    /// whole target under a scissor; then scissor, pipeline and vertex
    /// bindings are as the other commands expect them.
    pub open spec fn clear_rect(self, x: u32, y: u32, width: u32, height: u32, color: Color) -> MtlView {
        let rps = self.current_rps.unwrap();
        self.push(EncoderOp::Pipeline { rps, kind: PipelineKind::ClearRect }).push(
            EncoderOp::Scissor {
                x: x as usize,
                y: y as usize,
                width: width as usize,
                height: height as usize,
            },
        ).push(EncoderOp::ClearQuad { color }).push(
            EncoderOp::Scissor { x: 0, y: 0, width: self.view_size.w, height: self.view_size.h },
        ).push(EncoderOp::Pipeline { rps, kind: PipelineKind::Color }).push(
            EncoderOp::BindVertices { view_size: self.view_size },
        )
    }

    /// Makes the set of pipelines for a composite operation and a target
    /// format the current one.
    pub open spec fn set_composite_operation(
        self,
        blend_func: CompositeOperationState,
        pixel_format: MTLPixelFormat,
    ) -> MtlView {
        let blend = device_blend(blend_func);
        MtlView {
            sets: sets_after_get(self.sets, blend, pixel_format),
            current_rps: Some(
                RPS {
                    id: set_id(self.sets, blend, pixel_format) as usize,
                    blend_func: blend,
                    pixel_format,
                },
            ),
            ..self
        }
    }

    /// The size of a target.
    pub open spec fn target_size(self, images: Map<ImageId, MtlTexture>, target: RenderTarget) -> Size {
        match target {
            RenderTarget::Screen => self.screen_size,
            RenderTarget::Image(id) => images[id].spec_size(),
            RenderTarget::Unset => self.view_size,
        }
    }

    /// The pixel format of a target.
    pub open spec fn target_format(self, images: Map<ImageId, MtlTexture>, target: RenderTarget) -> MTLPixelFormat {
        match target {
            RenderTarget::Screen => self.screen_format,
            RenderTarget::Image(id) => device_format(images[id].info.spec_format()),
            RenderTarget::Unset => MTLPixelFormat::Invalid,
        }
    }

    /// Makes `target` the current target and its size the view size.
    pub open spec fn set_target(self, images: Map<ImageId, MtlTexture>, target: RenderTarget) -> MtlView {
        MtlView { render_target: target, view_size: self.target_size(images, target), ..self }
    }

    /// Opens a render pass on the current target. The stencil plane
    /// grows to the view size if it has to. The screen's drawable is
    /// asked for only by the first pass of a frame that draws to the
    /// screen.
    pub open spec fn new_render_command_encoder(self) -> MtlView {
        let stencil = self.stencil_texture.resized(self.view_size);
        let on_screen = self.render_target == RenderTarget::Screen;
        MtlView {
            stencil_texture: stencil,
            screen_acquired: self.screen_acquired || on_screen,
            ops: self.ops.push(
                EncoderOp::BeginPass {
                    target: self.render_target,
                    acquire: on_screen && !self.screen_acquired,
                    clear_color: self.clear_color,
                    view_size: self.view_size,
                    stencil,
                },
            ),
            ..self
        }
    }
    /// What one command makes of the state. The pipelines for the
    /// command's composite operation are selected first. A command that
    /// sets the target that is current does nothing more; one that sets
    /// another closes the pass, switches, and opens a pass on the new
    /// target.
    pub open spec fn execute(self, images: Map<ImageId, MtlTexture>, cmd: Command) -> MtlView {
        let s = self.set_composite_operation(
            cmd.composite_operation,
            self.target_format(images, self.render_target),
        );
        match cmd.cmd_type {
            CommandType::ConvexFill { params } => s.convex_fill(cmd, params),
            CommandType::ConcaveFill { stencil_params, fill_params } => s.concave_fill(
                cmd,
                stencil_params,
                fill_params,
            ),
            CommandType::Stroke { params } => s.stroke(cmd, params),
            CommandType::StencilStroke { params1, params2 } => s.stencil_stroke(
                cmd,
                params1,
                params2,
            ),
            CommandType::Triangles { params } => s.triangles(cmd, params),
            CommandType::ClearRect { x, y, width, height, color } => s.clear_rect(
                x,
                y,
                width,
                height,
                color,
            ),
            CommandType::SetRenderTarget(target) => if s.render_target == target {
                s
            } else {
                s.push(EncoderOp::EndPass).set_target(images, target).new_render_command_encoder()
            },
        }
    }

    /// What a list of commands makes of the state, one after the other.
    pub open spec fn replay(self, images: Map<ImageId, MtlTexture>, cmds: Seq<Command>) -> MtlView
        decreases cmds.len(),
    {
        if cmds.len() == 0 {
            self
        } else {
            self.replay(images, cmds.drop_last()).execute(images, cmds.last())
        }
    }

    /// Number of indices that the index buffer has room for after a frame
    /// of `verts` was taken or dropped: what it had room for before, or
    /// three per vertex if that is more. Only where the buffer has to grow
    /// for the frame is it allocated anew, and then before any command is
    /// planned.
    pub open spec fn render_capacity(self, verts: Seq<Vertex>) -> usize {
        if self.in_flight || self.index_capacity >= 3 * verts.len() {
            self.index_capacity
        } else {
            (3 * verts.len()) as usize
        }
    }

    /// The state at the start of a frame: the latch is set, the frame's
    /// vertices are in the vertex buffer, the index buffer is empty with
    /// room for three indices per vertex, and nothing is planned.
    pub open spec fn reset(self, verts: Seq<Vertex>) -> MtlView {
        MtlView {
            in_flight: true,
            encoding: true,
            vertices: verts,
            indices: Seq::empty(),
            index_capacity: if self.index_capacity >= 3 * verts.len() {
                self.index_capacity
            } else {
                (3 * verts.len()) as usize
            },
            screen_acquired: false,
            ops: Seq::empty(),
            ..self
        }
    }

    /// The state at the end of a frame: the pass is closed, the screen's
    /// drawable is presented if one was asked for, and the frame is
    /// counted.
    pub open spec fn finish(self) -> MtlView {
        let closed = self.push(EncoderOp::EndPass);
        let presented = if closed.screen_acquired {
            closed.push(EncoderOp::Present)
        } else {
            closed
        };
        MtlView {
            frame: if self.frame == usize::MAX {
                0
            } else {
                (self.frame + 1) as usize
            },
            encoding: false,
            ..presented
        }
    }

    /// The state after a frame was begun: the buffers are reset and a
    /// pass is open on the current target.
    pub open spec fn begin_frame(self, verts: Seq<Vertex>) -> MtlView {
        self.reset(verts).new_render_command_encoder()
    }

    /// What `render` makes of the state. While a frame is in flight the
    /// next one is dropped and nothing changes.
    pub open spec fn render(self, images: Map<ImageId, MtlTexture>, verts: Seq<Vertex>, cmds: Seq<Command>) -> MtlView {
        if self.in_flight {
            self
        } else {
            self.begin_frame(verts).replay(images, cmds).finish()
        }
    }

    /// Whether a frame of `verts` can be begun: nothing is in flight or
    /// under way, the target exists, and the vertices can be indexed.
    pub open spec fn can_begin(self, images: Map<ImageId, MtlTexture>, verts: Seq<Vertex>) -> bool {
        &&& !self.in_flight
        &&& !self.encoding
        &&& target_known(images, self.render_target)
        &&& verts.len() <= u32::MAX
        &&& 3 * INDEX_SIZE * verts.len() <= usize::MAX
    }

    /// What a readback of the current target needs: the size of the
    /// target, if the target exists and the bytes of its pixels can be
    /// counted. `Err(true)` says that the target does not exist,
    /// `Err(false)` that it is too large.
    pub open spec fn readback(self, images: Map<ImageId, MtlTexture>) -> Result<Size, bool> {
        let size = self.target_size(images, self.render_target);
        if !target_known(images, self.render_target) {
            Err(true)
        } else if 4 * size.w * size.h > usize::MAX {
            Err(false)
        } else {
            Ok(size)
        }
    }

    /// Whether a frame can be rendered from this state.
    pub open spec fn frame_valid(self, images: Map<ImageId, MtlTexture>, verts: Seq<Vertex>, cmds: Seq<Command>) -> bool {
        &&& self.wf()
        &&& !self.in_flight ==> {
            &&& self.can_begin(images, verts)
            &&& forall|i: int|
                0 <= i < cmds.len() ==> command_valid(images, verts.len() as int, #[trigger] cmds[i])
            &&& frame_fills(cmds) <= 3 * verts.len()
        }
    }
}

} // verus!
