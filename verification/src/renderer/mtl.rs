//! Planning of a frame for a Metal-class graphics device.

use vstd::prelude::*;
use crate::fan::GPUVecExt;
use crate::geometry::Size;
use crate::error::ErrorKind;
use crate::image::{ImageFormat, ImageId, ImageInfo, ImageSource, ImageStore};
use crate::paint::{Color, CompositeOperationState, Params, ONE_BITS};
use crate::renderer::{
    update_rejection, Command, CommandType, Drawable, PixelBuffer, RenderTarget, Renderer, Vertex,
    VoidCache,
};
use crate::renderer::mtl::laws::{
    lemma_fills_total_monotone, lemma_frame_fills_monotone, lemma_take_next, lemma_valid_fills_fit,
};
use crate::renderer::mtl::plan::{
    command_fills, command_valid, draws_fans, drawable_within, fill_fits, fills_total,
    frame_fills, image_known, range_within, target_known,
};
use crate::renderer::mtl::rps_cache::set_id;

pub mod blend;
pub mod buffers_cache;
pub mod laws;
pub mod mtl_texture;
pub mod ops;
pub mod plan;
pub mod rps_cache;
pub mod stencil;
pub mod stencil_texture;

pub use blend::{Blend, MTLBlendFactor};
pub use buffers_cache::{BufferIndex, MtlBuffers, MtlBuffersCache};
pub use mtl_texture::{MTLPixelFormat, MtlTexture};
pub use ops::{CullMode, EncoderOp, Primitive, TextureSlot};
pub use plan::{MtlView, Phase, INDEX_SIZE};
pub use rps_cache::{PipelineKind, RPSCache, RPS};
pub use stencil::{CompareFunction, DepthStencil, StencilFace, StencilOperation, StencilState};
pub use stencil_texture::StencilTexture;

verus! {

/// Byte offsets of the position and of the texture coordinate in a vertex.
pub struct VertexOffsets {
    x: usize,
    u: usize,
}

impl VertexOffsets {
    pub closed spec fn spec_x(&self) -> usize {
        self.x
    }

    pub closed spec fn spec_u(&self) -> usize {
        self.u
    }

    /// The offsets in a vertex of four 32-bit fields `x`, `y`, `u`, `v`.
    pub fn new() -> (offsets: Self)
        ensures
            offsets.spec_x() == 0,
            offsets.spec_u() == 8,
    {
        let field: usize = 4;
        Self { x: 0, u: 2 * field }
    }

    #[verifier::when_used_as_spec(spec_x)]
    pub fn x(&self) -> (x: usize)
        ensures
            x == self.spec_x(),
    {
        self.x
    }

    #[verifier::when_used_as_spec(spec_u)]
    pub fn u(&self) -> (u: usize)
        ensures
            u == self.spec_u(),
    {
        self.u
    }
}

/// The planner of frames for a Metal-class device. It turns the command
/// list of a frame into the list of operations that the device has to
/// perform, and keeps what lasts from frame to frame: the sets of
/// pipelines, the size of the stencil plane, the current target.
pub struct Mtl {
    antialias: bool,
    view_size: Size,
    screen_size: Size,
    screen_format: MTLPixelFormat,
    clear_color: Color,
    stencil_texture: StencilTexture,
    rps_cache: RPSCache,
    current_rps: Option<RPS>,
    index_buffer: Vec<u32>,
    index_capacity: usize,
    vertex_buffer: Vec<Vertex>,
    render_target: RenderTarget,
    frame: usize,
    in_flight: bool,
    encoding: bool,
    screen_acquired: bool,
    ops: Vec<EncoderOp>,
}

impl View for Mtl {
    type V = MtlView;

    closed spec fn view(&self) -> MtlView {
        MtlView {
            antialias: self.antialias,
            view_size: self.view_size,
            screen_size: self.screen_size,
            screen_format: self.screen_format,
            clear_color: self.clear_color,
            stencil_texture: self.stencil_texture,
            sets: self.rps_cache@,
            current_rps: self.current_rps,
            indices: self.index_buffer@,
            index_capacity: self.index_capacity,
            vertices: self.vertex_buffer@,
            render_target: self.render_target,
            frame: self.frame,
            in_flight: self.in_flight,
            encoding: self.encoding,
            screen_acquired: self.screen_acquired,
            ops: self.ops@,
        }
    }
}

impl Mtl {
    fn set_uniforms(&mut self, paint: Params, image_tex: Option<ImageId>, alpha_tex: Option<ImageId>)
        ensures
            final(self)@ == old(self)@.set_uniforms(paint, image_tex, alpha_tex),
    {
        let image = match image_tex {
            Some(id) => TextureSlot::Image(id),
            None => TextureSlot::Pseudo,
        };
        let alpha = match alpha_tex {
            Some(id) => TextureSlot::Image(id),
            None => TextureSlot::Pseudo,
        };
        self.ops.push(EncoderOp::Uniforms { paint, image, alpha });
    }

    fn draw_strokes(&mut self, drawables: &Vec<Drawable>)
        ensures
            final(self)@ == old(self)@.draw_strokes(drawables@),
            old(self)@.only_ops_differ(final(self)@),
    {
        let mut i: usize = 0;
        while i < drawables.len()
            invariant
                0 <= i <= drawables@.len(),
                self@ == old(self)@.draw_strokes(drawables@.take(i as int)),
                old(self)@.only_ops_differ(self@),
            decreases drawables@.len() - i,
        {
            proof {
                lemma_take_next(drawables@, i as int);
            }
            match drawables[i].stroke_verts {
                Some((start, count)) => {
                    self.ops.push(
                        EncoderOp::Draw { primitive: Primitive::TriangleStrip, start, count },
                    );
                },
                None => {},
            }
            i += 1;
        }
        assert(drawables@.take(drawables@.len() as int) == drawables@);
    }

    fn draw_fills(&mut self, drawables: &Vec<Drawable>, fringe: bool)
        requires
            old(self)@.wf(),
            old(self)@.has_room(drawables@),
        ensures
            final(self)@ == old(self)@.draw_fills(drawables@, fringe),
            final(self)@.wf(),
            final(self)@.indices.len() == old(self)@.indices.len() + fills_total(drawables@),
            old(self)@.only_recording_differs(final(self)@),
    {
        let mut i: usize = 0;
        while i < drawables.len()
            invariant
                0 <= i <= drawables@.len(),
                old(self)@.wf(),
                old(self)@.has_room(drawables@),
                self@ == old(self)@.draw_fills(drawables@.take(i as int), fringe),
                self@.indices.len() == old(self)@.indices.len() + fills_total(
                    drawables@.take(i as int),
                ),
                old(self)@.only_recording_differs(self@),
            decreases drawables@.len() - i,
        {
            proof {
                lemma_take_next(drawables@, i as int);
                lemma_fills_total_monotone(drawables@, i as int + 1);
                assert(fill_fits(drawables@[i as int]));
            }
            let ghost before = self@;
            match drawables[i].fill_verts {
                Some((start, count)) => {
                    let byte_offset = self.index_buffer.len() * INDEX_SIZE;
                    let index_count = self.index_buffer.extend_with_triange_fan_indices_cw(
                        start as u32,
                        count as u32,
                    );
                    self.ops.push(EncoderOp::DrawIndexed { index_count, byte_offset });
                },
                None => {},
            }
            if fringe {
                match drawables[i].stroke_verts {
                    Some((start, count)) => {
                        self.ops.push(
                            EncoderOp::Draw { primitive: Primitive::TriangleStrip, start, count },
                        );
                    },
                    None => {},
                }
            }
            assert(self@ == before.draw_fill(drawables@[i as int], fringe));
            i += 1;
        }
        assert(drawables@.take(drawables@.len() as int) == drawables@);
    }

    /// Plans a convex fill: no stencil pass, the fans are drawn as they
    /// are.
    pub fn convex_fill(&mut self, images: &ImageStore, cmd: &Command, paint: Params)
        requires
            old(self)@.wf(),
            old(self)@.current_rps is Some,
            old(self)@.has_room(cmd.drawables@),
        ensures
            final(self)@ == old(self)@.convex_fill(*cmd, paint),
            final(self)@.wf(),
            final(self)@.indices.len() == old(self)@.indices.len() + fills_total(cmd.drawables@),
            old(self)@.only_recording_differs(final(self)@),
    {
        let rps = self.current_rps.unwrap();
        self.ops.push(EncoderOp::Pipeline { rps, kind: PipelineKind::Color });
        self.set_uniforms(paint, cmd.image, cmd.alpha_mask);
        self.draw_fills(&cmd.drawables, true);
    }

    /// Plans a stroke: the fringes are drawn as they are.
    pub fn stroke(&mut self, images: &ImageStore, cmd: &Command, paint: Params)
        ensures
            final(self)@ == old(self)@.stroke(*cmd, paint),
            old(self)@.only_ops_differ(final(self)@),
    {
        self.set_uniforms(paint, cmd.image, cmd.alpha_mask);
        self.draw_strokes(&cmd.drawables);
    }

    /// Plans a list of triangles.
    pub fn triangles(&mut self, images: &ImageStore, cmd: &Command, paint: Params)
        requires
            old(self)@.current_rps is Some,
        ensures
            final(self)@ == old(self)@.triangles(*cmd, paint),
            old(self)@.only_ops_differ(final(self)@),
    {
        let rps = self.current_rps.unwrap();
        self.set_uniforms(paint, cmd.image, cmd.alpha_mask);
        self.ops.push(EncoderOp::Pipeline { rps, kind: PipelineKind::Color });
        match cmd.triangles_verts {
            Some((start, count)) => {
                self.ops.push(EncoderOp::Draw { primitive: Primitive::Triangle, start, count });
            },
            None => {},
        }
    }
    /// Plans a concave fill in its passes over the stencil plane.
    pub fn concave_fill(&mut self, images: &ImageStore, cmd: &Command, stencil_paint: Params, fill_paint: Params)
        requires
            old(self)@.wf(),
            old(self)@.current_rps is Some,
            old(self)@.has_room(cmd.drawables@),
        ensures
            final(self)@ == old(self)@.concave_fill(*cmd, stencil_paint, fill_paint),
            final(self)@.wf(),
            final(self)@.indices.len() == old(self)@.indices.len() + fills_total(cmd.drawables@),
            old(self)@.only_recording_differs(final(self)@),
    {
        let rps = self.current_rps.unwrap();
        self.ops.push(EncoderOp::Cull(CullMode::Off));
        self.ops.push(EncoderOp::Stencil(StencilState::FillShape));
        self.ops.push(EncoderOp::Pipeline { rps, kind: PipelineKind::StencilOnly });
        self.set_uniforms(stencil_paint, None, None);
        self.draw_fills(&cmd.drawables, false);

        // Restores states.
        self.ops.push(EncoderOp::Cull(CullMode::Back));
        self.ops.push(EncoderOp::Pipeline { rps, kind: PipelineKind::Color });

        // Draws anti-aliased fragments.
        self.set_uniforms(fill_paint, cmd.image, cmd.alpha_mask);
        if self.antialias {
            self.ops.push(EncoderOp::Stencil(StencilState::FillAntiAlias(cmd.fill_rule)));
            self.draw_strokes(&cmd.drawables);
        }
        // Draws fill.

        self.ops.push(EncoderOp::Stencil(StencilState::Fill(cmd.fill_rule)));
        match cmd.triangles_verts {
            Some((start, count)) => {
                self.ops.push(
                    EncoderOp::Draw { primitive: Primitive::TriangleStrip, start, count },
                );
            },
            None => {},
        }
        self.ops.push(EncoderOp::Stencil(StencilState::Default));
    }

    /// Plans a stencilled stroke in its three passes.
    pub fn stencil_stroke(&mut self, images: &ImageStore, cmd: &Command, paint1: Params, paint2: Params)
        requires
            old(self)@.current_rps is Some,
        ensures
            final(self)@ == old(self)@.stencil_stroke(*cmd, paint1, paint2),
            old(self)@.only_ops_differ(final(self)@),
    {
        let rps = self.current_rps.unwrap();

        // Fills the stroke base without overlap.
        self.set_uniforms(paint2, cmd.image, cmd.alpha_mask);
        self.ops.push(EncoderOp::Stencil(StencilState::StrokeShape));
        self.ops.push(EncoderOp::Pipeline { rps, kind: PipelineKind::Color });
        self.draw_strokes(&cmd.drawables);

        // Draws anti-aliased pixels.
        self.set_uniforms(paint1, cmd.image, cmd.alpha_mask);
        self.ops.push(EncoderOp::Stencil(StencilState::StrokeAntiAlias));
        self.draw_strokes(&cmd.drawables);

        // Clears stencil buffer.
        self.ops.push(EncoderOp::Stencil(StencilState::StrokeClear));
        self.ops.push(EncoderOp::Pipeline { rps, kind: PipelineKind::StencilOnly });
        self.draw_strokes(&cmd.drawables);
        self.ops.push(EncoderOp::Stencil(StencilState::Default));
    }

    /// Plans the clearing of a rectangle.
    pub fn clear_rect(&mut self, images: &ImageStore, x: u32, y: u32, width: u32, height: u32, color: Color)
        requires
            old(self)@.current_rps is Some,
        ensures
            final(self)@ == old(self)@.clear_rect(x, y, width, height, color),
            old(self)@.only_ops_differ(final(self)@),
    {
        let rps = self.current_rps.unwrap();
        self.ops.push(EncoderOp::Pipeline { rps, kind: PipelineKind::ClearRect });
        self.ops.push(
            EncoderOp::Scissor {
                x: x as usize,
                y: y as usize,
                width: width as usize,
                height: height as usize,
            },
        );
        self.ops.push(EncoderOp::ClearQuad { color });

        // reset state
        let size = self.view_size;
        self.ops.push(EncoderOp::Scissor { x: 0, y: 0, width: size.w, height: size.h });

        // reset buffers for the other commands
        self.ops.push(EncoderOp::Pipeline { rps, kind: PipelineKind::Color });
        self.ops.push(EncoderOp::BindVertices { view_size: size });
    }

    /// Makes the set of pipelines for a composite operation and a target
    /// format the current one; the set is made if this is its first use.
    pub fn set_composite_operation(&mut self, blend_func: CompositeOperationState, pixel_format: MTLPixelFormat)
        requires
            old(self)@.wf(),
        ensures
            final(self)@ == old(self)@.set_composite_operation(blend_func, pixel_format),
            final(self)@.wf(),
    {
        let blend = Blend::from(blend_func);
        match self.current_rps {
            Some(current_rps) => {
                if current_rps.blend_func == blend && current_rps.pixel_format == pixel_format {
                    proof {
                        let sets = self.rps_cache@;
                        assert(sets[current_rps.id as int].serves(blend, pixel_format));
                        let c = set_id(sets, blend, pixel_format);
                        if c < current_rps.id as int {
                            assert(!sets[c].serves(
                                sets[current_rps.id as int].blend_func,
                                sets[current_rps.id as int].pixel_format,
                            ));
                        }
                        if (current_rps.id as int) < c {
                            assert(!sets[current_rps.id as int].serves(
                                sets[c].blend_func,
                                sets[c].pixel_format,
                            ));
                        }
                    }
                    return ;
                }
            },
            None => {},
        }
        self.current_rps = Some(self.rps_cache.get(blend, pixel_format));
    }

    /// Switches to another target.
    pub fn set_target(&mut self, images: &ImageStore, target: RenderTarget)
        requires
            target != old(self)@.render_target,
            target != RenderTarget::Unset,
            target matches RenderTarget::Image(id) ==> images.has(id),
        ensures
            final(self)@ == old(self)@.set_target(images@, target),
    {
        let size = match target {
            RenderTarget::Screen => self.screen_size,
            RenderTarget::Image(id) => {
                let texture = images.get(id).unwrap();
                texture.size()
            },
            RenderTarget::Unset => self.view_size,
        };
        self.render_target = target;
        self.view_size = size;
    }

    /// Opens a render pass on the current target.
    fn new_render_command_encoder(&mut self)
        ensures
            final(self)@ == old(self)@.new_render_command_encoder(),
    {
        self.stencil_texture.resize(self.view_size);
        let on_screen = self.render_target == RenderTarget::Screen;
        let acquire = on_screen && !self.screen_acquired;
        self.screen_acquired = self.screen_acquired || on_screen;
        self.ops.push(
            EncoderOp::BeginPass {
                target: self.render_target,
                acquire,
                clear_color: self.clear_color,
                view_size: self.view_size,
                stencil: self.stencil_texture,
            },
        );
    }
    /// A planner for a screen of the given size and format. The screen is
    /// the target, nothing is in flight, and the index buffer has room for
    /// 32 indices.
    pub fn new(screen_size: Size, screen_format: MTLPixelFormat) -> (mtl: Self)
        ensures
            mtl@ == Self::initial(screen_size, screen_format),
            mtl@.wf(),
    {
        Self {
            antialias: true,
            view_size: screen_size,
            screen_size,
            screen_format,
            clear_color: Color::blue(),
            stencil_texture: StencilTexture::new(screen_size),
            rps_cache: RPSCache::new(),
            current_rps: None,
            index_buffer: Vec::with_capacity(32),
            index_capacity: 32,
            vertex_buffer: Vec::with_capacity(32),
            render_target: RenderTarget::Screen,
            frame: 0,
            in_flight: false,
            encoding: false,
            screen_acquired: false,
            ops: Vec::new(),
        }
    }

    /// The state of a new planner.
    pub open spec fn initial(screen_size: Size, screen_format: MTLPixelFormat) -> MtlView {
        MtlView {
            antialias: true,
            view_size: screen_size,
            screen_size,
            screen_format,
            clear_color: Color { r: 0, g: 0, b: ONE_BITS, a: ONE_BITS },
            stencil_texture: StencilTexture { size: screen_size, gen: 0 },
            sets: Seq::empty(),
            current_rps: None,
            indices: Seq::empty(),
            index_capacity: 32,
            vertices: Seq::empty(),
            render_target: RenderTarget::Screen,
            frame: 0,
            in_flight: false,
            encoding: false,
            screen_acquired: false,
            ops: Seq::empty(),
        }
    }

    /// The logical size of the view.
    pub fn size(&self) -> (size: Size)
        ensures
            size == self@.view_size,
    {
        self.view_size
    }

    /// The operations planned by the last frame, in order.
    pub fn ops(&self) -> (ops: &Vec<EncoderOp>)
        ensures
            ops@ == self@.ops,
    {
        &self.ops
    }

    /// The indices of the last frame's fans.
    pub fn indices(&self) -> (indices: &Vec<u32>)
        ensures
            indices@ == self@.indices,
    {
        &self.index_buffer
    }

    /// The vertices of the last frame.
    pub fn vertices(&self) -> (vertices: &Vec<Vertex>)
        ensures
            vertices@ == self@.vertices,
    {
        &self.vertex_buffer
    }

    /// Number of indices that the device's index buffer has to hold
    /// without being allocated anew.
    pub fn index_capacity(&self) -> (capacity: usize)
        ensures
            capacity == self@.index_capacity,
    {
        self.index_capacity
    }

    pub fn render_target(&self) -> (target: RenderTarget)
        ensures
            target == self@.render_target,
    {
        self.render_target
    }

    /// The sets of pipelines made so far.
    pub fn rps_cache(&self) -> (cache: &RPSCache)
        ensures
            cache@ == self@.sets,
    {
        &self.rps_cache
    }

    pub fn stencil_texture(&self) -> (texture: StencilTexture)
        ensures
            texture == self@.stencil_texture,
    {
        self.stencil_texture
    }

    /// Number of frames planned so far.
    pub fn frame(&self) -> (frame: usize)
        ensures
            frame == self@.frame,
    {
        self.frame
    }

    /// Where the planner stands.
    pub fn phase(&self) -> (phase: Phase)
        ensures
            phase == self@.phase(),
    {
        if self.encoding {
            Phase::Encoding(self.render_target)
        } else if self.in_flight {
            Phase::Presenting
        } else {
            Phase::Idle
        }
    }

    /// Whether the next frame would be planned rather than dropped.
    pub fn should_render(&self) -> (open: bool)
        ensures
            open == !self@.in_flight,
    {
        !self.in_flight
    }

    /// Tells the planner that the device is done with the frame in
    /// flight. The latch is released; nothing else changes.
    pub fn frame_completed(&mut self)
        ensures
            final(self)@ == (MtlView { in_flight: false, ..old(self)@ }),
    {
        self.in_flight = false;
    }

    /// Switches anti-aliasing on or off.
    pub fn set_antialias(&mut self, antialias: bool)
        ensures
            final(self)@ == (MtlView { antialias, ..old(self)@ }),
    {
        self.antialias = antialias;
    }

    /// Sets the color that a pass names as its clear color.
    pub fn set_clear_color(&mut self, color: Color)
        ensures
            final(self)@ == (MtlView { clear_color: color, ..old(self)@ }),
    {
        self.clear_color = color;
    }

    /// Tells the planner the size and format of the screen's drawables.
    pub fn set_screen(&mut self, screen_size: Size, screen_format: MTLPixelFormat)
        ensures
            final(self)@ == (MtlView { screen_size, screen_format, ..old(self)@ }),
    {
        self.screen_size = screen_size;
        self.screen_format = screen_format;
    }

    /// The pixel format of the current target.
    fn current_format(&self, images: &ImageStore) -> (format: MTLPixelFormat)
        requires
            target_known(images@, self@.render_target),
        ensures
            format == self@.target_format(images@, self@.render_target),
    {
        match self.render_target {
            RenderTarget::Screen => self.screen_format,
            RenderTarget::Image(id) => {
                let texture = images.get(id).unwrap();
                MTLPixelFormat::from(texture.info.format())
            },
            RenderTarget::Unset => MTLPixelFormat::Invalid,
        }
    }

    /// Plans one command.
    pub fn execute(&mut self, images: &ImageStore, cmd: &Command)
        requires
            old(self)@.wf(),
            target_known(images@, old(self)@.render_target),
            draws_fans(cmd.cmd_type) ==> old(self)@.has_room(cmd.drawables@),
            cmd.cmd_type matches CommandType::SetRenderTarget(target) ==> target_known(
                images@,
                target,
            ),
        ensures
            final(self)@ == old(self)@.execute(images@, *cmd),
            final(self)@.wf(),
            target_known(images@, final(self)@.render_target),
            final(self)@.indices.len() == old(self)@.indices.len() + command_fills(*cmd),
            old(self)@.same_frame(final(self)@),
    {
        let pixel_format = self.current_format(images);
        self.set_composite_operation(cmd.composite_operation, pixel_format);
        match cmd.cmd_type {
            CommandType::ConvexFill { params } => {
                self.convex_fill(images, cmd, params);
            },
            CommandType::ConcaveFill { stencil_params, fill_params } => {
                self.concave_fill(images, cmd, stencil_params, fill_params);
            },
            CommandType::Stroke { params } => {
                self.stroke(images, cmd, params);
            },
            CommandType::StencilStroke { params1, params2 } => {
                self.stencil_stroke(images, cmd, params1, params2);
            },
            CommandType::Triangles { params } => {
                self.triangles(images, cmd, params);
            },
            CommandType::ClearRect { x, y, width, height, color } => {
                self.clear_rect(images, x, y, width, height, color);
            },
            CommandType::SetRenderTarget(target) => {
                if self.render_target == target {
                    return ;
                }
                self.ops.push(EncoderOp::EndPass);
                self.set_target(images, target);
                self.new_render_command_encoder();
            },
        }
    }

    /// Begins a frame: the latch is set, the vertices are taken over, the
    /// index buffer is emptied and sized for the worst case of three
    /// indices per vertex, and a pass is opened on the current target.
    pub fn begin_frame(&mut self, images: &ImageStore, verts: &[Vertex])
        requires
            old(self)@.wf(),
            old(self)@.can_begin(images@, verts@),
        ensures
            final(self)@ == old(self)@.begin_frame(verts@),
            final(self)@.wf(),
            final(self)@.phase() == Phase::Encoding(old(self)@.render_target),
            final(self)@.index_capacity == old(self)@.render_capacity(verts@),
    {
        self.in_flight = true;
        self.encoding = true;

        self.vertex_buffer.clear();
        let mut v: usize = 0;
        while v < verts.len()
            invariant
                0 <= v <= verts@.len(),
                self.vertex_buffer@ == verts@.take(v as int),
                self@ == (MtlView {
                    vertices: self.vertex_buffer@,
                    in_flight: true,
                    encoding: true,
                    ..old(self)@
                }),
            decreases verts@.len() - v,
        {
            self.vertex_buffer.push(verts[v]);
            v += 1;
        }
        assert(verts@.take(verts@.len() as int) == verts@);

        // build indices
        self.index_buffer.clear();
        let needed = 3 * verts.len();
        if self.index_capacity < needed {
            self.index_capacity = needed;
        }
        self.index_buffer.reserve(needed);
        self.ops.clear();
        self.screen_acquired = false;
        assert(self@ == old(self)@.reset(verts@));

        self.new_render_command_encoder();
    }

    /// Ends a frame: the pass is closed, the screen's drawable is
    /// presented if the frame asked for one, and the frame is counted.
    /// The frame is in flight until `frame_completed`.
    pub fn end_frame(&mut self)
        requires
            old(self)@.encoding,
        ensures
            final(self)@ == old(self)@.finish(),
            final(self)@.phase() == (if old(self)@.in_flight {
                Phase::Presenting
            } else {
                Phase::Idle
            }),
    {
        self.ops.push(EncoderOp::EndPass);
        if self.screen_acquired {
            self.ops.push(EncoderOp::Present);
        }
        self.frame = if self.frame == usize::MAX {
            0
        } else {
            self.frame + 1
        };
        self.encoding = false;
    }

    /// Plans a frame: begins it, plans the commands in order, and ends
    /// it. While an earlier frame is in flight, the frame is dropped
    /// instead: nothing changes and `false` is returned.
    pub fn render_frame(&mut self, images: &ImageStore, verts: &[Vertex], commands: &[Command]) -> (submitted:
        bool)
        requires
            old(self)@.frame_valid(images@, verts@, commands@),
        ensures
            final(self)@ == old(self)@.render(images@, verts@, commands@),
            submitted == !old(self)@.in_flight,
            final(self)@.wf(),
            final(self)@.in_flight,
            submitted ==> final(self)@.phase() == Phase::Presenting,
            final(self)@.index_capacity == old(self)@.render_capacity(verts@),
            final(self)@.indices.len() <= final(self)@.index_capacity,
            submitted ==> final(self)@.vertices == verts@ && final(self)@.indices.len()
                == frame_fills(commands@) && final(self)@.frame == (if old(self)@.frame
                == usize::MAX {
                0
            } else {
                old(self)@.frame + 1
            }),
    {
        if self.in_flight {
            return false;
        }
        self.begin_frame(images, verts);
        let ghost start = self@;

        let mut i: usize = 0;
        while i < commands.len()
            invariant
                0 <= i <= commands@.len(),
                self@ == start.replay(images@, commands@.take(i as int)),
                self@.wf(),
                target_known(images@, self@.render_target),
                start.same_frame(self@),
                start.vertices == verts@,
                start.in_flight,
                start.encoding,
                start.frame == old(self)@.frame,
                self@.indices.len() == frame_fills(commands@.take(i as int)),
                frame_fills(commands@) <= 3 * verts@.len(),
                3 * verts@.len() <= start.index_capacity,
                verts@.len() <= u32::MAX,
                forall|k: int|
                    0 <= k < commands@.len() ==> command_valid(
                        images@,
                        verts@.len() as int,
                        #[trigger] commands@[k],
                    ),
            decreases commands@.len() - i,
        {
            proof {
                let cmds = commands@;
                assert(cmds.take(i as int + 1).drop_last() == cmds.take(i as int));
                assert(cmds.take(i as int + 1).last() == cmds[i as int]);
                lemma_frame_fills_monotone(cmds, i as int + 1);
                assert(command_valid(images@, verts@.len() as int, cmds[i as int]));
                lemma_valid_fills_fit(images@, verts@.len() as int, cmds[i as int]);
            }
            self.execute(images, &commands[i]);
            i += 1;
        }
        assert(commands@.take(commands@.len() as int) == commands@);
        self.end_frame();
        true
    }
}

/// Tests whether a range of vertices lies within an array of `len`.
pub fn range_is_within(range: Option<(usize, usize)>, len: usize) -> (within: bool)
    ensures
        within == range_within(range, len as int),
{
    match range {
        Some((start, count)) => match start.checked_add(count) {
            Some(end) => end <= len,
            None => false,
        },
        None => true,
    }
}

/// Tests whether a target can be rendered to.
pub fn target_is_known(images: &ImageStore, target: RenderTarget) -> (known: bool)
    ensures
        known == target_known(images@, target),
{
    match target {
        RenderTarget::Screen => true,
        RenderTarget::Image(id) => images.get(id).is_some(),
        RenderTarget::Unset => false,
    }
}

fn image_is_known(images: &ImageStore, image: Option<ImageId>) -> (known: bool)
    ensures
        known == image_known(images@, image),
{
    match image {
        Some(id) => images.get(id).is_some(),
        None => true,
    }
}

/// Tests whether a command fits a frame of `vertex_count` vertices and
/// the images at hand.
pub fn command_is_valid(images: &ImageStore, vertex_count: usize, cmd: &Command) -> (valid: bool)
    ensures
        valid == command_valid(images@, vertex_count as int, *cmd),
{
    let mut i: usize = 0;
    while i < cmd.drawables.len()
        invariant
            0 <= i <= cmd.drawables@.len(),
            forall|k: int|
                0 <= k < i ==> drawable_within(#[trigger] cmd.drawables@[k], vertex_count as int),
        decreases cmd.drawables@.len() - i,
    {
        let d = cmd.drawables[i];
        if !range_is_within(d.fill_verts, vertex_count) || !range_is_within(
            d.stroke_verts,
            vertex_count,
        ) {
            assert(!drawable_within(cmd.drawables@[i as int], vertex_count as int));
            return false;
        }
        i += 1;
    }
    if !range_is_within(cmd.triangles_verts, vertex_count) {
        return false;
    }
    match cmd.cmd_type {
        CommandType::SetRenderTarget(target) => target_is_known(images, target),
        CommandType::ClearRect { .. } => true,
        _ => image_is_known(images, cmd.image) && image_is_known(images, cmd.alpha_mask),
    }
}

/// Counts the indices that the fans of `ds` need, as long as they stay
/// within `budget`.
fn count_fills(ds: &Vec<Drawable>, vertex_count: usize, budget: usize) -> (total: Option<usize>)
    requires
        forall|k: int| 0 <= k < ds@.len() ==> drawable_within(#[trigger] ds@[k], vertex_count as int),
        3 * vertex_count <= usize::MAX,
    ensures
        match total {
            Some(n) => n == fills_total(ds@) && n <= budget,
            None => fills_total(ds@) > budget,
        },
{
    let mut total: usize = 0;
    let mut i: usize = 0;
    while i < ds.len()
        invariant
            0 <= i <= ds@.len(),
            total == fills_total(ds@.take(i as int)),
            total <= budget,
            forall|k: int|
                0 <= k < ds@.len() ==> drawable_within(#[trigger] ds@[k], vertex_count as int),
            3 * vertex_count <= usize::MAX,
        decreases ds@.len() - i,
    {
        proof {
            lemma_take_next(ds@, i as int);
            lemma_fills_total_monotone(ds@, i as int + 1);
            assert(drawable_within(ds@[i as int], vertex_count as int));
        }
        match ds[i].fill_verts {
            Some((_, count)) => {
                if count >= 3 {
                    let needed = 3 * (count - 2);
                    if needed > budget - total {
                        return None;
                    }
                    total += needed;
                }
            },
            None => {},
        }
        i += 1;
    }
    assert(ds@.take(ds@.len() as int) == ds@);
    Some(total)
}

impl Mtl {
    /// Tests whether `render` can take a frame.
    pub fn check_frame(&self, images: &ImageStore, verts: &[Vertex], commands: &[Command]) -> (valid:
        bool)
        requires
            self@.wf(),
        ensures
            valid == self@.frame_valid(images@, verts@, commands@),
    {
        if self.in_flight {
            return true;
        }
        if self.encoding || !target_is_known(images, self.render_target) {
            return false;
        }
        let vertex_count = verts.len();
        if vertex_count > u32::MAX as usize || vertex_count > usize::MAX / (3 * INDEX_SIZE) {
            return false;
        }
        let budget = 3 * vertex_count;
        let mut total: usize = 0;
        let mut i: usize = 0;
        while i < commands.len()
            invariant
                0 <= i <= commands@.len(),
                self@.wf(),
                !self@.in_flight,
                !self@.encoding,
                target_known(images@, self@.render_target),
                vertex_count == verts@.len(),
                vertex_count <= u32::MAX,
                3 * INDEX_SIZE * vertex_count <= usize::MAX,
                budget == 3 * vertex_count,
                total == frame_fills(commands@.take(i as int)),
                total <= budget,
                forall|k: int|
                    0 <= k < i ==> command_valid(
                        images@,
                        vertex_count as int,
                        #[trigger] commands@[k],
                    ),
            decreases commands@.len() - i,
        {
            proof {
                let cmds = commands@;
                assert(cmds.take(i as int + 1).drop_last() == cmds.take(i as int));
                assert(cmds.take(i as int + 1).last() == cmds[i as int]);
                lemma_frame_fills_monotone(cmds, i as int + 1);
            }
            let cmd = &commands[i];
            if !command_is_valid(images, vertex_count, cmd) {
                assert(!command_valid(images@, verts@.len() as int, commands@[i as int]));
                return false;
            }
            match cmd.cmd_type {
                CommandType::ConvexFill { .. } | CommandType::ConcaveFill { .. } => {
                    match count_fills(&cmd.drawables, vertex_count, budget - total) {
                        Some(needed) => {
                            total += needed;
                        },
                        None => {
                            return false;
                        },
                    }
                },
                _ => {},
            }
            i += 1;
        }
        assert(commands@.take(commands@.len() as int) == commands@);
        true
    }
}

impl Renderer for Mtl {
    type BufferCache = VoidCache;

    open spec fn spec_view_size(&self) -> Size {
        self@.view_size
    }

    open spec fn accepts(&self, images: &ImageStore, verts: Seq<Vertex>, commands: Seq<Command>) -> bool {
        self@.frame_valid(images@, verts, commands)
    }

    open spec fn labels(&self, images: &ImageStore, id: ImageId) -> bool {
        images.has(id)
    }

    fn set_size(&mut self, width: u32, height: u32)
        ensures
            final(self)@ == (MtlView {
                view_size: Size { w: width as usize, h: height as usize },
                ..old(self)@
            }),
    {
        self.view_size = Size::new(width as usize, height as usize);
    }

    fn alloc_buffer_cache(&self) -> (cache: VoidCache)
        ensures
            cache.token() == 0,
    {
        VoidCache::new()
    }

    fn render(
        &mut self,
        images: &ImageStore,
        cache: &mut VoidCache,
        verts: &[Vertex],
        commands: &[Command],
    ) -> (submitted: bool)
        ensures
            final(self)@ == old(self)@.render(images@, verts@, commands@),
            submitted == !old(self)@.in_flight,
            final(self)@.wf(),
            final(self)@.in_flight,
            final(self)@.index_capacity == old(self)@.render_capacity(verts@),
            final(self)@.indices.len() <= final(self)@.index_capacity,
    {
        self.render_frame(images, verts, commands)
    }

    fn alloc_image(&mut self, info: ImageInfo) -> (result: Result<MtlTexture, ErrorKind>)
        ensures
            final(self)@ == old(self)@,
            result is Ok <==> info.spec_format() != ImageFormat::Rgb,
            result matches Err(e) ==> e == ErrorKind::UnsuportedImageFromat,
    {
        MtlTexture::new(info)
    }

    fn update_image(&mut self, image: &mut MtlTexture, data: ImageSource, x: usize, y: usize) -> (result:
        Result<(), ErrorKind>)
        ensures
            final(self)@ == old(self)@,
            update_rejection(old(image).info, data, x, y) is None ==> result is Ok,
    {
        image.update(data, x, y)
    }

    fn delete_image(&mut self, image: MtlTexture)
        ensures
            final(self)@ == old(self)@,
    {
        image.delete();
    }

    fn screenshot(&mut self, images: &ImageStore) -> (result: Result<PixelBuffer, ErrorKind>)
        ensures
            final(self)@ == old(self)@,
            match old(self)@.readback(images@) {
                Ok(size) => result matches Ok(pixels) && pixels.width == size.w && pixels.height
                    == size.h && pixels.data@ == Seq::new(
                    (4 * size.w * size.h) as nat,
                    |i: int| 255u8,
                ),
                Err(true) => result == Err::<PixelBuffer, ErrorKind>(ErrorKind::ImageIdNotFound),
                Err(false) => result matches Err(ErrorKind::GeneralError(_)),
            },
    {
        let size = match self.render_target {
            RenderTarget::Screen => self.screen_size,
            RenderTarget::Image(id) => match images.get(id) {
                Some(texture) => texture.size(),
                None => {
                    return Err(ErrorKind::ImageIdNotFound);
                },
            },
            RenderTarget::Unset => {
                return Err(ErrorKind::ImageIdNotFound);
            },
        };
        let len = match size.w.checked_mul(size.h) {
            Some(pixels) => match pixels.checked_mul(4) {
                Some(len) => len,
                None => {
                    assert(4 * size.w * size.h == size.w * size.h * 4) by (nonlinear_arith);
                    return Err(ErrorKind::GeneralError("target too large to read back".to_owned()));
                },
            },
            None => {
                assert(4 * size.w * size.h >= size.w * size.h) by (nonlinear_arith);
                return Err(ErrorKind::GeneralError("target too large to read back".to_owned()));
            },
        };
        assert(size.w * size.h * 4 == 4 * size.w * size.h) by (nonlinear_arith);
        let data = vec![255u8; len];
        assert(data@ =~= Seq::new(len as nat, |i: int| 255u8));
        Ok(PixelBuffer { width: size.w, height: size.h, data })
    }

    fn flip_y() -> (flip: bool)
        ensures
            flip,
    {
        true
    }

    fn flip_uv() -> (flip: bool)
        ensures
            flip,
    {
        true
    }

    fn start_capture(&self) {
    }

    fn stop_capture(&self) {
    }

    fn label(&self, images: &ImageStore, id: ImageId) -> (label: String)
        ensures
            label@ == images@[id].label@,
    {
        let img = images.get(id).unwrap();
        img.label().to_owned()
    }

    fn set_label(&self, images: &mut ImageStore, id: ImageId, label: &str)
        ensures
            final(images)@[id].label@ == label@,
    {
        match images.get_mut(id) {
            Some(img) => {
                img.set_label(label);
            },
            None => {},
        }
    }

    fn view_size(&self) -> (size: Size) {
        self.view_size
    }
}

} // verus!
