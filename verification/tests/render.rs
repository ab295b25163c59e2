use gpucanvas::image::{ImageFlags, ImageId, ImageSource, ImageStore};
use gpucanvas::paint::{BlendFactor, Color, CompositeOperationState, FillRule, Params};
use gpucanvas::renderer::mtl::{
    Blend, CullMode, EncoderOp, MTLBlendFactor, MTLPixelFormat, Mtl, Phase, PipelineKind,
    Primitive, StencilState, StencilTexture, TextureSlot, RPS,
};
use gpucanvas::renderer::{Command, CommandType, Drawable, RenderTarget, Renderer, Vertex, VoidCache};
use gpucanvas::Size;
use imgref::Img;
use rgb::RGBA8;

fn vertex(x: f32, y: f32) -> Vertex {
    Vertex::new(x.to_bits(), y.to_bits(), 0f32.to_bits(), 0f32.to_bits())
}

fn screen() -> Size {
    Size::new(640, 480)
}

fn planner() -> Mtl {
    Mtl::new(screen(), MTLPixelFormat::BGRA8Unorm)
}

fn source_over() -> Blend {
    Blend {
        src_rgb: MTLBlendFactor::One,
        dst_rgb: MTLBlendFactor::OneMinusSourceAlpha,
        src_alpha: MTLBlendFactor::One,
        dst_alpha: MTLBlendFactor::OneMinusSourceAlpha,
    }
}

fn first_set() -> RPS {
    RPS { id: 0, blend_func: source_over(), pixel_format: MTLPixelFormat::BGRA8Unorm }
}

fn begin_screen(acquire: bool) -> EncoderOp {
    EncoderOp::BeginPass {
        target: RenderTarget::Screen,
        acquire,
        clear_color: Color::blue(),
        view_size: screen(),
        stencil: StencilTexture { size: screen(), gen: 0 },
    }
}

fn touches_stencil(op: &EncoderOp) -> bool {
    match op {
        EncoderOp::Stencil(state) => *state != StencilState::Default,
        EncoderOp::Pipeline { kind, .. } => *kind == PipelineKind::StencilOnly,
        _ => false,
    }
}

fn add_image(store: &mut ImageStore, mtl: &mut Mtl, w: usize, h: usize) -> ImageId {
    let pixels = vec![RGBA8 { r: 0, g: 0, b: 0, a: 0 }; w * h];
    store.add(mtl, ImageSource::from(Img::new(&pixels[..], w, h)), ImageFlags::empty()).unwrap()
}

#[test]
fn convex_quad_does_not_touch_the_stencil() {
    let mut mtl = planner();
    let images = ImageStore::new();
    let mut cache = mtl.alloc_buffer_cache();
    let verts =
        vec![vertex(0.0, 0.0), vertex(10.0, 0.0), vertex(10.0, 10.0), vertex(0.0, 10.0)];
    let mut cmd = Command::new(CommandType::ConvexFill { params: Params { uniform: 7 } });
    cmd.drawables.push(Drawable { fill_verts: Some((0, 4)), stroke_verts: None });
    let commands = vec![cmd];
    assert!(mtl.check_frame(&images, &verts, &commands));
    assert!(mtl.render(&images, &mut cache, &verts, &commands));
    let expected = vec![
        begin_screen(true),
        EncoderOp::Pipeline { rps: first_set(), kind: PipelineKind::Color },
        EncoderOp::Uniforms {
            paint: Params { uniform: 7 },
            image: TextureSlot::Pseudo,
            alpha: TextureSlot::Pseudo,
        },
        EncoderOp::DrawIndexed { index_count: 6, byte_offset: 0 },
        EncoderOp::EndPass,
        EncoderOp::Present,
    ];
    assert_eq!(mtl.ops(), &expected);
    assert_eq!(mtl.indices(), &vec![0u32, 1, 2, 0, 2, 3]);
    assert_eq!(mtl.vertices(), &verts);
    assert!(!mtl.ops().iter().any(touches_stencil));
}

fn pentagon() -> Vec<Vertex> {
    // An arrow head: concave at the fourth vertex.
    vec![
        vertex(0.0, 0.0),
        vertex(8.0, 0.0),
        vertex(8.0, 8.0),
        vertex(4.0, 2.0),
        vertex(0.0, 8.0),
        // bounding strip
        vertex(0.0, 0.0),
        vertex(8.0, 0.0),
        vertex(0.0, 8.0),
        vertex(8.0, 8.0),
    ]
}

fn concave_command(rule: FillRule) -> Command {
    let mut cmd = Command::new(CommandType::ConcaveFill {
        stencil_params: Params { uniform: 1 },
        fill_params: Params { uniform: 2 },
    });
    cmd.fill_rule = rule;
    cmd.drawables.push(Drawable { fill_verts: Some((0, 5)), stroke_verts: None });
    cmd.triangles_verts = Some((5, 4));
    cmd
}

#[test]
fn concave_pentagon_stencils_three_triangles() {
    let mut mtl = planner();
    let images = ImageStore::new();
    let mut cache = VoidCache::new();
    let verts = pentagon();
    let commands = vec![concave_command(FillRule::NonZero)];
    assert!(mtl.check_frame(&images, &verts, &commands));
    assert!(mtl.render(&images, &mut cache, &verts, &commands));
    let expected = vec![
        begin_screen(true),
        EncoderOp::Cull(CullMode::Off),
        EncoderOp::Stencil(StencilState::FillShape),
        EncoderOp::Pipeline { rps: first_set(), kind: PipelineKind::StencilOnly },
        EncoderOp::Uniforms {
            paint: Params { uniform: 1 },
            image: TextureSlot::Pseudo,
            alpha: TextureSlot::Pseudo,
        },
        EncoderOp::DrawIndexed { index_count: 9, byte_offset: 0 },
        EncoderOp::Cull(CullMode::Back),
        EncoderOp::Pipeline { rps: first_set(), kind: PipelineKind::Color },
        EncoderOp::Uniforms {
            paint: Params { uniform: 2 },
            image: TextureSlot::Pseudo,
            alpha: TextureSlot::Pseudo,
        },
        EncoderOp::Stencil(StencilState::FillAntiAlias(FillRule::NonZero)),
        EncoderOp::Stencil(StencilState::Fill(FillRule::NonZero)),
        EncoderOp::Draw { primitive: Primitive::TriangleStrip, start: 5, count: 4 },
        EncoderOp::Stencil(StencilState::Default),
        EncoderOp::EndPass,
        EncoderOp::Present,
    ];
    assert_eq!(mtl.ops(), &expected);
    assert_eq!(mtl.indices(), &vec![0u32, 1, 2, 0, 2, 3, 0, 3, 4]);
}

fn position(v: &Vertex) -> (f32, f32) {
    (f32::from_bits(v.x), f32::from_bits(v.y))
}

fn signed_area(a: (f32, f32), b: (f32, f32), c: (f32, f32)) -> f32 {
    (b.0 - a.0) * (c.1 - a.1) - (b.1 - a.1) * (c.0 - a.0)
}

fn covers(a: (f32, f32), b: (f32, f32), c: (f32, f32), p: (f32, f32)) -> bool {
    let d1 = signed_area(a, b, p);
    let d2 = signed_area(b, c, p);
    let d3 = signed_area(c, a, p);
    (d1 > 0.0 && d2 > 0.0 && d3 > 0.0) || (d1 < 0.0 && d2 < 0.0 && d3 < 0.0)
}

fn winding_number(polygon: &[(f32, f32)], p: (f32, f32)) -> i32 {
    let mut winding = 0;
    for i in 0..polygon.len() {
        let a = polygon[i];
        let b = polygon[(i + 1) % polygon.len()];
        if a.1 <= p.1 {
            if b.1 > p.1 && signed_area(a, b, p) > 0.0 {
                winding += 1;
            }
        } else if b.1 <= p.1 && signed_area(a, b, p) < 0.0 {
            winding -= 1;
        }
    }
    winding
}

fn stencil_readback(rule: FillRule) {
    let mut mtl = planner();
    let images = ImageStore::new();
    let mut cache = VoidCache::new();
    let verts = pentagon();
    let commands = vec![concave_command(rule)];
    assert!(mtl.render(&images, &mut cache, &verts, &commands));

    let shape = StencilState::FillShape.descriptor();
    let fill = StencilState::Fill(rule).descriptor();
    let polygon: Vec<(f32, f32)> = verts[0..5].iter().map(position).collect();
    let indices = mtl.indices();
    let mut inside_pixels = 0;
    let mut outside_pixels = 0;
    for py in 0..16 {
        for px in 0..16 {
            let p = (px as f32 * 0.5 + 0.26, py as f32 * 0.5 + 0.23);
            // shape pass: every fan triangle that covers the pixel counts
            let mut value: u8 = 0;
            let mut triangles = 0;
            for t in indices.chunks(3) {
                triangles += 1;
                let a = position(&verts[t[0] as usize]);
                let b = position(&verts[t[1] as usize]);
                let c = position(&verts[t[2] as usize]);
                if covers(a, b, c, p) {
                    let face = if signed_area(a, b, c) > 0.0 { shape.front } else { shape.back };
                    assert!(face.passes(value));
                    value = face.write(value);
                }
            }
            assert_eq!(triangles, 3);
            let winding = winding_number(&polygon, p);
            assert_eq!(value, winding as u8);
            let inside = match rule {
                FillRule::NonZero => winding != 0,
                FillRule::EvenOdd => winding % 2 != 0,
            };
            // fill pass: the bounding strip covers every pixel
            assert_eq!(fill.front.passes(value), inside);
            assert_eq!(fill.front.write(value), 0);
            if inside {
                inside_pixels += 1;
            } else {
                outside_pixels += 1;
            }
        }
    }
    assert!(inside_pixels > 0);
    assert!(outside_pixels > 0);
}

#[test]
fn stencil_is_zero_after_non_zero_fill() {
    stencil_readback(FillRule::NonZero);
}

#[test]
fn stencil_is_zero_after_even_odd_fill() {
    stencil_readback(FillRule::EvenOdd);
}

#[test]
fn second_identical_set_render_target_is_a_no_op() {
    let mut mtl = planner();
    let mut images = ImageStore::new();
    let id = add_image(&mut images, &mut mtl, 32, 16);
    let mut cache = VoidCache::new();
    let verts: Vec<Vertex> = Vec::new();
    let once = vec![Command::new(CommandType::SetRenderTarget(RenderTarget::Image(id)))];
    assert!(mtl.check_frame(&images, &verts, &once));
    assert!(mtl.render(&images, &mut cache, &verts, &once));
    let ops_once = mtl.ops().clone();
    let stencil_once = mtl.stencil_texture();

    let mut other = planner();
    let twice = vec![
        Command::new(CommandType::SetRenderTarget(RenderTarget::Image(id))),
        Command::new(CommandType::SetRenderTarget(RenderTarget::Image(id))),
    ];
    assert!(other.render(&images, &mut cache, &verts, &twice));
    assert_eq!(other.ops(), &ops_once);
    assert_eq!(other.stencil_texture(), stencil_once);
    assert_eq!(other.render_target(), RenderTarget::Image(id));

    let expected = vec![
        begin_screen(true),
        EncoderOp::EndPass,
        EncoderOp::BeginPass {
            target: RenderTarget::Image(id),
            acquire: false,
            clear_color: Color::blue(),
            view_size: Size::new(32, 16),
            stencil: StencilTexture { size: screen(), gen: 0 },
        },
        EncoderOp::EndPass,
        EncoderOp::Present,
    ];
    assert_eq!(ops_once, expected);

    // a target that is current at the start of a frame is not set again
    mtl.frame_completed();
    assert!(mtl.render(&images, &mut cache, &verts, &once));
    assert_eq!(mtl.ops().len(), 2);
    assert_eq!(mtl.ops()[1], EncoderOp::EndPass);
}

#[test]
fn frame_in_flight_drops_the_next() {
    let mut mtl = planner();
    let images = ImageStore::new();
    let mut cache = VoidCache::new();
    let verts = vec![vertex(0.0, 0.0), vertex(1.0, 0.0), vertex(0.0, 1.0)];
    let mut cmd = Command::new(CommandType::Triangles { params: Params { uniform: 0 } });
    cmd.triangles_verts = Some((0, 3));
    let commands = vec![cmd];
    assert!(mtl.should_render());
    assert!(mtl.render(&images, &mut cache, &verts, &commands));
    assert_eq!(mtl.frame(), 1);
    let ops = mtl.ops().clone();
    assert!(!mtl.should_render());
    assert!(!mtl.render(&images, &mut cache, &[], &[]));
    assert_eq!(mtl.frame(), 1);
    assert_eq!(mtl.ops(), &ops);
    assert_eq!(mtl.vertices(), &verts);
    mtl.frame_completed();
    assert!(mtl.should_render());
    assert!(mtl.render(&images, &mut cache, &[], &[]));
    assert_eq!(mtl.frame(), 2);
    assert_eq!(mtl.ops(), &vec![begin_screen(true), EncoderOp::EndPass, EncoderOp::Present]);
}

#[test]
fn index_buffer_stays_within_what_was_reserved() {
    let mut mtl = planner();
    let images = ImageStore::new();
    let mut cache = VoidCache::new();
    assert_eq!(mtl.index_capacity(), 32);
    let verts = vec![vertex(0.0, 0.0); 8];
    let mut convex = Command::new(CommandType::ConvexFill { params: Params { uniform: 0 } });
    convex.drawables.push(Drawable { fill_verts: Some((0, 4)), stroke_verts: None });
    convex.drawables.push(Drawable { fill_verts: Some((4, 4)), stroke_verts: None });
    let commands = vec![convex];
    assert!(mtl.render(&images, &mut cache, &verts, &commands));
    // 24 indices would be the worst case; the room for 32 stays as it is
    assert_eq!(mtl.index_capacity(), 32);
    assert_eq!(mtl.indices().len(), 12);
    assert_eq!(
        mtl.ops()[3..5],
        [
            EncoderOp::DrawIndexed { index_count: 6, byte_offset: 0 },
            EncoderOp::DrawIndexed { index_count: 6, byte_offset: 24 },
        ]
    );
    mtl.frame_completed();
    let many = vec![vertex(0.0, 0.0); 100];
    assert!(mtl.render(&images, &mut cache, &many, &[]));
    assert_eq!(mtl.index_capacity(), 300);
    assert_eq!(mtl.indices().len(), 0);
}

#[test]
fn invalid_frames_are_recognised() {
    let mut mtl = planner();
    let mut images = ImageStore::new();
    let id = add_image(&mut images, &mut mtl, 4, 4);
    let verts = vec![vertex(0.0, 0.0); 4];

    let mut beyond = Command::new(CommandType::ConvexFill { params: Params { uniform: 0 } });
    beyond.drawables.push(Drawable { fill_verts: Some((2, 3)), stroke_verts: None });
    assert!(!mtl.check_frame(&images, &verts, &[beyond]));

    let mut overflow = Command::new(CommandType::Stroke { params: Params { uniform: 0 } });
    overflow.drawables.push(Drawable { fill_verts: None, stroke_verts: Some((usize::MAX, 2)) });
    assert!(!mtl.check_frame(&images, &verts, &[overflow]));

    let stale = ImageId { index: 9, generation: 9 };
    let mut unknown = Command::new(CommandType::Stroke { params: Params { uniform: 0 } });
    unknown.image = Some(stale);
    assert!(!mtl.check_frame(&images, &verts, &[unknown]));

    let mut ignored = Command::new(CommandType::ClearRect {
        x: 0,
        y: 0,
        width: 1,
        height: 1,
        color: Color::blue(),
    });
    ignored.image = Some(stale);
    assert!(mtl.check_frame(&images, &verts, &[ignored]));

    assert!(!mtl.check_frame(
        &images,
        &verts,
        &[Command::new(CommandType::SetRenderTarget(RenderTarget::Unset))]
    ));
    assert!(!mtl.check_frame(
        &images,
        &verts,
        &[Command::new(CommandType::SetRenderTarget(RenderTarget::Image(stale)))]
    ));
    assert!(mtl.check_frame(
        &images,
        &verts,
        &[Command::new(CommandType::SetRenderTarget(RenderTarget::Image(id)))]
    ));

    // the same four vertices fanned four times need 24 indices, 12 are reserved
    let mut crowded = Command::new(CommandType::ConvexFill { params: Params { uniform: 0 } });
    for _ in 0..4 {
        crowded.drawables.push(Drawable { fill_verts: Some((0, 4)), stroke_verts: None });
    }
    assert!(!mtl.check_frame(&images, &verts, &[crowded]));
}

#[test]
fn pipelines_are_made_once_per_blend_and_format() {
    let mut mtl = planner();
    let mut images = ImageStore::new();
    let id = add_image(&mut images, &mut mtl, 8, 8);
    let mut cache = VoidCache::new();
    let verts = vec![vertex(0.0, 0.0); 3];
    let triangles = |blend: Option<CompositeOperationState>| {
        let mut cmd = Command::new(CommandType::Triangles { params: Params { uniform: 0 } });
        cmd.triangles_verts = Some((0, 3));
        if let Some(blend) = blend {
            cmd.composite_operation = blend;
        }
        cmd
    };
    let lighter = CompositeOperationState {
        src_rgb: BlendFactor::One,
        src_alpha: BlendFactor::One,
        dst_rgb: BlendFactor::One,
        dst_alpha: BlendFactor::One,
    };
    let commands = vec![
        triangles(None),
        triangles(Some(lighter)),
        triangles(None),
        Command::new(CommandType::SetRenderTarget(RenderTarget::Image(id))),
        triangles(None),
    ];
    assert!(mtl.check_frame(&images, &verts, &commands));
    assert!(mtl.render(&images, &mut cache, &verts, &commands));
    assert_eq!(mtl.rps_cache().len(), 2);
    let ids: Vec<usize> = mtl
        .ops()
        .iter()
        .filter_map(|op| match op {
            EncoderOp::Pipeline { rps, .. } => Some(rps.id),
            _ => None,
        })
        .collect();
    assert_eq!(ids, vec![0, 1, 0, 0]);
}

fn uniforms(uniform: usize) -> EncoderOp {
    EncoderOp::Uniforms {
        paint: Params { uniform },
        image: TextureSlot::Pseudo,
        alpha: TextureSlot::Pseudo,
    }
}

fn strip(start: usize, count: usize) -> EncoderOp {
    EncoderOp::Draw { primitive: Primitive::TriangleStrip, start, count }
}

fn planned(mtl: &mut Mtl, images: &ImageStore, vertex_count: usize, commands: Vec<Command>) -> Vec<EncoderOp> {
    let verts = vec![vertex(0.0, 0.0); vertex_count];
    let mut cache = VoidCache::new();
    assert!(mtl.check_frame(images, &verts, &commands));
    assert!(mtl.render(images, &mut cache, &verts, &commands));
    let ops = mtl.ops().clone();
    // every frame begins on the screen and ends with the pass closed and presented
    assert_eq!(ops[0], begin_screen(true));
    assert_eq!(ops[ops.len() - 2..], [EncoderOp::EndPass, EncoderOp::Present]);
    ops[1..ops.len() - 2].to_vec()
}

#[test]
fn even_odd_concave_fill_with_fringes() {
    let mut mtl = planner();
    let images = ImageStore::new();
    let mut cmd = concave_command(FillRule::EvenOdd);
    cmd.drawables[0].stroke_verts = Some((9, 12));
    cmd.drawables.push(Drawable { fill_verts: Some((21, 3)), stroke_verts: Some((24, 8)) });
    cmd.drawables.push(Drawable { fill_verts: None, stroke_verts: None });
    let color = EncoderOp::Pipeline { rps: first_set(), kind: PipelineKind::Color };
    let stencil_only = EncoderOp::Pipeline { rps: first_set(), kind: PipelineKind::StencilOnly };
    let with_fringes = vec![
        EncoderOp::Cull(CullMode::Off),
        EncoderOp::Stencil(StencilState::FillShape),
        stencil_only,
        uniforms(1),
        EncoderOp::DrawIndexed { index_count: 9, byte_offset: 0 },
        EncoderOp::DrawIndexed { index_count: 3, byte_offset: 36 },
        EncoderOp::Cull(CullMode::Back),
        color,
        uniforms(2),
        EncoderOp::Stencil(StencilState::FillAntiAlias(FillRule::EvenOdd)),
        strip(9, 12),
        strip(24, 8),
        EncoderOp::Stencil(StencilState::Fill(FillRule::EvenOdd)),
        strip(5, 4),
        EncoderOp::Stencil(StencilState::Default),
    ];
    let same = |cmd: &Command| {
        let mut copy = Command::new(cmd.cmd_type);
        copy.drawables = cmd.drawables.clone();
        copy.triangles_verts = cmd.triangles_verts;
        copy.fill_rule = cmd.fill_rule;
        copy
    };
    assert_eq!(planned(&mut mtl, &images, 32, vec![same(&cmd)]), with_fringes);
    assert_eq!(mtl.indices(), &vec![0u32, 1, 2, 0, 2, 3, 0, 3, 4, 21, 22, 23]);

    // without anti-aliasing the fringes are left out
    mtl.frame_completed();
    mtl.set_antialias(false);
    let mut without = with_fringes.clone();
    without.drain(9..12);
    assert_eq!(planned(&mut mtl, &images, 32, vec![same(&cmd)]), without);
}

#[test]
fn convex_fill_draws_fans_and_fringes_in_turn() {
    let mut mtl = planner();
    let mut images = ImageStore::new();
    let id = add_image(&mut images, &mut mtl, 2, 2);
    let mask = add_image(&mut images, &mut mtl, 2, 2);
    let mut cmd = Command::new(CommandType::ConvexFill { params: Params { uniform: 3 } });
    cmd.image = Some(id);
    cmd.alpha_mask = Some(mask);
    cmd.drawables.push(Drawable { fill_verts: Some((0, 6)), stroke_verts: Some((6, 14)) });
    cmd.drawables.push(Drawable { fill_verts: None, stroke_verts: Some((20, 4)) });
    cmd.drawables.push(Drawable { fill_verts: Some((24, 2)), stroke_verts: None });
    cmd.drawables.push(Drawable { fill_verts: Some((26, 3)), stroke_verts: None });
    let expected = vec![
        EncoderOp::Pipeline { rps: first_set(), kind: PipelineKind::Color },
        EncoderOp::Uniforms {
            paint: Params { uniform: 3 },
            image: TextureSlot::Image(id),
            alpha: TextureSlot::Image(mask),
        },
        EncoderOp::DrawIndexed { index_count: 12, byte_offset: 0 },
        strip(6, 14),
        strip(20, 4),
        EncoderOp::DrawIndexed { index_count: 0, byte_offset: 48 },
        EncoderOp::DrawIndexed { index_count: 3, byte_offset: 48 },
    ];
    assert_eq!(planned(&mut mtl, &images, 29, vec![cmd]), expected);
    assert_eq!(mtl.indices().len(), 15);
    assert_eq!(mtl.indices()[12..], [26, 27, 28]);
}

#[test]
fn stroke_triangles_and_stencil_stroke() {
    let mut mtl = planner();
    let images = ImageStore::new();
    let mut stroke = Command::new(CommandType::Stroke { params: Params { uniform: 1 } });
    stroke.drawables.push(Drawable { fill_verts: Some((0, 3)), stroke_verts: Some((3, 5)) });
    stroke.drawables.push(Drawable { fill_verts: None, stroke_verts: Some((8, 2)) });
    let mut triangles = Command::new(CommandType::Triangles { params: Params { uniform: 2 } });
    triangles.triangles_verts = Some((1, 6));
    let empty = Command::new(CommandType::Triangles { params: Params { uniform: 5 } });
    let mut stencil_stroke = Command::new(CommandType::StencilStroke {
        params1: Params { uniform: 3 },
        params2: Params { uniform: 4 },
    });
    stencil_stroke.drawables.push(Drawable { fill_verts: None, stroke_verts: Some((2, 7)) });
    let color = EncoderOp::Pipeline { rps: first_set(), kind: PipelineKind::Color };
    let expected = vec![
        uniforms(1),
        strip(3, 5),
        strip(8, 2),
        uniforms(2),
        color,
        EncoderOp::Draw { primitive: Primitive::Triangle, start: 1, count: 6 },
        uniforms(5),
        color,
        uniforms(4),
        EncoderOp::Stencil(StencilState::StrokeShape),
        color,
        strip(2, 7),
        uniforms(3),
        EncoderOp::Stencil(StencilState::StrokeAntiAlias),
        strip(2, 7),
        EncoderOp::Stencil(StencilState::StrokeClear),
        EncoderOp::Pipeline { rps: first_set(), kind: PipelineKind::StencilOnly },
        strip(2, 7),
        EncoderOp::Stencil(StencilState::Default),
    ];
    let ops = planned(&mut mtl, &images, 10, vec![stroke, triangles, empty, stencil_stroke]);
    assert_eq!(ops, expected);
    assert!(mtl.indices().is_empty());
    assert!(!ops[..8].iter().any(touches_stencil));
}

#[test]
fn clear_rect_draws_under_a_scissor() {
    let mut mtl = planner();
    let images = ImageStore::new();
    mtl.set_size(300, 200);
    let red = Color::rgba_bits(1f32.to_bits(), 0, 0, 1f32.to_bits());
    let cmd = Command::new(CommandType::ClearRect { x: 10, y: 20, width: 30, height: 40, color: red });
    let verts: Vec<Vertex> = Vec::new();
    let mut cache = VoidCache::new();
    assert!(mtl.render(&images, &mut cache, &verts, &[cmd]));
    let expected = vec![
        EncoderOp::BeginPass {
            target: RenderTarget::Screen,
            acquire: true,
            clear_color: Color::blue(),
            view_size: Size::new(300, 200),
            stencil: StencilTexture { size: screen(), gen: 0 },
        },
        EncoderOp::Pipeline { rps: first_set(), kind: PipelineKind::ClearRect },
        EncoderOp::Scissor { x: 10, y: 20, width: 30, height: 40 },
        EncoderOp::ClearQuad { color: red },
        EncoderOp::Scissor { x: 0, y: 0, width: 300, height: 200 },
        EncoderOp::Pipeline { rps: first_set(), kind: PipelineKind::Color },
        EncoderOp::BindVertices { view_size: Size::new(300, 200) },
        EncoderOp::EndPass,
        EncoderOp::Present,
    ];
    assert_eq!(mtl.ops(), &expected);
}

#[test]
fn switching_targets_within_a_frame() {
    let mut mtl = planner();
    let mut images = ImageStore::new();
    let big = add_image(&mut images, &mut mtl, 1000, 20);
    let tall = add_image(&mut images, &mut mtl, 20, 700);
    let to = |target: RenderTarget| Command::new(CommandType::SetRenderTarget(target));
    let commands = vec![
        to(RenderTarget::Screen),
        to(RenderTarget::Image(big)),
        to(RenderTarget::Image(tall)),
        to(RenderTarget::Screen),
        to(RenderTarget::Image(big)),
        to(RenderTarget::Screen),
    ];
    let verts: Vec<Vertex> = Vec::new();
    let mut cache = VoidCache::new();
    assert!(mtl.check_frame(&images, &verts, &commands));
    assert!(mtl.render(&images, &mut cache, &verts, &commands));
    let pass = |target: RenderTarget, acquire: bool, view: Size, stencil: Size, gen: u32| {
        EncoderOp::BeginPass {
            target,
            acquire,
            clear_color: Color::blue(),
            view_size: view,
            stencil: StencilTexture { size: stencil, gen },
        }
    };
    let expected = vec![
        pass(RenderTarget::Screen, true, screen(), screen(), 0),
        EncoderOp::EndPass,
        pass(RenderTarget::Image(big), false, Size::new(1000, 20), Size::new(1000, 480), 1),
        EncoderOp::EndPass,
        pass(RenderTarget::Image(tall), false, Size::new(20, 700), Size::new(1000, 700), 2),
        EncoderOp::EndPass,
        pass(RenderTarget::Screen, false, screen(), Size::new(1000, 700), 2),
        EncoderOp::EndPass,
        pass(RenderTarget::Image(big), false, Size::new(1000, 20), Size::new(1000, 700), 2),
        EncoderOp::EndPass,
        pass(RenderTarget::Screen, false, screen(), Size::new(1000, 700), 2),
        EncoderOp::EndPass,
        EncoderOp::Present,
    ];
    assert_eq!(mtl.ops(), &expected);
    assert_eq!(mtl.stencil_texture(), StencilTexture { size: Size::new(1000, 700), gen: 2 });

    // a frame that never draws to the screen presents nothing
    mtl.frame_completed();
    let off_screen = vec![to(RenderTarget::Image(tall))];
    assert!(mtl.render(&images, &mut cache, &verts, &off_screen));
    mtl.frame_completed();
    assert!(mtl.render(&images, &mut cache, &verts, &[]));
    assert_eq!(
        mtl.ops(),
        &vec![
            pass(RenderTarget::Image(tall), false, Size::new(20, 700), Size::new(1000, 700), 2),
            EncoderOp::EndPass,
        ]
    );
}

#[test]
fn readback_too_large_to_count() {
    let mut mtl = planner();
    let images = ImageStore::new();
    mtl.set_screen(Size::new(usize::MAX, 2), MTLPixelFormat::BGRA8Unorm);
    assert!(matches!(mtl.screenshot(&images), Err(gpucanvas::ErrorKind::GeneralError(_))));
    mtl.set_screen(Size::new(usize::MAX / 4, 2), MTLPixelFormat::BGRA8Unorm);
    assert!(matches!(mtl.screenshot(&images), Err(gpucanvas::ErrorKind::GeneralError(_))));
}

#[test]
fn phases_of_a_frame() {
    let mut mtl = planner();
    let mut images = ImageStore::new();
    let id = add_image(&mut images, &mut mtl, 8, 8);
    let verts = vec![vertex(0.0, 0.0); 3];
    assert_eq!(mtl.phase(), Phase::Idle);

    mtl.begin_frame(&images, &verts);
    assert_eq!(mtl.phase(), Phase::Encoding(RenderTarget::Screen));
    assert!(!mtl.should_render());
    assert!(!mtl.check_frame(&images, &verts, &[]) || !mtl.should_render());
    assert_eq!(mtl.ops(), &vec![begin_screen(true)]);
    mtl.execute(&images, &Command::new(CommandType::SetRenderTarget(RenderTarget::Image(id))));
    assert_eq!(mtl.phase(), Phase::Encoding(RenderTarget::Image(id)));
    let mut cmd = Command::new(CommandType::Triangles { params: Params { uniform: 0 } });
    cmd.triangles_verts = Some((0, 3));
    mtl.execute(&images, &cmd);
    assert_eq!(mtl.phase(), Phase::Encoding(RenderTarget::Image(id)));
    mtl.end_frame();
    assert_eq!(mtl.phase(), Phase::Presenting);
    assert_eq!(mtl.frame(), 1);
    assert_eq!(mtl.ops().len(), 8);
    mtl.frame_completed();
    assert_eq!(mtl.phase(), Phase::Idle);

    // the same frame in one call
    let mut whole = planner();
    let mut cache = VoidCache::new();
    let mut cmd = Command::new(CommandType::Triangles { params: Params { uniform: 0 } });
    cmd.triangles_verts = Some((0, 3));
    let commands =
        vec![Command::new(CommandType::SetRenderTarget(RenderTarget::Image(id))), cmd];
    assert!(whole.render(&images, &mut cache, &verts, &commands));
    assert_eq!(whole.phase(), Phase::Presenting);
    assert_eq!(whole.ops(), mtl.ops());
    assert!(!whole.render(&images, &mut cache, &verts, &commands));
    assert_eq!(whole.phase(), Phase::Presenting);
    whole.frame_completed();
    assert_eq!(whole.phase(), Phase::Idle);
}
