//! What holds of every frame that the planner plans.

use vstd::prelude::*;
use crate::image::ImageId;
use crate::renderer::mtl::mtl_texture::MtlTexture;
use crate::renderer::mtl::ops::EncoderOp;
use crate::renderer::mtl::plan::{
    command_valid, draws_fans, drawable_within, fill_fits, fills_fit, fills_total, frame_fills,
    MtlView,
};
use crate::renderer::mtl::rps_cache::PipelineKind;
use crate::renderer::mtl::stencil::StencilState;
use crate::renderer::{Command, CommandType, Drawable, RenderTarget};

verus! {

/// The first `i + 1` drawables are the first `i` and the one after them.
pub proof fn lemma_take_next(ds: Seq<Drawable>, i: int)
    requires
        0 <= i < ds.len(),
    ensures
        ds.take(i + 1).drop_last() == ds.take(i),
        ds.take(i + 1).last() == ds[i],
{
}

/// The fills of a part of `ds` need no more indices than those of all.
pub proof fn lemma_fills_total_monotone(ds: Seq<Drawable>, i: int)
    requires
        0 <= i <= ds.len(),
    ensures
        0 <= fills_total(ds.take(i)) <= fills_total(ds),
    decreases ds.len() - i,
{
    if i == ds.len() {
        assert(ds.take(i) == ds);
        lemma_fills_total_nonnegative(ds);
    } else {
        lemma_take_next(ds, i);
        lemma_fills_total_monotone(ds, i + 1);
        lemma_fills_total_nonnegative(ds.take(i));
    }
}

/// No list of fills needs a negative number of indices.
pub proof fn lemma_fills_total_nonnegative(ds: Seq<Drawable>)
    ensures
        0 <= fills_total(ds),
    decreases ds.len(),
{
    if ds.len() > 0 {
        lemma_fills_total_nonnegative(ds.drop_last());
    }
}

/// Whether an operation works on the stencil plane: it binds a stencil
/// state other than the default, or the pipeline that writes no color.
pub open spec fn touches_stencil(op: EncoderOp) -> bool {
    match op {
        EncoderOp::Stencil(state) => state != StencilState::Default,
        EncoderOp::Pipeline { rps, kind } => kind == PipelineKind::StencilOnly,
        _ => false,
    }
}

/// Whether `after` holds the operations of `before` and then only
/// operations that leave the stencil plane alone.
pub open spec fn extends_without_stencil(before: Seq<EncoderOp>, after: Seq<EncoderOp>) -> bool {
    &&& before.len() <= after.len()
    &&& after.take(before.len() as int) == before
    &&& forall|k: int| before.len() <= k < after.len() ==> !touches_stencil(#[trigger] after[k])
}

/// Drawing fringes plans draws only.
pub proof fn lemma_draw_strokes_plain(s: MtlView, ds: Seq<Drawable>)
    ensures
        extends_without_stencil(s.ops, s.draw_strokes(ds).ops),
        s.only_ops_differ(s.draw_strokes(ds)),
    decreases ds.len(),
{
    if ds.len() > 0 {
        lemma_draw_strokes_plain(s, ds.drop_last());
        let mid = s.draw_strokes(ds.drop_last());
        let end = mid.draw_stroke(ds.last());
        assert(end.ops.take(s.ops.len() as int) == mid.ops.take(s.ops.len() as int));
    } else {
        assert(s.ops.take(s.ops.len() as int) == s.ops);
    }
}

/// Drawing fans plans draws only.
pub proof fn lemma_draw_fills_plain(s: MtlView, ds: Seq<Drawable>, fringe: bool)
    ensures
        extends_without_stencil(s.ops, s.draw_fills(ds, fringe).ops),
        s.only_recording_differs(s.draw_fills(ds, fringe)),
    decreases ds.len(),
{
    if ds.len() > 0 {
        lemma_draw_fills_plain(s, ds.drop_last(), fringe);
        let mid = s.draw_fills(ds.drop_last(), fringe);
        let end = mid.draw_fill(ds.last(), fringe);
        assert(end.ops.take(s.ops.len() as int) == mid.ops.take(s.ops.len() as int));
    } else {
        assert(s.ops.take(s.ops.len() as int) == s.ops);
    }
}

/// Extending twice without the stencil plane is extending without it.
pub proof fn lemma_extends_chain(a: Seq<EncoderOp>, b: Seq<EncoderOp>, c: Seq<EncoderOp>)
    requires
        extends_without_stencil(a, b),
        extends_without_stencil(b, c),
    ensures
        extends_without_stencil(a, c),
{
    assert(c.take(a.len() as int) == c.take(b.len() as int).take(a.len() as int));
    assert forall|k: int| a.len() <= k < c.len() implies !touches_stencil(#[trigger] c[k]) by {
        if k < b.len() {
            assert(c.take(b.len() as int)[k] == c[k]);
        }
    }
}

/// A convex fill, a stroke and a list of triangles are drawn without the
/// stencil plane: none of the operations that they plan works on it, and
/// what was planned before stays.
pub proof fn lemma_direct_draws_leave_stencil(s: MtlView, images: Map<ImageId, MtlTexture>, cmd: Command)
    requires
        cmd.cmd_type is ConvexFill || cmd.cmd_type is Stroke || cmd.cmd_type is Triangles,
    ensures
        extends_without_stencil(s.ops, s.execute(images, cmd).ops),
        s.execute(images, cmd).stencil_texture == s.stencil_texture,
{
    let c = s.set_composite_operation(
        cmd.composite_operation,
        s.target_format(images, s.render_target),
    );
    match cmd.cmd_type {
        CommandType::ConvexFill { params } => {
            let a = c.push(
                EncoderOp::Pipeline { rps: c.current_rps.unwrap(), kind: PipelineKind::Color },
            ).set_uniforms(params, cmd.image, cmd.alpha_mask);
            assert(a.ops.take(s.ops.len() as int) == s.ops);
            assert(extends_without_stencil(s.ops, a.ops));
            lemma_draw_fills_plain(a, cmd.drawables@, true);
            lemma_extends_chain(s.ops, a.ops, a.draw_fills(cmd.drawables@, true).ops);
        },
        CommandType::Stroke { params } => {
            let a = c.set_uniforms(params, cmd.image, cmd.alpha_mask);
            assert(a.ops.take(s.ops.len() as int) == s.ops);
            assert(extends_without_stencil(s.ops, a.ops));
            lemma_draw_strokes_plain(a, cmd.drawables@);
            lemma_extends_chain(s.ops, a.ops, a.draw_strokes(cmd.drawables@).ops);
        },
        CommandType::Triangles { params } => {
            let end = c.triangles(cmd, params);
            assert(end.ops.take(s.ops.len() as int) == s.ops);
        },
        _ => {},
    }
}

/// A command that sets the target which is current already plans nothing
/// and switches nothing: operations, target, view size and stencil plane
/// stay as they are.
pub proof fn lemma_set_same_target(s: MtlView, images: Map<ImageId, MtlTexture>, cmd: Command)
    requires
        cmd.cmd_type == CommandType::SetRenderTarget(s.render_target),
    ensures
        s.execute(images, cmd).ops == s.ops,
        s.execute(images, cmd).render_target == s.render_target,
        s.execute(images, cmd).view_size == s.view_size,
        s.execute(images, cmd).stencil_texture == s.stencil_texture,
        s.execute(images, cmd).screen_acquired == s.screen_acquired,
        s.execute(images, cmd).indices == s.indices,
{
}

/// Of two consecutive commands that set the same target, the second
/// plans nothing: after it the operations are those after the first.
pub proof fn lemma_set_target_twice(
    s: MtlView,
    images: Map<ImageId, MtlTexture>,
    first: Command,
    second: Command,
    target: RenderTarget,
)
    requires
        first.cmd_type == CommandType::SetRenderTarget(target),
        second.cmd_type == CommandType::SetRenderTarget(target),
    ensures
        s.execute(images, first).render_target == target,
        s.execute(images, first).execute(images, second).ops == s.execute(images, first).ops,
        s.execute(images, first).execute(images, second).render_target == target,
        s.execute(images, first).execute(images, second).stencil_texture == s.execute(
            images,
            first,
        ).stencil_texture,
{
    lemma_set_same_target(s.execute(images, first), images, second);
}

/// Whether the fans of `ds` lie one after the other in the vertices
/// `lo .. hi`: each begins where the one before ended, or later.
pub open spec fn fills_packed(ds: Seq<Drawable>, lo: int, hi: int) -> bool
    decreases ds.len(),
{
    if ds.len() == 0 {
        lo <= hi
    } else {
        match ds.last().fill_verts {
            Some((start, count)) => start + count <= hi && fills_packed(
                ds.drop_last(),
                lo,
                start as int,
            ),
            None => fills_packed(ds.drop_last(), lo, hi),
        }
    }
}

/// Fans that lie one after the other in `n` vertices need at most `3 * n`
/// indices: a fan has fewer triangles than vertices.
pub proof fn lemma_packed_fills_fit(ds: Seq<Drawable>, lo: int, hi: int)
    requires
        fills_packed(ds, lo, hi),
    ensures
        lo <= hi,
        fills_total(ds) <= 3 * (hi - lo),
    decreases ds.len(),
{
    if ds.len() > 0 {
        match ds.last().fill_verts {
            Some((start, count)) => {
                lemma_packed_fills_fit(ds.drop_last(), lo, start as int);
            },
            None => {
                lemma_packed_fills_fit(ds.drop_last(), lo, hi);
            },
        }
    }
}

/// The drawables of the commands of a frame that draw fans, in order.
pub open spec fn frame_fans(cmds: Seq<Command>) -> Seq<Drawable>
    decreases cmds.len(),
{
    if cmds.len() == 0 {
        Seq::empty()
    } else if draws_fans(cmds.last().cmd_type) {
        frame_fans(cmds.drop_last()) + cmds.last().drawables@
    } else {
        frame_fans(cmds.drop_last())
    }
}

/// The fans of two lists need the indices of both.
pub proof fn lemma_fills_total_concat(a: Seq<Drawable>, b: Seq<Drawable>)
    ensures
        fills_total(a + b) == fills_total(a) + fills_total(b),
    decreases b.len(),
{
    if b.len() == 0 {
        assert(a + b == a);
    } else {
        assert((a + b).drop_last() == a + b.drop_last());
        assert((a + b).last() == b.last());
        lemma_fills_total_concat(a, b.drop_last());
    }
}

/// A frame whose fans lie one after the other in its vertex array needs
/// at most three indices per vertex, which is what `render` reserves.
pub proof fn lemma_packed_frame_fits(cmds: Seq<Command>, vertex_count: int)
    requires
        fills_packed(frame_fans(cmds), 0, vertex_count),
    ensures
        frame_fills(cmds) == fills_total(frame_fans(cmds)),
        frame_fills(cmds) <= 3 * vertex_count,
{
    lemma_frame_fills_are_fans(cmds);
    lemma_packed_fills_fit(frame_fans(cmds), 0, vertex_count);
}

pub proof fn lemma_frame_fills_are_fans(cmds: Seq<Command>)
    ensures
        frame_fills(cmds) == fills_total(frame_fans(cmds)),
    decreases cmds.len(),
{
    if cmds.len() > 0 {
        lemma_frame_fills_are_fans(cmds.drop_last());
        if draws_fans(cmds.last().cmd_type) {
            lemma_fills_total_concat(frame_fans(cmds.drop_last()), cmds.last().drawables@);
        }
    }
}

/// The commands of a part of a frame need no more indices than those of
/// the whole frame.
pub proof fn lemma_frame_fills_monotone(cmds: Seq<Command>, i: int)
    requires
        0 <= i <= cmds.len(),
    ensures
        0 <= frame_fills(cmds.take(i)) <= frame_fills(cmds),
    decreases cmds.len() - i,
{
    if i == cmds.len() {
        assert(cmds.take(i) == cmds);
        lemma_frame_fills_nonnegative(cmds);
    } else {
        assert(cmds.take(i + 1).drop_last() == cmds.take(i));
        assert(cmds.take(i + 1).last() == cmds[i]);
        lemma_frame_fills_monotone(cmds, i + 1);
        lemma_frame_fills_nonnegative(cmds.take(i));
        lemma_fills_total_nonnegative(cmds[i].drawables@);
    }
}

/// No frame needs a negative number of indices.
pub proof fn lemma_frame_fills_nonnegative(cmds: Seq<Command>)
    ensures
        0 <= frame_fills(cmds),
    decreases cmds.len(),
{
    if cmds.len() > 0 {
        lemma_frame_fills_nonnegative(cmds.drop_last());
        lemma_fills_total_nonnegative(cmds.last().drawables@);
    }
}

/// The fans of a command whose ranges lie within a vertex array that the
/// index type can count can be indexed.
pub proof fn lemma_valid_fills_fit(images: Map<ImageId, MtlTexture>, vertex_count: int, cmd: Command)
    requires
        command_valid(images, vertex_count, cmd),
        vertex_count <= u32::MAX,
    ensures
        fills_fit(cmd.drawables@),
{
    assert forall|i: int| 0 <= i < cmd.drawables@.len() implies fill_fits(
        #[trigger] cmd.drawables@[i],
    ) by {
        assert(drawable_within(cmd.drawables@[i], vertex_count));
    }
}

} // verus!
