//! The stencil states of the fill and stroke passes, and what they do to
//! a stencil value.
//!
//! A concave or self-intersecting path is filled in passes. The shape pass
//! draws the fan triangles of the path into the stencil plane only: a
//! front-facing triangle adds one to every value it covers, a back-facing
//! one takes one away, both with wrap-around, so that a value ends as the
//! winding count of its pixel. The anti-aliasing pass and the fill pass
//! then test that count against the fill rule, and zero what they use.

use vstd::prelude::*;
use crate::paint::FillRule;

verus! {

/// How the stencil test compares the reference with the stored value.
#[derive(Copy, Clone, Debug, PartialEq, Eq, Structural)]
pub enum CompareFunction {
    Always,
    Equal,
    NotEqual,
}

/// What happens to the stored stencil value.
#[derive(Copy, Clone, Debug, PartialEq, Eq, Structural)]
pub enum StencilOperation {
    Keep,
    Zero,
    IncrementClamp,
    IncrementWrap,
    DecrementWrap,
}

/// The stencil test and operations for the triangles of one facing.
#[derive(Copy, Clone, Debug, PartialEq, Eq, Structural)]
pub struct StencilFace {
    pub compare: CompareFunction,
    /// The bits of reference and stored value that the test compares.
    pub read_mask: u8,
    pub stencil_failure: StencilOperation,
    pub depth_failure: StencilOperation,
    pub depth_stencil_pass: StencilOperation,
}

/// A depth-stencil state: the depth test always passes; `front` and `back`
/// hold the stencil behaviour for front- and back-facing triangles.
#[derive(Copy, Clone, Debug, PartialEq, Eq, Structural)]
pub struct DepthStencil {
    pub front: StencilFace,
    pub back: StencilFace,
}

/// The stencil states that the passes switch between.
#[derive(Copy, Clone, Debug, PartialEq, Eq, Structural)]
pub enum StencilState {
    /// Always pass, change nothing.
    Default,
    /// Shape pass of a fill: count windings.
    FillShape,
    /// Anti-aliasing pass of a fill: pixels outside the shape.
    FillAntiAlias(FillRule),
    /// Fill pass: pixels inside the shape.
    Fill(FillRule),
    /// Base pass of a stencilled stroke.
    StrokeShape,
    /// Anti-aliasing pass of a stencilled stroke.
    StrokeAntiAlias,
    /// Clearing pass of a stencilled stroke.
    StrokeClear,
}

/// The reference value of every stencil test.
pub const STENCIL_REFERENCE: u8 = 0;

/// The face that passes always and changes nothing.
pub open spec fn idle_face() -> StencilFace {
    StencilFace {
        compare: CompareFunction::Always,
        read_mask: 0xff,
        stencil_failure: StencilOperation::Keep,
        depth_failure: StencilOperation::Keep,
        depth_stencil_pass: StencilOperation::Keep,
    }
}

/// A face whose three operations are the same.
pub open spec fn uniform_face(compare: CompareFunction, read_mask: u8, op: StencilOperation) -> StencilFace {
    StencilFace {
        compare,
        read_mask,
        stencil_failure: op,
        depth_failure: op,
        depth_stencil_pass: op,
    }
}

/// A face that keeps the value where a test fails.
pub open spec fn keeping_face(compare: CompareFunction, read_mask: u8, pass: StencilOperation) -> StencilFace {
    StencilFace {
        compare,
        read_mask,
        stencil_failure: StencilOperation::Keep,
        depth_failure: StencilOperation::Keep,
        depth_stencil_pass: pass,
    }
}

/// The bits of the winding count that a fill rule looks at: all of them
/// for non-zero, the lowest for even-odd.
pub open spec fn rule_mask(rule: FillRule) -> u8 {
    match rule {
        FillRule::NonZero => 0xff,
        FillRule::EvenOdd => 0x01,
    }
}

impl StencilState {
    /// The depth-stencil state that the stencil state stands for.
    pub open spec fn spec_descriptor(self) -> DepthStencil {
        match self {
            StencilState::Default => DepthStencil { front: idle_face(), back: idle_face() },
            StencilState::FillShape => DepthStencil {
                front: keeping_face(CompareFunction::Always, 0xff, StencilOperation::IncrementWrap),
                back: keeping_face(CompareFunction::Always, 0xff, StencilOperation::DecrementWrap),
            },
            StencilState::FillAntiAlias(rule) => DepthStencil {
                front: keeping_face(CompareFunction::Equal, rule_mask(rule), StencilOperation::Zero),
                back: idle_face(),
            },
            StencilState::Fill(rule) => DepthStencil {
                front: uniform_face(CompareFunction::NotEqual, rule_mask(rule), StencilOperation::Zero),
                back: idle_face(),
            },
            StencilState::StrokeShape => DepthStencil {
                front: keeping_face(CompareFunction::Equal, 0xff, StencilOperation::IncrementClamp),
                back: idle_face(),
            },
            StencilState::StrokeAntiAlias => DepthStencil {
                front: keeping_face(CompareFunction::Equal, 0xff, StencilOperation::Keep),
                back: idle_face(),
            },
            StencilState::StrokeClear => DepthStencil {
                front: uniform_face(CompareFunction::Always, 0xff, StencilOperation::Zero),
                back: idle_face(),
            },
        }
    }

    /// Builds the depth-stencil state.
    pub fn descriptor(self) -> (state: DepthStencil)
        ensures
            state == self.spec_descriptor(),
    {
        let idle = StencilFace {
            compare: CompareFunction::Always,
            read_mask: 0xff,
            stencil_failure: StencilOperation::Keep,
            depth_failure: StencilOperation::Keep,
            depth_stencil_pass: StencilOperation::Keep,
        };
        let mut front = idle;
        let mut back = idle;
        match self {
            StencilState::Default => {},
            StencilState::FillShape => {
                front.depth_stencil_pass = StencilOperation::IncrementWrap;
                back.depth_stencil_pass = StencilOperation::DecrementWrap;
            },
            StencilState::FillAntiAlias(rule) => {
                front.compare = CompareFunction::Equal;
                front.read_mask = mask_of_rule(rule);
                front.depth_stencil_pass = StencilOperation::Zero;
            },
            StencilState::Fill(rule) => {
                front.compare = CompareFunction::NotEqual;
                front.read_mask = mask_of_rule(rule);
                front.stencil_failure = StencilOperation::Zero;
                front.depth_failure = StencilOperation::Zero;
                front.depth_stencil_pass = StencilOperation::Zero;
            },
            StencilState::StrokeShape => {
                front.compare = CompareFunction::Equal;
                front.depth_stencil_pass = StencilOperation::IncrementClamp;
            },
            StencilState::StrokeAntiAlias => {
                front.compare = CompareFunction::Equal;
            },
            StencilState::StrokeClear => {
                front.stencil_failure = StencilOperation::Zero;
                front.depth_failure = StencilOperation::Zero;
                front.depth_stencil_pass = StencilOperation::Zero;
            },
        }
        DepthStencil { front, back }
    }
}

/// The read mask of a fill rule.
pub fn mask_of_rule(rule: FillRule) -> (mask: u8)
    ensures
        mask == rule_mask(rule),
{
    match rule {
        FillRule::NonZero => 0xff,
        FillRule::EvenOdd => 0x01,
    }
}

/// What an operation makes of a stored stencil value.
pub open spec fn apply_operation(op: StencilOperation, value: u8) -> u8 {
    match op {
        StencilOperation::Keep => value,
        StencilOperation::Zero => 0,
        StencilOperation::IncrementClamp => if value == 255 {
            255
        } else {
            (value + 1) as u8
        },
        StencilOperation::IncrementWrap => if value == 255 {
            0
        } else {
            (value + 1) as u8
        },
        StencilOperation::DecrementWrap => if value == 0 {
            255
        } else {
            (value - 1) as u8
        },
    }
}

/// Whether the stencil test of `face` passes on a stored `value`.
pub open spec fn test_passes(face: StencilFace, value: u8) -> bool {
    match face.compare {
        CompareFunction::Always => true,
        CompareFunction::Equal => STENCIL_REFERENCE & face.read_mask == value & face.read_mask,
        CompareFunction::NotEqual => STENCIL_REFERENCE & face.read_mask != value & face.read_mask,
    }
}

/// The stored value after a fragment of `face` met `value`. The depth
/// test always passes, so the stencil test alone picks the operation.
pub open spec fn value_after(face: StencilFace, value: u8) -> u8 {
    if test_passes(face, value) {
        apply_operation(face.depth_stencil_pass, value)
    } else {
        apply_operation(face.stencil_failure, value)
    }
}

impl StencilOperation {
    /// Performs the operation on a stored stencil value.
    pub fn apply(self, value: u8) -> (after: u8)
        ensures
            after == apply_operation(self, value),
    {
        match self {
            StencilOperation::Keep => value,
            StencilOperation::Zero => 0,
            StencilOperation::IncrementClamp => if value == 255 {
                255
            } else {
                value + 1
            },
            StencilOperation::IncrementWrap => if value == 255 {
                0
            } else {
                value + 1
            },
            StencilOperation::DecrementWrap => if value == 0 {
                255
            } else {
                value - 1
            },
        }
    }
}

impl StencilFace {
    /// Performs the stencil test on a stored value.
    pub fn passes(&self, value: u8) -> (pass: bool)
        ensures
            pass == test_passes(*self, value),
    {
        match self.compare {
            CompareFunction::Always => true,
            CompareFunction::Equal => STENCIL_REFERENCE & self.read_mask == value & self.read_mask,
            CompareFunction::NotEqual => STENCIL_REFERENCE & self.read_mask != value
                & self.read_mask,
        }
    }

    /// The stored value after a fragment of this face met `value`.
    pub fn write(&self, value: u8) -> (after: u8)
        ensures
            after == value_after(*self, value),
    {
        if self.passes(value) {
            self.depth_stencil_pass.apply(value)
        } else {
            self.stencil_failure.apply(value)
        }
    }
}

/// Whether a winding count lies inside the shape under a fill rule.
pub open spec fn inside(rule: FillRule, winding: u8) -> bool {
    match rule {
        FillRule::NonZero => winding != 0,
        FillRule::EvenOdd => winding % 2 == 1,
    }
}

/// The fill pass writes a pixel exactly if its winding count lies inside
/// the shape under the fill rule, and leaves the stencil value of every
/// pixel it meets at zero.
pub proof fn lemma_fill_pass(rule: FillRule, winding: u8)
    ensures
        test_passes(StencilState::Fill(rule).spec_descriptor().front, winding) == inside(
            rule,
            winding,
        ),
        value_after(StencilState::Fill(rule).spec_descriptor().front, winding) == 0,
{
    assert(0u8 & 0xffu8 == 0u8) by (bit_vector);
    assert(0u8 & 0x01u8 == 0u8) by (bit_vector);
    assert(winding & 0xffu8 == winding) by (bit_vector);
    assert((winding & 0x01u8 != 0u8) == (winding % 2 == 1)) by (bit_vector);
}

/// The anti-aliasing pass of a fill writes a pixel exactly if its winding
/// count lies outside the shape, and never leaves a value that lies
/// outside other than zero.
pub proof fn lemma_fill_anti_alias_pass(rule: FillRule, winding: u8)
    ensures
        test_passes(StencilState::FillAntiAlias(rule).spec_descriptor().front, winding)
            == !inside(rule, winding),
        !inside(rule, winding) ==> value_after(
            StencilState::FillAntiAlias(rule).spec_descriptor().front,
            winding,
        ) == 0,
        inside(rule, winding) ==> value_after(
            StencilState::FillAntiAlias(rule).spec_descriptor().front,
            winding,
        ) == winding,
{
    assert(0u8 & 0xffu8 == 0u8) by (bit_vector);
    assert(0u8 & 0x01u8 == 0u8) by (bit_vector);
    assert(winding & 0xffu8 == winding) by (bit_vector);
    assert((winding & 0x01u8 != 0u8) == (winding % 2 == 1)) by (bit_vector);
}

/// In the shape pass a front-facing and a back-facing triangle over one
/// pixel cancel, in either order, and neither test ever fails.
pub proof fn lemma_shape_pass_counts(value: u8)
    ensures
        test_passes(StencilState::FillShape.spec_descriptor().front, value),
        test_passes(StencilState::FillShape.spec_descriptor().back, value),
        value_after(
            StencilState::FillShape.spec_descriptor().back,
            value_after(StencilState::FillShape.spec_descriptor().front, value),
        ) == value,
        value_after(
            StencilState::FillShape.spec_descriptor().front,
            value_after(StencilState::FillShape.spec_descriptor().back, value),
        ) == value,
        value_after(StencilState::FillShape.spec_descriptor().front, value) == (value + 1) % 256,
        value_after(StencilState::FillShape.spec_descriptor().back, value) == (value + 255) % 256,
{
}

/// The stencil value of a pixel after the shape pass drew triangles over
/// it, one after the other; `facings` says of each whether it faced the
/// front.
pub open spec fn after_shape_pass(value: u8, facings: Seq<bool>) -> u8
    decreases facings.len(),
{
    if facings.len() == 0 {
        value
    } else {
        let before = after_shape_pass(value, facings.drop_last());
        if facings.last() {
            value_after(StencilState::FillShape.spec_descriptor().front, before)
        } else {
            value_after(StencilState::FillShape.spec_descriptor().back, before)
        }
    }
}

/// The winding count of a pixel: the front-facing triangles over it less
/// the back-facing ones.
pub open spec fn winding(facings: Seq<bool>) -> int
    decreases facings.len(),
{
    if facings.len() == 0 {
        0
    } else if facings.last() {
        winding(facings.drop_last()) + 1
    } else {
        winding(facings.drop_last()) - 1
    }
}

/// After the shape pass the stencil value of a pixel is its winding
/// count, up to multiples of 256. So where fewer than 256 triangles lie
/// over a pixel, the value is zero exactly if the winding count is.
pub proof fn lemma_shape_pass_winds(facings: Seq<bool>)
    ensures
        after_shape_pass(0, facings) == winding(facings) % 256,
        -facings.len() <= winding(facings) <= facings.len(),
        facings.len() < 256 ==> (after_shape_pass(0, facings) == 0 <==> winding(facings) == 0),
    decreases facings.len(),
{
    if facings.len() > 0 {
        lemma_shape_pass_winds(facings.drop_last());
        lemma_shape_pass_counts(after_shape_pass(0, facings.drop_last()));
        let w = winding(facings.drop_last());
        assert(((w % 256) + 1) % 256 == (w + 1) % 256) by (nonlinear_arith);
        assert(((w % 256) + 255) % 256 == (w - 1) % 256) by (nonlinear_arith);
    }
    let w = winding(facings);
    if facings.len() < 256 {
        assert(-256 < w < 256 ==> (w % 256 == 0 <==> w == 0)) by (nonlinear_arith);
    }
}

/// A stencilled stroke marks a pixel once however often the stroke
/// overlaps itself there, and its clearing pass takes every mark away.
pub proof fn lemma_stroke_passes(value: u8)
    ensures
        value_after(StencilState::StrokeShape.spec_descriptor().front, 0) == 1,
        value != 0 ==> !test_passes(StencilState::StrokeShape.spec_descriptor().front, value)
            && value_after(StencilState::StrokeShape.spec_descriptor().front, value) == value,
        value_after(StencilState::StrokeAntiAlias.spec_descriptor().front, value) == value,
        test_passes(StencilState::StrokeAntiAlias.spec_descriptor().front, value) == (value == 0),
        value_after(StencilState::StrokeClear.spec_descriptor().front, value) == 0,
        value_after(StencilState::Default.spec_descriptor().front, value) == value,
{
    assert(0u8 & 0xffu8 == 0u8) by (bit_vector);
    assert(value & 0xffu8 == value) by (bit_vector);
}

} // verus!
