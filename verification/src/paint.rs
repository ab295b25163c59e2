//! Colors, fill rules and blending, as the command model carries them.
//!
//! The core never computes with colors or uniform blocks; it hands them on
//! to the graphics device. A color channel is therefore kept as the bit
//! pattern of its IEEE-754 single-precision value.

use vstd::prelude::*;

verus! {

/// An RGBA color; each channel is the bit pattern of a single-precision
/// value between 0 and 1.
#[derive(Copy, Clone, Debug, PartialEq, Eq, Structural, Default)]
pub struct Color {
    pub r: u32,
    pub g: u32,
    pub b: u32,
    pub a: u32,
}

/// Bit pattern of the single-precision value 1.0.
pub const ONE_BITS: u32 = 0x3F80_0000;

impl Color {
    pub fn rgba_bits(r: u32, g: u32, b: u32, a: u32) -> (color: Color)
        ensures
            color == (Color { r, g, b, a }),
    {
        Color { r, g, b, a }
    }

    /// Opaque blue.
    pub fn blue() -> (color: Color)
        ensures
            color == (Color { r: 0, g: 0, b: ONE_BITS, a: ONE_BITS }),
    {
        Color { r: 0, g: 0, b: ONE_BITS, a: ONE_BITS }
    }
}

/// Reference to the uniform block of one draw, prepared by the geometry
/// layer. The core passes it to the fragment stage and never looks inside.
#[derive(Copy, Clone, Debug, PartialEq, Eq, Structural, Default)]
pub struct Params {
    pub uniform: usize,
}

/// Which points of a self-overlapping path count as inside.
#[derive(Copy, Clone, Debug, PartialEq, Eq, Structural)]
pub enum FillRule {
    NonZero,
    EvenOdd,
}

impl Default for FillRule {
    fn default() -> (rule: FillRule)
        ensures
            rule == FillRule::NonZero,
    {
        FillRule::NonZero
    }
}

/// One factor of a blend equation.
#[derive(Copy, Clone, Debug, PartialEq, Eq, Structural)]
pub enum BlendFactor {
    Zero,
    One,
    SrcColor,
    OneMinusSrcColor,
    DstColor,
    OneMinusDstColor,
    SrcAlpha,
    OneMinusSrcAlpha,
    DstAlpha,
    OneMinusDstAlpha,
    SrcAlphaSaturate,
}

/// The four blend factors of a composite operation.
#[derive(Copy, Clone, Debug, PartialEq, Eq, Structural)]
pub struct CompositeOperationState {
    pub src_rgb: BlendFactor,
    pub src_alpha: BlendFactor,
    pub dst_rgb: BlendFactor,
    pub dst_alpha: BlendFactor,
}

impl CompositeOperationState {
    /// Source-over blending of premultiplied colors.
    pub open spec fn source_over() -> CompositeOperationState {
        CompositeOperationState {
            src_rgb: BlendFactor::One,
            src_alpha: BlendFactor::One,
            dst_rgb: BlendFactor::OneMinusSrcAlpha,
            dst_alpha: BlendFactor::OneMinusSrcAlpha,
        }
    }
}

impl Default for CompositeOperationState {
    fn default() -> (state: CompositeOperationState)
        ensures
            state == CompositeOperationState::source_over(),
    {
        CompositeOperationState {
            src_rgb: BlendFactor::One,
            src_alpha: BlendFactor::One,
            dst_rgb: BlendFactor::OneMinusSrcAlpha,
            dst_alpha: BlendFactor::OneMinusSrcAlpha,
        }
    }
}

} // verus!
