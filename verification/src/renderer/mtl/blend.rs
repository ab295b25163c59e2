//! Blend factors in the device's terms.

use vstd::prelude::*;
use crate::paint::{BlendFactor, CompositeOperationState};

verus! {

/// A blend factor as the device names it.
#[derive(Copy, Clone, Debug, PartialEq, Eq, Structural, Hash)]
pub enum MTLBlendFactor {
    Zero,
    One,
    SourceColor,
    OneMinusSourceColor,
    SourceAlpha,
    OneMinusSourceAlpha,
    DestinationColor,
    OneMinusDestinationColor,
    DestinationAlpha,
    OneMinusDestinationAlpha,
    SourceAlphaSaturated,
}

/// The device's name for a blend factor.
pub open spec fn device_factor(factor: BlendFactor) -> MTLBlendFactor {
    match factor {
        BlendFactor::Zero => MTLBlendFactor::Zero,
        BlendFactor::One => MTLBlendFactor::One,
        BlendFactor::SrcColor => MTLBlendFactor::SourceColor,
        BlendFactor::OneMinusSrcColor => MTLBlendFactor::OneMinusSourceColor,
        BlendFactor::DstColor => MTLBlendFactor::DestinationColor,
        BlendFactor::OneMinusDstColor => MTLBlendFactor::OneMinusDestinationColor,
        BlendFactor::SrcAlpha => MTLBlendFactor::SourceAlpha,
        BlendFactor::OneMinusSrcAlpha => MTLBlendFactor::OneMinusSourceAlpha,
        BlendFactor::DstAlpha => MTLBlendFactor::DestinationAlpha,
        BlendFactor::OneMinusDstAlpha => MTLBlendFactor::OneMinusDestinationAlpha,
        BlendFactor::SrcAlphaSaturate => MTLBlendFactor::SourceAlphaSaturated,
    }
}

impl From<BlendFactor> for MTLBlendFactor {
    fn from(a: BlendFactor) -> (factor: Self) {
        match a {
            BlendFactor::Zero => Self::Zero,
            BlendFactor::One => Self::One,
            BlendFactor::SrcColor => Self::SourceColor,
            BlendFactor::OneMinusSrcColor => Self::OneMinusSourceColor,
            BlendFactor::DstColor => Self::DestinationColor,
            BlendFactor::OneMinusDstColor => Self::OneMinusDestinationColor,
            BlendFactor::SrcAlpha => Self::SourceAlpha,
            BlendFactor::OneMinusSrcAlpha => Self::OneMinusSourceAlpha,
            BlendFactor::DstAlpha => Self::DestinationAlpha,
            BlendFactor::OneMinusDstAlpha => Self::OneMinusDestinationAlpha,
            BlendFactor::SrcAlphaSaturate => Self::SourceAlphaSaturated,
        }
    }
}

impl vstd::std_specs::convert::FromSpecImpl<BlendFactor> for MTLBlendFactor {
    open spec fn obeys_from_spec() -> bool {
        true
    }

    open spec fn from_spec(a: BlendFactor) -> Self {
        device_factor(a)
    }
}

/// The blend function of a pipeline: four factors.
#[derive(Copy, Clone, PartialEq, Eq, Structural, Debug, Hash)]
pub struct Blend {
    pub src_rgb: MTLBlendFactor,
    pub dst_rgb: MTLBlendFactor,
    pub src_alpha: MTLBlendFactor,
    pub dst_alpha: MTLBlendFactor,
}

/// The blend function of a composite operation.
pub open spec fn device_blend(v: CompositeOperationState) -> Blend {
    Blend {
        src_rgb: device_factor(v.src_rgb),
        dst_rgb: device_factor(v.dst_rgb),
        src_alpha: device_factor(v.src_alpha),
        dst_alpha: device_factor(v.dst_alpha),
    }
}

impl From<CompositeOperationState> for Blend {
    fn from(v: CompositeOperationState) -> (blend: Self) {
        Self {
            src_rgb: MTLBlendFactor::from(v.src_rgb),
            dst_rgb: MTLBlendFactor::from(v.dst_rgb),
            src_alpha: MTLBlendFactor::from(v.src_alpha),
            dst_alpha: MTLBlendFactor::from(v.dst_alpha),
        }
    }
}

impl vstd::std_specs::convert::FromSpecImpl<CompositeOperationState> for Blend {
    open spec fn obeys_from_spec() -> bool {
        true
    }

    open spec fn from_spec(v: CompositeOperationState) -> Self {
        device_blend(v)
    }
}

/// Different blend factors have different device names, so two composite
/// operations share a blend function only if they are the same.
pub proof fn lemma_device_blend_injective(a: CompositeOperationState, b: CompositeOperationState)
    requires
        device_blend(a) == device_blend(b),
    ensures
        a == b,
{
}

} // verus!
