//! Render pipeline states, one set per blend function and pixel format.

use vstd::prelude::*;
use crate::renderer::mtl::blend::Blend;
use crate::renderer::mtl::mtl_texture::MTLPixelFormat;
use crate::renderer::mtl::VertexOffsets;

verus! {

/// The shader functions of the library that the pipelines are made of.
#[derive(Copy, Clone, Debug, PartialEq, Eq, Structural)]
pub enum ShaderFunction {
    Vertex,
    Fragment,
    FragmentAntiAliased,
    ClearRectVertex,
    ClearRectFragment,
}

impl ShaderFunction {
    /// The name of the function in the shader library.
    pub fn name(self) -> (name: &'static str)
        ensures
            name@ == match self {
                ShaderFunction::Vertex => "vertexShader"@,
                ShaderFunction::Fragment => "fragmentShader"@,
                ShaderFunction::FragmentAntiAliased => "fragmentShaderAA"@,
                ShaderFunction::ClearRectVertex => "clear_rect_vertex"@,
                ShaderFunction::ClearRectFragment => "clear_rect_fragment"@,
            },
    {
        match self {
            ShaderFunction::Vertex => "vertexShader",
            ShaderFunction::Fragment => "fragmentShader",
            ShaderFunction::FragmentAntiAliased => "fragmentShaderAA",
            ShaderFunction::ClearRectVertex => "clear_rect_vertex",
            ShaderFunction::ClearRectFragment => "clear_rect_fragment",
        }
    }
}

/// The three pipelines of a set.
#[derive(Copy, Clone, Debug, PartialEq, Eq, Structural)]
pub enum PipelineKind {
    /// Draws color through the fragment function.
    Color,
    /// Draws into the stencil plane only.
    StencilOnly,
    /// Fills a rectangle with one color.
    ClearRect,
}

/// Where the vertex function finds position and texture coordinate in a
/// vertex, and how far vertices are apart, in bytes.
#[derive(Copy, Clone, Debug, PartialEq, Eq, Structural)]
pub struct VertexLayout {
    pub position_offset: usize,
    pub texcoord_offset: usize,
    pub stride: usize,
}

/// The description from which the device makes a render pipeline.
#[derive(Copy, Clone, Debug, PartialEq, Eq, Structural)]
pub struct PipelineDescriptor {
    pub pixel_format: MTLPixelFormat,
    pub stencil_format: MTLPixelFormat,
    pub vertex_function: ShaderFunction,
    /// `None` for a pipeline that writes no color.
    pub fragment_function: Option<ShaderFunction>,
    /// `None` for a pipeline that reads no vertex buffer.
    pub vertex_layout: Option<VertexLayout>,
    pub blend_func: Blend,
    /// Whether the pipeline writes the color channels.
    pub write_color: bool,
}

/// A set of render pipeline states, for one blend function and one pixel
/// format of the target.
#[derive(Copy, Clone, Debug, PartialEq, Eq, Structural)]
pub struct RPS {
    pub id: usize,
    pub blend_func: Blend,
    pub pixel_format: MTLPixelFormat,
}

/// The layout of the frame's vertices: two pairs of 32-bit values.
pub open spec fn vertex_layout() -> VertexLayout {
    VertexLayout { position_offset: 0, texcoord_offset: 8, stride: 16 }
}

impl RPS {
    /// The set with the given number for a blend function and a format.
    pub fn new(id: usize, blend_func: Blend, pixel_format: MTLPixelFormat) -> (rps: Self)
        ensures
            rps == (RPS { id, blend_func, pixel_format }),
    {
        Self { id, blend_func, pixel_format }
    }

    /// Whether the set is for this blend function and format.
    pub open spec fn serves(self, blend_func: Blend, pixel_format: MTLPixelFormat) -> bool {
        self.blend_func == blend_func && self.pixel_format == pixel_format
    }

    /// The description of one pipeline of the set.
    pub open spec fn spec_descriptor(self, kind: PipelineKind, antialias: bool) -> PipelineDescriptor {
        let fragment = if antialias {
            ShaderFunction::FragmentAntiAliased
        } else {
            ShaderFunction::Fragment
        };
        match kind {
            PipelineKind::Color => PipelineDescriptor {
                pixel_format: self.pixel_format,
                stencil_format: MTLPixelFormat::Stencil8,
                vertex_function: ShaderFunction::Vertex,
                fragment_function: Some(fragment),
                vertex_layout: Some(vertex_layout()),
                blend_func: self.blend_func,
                write_color: true,
            },
            PipelineKind::StencilOnly => PipelineDescriptor {
                pixel_format: self.pixel_format,
                stencil_format: MTLPixelFormat::Stencil8,
                vertex_function: ShaderFunction::Vertex,
                fragment_function: None,
                vertex_layout: Some(vertex_layout()),
                blend_func: self.blend_func,
                write_color: false,
            },
            PipelineKind::ClearRect => PipelineDescriptor {
                pixel_format: self.pixel_format,
                stencil_format: MTLPixelFormat::Stencil8,
                vertex_function: ShaderFunction::ClearRectVertex,
                fragment_function: Some(ShaderFunction::ClearRectFragment),
                vertex_layout: None,
                blend_func: self.blend_func,
                write_color: true,
            },
        }
    }

    pub fn descriptor(&self, kind: PipelineKind, antialias: bool) -> (desc: PipelineDescriptor)
        ensures
            desc == self.spec_descriptor(kind, antialias),
    {
        let offsets = VertexOffsets::new();
        let layout = VertexLayout {
            position_offset: offsets.x(),
            texcoord_offset: offsets.u(),
            stride: 16,
        };
        let mut desc = PipelineDescriptor {
            pixel_format: self.pixel_format,
            stencil_format: MTLPixelFormat::Stencil8,
            vertex_function: ShaderFunction::Vertex,
            fragment_function: Some(
                if antialias {
                    ShaderFunction::FragmentAntiAliased
                } else {
                    ShaderFunction::Fragment
                },
            ),
            vertex_layout: Some(layout),
            blend_func: self.blend_func,
            write_color: true,
        };
        match kind {
            PipelineKind::Color => {},
            PipelineKind::StencilOnly => {
                desc.fragment_function = None;
                desc.write_color = false;
            },
            PipelineKind::ClearRect => {
                desc.vertex_function = ShaderFunction::ClearRectVertex;
                desc.fragment_function = Some(ShaderFunction::ClearRectFragment);
                desc.vertex_layout = None;
            },
        }
        desc
    }
}

/// The sets made so far. No two serve the same blend function and format,
/// and a set's number is its place in the order of making.
pub struct RPSCache {
    inner: Vec<RPS>,
}

impl View for RPSCache {
    type V = Seq<RPS>;

    closed spec fn view(&self) -> Seq<RPS> {
        self.inner@
    }
}

/// Whether `sets` can be what a cache holds.
pub open spec fn sets_valid(sets: Seq<RPS>) -> bool {
    &&& forall|i: int| 0 <= i < sets.len() ==> (#[trigger] sets[i]).id == i
    &&& forall|i: int, j: int|
        0 <= i < j < sets.len() ==> !(#[trigger] sets[i]).serves(
            (#[trigger] sets[j]).blend_func,
            sets[j].pixel_format,
        )
}

/// Whether one of `sets` serves the blend function and format.
pub open spec fn sets_serve(sets: Seq<RPS>, blend_func: Blend, pixel_format: MTLPixelFormat) -> bool {
    exists|i: int| 0 <= i < sets.len() && (#[trigger] sets[i]).serves(blend_func, pixel_format)
}

/// The sets after one for the blend function and format was asked for.
pub open spec fn sets_after_get(sets: Seq<RPS>, blend_func: Blend, pixel_format: MTLPixelFormat) -> Seq<
    RPS,
> {
    if sets_serve(sets, blend_func, pixel_format) {
        sets
    } else {
        sets.push(RPS { id: sets.len() as usize, blend_func, pixel_format })
    }
}

/// The number of the set for the blend function and format, once it was
/// asked for.
pub open spec fn set_id(sets: Seq<RPS>, blend_func: Blend, pixel_format: MTLPixelFormat) -> int {
    if sets_serve(sets, blend_func, pixel_format) {
        choose|i: int| 0 <= i < sets.len() && (#[trigger] sets[i]).serves(blend_func, pixel_format)
    } else {
        sets.len() as int
    }
}

impl RPSCache {
    /// The invariant of the cache.
    pub open spec fn wf(&self) -> bool {
        sets_valid(self@)
    }

    pub fn new() -> (cache: Self)
        ensures
            cache@ == Seq::<RPS>::empty(),
            cache.wf(),
    {
        Self { inner: Vec::new() }
    }

    pub fn len(&self) -> (len: usize)
        ensures
            len == self@.len(),
    {
        self.inner.len()
    }

    /// The set for a blend function and a format. It is made, with the
    /// next number, if the cache does not hold it yet.
    pub fn get(&mut self, blend_func: Blend, pixel_format: MTLPixelFormat) -> (rps: RPS)
        requires
            old(self).wf(),
        ensures
            final(self).wf(),
            final(self)@ == sets_after_get(old(self)@, blend_func, pixel_format),
            rps == (RPS {
                id: set_id(old(self)@, blend_func, pixel_format) as usize,
                blend_func,
                pixel_format,
            }),
            0 <= rps.id < final(self)@.len(),
            final(self)@[rps.id as int] == rps,
    {
        let mut i: usize = 0;
        while i < self.inner.len()
            invariant
                0 <= i <= self.inner@.len(),
                self.inner@ == old(self).inner@,
                sets_valid(self.inner@),
                forall|k: int| 0 <= k < i ==> !(#[trigger] self.inner@[k]).serves(blend_func, pixel_format),
            decreases self.inner@.len() - i,
        {
            let found = self.inner[i];
            if found.blend_func == blend_func && found.pixel_format == pixel_format {
                proof {
                    let sets = self.inner@;
                    assert(sets[i as int].serves(blend_func, pixel_format));
                    let c = set_id(sets, blend_func, pixel_format);
                    assert(sets[c].serves(blend_func, pixel_format));
                    if c < i as int {
                        assert(!sets[c].serves(sets[i as int].blend_func, sets[i as int].pixel_format));
                    }
                    if (i as int) < c {
                        assert(!sets[i as int].serves(sets[c].blend_func, sets[c].pixel_format));
                    }
                    assert(c == i);
                }
                return found;
            }
            i += 1;
        }
        let rps = RPS::new(self.inner.len(), blend_func, pixel_format);
        self.inner.push(rps);
        rps
    }
}

/// Asking twice for the same blend function and format gives the same
/// set, and the second request makes nothing.
pub proof fn lemma_get_twice(sets: Seq<RPS>, blend_func: Blend, pixel_format: MTLPixelFormat)
    requires
        sets_valid(sets),
        sets.len() <= usize::MAX,
    ensures
        sets_valid(sets_after_get(sets, blend_func, pixel_format)),
        sets_after_get(sets_after_get(sets, blend_func, pixel_format), blend_func, pixel_format)
            == sets_after_get(sets, blend_func, pixel_format),
        set_id(sets_after_get(sets, blend_func, pixel_format), blend_func, pixel_format) == set_id(
            sets,
            blend_func,
            pixel_format,
        ),
{
    let after = sets_after_get(sets, blend_func, pixel_format);
    let id = set_id(sets, blend_func, pixel_format);
    if sets_serve(sets, blend_func, pixel_format) {
    } else {
        assert(after[sets.len() as int].serves(blend_func, pixel_format));
        assert(sets_serve(after, blend_func, pixel_format));
        let c = set_id(after, blend_func, pixel_format);
        assert(after[c].serves(blend_func, pixel_format));
        if c < sets.len() {
            assert(sets[c].serves(blend_func, pixel_format));
        }
    }
}

} // verus!
