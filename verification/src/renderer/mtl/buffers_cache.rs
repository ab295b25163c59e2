//! Per-frame buffers for several frames in flight.
//!
//! With more than one set of buffers, the next frame can be built while
//! the device still reads the last one. A set is busy from the moment it
//! is acquired until the device is done with its frame.

use vstd::prelude::*;
use crate::geometry::Size;
use crate::renderer::mtl::stencil_texture::StencilTexture;
use crate::renderer::{BufferCache, Vertex};

verus! {

/// The place of a set of buffers in the cache.
#[derive(Clone, Copy, PartialEq, Eq, Structural, Debug, Hash)]
pub struct BufferIndex {
    inner: usize,
}

impl BufferIndex {
    pub closed spec fn spec_position(&self) -> usize {
        self.inner
    }

    #[verifier::when_used_as_spec(spec_position)]
    pub fn position(&self) -> (position: usize)
        ensures
            position == self.spec_position(),
    {
        self.inner
    }
}

/// The buffers of one frame.
pub struct MtlBuffers {
    pub stencil_texture: StencilTexture,
    pub vertex_buffer: Vec<Vertex>,
    pub index_buffer: Vec<u32>,
}

impl MtlBuffers {
    /// Empty buffers and a stencil plane of the given size.
    pub fn new(size: Size) -> (buffers: Self)
        ensures
            buffers.stencil_texture == (StencilTexture { size, gen: 0 }),
            buffers.vertex_buffer@ == Seq::<Vertex>::empty(),
            buffers.index_buffer@ == Seq::<u32>::empty(),
    {
        Self {
            stencil_texture: StencilTexture::new(size),
            vertex_buffer: Vec::with_capacity(32),
            index_buffer: Vec::with_capacity(32),
        }
    }

    fn release(&mut self)
        ensures
            final(self).stencil_texture == old(self).stencil_texture,
            final(self).vertex_buffer@ == Seq::<Vertex>::empty(),
            final(self).index_buffer@ == Seq::<u32>::empty(),
    {
        self.vertex_buffer.clear();
        self.index_buffer.clear();
    }
}

struct MtlBufferCacheEntry {
    inner: MtlBuffers,
    busy: bool,
}

/// A fixed number of sets of buffers, each busy or free.
pub struct MtlBuffersCache {
    inner: Vec<MtlBufferCacheEntry>,
}

impl BufferCache for MtlBuffersCache {

}

impl View for MtlBuffersCache {
    type V = Seq<bool>;

    /// For each set, whether it is busy.
    closed spec fn view(&self) -> Seq<bool> {
        Seq::new(self.inner@.len(), |i: int| self.inner@[i].busy)
    }
}

/// Whether `i` is the first free set of `busy`.
pub open spec fn first_free(busy: Seq<bool>, i: int) -> bool {
    &&& 0 <= i < busy.len()
    &&& !busy[i]
    &&& forall|k: int| 0 <= k < i ==> busy[k]
}

/// Whether every set of `busy` is busy.
pub open spec fn all_busy(busy: Seq<bool>) -> bool {
    forall|k: int| 0 <= k < busy.len() ==> busy[k]
}

impl MtlBuffersCache {
    /// The buffers of set `i`.
    pub closed spec fn buffers(&self, i: int) -> MtlBuffers {
        self.inner@[i].inner
    }

    /// A cache of `count` free sets with stencil planes of the given size.
    pub fn new(size: Size, count: usize) -> (cache: Self)
        ensures
            cache@ == Seq::new(count as nat, |i: int| false),
    {
        let mut inner: Vec<MtlBufferCacheEntry> = Vec::new();
        let mut i: usize = 0;
        while i < count
            invariant
                0 <= i <= count,
                inner@.len() == i,
                forall|k: int| 0 <= k < i ==> !(#[trigger] inner@[k]).busy,
            decreases count - i,
        {
            inner.push(MtlBufferCacheEntry { inner: MtlBuffers::new(size), busy: false });
            i += 1;
        }
        let cache = Self { inner };
        assert(cache@ =~= Seq::new(count as nat, |i: int| false));
        cache
    }

    /// Number of sets.
    pub fn len(&self) -> (len: usize)
        ensures
            len == self@.len(),
    {
        self.inner.len()
    }

    /// Takes the first free set and marks it busy. `None` if every set is
    /// busy: the caller waits for a frame to complete, or drops its frame.
    pub fn acquire(&mut self) -> (taken: Option<BufferIndex>)
        ensures
            match taken {
                Some(index) => first_free(old(self)@, index.spec_position() as int) && final(self)@
                    == old(self)@.update(index.spec_position() as int, true),
                None => all_busy(old(self)@) && final(self)@ == old(self)@,
            },
            forall|k: int|
                0 <= k < old(self)@.len() ==> final(self).buffers(k) == old(self).buffers(k),
    {
        let mut i: usize = 0;
        while i < self.inner.len()
            invariant
                0 <= i <= self.inner@.len(),
                self.inner@ == old(self).inner@,
                forall|k: int| 0 <= k < i ==> (#[trigger] self.inner@[k]).busy,
            decreases self.inner@.len() - i,
        {
            if !self.inner[i].busy {
                self.inner[i].busy = true;
                assert(self@ =~= old(self)@.update(i as int, true));
                return Some(BufferIndex { inner: i });
            }
            i += 1;
        }
        None
    }

    /// Gives a set back: its buffers are emptied and it is free again.
    /// An index that names no set changes nothing.
    pub fn release(&mut self, index: BufferIndex)
        ensures
            index.spec_position() < old(self)@.len() ==> final(self)@ == old(self)@.update(
                index.spec_position() as int,
                false,
            ) && final(self).buffers(index.spec_position() as int).vertex_buffer@ == Seq::<
                Vertex,
            >::empty() && final(self).buffers(index.spec_position() as int).index_buffer@ == Seq::<
                u32,
            >::empty(),
            index.spec_position() >= old(self)@.len() ==> final(self)@ == old(self)@,
            forall|k: int|
                0 <= k < old(self)@.len() && k != index.spec_position() ==> final(self).buffers(k)
                    == old(self).buffers(k),
    {
        let i = index.inner;
        if i < self.inner.len() {
            self.inner[i].inner.release();
            self.inner[i].busy = false;
            assert(self@ =~= old(self)@.update(i as int, false));
        }
    }

    /// The buffers of a set, to fill them for a frame. What the caller
    /// writes replaces the buffers of that set; nothing else changes.
    pub fn buffers_mut(&mut self, index: BufferIndex) -> (buffers: Option<&mut MtlBuffers>)
        ensures
            final(self)@ == old(self)@,
            forall|k: int|
                0 <= k < old(self)@.len() && k != index.spec_position() ==> final(self).buffers(k)
                    == old(self).buffers(k),
            match buffers {
                Some(found) => index.spec_position() < old(self)@.len() && *found == old(
                    self,
                ).buffers(index.spec_position() as int) && final(self).buffers(
                    index.spec_position() as int,
                ) == *final(found),
                None => index.spec_position() >= old(self)@.len(),
            },
    {
        let i = index.inner;
        if i < self.inner.len() {
            let found = &mut self.inner[i].inner;
            Some(found)
        } else {
            None
        }
    }
}

/// A set that was released can be acquired: after a release of a set
/// that exists, not every set is busy.
pub proof fn lemma_release_frees(busy: Seq<bool>, i: int)
    requires
        0 <= i < busy.len(),
    ensures
        !all_busy(busy.update(i, false)),
        exists|k: int| first_free(busy.update(i, false), k),
{
    let after = busy.update(i, false);
    assert(!after[i]);
    lemma_some_first_free(after, i);
}

/// Where some set is free, one of them is the first.
proof fn lemma_some_first_free(busy: Seq<bool>, i: int)
    requires
        0 <= i < busy.len(),
        !busy[i],
    ensures
        exists|k: int| first_free(busy, k),
    decreases i,
{
    if forall|k: int| 0 <= k < i ==> busy[k] {
        assert(first_free(busy, i));
    } else {
        let k = choose|k: int| 0 <= k < i && !busy[k];
        lemma_some_first_free(busy, k);
    }
}

} // verus!
