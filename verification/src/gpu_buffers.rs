//! When the GPU vertex and index buffers of a renderer are created again:
//! each renderer keeps the element counts its buffers were made for and
//! replaces a buffer that is too small for the frame's draw data.
use vstd::prelude::*;

verus! {

/// Extra elements given to a buffer of the immediate-mode DX11 renderer
/// when it is created again.
pub const RENDER_BUFFER_SLACK: usize = 5000;

/// Extra elements given to a buffer of the DX11 overlay renderer when it is
/// created again.
pub const BUFFERS_SLACK: usize = 4096;

/// The element counts of the vertex and index buffers of the immediate-mode
/// DX11 renderer (zero before the first frame).
#[derive(Clone, Copy, Debug, PartialEq, Eq, Structural)]
pub struct RenderBufferSizes {
    pub vertex_buffer_size: usize,
    pub index_buffer_size: usize,
}

/// Which buffers a size check created again.
#[derive(Clone, Copy, Debug, PartialEq, Eq, Structural)]
pub struct Recreated {
    pub vertex: bool,
    pub index: bool,
}

/// Whether a buffer of `current` elements is created again for `needed`
/// elements by the immediate-mode renderer: when it is too small, and also
/// when both are zero.
pub open spec fn render_buffer_stale(current: usize, needed: usize) -> bool {
    current < needed || (current == 0 && needed == 0)
}

/// Whether a buffer of `current` elements is created again for `needed`
/// elements by the overlay renderer: when it is not larger than needed.
pub open spec fn overlay_buffer_stale(current: usize, needed: usize) -> bool {
    current <= needed || (current == 0 && needed == 0)
}

impl RenderBufferSizes {
    /// Buffers not created yet.
    pub fn new() -> (r: Self)
        ensures
            r.vertex_buffer_size == 0,
            r.index_buffer_size == 0,
    {
        RenderBufferSizes { vertex_buffer_size: 0, index_buffer_size: 0 }
    }

    /// Makes the buffers fit `vertex_buffer_size` vertices and
    /// `index_buffer_size` indices: a buffer that is too small (or empty,
    /// for an empty frame) is created again with 5000 elements to spare.
    pub fn check_sizes(&mut self, vertex_buffer_size: usize, index_buffer_size: usize) -> (r:
        Recreated)
        requires
            render_buffer_stale(old(self).vertex_buffer_size, vertex_buffer_size)
                ==> vertex_buffer_size + RENDER_BUFFER_SLACK <= usize::MAX,
            render_buffer_stale(old(self).index_buffer_size, index_buffer_size) ==> index_buffer_size
                + RENDER_BUFFER_SLACK <= usize::MAX,
        ensures
            r.vertex == render_buffer_stale(old(self).vertex_buffer_size, vertex_buffer_size),
            r.index == render_buffer_stale(old(self).index_buffer_size, index_buffer_size),
            final(self).vertex_buffer_size == if r.vertex {
                (vertex_buffer_size + RENDER_BUFFER_SLACK) as usize
            } else {
                old(self).vertex_buffer_size
            },
            final(self).index_buffer_size == if r.index {
                (index_buffer_size + RENDER_BUFFER_SLACK) as usize
            } else {
                old(self).index_buffer_size
            },
            final(self).vertex_buffer_size >= vertex_buffer_size,
            final(self).index_buffer_size >= index_buffer_size,
    {
        let mut r = Recreated { vertex: false, index: false };
        if self.vertex_buffer_size < vertex_buffer_size || (self.vertex_buffer_size == 0
            && vertex_buffer_size == 0) {
            self.vertex_buffer_size = vertex_buffer_size + RENDER_BUFFER_SLACK;
            r.vertex = true;
        }
        if self.index_buffer_size < index_buffer_size || (self.index_buffer_size == 0
            && index_buffer_size == 0) {
            self.index_buffer_size = index_buffer_size + RENDER_BUFFER_SLACK;
            r.index = true;
        }
        r
    }
}

/// The element counts of the vertex and index buffers of the DX11 overlay
/// renderer.
#[derive(Clone, Copy, Debug, PartialEq, Eq, Structural)]
pub struct BufferCounts {
    pub vtx_count: usize,
    pub idx_count: usize,
}

impl BufferCounts {
    /// Makes the buffers hold more than `vtx_count` vertices and `idx_count`
    /// indices: a buffer that is not larger than that is created again with
    /// 4096 elements to spare.
    pub fn resize(&mut self, vtx_count: usize, idx_count: usize) -> (r: Recreated)
        requires
            overlay_buffer_stale(old(self).vtx_count, vtx_count) ==> vtx_count + BUFFERS_SLACK
                <= usize::MAX,
            overlay_buffer_stale(old(self).idx_count, idx_count) ==> idx_count + BUFFERS_SLACK
                <= usize::MAX,
        ensures
            r.vertex == overlay_buffer_stale(old(self).vtx_count, vtx_count),
            r.index == overlay_buffer_stale(old(self).idx_count, idx_count),
            final(self).vtx_count == if r.vertex {
                (vtx_count + BUFFERS_SLACK) as usize
            } else {
                old(self).vtx_count
            },
            final(self).idx_count == if r.index {
                (idx_count + BUFFERS_SLACK) as usize
            } else {
                old(self).idx_count
            },
            final(self).vtx_count > vtx_count,
            final(self).idx_count > idx_count,
    {
        let mut r = Recreated { vertex: false, index: false };
        if self.vtx_count <= vtx_count || (self.vtx_count == 0 && vtx_count == 0) {
            self.vtx_count = vtx_count + BUFFERS_SLACK;
            r.vertex = true;
        }
        if self.idx_count <= idx_count || (self.idx_count == 0 && idx_count == 0) {
            self.idx_count = idx_count + BUFFERS_SLACK;
            r.index = true;
        }
        r
    }
}

/// The element capacity of a GPU upload buffer of the newer renderers,
/// which follows the capacity of the CPU-side data it is filled from.
#[derive(Clone, Copy, Debug, PartialEq, Eq, Structural)]
pub struct ResourceCapacity {
    pub resource_capacity: usize,
}

impl ResourceCapacity {
    /// Before an upload of data whose vector has room for `data_capacity`
    /// elements: the resource is created again, with that capacity, when the
    /// data outgrew it. Returns whether it was.
    pub fn reserve(&mut self, data_capacity: usize) -> (recreated: bool)
        ensures
            recreated == (data_capacity > old(self).resource_capacity),
            final(self).resource_capacity == if recreated {
                data_capacity
            } else {
                old(self).resource_capacity
            },
            final(self).resource_capacity >= data_capacity,
            final(self).resource_capacity >= old(self).resource_capacity,
    {
        if data_capacity > self.resource_capacity {
            self.resource_capacity = data_capacity;
            true
        } else {
            false
        }
    }

    /// The width in bytes of a buffer resource of this capacity, with
    /// elements of `element_size` bytes.
    pub fn byte_width(&self, element_size: usize) -> (r: usize)
        requires
            self.resource_capacity * element_size <= usize::MAX,
        ensures
            r == self.resource_capacity * element_size,
    {
        self.resource_capacity * element_size
    }
}

/// Once a size check has run, a second check for the same or a smaller
/// non-empty frame creates nothing again.
pub proof fn lemma_check_sizes_settles(sizes: RenderBufferSizes, v1: usize, i1: usize, v2: usize, i2: usize)
    requires
        sizes.vertex_buffer_size >= v1 || v1 + RENDER_BUFFER_SLACK <= usize::MAX,
        v2 <= v1,
        i2 <= i1,
        sizes.index_buffer_size >= i1 || i1 + RENDER_BUFFER_SLACK <= usize::MAX,
    ensures
        ({
            let after_v = if render_buffer_stale(sizes.vertex_buffer_size, v1) {
                v1 + RENDER_BUFFER_SLACK
            } else {
                sizes.vertex_buffer_size as int
            };
            let after_i = if render_buffer_stale(sizes.index_buffer_size, i1) {
                i1 + RENDER_BUFFER_SLACK
            } else {
                sizes.index_buffer_size as int
            };
            &&& !render_buffer_stale(after_v as usize, v2)
            &&& !render_buffer_stale(after_i as usize, i2)
        }),
{
}

} // verus!
