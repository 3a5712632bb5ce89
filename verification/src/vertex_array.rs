//! GPU buffer host mirrors and the vertex array (binding set): an index
//! buffer plus an ordered list of vertex buffers whose attributes are
//! assigned consecutive generic attribute slots. GPU handles are carried
//! as opaque ids; the driver layer issues the actual GPU calls from the
//! plans computed here.

use vstd::prelude::*;

use crate::binding::AttrBinding;
use crate::binding::push_layout_bindings;
use crate::binding::spec_layout_bindings;
use crate::binding::spec_layout_offsets_fit;
use crate::binding::spec_slots_used;
use crate::layout::VertAttrType;
use crate::layout::VertLayout;
use crate::layout::spec_layout_of_types;

verus! {

/// Which GPU buffer binding point a sub-range update writes through.
#[derive(Debug, Copy, Clone, PartialEq, Eq, Structural)]
pub enum BufferTarget {
    /// The vertex attribute array binding point.
    Array,
    /// The index (element) array binding point.
    ElementArray,
}

/// A planned sub-range update: overwrite the first `byte_len` bytes of
/// the GPU buffer `buffer_id` with the current host mirror contents,
/// without reallocating the GPU storage.
#[derive(Debug, Copy, Clone, PartialEq, Eq, Structural)]
pub struct SubRangeUpdate {
    pub buffer_id: u32,
    pub target: BufferTarget,
    pub byte_len: u64,
}

/// A vertex type: a record made of float attributes with a fixed packed
/// layout shared by every buffer of this type.
pub trait Vert: Sized {
    /// The attribute types of this vertex type, in declaration order.
    spec fn spec_attr_types() -> Seq<VertAttrType>;

    /// The packed layout of this vertex type: offsets assigned by
    /// cumulative packing over `spec_attr_types`, stride their total.
    fn layout() -> (r: VertLayout)
        ensures
            spec_layout_of_types(r, Self::spec_attr_types()),
    ;
}

/// An index buffer: a GPU handle plus the host mirror of its indices.
pub struct IndexBuf {
    pub id: u32,
    pub indices: Vec<u32>,
}

impl IndexBuf {
    /// Wraps the GPU buffer `id`, whose storage the driver allocated for
    /// these indices, together with their host mirror.
    pub fn new(id: u32, indices: Vec<u32>) -> (r: IndexBuf)
        ensures
            r.id == id,
            r.indices@ == indices@,
    {
        IndexBuf { id, indices }
    }

    /// The GPU handle.
    pub fn id(&self) -> (r: u32)
        ensures
            r == self.id,
    {
        self.id
    }

    /// Number of indices in the host mirror.
    pub fn len(&self) -> (r: usize)
        ensures
            r == self.indices@.len(),
    {
        self.indices.len()
    }

    /// The host mirror contents.
    pub fn indices(&self) -> (r: &[u32])
        ensures
            r@ == self.indices@,
    {
        self.indices.as_slice()
    }

    /// Mutable access to the host mirror.
    pub fn indices_mut(&mut self) -> (r: &mut Vec<u32>)
        ensures
            *r == old(self).indices,
            final(self).id == old(self).id,
            final(self).indices == *final(r),
    {
        &mut self.indices
    }

    /// The sub-range update that streams the whole host mirror into the
    /// GPU buffer: four bytes per index, starting at offset zero.
    pub fn set_data(&self) -> (r: SubRangeUpdate)
        requires
            self.indices@.len() * 4 <= u64::MAX,
        ensures
            r == (SubRangeUpdate {
                buffer_id: self.id,
                target: BufferTarget::ElementArray,
                byte_len: (self.indices@.len() * 4) as u64,
            }),
    {
        SubRangeUpdate {
            buffer_id: self.id,
            target: BufferTarget::ElementArray,
            byte_len: (self.indices.len() as u64) * 4,
        }
    }
}

/// A vertex buffer of records of type `T`: a GPU handle, the host
/// mirror, the records' layout, and the fixed record capacity the GPU
/// storage was allocated for. The mirror's length may change from frame
/// to frame; the GPU storage never grows, so a mirror longer than
/// `capacity` must never be streamed.
pub struct VertBuf<T> {
    pub id: u32,
    pub vertices: Vec<T>,
    pub layout: VertLayout,
    pub capacity: u32,
}

impl<T: Vert> VertBuf<T> {
    /// Wraps the GPU buffer `id`, whose storage the driver allocated for
    /// `capacity` records of type `T`, with `vertices` as the initial
    /// host mirror.
    pub fn new(id: u32, vertices: Vec<T>, capacity: u32) -> (r: VertBuf<T>)
        requires
            vertices@.len() <= capacity,
        ensures
            r.id == id,
            r.vertices@ == vertices@,
            r.capacity == capacity,
            spec_layout_of_types(r.layout, T::spec_attr_types()),
    {
        let layout = T::layout();
        VertBuf { id, vertices, layout, capacity }
    }

    /// The GPU handle.
    pub fn id(&self) -> (r: u32)
        ensures
            r == self.id,
    {
        self.id
    }

    /// The layout shared by every record in this buffer.
    pub fn layout(&self) -> (r: &VertLayout)
        ensures
            r == &self.layout,
    {
        &self.layout
    }

    /// The host mirror contents.
    pub fn vertices(&self) -> (r: &[T])
        ensures
            r@ == self.vertices@,
    {
        self.vertices.as_slice()
    }

    /// Mutable access to the host mirror.
    pub fn vertices_mut(&mut self) -> (r: &mut Vec<T>)
        ensures
            *r == old(self).vertices,
            final(self).id == old(self).id,
            final(self).layout == old(self).layout,
            final(self).capacity == old(self).capacity,
            final(self).vertices == *final(r),
    {
        &mut self.vertices
    }

    /// The sub-range update that streams the current host mirror into
    /// the GPU buffer. The mirror must fit the storage the buffer was
    /// allocated with: streaming past `capacity` would corrupt adjacent
    /// GPU memory, so it is ruled out here.
    pub fn set_data(&self) -> (r: SubRangeUpdate)
        requires
            self.vertices@.len() <= self.capacity,
        ensures
            r == (SubRangeUpdate {
                buffer_id: self.id,
                target: BufferTarget::Array,
                byte_len: (self.vertices@.len() * self.layout.stride) as u64,
            }),
    {
        proof {
            assert(self.vertices@.len() * self.layout.stride <= u64::MAX) by (nonlinear_arith)
                requires
                    self.vertices@.len() <= u32::MAX,
                    self.layout.stride <= u32::MAX,
            ;
        }
        SubRangeUpdate {
            buffer_id: self.id,
            target: BufferTarget::Array,
            byte_len: (self.vertices.len() as u64) * (self.layout.stride as u64),
        }
    }
}

/// One vertex buffer as seen by the binding algorithm: the GPU buffer
/// the slots read from, and the layout of its records.
pub struct BufDesc {
    pub buffer_id: u32,
    pub layout: VertLayout,
}

/// Slots consumed by the first `i` buffers of a binding set.
pub open spec fn spec_buf_slots(bufs: Seq<BufDesc>, i: int) -> int
    decreases i,
{
    if i <= 0 {
        0
    } else {
        spec_buf_slots(bufs, i - 1) + spec_slots_used(
            bufs[i - 1].layout.attrs@,
            bufs[i - 1].layout.attrs@.len() as int,
        )
    }
}

/// Buffer slot totals only grow as more buffers are bound.
pub proof fn lemma_buf_slots_monotone(bufs: Seq<BufDesc>, i: int, j: int)
    requires
        0 <= i <= j,
    ensures
        spec_buf_slots(bufs, i) <= spec_buf_slots(bufs, j),
    decreases j,
{
    if i < j {
        lemma_buf_slots_monotone(bufs, i, j - 1);
        crate::binding::lemma_slots_used_monotone(
            bufs[j - 1].layout.attrs@,
            0,
            bufs[j - 1].layout.attrs@.len() as int,
        );
    }
}

/// The slot plan of the first `i` buffers: each buffer's attributes are
/// bound right after the slots of the buffers before it, with one shared
/// slot counter across the whole set, never reset per buffer.
pub open spec fn spec_plan_prefix(bufs: Seq<BufDesc>, base_slot: int, i: int) -> Seq<AttrBinding>
    decreases i,
{
    if i <= 0 {
        Seq::empty()
    } else {
        spec_plan_prefix(bufs, base_slot, i - 1) + spec_layout_bindings(
            bufs[i - 1].layout,
            bufs[i - 1].buffer_id,
            base_slot + spec_buf_slots(bufs, i - 1),
        )
    }
}

/// The whole slot plan of an ordered buffer list starting at `base_slot`.
pub open spec fn spec_plan(bufs: Seq<BufDesc>, base_slot: int) -> Seq<AttrBinding> {
    spec_plan_prefix(bufs, base_slot, bufs.len() as int)
}

/// Every layout's slot offsets stay within `u32`.
pub open spec fn spec_bufs_fit(bufs: Seq<BufDesc>) -> bool {
    forall|i: int| 0 <= i < bufs.len()
        ==> spec_layout_offsets_fit((#[trigger] bufs[i]).layout.attrs@)
}

/// A vertex array (binding set): one index buffer and the slot plan of
/// an ordered list of vertex buffers, bound into a single drawable
/// configuration.
pub struct VertArray {
    pub id: u32,
    pub vert_attr_index: u32,
    pub index_buf: IndexBuf,
    pub bindings: Vec<AttrBinding>,
}

impl VertArray {
    /// Builds the binding set for the GPU vertex array `id`: assigns the
    /// attributes of each buffer, in order, to consecutive generic
    /// attribute slots starting at slot zero, and keeps the computed
    /// plan together with the next free slot.
    pub fn new(id: u32, vert_bufs: Vec<BufDesc>, index_buf: IndexBuf) -> (r: VertArray)
        requires
            spec_buf_slots(vert_bufs@, vert_bufs@.len() as int) <= u32::MAX,
            spec_bufs_fit(vert_bufs@),
        ensures
            r.id == id,
            r.index_buf == index_buf,
            r.bindings@ == spec_plan(vert_bufs@, 0),
            r.vert_attr_index == spec_buf_slots(vert_bufs@, vert_bufs@.len() as int),
    {
        let ghost bufs = vert_bufs@;
        let mut bindings: Vec<AttrBinding> = Vec::new();
        let mut slot: u32 = 0;
        let mut k: usize = 0;
        while k < vert_bufs.len()
            invariant
                k <= bufs.len(),
                bufs == vert_bufs@,
                spec_buf_slots(bufs, bufs.len() as int) <= u32::MAX,
                spec_bufs_fit(bufs),
                slot == spec_buf_slots(bufs, k as int),
                bindings@ == spec_plan_prefix(bufs, 0, k as int),
            decreases bufs.len() - k,
        {
            let b = &vert_bufs[k];
            proof {
                lemma_buf_slots_monotone(bufs, k as int + 1, bufs.len() as int);
            }
            slot = push_layout_bindings(&mut bindings, &b.layout, b.buffer_id, slot);
            k = k + 1;
        }
        VertArray { id, vert_attr_index: slot, index_buf, bindings }
    }

    /// The GPU handle of the vertex array.
    pub fn id(&self) -> (r: u32)
        ensures
            r == self.id,
    {
        self.id
    }

    /// The computed slot plan, one entry per configured attribute slot.
    pub fn bindings(&self) -> (r: &Vec<AttrBinding>)
        ensures
            r == &self.bindings,
    {
        &self.bindings
    }

    /// The bound index buffer.
    pub fn index_buf(&self) -> (r: &IndexBuf)
        ensures
            r == &self.index_buf,
    {
        &self.index_buf
    }

    /// Mutable access to the bound index buffer.
    pub fn index_buf_mut(&mut self) -> (r: &mut IndexBuf)
        ensures
            *r == old(self).index_buf,
            final(self).id == old(self).id,
            final(self).vert_attr_index == old(self).vert_attr_index,
            final(self).bindings == old(self).bindings,
            final(self).index_buf == *final(r),
    {
        &mut self.index_buf
    }

    /// Replaces the bound index buffer.
    pub fn set_index_buf(&mut self, index_buf: IndexBuf)
        ensures
            final(self).id == old(self).id,
            final(self).vert_attr_index == old(self).vert_attr_index,
            final(self).bindings == old(self).bindings,
            final(self).index_buf == index_buf,
    {
        self.index_buf = index_buf;
    }

    /// Appends one more vertex buffer's attributes onto the existing
    /// slot sequence, continuing from the next free slot.
    pub fn push_buf(&mut self, buf: &BufDesc)
        requires
            old(self).vert_attr_index + spec_slots_used(
                buf.layout.attrs@,
                buf.layout.attrs@.len() as int,
            ) <= u32::MAX,
            spec_layout_offsets_fit(buf.layout.attrs@),
        ensures
            final(self).id == old(self).id,
            final(self).index_buf == old(self).index_buf,
            final(self).bindings@ == old(self).bindings@ + spec_layout_bindings(
                buf.layout,
                buf.buffer_id,
                old(self).vert_attr_index as int,
            ),
            final(self).vert_attr_index == old(self).vert_attr_index + spec_slots_used(
                buf.layout.attrs@,
                buf.layout.attrs@.len() as int,
            ),
    {
        let next = push_layout_bindings(
            &mut self.bindings,
            &buf.layout,
            buf.buffer_id,
            self.vert_attr_index,
        );
        self.vert_attr_index = next;
    }
}

} // verus!
