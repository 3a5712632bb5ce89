//! The vertex-array binding algorithm: maps the attributes of an ordered
//! list of vertex buffers onto consecutive generic GPU attribute slots.
//! Matrix-typed attributes are split into one slot per column and marked
//! instance-rate (attribute divisor one); vector-typed attributes take a
//! single per-vertex slot (divisor zero).

use vstd::prelude::*;

use crate::layout::GL_FLOAT;
use crate::layout::VertAttr;
use crate::layout::VertAttrType;
use crate::layout::VertLayout;
use crate::layout::spec_attr_size;

verus! {

/// How many consecutive attribute slots one attribute of this type
/// consumes: one per vector, one per matrix column.
pub open spec fn spec_attr_slots(t: VertAttrType) -> nat {
    match t {
        VertAttrType::Float2 => 1,
        VertAttrType::Float3 => 1,
        VertAttrType::Mat3 => 3,
        VertAttrType::Mat4 => 4,
    }
}

/// Float components fetched through each slot of this attribute type.
pub open spec fn spec_slot_components(t: VertAttrType) -> nat {
    match t {
        VertAttrType::Float2 => 2,
        VertAttrType::Float3 => 3,
        VertAttrType::Mat3 => 3,
        VertAttrType::Mat4 => 4,
    }
}

/// Byte distance between the data of consecutive slots of one attribute:
/// the byte size of one matrix column, or of the whole vector.
pub open spec fn spec_slot_pitch(t: VertAttrType) -> nat {
    4 * spec_slot_components(t)
}

/// The attribute divisor of every slot of this attribute type: matrix
/// attributes advance once per instance, vector attributes once per
/// vertex.
pub open spec fn spec_attr_divisor(t: VertAttrType) -> nat {
    match t {
        VertAttrType::Float2 => 0,
        VertAttrType::Float3 => 0,
        VertAttrType::Mat3 => 1,
        VertAttrType::Mat4 => 1,
    }
}

/// One configured GPU attribute slot: everything a driver needs for the
/// corresponding vertex-attribute-pointer, enable, and divisor calls.
#[derive(Debug, Copy, Clone, PartialEq, Eq, Structural)]
pub struct AttrBinding {
    /// The generic vertex-attribute slot this configuration fills.
    pub slot: u32,
    /// Float components fetched through this slot.
    pub components: u32,
    /// GPU component type; always the float enum here.
    pub gl_type: u32,
    /// Whether fixed-point data is normalized when fetched.
    pub normalized: bool,
    /// Byte distance between consecutive records in the buffer.
    pub stride: u32,
    /// Byte offset of this slot's data inside one record.
    pub offset: u32,
    /// Attribute divisor: zero advances per vertex, one per instance.
    pub divisor: u32,
    /// The GPU buffer the slot reads from.
    pub buffer_id: u32,
}

/// The binding of slot `j` of attribute `a`, read from buffer
/// `buffer_id` whose records are `stride` bytes apart, with the slot
/// group starting at generic slot `base_slot`.
pub open spec fn spec_slot_binding(
    a: VertAttr,
    stride: u32,
    buffer_id: u32,
    base_slot: int,
    j: int,
) -> AttrBinding {
    AttrBinding {
        slot: (base_slot + j) as u32,
        components: spec_slot_components(a.attr_type) as u32,
        gl_type: GL_FLOAT,
        normalized: a.normalized,
        stride,
        offset: (a.offset + j * spec_slot_pitch(a.attr_type)) as u32,
        divisor: spec_attr_divisor(a.attr_type) as u32,
        buffer_id,
    }
}

/// All slot bindings of one attribute, in slot order.
pub open spec fn spec_attr_bindings(
    a: VertAttr,
    stride: u32,
    buffer_id: u32,
    base_slot: int,
) -> Seq<AttrBinding> {
    Seq::new(
        spec_attr_slots(a.attr_type),
        |j: int| spec_slot_binding(a, stride, buffer_id, base_slot, j),
    )
}

/// Slots consumed by the first `i` attributes of a layout.
pub open spec fn spec_slots_used(attrs: Seq<VertAttr>, i: int) -> int
    decreases i,
{
    if i <= 0 {
        0
    } else {
        spec_slots_used(attrs, i - 1) + spec_attr_slots(attrs[i - 1].attr_type)
    }
}

/// Slot counts only grow as more attributes are bound.
pub proof fn lemma_slots_used_monotone(attrs: Seq<VertAttr>, i: int, j: int)
    requires
        0 <= i <= j,
    ensures
        spec_slots_used(attrs, i) <= spec_slots_used(attrs, j),
    decreases j,
{
    if i < j {
        lemma_slots_used_monotone(attrs, i, j - 1);
    }
}

/// The bindings of the first `i` attributes of one buffer's layout, with
/// the buffer's slot group starting at `base_slot`: each attribute takes
/// its slots right after the slots of the attributes before it.
pub open spec fn spec_layout_bindings_prefix(
    attrs: Seq<VertAttr>,
    stride: u32,
    buffer_id: u32,
    base_slot: int,
    i: int,
) -> Seq<AttrBinding>
    decreases i,
{
    if i <= 0 {
        Seq::empty()
    } else {
        spec_layout_bindings_prefix(attrs, stride, buffer_id, base_slot, i - 1)
            + spec_attr_bindings(
                attrs[i - 1],
                stride,
                buffer_id,
                base_slot + spec_slots_used(attrs, i - 1),
            )
    }
}

/// All bindings of one buffer's layout starting at `base_slot`.
pub open spec fn spec_layout_bindings(
    layout: VertLayout,
    buffer_id: u32,
    base_slot: int,
) -> Seq<AttrBinding> {
    spec_layout_bindings_prefix(
        layout.attrs@,
        layout.stride,
        buffer_id,
        base_slot,
        layout.attrs@.len() as int,
    )
}

/// No attribute's last slot reads past the end of a `u32` byte offset:
/// every slot's byte offset stays within `u32`.
pub open spec fn spec_layout_offsets_fit(attrs: Seq<VertAttr>) -> bool {
    forall|i: int| 0 <= i < attrs.len()
        ==> (#[trigger] attrs[i]).offset + spec_attr_size(attrs[i].attr_type) <= u32::MAX
}

/// Slots consumed by the first `i` attribute types.
pub open spec fn spec_slots_total(types: Seq<VertAttrType>, i: int) -> int
    decreases i,
{
    if i <= 0 {
        0
    } else {
        spec_slots_total(types, i - 1) + spec_attr_slots(types[i - 1])
    }
}

/// The binding of slot `j` of the `k`-th attribute of a packed layout
/// with exactly the attribute types `types`, read from `buffer_id`,
/// with the layout's slot group starting at `base_slot`.
pub open spec fn spec_typed_slot_binding(
    types: Seq<VertAttrType>,
    k: int,
    j: int,
    buffer_id: u32,
    base_slot: int,
) -> AttrBinding {
    AttrBinding {
        slot: (base_slot + spec_slots_total(types, k) + j) as u32,
        components: spec_slot_components(types[k]) as u32,
        gl_type: GL_FLOAT,
        normalized: false,
        stride: crate::layout::spec_packed_offset(types, types.len() as int) as u32,
        offset: (crate::layout::spec_packed_offset(types, k)
            + j * spec_slot_pitch(types[k])) as u32,
        divisor: spec_attr_divisor(types[k]) as u32,
        buffer_id,
    }
}

/// The bindings of the first `i` attributes of a packed layout with
/// exactly the attribute types `types`.
pub open spec fn spec_typed_bindings_prefix(
    types: Seq<VertAttrType>,
    buffer_id: u32,
    base_slot: int,
    i: int,
) -> Seq<AttrBinding>
    decreases i,
{
    if i <= 0 {
        Seq::empty()
    } else {
        spec_typed_bindings_prefix(types, buffer_id, base_slot, i - 1)
            + Seq::new(
                spec_attr_slots(types[i - 1]),
                |j: int| spec_typed_slot_binding(types, i - 1, j, buffer_id, base_slot),
            )
    }
}

/// All bindings of a packed layout with exactly the attribute types
/// `types`, starting at `base_slot`.
pub open spec fn spec_typed_bindings(
    types: Seq<VertAttrType>,
    buffer_id: u32,
    base_slot: int,
) -> Seq<AttrBinding> {
    spec_typed_bindings_prefix(types, buffer_id, base_slot, types.len() as int)
}

/// In a packed layout the slots used by the attributes equal the slots
/// used by their types.
pub proof fn lemma_packed_slots_total(l: VertLayout, types: Seq<VertAttrType>, i: int)
    requires
        crate::layout::spec_layout_of_types(l, types),
        0 <= i <= types.len(),
    ensures
        spec_slots_used(l.attrs@, i) == spec_slots_total(types, i),
    decreases i,
{
    if i > 0 {
        lemma_packed_slots_total(l, types, i - 1);
    }
}

/// Every slot byte offset of a packed layout stays within `u32`: each
/// attribute's offset plus its byte size is a later packed offset,
/// bounded by the stride.
pub proof fn lemma_packed_layout_fits(l: VertLayout, types: Seq<VertAttrType>)
    requires
        crate::layout::spec_layout_of_types(l, types),
    ensures
        spec_layout_offsets_fit(l.attrs@),
{
    assert forall|i: int| 0 <= i < l.attrs@.len()
        implies (#[trigger] l.attrs@[i]).offset + spec_attr_size(l.attrs@[i].attr_type)
            <= u32::MAX
    by {
        assert(l.attrs@[i].offset + spec_attr_size(l.attrs@[i].attr_type)
            == crate::layout::spec_packed_offset(types, i + 1));
        crate::layout::lemma_packed_offset_monotone(types, i + 1, types.len() as int);
    }
}

/// The bindings of a packed layout are exactly the bindings determined
/// by its attribute types: same slots, same components, the packed
/// offsets, the stride, and divisor one exactly on matrix columns.
pub proof fn lemma_packed_layout_bindings(
    l: VertLayout,
    types: Seq<VertAttrType>,
    buffer_id: u32,
    base_slot: int,
    i: int,
)
    requires
        crate::layout::spec_layout_of_types(l, types),
        0 <= i <= types.len(),
    ensures
        spec_layout_bindings_prefix(l.attrs@, l.stride, buffer_id, base_slot, i)
            == spec_typed_bindings_prefix(types, buffer_id, base_slot, i),
    decreases i,
{
    if i > 0 {
        lemma_packed_layout_bindings(l, types, buffer_id, base_slot, i - 1);
        lemma_packed_slots_total(l, types, i - 1);
        let a = l.attrs@[i - 1];
        let lhs = spec_attr_bindings(a, l.stride, buffer_id, base_slot + spec_slots_used(
            l.attrs@,
            i - 1,
        ));
        let rhs = Seq::new(
            spec_attr_slots(types[i - 1]),
            |j: int| spec_typed_slot_binding(types, i - 1, j, buffer_id, base_slot),
        );
        assert(lhs =~= rhs);
    }
}

/// The same, for the whole layout.
pub proof fn lemma_packed_layout_bindings_full(
    l: VertLayout,
    types: Seq<VertAttrType>,
    buffer_id: u32,
    base_slot: int,
)
    requires
        crate::layout::spec_layout_of_types(l, types),
    ensures
        spec_layout_bindings(l, buffer_id, base_slot)
            == spec_typed_bindings(types, buffer_id, base_slot),
{
    lemma_packed_layout_bindings(l, types, buffer_id, base_slot, types.len() as int);
}

/// Appends the slot bindings of one buffer's whole layout to `out`,
/// assigning consecutive slots from `next_slot` on, and returns the next
/// free slot. Matrix attributes get one slot per column, each offset one
/// column further into the record, and divisor one; vector attributes
/// get a single slot with divisor zero.
pub fn push_layout_bindings(
    out: &mut Vec<AttrBinding>,
    layout: &VertLayout,
    buffer_id: u32,
    next_slot: u32,
) -> (new_next: u32)
    requires
        next_slot + spec_slots_used(layout.attrs@, layout.attrs@.len() as int) <= u32::MAX,
        spec_layout_offsets_fit(layout.attrs@),
    ensures
        final(out)@ == old(out)@ + spec_layout_bindings(*layout, buffer_id, next_slot as int),
        new_next == next_slot + spec_slots_used(layout.attrs@, layout.attrs@.len() as int),
{
    let ghost attrs = layout.attrs@;
    let ghost base = next_slot as int;
    let mut slot: u32 = next_slot;
    let mut k: usize = 0;
    while k < layout.attrs.len()
        invariant
            k <= attrs.len(),
            attrs == layout.attrs@,
            base == next_slot as int,
            base + spec_slots_used(attrs, attrs.len() as int) <= u32::MAX,
            spec_layout_offsets_fit(attrs),
            slot == base + spec_slots_used(attrs, k as int),
            out@ == old(out)@ + spec_layout_bindings_prefix(
                attrs,
                layout.stride,
                buffer_id,
                base,
                k as int,
            ),
        decreases attrs.len() - k,
    {
        let a = layout.attrs[k];
        proof {
            lemma_slots_used_monotone(attrs, k as int + 1, attrs.len() as int);
        }
        let slots = attr_slots(a.attr_type);
        let components = slot_components(a.attr_type);
        let pitch = slot_pitch(a.attr_type);
        let divisor = attr_divisor(a.attr_type);
        let ghost group_base = slot as int;
        let mut j: u32 = 0;
        while j < slots
            invariant
                0 <= j <= slots,
                slots == spec_attr_slots(a.attr_type),
                components == spec_slot_components(a.attr_type),
                pitch == spec_slot_pitch(a.attr_type),
                divisor == spec_attr_divisor(a.attr_type),
                a == attrs[k as int],
                k < attrs.len(),
                group_base == slot as int,
                group_base + slots <= u32::MAX,
                a.offset + spec_attr_size(a.attr_type) <= u32::MAX,
                out@ == old(out)@ + spec_layout_bindings_prefix(
                    attrs,
                    layout.stride,
                    buffer_id,
                    base,
                    k as int,
                ) + spec_attr_bindings(a, layout.stride, buffer_id, group_base).take(j as int),
            decreases slots - j,
        {
            assert(j * pitch + pitch <= spec_attr_size(a.attr_type)) by (nonlinear_arith)
                requires
                    0 <= j < slots,
                    pitch == spec_slot_pitch(a.attr_type),
                    slots == spec_attr_slots(a.attr_type),
                    spec_attr_slots(a.attr_type) * spec_slot_pitch(a.attr_type)
                        <= spec_attr_size(a.attr_type),
            ;
            let b = AttrBinding {
                slot: slot + j,
                components,
                gl_type: GL_FLOAT,
                normalized: a.normalized,
                stride: layout.stride,
                offset: a.offset + j * pitch,
                divisor,
                buffer_id,
            };
            out.push(b);
            proof {
                assert(b == spec_slot_binding(a, layout.stride, buffer_id, group_base, j as int));
                assert(spec_attr_bindings(a, layout.stride, buffer_id, group_base)
                    .take(j as int + 1)
                    =~= spec_attr_bindings(a, layout.stride, buffer_id, group_base)
                        .take(j as int)
                        .push(b));
            }
            j = j + 1;
        }
        proof {
            assert(spec_attr_bindings(a, layout.stride, buffer_id, group_base).take(slots as int)
                =~= spec_attr_bindings(a, layout.stride, buffer_id, group_base));
        }
        slot = slot + slots;
        k = k + 1;
    }
    slot
}

/// Slots of one attribute of this type; matches `spec_attr_slots`.
fn attr_slots(t: VertAttrType) -> (r: u32)
    ensures
        r == spec_attr_slots(t),
{
    match t {
        VertAttrType::Float2 => 1,
        VertAttrType::Float3 => 1,
        VertAttrType::Mat3 => 3,
        VertAttrType::Mat4 => 4,
    }
}

/// Components per slot of this type; matches `spec_slot_components`.
fn slot_components(t: VertAttrType) -> (r: u32)
    ensures
        r == spec_slot_components(t),
{
    match t {
        VertAttrType::Float2 => 2,
        VertAttrType::Float3 => 3,
        VertAttrType::Mat3 => 3,
        VertAttrType::Mat4 => 4,
    }
}

/// Byte pitch between consecutive slots; matches `spec_slot_pitch`.
fn slot_pitch(t: VertAttrType) -> (r: u32)
    ensures
        r == spec_slot_pitch(t),
{
    slot_components(t) * 4
}

/// Divisor of every slot of this type; matches `spec_attr_divisor`.
fn attr_divisor(t: VertAttrType) -> (r: u32)
    ensures
        r == spec_attr_divisor(t),
{
    match t {
        VertAttrType::Float2 => 0,
        VertAttrType::Float3 => 0,
        VertAttrType::Mat3 => 1,
        VertAttrType::Mat4 => 1,
    }
}


/// A packed layout's plan has one entry per consumed slot.
pub proof fn lemma_typed_bindings_len(
    types: Seq<VertAttrType>,
    buffer_id: u32,
    base_slot: int,
    i: int,
)
    requires
        0 <= i,
    ensures
        spec_typed_bindings_prefix(types, buffer_id, base_slot, i).len()
            == spec_slots_total(types, i),
    decreases i,
{
    if i > 0 {
        lemma_typed_bindings_len(types, buffer_id, base_slot, i - 1);
    }
}

/// Law: the slots of a packed layout's plan are consecutive — the
/// plan's `k`-th entry fills slot `base_slot + k`, whatever mix of
/// vector and matrix attributes the layout holds.
pub proof fn lemma_typed_bindings_slots_consecutive(
    types: Seq<VertAttrType>,
    buffer_id: u32,
    base_slot: int,
    i: int,
    k: int,
)
    requires
        0 <= i,
        0 <= k < spec_typed_bindings_prefix(types, buffer_id, base_slot, i).len(),
    ensures
        spec_typed_bindings_prefix(types, buffer_id, base_slot, i)[k].slot
            == (base_slot + k) as u32,
    decreases i,
{
    lemma_typed_bindings_len(types, buffer_id, base_slot, i);
    if i > 0 {
        lemma_typed_bindings_len(types, buffer_id, base_slot, i - 1);
        if k < spec_slots_total(types, i - 1) {
            lemma_typed_bindings_slots_consecutive(types, buffer_id, base_slot, i - 1, k);
        }
    }
}

/// Law: a binding set of one per-vertex geometry buffer (a three-float
/// position, a three-float normal and two-float texture coordinates)
/// followed by one per-instance buffer (a 4x4 matrix then a 3x3
/// matrix) fills slots zero through nine in order: the three geometry
/// slots read from the geometry buffer and advance once per vertex
/// (divisor zero), and the seven matrix-column slots read from the
/// instance buffer and advance once per instance (divisor one).
pub proof fn lemma_geometry_then_instance_plan(geo_id: u32, ins_id: u32)
    ensures
        ({
            let plan = spec_typed_bindings(
                seq![VertAttrType::Float3, VertAttrType::Float3, VertAttrType::Float2],
                geo_id,
                0,
            ) + spec_typed_bindings(seq![VertAttrType::Mat4, VertAttrType::Mat3], ins_id, 3);
            &&& plan.len() == 10
            &&& (forall|i: int| 0 <= i < 10 ==> (#[trigger] plan[i]).slot == i)
            &&& (forall|i: int| 0 <= i < 3 ==> (#[trigger] plan[i]).divisor == 0)
            &&& (forall|i: int| 3 <= i < 10 ==> (#[trigger] plan[i]).divisor == 1)
            &&& (forall|i: int| 0 <= i < 3 ==> (#[trigger] plan[i]).buffer_id == geo_id)
            &&& (forall|i: int| 3 <= i < 10 ==> (#[trigger] plan[i]).buffer_id == ins_id)
        }),
{
    let gt = seq![VertAttrType::Float3, VertAttrType::Float3, VertAttrType::Float2];
    let it = seq![VertAttrType::Mat4, VertAttrType::Mat3];
    assert(spec_slots_total(gt, 0) == 0);
    assert(spec_slots_total(gt, 1) == 1);
    assert(spec_slots_total(gt, 2) == 2);
    assert(spec_slots_total(it, 0) == 0);
    assert(spec_slots_total(it, 1) == 4);
    let g0 = spec_typed_bindings_prefix(gt, geo_id, 0, 0);
    let g1 = spec_typed_bindings_prefix(gt, geo_id, 0, 1);
    let g2 = spec_typed_bindings_prefix(gt, geo_id, 0, 2);
    let g3 = spec_typed_bindings_prefix(gt, geo_id, 0, 3);
    assert(g0 =~= Seq::<AttrBinding>::empty());
    assert(g1 =~= seq![spec_typed_slot_binding(gt, 0, 0, geo_id, 0)]);
    assert(g2 =~= seq![
        spec_typed_slot_binding(gt, 0, 0, geo_id, 0),
        spec_typed_slot_binding(gt, 1, 0, geo_id, 0),
    ]);
    assert(g3 =~= seq![
        spec_typed_slot_binding(gt, 0, 0, geo_id, 0),
        spec_typed_slot_binding(gt, 1, 0, geo_id, 0),
        spec_typed_slot_binding(gt, 2, 0, geo_id, 0),
    ]);
    let s0 = spec_typed_bindings_prefix(it, ins_id, 3, 0);
    let s1 = spec_typed_bindings_prefix(it, ins_id, 3, 1);
    let s2 = spec_typed_bindings_prefix(it, ins_id, 3, 2);
    assert(s0 =~= Seq::<AttrBinding>::empty());
    assert(s1 =~= seq![
        spec_typed_slot_binding(it, 0, 0, ins_id, 3),
        spec_typed_slot_binding(it, 0, 1, ins_id, 3),
        spec_typed_slot_binding(it, 0, 2, ins_id, 3),
        spec_typed_slot_binding(it, 0, 3, ins_id, 3),
    ]);
    assert(s2 =~= seq![
        spec_typed_slot_binding(it, 0, 0, ins_id, 3),
        spec_typed_slot_binding(it, 0, 1, ins_id, 3),
        spec_typed_slot_binding(it, 0, 2, ins_id, 3),
        spec_typed_slot_binding(it, 0, 3, ins_id, 3),
        spec_typed_slot_binding(it, 1, 0, ins_id, 3),
        spec_typed_slot_binding(it, 1, 1, ins_id, 3),
        spec_typed_slot_binding(it, 1, 2, ins_id, 3),
    ]);
    let plan = spec_typed_bindings(gt, geo_id, 0) + spec_typed_bindings(it, ins_id, 3);
    assert(plan =~= seq![
        spec_typed_slot_binding(gt, 0, 0, geo_id, 0),
        spec_typed_slot_binding(gt, 1, 0, geo_id, 0),
        spec_typed_slot_binding(gt, 2, 0, geo_id, 0),
        spec_typed_slot_binding(it, 0, 0, ins_id, 3),
        spec_typed_slot_binding(it, 0, 1, ins_id, 3),
        spec_typed_slot_binding(it, 0, 2, ins_id, 3),
        spec_typed_slot_binding(it, 0, 3, ins_id, 3),
        spec_typed_slot_binding(it, 1, 0, ins_id, 3),
        spec_typed_slot_binding(it, 1, 1, ins_id, 3),
        spec_typed_slot_binding(it, 1, 2, ins_id, 3),
    ]);
}

} // verus!
