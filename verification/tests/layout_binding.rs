use glamour::binding::push_layout_bindings;
use glamour::layout::GL_FLOAT;
use glamour::layout::VertAttr;
use glamour::layout::VertAttrType;
use glamour::layout::VertLayout;
use glamour::vertex_array::BufDesc;
use glamour::vertex_array::IndexBuf;
use glamour::vertex_array::VertArray;

fn geometry_layout() -> VertLayout {
    VertLayout::new(vec![
        VertAttr::new(VertAttrType::Float3, false),
        VertAttr::new(VertAttrType::Float3, false),
        VertAttr::new(VertAttrType::Float2, false),
    ])
}

fn instance_layout() -> VertLayout {
    VertLayout::new(vec![
        VertAttr::new(VertAttrType::Mat4, false),
        VertAttr::new(VertAttrType::Mat3, false),
    ])
}

#[test]
fn attr_counts_and_sizes() {
    let f2 = VertAttr::new(VertAttrType::Float2, false);
    let f3 = VertAttr::new(VertAttrType::Float3, false);
    let m3 = VertAttr::new(VertAttrType::Mat3, false);
    let m4 = VertAttr::new(VertAttrType::Mat4, false);
    assert_eq!(f2.count(), 2);
    assert_eq!(f3.count(), 3);
    assert_eq!(m3.count(), 9);
    assert_eq!(m4.count(), 16);
    assert_eq!(f2.size(), 8);
    assert_eq!(f3.size(), 12);
    assert_eq!(m3.size(), 36);
    assert_eq!(m4.size(), 64);
    assert_eq!(f2.gl_data_type(), GL_FLOAT);
    assert_eq!(m4.gl_data_type_size(), 4);
}

#[test]
fn layout_offsets_are_prefix_sums() {
    let l = geometry_layout();
    assert_eq!(l.attrs.len(), 3);
    assert_eq!(l.attrs[0].offset, 0);
    assert_eq!(l.attrs[1].offset, 12);
    assert_eq!(l.attrs[2].offset, 24);
    assert_eq!(l.stride, 32);

    let l = instance_layout();
    assert_eq!(l.attrs.len(), 2);
    assert_eq!(l.attrs[0].offset, 0);
    assert_eq!(l.attrs[1].offset, 64);
    assert_eq!(l.stride, 100);
}

#[test]
fn layout_of_single_mat4() {
    let l = VertLayout::new(vec![VertAttr::new(VertAttrType::Mat4, false)]);
    assert_eq!(l.attrs[0].offset, 0);
    assert_eq!(l.stride, 64);
}

#[test]
fn geometry_plus_instance_slot_assignment() {
    // One non-instanced geometry buffer (Vec3 + Vec3 + Vec2) followed by
    // one instanced Mat4 + Mat3 buffer: slots 0-2 belong to the geometry
    // buffer with divisor 0, slots 3-9 to the instance buffer with
    // divisor 1.
    let geo_id = 7u32;
    let ins_id = 9u32;
    let bufs = vec![
        BufDesc { buffer_id: geo_id, layout: geometry_layout() },
        BufDesc { buffer_id: ins_id, layout: instance_layout() },
    ];
    let va = VertArray::new(42, bufs, IndexBuf::new(3, vec![0, 1, 2]));
    assert_eq!(va.vert_attr_index, 10);
    let b = va.bindings();
    assert_eq!(b.len(), 10);
    for (i, binding) in b.iter().enumerate() {
        assert_eq!(binding.slot as usize, i);
        assert_eq!(binding.gl_type, GL_FLOAT);
        assert!(!binding.normalized);
        if i < 3 {
            assert_eq!(binding.divisor, 0);
            assert_eq!(binding.buffer_id, geo_id);
            assert_eq!(binding.stride, 32);
        } else {
            assert_eq!(binding.divisor, 1);
            assert_eq!(binding.buffer_id, ins_id);
            assert_eq!(binding.stride, 100);
        }
    }
    // Geometry: one slot per vector attribute, at the packed offsets.
    assert_eq!(b[0].components, 3);
    assert_eq!(b[0].offset, 0);
    assert_eq!(b[1].components, 3);
    assert_eq!(b[1].offset, 12);
    assert_eq!(b[2].components, 2);
    assert_eq!(b[2].offset, 24);
    // Mat4: four 4-float column slots, 16 bytes apart.
    for j in 0..4 {
        assert_eq!(b[3 + j].components, 4);
        assert_eq!(b[3 + j].offset as usize, 16 * j);
    }
    // Mat3: three 3-float column slots, 12 bytes apart, after the Mat4.
    for j in 0..3 {
        assert_eq!(b[7 + j].components, 3);
        assert_eq!(b[7 + j].offset as usize, 64 + 12 * j);
    }
}

#[test]
fn push_layout_continues_slots() {
    let mut out = Vec::new();
    let next = push_layout_bindings(&mut out, &geometry_layout(), 5, 2);
    assert_eq!(next, 5);
    assert_eq!(out.len(), 3);
    assert_eq!(out[0].slot, 2);
    assert_eq!(out[2].slot, 4);
}

#[test]
fn push_buf_appends_after_existing_slots() {
    let bufs = vec![BufDesc { buffer_id: 1, layout: geometry_layout() }];
    let mut va = VertArray::new(10, bufs, IndexBuf::new(2, vec![0, 1, 2]));
    assert_eq!(va.vert_attr_index, 3);
    va.push_buf(&BufDesc { buffer_id: 4, layout: geometry_layout() });
    assert_eq!(va.vert_attr_index, 6);
    assert_eq!(va.bindings().len(), 6);
    assert_eq!(va.bindings()[3].slot, 3);
    assert_eq!(va.bindings()[3].buffer_id, 4);
}

#[test]
fn index_buf_mirror() {
    let mut ib = IndexBuf::new(11, vec![0, 1, 2, 2, 3, 0]);
    assert_eq!(ib.id(), 11);
    assert_eq!(ib.len(), 6);
    assert_eq!(ib.indices(), &[0, 1, 2, 2, 3, 0]);
    let upload = ib.set_data();
    assert_eq!(upload.buffer_id, 11);
    assert_eq!(upload.byte_len, 24);
    ib.indices_mut().push(9);
    assert_eq!(ib.len(), 7);
}
