//! A standalone vertex record type with its packed layout, kept for
//! buffers that describe their records without going through the
//! `Vert` trait.

use vstd::prelude::*;

use crate::layout::VertAttr;
use crate::layout::VertAttrType;
use crate::layout::VertLayout;
use crate::layout::spec_attr_types;
use crate::layout::spec_layout_of_types;
use crate::layout::spec_packed_offset;

verus! {

/// A geometry vertex: position, normal and texture coordinates, all
/// 32-bit float bit patterns.
#[derive(Debug, Copy, Clone)]
pub struct Vert {
    pub position: [u32; 3],
    pub normal: [u32; 3],
    pub tex_coords: [u32; 2],
}

impl Vert {
    /// The packed layout of this record: two three-float vectors and
    /// one two-float vector.
    pub fn layout() -> (r: VertLayout)
        ensures
            spec_layout_of_types(
                r,
                seq![VertAttrType::Float3, VertAttrType::Float3, VertAttrType::Float2],
            ),
    {
        let ghost types: Seq<VertAttrType> =
            seq![VertAttrType::Float3, VertAttrType::Float3, VertAttrType::Float2];
        let attrs = vec![
            VertAttr::new(VertAttrType::Float3, false),
            VertAttr::new(VertAttrType::Float3, false),
            VertAttr::new(VertAttrType::Float2, false),
        ];
        proof {
            assert(spec_attr_types(attrs@) =~= types);
            assert(spec_packed_offset(types, 0) == 0);
            assert(spec_packed_offset(types, 1) == 12);
            assert(spec_packed_offset(types, 2) == 24);
            assert(spec_packed_offset(types, 3) == 32);
        }
        VertLayout::new(attrs)
    }
}

} // verus!
