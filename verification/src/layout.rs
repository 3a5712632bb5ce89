//! Vertex layout descriptors: typed attributes packed at cumulative byte
//! offsets, and the total record stride.

use vstd::prelude::*;

verus! {

/// The OpenGL enum value for the 32-bit float component type; every
/// attribute in these layouts is float-typed.
pub const GL_FLOAT: u32 = 0x1406;

/// The type of one vertex attribute: a two- or three-component float
/// vector, or a 3x3 or 4x4 float matrix stored column-major.
#[derive(Debug, Copy, Clone, PartialEq, Eq, Structural)]
pub enum VertAttrType {
    Float2,
    Float3,
    Mat3,
    Mat4,
}

/// How many 32-bit float components one attribute of this type holds.
pub open spec fn spec_attr_count(t: VertAttrType) -> nat {
    match t {
        VertAttrType::Float2 => 2,
        VertAttrType::Float3 => 3,
        VertAttrType::Mat3 => 9,
        VertAttrType::Mat4 => 16,
    }
}

/// Byte size of one attribute of this type: four bytes per float, no
/// padding beyond natural float alignment.
pub open spec fn spec_attr_size(t: VertAttrType) -> nat {
    4 * spec_attr_count(t)
}

/// One attribute of a vertex record: its type, whether the GPU should
/// normalize fixed-point data, and its byte offset inside the record.
#[derive(Debug, Copy, Clone, PartialEq, Eq, Structural)]
pub struct VertAttr {
    pub attr_type: VertAttrType,
    pub normalized: bool,
    pub offset: u32,
}

impl VertAttr {
    /// A fresh attribute; its offset is assigned later, when a layout is
    /// built from the ordered attribute list.
    pub fn new(attr_type: VertAttrType, normalized: bool) -> (r: VertAttr)
        ensures
            r.attr_type == attr_type,
            r.normalized == normalized,
            r.offset == 0,
    {
        VertAttr { attr_type, normalized, offset: 0 }
    }

    /// Number of float components of this attribute.
    pub fn count(&self) -> (r: u32)
        ensures
            r == spec_attr_count(self.attr_type),
    {
        match self.attr_type {
            VertAttrType::Float2 => 2,
            VertAttrType::Float3 => 3,
            VertAttrType::Mat3 => 9,
            VertAttrType::Mat4 => 16,
        }
    }

    /// Byte size of this attribute inside one record.
    pub fn size(&self) -> (r: u32)
        ensures
            r == spec_attr_size(self.attr_type),
    {
        self.gl_data_type_size() * self.count()
    }

    /// The GPU component type of this attribute; always the float enum.
    pub fn gl_data_type(&self) -> (r: u32)
        ensures
            r == GL_FLOAT,
    {
        match self.attr_type {
            VertAttrType::Float2 => GL_FLOAT,
            VertAttrType::Float3 => GL_FLOAT,
            VertAttrType::Mat3 => GL_FLOAT,
            VertAttrType::Mat4 => GL_FLOAT,
        }
    }

    /// Byte size of one component of the GPU component type.
    pub fn gl_data_type_size(&self) -> (r: u32)
        ensures
            r == 4,
    {
        4
    }
}

/// The attribute types of a sequence of attributes, in order.
pub open spec fn spec_attr_types(attrs: Seq<VertAttr>) -> Seq<VertAttrType> {
    attrs.map_values(|a: VertAttr| a.attr_type)
}

/// Total byte size of the first `i` attribute types: the packed byte
/// offset of attribute `i`, and, at the full length, the record stride.
pub open spec fn spec_packed_offset(types: Seq<VertAttrType>, i: int) -> int
    decreases i,
{
    if i <= 0 {
        0
    } else {
        spec_packed_offset(types, i - 1) + spec_attr_size(types[i - 1])
    }
}

/// Packed offsets only grow as more attributes are packed.
pub proof fn lemma_packed_offset_monotone(types: Seq<VertAttrType>, i: int, j: int)
    requires
        0 <= i <= j,
    ensures
        spec_packed_offset(types, i) <= spec_packed_offset(types, j),
    decreases j,
{
    if i < j {
        lemma_packed_offset_monotone(types, i, j - 1);
    }
}

/// Whether `l` is the packed layout of exactly the attribute types
/// `types`: offsets assigned by cumulative packing in order, no
/// normalized attributes, and the stride the total byte size.
pub open spec fn spec_layout_of_types(l: VertLayout, types: Seq<VertAttrType>) -> bool {
    &&& l.attrs@.len() == types.len()
    &&& (forall|i: int| 0 <= i < types.len() ==> {
        &&& (#[trigger] l.attrs@[i]).attr_type == types[i]
        &&& l.attrs@[i].normalized == false
        &&& l.attrs@[i].offset == spec_packed_offset(types, i)
    })
    &&& l.stride == spec_packed_offset(types, types.len() as int)
}

/// An ordered vertex layout: each attribute carries its packed byte
/// offset, and `stride` is the byte size of one whole record.
#[derive(Debug)]
pub struct VertLayout {
    pub attrs: Vec<VertAttr>,
    pub stride: u32,
}

impl VertLayout {
    /// Builds the layout by cumulative packing in declaration order: each
    /// attribute's offset is the sum of the byte sizes of all attributes
    /// before it, and the stride is the sum of all attribute byte sizes.
    pub fn new(attrs: Vec<VertAttr>) -> (r: VertLayout)
        requires
            spec_packed_offset(spec_attr_types(attrs@), attrs@.len() as int) <= u32::MAX,
        ensures
            r.attrs@.len() == attrs@.len(),
            forall|i: int| 0 <= i < attrs@.len() ==> {
                &&& (#[trigger] r.attrs@[i]).attr_type == attrs@[i].attr_type
                &&& r.attrs@[i].normalized == attrs@[i].normalized
                &&& r.attrs@[i].offset == spec_packed_offset(spec_attr_types(attrs@), i)
            },
            r.stride == spec_packed_offset(spec_attr_types(attrs@), attrs@.len() as int),
    {
        let ghost types = spec_attr_types(attrs@);
        let mut packed: Vec<VertAttr> = Vec::new();
        let mut offset: u32 = 0;
        let mut k: usize = 0;
        while k < attrs.len()
            invariant
                k <= attrs@.len(),
                packed@.len() == k,
                offset == spec_packed_offset(types, k as int),
                spec_packed_offset(types, attrs@.len() as int) <= u32::MAX,
                types == spec_attr_types(attrs@),
                forall|i: int| 0 <= i < k ==> {
                    &&& (#[trigger] packed@[i]).attr_type == attrs@[i].attr_type
                    &&& packed@[i].normalized == attrs@[i].normalized
                    &&& packed@[i].offset == spec_packed_offset(types, i)
                },
            decreases attrs@.len() - k,
        {
            let a = attrs[k];
            proof {
                lemma_packed_offset_monotone(types, k as int + 1, attrs@.len() as int);
            }
            let size = a.size();
            packed.push(VertAttr { attr_type: a.attr_type, normalized: a.normalized, offset });
            offset = offset + size;
            k = k + 1;
        }
        VertLayout { attrs: packed, stride: offset }
    }
}

} // verus!
