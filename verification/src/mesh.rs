//! The static meshes the renderer draws: the textured unit cube (24
//! vertices, four per face, 36 indices) and the full-screen quad in
//! normalized device coordinates. Float components are carried as
//! 32-bit bit patterns.

use vstd::prelude::*;

use crate::glmath::F32_ONE_BITS;
use crate::glmath::F32_ZERO_BITS;
use crate::layout::VertAttr;
use crate::layout::VertAttrType;
use crate::layout::VertLayout;
use crate::layout::spec_attr_types;
use crate::layout::spec_packed_offset;
use crate::vertex_array::Vert;

verus! {

/// Bit pattern of the 32-bit float one half.
pub const F32_HALF_BITS: u32 = 0x3F00_0000;

/// Bit pattern of the 32-bit float negative one half.
pub const F32_NEG_HALF_BITS: u32 = 0xBF00_0000;

/// Bit pattern of the 32-bit float negative one.
pub const F32_NEG_ONE_BITS: u32 = 0xBF80_0000;

/// A per-vertex geometry record: position, normal and texture
/// coordinates, all 32-bit float bit patterns.
#[derive(Debug, Copy, Clone)]
pub struct VertBasic {
    pub position: [u32; 3],
    pub normal: [u32; 3],
    pub tex_coords: [u32; 2],
}

impl Vert for VertBasic {
    /// Two three-float vectors and one two-float vector.
    open spec fn spec_attr_types() -> Seq<VertAttrType> {
        seq![VertAttrType::Float3, VertAttrType::Float3, VertAttrType::Float2]
    }

    fn layout() -> (r: VertLayout) {
        let attrs = vec![
            VertAttr::new(VertAttrType::Float3, false),
            VertAttr::new(VertAttrType::Float3, false),
            VertAttr::new(VertAttrType::Float2, false),
        ];
        proof {
            assert(spec_attr_types(attrs@) =~= Self::spec_attr_types());
            assert(spec_packed_offset(Self::spec_attr_types(), 0) == 0);
            assert(spec_packed_offset(Self::spec_attr_types(), 1) == 12);
            assert(spec_packed_offset(Self::spec_attr_types(), 2) == 24);
            assert(spec_packed_offset(Self::spec_attr_types(), 3) == 32);
        }
        VertLayout::new(attrs)
    }
}

/// Whether `v` carries exactly these position, normal and texture
/// coordinate components.
pub open spec fn spec_vert_is(
    v: VertBasic,
    px: u32, py: u32, pz: u32,
    nx: u32, ny: u32, nz: u32,
    tu: u32, tv: u32,
) -> bool {
    &&& v.position@[0] == px && v.position@[1] == py && v.position@[2] == pz
    &&& v.normal@[0] == nx && v.normal@[1] == ny && v.normal@[2] == nz
    &&& v.tex_coords@[0] == tu && v.tex_coords@[1] == tv
}

/// Whether `s` is exactly the unit cube vertex list.
pub open spec fn spec_tex_cube_verts(s: Seq<VertBasic>) -> bool {
    &&& s.len() == 24
    &&& spec_vert_is(s[0], F32_NEG_HALF_BITS, F32_NEG_HALF_BITS, F32_NEG_HALF_BITS, F32_ZERO_BITS, F32_ZERO_BITS, F32_NEG_ONE_BITS, F32_ZERO_BITS, F32_ZERO_BITS)
    &&& spec_vert_is(s[1], F32_HALF_BITS, F32_NEG_HALF_BITS, F32_NEG_HALF_BITS, F32_ZERO_BITS, F32_ZERO_BITS, F32_NEG_ONE_BITS, F32_ONE_BITS, F32_ZERO_BITS)
    &&& spec_vert_is(s[2], F32_HALF_BITS, F32_HALF_BITS, F32_NEG_HALF_BITS, F32_ZERO_BITS, F32_ZERO_BITS, F32_NEG_ONE_BITS, F32_ONE_BITS, F32_ONE_BITS)
    &&& spec_vert_is(s[3], F32_NEG_HALF_BITS, F32_HALF_BITS, F32_NEG_HALF_BITS, F32_ZERO_BITS, F32_ZERO_BITS, F32_NEG_ONE_BITS, F32_ZERO_BITS, F32_ONE_BITS)
    &&& spec_vert_is(s[4], F32_NEG_HALF_BITS, F32_NEG_HALF_BITS, F32_HALF_BITS, F32_ZERO_BITS, F32_ZERO_BITS, F32_ONE_BITS, F32_ZERO_BITS, F32_ZERO_BITS)
    &&& spec_vert_is(s[5], F32_HALF_BITS, F32_NEG_HALF_BITS, F32_HALF_BITS, F32_ZERO_BITS, F32_ZERO_BITS, F32_ONE_BITS, F32_ONE_BITS, F32_ZERO_BITS)
    &&& spec_vert_is(s[6], F32_HALF_BITS, F32_HALF_BITS, F32_HALF_BITS, F32_ZERO_BITS, F32_ZERO_BITS, F32_ONE_BITS, F32_ONE_BITS, F32_ONE_BITS)
    &&& spec_vert_is(s[7], F32_NEG_HALF_BITS, F32_HALF_BITS, F32_HALF_BITS, F32_ZERO_BITS, F32_ZERO_BITS, F32_ONE_BITS, F32_ZERO_BITS, F32_ONE_BITS)
    &&& spec_vert_is(s[8], F32_NEG_HALF_BITS, F32_HALF_BITS, F32_HALF_BITS, F32_NEG_ONE_BITS, F32_ZERO_BITS, F32_ZERO_BITS, F32_ONE_BITS, F32_ZERO_BITS)
    &&& spec_vert_is(s[9], F32_NEG_HALF_BITS, F32_HALF_BITS, F32_NEG_HALF_BITS, F32_NEG_ONE_BITS, F32_ZERO_BITS, F32_ZERO_BITS, F32_ONE_BITS, F32_ONE_BITS)
    &&& spec_vert_is(s[10], F32_NEG_HALF_BITS, F32_NEG_HALF_BITS, F32_NEG_HALF_BITS, F32_NEG_ONE_BITS, F32_ZERO_BITS, F32_ZERO_BITS, F32_ZERO_BITS, F32_ONE_BITS)
    &&& spec_vert_is(s[11], F32_NEG_HALF_BITS, F32_NEG_HALF_BITS, F32_HALF_BITS, F32_NEG_ONE_BITS, F32_ZERO_BITS, F32_ZERO_BITS, F32_ZERO_BITS, F32_ZERO_BITS)
    &&& spec_vert_is(s[12], F32_HALF_BITS, F32_HALF_BITS, F32_HALF_BITS, F32_ONE_BITS, F32_ZERO_BITS, F32_ZERO_BITS, F32_ONE_BITS, F32_ZERO_BITS)
    &&& spec_vert_is(s[13], F32_HALF_BITS, F32_HALF_BITS, F32_NEG_HALF_BITS, F32_ONE_BITS, F32_ZERO_BITS, F32_ZERO_BITS, F32_ONE_BITS, F32_ONE_BITS)
    &&& spec_vert_is(s[14], F32_HALF_BITS, F32_NEG_HALF_BITS, F32_NEG_HALF_BITS, F32_ONE_BITS, F32_ZERO_BITS, F32_ZERO_BITS, F32_ZERO_BITS, F32_ONE_BITS)
    &&& spec_vert_is(s[15], F32_HALF_BITS, F32_NEG_HALF_BITS, F32_HALF_BITS, F32_ONE_BITS, F32_ZERO_BITS, F32_ZERO_BITS, F32_ZERO_BITS, F32_ZERO_BITS)
    &&& spec_vert_is(s[16], F32_NEG_HALF_BITS, F32_NEG_HALF_BITS, F32_NEG_HALF_BITS, F32_ZERO_BITS, F32_NEG_ONE_BITS, F32_ZERO_BITS, F32_ZERO_BITS, F32_ONE_BITS)
    &&& spec_vert_is(s[17], F32_HALF_BITS, F32_NEG_HALF_BITS, F32_NEG_HALF_BITS, F32_ZERO_BITS, F32_NEG_ONE_BITS, F32_ZERO_BITS, F32_ONE_BITS, F32_ONE_BITS)
    &&& spec_vert_is(s[18], F32_HALF_BITS, F32_NEG_HALF_BITS, F32_HALF_BITS, F32_ZERO_BITS, F32_NEG_ONE_BITS, F32_ZERO_BITS, F32_ONE_BITS, F32_ZERO_BITS)
    &&& spec_vert_is(s[19], F32_NEG_HALF_BITS, F32_NEG_HALF_BITS, F32_HALF_BITS, F32_ZERO_BITS, F32_NEG_ONE_BITS, F32_ZERO_BITS, F32_ZERO_BITS, F32_ZERO_BITS)
    &&& spec_vert_is(s[20], F32_NEG_HALF_BITS, F32_HALF_BITS, F32_NEG_HALF_BITS, F32_ZERO_BITS, F32_ONE_BITS, F32_ZERO_BITS, F32_ZERO_BITS, F32_ONE_BITS)
    &&& spec_vert_is(s[21], F32_HALF_BITS, F32_HALF_BITS, F32_NEG_HALF_BITS, F32_ZERO_BITS, F32_ONE_BITS, F32_ZERO_BITS, F32_ONE_BITS, F32_ONE_BITS)
    &&& spec_vert_is(s[22], F32_HALF_BITS, F32_HALF_BITS, F32_HALF_BITS, F32_ZERO_BITS, F32_ONE_BITS, F32_ZERO_BITS, F32_ONE_BITS, F32_ZERO_BITS)
    &&& spec_vert_is(s[23], F32_NEG_HALF_BITS, F32_HALF_BITS, F32_HALF_BITS, F32_ZERO_BITS, F32_ONE_BITS, F32_ZERO_BITS, F32_ZERO_BITS, F32_ZERO_BITS)
}

/// The 24 vertices of the textured unit cube, four per face, each face
/// with its outward normal.
pub fn tex_cube_verts() -> (r: Vec<VertBasic>)
    ensures
        spec_tex_cube_verts(r@),
{
    let v: Vec<VertBasic> = vec![
        VertBasic {
            position: [F32_NEG_HALF_BITS, F32_NEG_HALF_BITS, F32_NEG_HALF_BITS],
            normal: [F32_ZERO_BITS, F32_ZERO_BITS, F32_NEG_ONE_BITS],
            tex_coords: [F32_ZERO_BITS, F32_ZERO_BITS],
        },
        VertBasic {
            position: [F32_HALF_BITS, F32_NEG_HALF_BITS, F32_NEG_HALF_BITS],
            normal: [F32_ZERO_BITS, F32_ZERO_BITS, F32_NEG_ONE_BITS],
            tex_coords: [F32_ONE_BITS, F32_ZERO_BITS],
        },
        VertBasic {
            position: [F32_HALF_BITS, F32_HALF_BITS, F32_NEG_HALF_BITS],
            normal: [F32_ZERO_BITS, F32_ZERO_BITS, F32_NEG_ONE_BITS],
            tex_coords: [F32_ONE_BITS, F32_ONE_BITS],
        },
        VertBasic {
            position: [F32_NEG_HALF_BITS, F32_HALF_BITS, F32_NEG_HALF_BITS],
            normal: [F32_ZERO_BITS, F32_ZERO_BITS, F32_NEG_ONE_BITS],
            tex_coords: [F32_ZERO_BITS, F32_ONE_BITS],
        },
        VertBasic {
            position: [F32_NEG_HALF_BITS, F32_NEG_HALF_BITS, F32_HALF_BITS],
            normal: [F32_ZERO_BITS, F32_ZERO_BITS, F32_ONE_BITS],
            tex_coords: [F32_ZERO_BITS, F32_ZERO_BITS],
        },
        VertBasic {
            position: [F32_HALF_BITS, F32_NEG_HALF_BITS, F32_HALF_BITS],
            normal: [F32_ZERO_BITS, F32_ZERO_BITS, F32_ONE_BITS],
            tex_coords: [F32_ONE_BITS, F32_ZERO_BITS],
        },
        VertBasic {
            position: [F32_HALF_BITS, F32_HALF_BITS, F32_HALF_BITS],
            normal: [F32_ZERO_BITS, F32_ZERO_BITS, F32_ONE_BITS],
            tex_coords: [F32_ONE_BITS, F32_ONE_BITS],
        },
        VertBasic {
            position: [F32_NEG_HALF_BITS, F32_HALF_BITS, F32_HALF_BITS],
            normal: [F32_ZERO_BITS, F32_ZERO_BITS, F32_ONE_BITS],
            tex_coords: [F32_ZERO_BITS, F32_ONE_BITS],
        },
        VertBasic {
            position: [F32_NEG_HALF_BITS, F32_HALF_BITS, F32_HALF_BITS],
            normal: [F32_NEG_ONE_BITS, F32_ZERO_BITS, F32_ZERO_BITS],
            tex_coords: [F32_ONE_BITS, F32_ZERO_BITS],
        },
        VertBasic {
            position: [F32_NEG_HALF_BITS, F32_HALF_BITS, F32_NEG_HALF_BITS],
            normal: [F32_NEG_ONE_BITS, F32_ZERO_BITS, F32_ZERO_BITS],
            tex_coords: [F32_ONE_BITS, F32_ONE_BITS],
        },
        VertBasic {
            position: [F32_NEG_HALF_BITS, F32_NEG_HALF_BITS, F32_NEG_HALF_BITS],
            normal: [F32_NEG_ONE_BITS, F32_ZERO_BITS, F32_ZERO_BITS],
            tex_coords: [F32_ZERO_BITS, F32_ONE_BITS],
        },
        VertBasic {
            position: [F32_NEG_HALF_BITS, F32_NEG_HALF_BITS, F32_HALF_BITS],
            normal: [F32_NEG_ONE_BITS, F32_ZERO_BITS, F32_ZERO_BITS],
            tex_coords: [F32_ZERO_BITS, F32_ZERO_BITS],
        },
        VertBasic {
            position: [F32_HALF_BITS, F32_HALF_BITS, F32_HALF_BITS],
            normal: [F32_ONE_BITS, F32_ZERO_BITS, F32_ZERO_BITS],
            tex_coords: [F32_ONE_BITS, F32_ZERO_BITS],
        },
        VertBasic {
            position: [F32_HALF_BITS, F32_HALF_BITS, F32_NEG_HALF_BITS],
            normal: [F32_ONE_BITS, F32_ZERO_BITS, F32_ZERO_BITS],
            tex_coords: [F32_ONE_BITS, F32_ONE_BITS],
        },
        VertBasic {
            position: [F32_HALF_BITS, F32_NEG_HALF_BITS, F32_NEG_HALF_BITS],
            normal: [F32_ONE_BITS, F32_ZERO_BITS, F32_ZERO_BITS],
            tex_coords: [F32_ZERO_BITS, F32_ONE_BITS],
        },
        VertBasic {
            position: [F32_HALF_BITS, F32_NEG_HALF_BITS, F32_HALF_BITS],
            normal: [F32_ONE_BITS, F32_ZERO_BITS, F32_ZERO_BITS],
            tex_coords: [F32_ZERO_BITS, F32_ZERO_BITS],
        },
        VertBasic {
            position: [F32_NEG_HALF_BITS, F32_NEG_HALF_BITS, F32_NEG_HALF_BITS],
            normal: [F32_ZERO_BITS, F32_NEG_ONE_BITS, F32_ZERO_BITS],
            tex_coords: [F32_ZERO_BITS, F32_ONE_BITS],
        },
        VertBasic {
            position: [F32_HALF_BITS, F32_NEG_HALF_BITS, F32_NEG_HALF_BITS],
            normal: [F32_ZERO_BITS, F32_NEG_ONE_BITS, F32_ZERO_BITS],
            tex_coords: [F32_ONE_BITS, F32_ONE_BITS],
        },
        VertBasic {
            position: [F32_HALF_BITS, F32_NEG_HALF_BITS, F32_HALF_BITS],
            normal: [F32_ZERO_BITS, F32_NEG_ONE_BITS, F32_ZERO_BITS],
            tex_coords: [F32_ONE_BITS, F32_ZERO_BITS],
        },
        VertBasic {
            position: [F32_NEG_HALF_BITS, F32_NEG_HALF_BITS, F32_HALF_BITS],
            normal: [F32_ZERO_BITS, F32_NEG_ONE_BITS, F32_ZERO_BITS],
            tex_coords: [F32_ZERO_BITS, F32_ZERO_BITS],
        },
        VertBasic {
            position: [F32_NEG_HALF_BITS, F32_HALF_BITS, F32_NEG_HALF_BITS],
            normal: [F32_ZERO_BITS, F32_ONE_BITS, F32_ZERO_BITS],
            tex_coords: [F32_ZERO_BITS, F32_ONE_BITS],
        },
        VertBasic {
            position: [F32_HALF_BITS, F32_HALF_BITS, F32_NEG_HALF_BITS],
            normal: [F32_ZERO_BITS, F32_ONE_BITS, F32_ZERO_BITS],
            tex_coords: [F32_ONE_BITS, F32_ONE_BITS],
        },
        VertBasic {
            position: [F32_HALF_BITS, F32_HALF_BITS, F32_HALF_BITS],
            normal: [F32_ZERO_BITS, F32_ONE_BITS, F32_ZERO_BITS],
            tex_coords: [F32_ONE_BITS, F32_ZERO_BITS],
        },
        VertBasic {
            position: [F32_NEG_HALF_BITS, F32_HALF_BITS, F32_HALF_BITS],
            normal: [F32_ZERO_BITS, F32_ONE_BITS, F32_ZERO_BITS],
            tex_coords: [F32_ZERO_BITS, F32_ZERO_BITS],
        },    ];
    v
}

/// The 36 cube indices: two triangles per face over `tex_cube_verts`.
pub fn tex_cube_inds() -> (r: Vec<u32>)
    ensures
        r@ == spec_tex_cube_inds(),
{
    let v: Vec<u32> = vec![0, 1, 2, 2, 3, 0, 4, 5, 6, 6, 7, 4, 8, 9, 10, 10, 11, 8, 12, 13, 14, 14, 15, 12, 16, 17, 18, 18, 19, 16, 20, 21, 22, 22, 23, 20];
    proof {
        assert(v@ =~= spec_tex_cube_inds());
    }
    v
}

/// The cube index list as a sequence.
pub open spec fn spec_tex_cube_inds() -> Seq<u32> {
    seq![0, 1, 2, 2, 3, 0, 4, 5, 6, 6, 7, 4, 8, 9, 10, 10, 11, 8, 12, 13, 14, 14, 15, 12, 16, 17, 18, 18, 19, 16, 20, 21, 22, 22, 23, 20]
}

/// Whether `s` is exactly the full-screen quad vertex list.
pub open spec fn spec_ndc_quad_verts(s: Seq<VertBasic>) -> bool {
    &&& s.len() == 4
    &&& spec_vert_is(s[0], F32_NEG_ONE_BITS, F32_ONE_BITS, F32_ZERO_BITS, F32_ZERO_BITS, F32_ZERO_BITS, F32_ONE_BITS, F32_ZERO_BITS, F32_ONE_BITS)
    &&& spec_vert_is(s[1], F32_NEG_ONE_BITS, F32_NEG_ONE_BITS, F32_ZERO_BITS, F32_ZERO_BITS, F32_ZERO_BITS, F32_ONE_BITS, F32_ZERO_BITS, F32_ZERO_BITS)
    &&& spec_vert_is(s[2], F32_ONE_BITS, F32_ONE_BITS, F32_ZERO_BITS, F32_ZERO_BITS, F32_ZERO_BITS, F32_ONE_BITS, F32_ONE_BITS, F32_ONE_BITS)
    &&& spec_vert_is(s[3], F32_ONE_BITS, F32_NEG_ONE_BITS, F32_ZERO_BITS, F32_ZERO_BITS, F32_ZERO_BITS, F32_ONE_BITS, F32_ONE_BITS, F32_ZERO_BITS)
}

/// The four corners of the full-screen quad in normalized device
/// coordinates, facing the viewer.
pub fn ndc_quad_verts() -> (r: Vec<VertBasic>)
    ensures
        spec_ndc_quad_verts(r@),
{
    let v: Vec<VertBasic> = vec![
        VertBasic {
            position: [F32_NEG_ONE_BITS, F32_ONE_BITS, F32_ZERO_BITS],
            normal: [F32_ZERO_BITS, F32_ZERO_BITS, F32_ONE_BITS],
            tex_coords: [F32_ZERO_BITS, F32_ONE_BITS],
        },
        VertBasic {
            position: [F32_NEG_ONE_BITS, F32_NEG_ONE_BITS, F32_ZERO_BITS],
            normal: [F32_ZERO_BITS, F32_ZERO_BITS, F32_ONE_BITS],
            tex_coords: [F32_ZERO_BITS, F32_ZERO_BITS],
        },
        VertBasic {
            position: [F32_ONE_BITS, F32_ONE_BITS, F32_ZERO_BITS],
            normal: [F32_ZERO_BITS, F32_ZERO_BITS, F32_ONE_BITS],
            tex_coords: [F32_ONE_BITS, F32_ONE_BITS],
        },
        VertBasic {
            position: [F32_ONE_BITS, F32_NEG_ONE_BITS, F32_ZERO_BITS],
            normal: [F32_ZERO_BITS, F32_ZERO_BITS, F32_ONE_BITS],
            tex_coords: [F32_ONE_BITS, F32_ZERO_BITS],
        },    ];
    v
}

} // verus!
