//! Transforms and the per-instance records streamed to the GPU: a
//! position / rotation / scale triple projects to a 4x4 model matrix
//! (translation, then rotation, then scale, so scale applies first in
//! object space) and the 3x3 normal matrix, the upper-left block of the
//! model matrix's inverse transpose.

use vstd::prelude::*;

use crate::glmath::F32_ONE_BITS;
use crate::glmath::F32_ZERO_BITS;
use crate::glmath::inverse_transpose_bits;
use crate::glmath::mat4_inverse_transpose;
use crate::glmath::mat4_mul;
use crate::glmath::mat4_mul_bits;
use crate::glmath::quat_mat4;
use crate::glmath::quat_to_mat4_bits;
use crate::layout::VertAttr;
use crate::layout::VertAttrType;
use crate::layout::VertLayout;
use crate::layout::spec_attr_types;
use crate::layout::spec_packed_offset;
use crate::vertex_array::Vert;

verus! {

/// The quaternion `(0, 0, 0, 1)`: no rotation.
pub open spec fn spec_quat_identity() -> Seq<u32> {
    seq![F32_ZERO_BITS, F32_ZERO_BITS, F32_ZERO_BITS, F32_ONE_BITS]
}

/// The vector `(0, 0, 0)` as bit patterns.
pub open spec fn spec_vec3_zero() -> Seq<u32> {
    seq![F32_ZERO_BITS, F32_ZERO_BITS, F32_ZERO_BITS]
}

/// The vector `(1, 1, 1)` as bit patterns.
pub open spec fn spec_vec3_one() -> Seq<u32> {
    seq![F32_ONE_BITS, F32_ONE_BITS, F32_ONE_BITS]
}

/// The 4x4 identity matrix, column-major, as bit patterns.
pub open spec fn spec_mat4_identity() -> Seq<u32> {
    seq![
        F32_ONE_BITS, F32_ZERO_BITS, F32_ZERO_BITS, F32_ZERO_BITS,
        F32_ZERO_BITS, F32_ONE_BITS, F32_ZERO_BITS, F32_ZERO_BITS,
        F32_ZERO_BITS, F32_ZERO_BITS, F32_ONE_BITS, F32_ZERO_BITS,
        F32_ZERO_BITS, F32_ZERO_BITS, F32_ZERO_BITS, F32_ONE_BITS,
    ]
}

/// The 3x3 identity matrix, column-major, as bit patterns.
pub open spec fn spec_mat3_identity() -> Seq<u32> {
    seq![
        F32_ONE_BITS, F32_ZERO_BITS, F32_ZERO_BITS,
        F32_ZERO_BITS, F32_ONE_BITS, F32_ZERO_BITS,
        F32_ZERO_BITS, F32_ZERO_BITS, F32_ONE_BITS,
    ]
}

/// The 4x4 translation matrix of `p`, column-major: the identity with
/// `p` as the fourth column.
pub open spec fn spec_translation_mat4(p: Seq<u32>) -> Seq<u32> {
    seq![
        F32_ONE_BITS, F32_ZERO_BITS, F32_ZERO_BITS, F32_ZERO_BITS,
        F32_ZERO_BITS, F32_ONE_BITS, F32_ZERO_BITS, F32_ZERO_BITS,
        F32_ZERO_BITS, F32_ZERO_BITS, F32_ONE_BITS, F32_ZERO_BITS,
        p[0], p[1], p[2], F32_ONE_BITS,
    ]
}

/// The 4x4 non-uniform scale matrix of `s`: the diagonal `(s, 1)`.
pub open spec fn spec_scale_mat4(s: Seq<u32>) -> Seq<u32> {
    seq![
        s[0], F32_ZERO_BITS, F32_ZERO_BITS, F32_ZERO_BITS,
        F32_ZERO_BITS, s[1], F32_ZERO_BITS, F32_ZERO_BITS,
        F32_ZERO_BITS, F32_ZERO_BITS, s[2], F32_ZERO_BITS,
        F32_ZERO_BITS, F32_ZERO_BITS, F32_ZERO_BITS, F32_ONE_BITS,
    ]
}

/// The upper-left 3x3 block of a 4x4 column-major matrix: the first
/// three entries of each of the first three columns.
pub open spec fn spec_upper_left3(m: Seq<u32>) -> Seq<u32> {
    seq![m[0], m[1], m[2], m[4], m[5], m[6], m[8], m[9], m[10]]
}

/// A position / rotation / scale triple. Components are 32-bit float
/// bit patterns; the quaternion is stored `(x, y, z, w)`.
#[derive(Debug, Copy, Clone)]
pub struct Transform {
    pub position: [u32; 3],
    pub rotation: [u32; 4],
    pub scale: [u32; 3],
}

/// The model matrix of a transform: translation times rotation times
/// scale, in that order.
pub open spec fn spec_model_mat(t: Transform) -> Seq<u32> {
    mat4_mul(
        mat4_mul(spec_translation_mat4(t.position@), quat_mat4(t.rotation@)),
        spec_scale_mat4(t.scale@),
    )
}

/// The normal matrix belonging to a model matrix: the upper-left 3x3
/// block of its inverse transpose, which keeps normals perpendicular to
/// surfaces under non-uniform scale.
pub open spec fn spec_normal_mat(m: Seq<u32>) -> Seq<u32> {
    spec_upper_left3(mat4_inverse_transpose(m))
}

impl Transform {
    /// The identity transform: zero position, no rotation, unit scale.
    pub fn new() -> (r: Transform)
        ensures
            r.position@ == spec_vec3_zero(),
            r.rotation@ == spec_quat_identity(),
            r.scale@ == spec_vec3_one(),
    {
        let r = Transform {
            position: [F32_ZERO_BITS, F32_ZERO_BITS, F32_ZERO_BITS],
            rotation: [F32_ZERO_BITS, F32_ZERO_BITS, F32_ZERO_BITS, F32_ONE_BITS],
            scale: [F32_ONE_BITS, F32_ONE_BITS, F32_ONE_BITS],
        };
        proof {
            assert(r.position@ =~= spec_vec3_zero());
            assert(r.rotation@ =~= spec_quat_identity());
            assert(r.scale@ =~= spec_vec3_one());
        }
        r
    }

    /// A transform at `position` with no rotation and unit scale.
    pub fn from_pos(position: [u32; 3]) -> (r: Transform)
        ensures
            r.position == position,
            r.rotation@ == spec_quat_identity(),
            r.scale@ == spec_vec3_one(),
    {
        let r = Transform {
            position,
            rotation: [F32_ZERO_BITS, F32_ZERO_BITS, F32_ZERO_BITS, F32_ONE_BITS],
            scale: [F32_ONE_BITS, F32_ONE_BITS, F32_ONE_BITS],
        };
        proof {
            assert(r.rotation@ =~= spec_quat_identity());
            assert(r.scale@ =~= spec_vec3_one());
        }
        r
    }

    /// The model matrix: translation times rotation times scale.
    pub fn matrix(&self) -> (r: [u32; 16])
        ensures
            r@ == spec_model_mat(*self),
    {
        let t = translation_mat4_bits(&self.position);
        let rot = quat_to_mat4_bits(&self.rotation);
        let s = scale_mat4_bits(&self.scale);
        let tr = mat4_mul_bits(&t, &rot);
        mat4_mul_bits(&tr, &s)
    }

    /// The normal matrix of a model matrix.
    pub fn normal_matrix(matrix: &[u32; 16]) -> (r: [u32; 9])
        ensures
            r@ == spec_normal_mat(matrix@),
    {
        let it = inverse_transpose_bits(matrix);
        let r = [it[0], it[1], it[2], it[4], it[5], it[6], it[8], it[9], it[10]];
        proof {
            assert(r@ =~= spec_upper_left3(it@));
        }
        r
    }
}

impl Default for Transform {
    /// Same as `Transform::new`: the identity transform.
    fn default() -> (r: Transform)
        ensures
            r.position@ == spec_vec3_zero(),
            r.rotation@ == spec_quat_identity(),
            r.scale@ == spec_vec3_one(),
    {
        Transform::new()
    }
}

/// Builds the translation matrix of `p`; pure bit movement.
fn translation_mat4_bits(p: &[u32; 3]) -> (r: [u32; 16])
    ensures
        r@ == spec_translation_mat4(p@),
{
    let r = [
        F32_ONE_BITS, F32_ZERO_BITS, F32_ZERO_BITS, F32_ZERO_BITS,
        F32_ZERO_BITS, F32_ONE_BITS, F32_ZERO_BITS, F32_ZERO_BITS,
        F32_ZERO_BITS, F32_ZERO_BITS, F32_ONE_BITS, F32_ZERO_BITS,
        p[0], p[1], p[2], F32_ONE_BITS,
    ];
    proof {
        assert(r@ =~= spec_translation_mat4(p@));
    }
    r
}

/// Builds the scale matrix of `s`; pure bit movement.
fn scale_mat4_bits(s: &[u32; 3]) -> (r: [u32; 16])
    ensures
        r@ == spec_scale_mat4(s@),
{
    let r = [
        s[0], F32_ZERO_BITS, F32_ZERO_BITS, F32_ZERO_BITS,
        F32_ZERO_BITS, s[1], F32_ZERO_BITS, F32_ZERO_BITS,
        F32_ZERO_BITS, F32_ZERO_BITS, s[2], F32_ZERO_BITS,
        F32_ZERO_BITS, F32_ZERO_BITS, F32_ZERO_BITS, F32_ONE_BITS,
    ];
    proof {
        assert(r@ =~= spec_scale_mat4(s@));
    }
    r
}

/// One per-instance record as laid out in the instance buffer: the
/// model matrix followed by the normal matrix, both column-major.
#[derive(Debug, Copy, Clone)]
pub struct VertTrans {
    pub transform: [u32; 16],
    pub normal: [u32; 9],
}

/// Whether `r` is exactly the instance record projected from `t`.
pub open spec fn spec_is_record_of(r: VertTrans, t: Transform) -> bool {
    &&& r.transform@ == spec_model_mat(t)
    &&& r.normal@ == spec_normal_mat(spec_model_mat(t))
}

impl VertTrans {
    /// Projects a transform to a fresh instance record.
    pub fn from_transform(transform: &Transform) -> (r: VertTrans)
        ensures
            spec_is_record_of(r, *transform),
    {
        let matrix = transform.matrix();
        VertTrans { transform: matrix, normal: Transform::normal_matrix(&matrix) }
    }

    /// Overwrites this record with the projection of `transform`.
    pub fn set(&mut self, transform: &Transform)
        ensures
            spec_is_record_of(*final(self), *transform),
    {
        let matrix = transform.matrix();
        self.transform = matrix;
        self.normal = Transform::normal_matrix(&matrix);
    }
}

impl Default for VertTrans {
    /// A record of identity matrices.
    fn default() -> (r: VertTrans)
        ensures
            r.transform@ == spec_mat4_identity(),
            r.normal@ == spec_mat3_identity(),
    {
        let r = VertTrans {
            transform: [
                F32_ONE_BITS, F32_ZERO_BITS, F32_ZERO_BITS, F32_ZERO_BITS,
                F32_ZERO_BITS, F32_ONE_BITS, F32_ZERO_BITS, F32_ZERO_BITS,
                F32_ZERO_BITS, F32_ZERO_BITS, F32_ONE_BITS, F32_ZERO_BITS,
                F32_ZERO_BITS, F32_ZERO_BITS, F32_ZERO_BITS, F32_ONE_BITS,
            ],
            normal: [
                F32_ONE_BITS, F32_ZERO_BITS, F32_ZERO_BITS,
                F32_ZERO_BITS, F32_ONE_BITS, F32_ZERO_BITS,
                F32_ZERO_BITS, F32_ZERO_BITS, F32_ONE_BITS,
            ],
        };
        proof {
            assert(r.transform@ =~= spec_mat4_identity());
            assert(r.normal@ =~= spec_mat3_identity());
        }
        r
    }
}

impl Vert for VertTrans {
    /// A 4x4 matrix attribute followed by a 3x3 matrix attribute.
    open spec fn spec_attr_types() -> Seq<VertAttrType> {
        seq![VertAttrType::Mat4, VertAttrType::Mat3]
    }

    fn layout() -> (r: VertLayout) {
        let attrs = vec![
            VertAttr::new(VertAttrType::Mat4, false),
            VertAttr::new(VertAttrType::Mat3, false),
        ];
        proof {
            assert(spec_attr_types(attrs@) =~= Self::spec_attr_types());
            assert(spec_packed_offset(Self::spec_attr_types(), 0) == 0);
            assert(spec_packed_offset(Self::spec_attr_types(), 1) == 64);
            assert(spec_packed_offset(Self::spec_attr_types(), 2) == 100);
        }
        VertLayout::new(attrs)
    }
}

} // verus!
