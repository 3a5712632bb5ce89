//! The camera: position, target, vertical field of view in degrees and
//! aspect ratio, projecting to a view-projection matrix. All scalars
//! are 32-bit float bit patterns; the driver layer updates the aspect
//! ratio when the framebuffer is resized.

use vstd::prelude::*;

use crate::glmath::F32_ONE_BITS;
use crate::glmath::spec_above_epsilon;
use crate::glmath::F32_ZERO_BITS;
use crate::glmath::look_at_bits;
use crate::glmath::look_at_mat;
use crate::glmath::mat4_mul;
use crate::glmath::mat4_mul_bits;
use crate::glmath::perspective_bits;
use crate::glmath::perspective_mat;
use crate::glmath::radians_bits;
use crate::glmath::degrees_to_radians_bits;
use crate::transform::spec_vec3_zero;

verus! {

/// Bit pattern of the 32-bit float value ninety: the default vertical
/// field of view in degrees.
pub const F32_NINETY_BITS: u32 = 0x42B4_0000;

/// Bit pattern of the near plane distance, one tenth.
pub const NEAR_PLANE_BITS: u32 = 0x3DCC_CCCD;

/// Bit pattern of the far plane distance, four hundred.
pub const FAR_PLANE_BITS: u32 = 0x43C8_0000;

/// The world up direction `(0, 1, 0)` as bit patterns.
pub open spec fn spec_world_up() -> Seq<u32> {
    seq![F32_ZERO_BITS, F32_ONE_BITS, F32_ZERO_BITS]
}

/// A camera: where it stands, what it looks at, and the projection
/// parameters. Components are 32-bit float bit patterns.
#[derive(Debug, Copy, Clone)]
pub struct Camera {
    pub position: [u32; 3],
    pub target: [u32; 3],
    pub fov: u32,
    pub aspect: u32,
}

/// The camera's view matrix: looking from its position at its target
/// with the world up direction.
pub open spec fn spec_view_mat(c: Camera) -> Seq<u32> {
    look_at_mat(c.position@, c.target@, spec_world_up())
}

/// The camera's projection matrix: a perspective projection from its
/// aspect ratio, its field of view converted to radians, and the fixed
/// near and far planes.
pub open spec fn spec_projection_mat(c: Camera) -> Seq<u32> {
    perspective_mat(c.aspect, radians_bits(c.fov), NEAR_PLANE_BITS, FAR_PLANE_BITS)
}

/// The camera's view-projection matrix: projection times view.
pub open spec fn spec_view_projection_mat(c: Camera) -> Seq<u32> {
    mat4_mul(spec_projection_mat(c), spec_view_mat(c))
}

impl Camera {
    /// A camera at the origin looking at the origin, with a ninety
    /// degree field of view and a square aspect ratio.
    pub fn new() -> (r: Camera)
        ensures
            r.position@ == spec_vec3_zero(),
            r.target@ == spec_vec3_zero(),
            r.fov == F32_NINETY_BITS,
            r.aspect == F32_ONE_BITS,
    {
        let r = Camera {
            position: [F32_ZERO_BITS, F32_ZERO_BITS, F32_ZERO_BITS],
            target: [F32_ZERO_BITS, F32_ZERO_BITS, F32_ZERO_BITS],
            fov: F32_NINETY_BITS,
            aspect: F32_ONE_BITS,
        };
        proof {
            assert(r.position@ =~= spec_vec3_zero());
            assert(r.target@ =~= spec_vec3_zero());
        }
        r
    }

    /// The view matrix.
    pub fn view_matrix(&self) -> (r: [u32; 16])
        ensures
            r@ == spec_view_mat(*self),
    {
        let up = [F32_ZERO_BITS, F32_ONE_BITS, F32_ZERO_BITS];
        proof {
            assert(up@ =~= spec_world_up());
        }
        look_at_bits(&self.position, &self.target, &up)
    }

    /// The projection matrix. The aspect ratio must be meaningfully
    /// away from zero: a degenerate viewport has no projection.
    pub fn projection_matrix(&self) -> (r: [u32; 16])
        requires
            spec_above_epsilon(self.aspect),
        ensures
            r@ == spec_projection_mat(*self),
    {
        let fovy = degrees_to_radians_bits(self.fov);
        perspective_bits(self.aspect, fovy, NEAR_PLANE_BITS, FAR_PLANE_BITS)
    }

    /// The view-projection matrix: projection times view.
    pub fn view_projection_matrix(&self) -> (r: [u32; 16])
        requires
            spec_above_epsilon(self.aspect),
        ensures
            r@ == spec_view_projection_mat(*self),
    {
        let p = self.projection_matrix();
        let v = self.view_matrix();
        mat4_mul_bits(&p, &v)
    }

    /// Replaces the aspect ratio; the driver layer calls this with the
    /// new framebuffer width divided by its height after a resize.
    pub fn set_aspect(&mut self, aspect: u32)
        ensures
            final(self).aspect == aspect,
            final(self).position == old(self).position,
            final(self).target == old(self).target,
            final(self).fov == old(self).fov,
    {
        self.aspect = aspect;
    }
}

} // verus!
