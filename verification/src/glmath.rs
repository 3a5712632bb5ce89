//! Trusted wrappers around the nalgebra-glm float routines the engine
//! needs. Float values never enter the verified code as such: they are
//! carried as 32-bit bit patterns (`u32`), handed to nalgebra-glm for
//! the arithmetic, and taken back as bit patterns. Each wrapped routine
//! is deterministic in its arguments, so its result is given a name
//! that the callers' contracts speak of. Matrices are column-major;
//! quaternions are stored `(x, y, z, w)`.

use vstd::prelude::*;

verus! {

/// Bit pattern of the 32-bit float zero.
pub const F32_ZERO_BITS: u32 = 0;

/// Bit pattern of the 32-bit float one.
pub const F32_ONE_BITS: u32 = 0x3F80_0000;

/// Mask that drops a 32-bit float bit pattern's sign.
pub const F32_ABS_MASK: u32 = 0x7FFF_FFFF;

/// Bit pattern of the 32-bit float machine epsilon.
pub const F32_EPSILON_BITS: u32 = 0x3400_0000;

/// Whether the bit pattern is a finite value strictly larger in
/// magnitude than the machine epsilon — what nalgebra-glm's relative
/// comparison against zero rejects as "not zero".
pub open spec fn spec_above_epsilon(bits: u32) -> bool {
    bits & F32_ABS_MASK > F32_EPSILON_BITS
}

/// Name for the rotation matrix nalgebra-glm derives from a unit
/// quaternion, as 16 column-major bit patterns.
pub uninterp spec fn quat_mat4(q: Seq<u32>) -> Seq<u32>;

/// Name for the nalgebra-glm product of two 4x4 column-major matrices
/// of bit patterns.
pub uninterp spec fn mat4_mul(a: Seq<u32>, b: Seq<u32>) -> Seq<u32>;

/// Name for the inverse transpose nalgebra-glm computes of a 4x4
/// column-major matrix of bit patterns.
pub uninterp spec fn mat4_inverse_transpose(m: Seq<u32>) -> Seq<u32>;

/// Name for the right-handed look-at view matrix nalgebra-glm builds
/// from eye, center and up vectors given as bit patterns.
pub uninterp spec fn look_at_mat(eye: Seq<u32>, center: Seq<u32>, up: Seq<u32>) -> Seq<u32>;

/// Name for the perspective projection matrix nalgebra-glm builds from
/// aspect ratio, vertical field of view in radians, and the near and
/// far plane distances, each a bit pattern.
pub uninterp spec fn perspective_mat(aspect: u32, fovy: u32, near: u32, far: u32) -> Seq<u32>;

/// Name for the degrees-to-radians conversion of one bit pattern.
pub uninterp spec fn radians_bits(deg: u32) -> u32;

/// Relies on nalgebra-glm `quat_to_mat4`: the homogeneous rotation
/// matrix of a quaternion, a function of the quaternion alone.
#[verifier::external_body]
pub(crate) fn quat_to_mat4_bits(q: &[u32; 4]) -> (r: [u32; 16])
    ensures
        r@ == quat_mat4(q@),
{
    let qq: nalgebra_glm::Quat = nalgebra_glm::make_quat(bytemuck::cast_slice(q));
    let m = nalgebra_glm::quat_to_mat4(&qq);
    let mut out = [0u32; 16];
    out.copy_from_slice(bytemuck::cast_slice(m.as_slice()));
    out
}

/// Relies on nalgebra-glm matrix multiplication (`Mat4 * Mat4`), a
/// function of the two operands alone.
#[verifier::external_body]
pub(crate) fn mat4_mul_bits(a: &[u32; 16], b: &[u32; 16]) -> (r: [u32; 16])
    ensures
        r@ == mat4_mul(a@, b@),
{
    let ma: nalgebra_glm::Mat4 = nalgebra_glm::make_mat4(bytemuck::cast_slice(a));
    let mb: nalgebra_glm::Mat4 = nalgebra_glm::make_mat4(bytemuck::cast_slice(b));
    let m = ma * mb;
    let mut out = [0u32; 16];
    out.copy_from_slice(bytemuck::cast_slice(m.as_slice()));
    out
}

/// Relies on nalgebra-glm `inverse_transpose` on a 4x4 matrix, a
/// function of the matrix alone.
#[verifier::external_body]
pub(crate) fn inverse_transpose_bits(m: &[u32; 16]) -> (r: [u32; 16])
    ensures
        r@ == mat4_inverse_transpose(m@),
{
    let ma: nalgebra_glm::Mat4 = nalgebra_glm::make_mat4(bytemuck::cast_slice(m));
    let it = nalgebra_glm::inverse_transpose(ma);
    let mut out = [0u32; 16];
    out.copy_from_slice(bytemuck::cast_slice(it.as_slice()));
    out
}

/// Relies on nalgebra-glm `look_at`: the right-handed view matrix, a
/// function of the three vectors alone.
#[verifier::external_body]
pub(crate) fn look_at_bits(eye: &[u32; 3], center: &[u32; 3], up: &[u32; 3]) -> (r: [u32; 16])
    ensures
        r@ == look_at_mat(eye@, center@, up@),
{
    let e: nalgebra_glm::Vec3 = nalgebra_glm::make_vec3(bytemuck::cast_slice(eye));
    let c: nalgebra_glm::Vec3 = nalgebra_glm::make_vec3(bytemuck::cast_slice(center));
    let u: nalgebra_glm::Vec3 = nalgebra_glm::make_vec3(bytemuck::cast_slice(up));
    let m = nalgebra_glm::look_at(&e, &c, &u);
    let mut out = [0u32; 16];
    out.copy_from_slice(bytemuck::cast_slice(m.as_slice()));
    out
}

/// Relies on nalgebra-glm `perspective`: the projection matrix, a
/// function of the four scalars alone. It panics when the near and far
/// planes nearly coincide or the aspect ratio is nearly zero, so the
/// planes are pinned to the camera's fixed ones (well apart) and the
/// aspect must stay above the machine epsilon.
#[verifier::external_body]
pub(crate) fn perspective_bits(aspect: u32, fovy: u32, near: u32, far: u32) -> (r: [u32; 16])
    requires
        spec_above_epsilon(aspect),
        near == crate::camera::NEAR_PLANE_BITS,
        far == crate::camera::FAR_PLANE_BITS,
    ensures
        r@ == perspective_mat(aspect, fovy, near, far),
{
    let args = [aspect, fovy, near, far];
    let v: nalgebra_glm::Vec4 = nalgebra_glm::make_vec4(bytemuck::cast_slice(&args));
    let m = nalgebra_glm::perspective(v.x, v.y, v.z, v.w);
    let mut out = [0u32; 16];
    out.copy_from_slice(bytemuck::cast_slice(m.as_slice()));
    out
}

/// Relies on nalgebra-glm `radians`, applied componentwise; a function
/// of the degree value alone.
#[verifier::external_body]
pub(crate) fn degrees_to_radians_bits(deg: u32) -> (r: u32)
    ensures
        r == radians_bits(deg),
{
    let args = [deg, 0u32];
    let v: nalgebra_glm::Vec2 = nalgebra_glm::make_vec2(bytemuck::cast_slice(&args));
    nalgebra_glm::radians(&v).x.to_bits()
}

} // verus!
