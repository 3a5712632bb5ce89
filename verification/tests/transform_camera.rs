use glamour::camera::Camera;
use glamour::camera::FAR_PLANE_BITS;
use glamour::camera::F32_NINETY_BITS;
use glamour::camera::NEAR_PLANE_BITS;
use glamour::glmath::F32_ONE_BITS;
use glamour::glmath::F32_ZERO_BITS;
use glamour::transform::Transform;
use glamour::transform::VertTrans;

fn b(x: f32) -> u32 {
    x.to_bits()
}

fn vec3_bits(x: f32, y: f32, z: f32) -> [u32; 3] {
    [b(x), b(y), b(z)]
}

fn mat4_of_bits(m: &[u32; 16]) -> nalgebra_glm::Mat4 {
    let floats: Vec<f32> = m.iter().map(|w| f32::from_bits(*w)).collect();
    nalgebra_glm::make_mat4(&floats)
}

fn mat3_of_bits(m: &[u32; 9]) -> nalgebra_glm::Mat3 {
    let floats: Vec<f32> = m.iter().map(|w| f32::from_bits(*w)).collect();
    nalgebra_glm::make_mat3(&floats)
}

#[test]
fn float_constants_match() {
    assert_eq!(F32_ZERO_BITS, 0.0f32.to_bits());
    assert_eq!(F32_ONE_BITS, 1.0f32.to_bits());
    assert_eq!(F32_NINETY_BITS, 90.0f32.to_bits());
    assert_eq!(NEAR_PLANE_BITS, 0.1f32.to_bits());
    assert_eq!(FAR_PLANE_BITS, 400.0f32.to_bits());
}

#[test]
fn identity_transform_has_identity_matrix() {
    let t = Transform::new();
    let m = t.matrix();
    let expected = nalgebra_glm::identity::<f32, 4>();
    let got = mat4_of_bits(&m);
    for i in 0..16 {
        assert_eq!(got.as_slice()[i], expected.as_slice()[i]);
    }
}

#[test]
fn matrix_applies_scale_then_translation() {
    // Non-identity translation and scale: if either factor were dropped
    // or the product returned one operand unchanged, these entries
    // would differ.
    let t = Transform {
        position: vec3_bits(1.0, 2.0, 3.0),
        rotation: [b(0.0), b(0.0), b(0.0), b(1.0)],
        scale: vec3_bits(2.0, 2.0, 2.0),
    };
    let m = t.matrix();
    // Column-major: diagonal scale entries and the translation column.
    assert_eq!(m[0], b(2.0));
    assert_eq!(m[5], b(2.0));
    assert_eq!(m[10], b(2.0));
    assert_eq!(m[12], b(1.0));
    assert_eq!(m[13], b(2.0));
    assert_eq!(m[14], b(3.0));
    assert_eq!(m[15], b(1.0));
}

#[test]
fn rotation_quaternion_turns_axes() {
    // A quarter turn around z maps the x axis onto the y axis.
    let q = nalgebra_glm::quat_angle_axis(
        std::f32::consts::FRAC_PI_2,
        &nalgebra_glm::vec3(0.0, 0.0, 1.0),
    );
    let t = Transform {
        position: vec3_bits(0.0, 0.0, 0.0),
        rotation: [b(q.i), b(q.j), b(q.k), b(q.w)],
        scale: vec3_bits(1.0, 1.0, 1.0),
    };
    let m = mat4_of_bits(&t.matrix());
    let x_axis = m * nalgebra_glm::vec4(1.0, 0.0, 0.0, 0.0);
    assert!((x_axis.x).abs() < 1e-6);
    assert!((x_axis.y - 1.0).abs() < 1e-6);
    assert!((x_axis.z).abs() < 1e-6);
}

#[test]
fn normal_matrix_preserves_perpendicularity_under_non_uniform_scale() {
    // Tangent/normal pairs stay perpendicular after transforming the
    // tangent by the model matrix and the normal by the normal matrix,
    // for a handful of non-uniform scales and a rotation.
    let q = nalgebra_glm::quat_angle_axis(0.7f32, &nalgebra_glm::vec3(0.5, 1.0, 0.0).normalize());
    let cases = [
        (vec3_bits(2.0, 1.0, 1.0), [b(0.0), b(0.0), b(0.0), b(1.0)]),
        (vec3_bits(1.0, 3.0, 0.25), [b(0.0), b(0.0), b(0.0), b(1.0)]),
        (vec3_bits(4.0, 0.5, 2.0), [b(q.i), b(q.j), b(q.k), b(q.w)]),
    ];
    let pairs = [
        (nalgebra_glm::vec3(1.0f32, 0.0, 0.0), nalgebra_glm::vec3(0.0f32, 1.0, 0.0)),
        (nalgebra_glm::vec3(0.0f32, 0.0, 1.0), nalgebra_glm::vec3(1.0f32, 0.0, 0.0)),
    ];
    for (scale, rotation) in cases {
        let t = Transform { position: vec3_bits(5.0, -1.0, 2.0), rotation, scale };
        let m = t.matrix();
        let n = Transform::normal_matrix(&m);
        let linear = nalgebra_glm::mat4_to_mat3(&mat4_of_bits(&m));
        let normal_mat = mat3_of_bits(&n);
        for (normal, tangent) in pairs {
            let moved_tangent = linear * tangent;
            let moved_normal = normal_mat * normal;
            let dot = moved_tangent.dot(&moved_normal);
            assert!(dot.abs() < 1e-4, "normals not perpendicular: {}", dot);
        }
    }
}

#[test]
fn vert_trans_matches_projection() {
    let t = Transform {
        position: vec3_bits(1.0, 0.0, -2.0),
        rotation: [b(0.0), b(0.0), b(0.0), b(1.0)],
        scale: vec3_bits(1.0, 2.0, 1.0),
    };
    let rec = VertTrans::from_transform(&t);
    assert_eq!(rec.transform, t.matrix());
    assert_eq!(rec.normal, Transform::normal_matrix(&t.matrix()));

    let mut rec2 = VertTrans::default();
    assert_eq!(rec2.transform[0], b(1.0));
    assert_eq!(rec2.transform[12], b(0.0));
    rec2.set(&t);
    assert_eq!(rec2.transform, rec.transform);
    assert_eq!(rec2.normal, rec.normal);
}

#[test]
fn camera_defaults() {
    let c = Camera::new();
    assert_eq!(c.position, [0, 0, 0]);
    assert_eq!(c.target, [0, 0, 0]);
    assert_eq!(c.fov, 90.0f32.to_bits());
    assert_eq!(c.aspect, 1.0f32.to_bits());
}

#[test]
fn projection_uses_radians_of_fov() {
    // With a ninety degree vertical field of view and square aspect,
    // the focal entries of the projection are one.
    let c = Camera::new();
    let p = mat4_of_bits(&c.projection_matrix());
    assert!((p.as_slice()[0] - 1.0).abs() < 1e-5);
    assert!((p.as_slice()[5] - 1.0).abs() < 1e-5);
}

#[test]
fn world_origin_projects_to_screen_center() {
    // A camera at (0, 0, 5) looking at the origin, fov 90, aspect 1:
    // the world origin lands at clip x = 0, y = 0.
    let mut c = Camera::new();
    c.position = vec3_bits(0.0, 0.0, 5.0);
    c.target = vec3_bits(0.0, 0.0, 0.0);
    let vp = mat4_of_bits(&c.view_projection_matrix());
    let clip = vp * nalgebra_glm::vec4(0.0, 0.0, 0.0, 1.0);
    assert!(clip.x.abs() < 1e-6);
    assert!(clip.y.abs() < 1e-6);
    assert!(clip.w > 0.0);
}

#[test]
fn resize_updates_aspect_and_projection() {
    // Resizing from 800x600 to 1600x600 moves the aspect from 4/3 to
    // 8/3 and halves the projected x of an off-center point.
    let mut c = Camera::new();
    c.position = vec3_bits(0.0, 0.0, 5.0);
    c.target = vec3_bits(0.0, 0.0, 0.0);
    c.set_aspect((800.0f32 / 600.0).to_bits());
    assert_eq!(c.aspect, (800.0f32 / 600.0).to_bits());
    let vp1 = mat4_of_bits(&c.view_projection_matrix());
    let clip1 = vp1 * nalgebra_glm::vec4(1.0, 0.0, 0.0, 1.0);
    let x1 = clip1.x / clip1.w;

    c.set_aspect((1600.0f32 / 600.0).to_bits());
    assert_eq!(c.aspect, (1600.0f32 / 600.0).to_bits());
    let vp2 = mat4_of_bits(&c.view_projection_matrix());
    let clip2 = vp2 * nalgebra_glm::vec4(1.0, 0.0, 0.0, 1.0);
    let x2 = clip2.x / clip2.w;

    assert!(x1 != x2);
    assert!((x1 / x2 - 2.0).abs() < 1e-4);
}
