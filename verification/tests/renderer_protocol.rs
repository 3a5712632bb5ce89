use glamour::camera::Camera;
use glamour::layout::GL_FLOAT;
use glamour::mesh::ndc_quad_verts;
use glamour::mesh::tex_cube_inds;
use glamour::mesh::tex_cube_verts;
use glamour::renderer::BatchDraw;
use glamour::renderer::ForwardRenderer;
use glamour::renderer::InstanceBatch;
use glamour::renderer::RendererResources;
use glamour::renderer::UniformUpdate;
use glamour::transform::Transform;
use glamour::vertex_array::BufferTarget;

fn b(x: f32) -> u32 {
    x.to_bits()
}

fn transform_at(x: f32) -> Transform {
    Transform::from_pos([b(x), b(0.0), b(0.0)])
}

fn test_batch(max_instances: u32) -> InstanceBatch {
    InstanceBatch::new(1, 2, 3, 4, tex_cube_verts(), tex_cube_inds(), max_instances)
}

fn test_resources() -> RendererResources {
    RendererResources {
        cube_shader_id: 100,
        light_shader_id: 101,
        cube_texture_id: 102,
        cube_vao_id: 10,
        cube_geo_buf_id: 11,
        cube_trans_buf_id: 12,
        cube_index_buf_id: 13,
        light_vao_id: 20,
        light_geo_buf_id: 21,
        light_trans_buf_id: 22,
        light_index_buf_id: 23,
    }
}

#[test]
fn cube_mesh_shape() {
    let verts = tex_cube_verts();
    assert_eq!(verts.len(), 24);
    // First vertex: the back-bottom-left corner with its face normal.
    assert_eq!(verts[0].position, [b(-0.5), b(-0.5), b(-0.5)]);
    assert_eq!(verts[0].normal, [b(0.0), b(0.0), b(-1.0)]);
    assert_eq!(verts[0].tex_coords, [b(0.0), b(0.0)]);
    // Last vertex: the top face's fourth corner.
    assert_eq!(verts[23].position, [b(-0.5), b(0.5), b(0.5)]);
    assert_eq!(verts[23].normal, [b(0.0), b(1.0), b(0.0)]);

    let inds = tex_cube_inds();
    assert_eq!(inds.len(), 36);
    assert_eq!(
        inds,
        vec![
            0, 1, 2, 2, 3, 0, 4, 5, 6, 6, 7, 4, 8, 9, 10, 10, 11, 8, 12, 13, 14, 14, 15, 12, 16,
            17, 18, 18, 19, 16, 20, 21, 22, 22, 23, 20,
        ]
    );
    assert!(inds.iter().all(|i| (*i as usize) < verts.len()));

    let quad = ndc_quad_verts();
    assert_eq!(quad.len(), 4);
    assert_eq!(quad[0].position, [b(-1.0), b(1.0), b(0.0)]);
    assert_eq!(quad[3].tex_coords, [b(1.0), b(0.0)]);
}

#[test]
fn batch_binding_plan_covers_ten_slots() {
    let batch = test_batch(8);
    let bindings = batch.vert_array.bindings();
    assert_eq!(bindings.len(), 10);
    for (i, binding) in bindings.iter().enumerate() {
        assert_eq!(binding.slot as usize, i);
        assert_eq!(binding.gl_type, GL_FLOAT);
        assert_eq!(binding.divisor, if i < 3 { 0 } else { 1 });
        assert_eq!(binding.buffer_id, if i < 3 { 2 } else { 3 });
    }
}

#[test]
fn set_instances_writes_translation_columns_in_order() {
    // Three transforms at x = 0, 1, 2 with identity rotation and scale:
    // the host mirror holds three records whose translation columns are
    // those positions, in the same order.
    let mut batch = test_batch(16);
    let transforms = vec![transform_at(0.0), transform_at(1.0), transform_at(2.0)];
    batch.set_instances(&transforms).expect("three instances fit");
    let records = batch.trans_buf.vertices();
    assert_eq!(records.len(), 3);
    for (i, rec) in records.iter().enumerate() {
        assert_eq!(rec.transform[12], b(i as f32), "x translation of record {}", i);
        assert_eq!(rec.transform[13], b(0.0));
        assert_eq!(rec.transform[14], b(0.0));
        assert_eq!(rec.transform[15], b(1.0));
        // Identity linear part.
        assert_eq!(rec.transform[0], b(1.0));
        assert_eq!(rec.transform[5], b(1.0));
        assert_eq!(rec.transform[10], b(1.0));
        // The normal matrix of a pure translation is the identity.
        let n: Vec<f32> = rec.normal.iter().map(|w| f32::from_bits(*w)).collect();
        for (k, v) in n.iter().enumerate() {
            let expected = if k % 4 == 0 { 1.0 } else { 0.0 };
            assert_eq!(*v, expected, "normal entry {}", k);
        }
    }
}

#[test]
fn empty_batch_draw_is_a_no_op() {
    let mut batch = test_batch(16);
    batch.set_instances(&[transform_at(1.0)]).expect("one instance fits");
    batch.set_instances(&[]).expect("an empty submission always fits");
    let draw = batch.draw_instanced();
    assert_eq!(draw.instance_count, 0);
    assert_eq!(draw.upload.byte_len, 0);
    assert_eq!(draw.index_count, 36);
}

#[test]
fn capacity_boundary_is_exact() {
    let mut batch = test_batch(4);
    assert_eq!(batch.max_instances(), 4);
    let four: Vec<Transform> = (0..4).map(|i| transform_at(i as f32)).collect();
    assert!(batch.set_instances(&four).is_ok());
    assert_eq!(batch.trans_buf.vertices().len(), 4);

    let five: Vec<Transform> = (0..5).map(|i| transform_at(i as f32)).collect();
    let err = batch.set_instances(&five).expect_err("five instances must be refused");
    assert_eq!(err.requested, 5);
    assert_eq!(err.capacity, 4);
    // The refused submission left the previous contents alone.
    assert_eq!(batch.trans_buf.vertices().len(), 4);
    assert_eq!(batch.trans_buf.vertices()[1].transform[12], b(1.0));
}

#[test]
fn draw_upload_covers_whole_mirror() {
    let mut batch = test_batch(16);
    let transforms = vec![transform_at(0.0), transform_at(1.0), transform_at(2.0)];
    batch.set_instances(&transforms).unwrap();
    let draw = batch.draw_instanced();
    assert_eq!(draw.instance_count, 3);
    // Three records of one hundred bytes each: a 4x4 and a 3x3 float
    // matrix per instance.
    assert_eq!(draw.upload.byte_len, 300);
    assert_eq!(draw.upload.buffer_id, 3);
    assert_eq!(draw.upload.target, BufferTarget::Array);
    assert_eq!(draw.vertex_array_id, 1);
}

#[test]
fn renderer_plans_uniforms_once_per_program() {
    let renderer = ForwardRenderer::new(test_resources(), 1000, 32);
    let mut camera = Camera::new();
    camera.position = [b(0.0), b(0.0), b(5.0)];
    let cmds = renderer.begin_draw(&camera);
    assert_eq!(cmds.len(), 3);
    let vp = camera.view_projection_matrix();
    match cmds[0] {
        UniformUpdate::ViewProjection { program_id, matrix } => {
            assert_eq!(program_id, 101);
            assert_eq!(matrix, vp);
        }
        _ => panic!("first update must set the light view-projection"),
    }
    match cmds[1] {
        UniformUpdate::ViewProjection { program_id, matrix } => {
            assert_eq!(program_id, 100);
            assert_eq!(matrix, vp);
        }
        _ => panic!("second update must set the cube view-projection"),
    }
    match cmds[2] {
        UniformUpdate::ViewPos { program_id, position } => {
            assert_eq!(program_id, 100);
            assert_eq!(position, camera.position);
        }
        _ => panic!("third update must set the view position"),
    }
}

#[test]
fn set_lights_plans_indexed_positions() {
    let mut renderer = ForwardRenderer::new(test_resources(), 1000, 32);
    let lights = vec![transform_at(3.0), transform_at(-1.0)];
    let cmds = renderer.set_lights(&lights).expect("two lights fit");
    assert_eq!(cmds.len(), 2);
    for (i, cmd) in cmds.iter().enumerate() {
        match cmd {
            UniformUpdate::PointLightPosition { program_id, index, position } => {
                assert_eq!(*program_id, 100, "light positions go to the cube shader");
                assert_eq!(*index, i);
                assert_eq!(*position, lights[i].position);
            }
            _ => panic!("light updates must be indexed positions"),
        }
    }
    assert_eq!(renderer.light_batch.trans_buf.vertices().len(), 2);
}

#[test]
fn renderer_capacity_errors_propagate() {
    let mut renderer = ForwardRenderer::new(test_resources(), 2, 1);
    let three: Vec<Transform> = (0..3).map(|i| transform_at(i as f32)).collect();
    let err = renderer.set_cubes(&three).expect_err("three cubes over a ceiling of two");
    assert_eq!(err.requested, 3);
    assert_eq!(err.capacity, 2);
    let err = renderer.set_lights(&three).expect_err("three lights over a ceiling of one");
    assert_eq!(err.requested, 3);
    assert_eq!(err.capacity, 1);
}

#[test]
fn end_draw_orders_cubes_before_lights() {
    let mut renderer = ForwardRenderer::new(test_resources(), 1000, 32);
    renderer.set_cubes(&[transform_at(0.0), transform_at(1.0)]).unwrap();
    renderer.set_lights(&[transform_at(2.0)]).unwrap();
    let draws = renderer.end_draw();
    assert_eq!(draws.len(), 2);
    let BatchDraw { program_id, texture_id, draw } = draws[0];
    assert_eq!(program_id, 100);
    assert_eq!(texture_id, Some(102));
    assert_eq!(draw.instance_count, 2);
    assert_eq!(draw.index_count, 36);
    assert_eq!(draw.upload.buffer_id, 12);
    assert_eq!(draw.upload.byte_len, 200);
    let BatchDraw { program_id, texture_id, draw } = draws[1];
    assert_eq!(program_id, 101);
    assert_eq!(texture_id, None);
    assert_eq!(draw.instance_count, 1);
    assert_eq!(draw.upload.buffer_id, 22);
}

#[test]
fn clear_color_is_the_fixed_dark_blue() {
    let renderer = ForwardRenderer::new(test_resources(), 1, 1);
    let clear = renderer.clear();
    assert_eq!(clear.color[0], (20.0f32 / 255.0).to_bits());
    assert_eq!(clear.color[1], (24.0f32 / 255.0).to_bits());
    assert_eq!(clear.color[2], (82.0f32 / 255.0).to_bits());
    assert_eq!(clear.color[3], 1.0f32.to_bits());
}

#[test]
fn set_instances_at_zero_capacity() {
    let mut batch = test_batch(0);
    assert!(batch.set_instances(&[]).is_ok());
    assert!(batch.set_instances(&[transform_at(0.0)]).is_err());
}
