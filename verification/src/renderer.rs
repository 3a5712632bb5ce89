//! The forward renderer: two instance batches (cubes and point lights)
//! over the shared cube mesh, the per-frame streaming protocol, and the
//! uniform and draw plans the driver layer executes. Per-instance
//! records are computed in parallel, each worker writing only its own
//! output slot, then streamed as one sub-range update.

use vstd::prelude::*;

use crate::binding::lemma_packed_layout_bindings_full;
use crate::binding::lemma_packed_layout_fits;
use crate::binding::lemma_packed_slots_total;
use crate::binding::spec_layout_bindings;
use crate::binding::spec_slots_total;
use crate::binding::spec_typed_bindings;
use crate::camera::Camera;
use crate::camera::spec_view_projection_mat;
use crate::layout::spec_packed_offset;
use crate::mesh::VertBasic;
use crate::mesh::spec_tex_cube_inds;
use crate::mesh::spec_tex_cube_verts;
use crate::mesh::tex_cube_inds;
use crate::mesh::tex_cube_verts;
use crate::shader::ShaderProgram;
use crate::texture::Texture;
use crate::transform::Transform;
use crate::transform::VertTrans;
use crate::transform::spec_is_record_of;
use crate::vertex_array::BufDesc;
use crate::vertex_array::BufferTarget;
use crate::vertex_array::IndexBuf;
use crate::vertex_array::SubRangeUpdate;
use crate::vertex_array::Vert;
use crate::vertex_array::VertArray;
use crate::vertex_array::VertBuf;
use crate::vertex_array::spec_buf_slots;
use crate::vertex_array::spec_plan_prefix;

use rayon::iter::IndexedParallelIterator;
use rayon::iter::IntoParallelRefIterator;
use rayon::iter::IntoParallelRefMutIterator;
use rayon::iter::ParallelIterator;

verus! {

/// The error returned when more instances are submitted than the
/// instance buffer's GPU storage was allocated for. Streaming past the
/// allocation would corrupt adjacent GPU memory, so the batch refuses
/// the whole submission instead.
#[derive(Debug, Copy, Clone, PartialEq, Eq, Structural)]
pub struct CapacityError {
    pub requested: usize,
    pub capacity: u32,
}

/// Relies on rayon's parallel iterators: `for_each` over the zipped
/// mutable and shared sides applies the closure to every aligned pair
/// exactly once, no pair skipped or repeated, each worker writing only
/// its own record. The closure only calls the verified
/// `VertTrans::set`, so each record ends up as that function leaves it.
#[verifier::external_body]
fn fill_records_parallel(records: &mut Vec<VertTrans>, transforms: &[Transform])
    requires
        old(records)@.len() == transforms@.len(),
    ensures
        final(records)@.len() == transforms@.len(),
        forall|i: int| 0 <= i < transforms@.len()
            ==> spec_is_record_of(#[trigger] final(records)@[i], transforms@[i]),
{
    records
        .par_iter_mut()
        .zip(transforms.par_iter())
        .for_each(|(record, transform)| record.set(transform));
}

/// One instanced drawable: the shared static geometry buffer, the
/// dynamic per-instance record buffer, and the binding set that joins
/// them with the shared index buffer.
pub struct InstanceBatch {
    pub geo_buf: VertBuf<VertBasic>,
    pub trans_buf: VertBuf<VertTrans>,
    pub vert_array: VertArray,
}

/// The planned instanced draw of a batch: stream the instance mirror,
/// then draw the indexed mesh once per instance.
#[derive(Debug, Copy, Clone, PartialEq, Eq, Structural)]
pub struct DrawCmd {
    pub upload: SubRangeUpdate,
    pub vertex_array_id: u32,
    pub index_count: usize,
    pub instance_count: usize,
}

/// The draw a batch would plan in its current state.
pub open spec fn spec_draw_cmd(b: InstanceBatch) -> DrawCmd {
    DrawCmd {
        upload: SubRangeUpdate {
            buffer_id: b.trans_buf.id,
            target: BufferTarget::Array,
            byte_len: (b.trans_buf.vertices@.len() * b.trans_buf.layout.stride) as u64,
        },
        vertex_array_id: b.vert_array.id,
        index_count: b.vert_array.index_buf.indices@.len() as usize,
        instance_count: b.trans_buf.vertices@.len() as usize,
    }
}

/// A batch is well formed when its instance mirror fits the GPU
/// allocation it will be streamed into.
pub open spec fn spec_batch_wf(b: InstanceBatch) -> bool {
    b.trans_buf.vertices@.len() <= b.trans_buf.capacity
}

/// Law: an empty batch plans a draw that does zero work — zero
/// instances and a zero-byte stream.
pub proof fn lemma_empty_batch_draws_nothing(b: InstanceBatch)
    requires
        b.trans_buf.vertices@.len() == 0,
    ensures
        spec_draw_cmd(b).instance_count == 0,
        spec_draw_cmd(b).upload.byte_len == 0,
{
}

impl InstanceBatch {
    /// Assembles a batch from driver-created GPU handles: the geometry
    /// buffer holds `geometry` once and for all, the instance buffer
    /// starts empty with room for `max_instances` records, and the
    /// binding set maps geometry attributes then instance attributes
    /// onto consecutive slots.
    pub fn new(
        vao_id: u32,
        geo_buf_id: u32,
        trans_buf_id: u32,
        index_buf_id: u32,
        geometry: Vec<VertBasic>,
        indices: Vec<u32>,
        max_instances: u32,
    ) -> (r: InstanceBatch)
        requires
            geometry@.len() <= u32::MAX,
        ensures
            spec_batch_wf(r),
            r.geo_buf.id == geo_buf_id,
            r.geo_buf.vertices@ == geometry@,
            r.geo_buf.capacity == geometry@.len(),
            r.trans_buf.id == trans_buf_id,
            r.trans_buf.vertices@.len() == 0,
            r.trans_buf.capacity == max_instances,
            r.trans_buf.layout.stride == 100,
            r.vert_array.id == vao_id,
            r.vert_array.index_buf.id == index_buf_id,
            r.vert_array.index_buf.indices@ == indices@,
            r.vert_array.bindings@ == spec_typed_bindings(
                VertBasic::spec_attr_types(),
                geo_buf_id,
                0,
            ) + spec_typed_bindings(
                VertTrans::spec_attr_types(),
                trans_buf_id,
                spec_slots_total(
                    VertBasic::spec_attr_types(),
                    VertBasic::spec_attr_types().len() as int,
                ),
            ),
    {
        let geo_capacity = geometry.len() as u32;
        let geo_buf = VertBuf::<VertBasic>::new(geo_buf_id, geometry, geo_capacity);
        let trans_buf = VertBuf::<VertTrans>::new(trans_buf_id, Vec::new(), max_instances);
        let index_buf = IndexBuf::new(index_buf_id, indices);
        let geo_layout = VertBasic::layout();
        let trans_layout = VertTrans::layout();
        let ghost geo_types = VertBasic::spec_attr_types();
        let ghost trans_types = VertTrans::spec_attr_types();
        proof {
            lemma_packed_layout_fits(geo_layout, geo_types);
            lemma_packed_layout_fits(trans_layout, trans_types);
            lemma_packed_slots_total(geo_layout, geo_types, geo_types.len() as int);
            lemma_packed_slots_total(trans_layout, trans_types, trans_types.len() as int);
            assert(spec_slots_total(geo_types, 3) == 3) by {
                assert(spec_slots_total(geo_types, 0) == 0);
                assert(spec_slots_total(geo_types, 1) == 1);
                assert(spec_slots_total(geo_types, 2) == 2);
            }
            assert(spec_slots_total(trans_types, 2) == 7) by {
                assert(spec_slots_total(trans_types, 0) == 0);
                assert(spec_slots_total(trans_types, 1) == 4);
            }
            assert(spec_packed_offset(trans_types, 2) == 100) by {
                assert(spec_packed_offset(trans_types, 0) == 0);
                assert(spec_packed_offset(trans_types, 1) == 64);
            }
        }
        let mut bufs: Vec<BufDesc> = Vec::new();
        bufs.push(BufDesc { buffer_id: geo_buf_id, layout: geo_layout });
        bufs.push(BufDesc { buffer_id: trans_buf_id, layout: trans_layout });
        proof {
            assert(bufs@.len() == 2);
            assert(bufs@[0].buffer_id == geo_buf_id && bufs@[0].layout == geo_layout);
            assert(bufs@[1].buffer_id == trans_buf_id && bufs@[1].layout == trans_layout);
            assert(spec_buf_slots(bufs@, 0) == 0);
            assert(spec_buf_slots(bufs@, 1) == 3);
            assert(spec_buf_slots(bufs@, 2) == 10);
        }
        let vert_array = VertArray::new(vao_id, bufs, index_buf);
        proof {
            lemma_packed_layout_bindings_full(geo_layout, geo_types, geo_buf_id, 0);
            lemma_packed_layout_bindings_full(trans_layout, trans_types, trans_buf_id, 3);
            assert(spec_plan_prefix(bufs@, 0, 0)
                =~= Seq::<crate::binding::AttrBinding>::empty());
            assert(spec_plan_prefix(bufs@, 0, 1) =~= spec_layout_bindings(
                geo_layout,
                geo_buf_id,
                0,
            ));
            assert(spec_plan_prefix(bufs@, 0, 2) == spec_plan_prefix(bufs@, 0, 1)
                + spec_layout_bindings(trans_layout, trans_buf_id, 3));
            assert(vert_array.bindings@ == spec_typed_bindings(geo_types, geo_buf_id, 0)
                + spec_typed_bindings(trans_types, trans_buf_id, 3));
        }
        InstanceBatch { geo_buf, trans_buf, vert_array }
    }

    /// The configured maximum number of instances.
    pub fn max_instances(&self) -> (r: u32)
        ensures
            r == self.trans_buf.capacity,
    {
        self.trans_buf.capacity
    }

    /// Replaces the instance mirror with one record per transform,
    /// computed in parallel: record `i` is the projection of transform
    /// `i`. Succeeds exactly when the submission fits the buffer's
    /// fixed capacity; a too-long submission is refused whole and the
    /// mirror is left as it was.
    pub fn set_instances(&mut self, transforms: &[Transform]) -> (r: Result<(), CapacityError>)
        ensures
            final(self).geo_buf == old(self).geo_buf,
            final(self).vert_array == old(self).vert_array,
            final(self).trans_buf.id == old(self).trans_buf.id,
            final(self).trans_buf.layout == old(self).trans_buf.layout,
            final(self).trans_buf.capacity == old(self).trans_buf.capacity,
            r is Ok <==> transforms@.len() <= old(self).trans_buf.capacity,
            r is Ok ==> {
                &&& final(self).trans_buf.vertices@.len() == transforms@.len()
                &&& forall|i: int| 0 <= i < transforms@.len() ==> spec_is_record_of(
                    #[trigger] final(self).trans_buf.vertices@[i],
                    transforms@[i],
                )
            },
            r is Err ==> {
                &&& final(self).trans_buf.vertices@ == old(self).trans_buf.vertices@
                &&& r == Err::<(), CapacityError>(CapacityError {
                    requested: transforms@.len() as usize,
                    capacity: old(self).trans_buf.capacity,
                })
            },
    {
        if transforms.len() > self.trans_buf.capacity as usize {
            return Err(CapacityError {
                requested: transforms.len(),
                capacity: self.trans_buf.capacity,
            });
        }
        ForwardRenderer::set_vert_trans(&mut self.trans_buf.vertices, transforms);
        Ok(())
    }

    /// Plans the instanced draw of the batch's current state: stream
    /// the whole instance mirror, then draw the indexed mesh once per
    /// instance. With an empty mirror this is a valid empty draw.
    pub fn draw_instanced(&self) -> (r: DrawCmd)
        requires
            spec_batch_wf(*self),
        ensures
            r == spec_draw_cmd(*self),
    {
        let upload = self.trans_buf.set_data();
        DrawCmd {
            upload,
            vertex_array_id: self.vert_array.id,
            index_count: self.vert_array.index_buf.indices.len(),
            instance_count: self.trans_buf.vertices.len(),
        }
    }
}

/// Bit pattern of the red channel of the clear color (twenty over two
/// hundred fifty-five).
pub const CLEAR_R_BITS: u32 = 0x3DA0_A0A1;

/// Bit pattern of the green channel of the clear color (twenty-four
/// over two hundred fifty-five).
pub const CLEAR_G_BITS: u32 = 0x3DC0_C0C1;

/// Bit pattern of the blue channel of the clear color (eighty-two over
/// two hundred fifty-five).
pub const CLEAR_B_BITS: u32 = 0x3EA4_A4A5;

/// The planned clear at the top of a frame: set this color and clear
/// the color and depth buffers.
#[derive(Debug, Copy, Clone)]
pub struct ClearCmd {
    pub color: [u32; 4],
}

/// One planned uniform write, addressed by GPU program handle.
#[derive(Debug, Copy, Clone)]
pub enum UniformUpdate {
    /// The camera's view-projection matrix.
    ViewProjection { program_id: u32, matrix: [u32; 16] },
    /// The camera's world position, for specular lighting.
    ViewPos { program_id: u32, position: [u32; 3] },
    /// One point light's world position, at its index in the shader's
    /// light array.
    PointLightPosition { program_id: u32, index: usize, position: [u32; 3] },
}

/// One planned instanced batch draw: bind the program and, if any, the
/// texture, then run the batch's upload-and-draw.
#[derive(Debug, Copy, Clone)]
pub struct BatchDraw {
    pub program_id: u32,
    pub texture_id: Option<u32>,
    pub draw: DrawCmd,
}

/// The GPU handles the driver created for the renderer: two linked
/// shader programs, the cube texture, and the four GPU objects of each
/// batch.
#[derive(Debug, Copy, Clone)]
pub struct RendererResources {
    pub cube_shader_id: u32,
    pub light_shader_id: u32,
    pub cube_texture_id: u32,
    pub cube_vao_id: u32,
    pub cube_geo_buf_id: u32,
    pub cube_trans_buf_id: u32,
    pub cube_index_buf_id: u32,
    pub light_vao_id: u32,
    pub light_geo_buf_id: u32,
    pub light_trans_buf_id: u32,
    pub light_index_buf_id: u32,
}

/// The forward renderer: the cube batch and the light batch, both over
/// the shared cube mesh, their shader programs, and the cube texture.
pub struct ForwardRenderer {
    pub cube_shader: ShaderProgram,
    pub light_shader: ShaderProgram,
    pub cube_tex: Texture,
    pub cube_batch: InstanceBatch,
    pub light_batch: InstanceBatch,
}

impl ForwardRenderer {
    /// Assembles the renderer from driver-created handles: each batch
    /// gets the cube mesh uploaded once, an empty instance buffer sized
    /// to its ceiling, and the geometry-then-instance slot plan.
    pub fn new(res: RendererResources, max_cubes: u32, max_lights: u32) -> (r: ForwardRenderer)
        ensures
            r.cube_shader.id == res.cube_shader_id,
            r.light_shader.id == res.light_shader_id,
            r.cube_tex.id == res.cube_texture_id,
            spec_batch_wf(r.cube_batch),
            spec_batch_wf(r.light_batch),
            spec_tex_cube_verts(r.cube_batch.geo_buf.vertices@),
            spec_tex_cube_verts(r.light_batch.geo_buf.vertices@),
            r.cube_batch.vert_array.index_buf.indices@ == spec_tex_cube_inds(),
            r.light_batch.vert_array.index_buf.indices@ == spec_tex_cube_inds(),
            r.cube_batch.trans_buf.vertices@.len() == 0,
            r.light_batch.trans_buf.vertices@.len() == 0,
            r.cube_batch.trans_buf.capacity == max_cubes,
            r.light_batch.trans_buf.capacity == max_lights,
            r.cube_batch.geo_buf.id == res.cube_geo_buf_id,
            r.cube_batch.trans_buf.id == res.cube_trans_buf_id,
            r.cube_batch.vert_array.id == res.cube_vao_id,
            r.cube_batch.vert_array.index_buf.id == res.cube_index_buf_id,
            r.light_batch.geo_buf.id == res.light_geo_buf_id,
            r.light_batch.trans_buf.id == res.light_trans_buf_id,
            r.light_batch.vert_array.id == res.light_vao_id,
            r.light_batch.vert_array.index_buf.id == res.light_index_buf_id,
            r.cube_batch.vert_array.bindings@ == spec_typed_bindings(
                VertBasic::spec_attr_types(),
                res.cube_geo_buf_id,
                0,
            ) + spec_typed_bindings(VertTrans::spec_attr_types(), res.cube_trans_buf_id, 3),
            r.light_batch.vert_array.bindings@ == spec_typed_bindings(
                VertBasic::spec_attr_types(),
                res.light_geo_buf_id,
                0,
            ) + spec_typed_bindings(VertTrans::spec_attr_types(), res.light_trans_buf_id, 3),
    {
        proof {
            assert(spec_slots_total(VertBasic::spec_attr_types(), 3) == 3) by {
                assert(spec_slots_total(VertBasic::spec_attr_types(), 0) == 0);
                assert(spec_slots_total(VertBasic::spec_attr_types(), 1) == 1);
                assert(spec_slots_total(VertBasic::spec_attr_types(), 2) == 2);
            }
        }
        let cube_batch = InstanceBatch::new(
            res.cube_vao_id,
            res.cube_geo_buf_id,
            res.cube_trans_buf_id,
            res.cube_index_buf_id,
            tex_cube_verts(),
            tex_cube_inds(),
            max_cubes,
        );
        let light_batch = InstanceBatch::new(
            res.light_vao_id,
            res.light_geo_buf_id,
            res.light_trans_buf_id,
            res.light_index_buf_id,
            tex_cube_verts(),
            tex_cube_inds(),
            max_lights,
        );
        ForwardRenderer {
            cube_shader: ShaderProgram { id: res.cube_shader_id },
            light_shader: ShaderProgram { id: res.light_shader_id },
            cube_tex: Texture { id: res.cube_texture_id },
            cube_batch,
            light_batch,
        }
    }

    /// The program the cubes are drawn with.
    pub fn cube_shader(&self) -> (r: &ShaderProgram)
        ensures
            r == &self.cube_shader,
    {
        &self.cube_shader
    }

    /// Overwrites `vertices` with one record per transform: record `i`
    /// is the projection of transform `i`. The mirror is first resized
    /// to the submission's length, then filled by an unordered parallel
    /// map with no shared mutable state between workers.
    pub fn set_vert_trans(vertices: &mut Vec<VertTrans>, transforms: &[Transform])
        ensures
            final(vertices)@.len() == transforms@.len(),
            forall|i: int| 0 <= i < transforms@.len() ==> spec_is_record_of(
                #[trigger] final(vertices)@[i],
                transforms@[i],
            ),
    {
        vertices.truncate(transforms.len());
        while vertices.len() < transforms.len()
            invariant
                vertices@.len() <= transforms@.len(),
            decreases transforms@.len() - vertices@.len(),
        {
            vertices.push(VertTrans::default());
        }
        fill_records_parallel(vertices, transforms);
    }

    /// Plans the frame clear: the fixed dark blue clear color, clearing
    /// color and depth.
    pub fn clear(&self) -> (r: ClearCmd)
        ensures
            r.color@ == seq![CLEAR_R_BITS, CLEAR_G_BITS, CLEAR_B_BITS, crate::glmath::F32_ONE_BITS],
    {
        let r = ClearCmd {
            color: [CLEAR_R_BITS, CLEAR_G_BITS, CLEAR_B_BITS, crate::glmath::F32_ONE_BITS],
        };
        proof {
            assert(r.color@ =~= seq![
                CLEAR_R_BITS,
                CLEAR_G_BITS,
                CLEAR_B_BITS,
                crate::glmath::F32_ONE_BITS,
            ]);
        }
        r
    }

    /// Plans the per-frame uniforms: the camera's view-projection
    /// matrix for both programs, computed once, and the camera position
    /// for the cube program, independent of draw order. The camera's
    /// aspect ratio must be meaningfully away from zero.
    pub fn begin_draw(&self, camera: &Camera) -> (r: Vec<UniformUpdate>)
        requires
            crate::glmath::spec_above_epsilon(camera.aspect),
        ensures
            r@.len() == 3,
            r@[0] matches UniformUpdate::ViewProjection { program_id, matrix }
                && program_id == self.light_shader.id
                && matrix@ == spec_view_projection_mat(*camera),
            r@[1] matches UniformUpdate::ViewProjection { program_id, matrix }
                && program_id == self.cube_shader.id
                && matrix@ == spec_view_projection_mat(*camera),
            r@[2] matches UniformUpdate::ViewPos { program_id, position }
                && program_id == self.cube_shader.id
                && position == camera.position,
    {
        let vp_mat = camera.view_projection_matrix();
        let mut cmds: Vec<UniformUpdate> = Vec::new();
        cmds.push(UniformUpdate::ViewProjection {
            program_id: self.light_shader.id,
            matrix: vp_mat,
        });
        cmds.push(UniformUpdate::ViewProjection {
            program_id: self.cube_shader.id,
            matrix: vp_mat,
        });
        cmds.push(UniformUpdate::ViewPos {
            program_id: self.cube_shader.id,
            position: camera.position,
        });
        cmds
    }

    /// Streams the cubes' transforms into the cube batch; succeeds
    /// exactly when they fit the batch's ceiling, and refuses the whole
    /// submission otherwise.
    pub fn set_cubes(&mut self, transforms: &[Transform]) -> (r: Result<(), CapacityError>)
        ensures
            final(self).light_batch == old(self).light_batch,
            final(self).cube_shader == old(self).cube_shader,
            final(self).light_shader == old(self).light_shader,
            final(self).cube_tex == old(self).cube_tex,
            final(self).cube_batch.geo_buf == old(self).cube_batch.geo_buf,
            final(self).cube_batch.vert_array == old(self).cube_batch.vert_array,
            final(self).cube_batch.trans_buf.id == old(self).cube_batch.trans_buf.id,
            final(self).cube_batch.trans_buf.layout == old(self).cube_batch.trans_buf.layout,
            final(self).cube_batch.trans_buf.capacity == old(self).cube_batch.trans_buf.capacity,
            r is Ok <==> transforms@.len() <= old(self).cube_batch.trans_buf.capacity,
            r is Ok ==> {
                &&& final(self).cube_batch.trans_buf.vertices@.len() == transforms@.len()
                &&& forall|i: int| 0 <= i < transforms@.len() ==> spec_is_record_of(
                    #[trigger] final(self).cube_batch.trans_buf.vertices@[i],
                    transforms@[i],
                )
            },
            r is Err ==> final(self).cube_batch.trans_buf.vertices@
                == old(self).cube_batch.trans_buf.vertices@,
    {
        self.cube_batch.set_instances(transforms)
    }

    /// Streams the lights' transforms into the light batch and, on
    /// success, plans one uniform write per light: its world position
    /// at its index in the cube program's light array, to be applied
    /// before the cubes are drawn.
    pub fn set_lights(&mut self, transforms: &[Transform]) -> (r: Result<
        Vec<UniformUpdate>,
        CapacityError,
    >)
        ensures
            final(self).cube_batch == old(self).cube_batch,
            final(self).cube_shader == old(self).cube_shader,
            final(self).light_shader == old(self).light_shader,
            final(self).cube_tex == old(self).cube_tex,
            final(self).light_batch.geo_buf == old(self).light_batch.geo_buf,
            final(self).light_batch.vert_array == old(self).light_batch.vert_array,
            final(self).light_batch.trans_buf.id == old(self).light_batch.trans_buf.id,
            final(self).light_batch.trans_buf.layout == old(self).light_batch.trans_buf.layout,
            final(self).light_batch.trans_buf.capacity
                == old(self).light_batch.trans_buf.capacity,
            r is Ok <==> transforms@.len() <= old(self).light_batch.trans_buf.capacity,
            r matches Ok(cmds) ==> {
                &&& final(self).light_batch.trans_buf.vertices@.len() == transforms@.len()
                &&& (forall|i: int| 0 <= i < transforms@.len() ==> spec_is_record_of(
                    #[trigger] final(self).light_batch.trans_buf.vertices@[i],
                    transforms@[i],
                ))
                &&& cmds@.len() == transforms@.len()
                &&& (forall|i: int| 0 <= i < transforms@.len()
                    ==> (#[trigger] cmds@[i] matches UniformUpdate::PointLightPosition {
                        program_id,
                        index,
                        position,
                    } && program_id == old(self).cube_shader.id && index == i && position
                        == transforms@[i].position))
            },
            r is Err ==> final(self).light_batch.trans_buf.vertices@
                == old(self).light_batch.trans_buf.vertices@,
    {
        let result = self.light_batch.set_instances(transforms);
        if let Err(e) = result {
            return Err(e);
        }
        let mut cmds: Vec<UniformUpdate> = Vec::new();
        let mut i: usize = 0;
        while i < transforms.len()
            invariant
                i <= transforms@.len(),
                cmds@.len() == i,
                forall|k: int| 0 <= k < i
                    ==> (#[trigger] cmds@[k] matches UniformUpdate::PointLightPosition {
                        program_id,
                        index,
                        position,
                    } && program_id == self.cube_shader.id && index == k && position
                        == transforms@[k].position),
            decreases transforms@.len() - i,
        {
            cmds.push(UniformUpdate::PointLightPosition {
                program_id: self.cube_shader.id,
                index: i,
                position: transforms[i].position,
            });
            i = i + 1;
        }
        Ok(cmds)
    }

    /// Plans the end of the frame: stream and draw the cube batch, then
    /// the light batch — a fixed order; with depth testing enabled the
    /// order does not change the result.
    pub fn end_draw(&self) -> (r: Vec<BatchDraw>)
        requires
            spec_batch_wf(self.cube_batch),
            spec_batch_wf(self.light_batch),
        ensures
            r@.len() == 2,
            r@[0] == (BatchDraw {
                program_id: self.cube_shader.id,
                texture_id: Some(self.cube_tex.id),
                draw: spec_draw_cmd(self.cube_batch),
            }),
            r@[1] == (BatchDraw {
                program_id: self.light_shader.id,
                texture_id: None,
                draw: spec_draw_cmd(self.light_batch),
            }),
    {
        let cube_draw = BatchDraw {
            program_id: self.cube_shader.id,
            texture_id: Some(self.cube_tex.id),
            draw: self.cube_batch.draw_instanced(),
        };
        let light_draw = BatchDraw {
            program_id: self.light_shader.id,
            texture_id: None,
            draw: self.light_batch.draw_instanced(),
        };
        let mut cmds: Vec<BatchDraw> = Vec::new();
        cmds.push(cube_draw);
        cmds.push(light_draw);
        cmds
    }
}

} // verus!
