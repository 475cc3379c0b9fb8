//! The write side of the core: the draw surface application code records a
//! frame through. Vertex data, model matrices and light records are staged
//! into monotonically growing frame arenas, commands are appended to the
//! virtual render pass, and every mutation preserves the well-formedness the
//! replay engine requires. The device-facing shell uploads the staged arena
//! contents and performs the actions replay emits.

use vstd::prelude::*;
use vstd::arithmetic::div_mod::lemma_fundamental_div_mod;
use vstd::slice::slice_to_vec;
use crate::lights::{Light, MAX_LIGHTS};
use crate::mesh::{IndexedMesh, Mesh};
use crate::pipeline::Pipeline;
use crate::virtual_render_pass::{
    lemma_valid_commands_push, state_at, valid_commands, Command, VirtualRenderPass,
    IMMEDIATE_ARENA_BYTES,
};

verus! {

/// Capacity of the instance matrix arena, in bytes.
pub const INSTANCE_ARENA_BYTES: u64 = 8 * 1024 * 1024;

/// Bytes of one model matrix: sixteen 32-bit words.
pub const MATRIX_BYTES: u64 = 64;

/// The most model matrices one frame may push.
pub const MAX_INSTANCES: u64 = INSTANCE_ARENA_BYTES / MATRIX_BYTES;

/// Why a push was refused. A malformed immediate draw is recoverable: the
/// draw is dropped and the frame goes on. A full arena is fatal for the
/// frame: a static budget was exceeded, and truncating silently would corrupt
/// the index alignment of already-recorded commands.
#[derive(Clone, Copy, Debug, Eq, PartialEq)]
pub enum RecordError {
    /// The vertex data length is not a multiple of the variant's attribute
    /// count; the draw was dropped, nothing was recorded.
    MalformedDraw,
    /// The arena the push writes into has no room left this frame; nothing
    /// was recorded.
    CapacityExceeded,
}

/// The recording core: the command list of the frame under construction, the
/// staged contents of the three frame arenas, and the long-lived stores the
/// commands refer to by logical id.
#[derive(Clone, Debug, PartialEq)]
pub struct VirtualGpu {
    pub virtual_render_pass: VirtualRenderPass,
    /// Staged immediate vertex arena: one 32-bit word per float attribute.
    pub immediate_vertex_data: Vec<u32>,
    /// Staged instance matrix arena: sixteen words per pushed matrix.
    pub instance_data: Vec<u32>,
    /// Staged light arena: twelve words per pushed light.
    pub light_data: Vec<u32>,
    /// The preloaded mesh store's records, indexed by mesh id.
    pub meshes: Vec<Mesh>,
    /// The preloaded indexed mesh store's records, indexed by mesh id.
    pub indexed_meshes: Vec<IndexedMesh>,
    /// How many textures are resident, matcaps included; id zero is the
    /// default texture loaded at startup.
    pub textures_len: usize,
}

/// The persistent stores agree: same meshes, same indexed meshes, same
/// resident texture count.
pub open spec fn same_stores(a: VirtualGpu, b: VirtualGpu) -> bool {
    &&& a.meshes@ == b.meshes@
    &&& a.indexed_meshes@ == b.indexed_meshes@
    &&& a.textures_len == b.textures_len
}

/// The whole observable recording state agrees: commands, counters, staged
/// arena contents and stores.
pub open spec fn same_frame(a: VirtualGpu, b: VirtualGpu) -> bool {
    &&& a.virtual_render_pass.commands@ == b.virtual_render_pass.commands@
    &&& a.virtual_render_pass.immediate_buffer_last_index
        == b.virtual_render_pass.immediate_buffer_last_index
    &&& a.virtual_render_pass.instance_count == b.virtual_render_pass.instance_count
    &&& a.virtual_render_pass.light_count == b.virtual_render_pass.light_count
    &&& a.immediate_vertex_data@ == b.immediate_vertex_data@
    &&& a.instance_data@ == b.instance_data@
    &&& a.light_data@ == b.light_data@
    &&& same_stores(a, b)
}

impl VirtualGpu {
    /// The replay state at the end of the recorded command list.
    pub open spec fn end_state(self) -> crate::virtual_render_pass::ReplayState {
        state_at(
            self.virtual_render_pass.commands@,
            self.virtual_render_pass.commands@.len() as int,
        )
    }

    /// Well-formedness, established by `new` and preserved by every push:
    /// each counter agrees with its staged arena and its capacity, the
    /// command list is valid for the stores, and replaying it ends exactly at
    /// the current cursor and matrix count.
    pub open spec fn wf(self) -> bool {
        &&& self.virtual_render_pass.immediate_buffer_last_index == 4
            * self.immediate_vertex_data@.len()
        &&& self.virtual_render_pass.immediate_buffer_last_index <= IMMEDIATE_ARENA_BYTES
        &&& self.instance_data@.len() == 16 * self.virtual_render_pass.instance_count
        &&& self.virtual_render_pass.instance_count <= MAX_INSTANCES
        &&& self.light_data@.len() == 12 * self.virtual_render_pass.light_count
        &&& self.virtual_render_pass.light_count <= MAX_LIGHTS
        &&& 1 <= self.textures_len
        &&& valid_commands(
            self.virtual_render_pass.commands@,
            self.meshes@,
            self.indexed_meshes@,
            self.textures_len as int,
        )
        &&& self.end_state().byte_index == self.virtual_render_pass.immediate_buffer_last_index
        &&& self.end_state().model_matrix == self.virtual_render_pass.instance_count
    }

    /// No frame data recorded: command list empty, counters zero, arenas
    /// empty.
    pub open spec fn frame_cleared(self) -> bool {
        &&& self.virtual_render_pass.is_cleared()
        &&& self.immediate_vertex_data@ == Seq::<u32>::empty()
        &&& self.instance_data@ == Seq::<u32>::empty()
        &&& self.light_data@ == Seq::<u32>::empty()
    }

    /// A fresh core: nothing recorded, no meshes loaded, and exactly the
    /// default texture (id zero) resident.
    pub fn new() -> (r: Self)
        ensures
            r.wf(),
            r.frame_cleared(),
            r.meshes@ == Seq::<Mesh>::empty(),
            r.indexed_meshes@ == Seq::<IndexedMesh>::empty(),
            r.textures_len == 1,
    {
        let r = VirtualGpu {
            virtual_render_pass: VirtualRenderPass::new(),
            immediate_vertex_data: Vec::new(),
            instance_data: Vec::new(),
            light_data: Vec::new(),
            meshes: Vec::new(),
            indexed_meshes: Vec::new(),
            textures_len: 1,
        };
        proof {
            assert(r.immediate_vertex_data@ =~= Seq::<u32>::empty());
            assert(r.instance_data@ =~= Seq::<u32>::empty());
            assert(r.light_data@ =~= Seq::<u32>::empty());
            assert(r.meshes@ =~= Seq::<Mesh>::empty());
            assert(r.indexed_meshes@ =~= Seq::<IndexedMesh>::empty());
        }
        r
    }

    /// Register one newly decoded texture or matcap and hand out its logical
    /// id. The caller decodes the image and uploads its pixels; the core only
    /// assigns ids in load order.
    pub fn load_texture(&mut self) -> (id: usize)
        requires
            old(self).wf(),
            old(self).textures_len < usize::MAX,
        ensures
            final(self).wf(),
            id == old(self).textures_len,
            final(self).textures_len == old(self).textures_len + 1,
            final(self).meshes@ == old(self).meshes@,
            final(self).indexed_meshes@ == old(self).indexed_meshes@,
            final(self).virtual_render_pass == old(self).virtual_render_pass,
            final(self).immediate_vertex_data@ == old(self).immediate_vertex_data@,
            final(self).instance_data@ == old(self).instance_data@,
            final(self).light_data@ == old(self).light_data@,
    {
        let id = self.textures_len;
        self.textures_len = self.textures_len + 1;
        proof {
            let cmds = self.virtual_render_pass.commands@;
            assert forall|i: int| 0 <= i < cmds.len() implies crate::virtual_render_pass::command_ok(
                cmds,
                i,
                self.meshes@,
                self.indexed_meshes@,
                self.textures_len as int,
            ) by {
                assert(crate::virtual_render_pass::command_ok(
                    cmds,
                    i,
                    self.meshes@,
                    self.indexed_meshes@,
                    old(self).textures_len as int,
                ));
            }
        }
        id
    }

    /// Register one preloaded mesh: the caller uploads its interleaved
    /// vertex data to a dedicated buffer; the core records the variant and
    /// the vertex count under the returned id.
    pub fn load_static_mesh(&mut self, data: &[u32], pipeline: Pipeline) -> (id: usize)
        requires
            old(self).wf(),
            data@.len() as int % pipeline.spec_attribute_count() == 0,
            data@.len() as int / pipeline.spec_attribute_count() <= u32::MAX,
            old(self).meshes@.len() < usize::MAX,
        ensures
            final(self).wf(),
            id == old(self).meshes@.len(),
            final(self).meshes@ == old(self).meshes@.push(
                Mesh {
                    vertex_count: (data@.len() as int / pipeline.spec_attribute_count()) as u32,
                    pipeline,
                },
            ),
            final(self).indexed_meshes@ == old(self).indexed_meshes@,
            final(self).textures_len == old(self).textures_len,
            final(self).virtual_render_pass == old(self).virtual_render_pass,
            final(self).immediate_vertex_data@ == old(self).immediate_vertex_data@,
            final(self).instance_data@ == old(self).instance_data@,
            final(self).light_data@ == old(self).light_data@,
    {
        let id = self.meshes.len();
        let attribute_count = pipeline.get_attribute_count();
        let vertex_count = data.len() / attribute_count;
        self.meshes.push(Mesh { vertex_count: vertex_count as u32, pipeline });
        proof {
            let cmds = self.virtual_render_pass.commands@;
            assert forall|i: int| 0 <= i < cmds.len() implies crate::virtual_render_pass::command_ok(
                cmds,
                i,
                self.meshes@,
                self.indexed_meshes@,
                self.textures_len as int,
            ) by {
                assert(crate::virtual_render_pass::command_ok(
                    cmds,
                    i,
                    old(self).meshes@,
                    self.indexed_meshes@,
                    self.textures_len as int,
                ));
            }
        }
        id
    }

    /// Register one preloaded indexed mesh: the caller uploads its vertex
    /// and 16-bit index buffers; the core records the variant and the index
    /// count under the returned id.
    pub fn load_static_mesh_indexed(
        &mut self,
        data: &[u32],
        indices: &[u16],
        pipeline: Pipeline,
    ) -> (id: usize)
        requires
            old(self).wf(),
            data@.len() as int % pipeline.spec_attribute_count() == 0,
            indices@.len() <= u32::MAX,
            old(self).indexed_meshes@.len() < usize::MAX,
        ensures
            final(self).wf(),
            id == old(self).indexed_meshes@.len(),
            final(self).indexed_meshes@ == old(self).indexed_meshes@.push(
                IndexedMesh { index_count: indices@.len() as u32, pipeline },
            ),
            final(self).meshes@ == old(self).meshes@,
            final(self).textures_len == old(self).textures_len,
            final(self).virtual_render_pass == old(self).virtual_render_pass,
            final(self).immediate_vertex_data@ == old(self).immediate_vertex_data@,
            final(self).instance_data@ == old(self).instance_data@,
            final(self).light_data@ == old(self).light_data@,
    {
        let id = self.indexed_meshes.len();
        let index_count = indices.len();
        self.indexed_meshes.push(IndexedMesh { index_count: index_count as u32, pipeline });
        proof {
            let cmds = self.virtual_render_pass.commands@;
            assert forall|i: int| 0 <= i < cmds.len() implies crate::virtual_render_pass::command_ok(
                cmds,
                i,
                self.meshes@,
                self.indexed_meshes@,
                self.textures_len as int,
            ) by {
                assert(crate::virtual_render_pass::command_ok(
                    cmds,
                    i,
                    self.meshes@,
                    old(self).indexed_meshes@,
                    self.textures_len as int,
                ));
            }
        }
        id
    }

    /// Record one immediate-mode triangle-list draw: validate the vertex
    /// data, stage it into the immediate arena at the current cursor, and
    /// append `SetPipeline` then `Draw`.
    ///
    /// Data whose length is not a multiple of the variant's attribute count
    /// is dropped whole (`MalformedDraw`, recoverable); data that would
    /// overrun the arena is refused (`CapacityExceeded`). Either way nothing
    /// is recorded. A model matrix must have been pushed this frame, since
    /// the recorded draw binds the most recently pushed matrix.
    pub fn draw_tri_list(&mut self, data: &[u32], pipeline: Pipeline) -> (r: Result<
        (),
        RecordError,
    >)
        requires
            old(self).wf(),
            old(self).virtual_render_pass.instance_count >= 1,
        ensures
            final(self).wf(),
            same_stores(*old(self), *final(self)),
            ({
                let len = data@.len() as int;
                let attr = pipeline.spec_attribute_count();
                let cursor = old(self).virtual_render_pass.immediate_buffer_last_index;
                if len % attr != 0 {
                    &&& r == Err::<(), RecordError>(RecordError::MalformedDraw)
                    &&& same_frame(*old(self), *final(self))
                } else if cursor + 4 * len > IMMEDIATE_ARENA_BYTES {
                    &&& r == Err::<(), RecordError>(RecordError::CapacityExceeded)
                    &&& same_frame(*old(self), *final(self))
                } else {
                    &&& r == Ok::<(), RecordError>(())
                    &&& final(self).virtual_render_pass.commands@ == old(
                        self,
                    ).virtual_render_pass.commands@ + seq![
                        Command::SetPipeline(pipeline),
                        Command::Draw((len / attr) as u32),
                    ]
                    &&& final(self).immediate_vertex_data@ == old(self).immediate_vertex_data@
                        + data@
                    &&& final(self).virtual_render_pass.immediate_buffer_last_index == cursor + 4
                        * len
                    &&& final(self).virtual_render_pass.instance_count == old(
                        self,
                    ).virtual_render_pass.instance_count
                    &&& final(self).virtual_render_pass.light_count == old(
                        self,
                    ).virtual_render_pass.light_count
                    &&& final(self).instance_data@ == old(self).instance_data@
                    &&& final(self).light_data@ == old(self).light_data@
                }
            }),
    {
        let attribute_count = pipeline.get_attribute_count();
        let total_attributes = data.len();

        if total_attributes % attribute_count != 0 {
            return Err(RecordError::MalformedDraw);
        }
        let len64 = total_attributes as u64;
        if len64 > IMMEDIATE_ARENA_BYTES / 4 {
            return Err(RecordError::CapacityExceeded);
        }
        let added_bytes = len64 * 4;
        let cursor = self.virtual_render_pass.immediate_buffer_last_index;
        if cursor + added_bytes > IMMEDIATE_ARENA_BYTES {
            return Err(RecordError::CapacityExceeded);
        }

        let vertex_count = total_attributes / attribute_count;

        let ghost cmds0 = self.virtual_render_pass.commands@;
        let ghost end0 = self.end_state();

        let mut staged = slice_to_vec(data);
        self.immediate_vertex_data.append(&mut staged);
        self.virtual_render_pass.commands.push(Command::SetPipeline(pipeline));
        self.virtual_render_pass.commands.push(Command::Draw(vertex_count as u32));
        self.virtual_render_pass.immediate_buffer_last_index = cursor + added_bytes;

        proof {
            let len = data@.len() as int;
            let attr = pipeline.spec_attribute_count();
            let q = len / attr;
            lemma_fundamental_div_mod(len, attr);
            assert(q * (attr * 4) == 4 * (attr * q)) by (nonlinear_arith);

            lemma_valid_commands_push(
                cmds0,
                self.meshes@,
                self.indexed_meshes@,
                self.textures_len as int,
                Command::SetPipeline(pipeline),
            );
            let cmds1 = cmds0.push(Command::SetPipeline(pipeline));
            let end1 = state_at(cmds1, cmds1.len() as int);
            assert(end1.byte_index == end0.byte_index);
            assert(end1.vertex_size == attr * 4);
            lemma_valid_commands_push(
                cmds1,
                self.meshes@,
                self.indexed_meshes@,
                self.textures_len as int,
                Command::Draw(q as u32),
            );
            assert(self.virtual_render_pass.commands@ =~= cmds1.push(Command::Draw(q as u32)));
            assert(self.virtual_render_pass.commands@ =~= cmds0 + seq![
                Command::SetPipeline(pipeline),
                Command::Draw(q as u32),
            ]);
        }
        Ok(())
    }

    /// Stage one model matrix (sixteen words, column order) into the
    /// instance arena and append `SetModelMatrix`: the matrix becomes the one
    /// bound to every following draw until the next push. Fails without
    /// recording anything when the instance arena is full.
    pub fn push_matrix(&mut self, matrix: &[u32; 16]) -> (r: Result<(), RecordError>)
        requires
            old(self).wf(),
        ensures
            final(self).wf(),
            same_stores(*old(self), *final(self)),
            ({
                if old(self).virtual_render_pass.instance_count >= MAX_INSTANCES {
                    &&& r == Err::<(), RecordError>(RecordError::CapacityExceeded)
                    &&& same_frame(*old(self), *final(self))
                } else {
                    &&& r == Ok::<(), RecordError>(())
                    &&& final(self).virtual_render_pass.commands@ == old(
                        self,
                    ).virtual_render_pass.commands@.push(Command::SetModelMatrix)
                    &&& final(self).instance_data@ == old(self).instance_data@ + matrix@
                    &&& final(self).virtual_render_pass.instance_count == old(
                        self,
                    ).virtual_render_pass.instance_count + 1
                    &&& final(self).virtual_render_pass.immediate_buffer_last_index == old(
                        self,
                    ).virtual_render_pass.immediate_buffer_last_index
                    &&& final(self).virtual_render_pass.light_count == old(
                        self,
                    ).virtual_render_pass.light_count
                    &&& final(self).immediate_vertex_data@ == old(self).immediate_vertex_data@
                    &&& final(self).light_data@ == old(self).light_data@
                }
            }),
    {
        if self.virtual_render_pass.instance_count >= MAX_INSTANCES {
            return Err(RecordError::CapacityExceeded);
        }

        let ghost cmds0 = self.virtual_render_pass.commands@;

        let mut staged = slice_to_vec(matrix.as_slice());
        self.instance_data.append(&mut staged);
        self.virtual_render_pass.commands.push(Command::SetModelMatrix);
        self.virtual_render_pass.instance_count = self.virtual_render_pass.instance_count + 1;

        proof {
            lemma_valid_commands_push(
                cmds0,
                self.meshes@,
                self.indexed_meshes@,
                self.textures_len as int,
                Command::SetModelMatrix,
            );
        }
        Ok(())
    }

    /// Stage one view-space light record into the light arena. The caller
    /// transforms the light's position and direction by the current view
    /// matrix before pushing. Fails without recording anything when the
    /// frame's light budget is spent: overwriting a slot instead would
    /// corrupt lights already referenced by recorded draws.
    pub fn push_light(&mut self, light: &Light) -> (r: Result<(), RecordError>)
        requires
            old(self).wf(),
        ensures
            final(self).wf(),
            same_stores(*old(self), *final(self)),
            final(self).virtual_render_pass.commands@ == old(self).virtual_render_pass.commands@,
            ({
                if old(self).virtual_render_pass.light_count >= MAX_LIGHTS {
                    &&& r == Err::<(), RecordError>(RecordError::CapacityExceeded)
                    &&& same_frame(*old(self), *final(self))
                } else {
                    &&& r == Ok::<(), RecordError>(())
                    &&& final(self).light_data@ == old(self).light_data@ + light.spec_uniforms()
                    &&& final(self).virtual_render_pass.light_count == old(
                        self,
                    ).virtual_render_pass.light_count + 1
                    &&& final(self).virtual_render_pass.instance_count == old(
                        self,
                    ).virtual_render_pass.instance_count
                    &&& final(self).virtual_render_pass.immediate_buffer_last_index == old(
                        self,
                    ).virtual_render_pass.immediate_buffer_last_index
                    &&& final(self).immediate_vertex_data@ == old(self).immediate_vertex_data@
                    &&& final(self).instance_data@ == old(self).instance_data@
                }
            }),
    {
        if self.virtual_render_pass.light_count >= MAX_LIGHTS {
            return Err(RecordError::CapacityExceeded);
        }

        let uniforms = light.get_light_uniforms();
        let mut staged = slice_to_vec(uniforms.as_slice());
        self.light_data.append(&mut staged);
        self.virtual_render_pass.light_count = self.virtual_render_pass.light_count + 1;
        Ok(())
    }

    /// Append a draw of a preloaded mesh. The mesh must be resident and a
    /// model matrix must have been pushed this frame.
    pub fn draw_static_mesh(&mut self, index: usize)
        requires
            old(self).wf(),
            index < old(self).meshes@.len(),
            old(self).virtual_render_pass.instance_count >= 1,
        ensures
            final(self).wf(),
            same_stores(*old(self), *final(self)),
            final(self).virtual_render_pass.commands@ == old(
                self,
            ).virtual_render_pass.commands@.push(Command::DrawStaticMesh(index)),
            final(self).virtual_render_pass.immediate_buffer_last_index == old(
                self,
            ).virtual_render_pass.immediate_buffer_last_index,
            final(self).virtual_render_pass.instance_count == old(
                self,
            ).virtual_render_pass.instance_count,
            final(self).virtual_render_pass.light_count == old(
                self,
            ).virtual_render_pass.light_count,
            final(self).immediate_vertex_data@ == old(self).immediate_vertex_data@,
            final(self).instance_data@ == old(self).instance_data@,
            final(self).light_data@ == old(self).light_data@,
    {
        let ghost cmds0 = self.virtual_render_pass.commands@;
        self.virtual_render_pass.commands.push(Command::DrawStaticMesh(index));
        proof {
            lemma_valid_commands_push(
                cmds0,
                self.meshes@,
                self.indexed_meshes@,
                self.textures_len as int,
                Command::DrawStaticMesh(index),
            );
        }
    }

    /// Append a draw of a preloaded indexed mesh. The mesh must be resident
    /// and a model matrix must have been pushed this frame.
    pub fn draw_static_mesh_indexed(&mut self, index: usize)
        requires
            old(self).wf(),
            index < old(self).indexed_meshes@.len(),
            old(self).virtual_render_pass.instance_count >= 1,
        ensures
            final(self).wf(),
            same_stores(*old(self), *final(self)),
            final(self).virtual_render_pass.commands@ == old(
                self,
            ).virtual_render_pass.commands@.push(Command::DrawStaticMeshIndexed(index)),
            final(self).virtual_render_pass.immediate_buffer_last_index == old(
                self,
            ).virtual_render_pass.immediate_buffer_last_index,
            final(self).virtual_render_pass.instance_count == old(
                self,
            ).virtual_render_pass.instance_count,
            final(self).virtual_render_pass.light_count == old(
                self,
            ).virtual_render_pass.light_count,
            final(self).immediate_vertex_data@ == old(self).immediate_vertex_data@,
            final(self).instance_data@ == old(self).instance_data@,
            final(self).light_data@ == old(self).light_data@,
    {
        let ghost cmds0 = self.virtual_render_pass.commands@;
        self.virtual_render_pass.commands.push(Command::DrawStaticMeshIndexed(index));
        proof {
            lemma_valid_commands_push(
                cmds0,
                self.meshes@,
                self.indexed_meshes@,
                self.textures_len as int,
                Command::DrawStaticMeshIndexed(index),
            );
        }
    }

    /// Append a draw of the shared unit quad with the given texture. The
    /// texture must be resident and a model matrix must have been pushed this
    /// frame.
    pub fn draw_sprite(&mut self, index: usize)
        requires
            old(self).wf(),
            index < old(self).textures_len,
            old(self).virtual_render_pass.instance_count >= 1,
        ensures
            final(self).wf(),
            same_stores(*old(self), *final(self)),
            final(self).virtual_render_pass.commands@ == old(
                self,
            ).virtual_render_pass.commands@.push(Command::DrawSprite(index)),
            final(self).virtual_render_pass.immediate_buffer_last_index == old(
                self,
            ).virtual_render_pass.immediate_buffer_last_index,
            final(self).virtual_render_pass.instance_count == old(
                self,
            ).virtual_render_pass.instance_count,
            final(self).virtual_render_pass.light_count == old(
                self,
            ).virtual_render_pass.light_count,
            final(self).immediate_vertex_data@ == old(self).immediate_vertex_data@,
            final(self).instance_data@ == old(self).instance_data@,
            final(self).light_data@ == old(self).light_data@,
    {
        let ghost cmds0 = self.virtual_render_pass.commands@;
        self.virtual_render_pass.commands.push(Command::DrawSprite(index));
        proof {
            lemma_valid_commands_push(
                cmds0,
                self.meshes@,
                self.indexed_meshes@,
                self.textures_len as int,
                Command::DrawSprite(index),
            );
        }
    }

    /// Append a diffuse texture bind for one of the four layer slots. No
    /// resource work happens now; replay synthesizes the binding set when it
    /// reaches the command.
    pub fn set_texture(&mut self, tex_id: usize, layer: usize, blend_mode: usize)
        requires
            old(self).wf(),
            tex_id < old(self).textures_len,
            layer < 4,
            blend_mode < 256,
        ensures
            final(self).wf(),
            same_stores(*old(self), *final(self)),
            final(self).virtual_render_pass.commands@ == old(
                self,
            ).virtual_render_pass.commands@.push(Command::SetTexture(tex_id, layer, blend_mode)),
            final(self).virtual_render_pass.immediate_buffer_last_index == old(
                self,
            ).virtual_render_pass.immediate_buffer_last_index,
            final(self).virtual_render_pass.instance_count == old(
                self,
            ).virtual_render_pass.instance_count,
            final(self).virtual_render_pass.light_count == old(
                self,
            ).virtual_render_pass.light_count,
            final(self).immediate_vertex_data@ == old(self).immediate_vertex_data@,
            final(self).instance_data@ == old(self).instance_data@,
            final(self).light_data@ == old(self).light_data@,
    {
        let ghost cmds0 = self.virtual_render_pass.commands@;
        self.virtual_render_pass.commands.push(Command::SetTexture(tex_id, layer, blend_mode));
        proof {
            lemma_valid_commands_push(
                cmds0,
                self.meshes@,
                self.indexed_meshes@,
                self.textures_len as int,
                Command::SetTexture(tex_id, layer, blend_mode),
            );
        }
    }

    /// Append a matcap bind for one of the four layer slots, marking the
    /// slot as sampled by surface normal.
    pub fn set_matcap(&mut self, matcap_id: usize, layer: usize, blend_mode: usize)
        requires
            old(self).wf(),
            matcap_id < old(self).textures_len,
            layer < 4,
            blend_mode < 256,
        ensures
            final(self).wf(),
            same_stores(*old(self), *final(self)),
            final(self).virtual_render_pass.commands@ == old(
                self,
            ).virtual_render_pass.commands@.push(Command::SetMatcap(matcap_id, layer, blend_mode)),
            final(self).virtual_render_pass.immediate_buffer_last_index == old(
                self,
            ).virtual_render_pass.immediate_buffer_last_index,
            final(self).virtual_render_pass.instance_count == old(
                self,
            ).virtual_render_pass.instance_count,
            final(self).virtual_render_pass.light_count == old(
                self,
            ).virtual_render_pass.light_count,
            final(self).immediate_vertex_data@ == old(self).immediate_vertex_data@,
            final(self).instance_data@ == old(self).instance_data@,
            final(self).light_data@ == old(self).light_data@,
    {
        let ghost cmds0 = self.virtual_render_pass.commands@;
        self.virtual_render_pass.commands.push(Command::SetMatcap(matcap_id, layer, blend_mode));
        proof {
            lemma_valid_commands_push(
                cmds0,
                self.meshes@,
                self.indexed_meshes@,
                self.textures_len as int,
                Command::SetMatcap(matcap_id, layer, blend_mode),
            );
        }
    }

    /// Rewind the frame after replay: drop the command list, zero all three
    /// counters and empty the staged arenas. The long-lived stores survive.
    pub fn reset(&mut self)
        requires
            old(self).wf(),
        ensures
            final(self).wf(),
            final(self).frame_cleared(),
            same_stores(*old(self), *final(self)),
    {
        self.virtual_render_pass.reset();
        self.immediate_vertex_data.clear();
        self.instance_data.clear();
        self.light_data.clear();
        proof {
            assert(self.immediate_vertex_data@ =~= Seq::<u32>::empty());
            assert(self.instance_data@ =~= Seq::<u32>::empty());
            assert(self.light_data@ =~= Seq::<u32>::empty());
        }
    }
}

/// Law: a well-formed frame replays strictly within what it staged. Every
/// action its command list replays to binds a pipeline of the fixed table, a
/// resident texture, matcap or mesh, an instance index below the frame's
/// matrix count, and an immediate-arena offset at or below the frame's
/// cursor — so replay can never alias data the frame did not push.
pub proof fn lemma_replay_within_staged_resources(gpu: VirtualGpu)
    requires
        gpu.wf(),
    ensures
        forall|k: int|
            0 <= k < crate::virtual_render_pass::replay_actions(
                gpu.virtual_render_pass.commands@,
                gpu.meshes@,
                gpu.indexed_meshes@,
            ).len() ==> crate::virtual_render_pass::action_in_bounds(
                #[trigger] crate::virtual_render_pass::replay_actions(
                    gpu.virtual_render_pass.commands@,
                    gpu.meshes@,
                    gpu.indexed_meshes@,
                )[k],
                gpu.meshes@,
                gpu.indexed_meshes@,
                gpu.textures_len as int,
                gpu.virtual_render_pass.instance_count as int,
                gpu.virtual_render_pass.immediate_buffer_last_index as int,
            ),
{
    crate::virtual_render_pass::lemma_replay_actions_in_bounds(
        gpu.virtual_render_pass.commands@,
        gpu.meshes@,
        gpu.indexed_meshes@,
        gpu.textures_len as int,
    );
}

/// Law: resetting is idempotent. A cleared frame is fully determined by the
/// long-lived stores, so two cores whose frames are cleared and whose stores
/// agree present the same observable state; in particular a second `reset`
/// in a row changes nothing.
pub proof fn lemma_reset_idempotent(a: VirtualGpu, b: VirtualGpu)
    requires
        a.frame_cleared(),
        b.frame_cleared(),
        same_stores(a, b),
    ensures
        same_frame(a, b),
{
}

} // verus!
