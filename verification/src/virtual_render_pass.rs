//! The deferred command list (the virtual render pass) and its replay
//! semantics.
//!
//! During a frame's build phase the renderer records an ordered sequence of
//! [`Command`] values plus three monotonic counters. Replay walks that
//! sequence once, reconstructing the pipeline, texture-layer and model-matrix
//! state the commands imply and emitting the exact sequence of [`GpuAction`]
//! binds and draws needed to reproduce the recorded order on a device. The
//! replay semantics is given by spec functions ([`step_state`],
//! [`step_actions`], [`replay_actions`]); [`VirtualRenderPass::execute`] is
//! verified to emit exactly that action sequence.

use vstd::prelude::*;
use crate::mesh::{IndexedMesh, Mesh};
use crate::pipeline::Pipeline;

verus! {

/// Capacity of the immediate vertex arena, in bytes.
pub const IMMEDIATE_ARENA_BYTES: u64 = 8 * 1024 * 1024;

/// One recorded drawing instruction. Commands reference resources only by
/// logical index, never by GPU memory, so replay is the single place where
/// resource lookups occur.
#[derive(Clone, Copy, Debug, Eq, PartialEq)]
pub enum Command {
    /// Bind the render pipeline of this variant for the following draws.
    SetPipeline(Pipeline),
    /// Draw this many vertices from the immediate arena.
    Draw(u32),
    /// Bind a diffuse texture: texture id, layer index, blend mode.
    SetTexture(usize, usize, usize),
    /// Bind a matcap image: matcap id, layer index, blend mode.
    SetMatcap(usize, usize, usize),
    /// Advance to the next pushed model matrix.
    SetModelMatrix,
    /// Draw a preloaded mesh by its id in the mesh store.
    DrawStaticMesh(usize),
    /// Draw a preloaded indexed mesh by its id in the indexed store.
    DrawStaticMeshIndexed(usize),
    /// Draw the shared unit quad with this texture id.
    DrawSprite(usize),
}

/// One primitive call against the graphics device. Replay reduces the
/// command list to a sequence of these; an unverified shell maps each action
/// onto the device one for one, in order.
#[derive(Clone, Copy, Debug, Eq, PartialEq)]
pub enum GpuAction {
    /// Bind the compiled render pipeline at this index of the pipeline table.
    SetRenderPipeline { pipeline_index: usize },
    /// Upload the per-draw constant block: four blend-mode bytes and the
    /// matcap bitmask byte (the block is padded with three zero bytes).
    SetPushConstants { blend0: u8, blend1: u8, blend2: u8, blend3: u8, matcap_mask: u8 },
    /// Bind the immediate vertex arena starting at this byte offset.
    BindImmediateVertices { byte_offset: u64 },
    /// Synthesize and bind the four-slot texture binding set from these
    /// texture ids, covering all four slots at once.
    BindTextureLayers { slot0: usize, slot1: usize, slot2: usize, slot3: usize },
    /// Bind the resident vertex buffer of this preloaded mesh.
    BindStaticMeshVertices { mesh: usize },
    /// Bind the resident vertex buffer of this preloaded indexed mesh.
    BindIndexedMeshVertices { mesh: usize },
    /// Bind the resident 16-bit index buffer of this preloaded indexed mesh.
    BindIndexedMeshIndices { mesh: usize },
    /// Bind this texture's own binding set for a sprite draw.
    BindSpriteTexture { texture: usize },
    /// Bind the shared unit-quad vertex buffer.
    BindQuadVertices,
    /// Bind the shared unit-quad 16-bit index buffer.
    BindQuadIndices,
    /// Issue a non-indexed draw over this many vertices, with the one-element
    /// instance range starting at `instance`.
    Draw { vertex_count: u32, instance: u32 },
    /// Issue an indexed draw over this many indices, with the one-element
    /// instance range starting at `instance`.
    DrawIndexed { index_count: u32, instance: u32 },
}

/// The four concurrently bound image layers: each slot holds a texture or
/// matcap id, a blend-mode byte, and whether the slot is a matcap. The state
/// is reconstructed during replay by the `SetTexture`/`SetMatcap` commands,
/// not stored in the command list.
#[derive(Clone, Debug, Eq, PartialEq)]
pub struct TextureStates {
    pub texture_indices: Vec<usize>,
    pub blend_modes: Vec<u8>,
    pub is_matcap: Vec<bool>,
}

/// The matcap bitmask: bit `i` is set iff slot `i` holds a matcap.
pub open spec fn matcap_mask_of(is_matcap: Seq<bool>) -> u8 {
    ((if is_matcap[0] { 1int } else { 0 }) + (if is_matcap[1] { 2int } else { 0 })
        + (if is_matcap[2] { 4int } else { 0 }) + (if is_matcap[3] { 8int } else { 0 })) as u8
}

impl TextureStates {
    /// Each of the three slot tables covers exactly the four layers.
    pub open spec fn wf(self) -> bool {
        &&& self.texture_indices@.len() == 4
        &&& self.blend_modes@.len() == 4
        &&& self.is_matcap@.len() == 4
    }

    /// All four slots empty, as replay starts a frame: every slot holds
    /// texture id zero (the default texture loaded at startup), blend mode
    /// zero, not a matcap.
    pub fn new() -> (r: Self)
        ensures
            r.wf(),
            r.texture_indices@ == seq![0usize, 0usize, 0usize, 0usize],
            r.blend_modes@ == seq![0u8, 0u8, 0u8, 0u8],
            r.is_matcap@ == seq![false, false, false, false],
    {
        let r = TextureStates {
            texture_indices: vec![0, 0, 0, 0],
            blend_modes: vec![0, 0, 0, 0],
            is_matcap: vec![false, false, false, false],
        };
        proof {
            assert(r.texture_indices@ =~= seq![0usize, 0usize, 0usize, 0usize]);
            assert(r.blend_modes@ =~= seq![0u8, 0u8, 0u8, 0u8]);
            assert(r.is_matcap@ =~= seq![false, false, false, false]);
        }
        r
    }

    /// Overwrite one layer slot; the other three slots keep their state.
    pub fn set_texture(&mut self, index: usize, layer: usize, blend_mode: usize, is_matcap: bool)
        requires
            old(self).wf(),
            layer < 4,
            blend_mode < 256,
        ensures
            final(self).wf(),
            final(self).texture_indices@ == old(self).texture_indices@.update(
                layer as int,
                index,
            ),
            final(self).blend_modes@ == old(self).blend_modes@.update(
                layer as int,
                blend_mode as u8,
            ),
            final(self).is_matcap@ == old(self).is_matcap@.update(layer as int, is_matcap),
    {
        self.texture_indices[layer] = index;
        self.blend_modes[layer] = blend_mode as u8;
        self.is_matcap[layer] = is_matcap;
    }

    /// The matcap bitmask of the current slots.
    pub fn matcap_mask(&self) -> (r: u8)
        requires
            self.wf(),
        ensures
            r == matcap_mask_of(self.is_matcap@),
    {
        let mut mask: u8 = 0;
        if self.is_matcap[0] {
            mask = mask + 1;
        }
        if self.is_matcap[1] {
            mask = mask + 2;
        }
        if self.is_matcap[2] {
            mask = mask + 4;
        }
        if self.is_matcap[3] {
            mask = mask + 8;
        }
        mask
    }

    /// The per-draw constant block: the four blend-mode bytes, then the
    /// matcap bitmask stored as a little-endian 32-bit word (the mask is at
    /// most 15, so its three upper bytes are zero).
    pub open spec fn spec_push_constants(self) -> Seq<u8> {
        seq![
            self.blend_modes@[0],
            self.blend_modes@[1],
            self.blend_modes@[2],
            self.blend_modes@[3],
            matcap_mask_of(self.is_matcap@),
            0u8,
            0u8,
            0u8,
        ]
    }

    /// Pack the layer state into the eight-byte constant block that is sent
    /// with every pipeline bind and static-mesh draw.
    pub fn to_push_constants(&self) -> (r: [u8; 8])
        requires
            self.wf(),
        ensures
            r@ == self.spec_push_constants(),
    {
        let mask = self.matcap_mask();
        let r = [
            self.blend_modes[0],
            self.blend_modes[1],
            self.blend_modes[2],
            self.blend_modes[3],
            mask,
            0,
            0,
            0,
        ];
        proof {
            assert(r@ =~= self.spec_push_constants());
        }
        r
    }
}

/// The state replay reconstructs while walking the command list: the byte
/// cursor into the immediate arena, the vertex stride of the last bound
/// pipeline, how many model matrices have been passed, and the four texture
/// layer slots.
pub ghost struct ReplayState {
    pub byte_index: int,
    pub vertex_size: int,
    pub model_matrix: int,
    pub texture_indices: Seq<usize>,
    pub blend_modes: Seq<u8>,
    pub is_matcap: Seq<bool>,
}

/// Replay starts each frame with a zero cursor, no pipeline bound (stride
/// zero), no matrix passed, and all layer slots on the default texture.
pub open spec fn init_replay_state() -> ReplayState {
    ReplayState {
        byte_index: 0,
        vertex_size: 0,
        model_matrix: 0,
        texture_indices: seq![0usize, 0usize, 0usize, 0usize],
        blend_modes: seq![0u8, 0u8, 0u8, 0u8],
        is_matcap: seq![false, false, false, false],
    }
}

/// How one command advances the replay state.
pub open spec fn step_state(s: ReplayState, c: Command) -> ReplayState {
    match c {
        Command::SetPipeline(p) => ReplayState { vertex_size: p.spec_vertex_size(), ..s },
        Command::Draw(n) => ReplayState { byte_index: s.byte_index + n * s.vertex_size, ..s },
        Command::SetTexture(id, layer, blend) => if layer < 4 {
            ReplayState {
                texture_indices: s.texture_indices.update(layer as int, id),
                blend_modes: s.blend_modes.update(layer as int, blend as u8),
                is_matcap: s.is_matcap.update(layer as int, false),
                ..s
            }
        } else {
            s
        },
        Command::SetMatcap(id, layer, blend) => if layer < 4 {
            ReplayState {
                texture_indices: s.texture_indices.update(layer as int, id),
                blend_modes: s.blend_modes.update(layer as int, blend as u8),
                is_matcap: s.is_matcap.update(layer as int, true),
                ..s
            }
        } else {
            s
        },
        Command::SetModelMatrix => ReplayState { model_matrix: s.model_matrix + 1, ..s },
        Command::DrawStaticMesh(_) => s,
        Command::DrawStaticMeshIndexed(_) => s,
        Command::DrawSprite(_) => s,
    }
}

/// The constant-block upload for the given layer state.
pub open spec fn push_constants_action(s: ReplayState) -> GpuAction {
    GpuAction::SetPushConstants {
        blend0: s.blend_modes[0],
        blend1: s.blend_modes[1],
        blend2: s.blend_modes[2],
        blend3: s.blend_modes[3],
        matcap_mask: matcap_mask_of(s.is_matcap),
    }
}

/// The binding-set synthesis for the given layer state: one bind covering
/// all four slots, because the device binds a whole set atomically.
pub open spec fn bind_layers_action(s: ReplayState) -> GpuAction {
    GpuAction::BindTextureLayers {
        slot0: s.texture_indices[0],
        slot1: s.texture_indices[1],
        slot2: s.texture_indices[2],
        slot3: s.texture_indices[3],
    }
}

/// The device calls one command issues, given the replay state when the
/// command is reached. Draws bind the one-element instance range of the most
/// recently passed model matrix; layer changes rebind the full four-slot set;
/// pipeline binds and static-mesh draws re-push the constant block.
pub open spec fn step_actions(
    s: ReplayState,
    c: Command,
    meshes: Seq<Mesh>,
    indexed: Seq<IndexedMesh>,
) -> Seq<GpuAction> {
    match c {
        Command::SetPipeline(p) => seq![
            GpuAction::SetRenderPipeline { pipeline_index: p.spec_shader_index() as usize },
            push_constants_action(s),
        ],
        Command::Draw(n) => seq![
            GpuAction::BindImmediateVertices { byte_offset: s.byte_index as u64 },
            GpuAction::Draw { vertex_count: n, instance: (s.model_matrix - 1) as u32 },
        ],
        Command::SetTexture(_, _, _) => seq![bind_layers_action(step_state(s, c))],
        Command::SetMatcap(_, _, _) => seq![bind_layers_action(step_state(s, c))],
        Command::SetModelMatrix => Seq::<GpuAction>::empty(),
        Command::DrawStaticMesh(id) => seq![
            GpuAction::SetRenderPipeline {
                pipeline_index: meshes[id as int].pipeline.spec_shader_index() as usize,
            },
            push_constants_action(s),
            GpuAction::BindStaticMeshVertices { mesh: id },
            GpuAction::Draw {
                vertex_count: meshes[id as int].vertex_count,
                instance: (s.model_matrix - 1) as u32,
            },
        ],
        Command::DrawStaticMeshIndexed(id) => seq![
            GpuAction::SetRenderPipeline {
                pipeline_index: indexed[id as int].pipeline.spec_shader_index() as usize,
            },
            push_constants_action(s),
            GpuAction::BindIndexedMeshVertices { mesh: id },
            GpuAction::BindIndexedMeshIndices { mesh: id },
            GpuAction::DrawIndexed {
                index_count: indexed[id as int].index_count,
                instance: (s.model_matrix - 1) as u32,
            },
        ],
        Command::DrawSprite(id) => seq![
            GpuAction::SetRenderPipeline {
                pipeline_index: Pipeline::Quad2d.spec_shader_index() as usize,
            },
            GpuAction::BindSpriteTexture { texture: id },
            GpuAction::BindQuadIndices,
            GpuAction::BindQuadVertices,
            GpuAction::DrawIndexed { index_count: 6u32, instance: (s.model_matrix - 1) as u32 },
        ],
    }
}

/// The replay state after the first `i` commands.
pub open spec fn state_at(cmds: Seq<Command>, i: int) -> ReplayState
    decreases i,
{
    if i <= 0 {
        init_replay_state()
    } else {
        step_state(state_at(cmds, i - 1), cmds[i - 1])
    }
}

/// The actions the first `i` commands issue, in recorded order.
pub open spec fn replay_prefix(
    cmds: Seq<Command>,
    meshes: Seq<Mesh>,
    indexed: Seq<IndexedMesh>,
    i: int,
) -> Seq<GpuAction>
    decreases i,
{
    if i <= 0 {
        Seq::<GpuAction>::empty()
    } else {
        replay_prefix(cmds, meshes, indexed, i - 1) + step_actions(
            state_at(cmds, i - 1),
            cmds[i - 1],
            meshes,
            indexed,
        )
    }
}

/// Everything replaying the whole command list issues, in recorded order.
pub open spec fn replay_actions(
    cmds: Seq<Command>,
    meshes: Seq<Mesh>,
    indexed: Seq<IndexedMesh>,
) -> Seq<GpuAction> {
    replay_prefix(cmds, meshes, indexed, cmds.len() as int)
}

/// What must hold of the command at position `i` for replay to be meaningful
/// there: draws have a matrix to bind, every logical id is resident, layer
/// indices address one of the four slots, blend modes fit a byte, and the
/// matrix index stays in instance-range width.
pub open spec fn command_ok(
    cmds: Seq<Command>,
    i: int,
    meshes: Seq<Mesh>,
    indexed: Seq<IndexedMesh>,
    textures: int,
) -> bool {
    match cmds[i] {
        Command::SetPipeline(_) => true,
        Command::Draw(_) => state_at(cmds, i).model_matrix >= 1,
        Command::SetTexture(id, layer, blend) => id < textures && layer < 4 && blend < 256,
        Command::SetMatcap(id, layer, blend) => id < textures && layer < 4 && blend < 256,
        Command::SetModelMatrix => state_at(cmds, i).model_matrix + 1 <= u32::MAX,
        Command::DrawStaticMesh(id) => id < meshes.len() && state_at(cmds, i).model_matrix >= 1,
        Command::DrawStaticMeshIndexed(id) => id < indexed.len() && state_at(
            cmds,
            i,
        ).model_matrix >= 1,
        Command::DrawSprite(id) => id < textures && state_at(cmds, i).model_matrix >= 1,
    }
}

/// A command list replay may be run on: every command is admissible where it
/// stands, the default texture is resident, and the immediate cursor never
/// leaves the arena. Recording through the draw surface maintains this.
pub open spec fn valid_commands(
    cmds: Seq<Command>,
    meshes: Seq<Mesh>,
    indexed: Seq<IndexedMesh>,
    textures: int,
) -> bool {
    &&& textures >= 1
    &&& forall|i: int| 0 <= i < cmds.len() ==> command_ok(cmds, i, meshes, indexed, textures)
    &&& forall|i: int|
        0 <= i <= cmds.len() ==> (#[trigger] state_at(cmds, i)).byte_index
            <= IMMEDIATE_ARENA_BYTES
}

/// Bounds replay state keeps on its own, with no assumption on the commands:
/// counters never go negative, the stride is at most the widest vertex, and
/// the layer tables keep their four slots.
pub proof fn lemma_state_invariants(cmds: Seq<Command>, i: int)
    ensures
        0 <= state_at(cmds, i).model_matrix,
        0 <= state_at(cmds, i).byte_index,
        0 <= state_at(cmds, i).vertex_size <= 56,
        state_at(cmds, i).texture_indices.len() == 4,
        state_at(cmds, i).blend_modes.len() == 4,
        state_at(cmds, i).is_matcap.len() == 4,
    decreases i,
{
    if i > 0 {
        lemma_state_invariants(cmds, i - 1);
    }
}

/// Under a valid command list, the replayed matrix index always fits the
/// 32-bit instance range the device draws take.
pub proof fn lemma_model_matrix_in_range(
    cmds: Seq<Command>,
    meshes: Seq<Mesh>,
    indexed: Seq<IndexedMesh>,
    textures: int,
    i: int,
)
    requires
        valid_commands(cmds, meshes, indexed, textures),
        0 <= i <= cmds.len(),
    ensures
        state_at(cmds, i).model_matrix <= u32::MAX,
    decreases i,
{
    if i > 0 {
        lemma_model_matrix_in_range(cmds, meshes, indexed, textures, i - 1);
        assert(command_ok(cmds, i - 1, meshes, indexed, textures));
    }
}

/// Appending a command does not change the replay state at any point before
/// the appended command.
pub proof fn lemma_state_at_push(cmds: Seq<Command>, c: Command, i: int)
    requires
        0 <= i <= cmds.len(),
    ensures
        state_at(cmds.push(c), i) == state_at(cmds, i),
    decreases i,
{
    if i > 0 {
        lemma_state_at_push(cmds, c, i - 1);
        assert(cmds.push(c)[i - 1] == cmds[i - 1]);
    }
}

/// A valid command list stays valid when a command admissible in its end
/// state is appended; the new end state is one step past the old one.
pub proof fn lemma_valid_commands_push(
    cmds: Seq<Command>,
    meshes: Seq<Mesh>,
    indexed: Seq<IndexedMesh>,
    textures: int,
    c: Command,
)
    requires
        valid_commands(cmds, meshes, indexed, textures),
        ({
            let end = state_at(cmds, cmds.len() as int);
            match c {
                Command::SetPipeline(_) => true,
                Command::Draw(_) => end.model_matrix >= 1,
                Command::SetTexture(id, layer, blend) => id < textures && layer < 4 && blend
                    < 256,
                Command::SetMatcap(id, layer, blend) => id < textures && layer < 4 && blend < 256,
                Command::SetModelMatrix => end.model_matrix + 1 <= u32::MAX,
                Command::DrawStaticMesh(id) => id < meshes.len() && end.model_matrix >= 1,
                Command::DrawStaticMeshIndexed(id) => id < indexed.len() && end.model_matrix >= 1,
                Command::DrawSprite(id) => id < textures && end.model_matrix >= 1,
            }
        }),
        step_state(state_at(cmds, cmds.len() as int), c).byte_index <= IMMEDIATE_ARENA_BYTES,
    ensures
        valid_commands(cmds.push(c), meshes, indexed, textures),
        state_at(cmds.push(c), cmds.len() as int + 1) == step_state(
            state_at(cmds, cmds.len() as int),
            c,
        ),
{
    let pushed = cmds.push(c);
    let n = cmds.len() as int;
    assert forall|i: int| 0 <= i <= n implies state_at(pushed, i) == state_at(cmds, i) by {
        lemma_state_at_push(cmds, c, i);
    }
    assert(pushed[n] == c);
    assert(state_at(pushed, n + 1) == step_state(state_at(pushed, n), pushed[n]));
    assert forall|i: int| 0 <= i < pushed.len() implies command_ok(
        pushed,
        i,
        meshes,
        indexed,
        textures,
    ) by {
        if i < n {
            assert(command_ok(cmds, i, meshes, indexed, textures));
            assert(pushed[i] == cmds[i]);
        }
    }
    assert forall|i: int| 0 <= i <= pushed.len() implies (#[trigger] state_at(
        pushed,
        i,
    )).byte_index <= IMMEDIATE_ARENA_BYTES by {
        if i <= n {
            assert(state_at(cmds, i).byte_index <= IMMEDIATE_ARENA_BYTES);
        }
    }
}

/// Replay's counters only grow: neither the matrix index nor the byte cursor
/// ever moves backwards.
pub proof fn lemma_state_monotone(cmds: Seq<Command>, i: int, j: int)
    requires
        i <= j,
    ensures
        state_at(cmds, i).model_matrix <= state_at(cmds, j).model_matrix,
        state_at(cmds, i).byte_index <= state_at(cmds, j).byte_index,
    decreases j - i,
{
    if i < j {
        lemma_state_monotone(cmds, i, j - 1);
        lemma_state_invariants(cmds, j - 1);
    }
}

/// Under a valid command list, every texture id the four layer slots hold is
/// resident: the slots start on the default texture and are only ever set to
/// ids the commands checked.
pub proof fn lemma_layer_ids_resident(
    cmds: Seq<Command>,
    meshes: Seq<Mesh>,
    indexed: Seq<IndexedMesh>,
    textures: int,
    i: int,
)
    requires
        valid_commands(cmds, meshes, indexed, textures),
        0 <= i <= cmds.len(),
    ensures
        forall|j: int| 0 <= j < 4 ==> state_at(cmds, i).texture_indices[j] < textures,
    decreases i,
{
    if i > 0 {
        lemma_layer_ids_resident(cmds, meshes, indexed, textures, i - 1);
        lemma_state_invariants(cmds, i - 1);
        assert(command_ok(cmds, i - 1, meshes, indexed, textures));
    }
}

/// One device action within the bounds of what a frame staged: pipeline
/// indices address the fixed eleven-entry table, every logical id is
/// resident, instance indices address staged matrices, and immediate binds
/// stay at or below the frame's final cursor.
pub open spec fn action_in_bounds(
    a: GpuAction,
    meshes: Seq<Mesh>,
    indexed: Seq<IndexedMesh>,
    textures: int,
    instances: int,
    cursor: int,
) -> bool {
    match a {
        GpuAction::SetRenderPipeline { pipeline_index } => pipeline_index < 11,
        GpuAction::SetPushConstants { .. } => true,
        GpuAction::BindImmediateVertices { byte_offset } => byte_offset <= cursor,
        GpuAction::BindTextureLayers { slot0, slot1, slot2, slot3 } => slot0 < textures && slot1
            < textures && slot2 < textures && slot3 < textures,
        GpuAction::BindStaticMeshVertices { mesh } => mesh < meshes.len(),
        GpuAction::BindIndexedMeshVertices { mesh } => mesh < indexed.len(),
        GpuAction::BindIndexedMeshIndices { mesh } => mesh < indexed.len(),
        GpuAction::BindSpriteTexture { texture } => texture < textures,
        GpuAction::BindQuadVertices => true,
        GpuAction::BindQuadIndices => true,
        GpuAction::Draw { vertex_count: _, instance } => instance < instances,
        GpuAction::DrawIndexed { index_count: _, instance } => instance < instances,
    }
}

/// Every action the first `i` commands replay to is within bounds, measured
/// against the end of the whole list.
proof fn lemma_replay_prefix_in_bounds(
    cmds: Seq<Command>,
    meshes: Seq<Mesh>,
    indexed: Seq<IndexedMesh>,
    textures: int,
    i: int,
)
    requires
        valid_commands(cmds, meshes, indexed, textures),
        0 <= i <= cmds.len(),
    ensures
        forall|k: int|
            0 <= k < replay_prefix(cmds, meshes, indexed, i).len() ==> action_in_bounds(
                #[trigger] replay_prefix(cmds, meshes, indexed, i)[k],
                meshes,
                indexed,
                textures,
                state_at(cmds, cmds.len() as int).model_matrix,
                state_at(cmds, cmds.len() as int).byte_index,
            ),
    decreases i,
{
    if i > 0 {
        lemma_replay_prefix_in_bounds(cmds, meshes, indexed, textures, i - 1);
        let s = state_at(cmds, i - 1);
        let c = cmds[i - 1];
        let prior = replay_prefix(cmds, meshes, indexed, i - 1);
        let step = step_actions(s, c, meshes, indexed);
        let end_mm = state_at(cmds, cmds.len() as int).model_matrix;
        let end_byte = state_at(cmds, cmds.len() as int).byte_index;

        assert(command_ok(cmds, i - 1, meshes, indexed, textures));
        lemma_state_invariants(cmds, i - 1);
        lemma_model_matrix_in_range(cmds, meshes, indexed, textures, i - 1);
        lemma_state_monotone(cmds, i - 1, cmds.len() as int);
        lemma_layer_ids_resident(cmds, meshes, indexed, textures, i);
        assert(state_at(cmds, i) == step_state(s, c));
        assert(state_at(cmds, i - 1).byte_index <= IMMEDIATE_ARENA_BYTES);

        assert forall|k: int| 0 <= k < step.len() implies action_in_bounds(
            step[k],
            meshes,
            indexed,
            textures,
            end_mm,
            end_byte,
        ) by {
            match c {
                Command::SetPipeline(p) => {
                    assert(p.spec_shader_index() < 11);
                }
                Command::Draw(_) => {
                    assert(s.model_matrix >= 1);
                    assert(s.model_matrix <= end_mm);
                    assert(s.byte_index <= end_byte);
                }
                Command::SetTexture(_, _, _) => {
                    assert(step[0] == bind_layers_action(state_at(cmds, i)));
                }
                Command::SetMatcap(_, _, _) => {
                    assert(step[0] == bind_layers_action(state_at(cmds, i)));
                }
                Command::SetModelMatrix => {
                }
                Command::DrawStaticMesh(id) => {
                    assert(meshes[id as int].pipeline.spec_shader_index() < 11);
                    assert(s.model_matrix >= 1);
                }
                Command::DrawStaticMeshIndexed(id) => {
                    assert(indexed[id as int].pipeline.spec_shader_index() < 11);
                    assert(s.model_matrix >= 1);
                }
                Command::DrawSprite(_) => {
                    assert(s.model_matrix >= 1);
                }
            }
        }
        assert forall|k: int| 0 <= k < replay_prefix(cmds, meshes, indexed, i).len()
            implies action_in_bounds(
            #[trigger] replay_prefix(cmds, meshes, indexed, i)[k],
            meshes,
            indexed,
            textures,
            end_mm,
            end_byte,
        ) by {
            if k < prior.len() {
                assert(replay_prefix(cmds, meshes, indexed, i)[k] == prior[k]);
            } else {
                assert(replay_prefix(cmds, meshes, indexed, i)[k] == step[k - prior.len()]);
            }
        }
    }
}

/// Law: replay never reaches outside what the frame staged. Every action a
/// valid command list replays to binds a pipeline of the fixed table, a
/// resident texture, matcap or mesh, an instance index below the number of
/// matrices the replayed list passes, and an immediate-arena offset at or
/// below the list's final cursor. In particular no draw can alias a matrix or
/// vertex range the frame did not stage.
pub proof fn lemma_replay_actions_in_bounds(
    cmds: Seq<Command>,
    meshes: Seq<Mesh>,
    indexed: Seq<IndexedMesh>,
    textures: int,
)
    requires
        valid_commands(cmds, meshes, indexed, textures),
    ensures
        forall|k: int|
            0 <= k < replay_actions(cmds, meshes, indexed).len() ==> action_in_bounds(
                #[trigger] replay_actions(cmds, meshes, indexed)[k],
                meshes,
                indexed,
                textures,
                state_at(cmds, cmds.len() as int).model_matrix,
                state_at(cmds, cmds.len() as int).byte_index,
            ),
{
    lemma_replay_prefix_in_bounds(cmds, meshes, indexed, textures, cmds.len() as int);
}

/// How many `SetModelMatrix` commands the list holds.
pub open spec fn model_matrix_pushes(cmds: Seq<Command>) -> int
    decreases cmds.len(),
{
    if cmds.len() == 0 {
        0
    } else {
        model_matrix_pushes(cmds.drop_last()) + if cmds.last() is SetModelMatrix {
            1int
        } else {
            0int
        }
    }
}

/// The matrix index replay carries at any point is exactly the number of
/// `SetModelMatrix` commands already passed.
pub proof fn lemma_model_matrix_is_push_count(cmds: Seq<Command>, i: int)
    requires
        0 <= i <= cmds.len(),
    ensures
        state_at(cmds, i).model_matrix == model_matrix_pushes(cmds.take(i)),
    decreases i,
{
    if i == 0 {
        assert(cmds.take(0) =~= Seq::<Command>::empty());
    } else {
        lemma_model_matrix_is_push_count(cmds, i - 1);
        assert(cmds.take(i).drop_last() =~= cmds.take(i - 1));
        assert(cmds.take(i).last() == cmds[i - 1]);
    }
}

/// Law: a recorded immediate draw binds the most recently pushed model
/// matrix, by recording order. When replay reaches the `Draw` at position
/// `i`, the instance index it emits equals the number of `SetModelMatrix`
/// commands recorded before `i`, minus one — not an index fixed when the
/// draw itself was recorded.
pub proof fn lemma_draw_binds_latest_matrix(
    cmds: Seq<Command>,
    meshes: Seq<Mesh>,
    indexed: Seq<IndexedMesh>,
    textures: int,
    i: int,
    n: u32,
)
    requires
        valid_commands(cmds, meshes, indexed, textures),
        0 <= i < cmds.len(),
        cmds[i] == Command::Draw(n),
    ensures
        model_matrix_pushes(cmds.take(i)) >= 1,
        step_actions(state_at(cmds, i), cmds[i], meshes, indexed) == seq![
            GpuAction::BindImmediateVertices {
                byte_offset: state_at(cmds, i).byte_index as u64,
            },
            GpuAction::Draw {
                vertex_count: n,
                instance: (model_matrix_pushes(cmds.take(i)) - 1) as u32,
            },
        ],
{
    lemma_model_matrix_is_push_count(cmds, i);
    assert(command_ok(cmds, i, meshes, indexed, textures));
}

/// The virtual render pass: the ordered command list of one frame plus its
/// three monotonic counters. Counters only grow during a frame and are reset
/// to zero exactly once, after replay completes and before the next frame's
/// build phase.
#[derive(Clone, Debug, Eq, PartialEq)]
pub struct VirtualRenderPass {
    pub commands: Vec<Command>,
    /// Next free byte offset in the immediate vertex arena.
    pub immediate_buffer_last_index: u64,
    /// How many model matrices have been pushed this frame.
    pub instance_count: u64,
    /// How many lights have been pushed this frame.
    pub light_count: u64,
}

impl VirtualRenderPass {
    /// An empty frame: no commands recorded, all counters zero.
    pub open spec fn is_cleared(self) -> bool {
        &&& self.commands@ == Seq::<Command>::empty()
        &&& self.immediate_buffer_last_index == 0
        &&& self.instance_count == 0
        &&& self.light_count == 0
    }

    pub fn new() -> (r: Self)
        ensures
            r.is_cleared(),
    {
        let r = VirtualRenderPass {
            commands: Vec::new(),
            immediate_buffer_last_index: 0,
            instance_count: 0,
            light_count: 0,
        };
        proof {
            assert(r.commands@ =~= Seq::<Command>::empty());
        }
        r
    }

    /// Rewind the frame: drop every recorded command and zero all three
    /// counters. The only mutation allowed between a replay completing and
    /// the next frame's first push.
    pub fn reset(&mut self)
        ensures
            final(self).is_cleared(),
    {
        self.commands.clear();
        self.instance_count = 0;
        self.light_count = 0;
        self.immediate_buffer_last_index = 0;
        proof {
            assert(self.commands@ =~= Seq::<Command>::empty());
        }
    }

    /// Resetting is idempotent: all cleared frames present the same
    /// observable state, so a second `reset` in a row changes nothing.
    pub proof fn lemma_reset_idempotent(a: VirtualRenderPass, b: VirtualRenderPass)
        requires
            a.is_cleared(),
            b.is_cleared(),
        ensures
            a.commands@ == b.commands@,
            a.immediate_buffer_last_index == b.immediate_buffer_last_index,
            a.instance_count == b.instance_count,
            a.light_count == b.light_count,
    {
    }

    /// Replay: walk the command list once, in order, and emit the exact
    /// sequence of device actions the recorded frame denotes. The caller
    /// hands in the mesh stores and the loaded-texture count the commands
    /// refer to.
    pub fn execute(
        &self,
        meshes: &Vec<Mesh>,
        indexed_meshes: &Vec<IndexedMesh>,
        texture_count: usize,
    ) -> (actions: Vec<GpuAction>)
        requires
            valid_commands(self.commands@, meshes@, indexed_meshes@, texture_count as int),
        ensures
            actions@ == replay_actions(self.commands@, meshes@, indexed_meshes@),
    {
        let ghost cmds = self.commands@;
        let mut actions: Vec<GpuAction> = Vec::new();
        let mut current_byte_index: u64 = 0;
        let mut current_vertex_size: usize = 0;
        let mut current_model_matrix: u64 = 0;
        let mut texture_state = TextureStates::new();
        let n = self.commands.len();

        proof {
            assert(actions@ =~= replay_prefix(cmds, meshes@, indexed_meshes@, 0));
        }

        let mut i: usize = 0;
        while i < n
            invariant
                n == cmds.len(),
                cmds == self.commands@,
                i <= n,
                valid_commands(cmds, meshes@, indexed_meshes@, texture_count as int),
                actions@ == replay_prefix(cmds, meshes@, indexed_meshes@, i as int),
                current_byte_index == state_at(cmds, i as int).byte_index,
                current_vertex_size == state_at(cmds, i as int).vertex_size,
                current_model_matrix == state_at(cmds, i as int).model_matrix,
                texture_state.wf(),
                texture_state.texture_indices@ == state_at(cmds, i as int).texture_indices,
                texture_state.blend_modes@ == state_at(cmds, i as int).blend_modes,
                texture_state.is_matcap@ == state_at(cmds, i as int).is_matcap,
            decreases n - i,
        {
            let ghost s = state_at(cmds, i as int);
            proof {
                assert(command_ok(cmds, i as int, meshes@, indexed_meshes@, texture_count as int));
                lemma_model_matrix_in_range(
                    cmds,
                    meshes@,
                    indexed_meshes@,
                    texture_count as int,
                    i as int,
                );
                lemma_state_invariants(cmds, i as int);
                assert(state_at(cmds, i + 1) == step_state(s, cmds[i as int]));
                assert(state_at(cmds, i + 1).byte_index <= IMMEDIATE_ARENA_BYTES);
            }
            let command = self.commands[i];
            let ghost step = step_actions(s, command, meshes@, indexed_meshes@);
            match command {
                Command::SetPipeline(pipeline) => {
                    actions.push(
                        GpuAction::SetRenderPipeline { pipeline_index: pipeline.get_shader() },
                    );
                    actions.push(
                        GpuAction::SetPushConstants {
                            blend0: texture_state.blend_modes[0],
                            blend1: texture_state.blend_modes[1],
                            blend2: texture_state.blend_modes[2],
                            blend3: texture_state.blend_modes[3],
                            matcap_mask: texture_state.matcap_mask(),
                        },
                    );
                    current_vertex_size = pipeline.get_vertex_size();
                }
                Command::Draw(vertex_count) => {
                    actions.push(
                        GpuAction::BindImmediateVertices { byte_offset: current_byte_index },
                    );
                    actions.push(
                        GpuAction::Draw {
                            vertex_count,
                            instance: (current_model_matrix - 1) as u32,
                        },
                    );
                    current_byte_index = current_byte_index + (vertex_count as u64)
                        * (current_vertex_size as u64);
                }
                Command::SetTexture(tex_index, layer_index, blend_mode) => {
                    texture_state.set_texture(tex_index, layer_index, blend_mode, false);
                    actions.push(
                        GpuAction::BindTextureLayers {
                            slot0: texture_state.texture_indices[0],
                            slot1: texture_state.texture_indices[1],
                            slot2: texture_state.texture_indices[2],
                            slot3: texture_state.texture_indices[3],
                        },
                    );
                }
                Command::SetMatcap(matcap_index, layer_index, blend_mode) => {
                    texture_state.set_texture(matcap_index, layer_index, blend_mode, true);
                    actions.push(
                        GpuAction::BindTextureLayers {
                            slot0: texture_state.texture_indices[0],
                            slot1: texture_state.texture_indices[1],
                            slot2: texture_state.texture_indices[2],
                            slot3: texture_state.texture_indices[3],
                        },
                    );
                }
                Command::SetModelMatrix => {
                    current_model_matrix = current_model_matrix + 1;
                }
                Command::DrawStaticMesh(index) => {
                    let mesh = meshes[index];
                    actions.push(
                        GpuAction::SetRenderPipeline { pipeline_index: mesh.pipeline.get_shader() },
                    );
                    actions.push(
                        GpuAction::SetPushConstants {
                            blend0: texture_state.blend_modes[0],
                            blend1: texture_state.blend_modes[1],
                            blend2: texture_state.blend_modes[2],
                            blend3: texture_state.blend_modes[3],
                            matcap_mask: texture_state.matcap_mask(),
                        },
                    );
                    actions.push(GpuAction::BindStaticMeshVertices { mesh: index });
                    actions.push(
                        GpuAction::Draw {
                            vertex_count: mesh.vertex_count,
                            instance: (current_model_matrix - 1) as u32,
                        },
                    );
                }
                Command::DrawStaticMeshIndexed(index) => {
                    let mesh = indexed_meshes[index];
                    actions.push(
                        GpuAction::SetRenderPipeline { pipeline_index: mesh.pipeline.get_shader() },
                    );
                    actions.push(
                        GpuAction::SetPushConstants {
                            blend0: texture_state.blend_modes[0],
                            blend1: texture_state.blend_modes[1],
                            blend2: texture_state.blend_modes[2],
                            blend3: texture_state.blend_modes[3],
                            matcap_mask: texture_state.matcap_mask(),
                        },
                    );
                    actions.push(GpuAction::BindIndexedMeshVertices { mesh: index });
                    actions.push(GpuAction::BindIndexedMeshIndices { mesh: index });
                    actions.push(
                        GpuAction::DrawIndexed {
                            index_count: mesh.index_count,
                            instance: (current_model_matrix - 1) as u32,
                        },
                    );
                }
                Command::DrawSprite(sprite_index) => {
                    let quad_pipeline = Pipeline::Quad2d;
                    actions.push(
                        GpuAction::SetRenderPipeline {
                            pipeline_index: quad_pipeline.get_shader(),
                        },
                    );
                    actions.push(GpuAction::BindSpriteTexture { texture: sprite_index });
                    actions.push(GpuAction::BindQuadIndices);
                    actions.push(GpuAction::BindQuadVertices);
                    actions.push(
                        GpuAction::DrawIndexed {
                            index_count: 6,
                            instance: (current_model_matrix - 1) as u32,
                        },
                    );
                }
            }
            proof {
                assert(replay_prefix(cmds, meshes@, indexed_meshes@, i + 1) == replay_prefix(
                    cmds,
                    meshes@,
                    indexed_meshes@,
                    i as int,
                ) + step);
                assert(actions@ =~= replay_prefix(cmds, meshes@, indexed_meshes@, i + 1));
            }
            i = i + 1;
        }
        proof {
            assert(actions@ == replay_actions(cmds, meshes@, indexed_meshes@));
        }
        actions
    }
}

} // verus!
