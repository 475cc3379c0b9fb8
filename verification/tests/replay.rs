use render_core::pipeline::Pipeline;
use render_core::virtual_gpu::VirtualGpu;
use render_core::virtual_render_pass::{Command, GpuAction, TextureStates, VirtualRenderPass};

fn identity_matrix() -> [u32; 16] {
    let mut m = [0u32; 16];
    let one = 1.0f32.to_bits();
    m[0] = one;
    m[5] = one;
    m[10] = one;
    m[15] = one;
    m
}

fn replay(gpu: &VirtualGpu) -> Vec<GpuAction> {
    gpu.virtual_render_pass.execute(&gpu.meshes, &gpu.indexed_meshes, gpu.textures_len)
}

#[test]
fn second_draw_binds_the_second_matrix() {
    // Recorded order: matrix, pipeline, draw, matrix, draw. The second draw
    // must bind instance index 1 — the most recently pushed matrix — not the
    // index current when its own data was pushed.
    let mut gpu = VirtualGpu::new();
    gpu.push_matrix(&identity_matrix()).unwrap();
    gpu.draw_tri_list(&vec![0u32; 18], Pipeline::Color).unwrap();
    gpu.push_matrix(&identity_matrix()).unwrap();
    // Append a second Draw under the still-bound pipeline by pushing another
    // tri list of the same variant; it records SetPipeline + Draw.
    gpu.draw_tri_list(&vec![0u32; 18], Pipeline::Color).unwrap();

    let actions = replay(&gpu);
    let draws: Vec<&GpuAction> = actions
        .iter()
        .filter(|a| matches!(a, GpuAction::Draw { .. }))
        .collect();
    assert_eq!(
        draws,
        vec![
            &GpuAction::Draw { vertex_count: 3, instance: 0 },
            &GpuAction::Draw { vertex_count: 3, instance: 1 },
        ]
    );
}

#[test]
fn draws_bind_the_most_recently_pushed_matrix() {
    // The literal command list: matrix, pipeline, draw 3, matrix, draw 3.
    // The second draw binds instance index 1, not 0.
    let mut vrp = VirtualRenderPass::new();
    vrp.commands = vec![
        Command::SetModelMatrix,
        Command::SetPipeline(Pipeline::Color),
        Command::Draw(3),
        Command::SetModelMatrix,
        Command::Draw(3),
    ];
    let actions = vrp.execute(&Vec::new(), &Vec::new(), 1);
    assert_eq!(
        actions,
        vec![
            GpuAction::SetRenderPipeline { pipeline_index: 0 },
            GpuAction::SetPushConstants {
                blend0: 0,
                blend1: 0,
                blend2: 0,
                blend3: 0,
                matcap_mask: 0,
            },
            GpuAction::BindImmediateVertices { byte_offset: 0 },
            GpuAction::Draw { vertex_count: 3, instance: 0 },
            GpuAction::BindImmediateVertices { byte_offset: 72 },
            GpuAction::Draw { vertex_count: 3, instance: 1 },
        ]
    );
}

#[test]
fn immediate_draws_advance_the_replay_cursor() {
    let mut gpu = VirtualGpu::new();
    gpu.push_matrix(&identity_matrix()).unwrap();
    gpu.draw_tri_list(&vec![0u32; 12], Pipeline::Color).unwrap(); // 2 vertices, 48 bytes
    gpu.draw_tri_list(&vec![0u32; 10], Pipeline::Uv).unwrap(); // 2 vertices, 40 bytes
    let actions = replay(&gpu);
    let offsets: Vec<u64> = actions
        .iter()
        .filter_map(|a| match a {
            GpuAction::BindImmediateVertices { byte_offset } => Some(*byte_offset),
            _ => None,
        })
        .collect();
    assert_eq!(offsets, vec![0, 48]);
}

#[test]
fn texture_layer_state_persists_across_syntheses() {
    // SetTexture(id=2, layer=0, blend=3) then SetTexture(id=5, layer=1,
    // blend=1): the second synthesized binding set must still hold id 2 in
    // slot 0.
    let mut gpu = VirtualGpu::new();
    for _ in 0..5 {
        gpu.load_texture();
    }
    gpu.set_texture(2, 0, 3);
    gpu.set_texture(5, 1, 1);
    let actions = replay(&gpu);
    assert_eq!(
        actions,
        vec![
            GpuAction::BindTextureLayers { slot0: 2, slot1: 0, slot2: 0, slot3: 0 },
            GpuAction::BindTextureLayers { slot0: 2, slot1: 5, slot2: 0, slot3: 0 },
        ]
    );
}

#[test]
fn pipeline_bind_pushes_current_blend_constants() {
    let mut gpu = VirtualGpu::new();
    for _ in 0..3 {
        gpu.load_texture();
    }
    gpu.push_matrix(&identity_matrix()).unwrap();
    gpu.set_texture(1, 0, 3);
    gpu.set_matcap(2, 1, 8);
    gpu.draw_tri_list(&vec![0u32; 6], Pipeline::Color).unwrap();
    let actions = replay(&gpu);
    assert_eq!(
        actions,
        vec![
            GpuAction::BindTextureLayers { slot0: 1, slot1: 0, slot2: 0, slot3: 0 },
            GpuAction::BindTextureLayers { slot0: 1, slot1: 2, slot2: 0, slot3: 0 },
            GpuAction::SetRenderPipeline { pipeline_index: 0 },
            // Slot 1 is a matcap, so the mask has bit 1 set.
            GpuAction::SetPushConstants {
                blend0: 3,
                blend1: 8,
                blend2: 0,
                blend3: 0,
                matcap_mask: 2,
            },
            GpuAction::BindImmediateVertices { byte_offset: 0 },
            GpuAction::Draw { vertex_count: 1, instance: 0 },
        ]
    );
}

#[test]
fn static_mesh_draw_rebinds_its_own_pipeline() {
    let mut gpu = VirtualGpu::new();
    let mesh_data = vec![0u32; 6 * 11]; // 6 UvLit vertices
    let mesh_id = gpu.load_static_mesh(&mesh_data, Pipeline::UvLit);
    gpu.push_matrix(&identity_matrix()).unwrap();
    gpu.draw_static_mesh(mesh_id);
    let actions = replay(&gpu);
    assert_eq!(
        actions,
        vec![
            GpuAction::SetRenderPipeline { pipeline_index: 4 }, // UvLit
            GpuAction::SetPushConstants {
                blend0: 0,
                blend1: 0,
                blend2: 0,
                blend3: 0,
                matcap_mask: 0,
            },
            GpuAction::BindStaticMeshVertices { mesh: 0 },
            GpuAction::Draw { vertex_count: 6, instance: 0 },
        ]
    );
}

#[test]
fn indexed_mesh_draw_binds_vertices_and_indices() {
    let mut gpu = VirtualGpu::new();
    let data = vec![0u32; 4 * 6]; // 4 Color vertices
    let indices: Vec<u16> = vec![0, 1, 2, 2, 3, 0];
    let mesh_id = gpu.load_static_mesh_indexed(&data, &indices, Pipeline::Color);
    gpu.push_matrix(&identity_matrix()).unwrap();
    gpu.push_matrix(&identity_matrix()).unwrap();
    gpu.draw_static_mesh_indexed(mesh_id);
    let actions = replay(&gpu);
    assert_eq!(
        actions,
        vec![
            GpuAction::SetRenderPipeline { pipeline_index: 0 },
            GpuAction::SetPushConstants {
                blend0: 0,
                blend1: 0,
                blend2: 0,
                blend3: 0,
                matcap_mask: 0,
            },
            GpuAction::BindIndexedMeshVertices { mesh: 0 },
            GpuAction::BindIndexedMeshIndices { mesh: 0 },
            GpuAction::DrawIndexed { index_count: 6, instance: 1 },
        ]
    );
}

#[test]
fn sprite_draw_uses_the_quad_pipeline_and_buffers() {
    let mut gpu = VirtualGpu::new();
    let tex = gpu.load_texture();
    gpu.push_matrix(&identity_matrix()).unwrap();
    gpu.draw_sprite(tex);
    let actions = replay(&gpu);
    assert_eq!(
        actions,
        vec![
            GpuAction::SetRenderPipeline { pipeline_index: 6 }, // Quad2d
            GpuAction::BindSpriteTexture { texture: 1 },
            GpuAction::BindQuadIndices,
            GpuAction::BindQuadVertices,
            GpuAction::DrawIndexed { index_count: 6, instance: 0 },
        ]
    );
}

#[test]
fn stale_vertex_stride_survives_static_mesh_draws() {
    // A static-mesh draw rebinds a pipeline but deliberately leaves the
    // immediate vertex stride as the last SetPipeline set it, so a following
    // immediate draw still advances by the old stride.
    let mut gpu = VirtualGpu::new();
    let mesh_id = gpu.load_static_mesh(&vec![0u32; 11], Pipeline::UvLit);
    gpu.push_matrix(&identity_matrix()).unwrap();
    gpu.draw_tri_list(&vec![0u32; 6], Pipeline::Color).unwrap(); // stride 24
    gpu.draw_static_mesh(mesh_id); // UvLit stride 44 is NOT taken over
    gpu.draw_tri_list(&vec![0u32; 6], Pipeline::Color).unwrap();
    let actions = replay(&gpu);
    let offsets: Vec<u64> = actions
        .iter()
        .filter_map(|a| match a {
            GpuAction::BindImmediateVertices { byte_offset } => Some(*byte_offset),
            _ => None,
        })
        .collect();
    assert_eq!(offsets, vec![0, 24]);
}

#[test]
fn empty_frame_replays_to_no_actions() {
    let gpu = VirtualGpu::new();
    assert!(replay(&gpu).is_empty());
}

#[test]
fn push_constants_pack_blends_then_mask() {
    let mut ts = TextureStates::new();
    ts.set_texture(7, 2, 9, true);
    ts.set_texture(3, 0, 5, false);
    assert_eq!(ts.to_push_constants(), [5, 0, 9, 0, 4, 0, 0, 0]);
    assert_eq!(ts.matcap_mask(), 4);
}

#[test]
fn matcap_mask_sets_one_bit_per_layer() {
    let mut ts = TextureStates::new();
    assert_eq!(ts.matcap_mask(), 0);
    ts.set_texture(0, 0, 0, true);
    ts.set_texture(0, 3, 0, true);
    assert_eq!(ts.matcap_mask(), 9);
    ts.set_texture(0, 0, 0, false);
    assert_eq!(ts.matcap_mask(), 8);
}

#[test]
fn layer_slot_updates_keep_other_slots() {
    let mut ts = TextureStates::new();
    ts.set_texture(2, 0, 3, false);
    ts.set_texture(5, 1, 1, true);
    assert_eq!(ts.texture_indices, vec![2, 5, 0, 0]);
    assert_eq!(ts.blend_modes, vec![3, 1, 0, 0]);
    assert_eq!(ts.is_matcap, vec![false, true, false, false]);
}
