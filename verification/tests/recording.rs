use render_core::lights::Light;
use render_core::pipeline::Pipeline;
use render_core::virtual_gpu::{RecordError, VirtualGpu, MAX_INSTANCES};
use render_core::virtual_render_pass::{Command, VirtualRenderPass};

fn identity_matrix() -> [u32; 16] {
    let mut m = [0u32; 16];
    let one = 1.0f32.to_bits();
    m[0] = one;
    m[5] = one;
    m[10] = one;
    m[15] = one;
    m
}

#[test]
fn counters_count_pushes_and_reset_to_zero() {
    let mut gpu = VirtualGpu::new();
    let m = identity_matrix();
    for n in 1..=5u64 {
        gpu.push_matrix(&m).unwrap();
        assert_eq!(gpu.virtual_render_pass.instance_count, n);
    }
    assert_eq!(gpu.instance_data.len(), 5 * 16);
    gpu.reset();
    assert_eq!(gpu.virtual_render_pass.instance_count, 0);
    assert_eq!(gpu.instance_data.len(), 0);
}

#[test]
fn malformed_tri_list_records_nothing() {
    // A Color vertex carries 6 attributes; 28 floats are no whole number of
    // vertices, so the draw is dropped: no command, cursor unchanged.
    let mut gpu = VirtualGpu::new();
    gpu.push_matrix(&identity_matrix()).unwrap();
    let before = gpu.clone();
    let data = vec![0u32; 28];
    let r = gpu.draw_tri_list(&data, Pipeline::Color);
    assert_eq!(r, Err(RecordError::MalformedDraw));
    assert_eq!(gpu, before);
    assert_eq!(gpu.virtual_render_pass.immediate_buffer_last_index, 0);
    assert_eq!(gpu.virtual_render_pass.commands.len(), 1); // only SetModelMatrix
}

#[test]
fn valid_tri_list_appends_pipeline_then_draw() {
    let mut gpu = VirtualGpu::new();
    gpu.push_matrix(&identity_matrix()).unwrap();
    let data: Vec<u32> = (0..18u32).collect(); // 3 Color vertices
    let r = gpu.draw_tri_list(&data, Pipeline::Color);
    assert_eq!(r, Ok(()));
    assert_eq!(
        gpu.virtual_render_pass.commands,
        vec![
            Command::SetModelMatrix,
            Command::SetPipeline(Pipeline::Color),
            Command::Draw(3),
        ]
    );
    assert_eq!(gpu.virtual_render_pass.immediate_buffer_last_index, 18 * 4);
    assert_eq!(gpu.immediate_vertex_data, (0..18u32).collect::<Vec<u32>>());
}

#[test]
fn tri_list_cursor_accumulates_across_draws() {
    let mut gpu = VirtualGpu::new();
    gpu.push_matrix(&identity_matrix()).unwrap();
    gpu.draw_tri_list(&vec![0u32; 12], Pipeline::Color).unwrap(); // 2 vertices
    gpu.draw_tri_list(&vec![0u32; 10], Pipeline::Uv).unwrap(); // 2 vertices
    assert_eq!(gpu.virtual_render_pass.immediate_buffer_last_index, (12 + 10) * 4);
    assert_eq!(gpu.immediate_vertex_data.len(), 22);
}

#[test]
fn empty_tri_list_records_an_empty_draw() {
    // Zero floats are a whole number of vertices of any variant: the draw is
    // recorded, covers zero vertices, and leaves the cursor where it was.
    let mut gpu = VirtualGpu::new();
    gpu.push_matrix(&identity_matrix()).unwrap();
    let r = gpu.draw_tri_list(&[], Pipeline::ColorUvLit);
    assert_eq!(r, Ok(()));
    assert_eq!(
        gpu.virtual_render_pass.commands[1..],
        [Command::SetPipeline(Pipeline::ColorUvLit), Command::Draw(0)]
    );
    assert_eq!(gpu.virtual_render_pass.immediate_buffer_last_index, 0);
}

#[test]
fn tri_list_over_arena_capacity_is_refused() {
    let mut gpu = VirtualGpu::new();
    gpu.push_matrix(&identity_matrix()).unwrap();
    // 349_525 Color vertices fill 8_388_600 of the arena's 8_388_608 bytes.
    let big = vec![0u32; 349_525 * 6];
    assert_eq!(gpu.draw_tri_list(&big, Pipeline::Color), Ok(()));
    let before_cursor = gpu.virtual_render_pass.immediate_buffer_last_index;
    assert_eq!(before_cursor, 8_388_600);
    // One more vertex (24 bytes) does not fit; nothing may be recorded.
    let r = gpu.draw_tri_list(&vec![0u32; 6], Pipeline::Color);
    assert_eq!(r, Err(RecordError::CapacityExceeded));
    assert_eq!(gpu.virtual_render_pass.immediate_buffer_last_index, before_cursor);
    assert_eq!(gpu.virtual_render_pass.commands.len(), 3);
}

#[test]
fn fifth_light_is_a_capacity_error_not_an_overwrite() {
    let mut gpu = VirtualGpu::new();
    let mut lights = Vec::new();
    for n in 0..5u32 {
        lights.push(Light {
            color_max_angle: [n + 1, 0, 0, 0],
            position_range: [0, 0, 0, n + 1],
            direction_min_angle: [0, 0, 0, 0],
        });
    }
    for light in &lights[..4] {
        assert_eq!(gpu.push_light(light), Ok(()));
    }
    assert_eq!(gpu.virtual_render_pass.light_count, 4);
    let arena_before = gpu.light_data.clone();
    let r = gpu.push_light(&lights[4]);
    assert_eq!(r, Err(RecordError::CapacityExceeded));
    // The fifth push overwrote nothing: light index 0 still holds light 0.
    assert_eq!(gpu.light_data, arena_before);
    assert_eq!(gpu.light_data[0], 1);
    assert_eq!(gpu.virtual_render_pass.light_count, 4);
}

#[test]
fn matrix_arena_capacity_is_enforced() {
    let mut gpu = VirtualGpu::new();
    let m = identity_matrix();
    for _ in 0..MAX_INSTANCES {
        assert_eq!(gpu.push_matrix(&m), Ok(()));
    }
    assert_eq!(gpu.virtual_render_pass.instance_count, MAX_INSTANCES);
    let r = gpu.push_matrix(&m);
    assert_eq!(r, Err(RecordError::CapacityExceeded));
    assert_eq!(gpu.virtual_render_pass.instance_count, MAX_INSTANCES);
}

#[test]
fn light_records_are_staged_in_push_order() {
    let mut gpu = VirtualGpu::new();
    let ambient = Light {
        color_max_angle: [
            1.0f32.to_bits(),
            1.0f32.to_bits(),
            1.0f32.to_bits(),
            0.05f32.to_bits(),
        ],
        position_range: [0, 0, 0, 0.0f32.to_bits()],
        direction_min_angle: [0, 0, 0, 0],
    };
    let point = Light {
        color_max_angle: [1.0f32.to_bits(), 0, 0, 1.0f32.to_bits()],
        position_range: [2.0f32.to_bits(), 0, 0, 50.0f32.to_bits()],
        direction_min_angle: [0, 0, 0, 0],
    };
    gpu.push_light(&ambient).unwrap();
    gpu.push_light(&point).unwrap();
    assert_eq!(gpu.light_data.len(), 24);
    let mut expected = Vec::new();
    expected.extend_from_slice(&ambient.get_light_uniforms());
    expected.extend_from_slice(&point.get_light_uniforms());
    assert_eq!(gpu.light_data, expected);
    // Pushing a light appends no command: lights are not replayed.
    assert!(gpu.virtual_render_pass.commands.is_empty());
}

#[test]
fn light_uniforms_flatten_in_group_order() {
    let light = Light {
        color_max_angle: [1, 2, 3, 4],
        position_range: [5, 6, 7, 8],
        direction_min_angle: [9, 10, 11, 12],
    };
    assert_eq!(light.get_light_uniforms(), [1, 2, 3, 4, 5, 6, 7, 8, 9, 10, 11, 12]);
}

#[test]
fn load_ids_are_sequential() {
    let mut gpu = VirtualGpu::new();
    // Id zero is the default texture loaded at startup.
    assert_eq!(gpu.textures_len, 1);
    assert_eq!(gpu.load_texture(), 1);
    assert_eq!(gpu.load_texture(), 2);
    let quad = vec![0u32; 6 * 4];
    assert_eq!(gpu.load_static_mesh(&quad, Pipeline::Color), 0);
    assert_eq!(gpu.load_static_mesh(&quad, Pipeline::Color), 1);
    let indices: Vec<u16> = vec![0, 1, 2];
    assert_eq!(gpu.load_static_mesh_indexed(&quad, &indices, Pipeline::Color), 0);
    assert_eq!(gpu.meshes[0].vertex_count, 4);
    assert_eq!(gpu.meshes[0].pipeline, Pipeline::Color);
    assert_eq!(gpu.indexed_meshes[0].index_count, 3);
}

#[test]
fn reset_twice_is_a_no_op_the_second_time() {
    let mut gpu = VirtualGpu::new();
    gpu.load_texture();
    gpu.push_matrix(&identity_matrix()).unwrap();
    gpu.draw_tri_list(&vec![0u32; 6], Pipeline::Color).unwrap();
    gpu.push_light(&Light {
        color_max_angle: [1, 1, 1, 1],
        position_range: [0, 0, 0, 0],
        direction_min_angle: [0, 0, 0, 0],
    })
    .unwrap();

    gpu.reset();
    let after_first = gpu.clone();
    assert_eq!(gpu.virtual_render_pass.instance_count, 0);
    assert_eq!(gpu.virtual_render_pass.light_count, 0);
    assert_eq!(gpu.virtual_render_pass.immediate_buffer_last_index, 0);
    assert!(gpu.virtual_render_pass.commands.is_empty());

    gpu.reset();
    assert_eq!(gpu, after_first);
    // The long-lived stores survive both resets.
    assert_eq!(gpu.textures_len, 2);
}

#[test]
fn render_pass_reset_clears_commands_and_counters() {
    let mut vrp = VirtualRenderPass::new();
    vrp.commands.push(Command::SetModelMatrix);
    vrp.commands.push(Command::Draw(3));
    vrp.instance_count = 1;
    vrp.light_count = 2;
    vrp.immediate_buffer_last_index = 72;
    vrp.reset();
    assert!(vrp.commands.is_empty());
    assert_eq!(vrp.instance_count, 0);
    assert_eq!(vrp.light_count, 0);
    assert_eq!(vrp.immediate_buffer_last_index, 0);
}
