use render_core::mesh::quad_indices;
use render_core::pipeline::Pipeline;

const ALL_VARIANTS: [Pipeline; 11] = [
    Pipeline::Color,
    Pipeline::Uv,
    Pipeline::ColorUv,
    Pipeline::ColorLit,
    Pipeline::UvLit,
    Pipeline::ColorUvLit,
    Pipeline::Quad2d,
    Pipeline::Matcap,
    Pipeline::MatcapColor,
    Pipeline::MatcapUv,
    Pipeline::MatcapColorUv,
];

#[test]
fn variant_names() {
    assert_eq!(Pipeline::Color.name(), "color");
    assert_eq!(Pipeline::ColorUvLit.name(), "color uv lit");
    assert_eq!(Pipeline::Quad2d.name(), "quad 2d");
    assert_eq!(Pipeline::MatcapColorUv.name(), "matcap color uv");
}

#[test]
fn vertex_shader_entry_points() {
    assert_eq!(Pipeline::Color.vertex_shader(), "vs_color");
    assert_eq!(Pipeline::UvLit.vertex_shader(), "vs_uv_lit");
    assert_eq!(Pipeline::Quad2d.vertex_shader(), "vs_quad_2d");
    assert_eq!(Pipeline::Matcap.vertex_shader(), "vs_matcap");
}

#[test]
fn fragment_shader_entry_points() {
    assert_eq!(Pipeline::Color.fragment_shader(), "fs_color");
    // Quad2d shares the plain textured fragment stage with Uv.
    assert_eq!(Pipeline::Quad2d.fragment_shader(), "fs_uv");
    assert_eq!(Pipeline::Uv.fragment_shader(), "fs_uv");
    assert_eq!(Pipeline::MatcapUv.fragment_shader(), "fs_matcap_uv");
}

#[test]
fn capability_flags_match_layouts() {
    assert!(Pipeline::Color.has_color() && !Pipeline::Color.has_uv());
    assert!(!Pipeline::Uv.has_color() && Pipeline::Uv.has_uv());
    assert!(Pipeline::Quad2d.has_color() && Pipeline::Quad2d.has_uv());
    assert!(Pipeline::ColorUvLit.has_lighting() && Pipeline::ColorUvLit.has_normals());
    assert!(!Pipeline::Matcap.has_lighting() && Pipeline::Matcap.has_normals());
    assert!(!Pipeline::ColorUv.has_normals());
}

#[test]
fn attribute_counts() {
    assert_eq!(Pipeline::Color.get_attribute_count(), 6);
    assert_eq!(Pipeline::Uv.get_attribute_count(), 5);
    assert_eq!(Pipeline::ColorUv.get_attribute_count(), 8);
    assert_eq!(Pipeline::ColorLit.get_attribute_count(), 12);
    assert_eq!(Pipeline::UvLit.get_attribute_count(), 11);
    assert_eq!(Pipeline::ColorUvLit.get_attribute_count(), 14);
    assert_eq!(Pipeline::Quad2d.get_attribute_count(), 8);
    assert_eq!(Pipeline::Matcap.get_attribute_count(), 6);
    assert_eq!(Pipeline::MatcapColor.get_attribute_count(), 9);
    assert_eq!(Pipeline::MatcapUv.get_attribute_count(), 8);
    assert_eq!(Pipeline::MatcapColorUv.get_attribute_count(), 11);
}

#[test]
fn vertex_size_is_four_bytes_per_attribute() {
    for p in ALL_VARIANTS {
        assert_eq!(p.get_vertex_size(), p.get_attribute_count() * 4);
    }
    assert_eq!(Pipeline::ColorUvLit.get_vertex_size(), 56);
}

#[test]
fn shader_indices_enumerate_the_pipeline_table() {
    for (i, p) in ALL_VARIANTS.iter().enumerate() {
        assert_eq!(p.get_shader(), i);
    }
}

#[test]
fn can_reduce_requires_every_target_capability() {
    // The full lit layout can feed any narrower color/uv variant.
    assert!(Pipeline::ColorUvLit.can_reduce(Pipeline::Color));
    assert!(Pipeline::ColorUvLit.can_reduce(Pipeline::Uv));
    assert!(Pipeline::ColorUvLit.can_reduce(Pipeline::ColorUv));
    // A color-only layout cannot feed a uv variant, nor a lit one.
    assert!(!Pipeline::Color.can_reduce(Pipeline::Uv));
    assert!(!Pipeline::Color.can_reduce(Pipeline::ColorLit));
    // Every variant can feed itself.
    for p in ALL_VARIANTS {
        assert!(p.can_reduce(p));
    }
}

#[test]
fn lit_counterparts() {
    assert_eq!(Pipeline::Color.lit(), Pipeline::ColorLit);
    assert_eq!(Pipeline::Uv.lit(), Pipeline::UvLit);
    assert_eq!(Pipeline::ColorUv.lit(), Pipeline::ColorUvLit);
    assert_eq!(Pipeline::ColorLit.lit(), Pipeline::ColorLit);
    assert_eq!(Pipeline::UvLit.lit(), Pipeline::UvLit);
    assert_eq!(Pipeline::ColorUvLit.lit(), Pipeline::ColorUvLit);
}

#[test]
fn matcap_counterparts() {
    assert_eq!(Pipeline::Color.matcap(), Pipeline::MatcapColor);
    assert_eq!(Pipeline::Uv.matcap(), Pipeline::MatcapUv);
    assert_eq!(Pipeline::ColorUv.matcap(), Pipeline::MatcapColorUv);
    assert_eq!(Pipeline::Matcap.matcap(), Pipeline::Matcap);
    assert_eq!(Pipeline::MatcapColorUv.matcap(), Pipeline::MatcapColorUv);
}

#[test]
fn quad_index_list() {
    assert_eq!(quad_indices(), [0, 1, 2, 2, 3, 0]);
}
