use lab1::geometry::{shape_a, shape_b, Topology};
use lab1::geometry::Vertex;
use lab1::pipeline::{
    pipeline_config, tint_binding, tint_buffer_usages, vertex_buffer_usages, BlendMode,
    BufferUsages, ColorWrites, FrontFace, MultisampleConfig, PipelineConfig, PrimitiveConfig,
    ShaderStage, UniformBindingLayout,
};

#[test]
fn pipeline_configs_exact() {
    for t in [Topology::TriangleList, Topology::TriangleStrip] {
        assert_eq!(
            pipeline_config(t),
            PipelineConfig {
                primitive: PrimitiveConfig { topology: t, front_face: FrontFace::Ccw, cull_mode: None },
                blend: BlendMode::Replace,
                write_mask: ColorWrites { red: true, green: true, blue: true, alpha: true },
                depth_stencil: false,
                multisample: MultisampleConfig { count: 1, mask: u64::MAX, alpha_to_coverage: false },
                vertex_entry: "vs_main",
                fragment_entry: "fs_main",
                vertex_buffers: vec![Vertex::layout()],
            }
        );
    }
}

#[test]
fn pipelines_differ_only_in_topology() {
    let list = pipeline_config(Topology::TriangleList);
    let mut strip = pipeline_config(Topology::TriangleStrip);
    assert_ne!(list, strip);
    strip.primitive.topology = Topology::TriangleList;
    assert_eq!(list, strip);
}

#[test]
fn binding_and_usages_exact() {
    assert_eq!(
        tint_binding(),
        UniformBindingLayout { binding: 0, visibility: ShaderStage::Fragment, has_dynamic_offset: false }
    );
    assert_eq!(vertex_buffer_usages(), BufferUsages { vertex: true, uniform: false, copy_dst: false });
    assert_eq!(tint_buffer_usages(), BufferUsages { vertex: false, uniform: true, copy_dst: true });
}

fn winding(s: &[lab1::geometry::Vertex], i: usize, j: usize, k: usize) -> i64 {
    let (a, b, c) = (s[i], s[j], s[k]);
    (b.x as i64 - a.x as i64) * (c.y as i64 - a.y as i64)
        - (b.y as i64 - a.y as i64) * (c.x as i64 - a.x as i64)
}

#[test]
fn no_triangle_culled_and_fan_front_facing() {
    assert_eq!(pipeline_config(Topology::TriangleList).primitive.cull_mode, None);
    assert_eq!(pipeline_config(Topology::TriangleStrip).primitive.cull_mode, None);
    let a = shape_a();
    for k in 0..6 {
        assert!(winding(&a, 3 * k, 3 * k + 1, 3 * k + 2) > 0);
    }
}

#[test]
fn back_culling_would_drop_odd_strip_triangles() {
    let b = shape_b();
    let dropped: Vec<bool> = (0..4).map(|k| winding(&b, k, k + 1, k + 2) <= 0).collect();
    assert_eq!(dropped, vec![false, true, false, true]);
}
