use lab1::layout::{VertexAttribute, VertexFormat, VertexStepMode, F32_BYTES};
use lab1::geometry::Vertex;

#[test]
fn vertex_layout_exact() {
    let l = Vertex::layout();
    assert_eq!(l.array_stride, 20);
    assert_eq!(l.step_mode, VertexStepMode::Vertex);
    assert_eq!(
        l.attributes,
        vec![
            VertexAttribute { format: VertexFormat::Float32x2, offset: 0, shader_location: 0 },
            VertexAttribute { format: VertexFormat::Float32x3, offset: 8, shader_location: 1 },
        ]
    );
}

#[test]
fn vertex_layout_is_packed() {
    let l = Vertex::layout();
    let mut end = 0;
    for (i, a) in l.attributes.iter().enumerate() {
        assert_eq!(a.offset, end);
        assert_eq!(a.shader_location as usize, i);
        end += a.format.size();
    }
    assert_eq!(end, l.array_stride);
}

#[test]
fn format_sizes() {
    assert_eq!(F32_BYTES, 4);
    assert_eq!(VertexFormat::Float32x2.size(), 8);
    assert_eq!(VertexFormat::Float32x3.size(), 12);
}
