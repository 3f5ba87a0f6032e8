use vstd::prelude::*;
use crate::geometry::Vertex;

verus! {

/// Bytes that one 32-bit float component occupies in a GPU buffer.
pub const F32_BYTES: u64 = 4;

/// The format in which the shader reads one vertex attribute.
#[derive(Clone, Copy, Debug, PartialEq, Eq, Structural)]
pub enum VertexFormat {
    /// Two 32-bit floats, a `vec2<f32>` in the shader.
    Float32x2,
    /// Three 32-bit floats, a `vec3<f32>` in the shader.
    Float32x3,
}

impl VertexFormat {
    /// The number of float components of the format.
    pub open spec fn components(self) -> nat {
        match self {
            VertexFormat::Float32x2 => 2,
            VertexFormat::Float32x3 => 3,
        }
    }

    /// The bytes one value of the format occupies.
    pub open spec fn byte_size(self) -> nat {
        self.components() * 4
    }

    /// The bytes one value of the format occupies.
    pub fn size(&self) -> (n: u64)
        ensures
            n == self.byte_size(),
    {
        match self {
            VertexFormat::Float32x2 => 2 * F32_BYTES,
            VertexFormat::Float32x3 => 3 * F32_BYTES,
        }
    }
}

/// Whether the buffer advances once per vertex or once per instance.
#[derive(Clone, Copy, Debug, PartialEq, Eq, Structural)]
pub enum VertexStepMode {
    Vertex,
    Instance,
}

/// One attribute of a vertex: where it starts in the vertex, how it is read,
/// and at which `@location` the shader receives it.
#[derive(Clone, Copy, Debug, PartialEq, Eq, Structural)]
pub struct VertexAttribute {
    pub format: VertexFormat,
    pub offset: u64,
    pub shader_location: u32,
}

/// How the GPU unpacks each vertex from the raw bytes of a vertex buffer.
#[derive(Clone, Debug, PartialEq, Eq)]
pub struct VertexBufferLayout {
    pub array_stride: u64,
    pub step_mode: VertexStepMode,
    pub attributes: Vec<VertexAttribute>,
}

/// A layout whose attributes are packed one after the other without gaps,
/// starting at offset 0, read at shader locations 0, 1, 2, ... in that order,
/// and whose last attribute ends exactly at the stride.
pub open spec fn is_packed(stride: nat, attrs: Seq<VertexAttribute>) -> bool {
    &&& attrs.len() > 0
    &&& attrs[0].offset == 0
    &&& forall|i: int| 0 <= i < attrs.len() ==> (#[trigger] attrs[i]).shader_location == i
    &&& forall|i: int| 0 <= i < attrs.len() - 1 ==>
            #[trigger] attrs[i + 1].offset == attrs[i].offset + attrs[i].format.byte_size()
    &&& attrs.last().offset + attrs.last().format.byte_size() == stride
}

impl Vertex {
    /// The bytes one vertex occupies: two position and three colour floats.
    pub open spec fn byte_size() -> nat {
        (2 + 3) * 4
    }

    /// The attributes of a vertex: the position, read as `vec2<f32>` at
    /// location 0 from offset 0, then the colour, read as `vec3<f32>` at
    /// location 1 from the offset just past the position.
    pub open spec fn attributes_spec() -> Seq<VertexAttribute> {
        seq![
            VertexAttribute { format: VertexFormat::Float32x2, offset: 0, shader_location: 0 },
            VertexAttribute { format: VertexFormat::Float32x3, offset: 8, shader_location: 1 },
        ]
    }

    /// How to unpack each vertex from the vertex buffer: one vertex per step,
    /// 20 bytes apart, position at offset 0 and colour at offset 8.
    pub fn layout() -> (l: VertexBufferLayout)
        ensures
            l.array_stride == Vertex::byte_size(),
            l.step_mode == VertexStepMode::Vertex,
            l.attributes@ == Vertex::attributes_spec(),
    {
        let position_bytes = VertexFormat::Float32x2.size();
        let color_bytes = VertexFormat::Float32x3.size();
        let mut attributes: Vec<VertexAttribute> = Vec::new();
        attributes.push(VertexAttribute {
            format: VertexFormat::Float32x2,
            offset: 0,
            shader_location: 0,
        });
        attributes.push(VertexAttribute {
            format: VertexFormat::Float32x3,
            offset: position_bytes,
            shader_location: 1,
        });
        assert(attributes@ =~= Vertex::attributes_spec());
        VertexBufferLayout {
            array_stride: position_bytes + color_bytes,
            step_mode: VertexStepMode::Vertex,
            attributes,
        }
    }
}

/// The vertex layout agrees with the vertex itself: its attributes are packed
/// without gaps or overlap in field order, the format of each attribute holds
/// exactly the components of its field (two for the position, three for the
/// colour), and the stride is the size of a vertex.
pub proof fn lemma_vertex_layout_packed()
    ensures
        is_packed(Vertex::byte_size(), Vertex::attributes_spec()),
        Vertex::attributes_spec()[0].format.components() == 2,
        Vertex::attributes_spec()[1].format.components() == 3,
{
    let attrs = Vertex::attributes_spec();
    assert(attrs[0].shader_location == 0);
    assert(attrs[1].shader_location == 1);
}

} // verus!
