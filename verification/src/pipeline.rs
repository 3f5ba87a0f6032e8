use vstd::prelude::*;
use crate::layout::{VertexBufferLayout, VertexStepMode};
use crate::geometry::{
    Vertex,
    Topology, shape_a_spec, shape_b_spec, triangle, winding, lemma_shape_a_closed_fan,
    lemma_shape_b_alternating_strip,
};

verus! {

/// Which winding of a triangle's vertices counts as its front.
#[derive(Clone, Copy, Debug, PartialEq, Eq, Structural)]
pub enum FrontFace {
    /// Counter-clockwise triangles face the viewer.
    Ccw,
    /// Clockwise triangles face the viewer.
    Cw,
}

/// Which side of a triangle a pipeline discards.
#[derive(Clone, Copy, Debug, PartialEq, Eq, Structural)]
pub enum Face {
    Front,
    Back,
}

/// How a fragment's colour is combined with what the target already holds.
#[derive(Clone, Copy, Debug, PartialEq, Eq, Structural)]
pub enum BlendMode {
    /// The fragment's colour replaces the target's.
    Replace,
}

/// How a pipeline assembles and keeps triangles: its topology, which winding
/// faces the viewer, and which faces it discards.
#[derive(Clone, Copy, Debug, PartialEq, Eq, Structural)]
pub struct PrimitiveConfig {
    pub topology: Topology,
    pub front_face: FrontFace,
    pub cull_mode: Option<Face>,
}

/// Which colour channels a pipeline writes to its target.
#[derive(Clone, Copy, Debug, PartialEq, Eq, Structural)]
pub struct ColorWrites {
    pub red: bool,
    pub green: bool,
    pub blue: bool,
    pub alpha: bool,
}

/// How many samples each pixel has, which of them are written, and whether
/// alpha decides coverage.
#[derive(Clone, Copy, Debug, PartialEq, Eq, Structural)]
pub struct MultisampleConfig {
    pub count: u32,
    pub mask: u64,
    pub alpha_to_coverage: bool,
}

/// The settings of a render pipeline: how it assembles triangles, how it
/// blends and which channels it writes, whether it has a depth-stencil stage,
/// its multisampling, the shader entry points of its vertex and fragment
/// stages, and the layouts of the vertex buffers it reads.
#[derive(Clone, Debug, PartialEq, Eq)]
pub struct PipelineConfig {
    pub primitive: PrimitiveConfig,
    pub blend: BlendMode,
    pub write_mask: ColorWrites,
    pub depth_stencil: bool,
    pub multisample: MultisampleConfig,
    pub vertex_entry: &'static str,
    pub fragment_entry: &'static str,
    pub vertex_buffers: Vec<VertexBufferLayout>,
}

/// The primitive settings for topology `t`: counter-clockwise front faces and
/// no culling (the strip's winding alternates).
pub open spec fn primitive_spec(t: Topology) -> PrimitiveConfig {
    PrimitiveConfig { topology: t, front_face: FrontFace::Ccw, cull_mode: None }
}

/// All four colour channels.
pub open spec fn all_channels() -> ColorWrites {
    ColorWrites { red: true, green: true, blue: true, alpha: true }
}

/// One sample per pixel, every sample written, alpha not used for coverage.
pub open spec fn single_sample() -> MultisampleConfig {
    MultisampleConfig { count: 1, mask: 0xffff_ffff_ffff_ffff, alpha_to_coverage: false }
}

/// `c` is the pipeline for topology `t`: the primitive settings of `t`,
/// replace blending onto all four channels, no depth-stencil stage, one
/// sample per pixel, entry points `vs_main` and `fs_main`, and one vertex
/// buffer laid out as `Vertex::layout()` lays it out.
pub open spec fn is_pipeline_for(c: PipelineConfig, t: Topology) -> bool {
    &&& c.primitive == primitive_spec(t)
    &&& c.blend == BlendMode::Replace
    &&& c.write_mask == all_channels()
    &&& !c.depth_stencil
    &&& c.multisample == single_sample()
    &&& c.vertex_entry@ == "vs_main"@
    &&& c.fragment_entry@ == "fs_main"@
    &&& c.vertex_buffers@.len() == 1
    &&& c.vertex_buffers@[0].array_stride == Vertex::byte_size()
    &&& c.vertex_buffers@[0].step_mode == VertexStepMode::Vertex
    &&& c.vertex_buffers@[0].attributes@ == Vertex::attributes_spec()
}

/// The settings of the pipeline that assembles triangles with topology `t`.
pub fn pipeline_config(t: Topology) -> (c: PipelineConfig)
    ensures
        is_pipeline_for(c, t),
{
    let mut vertex_buffers: Vec<VertexBufferLayout> = Vec::new();
    vertex_buffers.push(Vertex::layout());
    PipelineConfig {
        primitive: PrimitiveConfig { topology: t, front_face: FrontFace::Ccw, cull_mode: None },
        blend: BlendMode::Replace,
        write_mask: ColorWrites { red: true, green: true, blue: true, alpha: true },
        depth_stencil: false,
        multisample: MultisampleConfig {
            count: 1,
            mask: 0xffff_ffff_ffff_ffff,
            alpha_to_coverage: false,
        },
        vertex_entry: "vs_main",
        fragment_entry: "fs_main",
        vertex_buffers,
    }
}

/// The two pipelines are the same apart from their topology: any pipeline
/// for the list and any pipeline for the strip agree on every other setting.
pub proof fn lemma_pipelines_differ_only_in_topology(list: PipelineConfig, strip: PipelineConfig)
    requires
        is_pipeline_for(list, Topology::TriangleList),
        is_pipeline_for(strip, Topology::TriangleStrip),
    ensures
        list.primitive.topology == Topology::TriangleList,
        strip.primitive.topology == Topology::TriangleStrip,
        list.primitive.front_face == strip.primitive.front_face,
        list.primitive.cull_mode == strip.primitive.cull_mode,
        list.blend == strip.blend,
        list.write_mask == strip.write_mask,
        list.depth_stencil == strip.depth_stencil,
        list.multisample == strip.multisample,
        list.vertex_entry@ == strip.vertex_entry@,
        list.fragment_entry@ == strip.fragment_entry@,
        list.vertex_buffers@.len() == strip.vertex_buffers@.len(),
        list.vertex_buffers@[0].array_stride == strip.vertex_buffers@[0].array_stride,
        list.vertex_buffers@[0].step_mode == strip.vertex_buffers@[0].step_mode,
        list.vertex_buffers@[0].attributes@ == strip.vertex_buffers@[0].attributes@,
{
}

/// The shader stage that reads a binding.
#[derive(Clone, Copy, Debug, PartialEq, Eq, Structural)]
pub enum ShaderStage {
    Vertex,
    Fragment,
}

/// The layout of the tint binding: a uniform buffer at `@binding(binding)`,
/// read by stage `visibility`, at a fixed offset.
#[derive(Clone, Copy, Debug, PartialEq, Eq, Structural)]
pub struct UniformBindingLayout {
    pub binding: u32,
    pub visibility: ShaderStage,
    pub has_dynamic_offset: bool,
}

/// The tint binding: binding 0, read by the fragment stage, fixed offset.
pub open spec fn tint_binding_spec() -> UniformBindingLayout {
    UniformBindingLayout { binding: 0, visibility: ShaderStage::Fragment, has_dynamic_offset: false }
}

/// The layout of the tint binding that both pipelines share.
pub fn tint_binding() -> (l: UniformBindingLayout)
    ensures
        l == tint_binding_spec(),
{
    UniformBindingLayout { binding: 0, visibility: ShaderStage::Fragment, has_dynamic_offset: false }
}

/// What a GPU buffer may be used for.
#[derive(Clone, Copy, Debug, PartialEq, Eq, Structural)]
pub struct BufferUsages {
    pub vertex: bool,
    pub uniform: bool,
    pub copy_dst: bool,
}

/// Vertex buffers are only read as vertices; they are never updated.
pub fn vertex_buffer_usages() -> (u: BufferUsages)
    ensures
        u == (BufferUsages { vertex: true, uniform: false, copy_dst: false }),
{
    BufferUsages { vertex: true, uniform: false, copy_dst: false }
}

/// Tint buffers are read as uniforms and may be written to later.
pub fn tint_buffer_usages() -> (u: BufferUsages)
    ensures
        u == (BufferUsages { vertex: false, uniform: true, copy_dst: true }),
{
    BufferUsages { vertex: false, uniform: true, copy_dst: true }
}

/// Whether a triangle of the given winding faces the viewer under `front`.
pub open spec fn is_front(front: FrontFace, w: int) -> bool {
    match front {
        FrontFace::Ccw => w > 0,
        FrontFace::Cw => w < 0,
    }
}

/// Whether primitive settings `c` discard a triangle of winding `w`, its
/// facing judged from its vertices in stream order.
pub open spec fn culled(c: PrimitiveConfig, w: int) -> bool {
    match c.cull_mode {
        None => false,
        Some(Face::Front) => is_front(c.front_face, w),
        Some(Face::Back) => !is_front(c.front_face, w),
    }
}

/// Every triangle of both shapes reaches the screen: neither pipeline culls,
/// and every triangle of the fan faces the viewer.
pub proof fn lemma_nothing_culled()
    ensures
        forall|k: int| 0 <= k < 6 ==> {
            let w = winding(#[trigger] triangle(shape_a_spec(), Topology::TriangleList, k));
            &&& !culled(primitive_spec(Topology::TriangleList), w)
            &&& is_front(primitive_spec(Topology::TriangleList).front_face, w)
        },
        forall|k: int| 0 <= k < 4 ==>
            !culled(
                primitive_spec(Topology::TriangleStrip),
                winding(#[trigger] triangle(shape_b_spec(), Topology::TriangleStrip, k)),
            ),
{
    lemma_shape_a_closed_fan();
}

/// Why the strip pipeline does not cull: were it to discard back faces, with
/// facing judged from the vertices in stream order, exactly the odd triangles
/// of the band would be lost.
pub proof fn lemma_back_culling_would_drop_odd_strip_triangles()
    ensures
        forall|k: int| 0 <= k < 4 ==> (culled(
            PrimitiveConfig { cull_mode: Some(Face::Back), ..primitive_spec(Topology::TriangleStrip) },
            winding(#[trigger] triangle(shape_b_spec(), Topology::TriangleStrip, k)),
        ) <==> k % 2 == 1),
{
    lemma_shape_b_alternating_strip();
}

} // verus!
