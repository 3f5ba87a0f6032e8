use vstd::prelude::*;
use crate::geometry::{
    Vertex, Topology, shape_a, shape_b, shape_a_spec, shape_b_spec, triangle_count,
    lemma_shape_a_closed_fan, lemma_shape_b_alternating_strip,
};

verus! {

/// A colour with alpha, in hundredths (100 stands for 1.0).
#[derive(Clone, Copy, Debug, PartialEq, Eq, Structural)]
pub struct Rgba {
    pub r: i32,
    pub g: i32,
    pub b: i32,
    pub a: i32,
}

/// The uniform that the fragment shader multiplies each vertex colour by.
#[derive(Clone, Copy, Debug, PartialEq, Eq, Structural)]
pub struct ColorUniform {
    pub tint: Rgba,
}

/// One of the two shapes of the scene.
#[derive(Clone, Copy, Debug, PartialEq, Eq, Structural)]
pub enum ShapeId {
    /// The hexagonal colour fan on the left.
    A,
    /// The diagonal colour band on the right.
    B,
}

/// The vertices of each shape.
pub open spec fn shape_spec(id: ShapeId) -> Seq<Vertex> {
    match id {
        ShapeId::A => shape_a_spec(),
        ShapeId::B => shape_b_spec(),
    }
}

/// The topology of the pipeline that draws each shape: the fan as a triangle
/// list, the band as a triangle strip.
pub open spec fn topology_spec(id: ShapeId) -> Topology {
    match id {
        ShapeId::A => Topology::TriangleList,
        ShapeId::B => Topology::TriangleStrip,
    }
}

/// The tint of each shape: the identity for the fan, a warm tint that damps
/// green and blue for the band.
pub open spec fn tint_spec(id: ShapeId) -> ColorUniform {
    match id {
        ShapeId::A => ColorUniform { tint: Rgba { r: 100, g: 100, b: 100, a: 100 } },
        ShapeId::B => ColorUniform { tint: Rgba { r: 100, g: 85, b: 65, a: 100 } },
    }
}

/// The topology of the pipeline that draws shape `id`.
pub fn topology(id: ShapeId) -> (t: Topology)
    ensures
        t == topology_spec(id),
{
    match id {
        ShapeId::A => Topology::TriangleList,
        ShapeId::B => Topology::TriangleStrip,
    }
}

/// The tint uniform of shape `id`.
pub fn tint(id: ShapeId) -> (u: ColorUniform)
    ensures
        u == tint_spec(id),
{
    match id {
        ShapeId::A => ColorUniform { tint: Rgba { r: 100, g: 100, b: 100, a: 100 } },
        ShapeId::B => ColorUniform { tint: Rgba { r: 100, g: 85, b: 65, a: 100 } },
    }
}

/// The colour the frame is cleared to before the shapes are drawn: a near-black blue.
pub fn clear_color() -> (c: Rgba)
    ensures
        c == (Rgba { r: 5, g: 5, b: 8, a: 100 }),
{
    Rgba { r: 5, g: 5, b: 8, a: 100 }
}

/// What the render pass does with the target before drawing.
#[derive(Clone, Copy, Debug, PartialEq, Eq, Structural)]
pub enum LoadOp {
    /// Fill the target with this colour.
    Clear(Rgba),
    /// Keep what the target holds.
    Load,
}

/// What the render pass does with what it drew.
#[derive(Clone, Copy, Debug, PartialEq, Eq, Structural)]
pub enum StoreOp {
    /// Write it to the target.
    Store,
    /// Throw it away.
    Discard,
}

/// The load and store operations of the render pass's colour target.
#[derive(Clone, Copy, Debug, PartialEq, Eq, Structural)]
pub struct ColorOps {
    pub load: LoadOp,
    pub store: StoreOp,
}

/// Each frame starts from the clear colour and keeps what it draws.
pub fn color_ops() -> (o: ColorOps)
    ensures
        o == (ColorOps { load: LoadOp::Clear(Rgba { r: 5, g: 5, b: 8, a: 100 }), store: StoreOp::Store }),
{
    ColorOps { load: LoadOp::Clear(clear_color()), store: StoreOp::Store }
}

/// What the scene holds once it is set up: the contents of the two vertex
/// buffers, how many vertices each draw covers, and the two tint uniforms.
#[derive(Debug)]
pub struct State {
    vertices_a: Vec<Vertex>,
    num_vertices_a: u32,
    vertices_b: Vec<Vertex>,
    num_vertices_b: u32,
    tint_a: ColorUniform,
    tint_b: ColorUniform,
}

/// One command of the render pass, in the order the pass records it.
#[derive(Clone, Copy, Debug, PartialEq, Eq, Structural)]
pub enum RenderCommand {
    /// Bind the tint uniform of `shape` at bind group slot `index`.
    SetBindGroup { index: u32, shape: ShapeId },
    /// Switch to the pipeline that assembles triangles with `topology`.
    SetPipeline { topology: Topology },
    /// Read vertices from the buffer of `shape` through vertex buffer slot `slot`.
    SetVertexBuffer { slot: u32, shape: ShapeId },
    /// Draw the vertices `first_vertex..end_vertex` for the instances
    /// `first_instance..end_instance`.
    Draw { first_vertex: u32, end_vertex: u32, first_instance: u32, end_instance: u32 },
}

/// The outcome of asking the surface for the texture of the next frame.
#[derive(Clone, Copy, Debug, PartialEq, Eq, Structural)]
pub enum SurfaceStatus {
    /// The surface is not configured yet, so no texture was asked for.
    Unconfigured,
    /// A texture was acquired.
    Success,
    /// A texture was acquired, but the surface should be configured again.
    Suboptimal,
    /// Acquiring the texture timed out.
    Timeout,
    /// The window is occluded.
    Occluded,
    /// The surface configuration is outdated.
    Outdated,
    /// The surface was lost.
    Lost,
    /// Acquiring the texture raised a validation error.
    Validation,
}

/// What one frame does after asking for its texture.
#[derive(Clone, Copy, Debug, PartialEq, Eq, Structural)]
pub enum FrameStep {
    /// Record the render pass, submit it and present the texture; the frame succeeds.
    Draw,
    /// Configure the surface again and draw nothing; the frame succeeds.
    Reconfigure,
    /// Draw nothing; the frame succeeds.
    Skip,
    /// Draw nothing; the frame fails.
    Fail,
}

impl FrameStep {
    /// Whether the frame counts as a success.
    pub open spec fn succeeds(self) -> bool {
        self != FrameStep::Fail
    }

    /// The result the frame reports: `Err` exactly for a failed frame.
    pub fn result(&self) -> (r: Result<(), ()>)
        ensures
            r is Ok <==> self.succeeds(),
    {
        match self {
            FrameStep::Fail => Err(()),
            _ => Ok(()),
        }
    }
}

/// What a frame does given what the surface answered: draw on an acquired
/// texture (also a suboptimal one), configure the surface again when it is
/// outdated or lost, skip the frame when the surface is not configured, timed
/// out or occluded, and fail on a validation error.
pub open spec fn frame_step_spec(status: SurfaceStatus) -> FrameStep {
    match status {
        SurfaceStatus::Success | SurfaceStatus::Suboptimal => FrameStep::Draw,
        SurfaceStatus::Outdated | SurfaceStatus::Lost => FrameStep::Reconfigure,
        SurfaceStatus::Unconfigured | SurfaceStatus::Timeout
            | SurfaceStatus::Occluded => FrameStep::Skip,
        SurfaceStatus::Validation => FrameStep::Fail,
    }
}

/// The render pass of a scene whose draws cover `na` and `nb` vertices:
/// for each shape in turn, its tint, its pipeline, its vertex buffer, and one
/// instance of all its vertices.
pub open spec fn render_commands_spec(na: u32, nb: u32) -> Seq<RenderCommand> {
    seq![
        RenderCommand::SetBindGroup { index: 0, shape: ShapeId::A },
        RenderCommand::SetPipeline { topology: Topology::TriangleList },
        RenderCommand::SetVertexBuffer { slot: 0, shape: ShapeId::A },
        RenderCommand::Draw { first_vertex: 0, end_vertex: na, first_instance: 0, end_instance: 1 },
        RenderCommand::SetBindGroup { index: 0, shape: ShapeId::B },
        RenderCommand::SetPipeline { topology: Topology::TriangleStrip },
        RenderCommand::SetVertexBuffer { slot: 0, shape: ShapeId::B },
        RenderCommand::Draw { first_vertex: 0, end_vertex: nb, first_instance: 0, end_instance: 1 },
    ]
}

impl State {
    /// The scene is consistent: each buffer holds its shape, each draw covers
    /// exactly the vertices of its buffer, and each shape has its tint.
    pub open spec fn wf(&self) -> bool {
        forall|id: ShapeId| {
            &&& #[trigger] self.vertices_spec(id) == shape_spec(id)
            &&& self.num_vertices_spec(id) == self.vertices_spec(id).len()
            &&& self.tint_spec_of(id) == tint_spec(id)
        }
    }

    /// The vertices in the buffer of shape `id`.
    pub closed spec fn vertices_spec(&self, id: ShapeId) -> Seq<Vertex> {
        match id {
            ShapeId::A => self.vertices_a@,
            ShapeId::B => self.vertices_b@,
        }
    }

    /// The number of vertices the draw of shape `id` covers.
    pub closed spec fn num_vertices_spec(&self, id: ShapeId) -> u32 {
        match id {
            ShapeId::A => self.num_vertices_a,
            ShapeId::B => self.num_vertices_b,
        }
    }

    /// The tint uniform the scene holds for shape `id`.
    pub closed spec fn tint_spec_of(&self, id: ShapeId) -> ColorUniform {
        match id {
            ShapeId::A => self.tint_a,
            ShapeId::B => self.tint_b,
        }
    }

    /// Sets the scene up: the fan and the band as vertex buffers, each draw
    /// covering all the vertices of its buffer, the identity tint for the fan
    /// and the warm tint for the band.
    pub fn new() -> (s: State)
        ensures
            s.wf(),
    {
        let vertices_a = shape_a();
        let vertices_b = shape_b();
        let num_vertices_a = vertices_a.len() as u32;
        let num_vertices_b = vertices_b.len() as u32;
        let s = State {
            vertices_a,
            num_vertices_a,
            vertices_b,
            num_vertices_b,
            tint_a: tint(ShapeId::A),
            tint_b: tint(ShapeId::B),
        };
        assert forall|id: ShapeId| {
            &&& #[trigger] s.vertices_spec(id) == shape_spec(id)
            &&& s.num_vertices_spec(id) == s.vertices_spec(id).len()
            &&& s.tint_spec_of(id) == tint_spec(id)
        } by {
            match id {
                ShapeId::A => {},
                ShapeId::B => {},
            }
        }
        s
    }

    /// The number of vertices the draw of shape `id` covers.
    pub fn num_vertices(&self, id: ShapeId) -> (n: u32)
        ensures
            n == self.num_vertices_spec(id),
    {
        match id {
            ShapeId::A => self.num_vertices_a,
            ShapeId::B => self.num_vertices_b,
        }
    }

    /// The vertices in the buffer of shape `id`.
    pub fn vertices(&self, id: ShapeId) -> (v: &Vec<Vertex>)
        ensures
            v@ == self.vertices_spec(id),
    {
        match id {
            ShapeId::A => &self.vertices_a,
            ShapeId::B => &self.vertices_b,
        }
    }

    /// The tint uniform of shape `id` held by the scene.
    pub fn tint_of(&self, id: ShapeId) -> (u: ColorUniform)
        ensures
            u == self.tint_spec_of(id),
    {
        match id {
            ShapeId::A => self.tint_a,
            ShapeId::B => self.tint_b,
        }
    }

    /// What a frame does given what the surface answered.
    pub fn frame_step(status: SurfaceStatus) -> (step: FrameStep)
        ensures
            step == frame_step_spec(status),
    {
        match status {
            SurfaceStatus::Success | SurfaceStatus::Suboptimal => FrameStep::Draw,
            SurfaceStatus::Outdated | SurfaceStatus::Lost => FrameStep::Reconfigure,
            SurfaceStatus::Unconfigured | SurfaceStatus::Timeout
                | SurfaceStatus::Occluded => FrameStep::Skip,
            SurfaceStatus::Validation => FrameStep::Fail,
        }
    }

    /// The commands of the render pass of a frame that draws.
    pub fn render_commands(&self) -> (cmds: Vec<RenderCommand>)
        ensures
            cmds@ == render_commands_spec(
                self.num_vertices_spec(ShapeId::A),
                self.num_vertices_spec(ShapeId::B),
            ),
    {
        let mut cmds: Vec<RenderCommand> = Vec::new();
        cmds.push(RenderCommand::SetBindGroup { index: 0, shape: ShapeId::A });
        cmds.push(RenderCommand::SetPipeline { topology: topology(ShapeId::A) });
        cmds.push(RenderCommand::SetVertexBuffer { slot: 0, shape: ShapeId::A });
        cmds.push(RenderCommand::Draw {
            first_vertex: 0,
            end_vertex: self.num_vertices_a,
            first_instance: 0,
            end_instance: 1,
        });
        cmds.push(RenderCommand::SetBindGroup { index: 0, shape: ShapeId::B });
        cmds.push(RenderCommand::SetPipeline { topology: topology(ShapeId::B) });
        cmds.push(RenderCommand::SetVertexBuffer { slot: 0, shape: ShapeId::B });
        cmds.push(RenderCommand::Draw {
            first_vertex: 0,
            end_vertex: self.num_vertices_b,
            first_instance: 0,
            end_instance: 1,
        });
        assert(cmds@ =~= render_commands_spec(self.num_vertices_a, self.num_vertices_b));
        cmds
    }
}

/// Where the commands of shape `id` start in the render pass.
pub open spec fn pass_slot(id: ShapeId) -> int {
    match id {
        ShapeId::A => 0,
        ShapeId::B => 4,
    }
}

/// The four commands of the render pass that draw shape `id`.
pub open spec fn commands_of(cmds: Seq<RenderCommand>, id: ShapeId) -> Seq<RenderCommand> {
    cmds.subrange(pass_slot(id), pass_slot(id) + 4)
}

/// The render pass of a set-up scene draws each shape whole and once: it binds
/// the shape's tint, switches to the pipeline of the shape's topology, reads the
/// shape's buffer, and draws one instance of every vertex in that buffer; the
/// fan so makes six triangles and the band four.
pub proof fn lemma_render_pass_draws_each_shape(s: State)
    requires
        s.wf(),
    ensures
        render_commands_spec(s.num_vertices_spec(ShapeId::A), s.num_vertices_spec(ShapeId::B)).len() == 8,
        forall|id: ShapeId| #[trigger] commands_of(render_commands_spec(s.num_vertices_spec(ShapeId::A), s.num_vertices_spec(ShapeId::B)), id) == seq![
            RenderCommand::SetBindGroup { index: 0, shape: id },
            RenderCommand::SetPipeline { topology: topology_spec(id) },
            RenderCommand::SetVertexBuffer { slot: 0, shape: id },
            RenderCommand::Draw {
                first_vertex: 0,
                end_vertex: s.vertices_spec(id).len() as u32,
                first_instance: 0,
                end_instance: 1,
            },
        ],
        triangle_count(topology_spec(ShapeId::A), s.vertices_spec(ShapeId::A).len()) == 6,
        triangle_count(topology_spec(ShapeId::B), s.vertices_spec(ShapeId::B).len()) == 4,
{
    let cmds = render_commands_spec(s.num_vertices_spec(ShapeId::A), s.num_vertices_spec(ShapeId::B));
    lemma_shape_a_closed_fan();
    lemma_shape_b_alternating_strip();
    assert forall|id: ShapeId| #[trigger] commands_of(cmds, id) == seq![
        RenderCommand::SetBindGroup { index: 0, shape: id },
        RenderCommand::SetPipeline { topology: topology_spec(id) },
        RenderCommand::SetVertexBuffer { slot: 0, shape: id },
        RenderCommand::Draw {
            first_vertex: 0,
            end_vertex: s.vertices_spec(id).len() as u32,
            first_instance: 0,
            end_instance: 1,
        },
    ] by {
        assert(commands_of(cmds, id) =~= seq![
            RenderCommand::SetBindGroup { index: 0, shape: id },
            RenderCommand::SetPipeline { topology: topology_spec(id) },
            RenderCommand::SetVertexBuffer { slot: 0, shape: id },
            RenderCommand::Draw {
                first_vertex: 0,
                end_vertex: s.vertices_spec(id).len() as u32,
                first_instance: 0,
                end_instance: 1,
            },
        ]);
    }
}

/// The size the window surface is configured to, and whether it has been
/// configured at all.
#[derive(Clone, Copy, Debug, PartialEq, Eq, Structural)]
pub struct SurfaceSize {
    pub width: u32,
    pub height: u32,
    pub configured: bool,
}

/// The surface after a resize to `width` x `height`: configured to that size
/// when both are positive, unchanged when either is zero (a minimised window
/// has no surface to draw to).
pub open spec fn resized_spec(s: SurfaceSize, width: u32, height: u32) -> SurfaceSize {
    if width > 0 && height > 0 {
        SurfaceSize { width, height, configured: true }
    } else {
        s
    }
}

impl SurfaceSize {
    /// A surface of `width` x `height` that has not been configured yet.
    pub fn new(width: u32, height: u32) -> (s: SurfaceSize)
        ensures
            s == (SurfaceSize { width, height, configured: false }),
    {
        SurfaceSize { width, height, configured: false }
    }

    /// Resizes the surface; returns whether the surface must be configured
    /// again, which is exactly when both sides are positive.
    pub fn resize(&mut self, width: u32, height: u32) -> (configure: bool)
        ensures
            configure == (width > 0 && height > 0),
            *final(self) == resized_spec(*old(self), width, height),
            width > 0 && height > 0 ==> final(self).width == width && final(self).height == height
                && final(self).configured,
            !(width > 0 && height > 0) ==> *final(self) == *old(self),
    {
        if width > 0 && height > 0 {
            self.width = width;
            self.height = height;
            self.configured = true;
            true
        } else {
            false
        }
    }
}

/// A resize with both sides positive configures the surface to exactly the
/// requested size, whatever it held before (configured or not, any earlier
/// size), so every later positive resize moves the surface to the new size.
pub proof fn lemma_positive_resize_takes_requested_size(s: SurfaceSize, width: u32, height: u32)
    requires
        width > 0,
        height > 0,
    ensures
        resized_spec(s, width, height).width == width,
        resized_spec(s, width, height).height == height,
        resized_spec(s, width, height).configured,
{
}

/// A configured surface stays configured, and a resize with a zero side
/// changes nothing.
pub proof fn lemma_resize_keeps_configured(s: SurfaceSize, width: u32, height: u32)
    ensures
        s.configured ==> resized_spec(s, width, height).configured,
        (width == 0 || height == 0) ==> resized_spec(s, width, height) == s,
{
}

/// A frame fails only on a validation error, and draws only on an acquired
/// texture: every other answer of the surface ends the frame successfully
/// without drawing.
pub proof fn lemma_frame_fails_only_on_validation(status: SurfaceStatus)
    ensures
        !frame_step_spec(status).succeeds() <==> status == SurfaceStatus::Validation,
        frame_step_spec(status) == FrameStep::Draw
            <==> (status == SurfaceStatus::Success || status == SurfaceStatus::Suboptimal),
{
}

/// The fan's tint is the identity, 1.0 on every channel; the band's tint keeps
/// red and alpha at 1.0 and multiplies green and blue by less than one.
pub proof fn lemma_tints()
    ensures
        tint_spec(ShapeId::A).tint == (Rgba { r: 100, g: 100, b: 100, a: 100 }),
        tint_spec(ShapeId::B).tint.r == 100,
        tint_spec(ShapeId::B).tint.a == 100,
        0 <= tint_spec(ShapeId::B).tint.g < 100,
        0 <= tint_spec(ShapeId::B).tint.b < 100,
{
}

} // verus!
