use lab1::geometry::{shape_a, shape_b, Topology};
use lab1::state::{
    clear_color, color_ops, tint, ColorOps, LoadOp, StoreOp, topology, ColorUniform, FrameStep, RenderCommand, Rgba, ShapeId, State,
    SurfaceSize, SurfaceStatus,
};

#[test]
fn new_state_holds_both_shapes() {
    let s = State::new();
    assert_eq!(*s.vertices(ShapeId::A), shape_a());
    assert_eq!(*s.vertices(ShapeId::B), shape_b());
    assert_eq!(s.num_vertices(ShapeId::A), 18);
    assert_eq!(s.num_vertices(ShapeId::B), 6);
    assert_eq!(s.vertices(ShapeId::A).len(), 18);
    assert_eq!(s.vertices(ShapeId::B).len(), 6);
}

#[test]
fn tints_exact() {
    let s = State::new();
    let identity = ColorUniform { tint: Rgba { r: 100, g: 100, b: 100, a: 100 } };
    let warm = ColorUniform { tint: Rgba { r: 100, g: 85, b: 65, a: 100 } };
    assert_eq!(tint(ShapeId::A), identity);
    assert_eq!(tint(ShapeId::B), warm);
    assert_eq!(s.tint_of(ShapeId::A), identity);
    assert_eq!(s.tint_of(ShapeId::B), warm);
}

#[test]
fn topologies_and_clear_colour() {
    assert_eq!(topology(ShapeId::A), Topology::TriangleList);
    assert_eq!(topology(ShapeId::B), Topology::TriangleStrip);
    assert_eq!(clear_color(), Rgba { r: 5, g: 5, b: 8, a: 100 });
    assert_eq!(
        color_ops(),
        ColorOps { load: LoadOp::Clear(Rgba { r: 5, g: 5, b: 8, a: 100 }), store: StoreOp::Store }
    );
}

#[test]
fn render_pass_draws_each_shape_whole() {
    let s = State::new();
    let cmds = s.render_commands();
    assert_eq!(
        cmds,
        vec![
            RenderCommand::SetBindGroup { index: 0, shape: ShapeId::A },
            RenderCommand::SetPipeline { topology: Topology::TriangleList },
            RenderCommand::SetVertexBuffer { slot: 0, shape: ShapeId::A },
            RenderCommand::Draw { first_vertex: 0, end_vertex: 18, first_instance: 0, end_instance: 1 },
            RenderCommand::SetBindGroup { index: 0, shape: ShapeId::B },
            RenderCommand::SetPipeline { topology: Topology::TriangleStrip },
            RenderCommand::SetVertexBuffer { slot: 0, shape: ShapeId::B },
            RenderCommand::Draw { first_vertex: 0, end_vertex: 6, first_instance: 0, end_instance: 1 },
        ]
    );
}

#[test]
fn frame_steps_for_every_status() {
    assert_eq!(State::frame_step(SurfaceStatus::Success), FrameStep::Draw);
    assert_eq!(State::frame_step(SurfaceStatus::Suboptimal), FrameStep::Draw);
    assert_eq!(State::frame_step(SurfaceStatus::Outdated), FrameStep::Reconfigure);
    assert_eq!(State::frame_step(SurfaceStatus::Lost), FrameStep::Reconfigure);
    assert_eq!(State::frame_step(SurfaceStatus::Unconfigured), FrameStep::Skip);
    assert_eq!(State::frame_step(SurfaceStatus::Timeout), FrameStep::Skip);
    assert_eq!(State::frame_step(SurfaceStatus::Occluded), FrameStep::Skip);
    assert_eq!(State::frame_step(SurfaceStatus::Validation), FrameStep::Fail);
}

#[test]
fn frame_fails_only_on_validation() {
    let all = [
        SurfaceStatus::Unconfigured,
        SurfaceStatus::Success,
        SurfaceStatus::Suboptimal,
        SurfaceStatus::Timeout,
        SurfaceStatus::Occluded,
        SurfaceStatus::Outdated,
        SurfaceStatus::Lost,
        SurfaceStatus::Validation,
    ];
    for st in all {
        let r = State::frame_step(st).result();
        assert_eq!(r.is_err(), st == SurfaceStatus::Validation);
    }
    assert_eq!(FrameStep::Fail.result(), Err(()));
    assert_eq!(FrameStep::Draw.result(), Ok(()));
}

#[test]
fn surface_configured_only_on_positive_resize() {
    let mut s = SurfaceSize::new(1280, 720);
    assert!(!s.configured);
    assert!(!s.resize(0, 600));
    assert_eq!(s, SurfaceSize { width: 1280, height: 720, configured: false });
    assert!(s.resize(800, 600));
    assert_eq!(s, SurfaceSize { width: 800, height: 600, configured: true });
    assert!(!s.resize(800, 0));
    assert_eq!(s, SurfaceSize { width: 800, height: 600, configured: true });
}
