use offscreen_render::pipeline::{Blend, ColorFormat, Cull, Stages, Topology};
use offscreen_render::session::{
    RenderResolution, Session, SessionConfig, SetupError, Startup, QUAD_VERTICES,
};
use offscreen_render::uniform::GlobalsUniform;

fn start(width: u32, height: u32, handle: u64) -> Session {
    let res = RenderResolution::new(width, height).unwrap();
    Startup::new(res)
        .shader_compiled(true)
        .unwrap()
        .target_allocated(Some((width, height)))
        .unwrap()
        .texture_registered(handle)
}

#[test]
fn resolution_rejects_zero_sides() {
    assert!(RenderResolution::new(0, 600).is_none());
    assert!(RenderResolution::new(800, 0).is_none());
    let r = RenderResolution::new(800, 600).unwrap();
    assert_eq!((r.width(), r.height()), (800, 600));
}

#[test]
fn default_config_is_800_by_600_in_820_by_680() {
    let c = SessionConfig::default();
    assert_eq!((c.window_width, c.window_height), (820, 680));
    assert_eq!((c.render.width(), c.render.height()), (800, 600));
}

#[test]
fn startup_describes_pipeline_and_target() {
    let startup = Startup::new(RenderResolution::new(800, 600).unwrap());
    let p = startup.pipeline();
    assert_eq!(p.binding.slot, 0);
    assert_eq!(p.binding.visibility, Stages::Fragment);
    assert_eq!(p.binding.size, 16);
    assert_eq!(p.vertex_buffers, 0);
    assert_eq!(p.topology, Topology::TriangleList);
    assert_eq!(p.cull, Cull::Back);
    assert_eq!(p.blend, Blend::Replace);
    assert_eq!(p.format, ColorFormat::Rgba8Unorm);
    assert!(!p.depth_stencil);
    assert_eq!(p.samples, 1);
    assert_eq!(
        startup.initial_uniform().to_bytes(),
        GlobalsUniform::new(800, 600, 0).to_bytes()
    );
    let compiled = startup.shader_compiled(true).unwrap();
    let t = compiled.target();
    assert_eq!((t.width, t.height, t.format), (800, 600, ColorFormat::Rgba8Unorm));
    assert!(t.render_attachment && t.sampled && t.copy_source);
}

#[test]
fn shader_failure_stops_startup() {
    let startup = Startup::new(RenderResolution::new(800, 600).unwrap());
    assert_eq!(startup.shader_compiled(false).unwrap_err(), SetupError::ShaderCompilation);
}

#[test]
fn allocation_failure_stops_startup() {
    let compiled = Startup::new(RenderResolution::new(800, 600).unwrap())
        .shader_compiled(true)
        .unwrap();
    assert_eq!(compiled.target_allocated(None).unwrap_err(), SetupError::ImageAllocation);
}

#[test]
fn mismatched_image_stops_startup() {
    let compiled = Startup::new(RenderResolution::new(800, 600).unwrap())
        .shader_compiled(true)
        .unwrap();
    assert_eq!(
        compiled.target_allocated(Some((800, 601))).unwrap_err(),
        SetupError::ResolutionMismatch
    );
}

#[test]
fn new_session_starts_at_time_zero() {
    let s = start(800, 600, 42);
    assert_eq!(s.texture_handle(), 42);
    assert_eq!(s.uniform().time, 0);
    assert_eq!(s.frames_submitted(), 0);
    assert_eq!(s.frames_skipped(), 0);
}

#[test]
fn three_frames_end_to_end() {
    let mut s = start(800, 600, 1);
    for t in [0.0f32, 1.0, 2.0] {
        let plan = s.begin_frame(t.to_bits());
        assert_eq!(plan.uniform, GlobalsUniform::new(800, 600, t.to_bits()).to_bytes());
        assert_eq!(plan.bind_group, 0);
        assert_eq!(plan.vertex_count, QUAD_VERTICES);
        assert_eq!(plan.vertex_count, 6);
        assert_eq!(plan.instance_count, 1);
        s.end_frame(true);
    }
    assert_eq!(s.frames_submitted(), 3);
    assert_eq!(s.frames_skipped(), 0);
    assert_eq!(f32::from_bits(s.uniform().time), 2.0);
}

#[test]
fn last_written_time_is_exact_after_many_frames() {
    let mut s = start(800, 600, 1);
    let mut last = 0.0f32;
    for i in 0..1000u32 {
        last = i as f32 * 0.016;
        s.begin_frame(last.to_bits());
        s.end_frame(true);
    }
    assert_eq!(s.uniform().time, last.to_bits());
    assert_eq!(s.frames_submitted(), 1000);
}

#[test]
fn image_size_never_changes_across_frames() {
    let c = SessionConfig::default();
    let mut s = start(c.render.width(), c.render.height(), 9);
    for i in 0..100u32 {
        s.begin_frame((i as f32 / 60.0).to_bits());
        s.end_frame(i % 3 != 0);
        let t = s.target();
        assert_eq!((t.width, t.height), (800, 600));
        assert_eq!(s.texture_handle(), 9);
    }
}

#[test]
fn failed_frame_is_skipped_and_next_frame_renders() {
    let mut s = start(800, 600, 1);
    s.begin_frame(0.5f32.to_bits());
    s.end_frame(false);
    assert_eq!(s.frames_skipped(), 1);
    assert_eq!(s.frames_submitted(), 0);
    assert_eq!(s.uniform().time, 0.5f32.to_bits());
    let plan = s.begin_frame(0.75f32.to_bits());
    assert_eq!(plan.uniform, GlobalsUniform::new(800, 600, 0.75f32.to_bits()).to_bytes());
    s.end_frame(true);
    assert_eq!((s.frames_submitted(), s.frames_skipped()), (1, 1));
}

#[test]
fn two_sessions_share_nothing() {
    let mut a = start(800, 600, 1);
    let b = start(640, 480, 2);
    a.begin_frame(3.0f32.to_bits());
    a.end_frame(true);
    assert_eq!(b.uniform().time, 0);
    assert_eq!(b.frames_submitted(), 0);
    assert_eq!(b.texture_handle(), 2);
    assert_eq!((b.target().width, b.target().height), (640, 480));
    assert_eq!(a.frames_submitted(), 1);
}
