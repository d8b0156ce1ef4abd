//! One rendering session: its startup sequence and its per-frame steps.
//!
//! The GPU work itself (compiling the shader, allocating the image,
//! recording and submitting commands) is done by the host. At each step it
//! reports the outcome here and gets back what to do next. Startup is a
//! chain of types, `Startup` -> `Compiled` -> `Allocated` -> `Session`, so
//! that no frame can be rendered unless every setup step succeeded.
//!
//! The uniform buffer is single-buffered: each frame overwrites all 16
//! bytes in place through the queue's write operation, which the GPU API
//! stages and orders before the frame's render pass on the same queue.
//! Backends without such staging would need one buffer per frame in flight.
use crate::float_bits::ZERO_BITS;
use crate::pipeline::{
    effect_pipeline, offscreen_target, pipeline_desc, target_desc, PipelineDesc, TargetDesc,
    TARGET_FORMAT, UNIFORM_SLOT,
};
use crate::uniform::{uniform_words, words_bytes, GlobalsUniform};
use vstd::prelude::*;

verus! {

/// Width of the render area in the standard configuration.
pub const RENDER_WIDTH: u32 = 800;
/// Height of the render area in the standard configuration.
pub const RENDER_HEIGHT: u32 = 600;
/// Width of the host window in the standard configuration.
pub const WINDOW_WIDTH: u32 = 820;
/// Height of the host window in the standard configuration.
pub const WINDOW_HEIGHT: u32 = 680;
/// Vertices drawn per frame: two triangles covering the target.
pub const QUAD_VERTICES: u32 = 6;

/// The fixed size of the render area, both sides positive.
#[derive(Clone, Copy, Debug)]
pub struct RenderResolution {
    width: u32,
    height: u32,
}

impl View for RenderResolution {
    type V = (u32, u32);

    closed spec fn view(&self) -> (u32, u32) {
        (self.width, self.height)
    }
}

impl RenderResolution {
    #[verifier::type_invariant]
    spec fn positive(self) -> bool {
        self.width > 0 && self.height > 0
    }

    /// A resolution of `width` x `height`; `None` where a side is zero.
    pub fn new(width: u32, height: u32) -> (r: Option<RenderResolution>)
        ensures
            r is Some <==> (width > 0 && height > 0),
            r matches Some(res) ==> res@ == (width, height),
    {
        if width > 0 && height > 0 {
            Some(RenderResolution { width, height })
        } else {
            None
        }
    }

    pub fn width(&self) -> (r: u32)
        ensures
            r == self@.0,
            r > 0,
    {
        proof {
            use_type_invariant(self);
        }
        self.width
    }

    pub fn height(&self) -> (r: u32)
        ensures
            r == self@.1,
            r > 0,
    {
        proof {
            use_type_invariant(self);
        }
        self.height
    }
}

/// What the host provides: its window size and the render area inside it.
#[derive(Clone, Copy, Debug)]
pub struct SessionConfig {
    pub window_width: u32,
    pub window_height: u32,
    pub render: RenderResolution,
}

impl Default for SessionConfig {
    /// An 820 x 680 window holding an 800 x 600 render area.
    fn default() -> (r: SessionConfig)
        ensures
            r.window_width == WINDOW_WIDTH,
            r.window_height == WINDOW_HEIGHT,
            r.render@ == (RENDER_WIDTH, RENDER_HEIGHT),
    {
        SessionConfig {
            window_width: WINDOW_WIDTH,
            window_height: WINDOW_HEIGHT,
            render: RenderResolution { width: RENDER_WIDTH, height: RENDER_HEIGHT },
        }
    }
}

/// Why a session could not start.
#[derive(Clone, Copy, Debug, PartialEq, Eq, Structural)]
pub enum SetupError {
    /// The shader did not compile; no pipeline exists.
    ShaderCompilation,
    /// The offscreen image could not be allocated.
    ImageAllocation,
    /// The image allocated does not have the declared size.
    ResolutionMismatch,
}

/// Startup, before the shader is compiled.
#[derive(Debug)]
pub struct Startup {
    resolution: RenderResolution,
}

impl View for Startup {
    type V = (u32, u32);

    closed spec fn view(&self) -> (u32, u32) {
        self.resolution@
    }
}

impl Startup {
    pub fn new(resolution: RenderResolution) -> (r: Startup)
        ensures
            r@ == resolution@,
    {
        Startup { resolution }
    }

    /// The uniform block the buffer is created with: time zero.
    pub fn initial_uniform(&self) -> (r: GlobalsUniform)
        ensures
            r.words() == uniform_words(self@.0, self@.1, ZERO_BITS),
    {
        GlobalsUniform::new(self.resolution.width(), self.resolution.height(), ZERO_BITS)
    }

    /// The pipeline state to build along with the shader.
    pub fn pipeline(&self) -> (r: PipelineDesc)
        ensures
            r == effect_pipeline(TARGET_FORMAT),
    {
        pipeline_desc(TARGET_FORMAT)
    }

    /// Takes the outcome of compiling the shader and building the pipeline.
    pub fn shader_compiled(self, ok: bool) -> (r: Result<Compiled, SetupError>)
        ensures
            ok <==> r is Ok,
            r matches Ok(c) ==> c@ == self@,
            r matches Err(e) ==> e == SetupError::ShaderCompilation,
    {
        if ok {
            Ok(Compiled { resolution: self.resolution })
        } else {
            Err(SetupError::ShaderCompilation)
        }
    }
}

/// Startup, with a working pipeline, before the image is allocated.
#[derive(Debug)]
pub struct Compiled {
    resolution: RenderResolution,
}

impl View for Compiled {
    type V = (u32, u32);

    closed spec fn view(&self) -> (u32, u32) {
        self.resolution@
    }
}

impl Compiled {
    /// The image to allocate: exactly the render area.
    pub fn target(&self) -> (r: TargetDesc)
        ensures
            r == offscreen_target(self@.0, self@.1),
    {
        target_desc(self.resolution.width(), self.resolution.height())
    }

    /// Takes the size of the image allocated, or `None` where allocation failed.
    pub fn target_allocated(self, size: Option<(u32, u32)>) -> (r: Result<Allocated, SetupError>)
        ensures
            r is Ok <==> size == Some(self@),
            r matches Ok(a) ==> a@ == self@,
            size is None ==> r == Err::<Allocated, SetupError>(SetupError::ImageAllocation),
            (size matches Some(s) && s != self@) ==> r == Err::<Allocated, SetupError>(
                SetupError::ResolutionMismatch,
            ),
    {
        match size {
            None => Err(SetupError::ImageAllocation),
            Some((w, h)) => {
                if w == self.resolution.width() && h == self.resolution.height() {
                    Ok(Allocated { resolution: self.resolution })
                } else {
                    Err(SetupError::ResolutionMismatch)
                }
            },
        }
    }
}

/// Startup, with pipeline and image, before the image is registered for display.
#[derive(Debug)]
pub struct Allocated {
    resolution: RenderResolution,
}

impl View for Allocated {
    type V = (u32, u32);

    closed spec fn view(&self) -> (u32, u32) {
        self.resolution@
    }
}

impl Allocated {
    /// Takes the handle under which the host displays the image, and starts
    /// the session at time zero with no frames rendered.
    pub fn texture_registered(self, handle: u64) -> (r: Session)
        ensures
            r@ == (SessionView {
                resolution: self@,
                target: self@,
                texture: handle,
                time: ZERO_BITS,
                submitted: 0,
                skipped: 0,
            }),
    {
        let (w, h) = (self.resolution.width(), self.resolution.height());
        Session {
            resolution: self.resolution,
            target: target_desc(w, h),
            texture: handle,
            uniform: GlobalsUniform::new(w, h, ZERO_BITS),
            submitted: 0,
            skipped: 0,
        }
    }
}

/// The state of a running session, as values.
pub struct SessionView {
    /// The declared render area.
    pub resolution: (u32, u32),
    /// The size of the offscreen image.
    pub target: (u32, u32),
    /// The host's display handle for the image.
    pub texture: u64,
    /// The time last written to the uniform buffer (binary32 bits).
    pub time: u32,
    /// Frames whose commands were submitted.
    pub submitted: u64,
    /// Frames dropped because recording or submission failed.
    pub skipped: u64,
}

/// What the host records for one frame.
#[derive(Clone, Copy, Debug)]
pub struct FramePlan {
    /// Bytes to write at offset 0 of the uniform buffer before the pass.
    pub uniform: [u8; 16],
    /// Bind group slot of the uniform block.
    pub bind_group: u32,
    /// Vertices to draw, with no vertex or index buffer.
    pub vertex_count: u32,
    pub instance_count: u32,
}

/// A running session: pipeline, image and display handle are in place.
#[derive(Debug)]
pub struct Session {
    resolution: RenderResolution,
    target: TargetDesc,
    texture: u64,
    uniform: GlobalsUniform,
    submitted: u64,
    skipped: u64,
}

impl View for Session {
    type V = SessionView;

    closed spec fn view(&self) -> SessionView {
        SessionView {
            resolution: self.resolution@,
            target: (self.target.width, self.target.height),
            texture: self.texture,
            time: self.uniform.time,
            submitted: self.submitted,
            skipped: self.skipped,
        }
    }
}

/// The bytes of the uniform block of a session in state `v`.
pub open spec fn uniform_bytes_of(v: SessionView) -> Seq<u8> {
    words_bytes(uniform_words(v.resolution.0, v.resolution.1, v.time))
}

/// Adds one to a frame counter, stopping at its largest value.
pub open spec fn count_up(n: u64) -> u64 {
    if n < u64::MAX {
        (n + 1) as u64
    } else {
        n
    }
}

/// The state after a frame's uniform update at `time`.
pub open spec fn after_update(v: SessionView, time: u32) -> SessionView {
    SessionView { time, ..v }
}

/// The state after a frame ended, submitted or skipped.
pub open spec fn after_end(v: SessionView, submitted: bool) -> SessionView {
    if submitted {
        SessionView { submitted: count_up(v.submitted), ..v }
    } else {
        SessionView { skipped: count_up(v.skipped), ..v }
    }
}

/// The state after one whole frame: update at `time`, then submitted or skipped.
pub open spec fn advance(v: SessionView, time: u32, submitted: bool) -> SessionView {
    after_end(after_update(v, time), submitted)
}

/// The state after a run of frames, each a time and whether it was submitted.
pub open spec fn run_frames(v: SessionView, frames: Seq<(u32, bool)>) -> SessionView
    decreases frames.len(),
{
    if frames.len() == 0 {
        v
    } else {
        advance(run_frames(v, frames.drop_last()), frames.last().0, frames.last().1)
    }
}

/// After any run of frames, the uniform block holds the time of the last
/// frame exactly, whatever came before it.
pub proof fn lemma_last_time_written(v: SessionView, frames: Seq<(u32, bool)>)
    requires
        frames.len() > 0,
    ensures
        run_frames(v, frames).time == frames.last().0,
        uniform_bytes_of(run_frames(v, frames)) == words_bytes(
            uniform_words(v.resolution.0, v.resolution.1, frames.last().0),
        ),
{
    lemma_frames_keep_resources(v, frames.drop_last());
}

/// No run of frames changes the render area, the image size or the
/// display handle.
pub proof fn lemma_frames_keep_resources(v: SessionView, frames: Seq<(u32, bool)>)
    ensures
        run_frames(v, frames).resolution == v.resolution,
        run_frames(v, frames).target == v.target,
        run_frames(v, frames).texture == v.texture,
    decreases frames.len(),
{
    if frames.len() > 0 {
        lemma_frames_keep_resources(v, frames.drop_last());
    }
}

/// Where every frame of a run is submitted, the submitted count grows by
/// the number of frames and no frame is counted as skipped.
pub proof fn lemma_submissions_counted(v: SessionView, frames: Seq<(u32, bool)>)
    requires
        forall|i: int| 0 <= i < frames.len() ==> #[trigger] frames[i].1,
        v.submitted + frames.len() <= u64::MAX,
    ensures
        run_frames(v, frames).submitted == v.submitted + frames.len(),
        run_frames(v, frames).skipped == v.skipped,
    decreases frames.len(),
{
    if frames.len() > 0 {
        let init = frames.drop_last();
        assert forall|i: int| 0 <= i < init.len() implies #[trigger] init[i].1 by {
            assert(init[i] == frames[i]);
        }
        lemma_submissions_counted(v, init);
        assert(frames[frames.len() - 1].1);
    }
}

impl Session {
    #[verifier::type_invariant]
    spec fn consistent(self) -> bool {
        &&& self.target == offscreen_target(self.resolution@.0, self.resolution@.1)
        &&& self.uniform.words() == uniform_words(
            self.resolution@.0,
            self.resolution@.1,
            self.uniform.time,
        )
    }

    pub fn resolution(&self) -> (r: RenderResolution)
        ensures
            r@ == self@.resolution,
    {
        self.resolution
    }

    /// The offscreen image, as allocated: always the size of the render area.
    pub fn target(&self) -> (r: TargetDesc)
        ensures
            r == offscreen_target(self@.target.0, self@.target.1),
            self@.target == self@.resolution,
    {
        proof {
            use_type_invariant(self);
        }
        self.target
    }

    /// The handle under which the host displays the image; the same for
    /// every frame of the session.
    pub fn texture_handle(&self) -> (r: u64)
        ensures
            r == self@.texture,
    {
        self.texture
    }

    /// The uniform block last written.
    pub fn uniform(&self) -> (r: GlobalsUniform)
        ensures
            r.words() == uniform_words(self@.resolution.0, self@.resolution.1, self@.time),
    {
        proof {
            use_type_invariant(self);
        }
        self.uniform
    }

    pub fn frames_submitted(&self) -> (r: u64)
        ensures
            r == self@.submitted,
    {
        self.submitted
    }

    pub fn frames_skipped(&self) -> (r: u64)
        ensures
            r == self@.skipped,
    {
        self.skipped
    }

    /// Starts a frame at `time` (binary32 bits of the seconds since the
    /// session began): sets the uniform block and says what to record.
    pub fn begin_frame(&mut self, time: u32) -> (plan: FramePlan)
        ensures
            final(self)@ == after_update(old(self)@, time),
            plan.uniform@ == uniform_bytes_of(final(self)@),
            plan.bind_group == UNIFORM_SLOT,
            plan.vertex_count == QUAD_VERTICES,
            plan.instance_count == 1,
    {
        proof {
            use_type_invariant(&*self);
        }
        let uniform = GlobalsUniform::new(self.resolution.width(), self.resolution.height(), time);
        self.uniform = uniform;
        FramePlan {
            uniform: uniform.to_bytes(),
            bind_group: UNIFORM_SLOT,
            vertex_count: QUAD_VERTICES,
            instance_count: 1,
        }
    }

    /// Ends the frame: `submitted` is false where recording or submission
    /// failed and the frame was dropped.
    pub fn end_frame(&mut self, submitted: bool)
        ensures
            final(self)@ == after_end(old(self)@, submitted),
    {
        proof {
            use_type_invariant(&*self);
        }
        if submitted {
            self.submitted = self.submitted.saturating_add(1);
        } else {
            self.skipped = self.skipped.saturating_add(1);
        }
    }
}

} // verus!
