//! The render loop driver: a two-state machine that turns window events and
//! frame-acquisition outcomes into actions for the GPU layer. The driver
//! decides; the GPU layer acquires, draws and presents.

use vstd::prelude::*;

use crate::surface::SurfaceConfig;

verus! {

/// A window event as the driver sees it.
#[derive(Clone, Copy, Debug, PartialEq, Eq, Structural)]
pub enum Event {
    /// The window was resized. The driver observes this but does not
    /// reconfigure the surface.
    Resized { width: u32, height: u32 },
    /// The user asked to close the window.
    CloseRequested,
    /// The event loop is about to wait: time to render one frame.
    Wake,
}

/// The fixed background color the render pass clears to, in tenths of full
/// intensity per channel (the GPU layer divides by 10).
#[derive(Clone, Copy, Debug, PartialEq, Eq, Structural)]
pub struct ClearColor {
    pub r_tenths: u8,
    pub g_tenths: u8,
    pub b_tenths: u8,
    pub a_tenths: u8,
}

/// The engine's background: (0.1, 0.2, 0.3, 1.0).
pub open spec fn spec_background() -> ClearColor {
    ClearColor { r_tenths: 1u8, g_tenths: 2u8, b_tenths: 3u8, a_tenths: 10u8 }
}

/// The fixed color every frame clears to.
pub fn background() -> (c: ClearColor)
    ensures
        c == spec_background(),
{
    ClearColor { r_tenths: 1, g_tenths: 2, b_tenths: 3, a_tenths: 10 }
}

/// The one draw call of a frame.
#[derive(Clone, Copy, Debug, PartialEq, Eq, Structural)]
pub struct DrawCall {
    pub first_vertex: u32,
    pub vertex_count: u32,
    pub first_instance: u32,
    pub instance_count: u32,
}

/// Everything one frame does: clear to the background, then one draw call
/// with the pipeline, vertex buffer and bind group bound.
#[derive(Clone, Copy, Debug, PartialEq, Eq, Structural)]
pub struct FramePlan {
    pub clear: ClearColor,
    pub draw: DrawCall,
}

/// The frame every tick renders: clear to the background, draw the six quad
/// vertices once.
pub open spec fn spec_frame_plan() -> FramePlan {
    FramePlan {
        clear: spec_background(),
        draw: DrawCall { first_vertex: 0, vertex_count: 6, first_instance: 0, instance_count: 1 },
    }
}

/// What the GPU layer should do next.
#[derive(Clone, Copy, Debug, PartialEq, Eq, Structural)]
pub enum Action {
    /// Nothing to do for this event.
    Continue,
    /// Leave the event loop.
    Exit,
    /// Acquire the next presentable frame from the surface.
    AcquireFrame,
    /// Render the frame as planned, then present it.
    Draw(FramePlan),
    /// The frame could not be acquired: log it and skip this tick.
    SkipFrame,
}

/// A window size the driver observed in a resize event.
#[derive(Clone, Copy, Debug, PartialEq, Eq, Structural)]
pub struct ObservedSize {
    pub width: u32,
    pub height: u32,
}

/// Where the driver stands: waiting for an event, or inside one frame.
#[derive(Clone, Copy, Debug, PartialEq, Eq, Structural)]
pub enum Phase {
    Idle,
    Rendering,
}

/// The render loop driver's whole state.
#[derive(Clone, Copy, Debug, PartialEq, Eq, Structural)]
pub struct Driver {
    pub phase: Phase,
    /// The configuration the surface was given at startup. Never changed
    /// afterwards: resize events are observed, not acted on.
    pub config: SurfaceConfig,
    /// Frames drawn and presented so far (saturating).
    pub frames_presented: u64,
    /// Ticks skipped because no frame could be acquired (saturating).
    pub frames_skipped: u64,
    /// Whether a close was requested.
    pub exit_requested: bool,
    /// The size of the last resize event observed, if any.
    pub last_resize: Option<ObservedSize>,
}

/// n + 1, stopping at the top of the counter's range.
pub open spec fn sat_inc(n: u64) -> u64 {
    if n == u64::MAX {
        n
    } else {
        (n + 1) as u64
    }
}

/// The driver a session starts with.
pub open spec fn spec_new_driver(config: SurfaceConfig) -> Driver {
    Driver {
        phase: Phase::Idle,
        config,
        frames_presented: 0,
        frames_skipped: 0,
        exit_requested: false,
        last_resize: None,
    }
}

/// The transition an event causes: close requests ask the loop to exit,
/// resizes are only recorded, and a wake begins one frame by asking for the
/// next presentable frame. No event touches the surface configuration.
pub open spec fn spec_handle_event(d: Driver, e: Event) -> (Driver, Action) {
    match e {
        Event::CloseRequested => (Driver { exit_requested: true, ..d }, Action::Exit),
        Event::Resized { width, height } => (
            Driver { last_resize: Some(ObservedSize { width, height }), ..d },
            Action::Continue,
        ),
        Event::Wake => {
            if d.phase is Idle && !d.exit_requested {
                (Driver { phase: Phase::Rendering, ..d }, Action::AcquireFrame)
            } else {
                (d, Action::Continue)
            }
        },
    }
}

/// The transition the acquisition outcome causes: a frame in hand is drawn
/// and presented as planned; a failed acquisition skips the tick. Either
/// way the driver is idle again, and the configuration is untouched.
pub open spec fn spec_frame_acquired(d: Driver, ok: bool) -> (Driver, Action) {
    if d.phase is Rendering {
        if ok {
            (
                Driver {
                    phase: Phase::Idle,
                    frames_presented: sat_inc(d.frames_presented),
                    ..d
                },
                Action::Draw(spec_frame_plan()),
            )
        } else {
            (
                Driver { phase: Phase::Idle, frames_skipped: sat_inc(d.frames_skipped), ..d },
                Action::SkipFrame,
            )
        }
    } else {
        (d, Action::Continue)
    }
}

impl Driver {
    /// Starts the driver over a freshly configured surface: idle, nothing
    /// drawn, nothing skipped, no exit requested, no resize observed.
    pub fn new(config: SurfaceConfig) -> (d: Driver)
        ensures
            d == spec_new_driver(config),
    {
        Driver {
            phase: Phase::Idle,
            config,
            frames_presented: 0,
            frames_skipped: 0,
            exit_requested: false,
            last_resize: None,
        }
    }

    /// Feeds one window event to the driver and returns what the GPU layer
    /// should do. A close request asks the loop to exit; a resize is only
    /// observed — the configuration stays as it was at startup; a wake
    /// starts one frame by asking for the next presentable frame.
    pub fn handle_event(&mut self, e: Event) -> (a: Action)
        requires
            old(self).phase is Idle,
        ensures
            (*final(self), a) == spec_handle_event(*old(self), e),
            final(self).config == old(self).config,
            final(self).frames_presented == old(self).frames_presented,
            e is CloseRequested ==> final(self).exit_requested && a is Exit,
            e matches Event::Resized { width, height } ==> final(self).last_resize == Some(
                ObservedSize { width, height },
            ) && a is Continue,
            e is Wake && !old(self).exit_requested ==> final(self).phase is Rendering
                && a is AcquireFrame,
    {
        match e {
            Event::CloseRequested => {
                self.exit_requested = true;
                Action::Exit
            },
            Event::Resized { width, height } => {
                self.last_resize = Some(ObservedSize { width, height });
                Action::Continue
            },
            Event::Wake => {
                if !self.exit_requested {
                    self.phase = Phase::Rendering;
                    Action::AcquireFrame
                } else {
                    Action::Continue
                }
            },
        }
    }

    /// Feeds the outcome of the frame acquisition back. With a frame in
    /// hand the tick draws and presents the fixed plan — six vertices, one
    /// instance, cleared to the background — and counts one presented
    /// frame; without one the tick is skipped and counted as skipped, and
    /// the loop simply continues with the next wake. Either way the driver
    /// is idle again and the configuration is untouched.
    pub fn frame_acquired(&mut self, ok: bool) -> (a: Action)
        requires
            old(self).phase is Rendering,
        ensures
            (*final(self), a) == spec_frame_acquired(*old(self), ok),
            final(self).phase is Idle,
            final(self).config == old(self).config,
            ok ==> a == Action::Draw(spec_frame_plan()) && final(self).frames_presented == sat_inc(
                old(self).frames_presented,
            ) && final(self).frames_skipped == old(self).frames_skipped,
            !ok ==> a is SkipFrame && final(self).frames_presented == old(self).frames_presented
                && final(self).frames_skipped == sat_inc(old(self).frames_skipped),
    {
        self.phase = Phase::Idle;
        if ok {
            if self.frames_presented < u64::MAX {
                self.frames_presented = self.frames_presented + 1;
            }
            Action::Draw(
                FramePlan {
                    clear: background(),
                    draw: DrawCall {
                        first_vertex: 0,
                        vertex_count: 6,
                        first_instance: 0,
                        instance_count: 1,
                    },
                },
            )
        } else {
            if self.frames_skipped < u64::MAX {
                self.frames_skipped = self.frames_skipped + 1;
            }
            Action::SkipFrame
        }
    }
}

/// One input to the driver: a window event, or the outcome of acquiring a
/// frame.
#[derive(Clone, Copy, Debug, PartialEq, Eq, Structural)]
pub enum DriverInput {
    Ev(Event),
    Acquired(bool),
}

/// The transition one input causes.
pub open spec fn spec_step(d: Driver, inp: DriverInput) -> (Driver, Action) {
    match inp {
        DriverInput::Ev(e) => spec_handle_event(d, e),
        DriverInput::Acquired(ok) => spec_frame_acquired(d, ok),
    }
}

/// The driver after a whole sequence of inputs.
pub open spec fn spec_run(d: Driver, inputs: Seq<DriverInput>) -> Driver
    decreases inputs.len(),
{
    if inputs.len() == 0 {
        d
    } else {
        spec_run(spec_step(d, inputs[0]).0, inputs.drop_first())
    }
}

/// However many events and frames a session sees — resizes included — the
/// surface configuration stays exactly what it was at startup: the surface
/// still reports the width and height it was configured with, because no
/// transition reconfigures it.
pub proof fn lemma_config_never_changes(d: Driver, inputs: Seq<DriverInput>)
    ensures
        spec_run(d, inputs).config == d.config,
    decreases inputs.len(),
{
    if inputs.len() > 0 {
        lemma_config_never_changes(spec_step(d, inputs[0]).0, inputs.drop_first());
    }
}

/// One full render tick: from an idle driver that was not asked to exit, a
/// wake asks for a frame, and a successful acquisition draws and presents
/// the fixed plan without error — exactly one frame is added, nothing is
/// skipped, and the driver is idle again with its configuration untouched.
pub proof fn lemma_full_tick(d: Driver)
    requires
        d.phase is Idle,
        !d.exit_requested,
    ensures
        ({
            let (d1, a1) = spec_handle_event(d, Event::Wake);
            let (d2, a2) = spec_frame_acquired(d1, true);
            &&& a1 is AcquireFrame
            &&& a2 == Action::Draw(spec_frame_plan())
            &&& d2.phase is Idle
            &&& d2.frames_presented == sat_inc(d.frames_presented)
            &&& d2.frames_skipped == d.frames_skipped
            &&& d2.config == d.config
        }),
{
}

} // verus!
