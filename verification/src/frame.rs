//! One frame as a state machine. The caller does the device work; this module
//! decides, from the state of the frame and what the device reported, what
//! state comes next and what the caller has to do.

use vstd::prelude::*;
use crate::geometry::{full_draw, DrawCall, GeometryBuffer};
use crate::surface::SurfaceState;

verus! {

/// Why a frame could not be rendered.
#[derive(Clone, Copy, Debug, PartialEq, Eq, Structural)]
pub enum RenderError {
    /// The surface was lost and has to be configured again.
    SurfaceLost,
    /// The surface no longer matches the window.
    SurfaceOutdated,
    /// No image became available in time.
    Timeout,
    /// The device is gone.
    DeviceLost,
}

impl RenderError {
    /// The frame loop can go on after this error.
    pub open spec fn recoverable(self) -> bool {
        self != RenderError::DeviceLost
    }

    /// Whether the frame loop can go on after this error: true of a lost or
    /// outdated surface and of a timeout, false of a lost device.
    pub fn is_recoverable(&self) -> (r: bool)
        ensures
            r == self.recoverable(),
    {
        match self {
            RenderError::DeviceLost => false,
            _ => true,
        }
    }
}

/// What the device can report when no image could be acquired.
#[derive(Clone, Copy, Debug, PartialEq, Eq, Structural)]
pub enum AcquireFault {
    Timeout,
    Outdated,
    Lost,
    OutOfMemory,
    Other,
}

/// The error that a fault stands for.
pub open spec fn error_of(fault: AcquireFault) -> RenderError {
    match fault {
        AcquireFault::Timeout => RenderError::Timeout,
        AcquireFault::Outdated => RenderError::SurfaceOutdated,
        AcquireFault::Lost => RenderError::SurfaceLost,
        AcquireFault::OutOfMemory => RenderError::DeviceLost,
        AcquireFault::Other => RenderError::DeviceLost,
    }
}

/// Sorts a fault into the errors of a frame. Whatever is not a timeout or a
/// stale or lost surface counts as the loss of the device.
pub fn classify(fault: AcquireFault) -> (e: RenderError)
    ensures
        e == error_of(fault),
        e.recoverable() <==> (fault == AcquireFault::Timeout || fault == AcquireFault::Outdated
            || fault == AcquireFault::Lost),
{
    match fault {
        AcquireFault::Timeout => RenderError::Timeout,
        AcquireFault::Outdated => RenderError::SurfaceOutdated,
        AcquireFault::Lost => RenderError::SurfaceLost,
        AcquireFault::OutOfMemory => RenderError::DeviceLost,
        AcquireFault::Other => RenderError::DeviceLost,
    }
}

/// Where a frame stands.
#[derive(Clone, Copy, Debug, PartialEq, Eq, Structural)]
pub enum FrameState {
    /// Between two frames.
    Idle,
    /// Waiting for the next presentable image.
    Acquiring,
    /// Recording the render pass.
    Encoding,
    /// The commands are with the queue.
    Submitted,
    /// The image is with the display engine.
    Presented,
    /// The frame was given up.
    Failed(RenderError),
}

/// What the caller reports.
#[derive(Clone, Copy, Debug, PartialEq, Eq, Structural)]
pub enum FrameEvent {
    /// A new frame is due.
    Begin,
    /// An image was acquired.
    ImageAcquired,
    /// No image could be acquired.
    AcquireFailed(RenderError),
    /// The render pass is recorded.
    CommandsEncoded,
    /// The queue has taken the commands.
    CommandsSubmitted,
    /// The image was handed to the display engine.
    ImagePresented,
}

/// What the caller has to do next.
#[derive(Clone, Copy, Debug, PartialEq, Eq, Structural)]
pub enum FrameAction {
    /// Ask the surface for the next image.
    Acquire,
    /// Record the one render pass.
    Encode,
    /// Hand the commands to the queue.
    Submit,
    /// Present the image.
    Present,
    /// Nothing: the frame is complete.
    Rest,
    /// Skip this frame and configure the surface again before the next.
    Reconfigure,
    /// Leave the frame loop.
    Shutdown,
}

/// The state that follows `state` on `event` and the action that goes with
/// it, or `None` where the event has no place in that state.
pub open spec fn transition(
    state: FrameState,
    event: FrameEvent,
) -> Option<(FrameState, FrameAction)> {
    match (state, event) {
        (FrameState::Idle, FrameEvent::Begin) => Some((FrameState::Acquiring, FrameAction::Acquire)),
        (FrameState::Failed(e), FrameEvent::Begin) => if e.recoverable() {
            Some((FrameState::Acquiring, FrameAction::Acquire))
        } else {
            None
        },
        (FrameState::Acquiring, FrameEvent::ImageAcquired) => Some(
            (FrameState::Encoding, FrameAction::Encode),
        ),
        (FrameState::Acquiring, FrameEvent::AcquireFailed(e)) => Some(
            (
                FrameState::Failed(e),
                if e.recoverable() {
                    FrameAction::Reconfigure
                } else {
                    FrameAction::Shutdown
                },
            ),
        ),
        (FrameState::Encoding, FrameEvent::CommandsEncoded) => Some(
            (FrameState::Submitted, FrameAction::Submit),
        ),
        (FrameState::Submitted, FrameEvent::CommandsSubmitted) => Some(
            (FrameState::Presented, FrameAction::Present),
        ),
        (FrameState::Presented, FrameEvent::ImagePresented) => Some(
            (FrameState::Idle, FrameAction::Rest),
        ),
        _ => None,
    }
}

/// What has to happen before the next image may be acquired.
#[derive(Clone, Copy, Debug, PartialEq, Eq, Structural)]
pub enum Preparation {
    /// The surface has to be given its configuration.
    ConfigureSurface,
    /// The vertices have to be uploaded.
    UploadVertices,
    /// Nothing: the frame can begin.
    Ready,
}

/// What is still to be prepared: the surface comes first, then the vertices.
pub open spec fn preparation(surface_pending: bool, geometry_stale: bool) -> Preparation {
    if surface_pending {
        Preparation::ConfigureSurface
    } else if geometry_stale {
        Preparation::UploadVertices
    } else {
        Preparation::Ready
    }
}

/// Says what has to happen before the next image may be acquired: a surface
/// whose configuration changed is configured first, vertices that changed
/// are uploaded next, and only then can the frame begin.
pub fn before_frame(surface: &SurfaceState, geometry: &GeometryBuffer) -> (p: Preparation)
    ensures
        p == preparation(surface.is_pending(), geometry.is_stale()),
        p == Preparation::Ready <==> (!surface.is_pending() && !geometry.is_stale()),
{
    if surface.needs_configure() {
        Preparation::ConfigureSurface
    } else if geometry.needs_upload() {
        Preparation::UploadVertices
    } else {
        Preparation::Ready
    }
}

/// What beginning a frame leads to: nothing while something is still to be
/// prepared, and otherwise what [`FrameEvent::Begin`] leads to.
pub open spec fn begin_transition(
    state: FrameState,
    surface_pending: bool,
    geometry_stale: bool,
) -> Option<(FrameState, FrameAction)> {
    if preparation(surface_pending, geometry_stale) == Preparation::Ready {
        transition(state, FrameEvent::Begin)
    } else {
        None
    }
}

/// Follows one frame at a time through its states.
#[derive(Debug)]
pub struct FrameRenderer {
    state: FrameState,
}

impl View for FrameRenderer {
    type V = FrameState;

    closed spec fn view(&self) -> FrameState {
        self.state
    }
}

impl FrameRenderer {
    /// A renderer between two frames.
    pub fn new() -> (r: FrameRenderer)
        ensures
            r@ == FrameState::Idle,
    {
        FrameRenderer { state: FrameState::Idle }
    }

    /// Where the frame stands.
    pub fn state(&self) -> (s: FrameState)
        ensures
            s == self@,
    {
        self.state
    }

    /// Takes an event. Where the event has a place in the current state, the
    /// renderer moves on and says what to do next; otherwise it stays as it
    /// is and returns `None`.
    pub fn handle(&mut self, event: FrameEvent) -> (action: Option<FrameAction>)
        ensures
            match transition(old(self)@, event) {
                Some((next, job)) => final(self)@ == next && action == Some(job),
                None => final(self)@ == old(self)@ && action is None,
            },
    {
        let step: Option<(FrameState, FrameAction)> = match (self.state, event) {
            (FrameState::Idle, FrameEvent::Begin) => Some(
                (FrameState::Acquiring, FrameAction::Acquire),
            ),
            (FrameState::Failed(e), FrameEvent::Begin) => {
                if e.is_recoverable() {
                    Some((FrameState::Acquiring, FrameAction::Acquire))
                } else {
                    None
                }
            },
            (FrameState::Acquiring, FrameEvent::ImageAcquired) => Some(
                (FrameState::Encoding, FrameAction::Encode),
            ),
            (FrameState::Acquiring, FrameEvent::AcquireFailed(e)) => {
                if e.is_recoverable() {
                    Some((FrameState::Failed(e), FrameAction::Reconfigure))
                } else {
                    Some((FrameState::Failed(e), FrameAction::Shutdown))
                }
            },
            (FrameState::Encoding, FrameEvent::CommandsEncoded) => Some(
                (FrameState::Submitted, FrameAction::Submit),
            ),
            (FrameState::Submitted, FrameEvent::CommandsSubmitted) => Some(
                (FrameState::Presented, FrameAction::Present),
            ),
            (FrameState::Presented, FrameEvent::ImagePresented) => Some(
                (FrameState::Idle, FrameAction::Rest),
            ),
            _ => None,
        };
        match step {
            Some((next, job)) => {
                self.state = next;
                Some(job)
            },
            None => None,
        }
    }

    /// Begins a frame if everything is prepared for it. With a surface that
    /// still has to be configured, or vertices that still have to be
    /// uploaded, nothing begins: the renderer stays as it is and returns
    /// `None`. Otherwise this is `handle(FrameEvent::Begin)`.
    pub fn begin(
        &mut self,
        surface: &SurfaceState,
        geometry: &GeometryBuffer,
    ) -> (action: Option<FrameAction>)
        ensures
            match begin_transition(old(self)@, surface.is_pending(), geometry.is_stale()) {
                Some((next, job)) => final(self)@ == next && action == Some(job),
                None => final(self)@ == old(self)@ && action is None,
            },
    {
        match before_frame(surface, geometry) {
            Preparation::Ready => self.handle(FrameEvent::Begin),
            _ => None,
        }
    }

    /// What the frame that has just ended came to: `Ok` between frames, the
    /// error after a failure, and nothing while a frame is under way.
    pub fn outcome(&self) -> (r: Option<Result<(), RenderError>>)
        ensures
            r == frame_outcome(self@),
    {
        match self.state {
            FrameState::Idle => Some(Ok(())),
            FrameState::Failed(e) => Some(Err(e)),
            _ => None,
        }
    }
}

/// What a frame came to once it has reached `state`.
pub open spec fn frame_outcome(state: FrameState) -> Option<Result<(), RenderError>> {
    match state {
        FrameState::Idle => Some(Ok(())),
        FrameState::Failed(e) => Some(Err(e)),
        _ => None,
    }
}

/// Whether the frame loop goes on after a frame with this result: after a
/// complete frame and after a recoverable error, yes.
pub fn loop_continues(result: Result<(), RenderError>) -> (go_on: bool)
    ensures
        go_on == match result {
            Ok(_) => true,
            Err(e) => e.recoverable(),
        },
{
    match result {
        Ok(_) => true,
        Err(e) => e.is_recoverable(),
    }
}

/// A colour with its alpha, each channel in fixed-point units.
#[derive(Clone, Copy, Debug, PartialEq, Eq, Structural)]
pub struct ClearColor {
    pub r: i32,
    pub g: i32,
    pub b: i32,
    pub a: i32,
}

/// Opaque white.
pub fn white() -> (c: ClearColor)
    ensures
        c == (ClearColor { r: 100, g: 100, b: 100, a: 100 }),
{
    ClearColor { r: 100, g: 100, b: 100, a: 100 }
}

/// What the one render pass of a frame does: it clears the colour target and
/// then makes one draw.
#[derive(Clone, Copy, Debug, PartialEq, Eq, Structural)]
pub struct RenderPass {
    pub clear: ClearColor,
    pub draw: DrawCall,
}

/// The render pass that shows the whole of `geometry` on a target cleared to
/// `clear`.
pub fn plan_render_pass(geometry: &GeometryBuffer, clear: ClearColor) -> (pass: RenderPass)
    ensures
        pass == (RenderPass { clear, draw: full_draw(geometry.index_seq().len()) }),
        pass.draw.end_index == geometry.index_seq().len(),
{
    RenderPass { clear, draw: geometry.draw_call() }
}

/// A frame fails only while it acquires its image, and only with the error
/// that was reported: no later stage leaves a frame half done.
pub proof fn lemma_failure_only_while_acquiring(
    state: FrameState,
    event: FrameEvent,
    error: RenderError,
)
    requires
        transition(state, event) matches Some((next, _)) && next == FrameState::Failed(error),
    ensures
        state == FrameState::Acquiring,
        event == FrameEvent::AcquireFailed(error),
{
}

/// The caller is told to leave the loop exactly when a frame fails with an
/// error that is not recoverable; after a recoverable one the next frame can
/// begin.
pub proof fn lemma_shutdown_iff_fatal(state: FrameState, event: FrameEvent)
    requires
        transition(state, event) is Some,
    ensures
        ({
            let (next, job) = transition(state, event).unwrap();
            &&& job == FrameAction::Shutdown <==> (next matches FrameState::Failed(e)
                && !e.recoverable())
            &&& job == FrameAction::Reconfigure <==> (next matches FrameState::Failed(e)
                && e.recoverable())
            &&& job == FrameAction::Reconfigure ==> transition(next, FrameEvent::Begin) == Some(
                (FrameState::Acquiring, FrameAction::Acquire),
            )
            &&& job == FrameAction::Shutdown ==> forall|ev: FrameEvent|
                transition(next, ev) is None
        }),
{
}

} // verus!
