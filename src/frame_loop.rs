//! The frame/present loop as a state machine.
//!
//! The host feeds every window event and every outcome of a graphics call in
//! as an [`Input`]; [`LoopState::step`] updates the state and answers with
//! the one [`Action`] the host performs next.
use vstd::prelude::*;

verus! {

/// Vertices in the triangle mesh.
pub const VERTEX_COUNT: u32 = 3;

/// Copies of the triangle drawn by each frame.
pub const INSTANCE_COUNT: u32 = 1000;

/// Last known cursor position in pixels, with the window size it was
/// measured against. The normalized mouse input handed to the shader is
/// `(x / width, y / height)`.
#[derive(Clone, Copy, Debug, PartialEq, Eq, Structural)]
pub struct MouseInput {
    pub x: i32,
    pub y: i32,
    pub width: u32,
    pub height: u32,
}

/// Size of the framebuffers and of the viewport, in pixels.
#[derive(Clone, Copy, Debug, PartialEq, Eq, Structural)]
pub struct Extent {
    pub width: u32,
    pub height: u32,
}

/// Where the loop stands within a redraw tick.
#[derive(Clone, Copy, Debug, PartialEq, Eq, Structural)]
pub enum Phase {
    /// Waiting for the next event.
    Idle,
    /// Finished GPU work is being retired for a tick at this window size.
    Retiring { width: u32, height: u32 },
    /// The swapchain is being recreated at this size.
    Recreating { width: u32, height: u32 },
    /// The next swapchain image is being acquired.
    Acquiring,
    /// A frame was recorded and submitted; its flush outcome is awaited.
    Presenting,
    /// The loop has ended: on a close request, or on a fatal error.
    Exited,
}

/// The synchronization marker kept from the previous frame.
#[derive(Clone, Copy, Debug, PartialEq, Eq, Structural)]
pub enum FrameMarker {
    /// An already complete marker: waiting on it is a no-op.
    Complete,
    /// The fence of the last flushed frame.
    Pending,
}

/// Errors that end the process.
#[derive(Clone, Copy, Debug, PartialEq, Eq, Structural)]
pub enum Fatal {
    RecreateFailed,
    AcquireFailed,
    ImageOutOfRange,
}

/// Window events, and outcomes of the graphics calls that an [`Action`]
/// asked for.
#[derive(Clone, Copy, Debug, PartialEq, Eq, Structural)]
pub enum Input {
    /// The cursor moved to pixel `(x, y)`; the window measures
    /// `width` by `height` now.
    CursorMoved { x: i32, y: i32, width: u32, height: u32 },
    Resized,
    CloseRequested,
    /// A redraw tick; the window's drawable size is `width` by `height`.
    RedrawTick { width: u32, height: u32 },
    /// Finished GPU work was retired.
    Retired,
    /// The swapchain was recreated: `image_count` images of
    /// `width` by `height`.
    Recreated { width: u32, height: u32, image_count: usize },
    /// The platform does not support the requested image size.
    RecreateUnsupported,
    RecreateFailed,
    /// Image `image` was acquired; `suboptimal` asks for a refresh soon.
    Acquired { image: usize, suboptimal: bool },
    /// Acquisition found the swapchain stale.
    AcquireOutOfDate,
    AcquireFailed,
    /// Submit and present were flushed; a fence now guards the frame.
    Flushed,
    /// Present found the swapchain stale.
    FlushOutOfDate,
    /// Any other failure of submit or present.
    FlushFailed,
}

/// One frame to record and submit: clear, set the viewport, bind the
/// pipeline and vertex buffer, push `mouse` with the elapsed time, draw
/// `vertex_count` vertices `instance_count` times, end the pass, then
/// execute and present `image` after the previous frame and the acquire.
#[derive(Clone, Copy, Debug, PartialEq, Eq, Structural)]
pub struct FrameCommand {
    pub image: usize,
    pub mouse: MouseInput,
    pub vertex_count: u32,
    pub instance_count: u32,
}

/// What the host does next.
#[derive(Clone, Copy, Debug, PartialEq, Eq, Structural)]
pub enum Action {
    /// Nothing until the next event.
    Wait,
    /// Leave the event loop.
    Exit,
    /// Retire GPU work of earlier frames that has completed.
    RetireFinished,
    /// Recreate the swapchain, framebuffers and viewport at this size.
    Recreate { width: u32, height: u32 },
    /// Acquire the next swapchain image, with no timeout.
    Acquire,
    Submit(FrameCommand),
    /// Keep the flushed frame's fence as the previous frame's marker.
    KeepFrame,
    /// Replace the previous frame's marker by an already complete one,
    /// logging the flush error first where `log_error` holds.
    ResetMarker { log_error: bool },
    /// End the process.
    Abort(Fatal),
}

/// The loop's whole state, passed by exclusive ownership into each step.
#[derive(Clone, Copy, Debug, PartialEq, Eq, Structural)]
pub struct LoopState {
    pub phase: Phase,
    pub recreate_swapchain: bool,
    pub mouse: MouseInput,
    pub extent: Extent,
    pub image_count: usize,
    pub previous_frame: FrameMarker,
}

/// The state before the first event: swapchain just made with
/// `image_count` images of `width` by `height`, cursor at the origin.
pub open spec fn initial_spec(width: u32, height: u32, image_count: usize) -> LoopState {
    LoopState {
        phase: Phase::Idle,
        recreate_swapchain: false,
        mouse: MouseInput { x: 0, y: 0, width: 1, height: 1 },
        extent: Extent { width, height },
        image_count,
        previous_frame: FrameMarker::Complete,
    }
}

/// One transition of the loop: the next state and the action for the host.
///
/// Once exited the loop answers every input with `Exit`. Cursor, resize and
/// close events are taken in every phase; each other input is taken only in
/// the phase that awaits it and is otherwise ignored.
pub open spec fn step_spec(s: LoopState, i: Input) -> (LoopState, Action) {
    if s.phase is Exited {
        (s, Action::Exit)
    } else {
        match i {
            Input::CursorMoved { x, y, width, height } =>
                (LoopState { mouse: MouseInput { x, y, width, height }, ..s }, Action::Wait),
            Input::Resized => (LoopState { recreate_swapchain: true, ..s }, Action::Wait),
            Input::CloseRequested => (LoopState { phase: Phase::Exited, ..s }, Action::Exit),
            Input::RedrawTick { width, height } =>
                if s.phase is Idle && width != 0 && height != 0 {
                    (LoopState { phase: Phase::Retiring { width, height }, ..s }, Action::RetireFinished)
                } else {
                    (s, Action::Wait)
                },
            Input::Retired => match s.phase {
                Phase::Retiring { width, height } =>
                    if s.recreate_swapchain {
                        (LoopState { phase: Phase::Recreating { width, height }, ..s },
                         Action::Recreate { width, height })
                    } else {
                        (LoopState { phase: Phase::Acquiring, ..s }, Action::Acquire)
                    },
                _ => (s, Action::Wait),
            },
            Input::Recreated { width, height, image_count } =>
                if s.phase is Recreating {
                    (LoopState {
                        phase: Phase::Acquiring,
                        recreate_swapchain: false,
                        extent: Extent { width, height },
                        image_count,
                        ..s
                    }, Action::Acquire)
                } else {
                    (s, Action::Wait)
                },
            Input::RecreateUnsupported =>
                if s.phase is Recreating {
                    (LoopState { phase: Phase::Idle, ..s }, Action::Wait)
                } else {
                    (s, Action::Wait)
                },
            Input::RecreateFailed =>
                if s.phase is Recreating {
                    (LoopState { phase: Phase::Exited, ..s }, Action::Abort(Fatal::RecreateFailed))
                } else {
                    (s, Action::Wait)
                },
            Input::Acquired { image, suboptimal } =>
                if !(s.phase is Acquiring) {
                    (s, Action::Wait)
                } else if image < s.image_count {
                    (LoopState {
                        phase: Phase::Presenting,
                        recreate_swapchain: s.recreate_swapchain || suboptimal,
                        ..s
                    }, Action::Submit(FrameCommand {
                        image,
                        mouse: s.mouse,
                        vertex_count: VERTEX_COUNT,
                        instance_count: INSTANCE_COUNT,
                    }))
                } else {
                    (LoopState { phase: Phase::Exited, ..s }, Action::Abort(Fatal::ImageOutOfRange))
                },
            Input::AcquireOutOfDate =>
                if s.phase is Acquiring {
                    (LoopState { phase: Phase::Idle, recreate_swapchain: true, ..s }, Action::Wait)
                } else {
                    (s, Action::Wait)
                },
            Input::AcquireFailed =>
                if s.phase is Acquiring {
                    (LoopState { phase: Phase::Exited, ..s }, Action::Abort(Fatal::AcquireFailed))
                } else {
                    (s, Action::Wait)
                },
            Input::Flushed =>
                if s.phase is Presenting {
                    (LoopState { phase: Phase::Idle, previous_frame: FrameMarker::Pending, ..s },
                     Action::KeepFrame)
                } else {
                    (s, Action::Wait)
                },
            Input::FlushOutOfDate =>
                if s.phase is Presenting {
                    (LoopState {
                        phase: Phase::Idle,
                        recreate_swapchain: true,
                        previous_frame: FrameMarker::Complete,
                        ..s
                    }, Action::ResetMarker { log_error: false })
                } else {
                    (s, Action::Wait)
                },
            Input::FlushFailed =>
                if s.phase is Presenting {
                    (LoopState { phase: Phase::Idle, previous_frame: FrameMarker::Complete, ..s },
                     Action::ResetMarker { log_error: true })
                } else {
                    (s, Action::Wait)
                },
        }
    }
}

impl LoopState {
    /// A recreate is under way only while one is pending.
    pub open spec fn wf(&self) -> bool {
        self.phase is Recreating ==> self.recreate_swapchain
    }

    /// The state before the first event.
    pub fn new(width: u32, height: u32, image_count: usize) -> (r: LoopState)
        ensures
            r == initial_spec(width, height, image_count),
            r.wf(),
    {
        LoopState {
            phase: Phase::Idle,
            recreate_swapchain: false,
            mouse: MouseInput { x: 0, y: 0, width: 1, height: 1 },
            extent: Extent { width, height },
            image_count,
            previous_frame: FrameMarker::Complete,
        }
    }

    /// Takes one input and returns the action the host performs next.
    pub fn step(&mut self, input: Input) -> (r: Action)
        ensures
            (*final(self), r) == step_spec(*old(self), input),
            old(self).wf() ==> final(self).wf(),
    {
        let s = *self;
        if let Phase::Exited = s.phase {
            return Action::Exit;
        }
        match input {
            Input::CursorMoved { x, y, width, height } => {
                self.mouse = MouseInput { x, y, width, height };
                Action::Wait
            },
            Input::Resized => {
                self.recreate_swapchain = true;
                Action::Wait
            },
            Input::CloseRequested => {
                self.phase = Phase::Exited;
                Action::Exit
            },
            Input::RedrawTick { width, height } => {
                if let Phase::Idle = s.phase {
                    if width != 0 && height != 0 {
                        self.phase = Phase::Retiring { width, height };
                        return Action::RetireFinished;
                    }
                }
                Action::Wait
            },
            Input::Retired => match s.phase {
                Phase::Retiring { width, height } => {
                    if s.recreate_swapchain {
                        self.phase = Phase::Recreating { width, height };
                        Action::Recreate { width, height }
                    } else {
                        self.phase = Phase::Acquiring;
                        Action::Acquire
                    }
                },
                _ => Action::Wait,
            },
            Input::Recreated { width, height, image_count } => match s.phase {
                Phase::Recreating { .. } => {
                    self.phase = Phase::Acquiring;
                    self.recreate_swapchain = false;
                    self.extent = Extent { width, height };
                    self.image_count = image_count;
                    Action::Acquire
                },
                _ => Action::Wait,
            },
            Input::RecreateUnsupported => match s.phase {
                Phase::Recreating { .. } => {
                    self.phase = Phase::Idle;
                    Action::Wait
                },
                _ => Action::Wait,
            },
            Input::RecreateFailed => match s.phase {
                Phase::Recreating { .. } => {
                    self.phase = Phase::Exited;
                    Action::Abort(Fatal::RecreateFailed)
                },
                _ => Action::Wait,
            },
            Input::Acquired { image, suboptimal } => match s.phase {
                Phase::Acquiring => {
                    if image < s.image_count {
                        self.phase = Phase::Presenting;
                        self.recreate_swapchain = s.recreate_swapchain || suboptimal;
                        Action::Submit(FrameCommand {
                            image,
                            mouse: s.mouse,
                            vertex_count: VERTEX_COUNT,
                            instance_count: INSTANCE_COUNT,
                        })
                    } else {
                        self.phase = Phase::Exited;
                        Action::Abort(Fatal::ImageOutOfRange)
                    }
                },
                _ => Action::Wait,
            },
            Input::AcquireOutOfDate => match s.phase {
                Phase::Acquiring => {
                    self.phase = Phase::Idle;
                    self.recreate_swapchain = true;
                    Action::Wait
                },
                _ => Action::Wait,
            },
            Input::AcquireFailed => match s.phase {
                Phase::Acquiring => {
                    self.phase = Phase::Exited;
                    Action::Abort(Fatal::AcquireFailed)
                },
                _ => Action::Wait,
            },
            Input::Flushed => match s.phase {
                Phase::Presenting => {
                    self.phase = Phase::Idle;
                    self.previous_frame = FrameMarker::Pending;
                    Action::KeepFrame
                },
                _ => Action::Wait,
            },
            Input::FlushOutOfDate => match s.phase {
                Phase::Presenting => {
                    self.phase = Phase::Idle;
                    self.recreate_swapchain = true;
                    self.previous_frame = FrameMarker::Complete;
                    Action::ResetMarker { log_error: false }
                },
                _ => Action::Wait,
            },
            Input::FlushFailed => match s.phase {
                Phase::Presenting => {
                    self.phase = Phase::Idle;
                    self.previous_frame = FrameMarker::Complete;
                    Action::ResetMarker { log_error: true }
                },
                _ => Action::Wait,
            },
        }
    }
}

} // verus!
