use wobble_render::frame_loop::{
    Action, Extent, Fatal, FrameCommand, FrameMarker, Input, LoopState, MouseInput, Phase,
    INSTANCE_COUNT, VERTEX_COUNT,
};

fn feed(s: &mut LoopState, inputs: &[Input]) -> Vec<Action> {
    inputs.iter().map(|i| s.step(*i)).collect()
}

fn submits(actions: &[Action]) -> usize {
    actions.iter().filter(|a| matches!(a, Action::Submit(_))).count()
}

fn frame(image: usize, mouse: MouseInput) -> Action {
    Action::Submit(FrameCommand { image, mouse, vertex_count: 3, instance_count: 1000 })
}

const ORIGIN: MouseInput = MouseInput { x: 0, y: 0, width: 1, height: 1 };

#[test]
fn new_state_is_at_rest() {
    let s = LoopState::new(800, 600, 3);
    assert_eq!(s.phase, Phase::Idle);
    assert!(!s.recreate_swapchain);
    assert_eq!(s.mouse, ORIGIN);
    assert_eq!(s.extent, Extent { width: 800, height: 600 });
    assert_eq!(s.image_count, 3);
    assert_eq!(s.previous_frame, FrameMarker::Complete);
    assert_eq!(VERTEX_COUNT, 3);
    assert_eq!(INSTANCE_COUNT, 1000);
}

#[test]
fn drawable_tick_submits_one_frame() {
    let mut s = LoopState::new(800, 600, 3);
    let acts = feed(
        &mut s,
        &[
            Input::RedrawTick { width: 800, height: 600 },
            Input::Retired,
            Input::Acquired { image: 2, suboptimal: false },
            Input::Flushed,
        ],
    );
    assert_eq!(acts, vec![Action::RetireFinished, Action::Acquire, frame(2, ORIGIN), Action::KeepFrame]);
    assert_eq!(submits(&acts), 1);
    assert_eq!(s.phase, Phase::Idle);
    assert_eq!(s.previous_frame, FrameMarker::Pending);
}

#[test]
fn one_pixel_window_submits_one_frame() {
    let mut s = LoopState::new(1, 1, 2);
    let acts = feed(
        &mut s,
        &[
            Input::RedrawTick { width: 1, height: 1 },
            Input::Retired,
            Input::Acquired { image: 0, suboptimal: false },
            Input::FlushFailed,
        ],
    );
    assert_eq!(submits(&acts), 1);
    assert_eq!(acts[3], Action::ResetMarker { log_error: true });
    assert_eq!(s.previous_frame, FrameMarker::Complete);
    assert!(!s.recreate_swapchain);
}

#[test]
fn zero_size_tick_is_skipped() {
    for (w, h) in [(0, 600), (800, 0), (0, 0)] {
        let mut s = LoopState::new(800, 600, 3);
        let before = s;
        let acts = feed(&mut s, &[Input::RedrawTick { width: w, height: h }]);
        assert_eq!(acts, vec![Action::Wait]);
        assert_eq!(s, before);
    }
}

#[test]
fn resize_recreates_at_new_size() {
    let mut s = LoopState::new(800, 600, 3);
    let acts = feed(
        &mut s,
        &[
            Input::Resized,
            Input::CursorMoved { x: 10, y: 20, width: 800, height: 600 },
            Input::RedrawTick { width: 1024, height: 768 },
            Input::Retired,
            Input::Recreated { width: 1024, height: 768, image_count: 4 },
            Input::Acquired { image: 3, suboptimal: false },
            Input::Flushed,
        ],
    );
    assert_eq!(acts[3], Action::Recreate { width: 1024, height: 768 });
    assert_eq!(acts[4], Action::Acquire);
    assert_eq!(acts[5], frame(3, MouseInput { x: 10, y: 20, width: 800, height: 600 }));
    assert_eq!(s.extent, Extent { width: 1024, height: 768 });
    assert_eq!(s.image_count, 4);
    assert!(!s.recreate_swapchain);
}

#[test]
fn unsupported_size_retried_next_tick() {
    let mut s = LoopState::new(800, 600, 3);
    let acts = feed(
        &mut s,
        &[
            Input::Resized,
            Input::RedrawTick { width: 5, height: 5 },
            Input::Retired,
            Input::RecreateUnsupported,
        ],
    );
    assert_eq!(submits(&acts), 0);
    assert_eq!(acts[3], Action::Wait);
    assert_eq!(s.phase, Phase::Idle);
    assert!(s.recreate_swapchain);
    assert_eq!(s.extent, Extent { width: 800, height: 600 });
    let acts = feed(&mut s, &[Input::RedrawTick { width: 640, height: 480 }, Input::Retired]);
    assert_eq!(acts[1], Action::Recreate { width: 640, height: 480 });
}

#[test]
fn cursor_move_reaches_next_frame() {
    let mut s = LoopState::new(800, 600, 3);
    feed(&mut s, &[Input::CursorMoved { x: 100, y: 50, width: 800, height: 600 }]);
    feed(&mut s, &[Input::CursorMoved { x: 400, y: 300, width: 800, height: 600 }]);
    let acts = feed(
        &mut s,
        &[
            Input::RedrawTick { width: 800, height: 600 },
            Input::Retired,
            Input::Acquired { image: 0, suboptimal: false },
        ],
    );
    assert_eq!(acts[2], frame(0, MouseInput { x: 400, y: 300, width: 800, height: 600 }));
}

#[test]
fn close_ends_loop() {
    let mut s = LoopState::new(800, 600, 3);
    let acts = feed(
        &mut s,
        &[
            Input::CloseRequested,
            Input::RedrawTick { width: 800, height: 600 },
            Input::Retired,
            Input::Acquired { image: 0, suboptimal: false },
            Input::Flushed,
        ],
    );
    assert!(acts.iter().all(|a| *a == Action::Exit));
    assert_eq!(submits(&acts), 0);
    assert_eq!(s.phase, Phase::Exited);
}

#[test]
fn close_during_tick_ends_loop() {
    let mut s = LoopState::new(800, 600, 3);
    let acts = feed(
        &mut s,
        &[Input::RedrawTick { width: 800, height: 600 }, Input::CloseRequested, Input::Retired],
    );
    assert_eq!(acts, vec![Action::RetireFinished, Action::Exit, Action::Exit]);
}

#[test]
fn stale_acquire_recovers() {
    let mut s = LoopState::new(800, 600, 3);
    let acts = feed(
        &mut s,
        &[
            Input::RedrawTick { width: 800, height: 600 },
            Input::Retired,
            Input::AcquireOutOfDate,
            Input::RedrawTick { width: 900, height: 700 },
            Input::Retired,
            Input::Recreated { width: 900, height: 700, image_count: 3 },
            Input::Acquired { image: 1, suboptimal: false },
            Input::Flushed,
        ],
    );
    assert_eq!(
        acts,
        vec![
            Action::RetireFinished,
            Action::Acquire,
            Action::Wait,
            Action::RetireFinished,
            Action::Recreate { width: 900, height: 700 },
            Action::Acquire,
            frame(1, ORIGIN),
            Action::KeepFrame,
        ]
    );
    assert_eq!(s.extent, Extent { width: 900, height: 700 });
}

#[test]
fn suboptimal_acquire_draws_and_flags_recreate() {
    let mut s = LoopState::new(800, 600, 3);
    let acts = feed(
        &mut s,
        &[
            Input::RedrawTick { width: 800, height: 600 },
            Input::Retired,
            Input::Acquired { image: 1, suboptimal: true },
            Input::Flushed,
            Input::RedrawTick { width: 800, height: 600 },
            Input::Retired,
        ],
    );
    assert_eq!(acts[2], frame(1, ORIGIN));
    assert_eq!(acts[5], Action::Recreate { width: 800, height: 600 });
}

#[test]
fn stale_present_resets_marker_and_flags_recreate() {
    let mut s = LoopState::new(800, 600, 3);
    let acts = feed(
        &mut s,
        &[
            Input::RedrawTick { width: 800, height: 600 },
            Input::Retired,
            Input::Acquired { image: 0, suboptimal: false },
            Input::FlushOutOfDate,
        ],
    );
    assert_eq!(acts[3], Action::ResetMarker { log_error: false });
    assert!(s.recreate_swapchain);
    assert_eq!(s.previous_frame, FrameMarker::Complete);
    assert_eq!(s.phase, Phase::Idle);
}

#[test]
fn recreate_failure_is_fatal() {
    let mut s = LoopState::new(800, 600, 3);
    let acts = feed(
        &mut s,
        &[
            Input::Resized,
            Input::RedrawTick { width: 800, height: 600 },
            Input::Retired,
            Input::RecreateFailed,
            Input::RedrawTick { width: 800, height: 600 },
        ],
    );
    assert_eq!(acts[3], Action::Abort(Fatal::RecreateFailed));
    assert_eq!(acts[4], Action::Exit);
    assert_eq!(s.phase, Phase::Exited);
}

#[test]
fn acquire_failure_is_fatal() {
    let mut s = LoopState::new(800, 600, 3);
    let acts = feed(
        &mut s,
        &[Input::RedrawTick { width: 800, height: 600 }, Input::Retired, Input::AcquireFailed],
    );
    assert_eq!(acts[2], Action::Abort(Fatal::AcquireFailed));
}

#[test]
fn image_out_of_range_is_fatal() {
    let mut s = LoopState::new(800, 600, 3);
    let acts = feed(
        &mut s,
        &[
            Input::RedrawTick { width: 800, height: 600 },
            Input::Retired,
            Input::Acquired { image: 3, suboptimal: false },
        ],
    );
    assert_eq!(acts[2], Action::Abort(Fatal::ImageOutOfRange));
}

#[test]
fn out_of_phase_outcomes_ignored() {
    let mut s = LoopState::new(800, 600, 3);
    let before = s;
    let acts = feed(
        &mut s,
        &[
            Input::Retired,
            Input::Recreated { width: 1, height: 1, image_count: 1 },
            Input::RecreateFailed,
            Input::Acquired { image: 0, suboptimal: true },
            Input::AcquireFailed,
            Input::Flushed,
            Input::FlushFailed,
        ],
    );
    assert!(acts.iter().all(|a| *a == Action::Wait));
    assert_eq!(s, before);
}
