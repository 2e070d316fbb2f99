//! Properties of the frame loop over whole runs of inputs.
use vstd::prelude::*;
use crate::frame_loop::{
    step_spec, Action, Extent, FrameCommand, Input, LoopState, MouseInput, Phase, INSTANCE_COUNT,
    VERTEX_COUNT,
};

verus! {

/// The state reached, and the actions answered, when `inputs` are fed in
/// order from `s`.
pub open spec fn run(s: LoopState, inputs: Seq<Input>) -> (LoopState, Seq<Action>)
    decreases inputs.len(),
{
    if inputs.len() == 0 {
        (s, Seq::empty())
    } else {
        let (s1, a) = step_spec(s, inputs[0]);
        let (s2, rest) = run(s1, inputs.drop_first());
        (s2, seq![a] + rest)
    }
}

/// How many frames `actions` submit.
pub open spec fn submit_count(actions: Seq<Action>) -> nat
    decreases actions.len(),
{
    if actions.len() == 0 {
        0
    } else {
        (if actions[0] is Submit { 1nat } else { 0nat }) + submit_count(actions.drop_first())
    }
}

/// No action in `actions` ends the process.
pub open spec fn no_abort(actions: Seq<Action>) -> bool {
    forall|k: int| 0 <= k < actions.len() ==> !(#[trigger] actions[k] is Abort)
}

/// The outcomes of a flushed submit and present.
pub open spec fn is_flush_outcome(i: Input) -> bool {
    i is Flushed || i is FlushOutOfDate || i is FlushFailed
}

/// The inputs of one redraw tick at a drawable size whose graphics calls
/// succeed: retire, recreate where a recreate is pending (giving
/// `image_count` images), acquire `image`, then the flush outcome.
pub open spec fn drawable_tick(
    recreate: bool,
    width: u32,
    height: u32,
    image_count: usize,
    image: usize,
    suboptimal: bool,
    flush: Input,
) -> Seq<Input> {
    if recreate {
        seq![
            Input::RedrawTick { width, height },
            Input::Retired,
            Input::Recreated { width, height, image_count },
            Input::Acquired { image, suboptimal },
            flush,
        ]
    } else {
        seq![
            Input::RedrawTick { width, height },
            Input::Retired,
            Input::Acquired { image, suboptimal },
            flush,
        ]
    }
}

proof fn lemma_run_cons(s: LoopState, i: Input, rest: Seq<Input>)
    ensures
        run(s, seq![i] + rest) == ({
            let (s1, a) = step_spec(s, i);
            let (s2, acts) = run(s1, rest);
            (s2, seq![a] + acts)
        }),
{
    let inputs = seq![i] + rest;
    assert(inputs[0] == i);
    assert(inputs.drop_first() =~= rest);
}

proof fn lemma_count_cons(a: Action, rest: Seq<Action>)
    ensures
        submit_count(seq![a] + rest) == (if a is Submit { 1nat } else { 0nat }) + submit_count(rest),
{
    let acts = seq![a] + rest;
    assert(acts[0] == a);
    assert(acts.drop_first() =~= rest);
}

proof fn lemma_count_none(acts: Seq<Action>)
    requires
        forall|k: int| 0 <= k < acts.len() ==> !(#[trigger] acts[k] is Submit),
    ensures
        submit_count(acts) == 0,
    decreases acts.len(),
{
    if acts.len() > 0 {
        lemma_count_none(acts.drop_first());
    }
}

/// A redraw tick on a window with a zero dimension submits nothing, raises
/// no error and leaves the state as it was.
pub proof fn lemma_zero_size_tick_is_skipped(s: LoopState, width: u32, height: u32)
    requires
        !(s.phase is Exited),
        width == 0 || height == 0,
    ensures
        step_spec(s, Input::RedrawTick { width, height }) == (s, Action::Wait),
{
}

/// Once a close request is taken, the loop has exited and answers every
/// later input with `Exit`: no frame is submitted afterwards.
pub proof fn lemma_close_ends_frames(s: LoopState, later: Seq<Input>)
    ensures
        ({
            let (s2, acts) = run(s, seq![Input::CloseRequested] + later);
            &&& s2.phase is Exited
            &&& acts.len() == later.len() + 1
            &&& forall|k: int| 0 <= k < acts.len() ==> #[trigger] acts[k] == Action::Exit
            &&& submit_count(acts) == 0
        }),
{
    lemma_run_cons(s, Input::CloseRequested, later);
    let s1 = step_spec(s, Input::CloseRequested).0;
    lemma_exited_absorbs(s1, later);
    let acts = run(s, seq![Input::CloseRequested] + later).1;
    assert forall|k: int| 0 <= k < acts.len() implies #[trigger] acts[k] == Action::Exit by {
        if k > 0 {
            assert(acts[k] == run(s1, later).1[k - 1]);
        }
    }
    lemma_count_none(acts);
}

proof fn lemma_exited_absorbs(s: LoopState, later: Seq<Input>)
    requires
        s.phase is Exited,
    ensures
        run(s, later).0 == s,
        run(s, later).1.len() == later.len(),
        forall|k: int| 0 <= k < later.len() ==> #[trigger] run(s, later).1[k] == Action::Exit,
    decreases later.len(),
{
    if later.len() > 0 {
        lemma_exited_absorbs(s, later.drop_first());
        let acts = run(s, later).1;
        let rest = run(s, later.drop_first()).1;
        assert forall|k: int| 0 <= k < later.len() implies #[trigger] acts[k] == Action::Exit by {
            if k > 0 {
                assert(acts[k] == rest[k - 1]);
            }
        }
    }
}

/// After the cursor moves to pixel `(x, y)` of a `width` by `height`
/// window, every frame submitted before the next cursor move carries the
/// normalized mouse input `(x / width, y / height)`, never an earlier one.
pub proof fn lemma_cursor_reaches_next_frames(
    s: LoopState,
    x: i32,
    y: i32,
    width: u32,
    height: u32,
    later: Seq<Input>,
)
    requires
        !(s.phase is Exited),
        forall|k: int| 0 <= k < later.len() ==> !(#[trigger] later[k] is CursorMoved),
    ensures
        ({
            let acts = run(s, seq![Input::CursorMoved { x, y, width, height }] + later).1;
            forall|k: int| 0 <= k < acts.len() && #[trigger] acts[k] is Submit
                ==> acts[k]->Submit_0.mouse == (MouseInput { x, y, width, height })
        }),
{
    let i = Input::CursorMoved { x, y, width, height };
    lemma_run_cons(s, i, later);
    let s1 = step_spec(s, i).0;
    lemma_mouse_kept(s1, later);
    let acts = run(s, seq![i] + later).1;
    assert forall|k: int| 0 <= k < acts.len() && #[trigger] acts[k] is Submit
        implies acts[k]->Submit_0.mouse == (MouseInput { x, y, width, height }) by {
        assert(k > 0);
        assert(acts[k] == run(s1, later).1[k - 1]);
    }
}

proof fn lemma_mouse_kept(s: LoopState, later: Seq<Input>)
    requires
        forall|k: int| 0 <= k < later.len() ==> !(#[trigger] later[k] is CursorMoved),
    ensures
        run(s, later).0.mouse == s.mouse,
        run(s, later).1.len() == later.len(),
        forall|k: int| 0 <= k < later.len() && #[trigger] run(s, later).1[k] is Submit
            ==> run(s, later).1[k]->Submit_0.mouse == s.mouse,
    decreases later.len(),
{
    if later.len() > 0 {
        let (s1, a) = step_spec(s, later[0]);
        let tail = later.drop_first();
        assert forall|k: int| 0 <= k < tail.len() implies !(#[trigger] tail[k] is CursorMoved) by {
            assert(tail[k] == later[k + 1]);
        }
        lemma_mouse_kept(s1, tail);
        let acts = run(s, later).1;
        assert forall|k: int| 0 <= k < later.len() && #[trigger] acts[k] is Submit
            implies acts[k]->Submit_0.mouse == s.mouse by {
            if k > 0 {
                assert(acts[k] == run(s1, tail).1[k - 1]);
            }
        }
    }
}

/// A stale swapchain found at acquire is recovered from: the next drawable
/// tick recreates the swapchain at the window's size and, once recreation
/// and acquisition succeed, submits a valid frame with no fatal abort.
pub proof fn lemma_stale_acquire_recovers(
    s: LoopState,
    width: u32,
    height: u32,
    image_count: usize,
    image: usize,
    suboptimal: bool,
)
    requires
        s.phase is Acquiring,
        width > 0,
        height > 0,
        image < image_count,
    ensures
        ({
            let inputs = seq![
                Input::AcquireOutOfDate,
                Input::RedrawTick { width, height },
                Input::Retired,
                Input::Recreated { width, height, image_count },
                Input::Acquired { image, suboptimal },
            ];
            let (s2, acts) = run(s, inputs);
            &&& acts == seq![
                Action::Wait,
                Action::RetireFinished,
                Action::Recreate { width, height },
                Action::Acquire,
                Action::Submit(FrameCommand {
                    image,
                    mouse: s.mouse,
                    vertex_count: VERTEX_COUNT,
                    instance_count: INSTANCE_COUNT,
                }),
            ]
            &&& no_abort(acts)
            &&& submit_count(acts) == 1
            &&& s2.phase is Presenting
            &&& s2.extent == (Extent { width, height })
            &&& s2.image_count == image_count
        }),
{
    let i0 = Input::AcquireOutOfDate;
    let i1 = Input::RedrawTick { width, height };
    let i2 = Input::Retired;
    let i3 = Input::Recreated { width, height, image_count };
    let i4 = Input::Acquired { image, suboptimal };
    let (s1, a0) = step_spec(s, i0);
    let (s2, a1) = step_spec(s1, i1);
    let (s3, a2) = step_spec(s2, i2);
    let (s4, a3) = step_spec(s3, i3);
    let (s5, a4) = step_spec(s4, i4);
    lemma_run_cons(s4, i4, Seq::empty());
    assert(seq![i4] + Seq::<Input>::empty() =~= seq![i4]);
    lemma_run_cons(s3, i3, seq![i4]);
    assert(seq![i3] + seq![i4] =~= seq![i3, i4]);
    lemma_run_cons(s2, i2, seq![i3, i4]);
    assert(seq![i2] + seq![i3, i4] =~= seq![i2, i3, i4]);
    lemma_run_cons(s1, i1, seq![i2, i3, i4]);
    assert(seq![i1] + seq![i2, i3, i4] =~= seq![i1, i2, i3, i4]);
    lemma_run_cons(s, i0, seq![i1, i2, i3, i4]);
    assert(seq![i0] + seq![i1, i2, i3, i4] =~= seq![i0, i1, i2, i3, i4]);
    let acts = run(s, seq![i0, i1, i2, i3, i4]).1;
    assert(acts =~= seq![a0, a1, a2, a3, a4]);
    lemma_count_cons(a0, seq![a1, a2, a3, a4]);
    assert(seq![a0] + seq![a1, a2, a3, a4] =~= acts);
    lemma_count_cons(a1, seq![a2, a3, a4]);
    assert(seq![a1] + seq![a2, a3, a4] =~= seq![a1, a2, a3, a4]);
    lemma_count_cons(a2, seq![a3, a4]);
    assert(seq![a2] + seq![a3, a4] =~= seq![a2, a3, a4]);
    lemma_count_cons(a3, seq![a4]);
    assert(seq![a3] + seq![a4] =~= seq![a3, a4]);
    lemma_count_cons(a4, Seq::empty());
    assert(seq![a4] + Seq::<Action>::empty() =~= seq![a4]);
}

/// A redraw tick at a drawable size whose graphics calls succeed submits
/// exactly one frame, whatever the outcome of its flush, raises no fatal
/// error and leaves the loop at rest for the next tick.
pub proof fn lemma_drawable_tick_submits_one_frame(
    s: LoopState,
    width: u32,
    height: u32,
    image_count: usize,
    image: usize,
    suboptimal: bool,
    flush: Input,
)
    requires
        s.phase is Idle,
        width > 0,
        height > 0,
        image < (if s.recreate_swapchain { image_count } else { s.image_count }),
        is_flush_outcome(flush),
    ensures
        ({
            let inputs = drawable_tick(
                s.recreate_swapchain,
                width,
                height,
                image_count,
                image,
                suboptimal,
                flush,
            );
            let (s2, acts) = run(s, inputs);
            &&& submit_count(acts) == 1
            &&& no_abort(acts)
            &&& s2.phase is Idle
        }),
{
    let i0 = Input::RedrawTick { width, height };
    let i1 = Input::Retired;
    let i2 = Input::Recreated { width, height, image_count };
    let i3 = Input::Acquired { image, suboptimal };
    let i4 = flush;
    if s.recreate_swapchain {
        let (s1, a0) = step_spec(s, i0);
        let (s2, a1) = step_spec(s1, i1);
        let (s3, a2) = step_spec(s2, i2);
        let (s4, a3) = step_spec(s3, i3);
        let (s5, a4) = step_spec(s4, i4);
        lemma_run_cons(s4, i4, Seq::empty());
        assert(seq![i4] + Seq::<Input>::empty() =~= seq![i4]);
        lemma_run_cons(s3, i3, seq![i4]);
        assert(seq![i3] + seq![i4] =~= seq![i3, i4]);
        lemma_run_cons(s2, i2, seq![i3, i4]);
        assert(seq![i2] + seq![i3, i4] =~= seq![i2, i3, i4]);
        lemma_run_cons(s1, i1, seq![i2, i3, i4]);
        assert(seq![i1] + seq![i2, i3, i4] =~= seq![i1, i2, i3, i4]);
        lemma_run_cons(s, i0, seq![i1, i2, i3, i4]);
        assert(seq![i0] + seq![i1, i2, i3, i4] =~= seq![i0, i1, i2, i3, i4]);
        let acts = run(s, seq![i0, i1, i2, i3, i4]).1;
        assert(acts =~= seq![a0, a1, a2, a3, a4]);
        lemma_count_cons(a0, seq![a1, a2, a3, a4]);
        assert(seq![a0] + seq![a1, a2, a3, a4] =~= acts);
        lemma_count_cons(a1, seq![a2, a3, a4]);
        assert(seq![a1] + seq![a2, a3, a4] =~= seq![a1, a2, a3, a4]);
        lemma_count_cons(a2, seq![a3, a4]);
        assert(seq![a2] + seq![a3, a4] =~= seq![a2, a3, a4]);
        lemma_count_cons(a3, seq![a4]);
        assert(seq![a3] + seq![a4] =~= seq![a3, a4]);
        lemma_count_cons(a4, Seq::empty());
        assert(seq![a4] + Seq::<Action>::empty() =~= seq![a4]);
    } else {
        let (s1, a0) = step_spec(s, i0);
        let (s2, a1) = step_spec(s1, i1);
        let (s3, a2) = step_spec(s2, i3);
        let (s4, a3) = step_spec(s3, i4);
        lemma_run_cons(s3, i4, Seq::empty());
        assert(seq![i4] + Seq::<Input>::empty() =~= seq![i4]);
        lemma_run_cons(s2, i3, seq![i4]);
        assert(seq![i3] + seq![i4] =~= seq![i3, i4]);
        lemma_run_cons(s1, i1, seq![i3, i4]);
        assert(seq![i1] + seq![i3, i4] =~= seq![i1, i3, i4]);
        lemma_run_cons(s, i0, seq![i1, i3, i4]);
        assert(seq![i0] + seq![i1, i3, i4] =~= seq![i0, i1, i3, i4]);
        let acts = run(s, seq![i0, i1, i3, i4]).1;
        assert(acts =~= seq![a0, a1, a2, a3]);
        lemma_count_cons(a0, seq![a1, a2, a3]);
        assert(seq![a0] + seq![a1, a2, a3] =~= acts);
        lemma_count_cons(a1, seq![a2, a3]);
        assert(seq![a1] + seq![a2, a3] =~= seq![a1, a2, a3]);
        lemma_count_cons(a2, seq![a3]);
        assert(seq![a2] + seq![a3] =~= seq![a2, a3]);
        lemma_count_cons(a3, Seq::empty());
        assert(seq![a3] + Seq::<Action>::empty() =~= seq![a3]);
    }
}

/// A resize from any size to a drawable `width` by `height` makes the next
/// tick recreate the swapchain at that size; once recreated, framebuffers
/// and viewport measure `width` by `height` and no recreate is pending.
pub proof fn lemma_resize_reaches_new_extent(
    s: LoopState,
    width: u32,
    height: u32,
    image_count: usize,
)
    requires
        s.phase is Idle,
        width > 0,
        height > 0,
    ensures
        ({
            let inputs = seq![
                Input::Resized,
                Input::RedrawTick { width, height },
                Input::Retired,
                Input::Recreated { width, height, image_count },
            ];
            let (s2, acts) = run(s, inputs);
            &&& acts == seq![
                Action::Wait,
                Action::RetireFinished,
                Action::Recreate { width, height },
                Action::Acquire,
            ]
            &&& s2.extent == (Extent { width, height })
            &&& s2.image_count == image_count
            &&& !s2.recreate_swapchain
            &&& s2.phase is Acquiring
        }),
{
    let i0 = Input::Resized;
    let i1 = Input::RedrawTick { width, height };
    let i2 = Input::Retired;
    let i3 = Input::Recreated { width, height, image_count };
    let (s1, a0) = step_spec(s, i0);
    let (s2, a1) = step_spec(s1, i1);
    let (s3, a2) = step_spec(s2, i2);
    let (s4, a3) = step_spec(s3, i3);
    lemma_run_cons(s3, i3, Seq::empty());
    assert(seq![i3] + Seq::<Input>::empty() =~= seq![i3]);
    lemma_run_cons(s2, i2, seq![i3]);
    assert(seq![i2] + seq![i3] =~= seq![i2, i3]);
    lemma_run_cons(s1, i1, seq![i2, i3]);
    assert(seq![i1] + seq![i2, i3] =~= seq![i1, i2, i3]);
    lemma_run_cons(s, i0, seq![i1, i2, i3]);
    assert(seq![i0] + seq![i1, i2, i3] =~= seq![i0, i1, i2, i3]);
    assert(run(s, seq![i0, i1, i2, i3]).1 =~= seq![a0, a1, a2, a3]);
}

/// Where the platform refuses the new size, the tick submits nothing and
/// the recreate stays pending for the next tick.
pub proof fn lemma_unsupported_size_stays_pending(s: LoopState)
    requires
        s.wf(),
        s.phase is Recreating,
    ensures
        step_spec(s, Input::RecreateUnsupported) == ((LoopState { phase: Phase::Idle, ..s }, Action::Wait)),
        step_spec(s, Input::RecreateUnsupported).0.recreate_swapchain,
{
}

/// Cursor, resize and close events are never dropped: in every phase of a
/// running loop they take effect at once.
pub proof fn lemma_window_events_taken(s: LoopState, x: i32, y: i32, width: u32, height: u32)
    requires
        !(s.phase is Exited),
    ensures
        step_spec(s, Input::CursorMoved { x, y, width, height }).0
            == (LoopState { mouse: MouseInput { x, y, width, height }, ..s }),
        step_spec(s, Input::Resized).0 == (LoopState { recreate_swapchain: true, ..s }),
        step_spec(s, Input::CloseRequested) == ((LoopState { phase: Phase::Exited, ..s }, Action::Exit)),
{
}

} // verus!
