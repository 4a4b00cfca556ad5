//! The way of a frame from the backend to the engine, as one state machine.
//!
//! The state is that of one worker's run and of the node that started it. Each
//! step belongs to the function that is named with it: that function's contract
//! says, by one of the relations `.._is_a_step`, that it takes whatever state it
//! finds on by the step. That the functions are called as the phases say, each
//! under the locks of what it is given, is up to the program that calls them.
//!
//! From a start until a stop is finished (which drops a frame that was not
//! shown), and whatever order the steps come in: the engine is shown exactly the
//! frames that the backend delivered, each once and in order, and the backend is
//! called in order.

use vstd::prelude::*;

use crate::backends::CaptureErrorView;
use crate::capture_thread::fresh_worker;
use crate::capture_thread::handed_over;
use crate::capture_thread::next_after;
use crate::capture_thread::AfterCapture;
use crate::capture_thread::ControlView;
use crate::capture_thread::SessionView;
use crate::capture_thread::WorkerAction;
use crate::capture_thread::WorkerView;
use crate::capture_thread::VSYNC_ACQUIRE_TIMEOUT;
use crate::desktop_caster::black_frame;
use crate::desktop_caster::consumed;
use crate::desktop_caster::prepared;
use crate::desktop_caster::screen_error;
use crate::desktop_caster::FpsMode;
use crate::frame::frame_bytes;

verus! {

/// A call into the backend.
pub ghost enum BackendCall {
    /// `init` with this geometry; whether it gave a backend.
    Init(u32, u32, bool),
    /// `capture_frame` in this mode, with this timeout and this buffer.
    Capture(FpsMode, u32, Seq<u8>),
    Destroy,
}

/// Where the worker stands.
pub ghost enum Phase {
    /// Its backend is being opened.
    Opening,
    /// It is about to decide.
    Deciding,
    /// It decided, in this mode, on this capture.
    Capturing(FpsMode, WorkerAction),
    /// Its backend has to be replaced.
    Restarting,
    /// It leaves its loop.
    Ending,
    Ended,
}

/// A worker, a node and what is between them.
pub ghost struct Pipeline {
    pub width: u32,
    pub height: u32,
    pub session: SessionView,
    pub worker: WorkerView,
    pub phase: Phase,
    pub front: Seq<u8>,
    pub back: Seq<u8>,
    /// The calls into backends, in order.
    pub calls: Seq<BackendCall>,
    /// What backends left in the buffer they were given, each time that they
    /// said it is a frame.
    pub delivered: Seq<Seq<u8>>,
    /// What the back buffer held each time that the main thread was told of a
    /// frame.
    pub completed: Seq<Seq<u8>>,
    /// The frames that the main thread took over.
    pub shown: Seq<Seq<u8>>,
}

/// Right after `DesktopCaster::prepare`, on a display of `x` by `y`.
pub open spec fn fresh(
    p: Pipeline,
    before: SessionView,
    fps_mode: FpsMode,
    target_fps: i32,
    x: i32,
    y: i32,
) -> bool {
    &&& screen_error(x, y) is None
    &&& p.width == x
    &&& p.height == y
    &&& p.session == prepared(before, fps_mode, target_fps)
    &&& p.phase is Opening
    &&& p.front == black_frame(p.width, p.height)
    &&& p.back == black_frame(p.width, p.height)
    &&& p.calls == Seq::<BackendCall>::empty()
    &&& p.delivered == Seq::<Seq<u8>>::empty()
    &&& p.completed == Seq::<Seq<u8>>::empty()
    &&& p.shown == Seq::<Seq<u8>>::empty()
}

/// After the worker's backend was opened, or could not be.
pub open spec fn after_opening(p: Pipeline, result: Result<(), Seq<char>>, now: u64) -> Pipeline {
    match result {
        Ok(()) => Pipeline {
            worker: fresh_worker(p.width, p.height, p.session, now),
            phase: Phase::Deciding,
            calls: p.calls.push(BackendCall::Init(p.width, p.height, true)),
            ..p
        },
        Err(error) => Pipeline {
            session: p.session.after_failed_init(error),
            phase: Phase::Ended,
            calls: p.calls.push(BackendCall::Init(p.width, p.height, false)),
            ..p
        },
    }
}

/// The worker's backend is opened, or could not be (`CaptureWorker::start`).
pub open spec fn opens(p: Pipeline, q: Pipeline, result: Result<(), Seq<char>>, now: u64) -> bool {
    &&& p.phase is Opening
    &&& q == after_opening(p, result, now)
}

/// Where the worker stands after it decided, in `fps_mode`, on `action`.
pub open spec fn phase_for(fps_mode: FpsMode, action: WorkerAction) -> Phase {
    match action {
        WorkerAction::Stop => Phase::Ending,
        WorkerAction::Wait(_) => Phase::Deciding,
        _ => Phase::Capturing(fps_mode, action),
    }
}

/// After the worker decided at `now`.
pub open spec fn after_deciding(p: Pipeline, now: u64) -> Pipeline {
    Pipeline {
        worker: p.worker.decided(p.session, now),
        phase: phase_for(p.session.control.fps_mode, p.worker.action(p.session, now)),
        ..p
    }
}

/// The worker decides at `now` what to do (`CaptureWorker::next_action`).
pub open spec fn decides(p: Pipeline, q: Pipeline, now: u64) -> bool {
    &&& p.phase is Deciding
    &&& q == after_deciding(p, now)
}

/// Where the worker stands after a capture, given what it then does.
pub open spec fn phase_after(next: AfterCapture) -> Phase {
    match next {
        AfterCapture::Continue => Phase::Deciding,
        AfterCapture::Wait(_) => Phase::Deciding,
        AfterCapture::Restart => Phase::Restarting,
        AfterCapture::Stop => Phase::Ending,
    }
}

/// `frames`, and `frame` where the capture gave one.
pub open spec fn with_frame(
    frames: Seq<Seq<u8>>,
    result: Result<bool, CaptureErrorView>,
    frame: Seq<u8>,
) -> Seq<Seq<u8>> {
    if result == Ok::<bool, CaptureErrorView>(true) {
        frames.push(frame)
    } else {
        frames
    }
}

/// After a capture into the back buffer, where the backend left `left`.
pub open spec fn after_back_capture(
    p: Pipeline,
    fps_mode: FpsMode,
    result: Result<bool, CaptureErrorView>,
    left: Seq<u8>,
) -> Pipeline {
    Pipeline {
        session: p.session.after_capture(result),
        phase: phase_after(next_after(result)),
        back: left,
        calls: p.calls.push(BackendCall::Capture(fps_mode, 0, p.back)),
        delivered: with_frame(p.delivered, result, left),
        completed: with_frame(p.completed, result, left),
        ..p
    }
}

/// A capture, in `fps_mode`, into the back buffer ends with `result`; the
/// backend leaves `left` there (`CaptureWorker::capture_to_back`, then
/// `CaptureSession::finish_capture`).
pub open spec fn captures_to_back(
    p: Pipeline,
    q: Pipeline,
    fps_mode: FpsMode,
    result: Result<bool, CaptureErrorView>,
    left: Seq<u8>,
) -> bool {
    &&& p.phase == Phase::Capturing(fps_mode, WorkerAction::CaptureToBack)
    &&& left.len() == p.back.len()
    &&& q == after_back_capture(p, fps_mode, result, left)
}

/// After a capture into the scratch buffer, where the backend left `left`.
pub open spec fn after_scratch_capture(
    p: Pipeline,
    fps_mode: FpsMode,
    timeout_ms: u32,
    result: Result<bool, CaptureErrorView>,
    left: Seq<u8>,
) -> Pipeline {
    let back = handed_over(result, left, p.back);
    Pipeline {
        session: p.session.after_capture(result),
        worker: WorkerView { scratch: left, ..p.worker },
        phase: phase_after(next_after(result)),
        back,
        calls: p.calls.push(
            BackendCall::Capture(fps_mode, timeout_ms, p.worker.ready_scratch()),
        ),
        delivered: with_frame(p.delivered, result, left),
        completed: with_frame(p.completed, result, back),
        ..p
    }
}

/// A capture, in `fps_mode`, into the scratch buffer ends with `result`; the
/// backend leaves `left` there (`CaptureWorker::capture_to_scratch`, then
/// `CaptureWorker::finish_scratch`).
pub open spec fn captures_to_scratch(
    p: Pipeline,
    q: Pipeline,
    fps_mode: FpsMode,
    timeout_ms: u32,
    result: Result<bool, CaptureErrorView>,
    left: Seq<u8>,
) -> bool {
    &&& p.phase == Phase::Capturing(fps_mode, WorkerAction::CaptureToScratch(timeout_ms))
    &&& left.len() == p.worker.ready_scratch().len()
    &&& q == after_scratch_capture(p, fps_mode, timeout_ms, result, left)
}

/// After the backend was destroyed and another one was opened, or could not be.
pub open spec fn after_reopening(p: Pipeline, result: Result<(), Seq<char>>) -> Pipeline {
    Pipeline {
        session: p.session.after_restart(result),
        phase: if result is Ok {
            Phase::Deciding
        } else {
            Phase::Ending
        },
        calls: p.calls.push(BackendCall::Destroy).push(
            BackendCall::Init(p.worker.width, p.worker.height, result is Ok),
        ),
        ..p
    }
}

/// The worker replaces its backend (`DestroyedBackend::new`, `reopen`, then
/// `CaptureSession::finish_restart`).
pub open spec fn reopens(p: Pipeline, q: Pipeline, result: Result<(), Seq<char>>) -> bool {
    &&& p.phase is Restarting
    &&& q == after_reopening(p, result)
}

/// After the worker's end.
pub open spec fn after_ending(p: Pipeline) -> Pipeline {
    Pipeline {
        session: p.session.stopped(),
        phase: Phase::Ended,
        calls: p.calls.push(BackendCall::Destroy),
        ..p
    }
}

/// The worker ends (`DestroyedBackend::new`, then `finish`).
pub open spec fn ends(p: Pipeline, q: Pipeline) -> bool {
    &&& p.phase is Ending
    &&& q == after_ending(p)
}

/// After the main thread took over a frame.
pub open spec fn after_showing(p: Pipeline) -> Pipeline {
    Pipeline {
        session: consumed(p.session),
        front: p.back,
        back: p.front,
        shown: p.shown.push(p.back),
        ..p
    }
}

/// The main thread takes over a frame that is ready
/// (`DesktopCaster::show_frame`).
pub open spec fn shows(p: Pipeline, q: Pipeline) -> bool {
    &&& p.session.frame_ready
    &&& q == after_showing(p)
}

/// After the main thread left `control` behind.
pub open spec fn after_control(p: Pipeline, control: ControlView) -> Pipeline {
    Pipeline { session: SessionView { control, ..p.session }, ..p }
}

/// The main thread changes requests or takes errors (`DesktopCaster::process`,
/// `set_fps_mode_runtime`, `set_target_fps_runtime`).
pub open spec fn controls(p: Pipeline, q: Pipeline, control: ControlView) -> bool {
    q == after_control(p, control)
}

/// After the main thread wanted the worker to end.
pub open spec fn after_stopping(p: Pipeline) -> Pipeline {
    Pipeline { session: p.session.stopped(), ..p }
}

/// The main thread wants the worker to end (`CaptureSession::stop`).
pub open spec fn stops(p: Pipeline, q: Pipeline) -> bool {
    q == after_stopping(p)
}

/// What `DesktopCaster::prepare` leaves behind, for a display of `width` by
/// `height`, is where a run starts.
pub open spec fn preparing_is_fresh(
    before: SessionView,
    after: SessionView,
    fps_mode: FpsMode,
    target_fps: i32,
    width: u32,
    height: u32,
    front: Seq<u8>,
    back: Seq<u8>,
) -> bool {
    forall|p: Pipeline|
        {
            &&& p.width == width
            &&& p.height == height
            &&& p.session == after
            &&& p.phase is Opening
            &&& p.front == front
            &&& p.back == back
            &&& p.calls == Seq::<BackendCall>::empty()
            &&& p.delivered == Seq::<Seq<u8>>::empty()
            &&& p.completed == Seq::<Seq<u8>>::empty()
            &&& p.shown == Seq::<Seq<u8>>::empty()
        } ==> #[trigger] fresh(p, before, fps_mode, target_fps, width as i32, height as i32)
}

/// Whatever pipeline `CaptureWorker::start` finds at its opening, it takes it on
/// by `opens`. The worker is there if and only if the run goes on.
pub open spec fn start_is_a_step(
    before: SessionView,
    after: SessionView,
    width: u32,
    height: u32,
    result: Result<(), Seq<char>>,
    worker: Option<WorkerView>,
    now: u64,
) -> bool {
    forall|p: Pipeline|
        #![trigger after_opening(p, result, now)]
        p.phase is Opening && p.session == before && p.width == width && p.height == height ==> {
            let q = after_opening(p, result, now);
            &&& opens(p, q, result, now)
            &&& q.session == after
            &&& match worker {
                Some(worker) => q.phase is Deciding && q.worker == worker,
                None => q.phase is Ended,
            }
        }
}

/// Whatever pipeline `CaptureWorker::next_action` finds, it takes it on by
/// `decides`.
pub open spec fn decision_is_a_step(
    before: WorkerView,
    after: WorkerView,
    session: SessionView,
    action: WorkerAction,
    now: u64,
) -> bool {
    forall|p: Pipeline|
        #![trigger after_deciding(p, now)]
        p.phase is Deciding && p.session == session && p.worker == before ==> {
            let q = after_deciding(p, now);
            &&& decides(p, q, now)
            &&& q.session == session
            &&& q.worker == after
            &&& q.phase == phase_for(session.control.fps_mode, action)
        }
}

/// Whatever pipeline `CaptureSession::finish_capture` finds after a capture
/// into the back buffer, it takes it on by `captures_to_back`.
pub open spec fn back_capture_is_a_step(
    before: SessionView,
    after: SessionView,
    result: Result<bool, CaptureErrorView>,
    next: AfterCapture,
) -> bool {
    forall|p: Pipeline, fps_mode: FpsMode, left: Seq<u8>|
        #![trigger after_back_capture(p, fps_mode, result, left)]
        p.phase == Phase::Capturing(fps_mode, WorkerAction::CaptureToBack) && p.session == before
            && left.len() == p.back.len() ==> {
            let q = after_back_capture(p, fps_mode, result, left);
            &&& captures_to_back(p, q, fps_mode, result, left)
            &&& q.session == after
            &&& q.phase == phase_after(next)
        }
}

/// Whatever pipeline `CaptureWorker::finish_scratch` finds after a capture into
/// the scratch buffer of `worker`, it takes it on by `captures_to_scratch`.
pub open spec fn scratch_capture_is_a_step(
    worker: WorkerView,
    before: SessionView,
    after: SessionView,
    old_back: Seq<u8>,
    new_back: Seq<u8>,
    result: Result<bool, CaptureErrorView>,
    next: AfterCapture,
) -> bool {
    forall|p: Pipeline, fps_mode: FpsMode, timeout_ms: u32|
        #![trigger after_scratch_capture(p, fps_mode, timeout_ms, result, worker.scratch)]
        {
            &&& p.phase == Phase::Capturing(fps_mode, WorkerAction::CaptureToScratch(timeout_ms))
            &&& p.session == before
            &&& p.back == old_back
            &&& worker == (WorkerView { scratch: worker.scratch, ..p.worker })
            &&& worker.scratch.len() == p.worker.ready_scratch().len()
        } ==> {
            let q = after_scratch_capture(p, fps_mode, timeout_ms, result, worker.scratch);
            &&& captures_to_scratch(p, q, fps_mode, timeout_ms, result, worker.scratch)
            &&& q.session == after
            &&& q.worker == worker
            &&& q.back == new_back
            &&& q.phase == phase_after(next)
        }
}

/// Whatever pipeline `CaptureSession::finish_restart` finds, it takes it on by
/// `reopens`.
pub open spec fn restart_is_a_step(
    before: SessionView,
    after: SessionView,
    result: Result<(), Seq<char>>,
    goes_on: bool,
) -> bool {
    forall|p: Pipeline|
        #![trigger after_reopening(p, result)]
        p.phase is Restarting && p.session == before ==> {
            let q = after_reopening(p, result);
            &&& reopens(p, q, result)
            &&& q.session == after
            &&& q.phase == (if goes_on {
                Phase::Deciding
            } else {
                Phase::Ending
            })
        }
}

/// Whatever pipeline `DestroyedBackend::finish` finds, it takes it on by `ends`.
pub open spec fn end_is_a_step(before: SessionView, after: SessionView) -> bool {
    forall|p: Pipeline|
        #![trigger after_ending(p)]
        p.phase is Ending && p.session == before ==> {
            &&& ends(p, after_ending(p))
            &&& after_ending(p).session == after
        }
}

/// Whatever pipeline `DesktopCaster::show_frame` finds with a frame that is
/// ready, it takes it on by `shows`.
pub open spec fn showing_is_a_step(
    before: SessionView,
    after: SessionView,
    old_front: Seq<u8>,
    old_back: Seq<u8>,
    new_front: Seq<u8>,
    new_back: Seq<u8>,
) -> bool {
    forall|p: Pipeline|
        #![trigger after_showing(p)]
        before.frame_ready && p.session == before && p.front == old_front && p.back == old_back
            ==> {
            let q = after_showing(p);
            &&& shows(p, q)
            &&& q.session == after
            &&& q.front == new_front
            &&& q.back == new_back
        }
}

/// Whatever pipeline a function of the main thread finds that deals with
/// requests and errors, it takes it on by `controls`.
pub open spec fn control_is_a_step(before: SessionView, after: SessionView) -> bool {
    forall|p: Pipeline|
        #![trigger after_control(p, after.control)]
        p.session == before ==> {
            let q = after_control(p, after.control);
            &&& controls(p, q, after.control)
            &&& q.session == after
        }
}

/// Whatever pipeline `CaptureSession::stop` finds, it takes it on by `stops`.
pub open spec fn stop_is_a_step(before: SessionView, after: SessionView) -> bool {
    forall|p: Pipeline|
        #![trigger after_stopping(p)]
        p.session == before ==> {
            &&& stops(p, after_stopping(p))
            &&& after_stopping(p).session == after
        }
}

/// One step of either side.
pub open spec fn step(p: Pipeline, q: Pipeline) -> bool {
    ||| exists|result: Result<(), Seq<char>>, now: u64| #[trigger] opens(p, q, result, now)
    ||| exists|now: u64| #[trigger] decides(p, q, now)
    ||| exists|fps_mode: FpsMode, result: Result<bool, CaptureErrorView>, left: Seq<u8>|
        #[trigger] captures_to_back(p, q, fps_mode, result, left)
    ||| exists|
        fps_mode: FpsMode,
        timeout_ms: u32,
        result: Result<bool, CaptureErrorView>,
        left: Seq<u8>,
    | #[trigger]
        captures_to_scratch(p, q, fps_mode, timeout_ms, result, left)
    ||| exists|result: Result<(), Seq<char>>| #[trigger] reopens(p, q, result)
    ||| ends(p, q)
    ||| shows(p, q)
    ||| exists|control: ControlView| #[trigger] controls(p, q, control)
    ||| stops(p, q)
}

/// A run: each state but the first comes from the one before by a step.
pub open spec fn run(states: Seq<Pipeline>) -> bool {
    &&& states.len() > 0
    &&& forall|i: int, j: int|
        0 <= i && j == i + 1 && j < states.len() ==> step(#[trigger] states[i], #[trigger] states[j])
}

/// After these calls there is a backend that was opened and not destroyed.
pub open spec fn is_live(calls: Seq<BackendCall>) -> bool
    decreases calls.len(),
{
    if calls.len() == 0 {
        false
    } else {
        match calls.last() {
            BackendCall::Init(_, _, opened) => opened,
            BackendCall::Destroy => false,
            BackendCall::Capture(_, _, _) => is_live(calls.drop_last()),
        }
    }
}

/// The `i`-th call is in order: a backend is opened, with the run's geometry,
/// only where none is live; only a live one captures, into a buffer of exactly
/// one frame, without a wait in Manual mode and with a bounded one in Vsync
/// mode.
pub open spec fn call_in_order(
    calls: Seq<BackendCall>,
    width: u32,
    height: u32,
    i: int,
) -> bool {
    match calls[i] {
        BackendCall::Init(w, h, _) => {
            &&& !is_live(calls.take(i))
            &&& w == width
            &&& h == height
        },
        BackendCall::Capture(fps_mode, timeout_ms, buffer) => {
            &&& is_live(calls.take(i))
            &&& buffer.len() == frame_bytes(width as nat, height as nat)
            &&& timeout_ms == (if fps_mode == FpsMode::Manual {
                0
            } else {
                VSYNC_ACQUIRE_TIMEOUT
            })
        },
        BackendCall::Destroy => true,
    }
}

/// All calls are in order.
pub open spec fn calls_in_order(calls: Seq<BackendCall>, width: u32, height: u32) -> bool {
    forall|i: int| 0 <= i < calls.len() ==> #[trigger] call_in_order(calls, width, height, i)
}

/// The worker has a backend.
pub open spec fn has_backend(phase: Phase) -> bool {
    phase is Deciding || phase is Capturing || phase is Restarting
}

/// What holds in every state.
pub open spec fn in_order(p: Pipeline) -> bool {
    let len = frame_bytes(p.width as nat, p.height as nat);
    // The worker never writes a back buffer that holds a frame to be shown.
    &&& p.phase is Capturing ==> !p.session.frame_ready
    // The main thread is told of what the backend delivered, and of nothing
    // else.
    &&& p.completed == p.delivered
    // What was shown is what was completed, frame by frame; at most one
    // completed frame is still to be shown.
    &&& p.completed == (if p.session.frame_ready {
        p.shown.push(p.back)
    } else {
        p.shown
    })
    // The engine reads the frame that was shown last.
    &&& p.shown.len() > 0 ==> p.front == p.shown.last()
    // Every buffer holds one frame.
    &&& len <= usize::MAX
    &&& p.front.len() == len
    &&& p.back.len() == len
    &&& !(p.phase is Opening || p.phase is Ended) ==> p.worker.width == p.width
        && p.worker.height == p.height
    // A capture is of the kind that its mode asks for.
    &&& p.phase matches Phase::Capturing(fps_mode, action) ==> action == (if fps_mode
        == FpsMode::Manual {
        WorkerAction::CaptureToBack
    } else {
        WorkerAction::CaptureToScratch(VSYNC_ACQUIRE_TIMEOUT)
    })
    // Backends are opened, used and destroyed in order.
    &&& calls_in_order(p.calls, p.width, p.height)
    &&& has_backend(p.phase) ==> is_live(p.calls)
    &&& p.phase is Opening || p.phase is Ended ==> !is_live(p.calls)
    // A worker that ended, ended capture.
    &&& p.phase is Ended ==> !p.session.is_running
}

/// One more call leaves those before it in order.
proof fn lemma_push_call(calls: Seq<BackendCall>, call: BackendCall, width: u32, height: u32)
    requires
        calls_in_order(calls, width, height),
        call_in_order(calls.push(call), width, height, calls.len() as int),
    ensures
        calls_in_order(calls.push(call), width, height),
{
    let pushed = calls.push(call);
    assert forall|i: int| 0 <= i < pushed.len() implies #[trigger] call_in_order(
        pushed,
        width,
        height,
        i,
    ) by {
        if i < calls.len() {
            assert(call_in_order(calls, width, height, i));
            assert(pushed.take(i) =~= calls.take(i));
        }
    }
}

/// Each step keeps everything in order.
pub proof fn law_step_keeps_order(p: Pipeline, q: Pipeline)
    requires
        in_order(p),
        step(p, q),
    ensures
        in_order(q),
{
    assert forall|call: BackendCall| p.calls.push(call).take(p.calls.len() as int) == p.calls by {
        assert(p.calls.push(call).take(p.calls.len() as int) =~= p.calls);
    }
    assert forall|call: BackendCall| p.calls.push(call).drop_last() == p.calls by {
        assert(p.calls.push(call).drop_last() =~= p.calls);
    }
    if q.calls != p.calls {
        if p.phase is Restarting {
            let opened = q.phase is Deciding;
            let destroyed = p.calls.push(BackendCall::Destroy);
            let init = BackendCall::Init(p.width, p.height, opened);
            lemma_push_call(p.calls, BackendCall::Destroy, p.width, p.height);
            assert(destroyed.push(init).take(destroyed.len() as int) =~= destroyed);
            lemma_push_call(destroyed, init, p.width, p.height);
        } else {
            let call = q.calls.last();
            assert(q.calls == p.calls.push(call));
            lemma_push_call(p.calls, call, p.width, p.height);
        }
    }
}

/// From a start on, everything stays in order.
proof fn lemma_run_in_order(
    states: Seq<Pipeline>,
    before: SessionView,
    fps_mode: FpsMode,
    target_fps: i32,
    x: i32,
    y: i32,
    i: int,
)
    requires
        run(states),
        fresh(states[0], before, fps_mode, target_fps, x, y),
        0 <= i < states.len(),
    ensures
        in_order(states[i]),
        states[i].width == x,
        states[i].height == y,
    decreases i,
{
    if i > 0 {
        lemma_run_in_order(states, before, fps_mode, target_fps, x, y, i - 1);
        assert(step(states[i - 1], states[i]));
        law_step_keeps_order(states[i - 1], states[i]);
    }
}

/// From a start on, the engine is shown exactly the frames that the backend
/// delivered, byte for byte, each once and in order; at most the latest is
/// still to come. This holds in both modes and across changes of the mode.
pub proof fn law_every_frame_is_shown_once(
    states: Seq<Pipeline>,
    before: SessionView,
    fps_mode: FpsMode,
    target_fps: i32,
    x: i32,
    y: i32,
    i: int,
)
    requires
        run(states),
        fresh(states[0], before, fps_mode, target_fps, x, y),
        0 <= i < states.len(),
    ensures
        in_order(states[i]),
        states[i].shown == states[i].delivered || states[i].shown
            == states[i].delivered.drop_last(),
        states[i].session.frame_ready ==> states[i].back == states[i].delivered.last(),
        states[i].shown.len() > 0 ==> states[i].front == states[i].shown.last(),
{
    lemma_run_in_order(states, before, fps_mode, target_fps, x, y, i);
    let p = states[i];
    if p.session.frame_ready {
        assert(p.completed.drop_last() =~= p.shown);
    }
}

/// Every capture of a run is given a buffer of exactly one frame, and does not
/// wait in Manual mode and waits for fifty milliseconds at most in Vsync mode.
pub proof fn law_every_capture_call(
    states: Seq<Pipeline>,
    before: SessionView,
    fps_mode: FpsMode,
    target_fps: i32,
    x: i32,
    y: i32,
    i: int,
    k: int,
)
    requires
        run(states),
        fresh(states[0], before, fps_mode, target_fps, x, y),
        0 <= i < states.len(),
        0 <= k < states[i].calls.len(),
    ensures
        states[i].calls[k] matches BackendCall::Capture(mode, timeout_ms, buffer) ==> {
            &&& buffer.len() == frame_bytes(x as nat, y as nat)
            &&& timeout_ms == (if mode == FpsMode::Manual {
                0
            } else {
                50u32
            })
        },
{
    lemma_run_in_order(states, before, fps_mode, target_fps, x, y, i);
    assert(call_in_order(states[i].calls, states[i].width, states[i].height, k));
}

/// Every backend that was opened is destroyed before another one is opened,
/// and before the worker's end; a worker that ended, ended capture.
pub proof fn law_every_backend_is_destroyed(
    states: Seq<Pipeline>,
    before: SessionView,
    fps_mode: FpsMode,
    target_fps: i32,
    x: i32,
    y: i32,
    i: int,
)
    requires
        run(states),
        fresh(states[0], before, fps_mode, target_fps, x, y),
        0 <= i < states.len(),
    ensures
        forall|j: int, k: int|
            #![trigger states[i].calls[j], states[i].calls[k]]
            0 <= j < k < states[i].calls.len() && states[i].calls[j] == BackendCall::Init(
                x as u32,
                y as u32,
                true,
            ) && states[i].calls[k] is Init ==> destroyed_within(states[i].calls, j, k),
        states[i].phase is Ended ==> {
            &&& !states[i].session.is_running
            &&& forall|j: int|
                #![trigger states[i].calls[j]]
                0 <= j < states[i].calls.len() && states[i].calls[j] == BackendCall::Init(
                    x as u32,
                    y as u32,
                    true,
                ) ==> destroyed_within(states[i].calls, j, states[i].calls.len() as int)
        },
{
    lemma_run_in_order(states, before, fps_mode, target_fps, x, y, i);
    let calls = states[i].calls;
    assert forall|j: int, k: int|
        #![trigger calls[j], calls[k]]
        0 <= j < k < calls.len() && calls[j] == BackendCall::Init(x as u32, y as u32, true)
            && calls[k] is Init implies destroyed_within(calls, j, k) by {
        assert(call_in_order(calls, states[i].width, states[i].height, k));
        lemma_destroyed(calls, states[i].width, states[i].height, j, k);
    }
    if states[i].phase is Ended {
        assert(calls.take(calls.len() as int) =~= calls);
        assert forall|j: int|
            #![trigger calls[j]]
            0 <= j < calls.len() && calls[j] == BackendCall::Init(
                x as u32,
                y as u32,
                true,
            ) implies destroyed_within(calls, j, calls.len() as int) by {
            lemma_destroyed(
                calls,
                states[i].width,
                states[i].height,
                j,
                calls.len() as int,
            );
        }
    }
}

/// `destroy` was called after the `j`-th call and before the `k`-th.
pub open spec fn destroyed_within(calls: Seq<BackendCall>, j: int, k: int) -> bool {
    exists|d: int| j < d < k && (#[trigger] calls[d]) is Destroy
}

/// Where a backend was opened and none is live, it was destroyed.
proof fn lemma_destroyed(calls: Seq<BackendCall>, width: u32, height: u32, j: int, k: int)
    requires
        calls_in_order(calls, width, height),
        0 <= j < k <= calls.len(),
        calls[j] == BackendCall::Init(width, height, true),
        !is_live(calls.take(k)),
    ensures
        destroyed_within(calls, j, k),
    decreases k,
{
    let last = calls[k - 1];
    assert(calls.take(k).last() == last);
    assert(calls.take(k).drop_last() =~= calls.take(k - 1));
    if last is Destroy {
        assert(k - 1 > j);
        assert(calls[k - 1] is Destroy);
    } else if k - 1 > j {
        assert(call_in_order(calls, width, height, k - 1));
        lemma_destroyed(calls, width, height, j, k - 1);
        let d = choose|d: int| j < d < k - 1 && (#[trigger] calls[d]) is Destroy;
        assert(j < d < k && calls[d] is Destroy);
    }
}

/// A worker that is started when capture is no longer wanted captures nothing:
/// no capture is called for, no frame is announced, and a back buffer without a
/// frame stays as it is.
pub proof fn law_unwanted_worker_captures_nothing(states: Seq<Pipeline>, i: int)
    requires
        run(states),
        states[0].phase is Opening,
        !states[0].session.is_running,
        0 <= i < states.len(),
    ensures
        !states[i].session.is_running,
        !(states[i].phase is Capturing),
        states[i].delivered == states[0].delivered,
        states[i].session.frame_ready ==> states[0].session.frame_ready,
        !states[0].session.frame_ready ==> states[i].back == states[0].back,
        forall|k: int|
            states[0].calls.len() <= k < states[i].calls.len() ==> !((
            #[trigger] states[i].calls[k]) is Capture),
        states[0].calls.len() <= states[i].calls.len(),
        !(states[i].phase is Restarting),
    decreases i,
{
    if i > 0 {
        law_unwanted_worker_captures_nothing(states, i - 1);
        assert(step(states[i - 1], states[i]));
    }
}

} // verus!
