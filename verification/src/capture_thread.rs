//! The capture worker and what it shares with the engine's main thread.

use vstd::prelude::*;

use crate::backends::outcome;
use crate::backends::told;
use crate::backends::CaptureBackend;
use crate::backends::CaptureError;
use crate::backends::CaptureErrorView;
use crate::desktop_caster::mode_of;
use crate::desktop_caster::FpsMode;
use crate::frame::copy_frame;
use crate::frame::frame_bytes;
use crate::frame::saturating_frame_len;
use crate::pipeline::back_capture_is_a_step;
use crate::pipeline::decision_is_a_step;
use crate::pipeline::end_is_a_step;
use crate::pipeline::restart_is_a_step;
use crate::pipeline::scratch_capture_is_a_step;
use crate::pipeline::start_is_a_step;
use crate::pipeline::stop_is_a_step;
use crate::text::join;

verus! {

/// The slowest manual rate.
pub const MIN_MANUAL_FPS: u32 = 1;

/// The fastest manual rate.
pub const MAX_MANUAL_FPS: u32 = 240;

/// How long, in nanoseconds, the worker sleeps between checks while it waits
/// for the main thread to consume a completed frame.
pub const FRAME_CONSUMED_POLL: u64 = 50_000_000;

/// Timeout in milliseconds of the backend's wait for a frame in Vsync mode.
/// Bounded so that the worker still wakes up periodically to check for
/// shutdown and changes of the mode.
pub const VSYNC_ACQUIRE_TIMEOUT: u32 = 50;

/// How long, in nanoseconds, the worker backs off after an error.
pub const ERROR_RETRY_DELAY: u64 = 100_000_000;

/// Nanoseconds of a second.
pub const SECOND: u64 = 1_000_000_000;

/// The rate in `MIN_MANUAL_FPS..=MAX_MANUAL_FPS` that is nearest to
/// `target_fps`.
pub open spec fn clamped_fps(target_fps: u32) -> u32 {
    if target_fps < MIN_MANUAL_FPS {
        MIN_MANUAL_FPS
    } else if target_fps > MAX_MANUAL_FPS {
        MAX_MANUAL_FPS
    } else {
        target_fps
    }
}

/// What a `CaptureControl` holds.
#[verifier::ext_equal]
pub ghost struct ControlView {
    pub fps_mode: FpsMode,
    pub target_fps: u32,
    /// The error that stands, empty if there is none.
    pub last_error: Seq<char>,
    /// An error that the main thread has not seen yet.
    pub pending_error: Option<Seq<char>>,
    /// Counts the notifications, modulo the size of a `u64`.
    pub wakes: u64,
}

impl ControlView {
    /// After a notification.
    pub open spec fn notified(self) -> ControlView {
        ControlView {
            wakes: if self.wakes == u64::MAX {
                0
            } else {
                (self.wakes + 1) as u64
            },
            ..self
        }
    }

    /// After a change of the mode.
    pub open spec fn with_fps_mode(self, fps_mode: FpsMode) -> ControlView {
        (ControlView { fps_mode, ..self }).notified()
    }

    /// After a change of the manual rate.
    pub open spec fn with_target_fps(self, target_fps: u32) -> ControlView {
        (ControlView { target_fps: clamped_fps(target_fps), ..self }).notified()
    }

    /// After an error. One that already stands is not reported again.
    pub open spec fn with_error(self, error: Seq<char>) -> ControlView {
        if self.last_error == error {
            self
        } else {
            ControlView { last_error: error, pending_error: Some(error), ..self }
        }
    }

    /// After the standing error is gone.
    pub open spec fn without_error(self) -> ControlView {
        ControlView { last_error: Seq::empty(), ..self }
    }

    /// After the main thread took the pending error.
    pub open spec fn seen(self) -> ControlView {
        ControlView { pending_error: None, ..self }
    }
}

/// Requests and errors shared by the engine's main thread and the capture
/// worker.
#[derive(Debug)]
pub struct CaptureControl {
    fps_mode: u8,
    target_fps: u32,
    last_error: String,
    pending_error: Option<String>,
    wakes: u64,
}

impl View for CaptureControl {
    type V = ControlView;

    closed spec fn view(&self) -> ControlView {
        ControlView {
            fps_mode: mode_of(self.fps_mode),
            target_fps: self.target_fps,
            last_error: self.last_error@,
            pending_error: match self.pending_error {
                Some(error) => Some(error@),
                None => None,
            },
            wakes: self.wakes,
        }
    }
}

impl CaptureControl {
    /// The manual rate is always a safe one.
    #[verifier::type_invariant]
    spec fn rate_is_safe(self) -> bool {
        MIN_MANUAL_FPS <= self.target_fps <= MAX_MANUAL_FPS
    }

    /// A control without errors.
    pub fn new(fps_mode: FpsMode, target_fps: u32) -> (control: Self)
        ensures
            control@ == (ControlView {
                fps_mode,
                target_fps: clamped_fps(target_fps),
                last_error: Seq::empty(),
                pending_error: None,
                wakes: 0,
            }),
    {
        CaptureControl {
            fps_mode: fps_mode.as_u8(),
            target_fps: Self::clamp_manual_fps(target_fps),
            last_error: String::new(),
            pending_error: None,
            wakes: 0,
        }
    }

    /// Selects a mode and wakes the worker.
    pub fn set_fps_mode(&mut self, fps_mode: FpsMode)
        ensures
            final(self)@ == old(self)@.with_fps_mode(fps_mode),
    {
        proof {
            use_type_invariant(&*self);
        }
        self.fps_mode = fps_mode.as_u8();
        self.notify();
    }

    /// Selects the manual rate, brought into the safe range, and wakes the
    /// worker. Returns the rate that was selected.
    pub fn set_target_fps(&mut self, target_fps: u32) -> (selected: u32)
        ensures
            selected == clamped_fps(target_fps),
            final(self)@ == old(self)@.with_target_fps(target_fps),
    {
        proof {
            use_type_invariant(&*self);
        }
        let target_fps = Self::clamp_manual_fps(target_fps);
        self.target_fps = target_fps;
        self.notify();
        target_fps
    }

    /// The selected mode.
    pub fn fps_mode(&self) -> (fps_mode: FpsMode)
        ensures
            fps_mode == self@.fps_mode,
    {
        FpsMode::from_u8(self.fps_mode)
    }

    /// The selected manual rate.
    pub fn target_fps(&self) -> (target_fps: u32)
        ensures
            target_fps == self@.target_fps,
            MIN_MANUAL_FPS <= target_fps <= MAX_MANUAL_FPS,
    {
        proof {
            use_type_invariant(self);
        }
        self.target_fps
    }

    /// The error that stands; empty if there is none.
    pub fn last_error(&self) -> (error: String)
        ensures
            error@ == self@.last_error,
    {
        self.last_error.clone()
    }

    /// Takes the error that the main thread has not seen yet.
    pub fn take_pending_error(&mut self) -> (error: Option<String>)
        ensures
            match error {
                Some(text) => old(self)@.pending_error == Some(text@),
                None => old(self)@.pending_error is None,
            },
            final(self)@ == old(self)@.seen(),
    {
        proof {
            use_type_invariant(&*self);
        }
        let mut pending: Option<String> = None;
        std::mem::swap(&mut pending, &mut self.pending_error);
        pending
    }

    /// Reports an error, unless it already stands.
    pub fn report_error(&mut self, error: String)
        ensures
            final(self)@ == old(self)@.with_error(error@),
    {
        proof {
            use_type_invariant(&*self);
        }
        if self.last_error == error {
            return;
        }
        self.last_error = error.clone();
        self.pending_error = Some(error);
    }

    /// Lets the standing error go. A pending error stays pending.
    pub fn clear_error(&mut self)
        ensures
            final(self)@ == old(self)@.without_error(),
    {
        proof {
            use_type_invariant(&*self);
        }
        self.last_error = String::new();
    }

    /// Wakes whoever waits.
    pub fn notify(&mut self)
        ensures
            final(self)@ == old(self)@.notified(),
    {
        proof {
            use_type_invariant(&*self);
        }
        self.wakes = if self.wakes == u64::MAX {
            0
        } else {
            self.wakes + 1
        };
    }

    /// What a waiter notes down before it sleeps; see `is_woken`.
    pub fn wait(&self) -> (ticket: u64)
        ensures
            ticket == self@.wakes,
    {
        self.wakes
    }

    /// Tells a waiter whether there was a notification since it noted down
    /// its ticket.
    pub fn is_woken(&self, ticket: u64) -> (woken: bool)
        ensures
            woken == (self@.wakes != ticket),
    {
        self.wakes != ticket
    }

    /// Brings a manual rate into the safe range.
    pub fn clamp_manual_fps(target_fps: u32) -> (fps: u32)
        ensures
            fps == clamped_fps(target_fps),
    {
        if target_fps < MIN_MANUAL_FPS {
            MIN_MANUAL_FPS
        } else if target_fps > MAX_MANUAL_FPS {
            MAX_MANUAL_FPS
        } else {
            target_fps
        }
    }
}

/// The nanoseconds between two frames at a manual rate: a second divided by
/// the rate, rounded to the nearest whole number.
pub open spec fn interval_at(target_fps: u32) -> int {
    (2 * SECOND + target_fps) / (2 * target_fps)
}

proof fn lemma_interval(target_fps: u32)
    requires
        MIN_MANUAL_FPS <= target_fps <= MAX_MANUAL_FPS,
    ensures
        -(target_fps as int) < 2 * (interval_at(target_fps) * target_fps - SECOND)
            <= target_fps,
        4_166_666 <= interval_at(target_fps) <= SECOND,
{
    let n = interval_at(target_fps);
    let t = target_fps as int;
    assert(2 * t * n <= 2 * SECOND + t < 2 * t * n + 2 * t) by (nonlinear_arith)
        requires
            n == (2 * SECOND + t) / (2 * t),
            0 < t,
    ;
    assert(2 * t * n == 2 * (n * t)) by (nonlinear_arith);
    assert(n <= SECOND) by (nonlinear_arith)
        requires
            2 * (n * t) <= 2 * SECOND + t,
            1 <= t,
            t <= 240,
    ;
    assert(4_166_666 <= n) by (nonlinear_arith)
        requires
            2 * SECOND + t < 2 * (n * t) + 2 * t,
            1 <= t <= 240,
            SECOND == 1_000_000_000,
    ;
}

/// Frame interval of Manual mode, in nanoseconds. The rate is always clamped
/// before it reaches this, so the interval is never degenerate.
pub fn manual_frame_interval(target_fps: u32) -> (interval: u64)
    requires
        MIN_MANUAL_FPS <= target_fps <= MAX_MANUAL_FPS,
    ensures
        interval == interval_at(target_fps),
{
    proof {
        lemma_interval(target_fps);
    }
    (2 * SECOND + target_fps as u64) / (2 * target_fps as u64)
}

/// At a safe rate the interval is as near to the exact one as whole
/// nanoseconds can be, and lies between four milliseconds and a second: the
/// worker neither spins nor stalls.
pub proof fn law_interval_is_exact_and_never_degenerate(target_fps: u32)
    requires
        MIN_MANUAL_FPS <= target_fps <= MAX_MANUAL_FPS,
    ensures
        -(target_fps as int) <= 2 * (interval_at(target_fps) * target_fps - SECOND)
            <= target_fps,
        4_000_000 < interval_at(target_fps) <= SECOND,
{
    lemma_interval(target_fps);
}

/// What a `CaptureSession` holds.
#[verifier::ext_equal]
pub ghost struct SessionView {
    pub is_running: bool,
    pub frame_ready: bool,
    pub control: ControlView,
}

/// Everything but the pixels that the main thread and the worker share.
#[derive(Debug)]
pub struct CaptureSession {
    /// Capture is wanted; the worker ends when it is not.
    pub is_running: bool,
    /// The back buffer holds a complete frame that the main thread has not
    /// consumed. Until it does, the worker leaves that buffer alone.
    pub frame_ready: bool,
    pub control: CaptureControl,
}

impl View for CaptureSession {
    type V = SessionView;

    open spec fn view(&self) -> SessionView {
        SessionView {
            is_running: self.is_running,
            frame_ready: self.frame_ready,
            control: self.control@,
        }
    }
}

/// What the worker does after a capture.
#[derive(Debug, Clone, Copy, PartialEq, Eq, Structural)]
pub enum AfterCapture {
    /// Go on.
    Continue,
    /// Back off for so many nanoseconds, then go on.
    Wait(u64),
    /// Reopen the backend, then tell `finish_restart`.
    Restart,
    /// End.
    Stop,
}

impl SessionView {
    /// After a capture that ended with `result`.
    pub open spec fn after_capture(self, result: Result<bool, CaptureErrorView>) -> SessionView {
        match result {
            Ok(true) => SessionView {
                frame_ready: true,
                control: self.control.without_error(),
                ..self
            },
            Ok(false) => self,
            Err(CaptureErrorView::Reinitialize(error)) => SessionView {
                control: self.control.with_error(
                    "[DesktopCapture] Capture device changed; restarting backend: "@ + error,
                ),
                ..self
            },
            Err(CaptureErrorView::Recoverable(error)) => SessionView {
                control: self.control.with_error("[DesktopCapture] Capture error: "@ + error),
                ..self
            },
            Err(CaptureErrorView::Fatal(error)) => SessionView {
                is_running: false,
                control: self.control.with_error("[DesktopCapture] Capture stopped: "@ + error),
                ..self
            },
        }
    }

    /// After the backend was reopened.
    pub open spec fn after_restart(self, result: Result<(), Seq<char>>) -> SessionView {
        match result {
            Ok(()) => self,
            Err(error) => SessionView {
                is_running: false,
                control: self.control.with_error(
                    "[DesktopCapture] Backend restart failed: "@ + error,
                ),
                ..self
            },
        }
    }

    /// After the worker's backend could not be opened.
    pub open spec fn after_failed_init(self, error: Seq<char>) -> SessionView {
        SessionView {
            is_running: false,
            control: self.control.with_error("[DesktopCapture] Backend init failed: "@ + error),
            ..self
        }
    }

    /// After capture is no longer wanted, and whoever waits was woken.
    pub open spec fn stopped(self) -> SessionView {
        SessionView { is_running: false, control: self.control.notified(), ..self }
    }
}

/// What follows a capture that ended with `result`.
pub open spec fn next_after(result: Result<bool, CaptureErrorView>) -> AfterCapture {
    match result {
        Ok(_) => AfterCapture::Continue,
        Err(CaptureErrorView::Reinitialize(_)) => AfterCapture::Restart,
        Err(CaptureErrorView::Recoverable(_)) => AfterCapture::Wait(ERROR_RETRY_DELAY),
        Err(CaptureErrorView::Fatal(_)) => AfterCapture::Stop,
    }
}

impl CaptureSession {
    /// A session in which nothing is captured yet.
    pub fn new(control: CaptureControl) -> (session: Self)
        ensures
            session@ == (SessionView { is_running: false, frame_ready: false, control: control@ }),
    {
        CaptureSession { is_running: false, frame_ready: false, control }
    }

    /// Records how a capture ended and tells what the worker does next.
    pub fn finish_capture(&mut self, result: Result<bool, CaptureError>) -> (next: AfterCapture)
        ensures
            final(self)@ == old(self)@.after_capture(outcome(result)),
            next == next_after(outcome(result)),
            back_capture_is_a_step(old(self)@, final(self)@, outcome(result), next),
    {
        match result {
            Ok(true) => {
                self.control.clear_error();
                self.frame_ready = true;
                AfterCapture::Continue
            },
            Ok(false) => AfterCapture::Continue,
            Err(CaptureError::Reinitialize(error)) => {
                self.control.report_error(
                    join(
                        "[DesktopCapture] Capture device changed; restarting backend: ",
                        error.as_str(),
                    ),
                );
                AfterCapture::Restart
            },
            Err(CaptureError::Recoverable(error)) => {
                self.control.report_error(
                    join("[DesktopCapture] Capture error: ", error.as_str()),
                );
                AfterCapture::Wait(ERROR_RETRY_DELAY)
            },
            Err(CaptureError::Fatal(error)) => {
                self.control.report_error(
                    join("[DesktopCapture] Capture stopped: ", error.as_str()),
                );
                self.is_running = false;
                AfterCapture::Stop
            },
        }
    }

    /// Records how reopening the backend ended and tells whether the worker
    /// goes on.
    pub fn finish_restart(&mut self, result: Result<(), String>) -> (goes_on: bool)
        ensures
            final(self)@ == old(self)@.after_restart(told(result)),
            goes_on == (result is Ok),
            restart_is_a_step(old(self)@, final(self)@, told(result), goes_on),
    {
        match result {
            Ok(()) => true,
            Err(error) => {
                self.control.report_error(
                    join("[DesktopCapture] Backend restart failed: ", error.as_str()),
                );
                self.is_running = false;
                false
            },
        }
    }

    /// Ends capture: the flag goes down and whoever waits is woken. The worker
    /// does so when it ends, the main thread to make it end.
    pub fn stop(&mut self)
        ensures
            final(self)@ == old(self)@.stopped(),
            stop_is_a_step(old(self)@, final(self)@),
    {
        self.is_running = false;
        self.control.notify();
    }
}

/// What a `CaptureWorker` holds.
#[verifier::ext_equal]
pub ghost struct WorkerView {
    pub width: u32,
    pub height: u32,
    /// The mode that the worker saw last.
    pub previous_mode: FpsMode,
    /// When, in nanoseconds of the worker's clock, the next manual frame is
    /// due.
    pub next_manual_frame: u64,
    /// The manual rate that the worker saw last in Manual mode.
    pub target_fps: u32,
    /// Where a frame is captured in Vsync mode.
    pub scratch: Seq<u8>,
}

/// What the worker does next.
#[derive(Debug, Clone, Copy, PartialEq, Eq, Structural)]
pub enum WorkerAction {
    /// End.
    Stop,
    /// Sleep for so many nanoseconds, or until notified.
    Wait(u64),
    /// Capture at once, into the back buffer, under its lock: there is no
    /// wait during which the main thread could want it.
    CaptureToBack,
    /// Capture with a timeout in milliseconds into the scratch buffer, so that
    /// the back buffer is not locked while the operating system is waited for.
    CaptureToScratch(u32),
}

/// The capture worker's own state.
#[derive(Debug)]
pub struct CaptureWorker {
    width: u32,
    height: u32,
    previous_mode: FpsMode,
    next_manual_frame: u64,
    // The interval is kept with its rate, so the division is not repeated for
    // every frame.
    cached_target_fps: u32,
    frame_interval: u64,
    buf_size: usize,
    // Allocated when Vsync mode first needs it.
    vsync_scratch: Vec<u8>,
}

impl View for CaptureWorker {
    type V = WorkerView;

    closed spec fn view(&self) -> WorkerView {
        WorkerView {
            width: self.width,
            height: self.height,
            previous_mode: self.previous_mode,
            next_manual_frame: self.next_manual_frame,
            target_fps: self.cached_target_fps,
            scratch: self.vsync_scratch@,
        }
    }
}

/// Bytes of the scratch buffer.
pub open spec fn scratch_len(width: u32, height: u32) -> nat {
    let len = frame_bytes(width as nat, height as nat);
    if len <= usize::MAX {
        len
    } else {
        usize::MAX as nat
    }
}

/// How opening a backend went, without the backend.
pub open spec fn opened_or_not<B>(backend: Result<B, String>) -> Result<(), Seq<char>> {
    match backend {
        Ok(_) => Ok(()),
        Err(error) => Err(error@),
    }
}

/// A worker that starts at `now`.
pub open spec fn fresh_worker(
    width: u32,
    height: u32,
    session: SessionView,
    now: u64,
) -> WorkerView {
    WorkerView {
        width,
        height,
        previous_mode: session.control.fps_mode,
        next_manual_frame: now,
        target_fps: session.control.target_fps,
        scratch: Seq::empty(),
    }
}

/// What the back buffer holds after a capture into the scratch buffer that
/// ended with `result`: the frame, if there is one, else what it held before.
pub open spec fn handed_over(
    result: Result<bool, CaptureErrorView>,
    scratch: Seq<u8>,
    back: Seq<u8>,
) -> Seq<u8> {
    if result == Ok::<bool, CaptureErrorView>(true) {
        scratch
    } else {
        back
    }
}

/// When the frame after one that was due at `due` and captured at `now` is
/// due: one interval later, but not in the past.
pub open spec fn due_after(due: int, now: int, interval: int) -> int {
    if now < due + interval {
        due + interval
    } else {
        now + interval
    }
}

impl WorkerView {
    /// When the next manual frame is due, seen at `now` in a mode: a change of
    /// the mode starts the clock anew.
    pub open spec fn due(self, fps_mode: FpsMode, now: u64) -> u64 {
        if fps_mode != self.previous_mode {
            now
        } else {
            self.next_manual_frame
        }
    }

    /// The scratch buffer as a capture finds it: black where it did not have
    /// the size of a frame.
    pub open spec fn ready_scratch(self) -> Seq<u8> {
        let len = scratch_len(self.width, self.height);
        if self.scratch.len() == len {
            self.scratch
        } else {
            Seq::new(len, |i: int| 0u8)
        }
    }

    /// What the worker does at `now`.
    pub open spec fn action(self, session: SessionView, now: u64) -> WorkerAction {
        let due = self.due(session.control.fps_mode, now);
        if !session.is_running {
            WorkerAction::Stop
        } else if session.frame_ready {
            WorkerAction::Wait(FRAME_CONSUMED_POLL)
        } else if session.control.fps_mode == FpsMode::Vsync {
            WorkerAction::CaptureToScratch(VSYNC_ACQUIRE_TIMEOUT)
        } else if now < due {
            WorkerAction::Wait((due - now) as u64)
        } else {
            WorkerAction::CaptureToBack
        }
    }

    /// The worker after it decided at `now` what to do.
    pub open spec fn decided(self, session: SessionView, now: u64) -> WorkerView {
        let fps_mode = session.control.fps_mode;
        let due = self.due(fps_mode, now);
        if !session.is_running || session.frame_ready {
            self
        } else if fps_mode == FpsMode::Vsync {
            WorkerView { previous_mode: fps_mode, next_manual_frame: due, ..self }
        } else {
            WorkerView {
                previous_mode: fps_mode,
                target_fps: session.control.target_fps,
                next_manual_frame: if now < due {
                    due
                } else {
                    due_after(
                        due as int,
                        now as int,
                        interval_at(session.control.target_fps),
                    ) as u64
                },
                ..self
            }
        }
    }
}

impl CaptureWorker {
    /// The cached values belong to what they were computed from.
    pub closed spec fn wf(self) -> bool {
        &&& MIN_MANUAL_FPS <= self.cached_target_fps <= MAX_MANUAL_FPS
        &&& self.frame_interval == interval_at(self.cached_target_fps)
        &&& self.buf_size == scratch_len(self.width, self.height)
    }

    /// Starts the worker with the backend that was opened for it, or ends
    /// the session where none could be.
    pub fn start<B: CaptureBackend>(
        width: u32,
        height: u32,
        session: &mut CaptureSession,
        backend: Result<B, String>,
        now: u64,
    ) -> (started: Option<(CaptureWorker, B)>)
        ensures
            match backend {
                Ok(opened) => {
                    &&& final(session)@ == old(session)@
                    &&& started matches Some((worker, kept)) && worker.wf() && kept == opened
                        && worker@ == fresh_worker(width, height, old(session)@, now)
                },
                Err(error) => {
                    &&& final(session)@ == old(session)@.after_failed_init(error@)
                    &&& started is None
                },
            },
            start_is_a_step(
                old(session)@,
                final(session)@,
                width,
                height,
                opened_or_not(backend),
                match started {
                    Some((worker, _)) => Some(worker@),
                    None => None,
                },
                now,
            ),
    {
        match backend {
            Ok(backend) => {
                let cached_target_fps = session.control.target_fps();
                let worker = CaptureWorker {
                    width,
                    height,
                    previous_mode: session.control.fps_mode(),
                    next_manual_frame: now,
                    cached_target_fps,
                    frame_interval: manual_frame_interval(cached_target_fps),
                    buf_size: saturating_frame_len(width, height),
                    vsync_scratch: Vec::new(),
                };
                Some((worker, backend))
            },
            Err(error) => {
                session.control.report_error(
                    join("[DesktopCapture] Backend init failed: ", error.as_str()),
                );
                session.is_running = false;
                None
            },
        }
    }

    /// Decides at `now` what to do.
    pub fn next_action(&mut self, session: &CaptureSession, now: u64) -> (action: WorkerAction)
        requires
            old(self).wf(),
            now + SECOND <= u64::MAX,
        ensures
            final(self).wf(),
            action == old(self)@.action(session@, now),
            final(self)@ == old(self)@.decided(session@, now),
            decision_is_a_step(old(self)@, final(self)@, session@, action, now),
    {
        if !session.is_running {
            return WorkerAction::Stop;
        }
        // Keep only the latest frame. Capturing while the main thread still
        // owns a complete frame wastes readback and increases latency.
        if session.frame_ready {
            return WorkerAction::Wait(FRAME_CONSUMED_POLL);
        }
        let fps_mode = session.control.fps_mode();
        if fps_mode != self.previous_mode {
            self.previous_mode = fps_mode;
            self.next_manual_frame = now;
        }
        match fps_mode {
            FpsMode::Manual => {
                let target_fps = session.control.target_fps();
                if target_fps != self.cached_target_fps {
                    self.cached_target_fps = target_fps;
                    self.frame_interval = manual_frame_interval(target_fps);
                }
                if now < self.next_manual_frame {
                    return WorkerAction::Wait(self.next_manual_frame - now);
                }
                proof {
                    lemma_interval(target_fps);
                }
                self.next_manual_frame = self.next_manual_frame + self.frame_interval;
                if now >= self.next_manual_frame {
                    self.next_manual_frame = now + self.frame_interval;
                }
                WorkerAction::CaptureToBack
            },
            FpsMode::Vsync => WorkerAction::CaptureToScratch(VSYNC_ACQUIRE_TIMEOUT),
        }
    }

    /// Captures at once into the back buffer.
    pub fn capture_to_back<B: CaptureBackend>(backend: &mut B, back: &mut Vec<u8>) -> (result:
        Result<bool, CaptureError>)
        ensures
            B::may_capture(*old(backend), *final(backend), old(back)@, final(back)@, 0, result),
            final(back)@.len() == old(back)@.len(),
    {
        backend.capture_frame(back.as_mut_slice(), 0)
    }

    /// Captures with a timeout into the scratch buffer, which is allocated
    /// where it does not have the size of a frame.
    pub fn capture_to_scratch<B: CaptureBackend>(
        &mut self,
        backend: &mut B,
        timeout_ms: u32,
    ) -> (result: Result<bool, CaptureError>)
        requires
            old(self).wf(),
        ensures
            final(self).wf(),
            B::may_capture(
                *old(backend),
                *final(backend),
                old(self)@.ready_scratch(),
                final(self)@.scratch,
                timeout_ms,
                result,
            ),
            final(self)@ == (WorkerView { scratch: final(self)@.scratch, ..old(self)@ }),
            final(self)@.scratch.len() == scratch_len(old(self)@.width, old(self)@.height),
    {
        if self.vsync_scratch.len() != self.buf_size {
            self.vsync_scratch = vec![0u8; self.buf_size];
            assert(self.vsync_scratch@ =~= Seq::new(self.buf_size as nat, |i: int| 0u8));
        }
        backend.capture_frame(self.vsync_scratch.as_mut_slice(), timeout_ms)
    }

    /// Records how a capture into the scratch buffer ended and tells what the
    /// worker does next. A frame is stored in the back buffer before the main
    /// thread is told of it; otherwise that buffer is left alone.
    pub fn finish_scratch(
        &self,
        session: &mut CaptureSession,
        back: &mut Vec<u8>,
        result: Result<bool, CaptureError>,
    ) -> (next: AfterCapture)
        requires
            outcome(result) == Ok::<bool, CaptureErrorView>(true) ==> old(back)@.len()
                == self@.scratch.len(),
        ensures
            final(back)@ == handed_over(outcome(result), self@.scratch, old(back)@),
            final(session)@ == old(session)@.after_capture(outcome(result)),
            next == next_after(outcome(result)),
            scratch_capture_is_a_step(
                self@,
                old(session)@,
                final(session)@,
                old(back)@,
                final(back)@,
                outcome(result),
                next,
            ),
    {
        if let Ok(true) = &result {
            copy_frame(self.vsync_scratch.as_slice(), back.as_mut_slice());
        }
        session.finish_capture(result)
    }
}

/// A backend whose resources were released. From here the worker opens a new
/// one, or ends: neither can come before the release.
#[derive(Debug)]
pub struct DestroyedBackend<B> {
    backend: B,
}

impl<B: CaptureBackend> DestroyedBackend<B> {
    /// What is left of the backend.
    pub closed spec fn remains(self) -> B {
        self.backend
    }

    /// Releases the backend's resources.
    pub fn new(backend: B) -> (destroyed: Self)
        ensures
            B::may_destroy(backend, destroyed.remains()),
    {
        let mut backend = backend;
        backend.destroy();
        DestroyedBackend { backend }
    }

    /// Opens a new backend with the worker's geometry. Where that fails, what
    /// is left of the old one is handed back with the error.
    pub fn reopen(self, worker: &CaptureWorker) -> (reopened: (B, Result<(), String>))
        ensures
            match reopened.1 {
                Ok(()) => B::may_init(worker@.width, worker@.height, Ok(reopened.0)),
                Err(error) => {
                    &&& B::may_init(worker@.width, worker@.height, Err(error))
                    &&& reopened.0 == self.remains()
                },
            },
    {
        match B::init(worker.width, worker.height) {
            Ok(opened) => (opened, Ok(())),
            Err(error) => (self.backend, Err(error)),
        }
    }

    /// Ends the worker: capture stops and whoever waits is woken.
    pub fn finish(self, session: &mut CaptureSession)
        ensures
            final(session)@ == old(session)@.stopped(),
            end_is_a_step(old(session)@, final(session)@),
    {
        session.stop();
    }
}

/// The capture worker as the main thread holds it: `H` is the handle by which
/// its thread is joined.
#[derive(Debug)]
pub struct CaptureThread<H> {
    /// Gone once the thread was handed out to be joined.
    pub handle: Option<H>,
}

impl<H> CaptureThread<H> {
    /// Holds the thread that was spawned for the worker.
    pub fn spawn(handle: Result<H, String>) -> (thread: Result<Self, String>)
        ensures
            told(thread) == (match handle {
                Ok(handle) => Ok(CaptureThread { handle: Some(handle) }),
                Err(error) => Err("Failed to spawn capture thread: "@ + error@),
            }),
    {
        match handle {
            Ok(handle) => Ok(CaptureThread { handle: Some(handle) }),
            Err(error) => Err(join("Failed to spawn capture thread: ", error.as_str())),
        }
    }

    /// Makes the worker end and hands out its thread, to be joined; nothing
    /// is handed out a second time.
    pub fn shutdown(&mut self, session: &mut CaptureSession) -> (handle: Option<H>)
        ensures
            final(session)@ == old(session)@.stopped(),
            handle == old(self).handle,
            final(self).handle is None,
    {
        session.stop();
        self.handle.take()
    }
}

/// A manual rate is always in the safe range, and one that was there already
/// is kept.
pub proof fn law_manual_fps_is_always_in_the_safe_range(target_fps: u32)
    ensures
        MIN_MANUAL_FPS <= clamped_fps(target_fps) <= MAX_MANUAL_FPS,
        MIN_MANUAL_FPS <= target_fps <= MAX_MANUAL_FPS ==> clamped_fps(target_fps) == target_fps,
        clamped_fps(clamped_fps(target_fps)) == clamped_fps(target_fps),
{
}

/// An error that does not stand yet reaches the main thread; while it stands,
/// reporting it again changes nothing, also after the main thread took it.
pub proof fn law_error_is_reported_once(control: ControlView, error: Seq<char>)
    requires
        control.last_error != error,
    ensures
        control.with_error(error).pending_error == Some(error),
        control.with_error(error).last_error == error,
        control.with_error(error).with_error(error) == control.with_error(error),
        control.with_error(error).seen().with_error(error).pending_error is None,
{
}

/// Once capture works again, the same error counts as a new one.
pub proof fn law_cleared_error_is_reported_again(control: ControlView, error: Seq<char>)
    requires
        error.len() > 0,
    ensures
        control.without_error().with_error(error).pending_error == Some(error),
        control.without_error().last_error == Seq::<char>::empty(),
        control.without_error().pending_error == control.pending_error,
{
}

/// A worker that waits is woken by every change of the mode or the rate and
/// by every notification.
pub proof fn law_changes_wake_the_worker(
    control: ControlView,
    fps_mode: FpsMode,
    target_fps: u32,
)
    ensures
        control.notified().wakes != control.wakes,
        control.with_fps_mode(fps_mode).wakes != control.wakes,
        control.with_target_fps(target_fps).wakes != control.wakes,
{
}

/// The worker ends at its first decision after capture is no longer wanted.
pub proof fn law_worker_ends_when_told(worker: WorkerView, session: SessionView, now: u64)
    ensures
        worker.action(session, now) == WorkerAction::Stop <==> !session.is_running,
        worker.action(session.stopped(), now) == WorkerAction::Stop,
{
}

/// While the main thread has a frame to consume, nothing is captured and the
/// worker's schedule stands still.
pub proof fn law_unconsumed_frame_is_left_alone(
    worker: WorkerView,
    session: SessionView,
    now: u64,
)
    requires
        session.frame_ready,
    ensures
        worker.action(session, now) == WorkerAction::Stop || worker.action(session, now)
            == WorkerAction::Wait(FRAME_CONSUMED_POLL),
        worker.decided(session, now) == worker,
{
}

/// No step of the worker turns capture on, and only a complete frame is
/// handed to the main thread. Capture ends on fatal errors and where no backend
/// can be had, and on no other outcome.
pub proof fn law_worker_outcomes(
    session: SessionView,
    captured: Result<bool, CaptureErrorView>,
    reopened: Result<(), Seq<char>>,
)
    requires
        !session.frame_ready,
    ensures
        session.after_capture(captured).is_running <==> session.is_running && !(
        captured matches Err(CaptureErrorView::Fatal(_))),
        session.after_capture(captured).frame_ready <==> captured == Ok::<bool, CaptureErrorView>(
            true,
        ),
        next_after(captured) == AfterCapture::Stop <==> captured matches Err(
            CaptureErrorView::Fatal(_),
        ),
        session.after_restart(reopened).is_running <==> session.is_running && reopened is Ok,
        session.after_restart(reopened).frame_ready == session.frame_ready,
{
}

/// A switch to Manual mode captures at once.
pub proof fn law_switch_to_manual_captures_at_once(
    worker: WorkerView,
    session: SessionView,
    now: u64,
)
    requires
        session.is_running,
        !session.frame_ready,
        session.control.fps_mode == FpsMode::Manual,
        worker.previous_mode == FpsMode::Vsync,
    ensures
        worker.action(session, now) == WorkerAction::CaptureToBack,
{
}

/// In Manual mode a capture schedules the next one in the future, at most one
/// interval away: frames that were missed are not made up for in a burst.
pub proof fn law_manual_capture_schedules_the_next(
    worker: WorkerView,
    session: SessionView,
    now: u64,
)
    requires
        MIN_MANUAL_FPS <= session.control.target_fps <= MAX_MANUAL_FPS,
        now + SECOND <= u64::MAX,
        worker.action(session, now) == WorkerAction::CaptureToBack,
    ensures
        now < worker.decided(session, now).next_manual_frame <= now + interval_at(
            session.control.target_fps,
        ),
{
    lemma_interval(session.control.target_fps);
}

/// The worker that decides for the `i`-th time came from the decision before,
/// in Manual mode at the rate `target_fps`.
pub open spec fn manual_decision(
    workers: Seq<WorkerView>,
    sessions: Seq<SessionView>,
    times: Seq<u64>,
    target_fps: u32,
    i: int,
) -> bool {
    &&& sessions[i].control.fps_mode == FpsMode::Manual
    &&& sessions[i].control.target_fps == target_fps
    &&& times[i] + SECOND <= u64::MAX
    &&& workers[i + 1] == workers[i].decided(sessions[i], times[i])
}

/// How many of the first `n` decisions were to capture.
pub open spec fn captures_before(
    workers: Seq<WorkerView>,
    sessions: Seq<SessionView>,
    times: Seq<u64>,
    n: int,
) -> int
    decreases n,
{
    if n <= 0 {
        0
    } else {
        captures_before(workers, sessions, times, n - 1) + (if workers[n - 1].action(
            sessions[n - 1],
            times[n - 1],
        ) == WorkerAction::CaptureToBack {
            1int
        } else {
            0int
        })
    }
}

/// Manual captures never exceed the selected rate: in a run of decisions at one
/// rate, a capture that has `k` before it comes no sooner than `k` intervals
/// after the first was due, however the decisions are timed.
pub proof fn law_manual_rate_is_never_exceeded(
    workers: Seq<WorkerView>,
    sessions: Seq<SessionView>,
    times: Seq<u64>,
    target_fps: u32,
    n: int,
)
    requires
        MIN_MANUAL_FPS <= target_fps <= MAX_MANUAL_FPS,
        workers[0].previous_mode == FpsMode::Manual,
        0 <= n,
        forall|i: int|
            0 <= i <= n ==> #[trigger] manual_decision(workers, sessions, times, target_fps, i),
    ensures
        workers[n].previous_mode == FpsMode::Manual,
        workers[n].next_manual_frame >= workers[0].next_manual_frame + captures_before(
            workers,
            sessions,
            times,
            n,
        ) * interval_at(target_fps),
        workers[n].action(sessions[n], times[n]) == WorkerAction::CaptureToBack ==> times[n]
            >= workers[0].next_manual_frame + captures_before(workers, sessions, times, n)
            * interval_at(target_fps),
    decreases n,
{
    assert(manual_decision(workers, sessions, times, target_fps, n));
    if n > 0 {
        law_manual_rate_is_never_exceeded(workers, sessions, times, target_fps, n - 1);
        assert(manual_decision(workers, sessions, times, target_fps, n - 1));
        lemma_interval(target_fps);
        let k = captures_before(workers, sessions, times, n - 1);
        let interval = interval_at(target_fps);
        assert((k + 1) * interval == k * interval + interval) by (nonlinear_arith);
    } else {
        assert(captures_before(workers, sessions, times, 0) * interval_at(target_fps) == 0);
    }
}

/// How many of the first `n` decisions were to capture at a time from `from`
/// on and before `to`.
pub open spec fn captures_within(
    workers: Seq<WorkerView>,
    sessions: Seq<SessionView>,
    times: Seq<u64>,
    from: int,
    to: int,
    n: int,
) -> int
    decreases n,
{
    if n <= 0 {
        0
    } else {
        captures_within(workers, sessions, times, from, to, n - 1) + (if workers[n - 1].action(
            sessions[n - 1],
            times[n - 1],
        ) == WorkerAction::CaptureToBack && from <= times[n - 1] < to {
            1int
        } else {
            0int
        })
    }
}

/// In a run of decisions at one rate, any window of `intervals` intervals holds
/// at most one manual capture more than that, wherever it starts: frames that
/// were missed in a stall are dropped, not made up for.
pub proof fn law_any_window_holds_few_captures(
    workers: Seq<WorkerView>,
    sessions: Seq<SessionView>,
    times: Seq<u64>,
    target_fps: u32,
    from: int,
    intervals: int,
    n: int,
)
    requires
        MIN_MANUAL_FPS <= target_fps <= MAX_MANUAL_FPS,
        1 <= intervals,
        0 <= n,
        forall|i: int|
            0 <= i < n ==> #[trigger] manual_decision(workers, sessions, times, target_fps, i),
    ensures
        captures_within(
            workers,
            sessions,
            times,
            from,
            from + intervals * interval_at(target_fps),
            n,
        ) <= intervals + 1,
{
    lemma_window(workers, sessions, times, target_fps, from, intervals, n);
}

/// Each capture in the window moves the next one a whole interval on.
proof fn lemma_window(
    workers: Seq<WorkerView>,
    sessions: Seq<SessionView>,
    times: Seq<u64>,
    target_fps: u32,
    from: int,
    intervals: int,
    n: int,
)
    requires
        MIN_MANUAL_FPS <= target_fps <= MAX_MANUAL_FPS,
        1 <= intervals,
        0 <= n,
        forall|i: int|
            0 <= i < n ==> #[trigger] manual_decision(workers, sessions, times, target_fps, i),
    ensures
        ({
            let to = from + intervals * interval_at(target_fps);
            let count = captures_within(workers, sessions, times, from, to, n);
            &&& 0 <= count <= intervals + 1
            &&& count >= 1 ==> workers[n].previous_mode == FpsMode::Manual
                && workers[n].next_manual_frame > from + (count - 1) * interval_at(target_fps)
        }),
    decreases n,
{
    if n > 0 {
        lemma_window(workers, sessions, times, target_fps, from, intervals, n - 1);
        assert(manual_decision(workers, sessions, times, target_fps, n - 1));
        lemma_interval(target_fps);
        let interval = interval_at(target_fps);
        let to = from + intervals * interval;
        let before = captures_within(workers, sessions, times, from, to, n - 1);
        let now = times[n - 1];
        if workers[n - 1].action(sessions[n - 1], now) == WorkerAction::CaptureToBack {
            assert(before * interval == (before - 1) * interval + interval) by (nonlinear_arith);
            if from <= now < to && before >= 1 {
                assert(before - 1 < intervals) by (nonlinear_arith)
                    requires
                        from + (before - 1) * interval < from + intervals * interval,
                        0 < interval,
                ;
            }
            if from <= now < to {
                let after = captures_within(workers, sessions, times, from, to, n);
                assert(after == before + 1);
                assert((after - 1) * interval == before * interval);
                assert(0 * interval == 0);
            }
        }
    }
}

/// A manual rate is brought into `1..=240`. One that lies there is kept, and for
/// another one no rate that lies there is nearer.
pub proof fn law_rates_become_the_nearest_safe_one(target_fps: u32, safe: u32)
    requires
        1 <= safe <= 240,
    ensures
        1 <= clamped_fps(target_fps) <= 240,
        1 <= target_fps <= 240 ==> clamped_fps(target_fps) == target_fps,
        target_fps < 1 ==> clamped_fps(target_fps) <= safe,
        target_fps > 240 ==> clamped_fps(target_fps) >= safe,
{
}

/// At every rate in `1..=240` as many intervals as the rate says make up a
/// second, as near as whole nanoseconds can be.
pub proof fn law_intervals_make_up_a_second(target_fps: u32)
    requires
        1 <= target_fps <= 240,
    ensures
        -(target_fps as int) < 2 * (interval_at(target_fps) * target_fps - 1_000_000_000)
            <= target_fps,
{
    lemma_interval(target_fps);
}

/// A session is seen as what its fields say.
pub proof fn law_sessions_are_seen_as_they_are(session: CaptureSession)
    ensures
        session@.is_running == session.is_running,
        session@.frame_ready == session.frame_ready,
        session@.control == session.control@,
{
}

/// A change touches what it is about and nothing else. The mode and the rate
/// are what was selected, the rate brought into the safe range; an error
/// replaces the standing one and is forwarded; clearing keeps what is to be
/// forwarded; taking that keeps what stands.
pub proof fn law_changes_touch_nothing_else(
    control: ControlView,
    fps_mode: FpsMode,
    target_fps: u32,
    error: Seq<char>,
)
    ensures
        control.notified() == (ControlView { wakes: control.notified().wakes, ..control }),
        control.with_fps_mode(fps_mode) == (ControlView {
            fps_mode,
            wakes: control.notified().wakes,
            ..control
        }),
        control.with_target_fps(target_fps) == (ControlView {
            target_fps: clamped_fps(target_fps),
            wakes: control.notified().wakes,
            ..control
        }),
        control.with_error(error).last_error == error,
        control.last_error != error ==> control.with_error(error).pending_error == Some(error),
        control.last_error == error ==> control.with_error(error).pending_error
            == control.pending_error,
        control.with_error(error).fps_mode == control.fps_mode,
        control.with_error(error).target_fps == control.target_fps,
        control.with_error(error).wakes == control.wakes,
        control.without_error().last_error.len() == 0,
        control.without_error() == (ControlView {
            last_error: control.without_error().last_error,
            ..control
        }),
        control.seen().pending_error is None,
        control.seen() == (ControlView { pending_error: None, ..control }),
{
}

/// After so many notifications.
pub open spec fn notified_times(control: ControlView, times: nat) -> ControlView
    decreases times,
{
    if times == 0 {
        control
    } else {
        notified_times(control, (times - 1) as nat).notified()
    }
}

/// No notification is lost: a waiter that noted down its ticket sees that it was
/// woken, however many notifications there were in between, up to a number that
/// no one lives to count.
pub proof fn law_no_notification_is_lost(control: ControlView, times: nat)
    requires
        0 < times < 0x1_0000_0000_0000_0000,
    ensures
        notified_times(control, times).wakes != control.wakes,
{
    lemma_wakes(control, times);
}

proof fn lemma_wakes(control: ControlView, times: nat)
    requires
        times < 0x1_0000_0000_0000_0000,
    ensures
        notified_times(control, times).wakes == (if control.wakes + times
            < 0x1_0000_0000_0000_0000 {
            control.wakes + times
        } else {
            control.wakes + times - 0x1_0000_0000_0000_0000
        }),
    decreases times,
{
    if times > 0 {
        lemma_wakes(control, (times - 1) as nat);
    }
}

/// In Vsync mode the worker always waits in the backend, for fifty milliseconds
/// at most, whatever the time, the manual rate and its schedule are. Its first
/// decision in that mode sets the schedule to that time, and every other leaves
/// rate and schedule alone.
pub proof fn law_vsync_waits_in_the_backend(worker: WorkerView, session: SessionView, now: u64)
    requires
        session.is_running,
        !session.frame_ready,
        session.control.fps_mode == FpsMode::Vsync,
    ensures
        worker.action(session, now) == WorkerAction::CaptureToScratch(50),
        worker.decided(session, now).previous_mode == FpsMode::Vsync,
        worker.decided(session, now).target_fps == worker.target_fps,
        worker.previous_mode == FpsMode::Vsync ==> worker.decided(session, now) == worker,
        worker.previous_mode == FpsMode::Manual ==> worker.decided(session, now).next_manual_frame
            == now,
        worker.decided(session, now).width == worker.width,
        worker.decided(session, now).height == worker.height,
        worker.decided(session, now).scratch == worker.scratch,
{
}

/// In Manual mode a frame that is due is captured, however late it is, and one
/// that is not due is waited for exactly as long as it takes. A frame that was
/// captured less than an interval late leaves the schedule as it is; one that
/// was later moves it, so that the next one is due an interval from then.
pub proof fn law_manual_frames_are_captured_when_due(
    worker: WorkerView,
    session: SessionView,
    now: u64,
)
    requires
        session.is_running,
        !session.frame_ready,
        session.control.fps_mode == FpsMode::Manual,
        worker.previous_mode == FpsMode::Manual,
        1 <= session.control.target_fps <= 240,
        now + 1_000_000_000 <= u64::MAX,
    ensures
        ({
            let due = worker.next_manual_frame as int;
            let interval = interval_at(session.control.target_fps);
            let after = worker.decided(session, now);
            &&& now >= due ==> worker.action(session, now) == WorkerAction::CaptureToBack
            &&& now < due ==> worker.action(session, now) == WorkerAction::Wait(
                (due - now) as u64,
            )
            &&& now < due ==> after.next_manual_frame == due
            &&& due <= now < due + interval ==> after.next_manual_frame == due + interval
            &&& now >= due + interval ==> after.next_manual_frame == now + interval
            &&& after.previous_mode == FpsMode::Manual
            &&& after.target_fps == session.control.target_fps
            &&& after.width == worker.width
            &&& after.height == worker.height
            &&& after.scratch == worker.scratch
        }),
{
    lemma_interval(session.control.target_fps);
}

/// The first decision in Manual mode after Vsync mode captures, and the next
/// frame is due an interval later, whatever the schedule was.
pub proof fn law_switch_to_manual_starts_the_schedule_anew(
    worker: WorkerView,
    session: SessionView,
    now: u64,
)
    requires
        session.is_running,
        !session.frame_ready,
        session.control.fps_mode == FpsMode::Manual,
        worker.previous_mode == FpsMode::Vsync,
        1 <= session.control.target_fps <= 240,
        now + 1_000_000_000 <= u64::MAX,
    ensures
        worker.action(session, now) == WorkerAction::CaptureToBack,
        worker.decided(session, now) == (WorkerView {
            previous_mode: FpsMode::Manual,
            target_fps: session.control.target_fps,
            next_manual_frame: (now + interval_at(session.control.target_fps)) as u64,
            ..worker
        }),
{
    lemma_interval(session.control.target_fps);
}

/// A wait for a manual frame is neither too short nor too long: when it is over
/// the worker captures, and not before.
pub proof fn law_waits_end_when_the_frame_is_due(
    worker: WorkerView,
    session: SessionView,
    now: u64,
    nanos: u64,
    later: u64,
)
    requires
        session.is_running,
        !session.frame_ready,
        worker.action(session, now) == WorkerAction::Wait(nanos),
        now <= later,
    ensures
        session.control.fps_mode == FpsMode::Manual,
        worker.decided(session, now).action(session, later) == WorkerAction::CaptureToBack
            <==> later >= now + nanos,
        later < now + nanos ==> worker.decided(session, now).action(session, later)
            == WorkerAction::Wait((now + nanos - later) as u64),
{
}

/// A worker that is not wanted ends, and one whose frame was not consumed looks
/// again after fifty milliseconds; neither changes anything of the worker.
pub proof fn law_idle_decisions(worker: WorkerView, session: SessionView, now: u64)
    ensures
        !session.is_running ==> worker.action(session, now) == WorkerAction::Stop,
        session.is_running && session.frame_ready ==> worker.action(session, now)
            == WorkerAction::Wait(50_000_000),
        !session.is_running || session.frame_ready ==> worker.decided(session, now) == worker,
        session.is_running && !session.frame_ready ==> worker.decided(session, now).previous_mode
            == session.control.fps_mode,
{
}

/// A worker starts with the geometry, the mode and the rate that it is given,
/// and without a scratch buffer; its first manual frame is due at once, and so
/// is captured at its first decision, whenever that is.
pub proof fn law_first_frame_is_due_at_once(
    width: u32,
    height: u32,
    session: SessionView,
    started: u64,
    now: u64,
)
    requires
        session.is_running,
        !session.frame_ready,
        started <= now,
    ensures
        ({
            let worker = fresh_worker(width, height, session, started);
            &&& worker.width == width
            &&& worker.height == height
            &&& worker.previous_mode == session.control.fps_mode
            &&& worker.target_fps == session.control.target_fps
            &&& worker.next_manual_frame == started
            &&& worker.scratch.len() == 0
            &&& session.control.fps_mode == FpsMode::Manual ==> worker.action(session, now)
                == WorkerAction::CaptureToBack
            &&& session.control.fps_mode == FpsMode::Vsync ==> worker.action(session, now)
                == WorkerAction::CaptureToScratch(50)
        }),
{
}

/// What a capture leads to. A frame is announced and ends the standing error;
/// nothing new changes nothing; each error is reported as what it is and
/// announces nothing. Only a fatal one ends capture, only a lost device asks for
/// a new backend, and only an error that can be skipped is waited out, for a
/// tenth of a second.
pub proof fn law_captures_lead_to_what_they_say(session: SessionView, error: Seq<char>)
    ensures
        session.after_capture(Ok(true)) == (SessionView {
            is_running: session.is_running,
            frame_ready: true,
            control: session.control.without_error(),
        }),
        session.after_capture(Ok(false)) == session,
        session.after_capture(Err(CaptureErrorView::Reinitialize(error))) == (SessionView {
            is_running: session.is_running,
            frame_ready: session.frame_ready,
            control: session.control.with_error(
                "[DesktopCapture] Capture device changed; restarting backend: "@ + error,
            ),
        }),
        session.after_capture(Err(CaptureErrorView::Recoverable(error))) == (SessionView {
            is_running: session.is_running,
            frame_ready: session.frame_ready,
            control: session.control.with_error("[DesktopCapture] Capture error: "@ + error),
        }),
        session.after_capture(Err(CaptureErrorView::Fatal(error))) == (SessionView {
            is_running: false,
            frame_ready: session.frame_ready,
            control: session.control.with_error("[DesktopCapture] Capture stopped: "@ + error),
        }),
        next_after(Ok(true)) == AfterCapture::Continue,
        next_after(Ok(false)) == AfterCapture::Continue,
        next_after(Err(CaptureErrorView::Reinitialize(error))) == AfterCapture::Restart,
        next_after(Err(CaptureErrorView::Recoverable(error))) == AfterCapture::Wait(100_000_000),
        next_after(Err(CaptureErrorView::Fatal(error))) == AfterCapture::Stop,
{
}

/// A backend that could be reopened changes nothing; one that could not, or that
/// could not be opened at first, ends capture and is reported. A stop ends
/// capture and wakes whoever waits. None of them announces or drops a frame.
pub proof fn law_backends_that_fail_end_capture(session: SessionView, error: Seq<char>)
    ensures
        session.after_restart(Ok(())) == session,
        session.after_restart(Err(error)) == (SessionView {
            is_running: false,
            frame_ready: session.frame_ready,
            control: session.control.with_error(
                "[DesktopCapture] Backend restart failed: "@ + error,
            ),
        }),
        session.after_failed_init(error) == (SessionView {
            is_running: false,
            frame_ready: session.frame_ready,
            control: session.control.with_error("[DesktopCapture] Backend init failed: "@ + error),
        }),
        session.stopped() == (SessionView {
            is_running: false,
            frame_ready: session.frame_ready,
            control: session.control.notified(),
        }),
{
}

/// How opening went is seen as it is.
pub proof fn law_openings_are_seen_as_they_are<B>(backend: B, error: String)
    ensures
        opened_or_not(Ok::<B, String>(backend)) == Ok::<(), Seq<char>>(()),
        opened_or_not(Err::<B, String>(error)) == Err::<(), Seq<char>>(error@),
{
}

/// A frame in the scratch buffer is handed over byte by byte; a capture without
/// one leaves the back buffer as it was. The scratch buffer of a capture holds
/// one frame, as far as a machine can address it: what it held before, or all
/// zeros where it had another size.
pub proof fn law_scratch_holds_a_frame_and_only_frames_are_handed_over(
    worker: WorkerView,
    error: CaptureErrorView,
    scratch: Seq<u8>,
    back: Seq<u8>,
)
    ensures
        handed_over(Ok(true), scratch, back) == scratch,
        handed_over(Ok(false), scratch, back) == back,
        handed_over(Err(error), scratch, back) == back,
        4 * (worker.width * worker.height) <= usize::MAX ==> scratch_len(
            worker.width,
            worker.height,
        ) == 4 * (worker.width * worker.height),
        4 * (worker.width * worker.height) > usize::MAX ==> scratch_len(
            worker.width,
            worker.height,
        ) == usize::MAX,
        worker.ready_scratch().len() == scratch_len(worker.width, worker.height),
        worker.scratch.len() == scratch_len(worker.width, worker.height)
            ==> worker.ready_scratch() == worker.scratch,
        worker.scratch.len() != scratch_len(worker.width, worker.height) ==> forall|i: int|
            0 <= i < worker.ready_scratch().len() ==> #[trigger] worker.ready_scratch()[i] == 0,
{
    assert(0 <= worker.width * worker.height) by (nonlinear_arith);
}

} // verus!
