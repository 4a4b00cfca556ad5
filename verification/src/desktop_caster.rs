//! The node that shows the desktop.

use vstd::prelude::*;

use crate::capture_thread::CaptureControl;
use crate::capture_thread::CaptureSession;
use crate::capture_thread::CaptureThread;
use crate::capture_thread::ControlView;
use crate::capture_thread::SessionView;
use crate::frame::checked_frame_len;
use crate::frame::frame_bytes;
use crate::pipeline::control_is_a_step;
use crate::pipeline::preparing_is_fresh;
use crate::pipeline::showing_is_a_step;
use crate::text::join;

verus! {

/// How the capture worker paces itself.
#[derive(Debug, Clone, Copy, PartialEq, Eq, Structural)]
pub enum FpsMode {
    /// Capture at a user-selected rate. The default is 30 FPS.
    Manual,
    /// Capture when the desktop compositor delivers a new frame.
    Vsync,
}

/// The number that stands for a mode.
pub open spec fn mode_number(mode: FpsMode) -> u8 {
    match mode {
        FpsMode::Manual => 0,
        FpsMode::Vsync => 1,
    }
}

/// The mode that a number stands for; unknown numbers stand for `Manual`.
pub open spec fn mode_of(number: u8) -> FpsMode {
    if number == 1 {
        FpsMode::Vsync
    } else {
        FpsMode::Manual
    }
}

impl FpsMode {
    /// The number that stands for this mode.
    pub fn as_u8(self) -> (number: u8)
        ensures
            number == mode_number(self),
    {
        match self {
            FpsMode::Manual => 0,
            FpsMode::Vsync => 1,
        }
    }

    /// The mode that a number stands for.
    pub fn from_u8(value: u8) -> (mode: FpsMode)
        ensures
            mode == mode_of(value),
    {
        match value {
            1 => FpsMode::Vsync,
            _ => FpsMode::Manual,
        }
    }
}

/// A mode survives the way through its number.
pub proof fn law_mode_survives_its_number(mode: FpsMode)
    ensures
        mode_of(mode_number(mode)) == mode,
{
}

/// The manual rate unless another one is selected.
pub const DEFAULT_FPS: i32 = 30;

/// What becomes of a manual rate that a user or a script selects: one outside
/// `1..=240` gives way to the default.
pub open spec fn normalized_fps(target_fps: i32) -> i32 {
    if 1 <= target_fps <= 240 {
        target_fps
    } else {
        DEFAULT_FPS
    }
}

/// The size of the display that is captured, and of its frames.
#[derive(Debug, Clone, Copy)]
pub struct CaptureGeometry {
    width: u32,
    height: u32,
    buf_size: usize,
}

impl CaptureGeometry {
    /// The display is not empty, and the machine can address a frame of it.
    #[verifier::type_invariant]
    spec fn is_valid(self) -> bool {
        &&& 0 < self.width <= i32::MAX
        &&& 0 < self.height <= i32::MAX
        &&& self.buf_size == frame_bytes(self.width as nat, self.height as nat)
    }

    pub closed spec fn spec_width(self) -> u32 {
        self.width
    }

    pub closed spec fn spec_height(self) -> u32 {
        self.height
    }

    /// Pixels of a line.
    pub fn width(&self) -> (width: u32)
        ensures
            width == self.spec_width(),
            0 < width <= i32::MAX,
    {
        proof {
            use_type_invariant(self);
        }
        self.width
    }

    /// Lines.
    pub fn height(&self) -> (height: u32)
        ensures
            height == self.spec_height(),
            0 < height <= i32::MAX,
    {
        proof {
            use_type_invariant(self);
        }
        self.height
    }

    /// Bytes of a frame.
    pub fn buf_size(&self) -> (buf_size: usize)
        ensures
            buf_size == frame_bytes(self.spec_width() as nat, self.spec_height() as nat),
    {
        proof {
            use_type_invariant(self);
        }
        self.buf_size
    }
}

/// What has to be done to start capture.
#[derive(Debug, Clone, Copy, PartialEq, Eq, Structural)]
pub enum StartStep {
    /// Nothing: capture runs.
    Running,
    /// A worker that ended on its own is still held: stop first.
    StopFirst,
    /// Measure the primary display.
    Measure,
}

/// What the main thread does in one pass.
#[derive(Debug)]
pub struct ProcessStep {
    /// An error to log.
    pub error: Option<String>,
    /// A frame is ready to be shown.
    pub show: bool,
}

/// The node's state on the main thread. `I` and `T` are the engine's image and
/// texture, `H` is the handle of the worker's thread.
#[derive(Debug)]
pub struct DesktopCaster<I, T, H> {
    pub fps_mode: FpsMode,
    pub target_fps: i32,
    pub texture: Option<T>,
    pub image: Option<I>,
    pub capture_thread: Option<CaptureThread<H>>,
    /// The buffer that the engine reads; the worker writes the back buffer.
    pub front_buffer: Vec<u8>,
    pub width: u32,
    pub height: u32,
}

/// Why a display of this size cannot be captured, if it cannot.
pub open spec fn screen_error(x: i32, y: i32) -> Option<Seq<char>> {
    if x <= 0 || y <= 0 {
        Some("[DesktopCaster] Primary display has an invalid size."@)
    } else if frame_bytes(x as nat, y as nat) > usize::MAX {
        Some("[DesktopCaster] Capture buffer size overflows this platform."@)
    } else {
        None
    }
}

/// The session after an error of the main thread.
pub open spec fn with_error(session: SessionView, error: Seq<char>) -> SessionView {
    SessionView { control: session.control.with_error(error), ..session }
}

/// The session when a worker is about to be spawned.
pub open spec fn prepared(session: SessionView, fps_mode: FpsMode, target_fps: i32) -> SessionView {
    SessionView {
        is_running: true,
        frame_ready: false,
        control: session.control.with_fps_mode(fps_mode).with_target_fps(
            normalized_fps(target_fps) as u32,
        ).without_error(),
    }
}

/// How a spawn went, without the thread.
pub open spec fn spawn_result<H>(spawned: Result<CaptureThread<H>, String>) -> Result<
    (),
    Seq<char>,
> {
    match spawned {
        Ok(_) => Ok(()),
        Err(error) => Err(error@),
    }
}

/// The session after a frame was taken over by the main thread.
pub open spec fn consumed(session: SessionView) -> SessionView {
    SessionView { frame_ready: false, control: session.control.notified(), ..session }
}

impl<I, T, H> DesktopCaster<I, T, H> {
    /// A node that does not capture yet, and its session.
    pub fn init() -> (fresh: (Self, CaptureSession))
        ensures
            fresh.0.fps_mode == FpsMode::Manual,
            fresh.0.target_fps == DEFAULT_FPS,
            fresh.0.texture is None,
            fresh.0.image is None,
            fresh.0.capture_thread is None,
            fresh.0.front_buffer@ == Seq::<u8>::empty(),
            fresh.0.width == 0,
            fresh.0.height == 0,
            fresh.1@ == (SessionView {
                is_running: false,
                frame_ready: false,
                control: ControlView {
                    fps_mode: FpsMode::Manual,
                    target_fps: DEFAULT_FPS as u32,
                    last_error: Seq::empty(),
                    pending_error: None,
                    wakes: 0,
                },
            }),
    {
        let caster = DesktopCaster {
            fps_mode: FpsMode::Manual,
            target_fps: DEFAULT_FPS,
            texture: None,
            image: None,
            capture_thread: None,
            front_buffer: Vec::new(),
            width: 0,
            height: 0,
        };
        (caster, CaptureSession::new(CaptureControl::new(FpsMode::Manual, DEFAULT_FPS as u32)))
    }

    /// Begins a pass of the main thread: takes the worker's error, if there
    /// is one, and tells whether `show_frame` is due.
    pub fn process(session: &mut CaptureSession) -> (step: ProcessStep)
        ensures
            match step.error {
                Some(text) => old(session)@.control.pending_error == Some(text@),
                None => old(session)@.control.pending_error is None,
            },
            step.show == old(session)@.frame_ready,
            final(session)@ == (SessionView {
                control: old(session)@.control.seen(),
                ..old(session)@
            }),
            control_is_a_step(old(session)@, final(session)@),
    {
        let error = session.control.take_pending_error();
        ProcessStep { error, show: session.frame_ready }
    }

    /// Swaps the buffers, so that the front one holds the frame that was
    /// ready, and wakes the worker for the next one.
    pub fn show_frame(&mut self, session: &mut CaptureSession, back_buffer: &mut Vec<u8>)
        ensures
            *final(self) == (DesktopCaster { front_buffer: *old(back_buffer), ..*old(self) }),
            *final(back_buffer) == old(self).front_buffer,
            final(session)@ == consumed(old(session)@),
            showing_is_a_step(
                old(session)@,
                final(session)@,
                old(self).front_buffer@,
                old(back_buffer)@,
                final(self).front_buffer@,
                final(back_buffer)@,
            ),
    {
        std::mem::swap(&mut self.front_buffer, back_buffer);
        session.frame_ready = false;
        session.control.notify();
    }

    /// Begins to start capture. The display is measured only while no worker is
    /// held.
    pub fn start(&self, session: &CaptureSession) -> (step: StartStep)
        ensures
            step == (if session.is_running {
                StartStep::Running
            } else if self.capture_thread is Some {
                StartStep::StopFirst
            } else {
                StartStep::Measure
            }),
    {
        if session.is_running {
            StartStep::Running
        } else if self.capture_thread.is_some() {
            StartStep::StopFirst
        } else {
            StartStep::Measure
        }
    }

    /// Takes the size of the primary display, or reports why it cannot be
    /// captured.
    pub fn accept_screen(session: &mut CaptureSession, x: i32, y: i32) -> (geometry: Option<
        CaptureGeometry,
    >)
        ensures
            match screen_error(x, y) {
                Some(error) => {
                    &&& geometry is None
                    &&& final(session)@ == with_error(old(session)@, error)
                },
                None => {
                    &&& geometry matches Some(g) && g.spec_width() == x && g.spec_height() == y
                    &&& final(session)@ == old(session)@
                },
            },
            geometry is None ==> forall|
                fps_mode: FpsMode,
                target_fps: i32,
                image: bool,
                texture: bool,
                spawned: Result<(), Seq<char>>,
            |
                (final(session)@, false) == #[trigger] start_outcome(
                    old(session)@,
                    fps_mode,
                    target_fps,
                    x,
                    y,
                    image,
                    texture,
                    spawned,
                ),
    {
        if x <= 0 || y <= 0 {
            session.control.report_error(
                "[DesktopCaster] Primary display has an invalid size.".to_owned(),
            );
            return None;
        }
        let width = x as u32;
        let height = y as u32;
        match checked_frame_len(width, height) {
            None => {
                session.control.report_error(
                    "[DesktopCaster] Capture buffer size overflows this platform.".to_owned(),
                );
                None
            },
            Some(buf_size) => Some(CaptureGeometry { width, height, buf_size }),
        }
    }

    /// Takes the image that the engine allocated, or reports that it did not.
    pub fn accept_image(session: &mut CaptureSession, image: Option<I>) -> (accepted: Option<I>)
        ensures
            accepted == image,
            final(session)@ == (match image {
                Some(_) => old(session)@,
                None => with_error(
                    old(session)@,
                    "[DesktopCapture] Image allocation failed."@,
                ),
            }),
            accepted is None ==> forall|
                fps_mode: FpsMode,
                target_fps: i32,
                x: i32,
                y: i32,
                texture: bool,
                spawned: Result<(), Seq<char>>,
            |
                screen_error(x, y) is None ==> (final(session)@, false)
                    == #[trigger] start_outcome(
                    old(session)@,
                    fps_mode,
                    target_fps,
                    x,
                    y,
                    false,
                    texture,
                    spawned,
                ),
    {
        if image.is_none() {
            session.control.report_error("[DesktopCapture] Image allocation failed.".to_owned());
        }
        image
    }

    /// Takes the texture that the engine allocated, or reports that it did
    /// not.
    pub fn accept_texture(session: &mut CaptureSession, texture: Option<T>) -> (accepted: Option<T>)
        ensures
            accepted == texture,
            final(session)@ == (match texture {
                Some(_) => old(session)@,
                None => with_error(
                    old(session)@,
                    "[DesktopCapture] Texture allocation failed."@,
                ),
            }),
            accepted is None ==> forall|
                fps_mode: FpsMode,
                target_fps: i32,
                x: i32,
                y: i32,
                spawned: Result<(), Seq<char>>,
            |
                screen_error(x, y) is None ==> (final(session)@, false)
                    == #[trigger] start_outcome(
                    old(session)@,
                    fps_mode,
                    target_fps,
                    x,
                    y,
                    true,
                    false,
                    spawned,
                ),
    {
        if texture.is_none() {
            session.control.report_error("[DesktopCapture] Texture allocation failed.".to_owned());
        }
        texture
    }

    /// Prepares everything for a worker: black buffers of the right size, the
    /// selected mode and rate, and no error. An earlier worker was stopped: the
    /// node holds one at most.
    pub fn prepare(
        &mut self,
        session: &mut CaptureSession,
        back_buffer: &mut Vec<u8>,
        geometry: CaptureGeometry,
        image: I,
        texture: T,
    )
        requires
            old(self).capture_thread is None,
        ensures
            final(self).fps_mode == old(self).fps_mode,
            final(self).target_fps == normalized_fps(old(self).target_fps),
            final(self).texture == Some(texture),
            final(self).image == Some(image),
            final(self).capture_thread is None,
            final(self).front_buffer@ == black_frame(
                geometry.spec_width(),
                geometry.spec_height(),
            ),
            final(back_buffer)@ == black_frame(geometry.spec_width(), geometry.spec_height()),
            final(self).width == geometry.spec_width(),
            final(self).height == geometry.spec_height(),
            final(session)@ == prepared(
                old(session)@,
                old(self).fps_mode,
                old(self).target_fps,
            ),
            preparing_is_fresh(
                old(session)@,
                final(session)@,
                old(self).fps_mode,
                old(self).target_fps,
                geometry.spec_width(),
                geometry.spec_height(),
                final(self).front_buffer@,
                final(back_buffer)@,
            ),
    {
        let buf_size = geometry.buf_size();
        self.width = geometry.width();
        self.height = geometry.height();
        self.front_buffer = vec![0u8; buf_size];
        *back_buffer = vec![0u8; buf_size];
        assert(self.front_buffer@ =~= black_frame(self.width, self.height));
        assert(back_buffer@ =~= black_frame(self.width, self.height));
        self.image = Some(image);
        self.texture = Some(texture);
        // Invalid values fall back to the documented default rather than
        // becoming a tight polling loop.
        self.target_fps = Self::normalize_target_fps(self.target_fps);
        session.control.set_fps_mode(self.fps_mode);
        session.control.set_target_fps(self.target_fps as u32);
        session.control.clear_error();
        session.frame_ready = false;
        session.is_running = true;
    }

    /// Keeps the worker that was spawned, or reports why none was. Tells
    /// whether capture runs.
    pub fn finish_start(
        &mut self,
        session: &mut CaptureSession,
        spawned: Result<CaptureThread<H>, String>,
    ) -> (running: bool)
        requires
            old(self).capture_thread is None,
        ensures
            (final(session)@, running) == started(old(session)@, spawn_result(spawned)),
            forall|before: SessionView, fps_mode: FpsMode, target_fps: i32, x: i32, y: i32|
                old(session)@ == prepared(before, fps_mode, target_fps) && screen_error(x, y)
                    is None ==> (final(session)@, running) == #[trigger] start_outcome(
                    before,
                    fps_mode,
                    target_fps,
                    x,
                    y,
                    true,
                    true,
                    spawn_result(spawned),
                ),
            *final(self) == (match spawned {
                Ok(thread) => DesktopCaster { capture_thread: Some(thread), ..*old(self) },
                Err(_) => *old(self),
            }),
    {
        match spawned {
            Ok(thread) => {
                self.capture_thread = Some(thread);
                true
            },
            Err(error) => {
                session.is_running = false;
                session.control.report_error(join("[DesktopCaster] ", error.as_str()));
                false
            },
        }
    }

    /// Makes the worker end and hands out its thread. Once that is joined,
    /// `finish_stop` follows.
    pub fn stop(&mut self, session: &mut CaptureSession) -> (handle: Option<H>)
        ensures
            *final(self) == (DesktopCaster { capture_thread: None, ..*old(self) }),
            match old(self).capture_thread {
                Some(thread) => {
                    &&& handle == thread.handle
                    &&& final(session)@ == old(session)@.stopped().stopped()
                },
                None => {
                    &&& handle is None
                    &&& final(session)@ == old(session)@.stopped()
                },
            },
    {
        session.stop();
        match self.capture_thread.take() {
            Some(thread) => {
                let mut thread = thread;
                thread.shutdown(session)
            },
            None => None,
        }
    }

    /// Drops a frame that the worker completed before it ended.
    pub fn finish_stop(session: &mut CaptureSession)
        ensures
            final(session)@ == (SessionView { frame_ready: false, ..old(session)@ }),
    {
        session.frame_ready = false;
    }

    /// The texture that shows the desktop.
    pub fn get_texture(&self) -> (texture: Option<&T>)
        ensures
            match texture {
                Some(texture) => self.texture == Some(*texture),
                None => self.texture is None,
            },
    {
        self.texture.as_ref()
    }

    /// Changes the mode at runtime.
    pub fn set_fps_mode_runtime(&mut self, session: &mut CaptureSession, mode: FpsMode)
        ensures
            *final(self) == (DesktopCaster { fps_mode: mode, ..*old(self) }),
            final(session)@ == (SessionView {
                control: old(session)@.control.with_fps_mode(mode),
                ..old(session)@
            }),
            control_is_a_step(old(session)@, final(session)@),
    {
        self.fps_mode = mode;
        session.control.set_fps_mode(mode);
    }

    /// Sets the manual rate at runtime. Values outside `1..=240` use the safe
    /// default of 30 FPS so they cannot create a busy polling loop.
    pub fn set_target_fps_runtime(&mut self, session: &mut CaptureSession, target_fps: i32)
        ensures
            *final(self) == (DesktopCaster {
                target_fps: normalized_fps(target_fps),
                ..*old(self)
            }),
            final(session)@ == (SessionView {
                control: old(session)@.control.with_target_fps(normalized_fps(target_fps) as u32),
                ..old(session)@
            }),
            control_is_a_step(old(session)@, final(session)@),
    {
        self.target_fps = Self::normalize_target_fps(target_fps);
        session.control.set_target_fps(self.target_fps as u32);
    }

    /// Tells whether capture runs.
    pub fn is_capturing(session: &CaptureSession) -> (capturing: bool)
        ensures
            capturing == session@.is_running,
    {
        session.is_running
    }

    /// The error that stands; empty if there is none.
    pub fn get_last_error(session: &CaptureSession) -> (error: String)
        ensures
            error@ == session@.control.last_error,
    {
        session.control.last_error()
    }

    /// Brings a selected rate to a safe one.
    pub fn normalize_target_fps(target_fps: i32) -> (fps: i32)
        ensures
            fps == normalized_fps(target_fps),
    {
        if 1 <= target_fps && target_fps <= 240 {
            target_fps
        } else {
            DEFAULT_FPS
        }
    }
}

/// The frame that buffers start with.
pub open spec fn black_frame(width: u32, height: u32) -> Seq<u8> {
    Seq::new(frame_bytes(width as nat, height as nat), |i: int| 0u8)
}

/// Whatever a user or a script selects, the node and the worker run at the
/// same rate, and it is a safe one: the selected rate itself if that is safe,
/// else the default.
pub proof fn law_selected_rate_is_safe(control: ControlView, target_fps: i32)
    ensures
        1 <= normalized_fps(target_fps) <= 240,
        1 <= target_fps <= 240 ==> normalized_fps(target_fps) == target_fps,
        !(1 <= target_fps <= 240) ==> normalized_fps(target_fps) == DEFAULT_FPS,
        control.with_target_fps(normalized_fps(target_fps) as u32).target_fps == normalized_fps(
            target_fps,
        ),
{
}

/// The buffers that a start allocates pass every backend's check, and have
/// the size of the worker's scratch buffer.
pub proof fn law_buffers_fit_backends_and_worker(x: i32, y: i32)
    requires
        screen_error(x, y) is None,
    ensures
        crate::backends::buffer_check(
            x as u32,
            y as u32,
            black_frame(x as u32, y as u32).len(),
        ) is Ok,
        black_frame(x as u32, y as u32).len() == crate::capture_thread::scratch_len(
            x as u32,
            y as u32,
        ),
{
}

/// A session that was prepared runs without an error and without a frame; one
/// that was stopped does not run, and stopping it again changes neither flag.
pub proof fn law_start_and_stop(session: SessionView, fps_mode: FpsMode, target_fps: i32)
    ensures
        prepared(session, fps_mode, target_fps).is_running,
        !prepared(session, fps_mode, target_fps).frame_ready,
        prepared(session, fps_mode, target_fps).control.last_error == Seq::<char>::empty(),
        prepared(session, fps_mode, target_fps).control.fps_mode == fps_mode,
        !session.stopped().is_running,
        session.stopped().stopped().is_running == session.stopped().is_running,
        session.stopped().stopped().frame_ready == session.frame_ready,
{
}

/// A whole start from a session that does not run: the session afterwards, and
/// what is answered. The display measures `x` by `y`; the engine allocated an
/// image and a texture or did not; the thread was spawned or failed with an
/// error.
pub open spec fn start_outcome(
    session: SessionView,
    fps_mode: FpsMode,
    target_fps: i32,
    x: i32,
    y: i32,
    image: bool,
    texture: bool,
    spawned: Result<(), Seq<char>>,
) -> (SessionView, bool) {
    match screen_error(x, y) {
        Some(error) => (with_error(session, error), false),
        None => if !image {
            (with_error(session, "[DesktopCapture] Image allocation failed."@), false)
        } else if !texture {
            (with_error(session, "[DesktopCapture] Texture allocation failed."@), false)
        } else {
            started(prepared(session, fps_mode, target_fps), spawned)
        },
    }
}

/// What `finish_start` makes of a prepared session, and what it answers.
pub open spec fn started(session: SessionView, spawned: Result<(), Seq<char>>) -> (
    SessionView,
    bool,
) {
    match spawned {
        Ok(()) => (session, true),
        Err(error) => (
            SessionView {
                is_running: false,
                ..with_error(session, "[DesktopCaster] "@ + error)
            },
            false,
        ),
    }
}

/// A start answers whether capture runs. It does if and only if the display
/// can be captured, the engine allocates what is needed and the thread is
/// spawned; otherwise an error stands.
pub proof fn law_start_tells_whether_capture_runs(
    session: SessionView,
    fps_mode: FpsMode,
    target_fps: i32,
    x: i32,
    y: i32,
    image: bool,
    texture: bool,
    spawned: Result<(), Seq<char>>,
)
    requires
        !session.is_running,
    ensures
        ({
            let (after, answer) = start_outcome(
                session,
                fps_mode,
                target_fps,
                x,
                y,
                image,
                texture,
                spawned,
            );
            &&& answer == after.is_running
            &&& answer <==> screen_error(x, y) is None && image && texture && spawned is Ok
            &&& answer <==> after.control.last_error == Seq::<char>::empty()
        }),
{
    reveal_strlit("[DesktopCaster] Primary display has an invalid size.");
    reveal_strlit("[DesktopCaster] Capture buffer size overflows this platform.");
    reveal_strlit("[DesktopCapture] Image allocation failed.");
    reveal_strlit("[DesktopCapture] Texture allocation failed.");
    reveal_strlit("[DesktopCaster] ");
    let (after, answer) = start_outcome(
        session,
        fps_mode,
        target_fps,
        x,
        y,
        image,
        texture,
        spawned,
    );
    if !answer {
        assert(after.control.last_error.len() > 0);
    }
}

/// One stands for Vsync mode, and every other number for Manual mode, whose own
/// number is zero.
pub proof fn law_only_one_stands_for_vsync(number: u8)
    ensures
        mode_number(FpsMode::Manual) == 0,
        mode_number(FpsMode::Vsync) == 1,
        mode_of(number) == FpsMode::Vsync <==> number == 1,
{
}

/// A rate in `1..=240` is used as it is, and any other gives way to 30.
pub proof fn law_unsafe_rates_become_thirty(target_fps: i32)
    ensures
        1 <= target_fps <= 240 ==> normalized_fps(target_fps) == target_fps,
        target_fps < 1 || target_fps > 240 ==> normalized_fps(target_fps) == 30,
{
}

/// A display can be captured if and only if it is not empty and the machine can
/// address four bytes per pixel of it; otherwise the error says which of the two
/// it is.
pub proof fn law_addressable_displays_can_be_captured(x: i32, y: i32)
    ensures
        x <= 0 || y <= 0 ==> screen_error(x, y) == Some(
            "[DesktopCaster] Primary display has an invalid size."@,
        ),
        x > 0 && y > 0 && 4 * (x * y) > usize::MAX ==> screen_error(x, y) == Some(
            "[DesktopCaster] Capture buffer size overflows this platform."@,
        ),
        x > 0 && y > 0 && 4 * (x * y) <= usize::MAX ==> screen_error(x, y) is None,
{
}

/// Once a start is prepared, the worker's rate is the node's: the one that was
/// selected if it lies in `1..=240`, else 30. The worker's mode is the node's,
/// capture is wanted, no frame is ready and no error stands; an error that the
/// main thread has not seen yet is not lost.
pub proof fn law_a_start_uses_what_was_selected(
    session: SessionView,
    fps_mode: FpsMode,
    target_fps: i32,
)
    ensures
        ({
            let after = prepared(session, fps_mode, target_fps);
            &&& 1 <= target_fps <= 240 ==> after.control.target_fps == target_fps
            &&& !(1 <= target_fps <= 240) ==> after.control.target_fps == 30
            &&& after.control.target_fps == normalized_fps(target_fps)
            &&& after.control.fps_mode == fps_mode
            &&& after.control.last_error.len() == 0
            &&& after.control.pending_error == session.control.pending_error
            &&& after.control.wakes != session.control.wakes
            &&& after.is_running
            &&& !after.frame_ready
        }),
{
}

/// A frame that was taken over is no longer ready, and the worker is woken for
/// the next one; nothing else changes.
pub proof fn law_taking_a_frame_over_wakes_the_worker(session: SessionView)
    ensures
        consumed(session) == (SessionView {
            is_running: session.is_running,
            frame_ready: false,
            control: ControlView {
                wakes: consumed(session).control.wakes,
                ..session.control
            },
        }),
        consumed(session).control.wakes != session.control.wakes,
{
}

/// An error of the main thread stands afterwards and changes nothing else that
/// the worker goes by.
pub proof fn law_errors_of_the_node_stand(session: SessionView, error: Seq<char>)
    ensures
        with_error(session, error).control.last_error == error,
        session.control.last_error != error ==> with_error(session, error).control.pending_error
            == Some(error),
        session.control.last_error == error ==> with_error(session, error) == session,
        with_error(session, error).is_running == session.is_running,
        with_error(session, error).frame_ready == session.frame_ready,
        with_error(session, error).control.fps_mode == session.control.fps_mode,
        with_error(session, error).control.target_fps == session.control.target_fps,
        with_error(session, error).control.wakes == session.control.wakes,
{
}

/// The frame that buffers start with has four bytes per pixel, and all of them
/// are zero.
pub proof fn law_buffers_start_black(width: u32, height: u32)
    ensures
        black_frame(width, height).len() == 4 * (width * height),
        forall|i: int|
            0 <= i < black_frame(width, height).len() ==> #[trigger] black_frame(
                width,
                height,
            )[i] == 0,
{
    assert(0 <= width * height) by (nonlinear_arith);
}

/// How a spawn went is seen as it is. A thread that was spawned leaves the
/// prepared session as it is; one that was not ends capture and is reported.
pub proof fn law_a_spawn_decides_the_start<H>(
    session: SessionView,
    thread: CaptureThread<H>,
    error: String,
)
    ensures
        spawn_result(Ok::<CaptureThread<H>, String>(thread)) == Ok::<(), Seq<char>>(()),
        spawn_result(Err::<CaptureThread<H>, String>(error)) == Err::<(), Seq<char>>(error@),
        started(session, Ok(())) == (session, true),
        started(session, Err(error@)) == (
            SessionView {
                is_running: false,
                frame_ready: session.frame_ready,
                control: session.control.with_error("[DesktopCaster] "@ + error@),
            },
            false,
        ),
{
}

/// The first thing that fails decides what a start reports, and what failed
/// before a worker was prepared leaves mode, rate and frame alone. A start that
/// succeeds runs in the selected mode at the selected rate, or at 30 where that
/// is not safe.
pub proof fn law_a_start_reports_its_first_failure(
    session: SessionView,
    fps_mode: FpsMode,
    target_fps: i32,
    x: i32,
    y: i32,
    image: bool,
    texture: bool,
    spawned: Result<(), Seq<char>>,
)
    ensures
        ({
            let (after, answer) = start_outcome(
                session,
                fps_mode,
                target_fps,
                x,
                y,
                image,
                texture,
                spawned,
            );
            let error = after.control.last_error;
            let fits = x > 0 && y > 0 && 4 * (x * y) <= usize::MAX;
            &&& x <= 0 || y <= 0 ==> error
                == "[DesktopCaster] Primary display has an invalid size."@
            &&& x > 0 && y > 0 && !fits ==> error
                == "[DesktopCaster] Capture buffer size overflows this platform."@
            &&& fits && !image ==> error == "[DesktopCapture] Image allocation failed."@
            &&& fits && image && !texture ==> error
                == "[DesktopCapture] Texture allocation failed."@
            &&& fits && image && texture ==> (spawned matches Err(why) ==> {
                &&& error == "[DesktopCaster] "@ + why
                &&& after.control.pending_error == Some(error)
                &&& !after.is_running
            })
            &&& answer <==> fits && image && texture && spawned is Ok
            &&& !(fits && image && texture) ==> {
                &&& after.is_running == session.is_running
                &&& after.frame_ready == session.frame_ready
                &&& after.control.fps_mode == session.control.fps_mode
                &&& after.control.target_fps == session.control.target_fps
                &&& session.control.last_error != error ==> after.control.pending_error == Some(
                    error,
                )
            }
            &&& answer ==> {
                &&& after.is_running
                &&& !after.frame_ready
                &&& after.control.fps_mode == fps_mode
                &&& after.control.target_fps == (if 1 <= target_fps <= 240 {
                    target_fps
                } else {
                    30
                })
                &&& error.len() == 0
            }
        }),
{
    reveal_strlit("[DesktopCaster] ");
    match spawned {
        Err(why) => {
            assert(("[DesktopCaster] "@ + why).len() > 0);
        },
        Ok(()) => {},
    }
}

} // verus!
