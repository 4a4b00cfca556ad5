use std::time::Duration;

use desktop_caster::backends::{check_buffer_len, CaptureBackend, CaptureError};
use desktop_caster::capture_thread::{
    manual_frame_interval, AfterCapture, CaptureControl, CaptureSession, CaptureThread,
    CaptureWorker, DestroyedBackend, WorkerAction, ERROR_RETRY_DELAY, FRAME_CONSUMED_POLL, SECOND,
    VSYNC_ACQUIRE_TIMEOUT,
};
use desktop_caster::desktop_caster::{DesktopCaster, FpsMode, StartStep};

/// A backend that numbers its frames.
#[derive(Debug)]
struct Counter {
    width: u32,
    height: u32,
    frames: u8,
}

impl CaptureBackend for Counter {
    fn init(width: u32, height: u32) -> Result<Self, String> {
        if width == 13 {
            Err("unlucky".to_owned())
        } else {
            Ok(Counter { width, height, frames: 0 })
        }
    }

    fn capture_frame(&mut self, buffer: &mut [u8], _timeout_ms: u32) -> Result<bool, CaptureError> {
        self.frames += 1;
        buffer.fill(self.frames);
        Ok(true)
    }

    fn destroy(&mut self) {
        self.frames = 0;
    }
}

type Caster = DesktopCaster<&'static str, &'static str, u8>;

fn running(mode: FpsMode, fps: u32) -> CaptureSession {
    let mut session = CaptureSession::new(CaptureControl::new(mode, fps));
    session.is_running = true;
    session
}

fn started(session: &mut CaptureSession, now: u64) -> (CaptureWorker, Counter) {
    CaptureWorker::start(2, 1, session, Counter::init(2, 1), now).unwrap()
}

#[test]
fn manual_intervals_are_what_floating_point_gives() {
    for fps in 1..=240u32 {
        let exact = Duration::from_secs_f64(1.0 / f64::from(fps));
        assert_eq!(Duration::from_nanos(manual_frame_interval(fps)), exact);
    }
    assert_eq!(manual_frame_interval(1), 1_000_000_000);
    assert_eq!(manual_frame_interval(30), 33_333_333);
    assert_eq!(manual_frame_interval(60), 16_666_667);
    assert_eq!(manual_frame_interval(240), 4_166_667);
}

#[test]
fn a_worker_without_a_backend_ends_the_session() {
    let mut session = running(FpsMode::Manual, 30);
    let backend: Result<Counter, String> = Counter::init(13, 1);
    assert!(CaptureWorker::start(13, 1, &mut session, backend, 0).is_none());
    assert!(!session.is_running);
    assert_eq!(session.control.last_error(), "[DesktopCapture] Backend init failed: unlucky");
}

#[test]
fn a_worker_ends_when_told() {
    let mut session = running(FpsMode::Manual, 30);
    let (mut worker, _) = started(&mut session, 0);
    let ticket = session.control.wait();
    session.stop();
    assert!(session.control.is_woken(ticket));
    assert_eq!(worker.next_action(&session, 1), WorkerAction::Stop);
}

#[test]
fn an_unconsumed_frame_is_left_alone() {
    let mut session = running(FpsMode::Manual, 30);
    let (mut worker, _) = started(&mut session, 0);
    session.frame_ready = true;
    assert_eq!(worker.next_action(&session, 0), WorkerAction::Wait(FRAME_CONSUMED_POLL));
    session.frame_ready = false;
    assert_eq!(worker.next_action(&session, 0), WorkerAction::CaptureToBack);
}

#[test]
fn manual_frames_are_paced() {
    let mut session = running(FpsMode::Manual, 10);
    let (mut worker, _) = started(&mut session, 1_000);
    assert_eq!(worker.next_action(&session, 1_000), WorkerAction::CaptureToBack);
    assert_eq!(worker.next_action(&session, 1_500), WorkerAction::Wait(100_000_000 - 500));
    // Late, but less than an interval: the schedule is kept.
    assert_eq!(worker.next_action(&session, 150_000_000), WorkerAction::CaptureToBack);
    assert_eq!(worker.next_action(&session, 150_000_000), WorkerAction::Wait(50_001_000));
    // Later than that: missed frames are not made up for.
    assert_eq!(worker.next_action(&session, 900_000_000), WorkerAction::CaptureToBack);
    assert_eq!(worker.next_action(&session, 900_000_000), WorkerAction::Wait(100_000_000));
}

#[test]
fn manual_captures_never_exceed_the_rate() {
    let mut session = running(FpsMode::Manual, 100);
    let (mut worker, _) = started(&mut session, 0);
    let mut captures: u64 = 0;
    let mut now: u64 = 0;
    while now < SECOND {
        if worker.next_action(&session, now) == WorkerAction::CaptureToBack {
            assert!(now >= captures * 10_000_000);
            captures += 1;
        }
        now += 3_700_001;
    }
    assert!(captures > 90 && captures <= 100);
}

#[test]
fn a_new_rate_holds_from_the_next_frame_on() {
    let mut session = running(FpsMode::Manual, 10);
    let (mut worker, _) = started(&mut session, 0);
    assert_eq!(worker.next_action(&session, 0), WorkerAction::CaptureToBack);
    session.control.set_target_fps(100);
    assert_eq!(worker.next_action(&session, 10_000_000), WorkerAction::Wait(90_000_000));
    assert_eq!(worker.next_action(&session, 100_000_000), WorkerAction::CaptureToBack);
    assert_eq!(worker.next_action(&session, 100_000_000), WorkerAction::Wait(10_000_000));
}

#[test]
fn vsync_waits_in_the_backend_and_a_switch_captures_at_once() {
    let mut session = running(FpsMode::Manual, 1);
    let (mut worker, _) = started(&mut session, 0);
    assert_eq!(worker.next_action(&session, 0), WorkerAction::CaptureToBack);
    session.control.set_fps_mode(FpsMode::Vsync);
    assert_eq!(
        worker.next_action(&session, 5),
        WorkerAction::CaptureToScratch(VSYNC_ACQUIRE_TIMEOUT)
    );
    session.control.set_fps_mode(FpsMode::Manual);
    assert_eq!(worker.next_action(&session, 6), WorkerAction::CaptureToBack);
    assert_eq!(worker.next_action(&session, 7), WorkerAction::Wait(SECOND - 1));
}

#[test]
fn captures_go_to_back_or_scratch() {
    let mut session = running(FpsMode::Vsync, 30);
    let (mut worker, mut backend) = started(&mut session, 0);
    let mut back = vec![0u8; 8];
    assert!(matches!(CaptureWorker::capture_to_back(&mut backend, &mut back), Ok(true)));
    assert_eq!(back, vec![1; 8]);
    assert!(matches!(worker.capture_to_scratch(&mut backend, 50), Ok(true)));
    assert_eq!(back, vec![1; 8]);
    assert_eq!(worker.finish_scratch(&mut session, &mut back, Ok(true)), AfterCapture::Continue);
    assert_eq!(back, vec![2; 8]);
    assert!(session.frame_ready);
}

#[test]
fn only_a_frame_reaches_the_back_buffer() {
    let outcomes = [
        (Ok(false), AfterCapture::Continue, ""),
        (
            Err(CaptureError::Recoverable("busy".to_owned())),
            AfterCapture::Wait(ERROR_RETRY_DELAY),
            "[DesktopCapture] Capture error: busy",
        ),
        (
            Err(CaptureError::Reinitialize("moved".to_owned())),
            AfterCapture::Restart,
            "[DesktopCapture] Capture device changed; restarting backend: moved",
        ),
        (
            Err(CaptureError::Fatal("size".to_owned())),
            AfterCapture::Stop,
            "[DesktopCapture] Capture stopped: size",
        ),
    ];
    for (result, next, error) in outcomes {
        let mut session = running(FpsMode::Vsync, 30);
        let (mut worker, mut backend) = started(&mut session, 0);
        let mut back = vec![9u8; 8];
        assert!(matches!(worker.capture_to_scratch(&mut backend, 50), Ok(true)));
        assert_eq!(worker.finish_scratch(&mut session, &mut back, result), next);
        assert_eq!(back, vec![9; 8]);
        assert!(!session.frame_ready);
        assert_eq!(session.is_running, next != AfterCapture::Stop);
        assert_eq!(session.control.last_error(), error);
    }
}

/// A backend that keeps a log of its calls in its own geometry: `init` starts
/// it, and `destroy` and `capture_frame` add to it.
#[derive(Debug)]
struct Logger {
    calls: Vec<(&'static str, usize, u32)>,
}

impl CaptureBackend for Logger {
    fn init(width: u32, height: u32) -> Result<Self, String> {
        Ok(Logger { calls: vec![("init", width as usize, height)] })
    }

    fn capture_frame(&mut self, buffer: &mut [u8], timeout_ms: u32) -> Result<bool, CaptureError> {
        self.calls.push(("capture", buffer.len(), timeout_ms));
        Ok(true)
    }

    fn destroy(&mut self) {
        self.calls.push(("destroy", 0, 0));
    }
}

#[test]
fn every_capture_gets_a_whole_frame_and_the_timeout_of_its_mode() {
    let mut session = running(FpsMode::Manual, 30);
    let (mut worker, mut backend) =
        CaptureWorker::start(2, 1, &mut session, Logger::init(2, 1), 0).unwrap();
    let mut back = vec![0u8; 8];
    for (mode, now) in [(FpsMode::Manual, 0), (FpsMode::Vsync, 1), (FpsMode::Manual, 2)] {
        session.control.set_fps_mode(mode);
        match worker.next_action(&session, now) {
            WorkerAction::CaptureToBack => {
                let result = CaptureWorker::capture_to_back(&mut backend, &mut back);
                session.finish_capture(result);
            }
            WorkerAction::CaptureToScratch(timeout) => {
                let result = worker.capture_to_scratch(&mut backend, timeout);
                worker.finish_scratch(&mut session, &mut back, result);
            }
            other => panic!("{other:?}"),
        }
        session.frame_ready = false;
    }
    let captures = [("init", 2, 1), ("capture", 8, 0), ("capture", 8, 50), ("capture", 8, 0)];
    assert_eq!(backend.calls, captures);
}

#[test]
fn a_worker_that_is_not_wanted_only_opens_and_ends() {
    let mut session = running(FpsMode::Manual, 30);
    session.is_running = false;
    let (mut worker, backend) =
        CaptureWorker::start(2, 1, &mut session, Logger::init(2, 1), 0).unwrap();
    assert_eq!(worker.next_action(&session, 0), WorkerAction::Stop);
    DestroyedBackend::new(backend).finish(&mut session);
    assert!(!session.is_running && !session.frame_ready);
}

#[test]
fn a_worker_ends_with_capture_stopped_and_everyone_woken() {
    let mut session = running(FpsMode::Manual, 30);
    let (_, backend) = started(&mut session, 0);
    let destroyed = DestroyedBackend::new(backend);
    assert!(session.is_running);
    let ticket = session.control.wait();
    destroyed.finish(&mut session);
    assert!(!session.is_running && session.control.is_woken(ticket));
}

#[test]
fn any_window_of_intervals_holds_one_capture_more_at_most() {
    let mut session = running(FpsMode::Manual, 240);
    let (mut worker, _) = started(&mut session, 0);
    let interval = manual_frame_interval(240);
    let mut captures: Vec<u64> = Vec::new();
    let mut now: u64 = 0;
    for turn in 0..5_000u64 {
        now += 1 + (turn * 7_919) % 9_000_000;
        if worker.next_action(&session, now) == WorkerAction::CaptureToBack {
            captures.push(now);
        }
    }
    assert!(captures.len() > 1_000);
    for start in &captures {
        for n in 1..6u64 {
            let end = start + n * interval;
            let within = captures.iter().filter(|at| *start <= **at && **at < end).count();
            assert!(within as u64 <= n + 1);
        }
    }
}

#[test]
fn outcomes_are_recorded() {
    let mut session = running(FpsMode::Manual, 30);
    assert_eq!(session.finish_capture(Ok(false)), AfterCapture::Continue);
    assert!(session.is_running && !session.frame_ready);

    let error = CaptureError::Recoverable("busy".to_owned());
    assert_eq!(session.finish_capture(Err(error)), AfterCapture::Wait(ERROR_RETRY_DELAY));
    assert_eq!(session.control.last_error(), "[DesktopCapture] Capture error: busy");
    assert!(session.is_running && !session.frame_ready);

    let error = CaptureError::Reinitialize("moved".to_owned());
    assert_eq!(session.finish_capture(Err(error)), AfterCapture::Restart);
    assert_eq!(
        session.control.last_error(),
        "[DesktopCapture] Capture device changed; restarting backend: moved"
    );
    assert!(session.finish_restart(Ok(())));
    assert!(session.is_running);

    assert_eq!(session.finish_capture(Ok(true)), AfterCapture::Continue);
    assert!(session.frame_ready);
    assert_eq!(session.control.last_error(), "");

    assert!(!session.finish_restart(Err("gone".to_owned())));
    assert!(!session.is_running);
    assert_eq!(session.control.last_error(), "[DesktopCapture] Backend restart failed: gone");

    let mut session = running(FpsMode::Manual, 30);
    let error = CaptureError::Fatal("size".to_owned());
    assert_eq!(session.finish_capture(Err(error)), AfterCapture::Stop);
    assert!(!session.is_running);
    assert_eq!(session.control.last_error(), "[DesktopCapture] Capture stopped: size");
}

#[test]
fn a_backend_is_reopened_with_the_same_geometry() {
    let mut session = running(FpsMode::Manual, 30);
    let (worker, _) = started(&mut session, 0);
    let backend = Counter { width: 7, height: 7, frames: 5 };
    let (backend, reopened) = DestroyedBackend::new(backend).reopen(&worker);
    assert_eq!(reopened, Ok(()));
    assert_eq!((backend.width, backend.height, backend.frames), (2, 1, 0));

    let first = Counter { width: 13, height: 1, frames: 5 };
    let (worker, backend) = CaptureWorker::start(13, 1, &mut session, Ok(first), 0).unwrap();
    let (backend, reopened) = DestroyedBackend::new(backend).reopen(&worker);
    assert_eq!(reopened, Err("unlucky".to_owned()));
    assert_eq!(backend.frames, 0);
}

#[test]
fn a_thread_is_handed_out_once() {
    let mut session = running(FpsMode::Manual, 30);
    let mut thread = CaptureThread::spawn(Ok(42u8)).unwrap();
    assert_eq!(thread.shutdown(&mut session), Some(42));
    assert!(!session.is_running);
    assert_eq!(thread.shutdown(&mut session), None);
    let failed: Result<CaptureThread<u8>, String> = CaptureThread::spawn(Err("limit".to_owned()));
    assert_eq!(failed.err(), Some("Failed to spawn capture thread: limit".to_owned()));
}

#[test]
fn a_fresh_node_captures_nothing() {
    let (caster, session) = Caster::init();
    assert_eq!(caster.fps_mode, FpsMode::Manual);
    assert_eq!(caster.target_fps, 30);
    assert_eq!(caster.get_texture(), None);
    assert!(!Caster::is_capturing(&session));
    assert_eq!(session.control.target_fps(), 30);
    assert_eq!(Caster::get_last_error(&session), "");
    assert_eq!(caster.start(&session), StartStep::Measure);
}

#[test]
fn invalid_displays_are_reported() {
    let (_, mut session) = Caster::init();
    for (x, y) in [(0, 5), (5, 0), (-1, 5), (5, -7), (i32::MIN, i32::MIN)] {
        session.control.clear_error();
        assert!(Caster::accept_screen(&mut session, x, y).is_none());
        assert_eq!(
            Caster::get_last_error(&session),
            "[DesktopCaster] Primary display has an invalid size."
        );
    }
    let geometry = Caster::accept_screen(&mut session, 1920, 1080).unwrap();
    assert_eq!((geometry.width(), geometry.height(), geometry.buf_size()), (1920, 1080, 8_294_400));
}

#[test]
fn failed_allocations_are_reported() {
    let (_, mut session) = Caster::init();
    assert_eq!(Caster::accept_image(&mut session, Some("image")), Some("image"));
    assert_eq!(Caster::accept_texture(&mut session, Some("texture")), Some("texture"));
    assert_eq!(Caster::get_last_error(&session), "");
    assert_eq!(Caster::accept_image(&mut session, None), None);
    assert_eq!(Caster::get_last_error(&session), "[DesktopCapture] Image allocation failed.");
    assert_eq!(Caster::accept_texture(&mut session, None), None);
    assert_eq!(Caster::get_last_error(&session), "[DesktopCapture] Texture allocation failed.");
}

fn prepare(caster: &mut Caster, session: &mut CaptureSession, back: &mut Vec<u8>) {
    let geometry = Caster::accept_screen(session, 2, 1).unwrap();
    caster.prepare(session, back, geometry, "image", "texture");
}

#[test]
fn a_start_prepares_black_buffers_and_a_safe_rate() {
    let (mut caster, mut session) = Caster::init();
    let mut back = Vec::new();
    caster.fps_mode = FpsMode::Vsync;
    caster.target_fps = 0;
    session.control.report_error("old".to_owned());
    session.frame_ready = true;
    prepare(&mut caster, &mut session, &mut back);
    assert_eq!(caster.target_fps, 30);
    assert_eq!(session.control.target_fps(), 30);
    assert_eq!(session.control.fps_mode(), FpsMode::Vsync);
    assert_eq!(caster.front_buffer, vec![0; 8]);
    assert_eq!(back, vec![0; 8]);
    assert_eq!((caster.width, caster.height), (2, 1));
    assert!(check_buffer_len(caster.width, caster.height, back.len()).is_ok());
    assert_eq!(caster.image, Some("image"));
    assert_eq!(caster.get_texture(), Some(&"texture"));
    assert!(session.is_running && !session.frame_ready);
    assert_eq!(Caster::get_last_error(&session), "");
    assert!(caster.finish_start(&mut session, CaptureThread::spawn(Ok(1))));
    assert_eq!(caster.start(&session), StartStep::Running);
}

#[test]
fn a_start_without_a_thread_fails() {
    let (mut caster, mut session) = Caster::init();
    let mut back = Vec::new();
    prepare(&mut caster, &mut session, &mut back);
    let spawned = CaptureThread::spawn(Err("limit".to_owned()));
    assert!(!caster.finish_start(&mut session, spawned));
    assert!(!Caster::is_capturing(&session));
    assert_eq!(
        Caster::get_last_error(&session),
        "[DesktopCaster] Failed to spawn capture thread: limit"
    );
    assert!(caster.capture_thread.is_none());
}

#[test]
fn stopping_hands_out_the_thread_and_drops_the_frame() {
    let (mut caster, mut session) = Caster::init();
    let mut back = Vec::new();
    prepare(&mut caster, &mut session, &mut back);
    assert!(caster.finish_start(&mut session, CaptureThread::spawn(Ok(7))));
    // The worker ended on its own.
    session.is_running = false;
    assert_eq!(caster.start(&session), StartStep::StopFirst);
    session.frame_ready = true;
    assert_eq!(caster.stop(&mut session), Some(7));
    Caster::finish_stop(&mut session);
    assert!(!session.is_running && !session.frame_ready);
    assert_eq!(caster.stop(&mut session), None);
    assert_eq!(caster.start(&session), StartStep::Measure);
}

#[test]
fn runtime_settings_reach_the_worker() {
    let (mut caster, mut session) = Caster::init();
    caster.set_fps_mode_runtime(&mut session, FpsMode::Vsync);
    assert_eq!((caster.fps_mode, session.control.fps_mode()), (FpsMode::Vsync, FpsMode::Vsync));
    for (selected, used) in [(1, 1), (240, 240), (60, 60), (0, 30), (241, 30), (-5, 30)] {
        caster.set_target_fps_runtime(&mut session, selected);
        assert_eq!(caster.target_fps, used);
        assert_eq!(session.control.target_fps(), used as u32);
        assert_eq!(Caster::normalize_target_fps(selected), used);
    }
}

#[test]
fn a_pass_of_the_main_thread_takes_errors_and_frames() {
    let (mut caster, mut session) = Caster::init();
    let mut back = vec![1, 2, 3];
    caster.front_buffer = vec![4, 5, 6];
    session.control.report_error("oops".to_owned());
    let step = Caster::process(&mut session);
    assert_eq!((step.error, step.show), (Some("oops".to_owned()), false));
    session.frame_ready = true;
    let step = Caster::process(&mut session);
    assert_eq!((step.error, step.show), (None, true));
    let ticket = session.control.wait();
    caster.show_frame(&mut session, &mut back);
    assert_eq!((caster.front_buffer, back), (vec![1, 2, 3], vec![4, 5, 6]));
    assert!(!session.frame_ready && session.control.is_woken(ticket));
}

#[test]
fn every_frame_is_shown_once() {
    let (mut caster, mut session) = Caster::init();
    let mut back = Vec::new();
    prepare(&mut caster, &mut session, &mut back);
    let (mut worker, mut backend) = started(&mut session, 0);
    let mut shown: Vec<u8> = Vec::new();
    let mut now: u64 = 0;
    for turn in 0..2_000u32 {
        now += 1_700_000;
        if turn == 700 {
            caster.set_fps_mode_runtime(&mut session, FpsMode::Vsync);
        }
        if turn == 730 {
            caster.set_fps_mode_runtime(&mut session, FpsMode::Manual);
        }
        match worker.next_action(&session, now) {
            WorkerAction::CaptureToBack => {
                let result = CaptureWorker::capture_to_back(&mut backend, &mut back);
                session.finish_capture(result);
            }
            WorkerAction::CaptureToScratch(timeout) => {
                let result = worker.capture_to_scratch(&mut backend, timeout);
                worker.finish_scratch(&mut session, &mut back, result);
            }
            WorkerAction::Wait(_) => {}
            WorkerAction::Stop => panic!("stopped"),
        }
        if turn % 3 == 0 && Caster::process(&mut session).show {
            caster.show_frame(&mut session, &mut back);
            assert_eq!(caster.front_buffer.len(), 8);
            assert!(caster.front_buffer.iter().all(|b| *b == caster.front_buffer[0]));
            shown.push(caster.front_buffer[0]);
        }
    }
    let expected: Vec<u8> = (1..=shown.len() as u8).collect();
    assert_eq!(shown, expected);
    assert!(backend.frames as usize - shown.len() <= 1);
    assert!(shown.len() > 50);
}
