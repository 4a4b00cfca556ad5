use desktop_caster::backends::fallback::Fallback;
use desktop_caster::backends::linux::{
    after_x11, both_failed_message, LinuxCaptureBackend, LinuxOpening,
};
use desktop_caster::backends::linux_pipewire::{
    describe_panic_payload, shutdown_report, HostProgress, HostStep, PanicPayload,
    PipeWireCaptureBackend, PipeWireOpening, PipeWireSetup, Receipt, Receive, SetupProgress,
    SetupStep, StartingStream, StartupVerdict, WorkerStartup,
};
use desktop_caster::backends::linux_x11::{
    line_is_countable, resolve_stride, ImageRequest, PixmapFormat, X11CaptureBackend, X11Image,
    X11Screen, X11Setup,
};
use desktop_caster::backends::macos::ScreenCaptureKitBackend;
use desktop_caster::backends::windows::{
    Acquire, AcquiredFrame, DxgiCaptureBackend, DxgiProgress, DxgiSetup, DxgiStep, Mapping,
    ACCESS_LOST, WAIT_TIMEOUT,
};
use desktop_caster::backends::{check_buffer_len, CaptureBackend, CaptureError};

#[derive(Debug, PartialEq)]
enum Kind {
    Reinitialize,
    Recoverable,
    Fatal,
}

fn seen<T>(result: Result<T, CaptureError>) -> Result<T, (Kind, String)> {
    match result {
        Ok(value) => Ok(value),
        Err(CaptureError::Reinitialize(text)) => Err((Kind::Reinitialize, text)),
        Err(CaptureError::Recoverable(text)) => Err((Kind::Recoverable, text)),
        Err(CaptureError::Fatal(text)) => Err((Kind::Fatal, text)),
    }
}

fn fatal<T>(text: &str) -> Result<T, (Kind, String)> {
    Err((Kind::Fatal, text.to_owned()))
}

/// A backend that fails to open for widths of a parity, and writes its name.
#[derive(Debug, PartialEq)]
struct Even {
    destroyed: bool,
}

#[derive(Debug, PartialEq)]
struct Square {
    destroyed: bool,
}

impl CaptureBackend for Even {
    fn init(width: u32, _height: u32) -> Result<Self, String> {
        if width % 2 == 0 {
            Ok(Even { destroyed: false })
        } else {
            Err("odd width".to_owned())
        }
    }

    fn capture_frame(&mut self, buffer: &mut [u8], timeout_ms: u32) -> Result<bool, CaptureError> {
        buffer.fill(timeout_ms as u8);
        Ok(true)
    }

    fn destroy(&mut self) {
        self.destroyed = true;
    }
}

impl CaptureBackend for Square {
    fn init(width: u32, height: u32) -> Result<Self, String> {
        if width == height {
            Ok(Square { destroyed: false })
        } else {
            Err("not square".to_owned())
        }
    }

    fn capture_frame(&mut self, _buffer: &mut [u8], _timeout_ms: u32) -> Result<bool, CaptureError> {
        Err(CaptureError::Recoverable("square".to_owned()))
    }

    fn destroy(&mut self) {
        self.destroyed = true;
    }
}

type Either = LinuxCaptureBackend<Even, Square>;

#[test]
fn linux_prefers_pipewire_and_falls_back_to_x11() {
    assert!(matches!(Either::init(4, 4), Ok(LinuxCaptureBackend::PipeWire(_))));
    assert!(matches!(Either::init(3, 3), Ok(LinuxCaptureBackend::X11(_))));
    let error = Either::init(3, 4).err();
    assert_eq!(
        error,
        Some(
            "Both PipeWire and X11 backends failed to initialize.\n\
             PipeWire/XDG Portal error: odd width\n\
             X11 error: not square"
                .to_owned()
        )
    );
    assert_eq!(
        both_failed_message("a", "b"),
        "Both PipeWire and X11 backends failed to initialize.\nPipeWire/XDG Portal error: a\nX11 error: b"
    );
}

#[test]
fn linux_needs_x11_only_where_pipewire_failed() {
    let pipewire = Ok(Even { destroyed: false });
    assert!(matches!(
        LinuxOpening::<Even, Square>::after_pipewire(3, 4, pipewire),
        LinuxOpening::Ready(LinuxCaptureBackend::PipeWire(_))
    ));
    let due = |width: u32| {
        match LinuxOpening::<Even, Square>::after_pipewire(width, 4, Err("no portal".to_owned())) {
            LinuxOpening::X11Due(failure) => failure,
            LinuxOpening::Ready(_) => panic!("PipeWire failed"),
        }
    };
    let answered: Result<Either, String> = after_x11(&due(4), Ok(Square { destroyed: false }));
    assert!(matches!(answered, Ok(LinuxCaptureBackend::X11(_))));
    let answered: Result<Either, String> = after_x11(&due(4), Err("no display".to_owned()));
    assert_eq!(
        answered.err(),
        Some(
            "Both PipeWire and X11 backends failed to initialize.\n\
             PipeWire/XDG Portal error: no portal\n\
             X11 error: no display"
                .to_owned()
        )
    );
    assert_eq!(due(4).reason(), "no portal");
    assert_eq!(Square::open_instead(&due(4)), Ok(Square { destroyed: false }));
    assert_eq!(Square::open_instead(&due(3)), Err("not square".to_owned()));
}

#[test]
fn linux_hands_on_to_the_chosen_backend() {
    let mut buffer = [0u8; 2];
    let mut pw: Either = LinuxCaptureBackend::PipeWire(Even { destroyed: false });
    assert_eq!(seen(pw.capture_frame(&mut buffer, 9)), Ok(true));
    assert_eq!(buffer, [9, 9]);
    pw.destroy();
    assert!(matches!(pw, LinuxCaptureBackend::PipeWire(Even { destroyed: true })));

    let mut x11: Either = LinuxCaptureBackend::X11(Square { destroyed: false });
    assert_eq!(
        seen(x11.capture_frame(&mut buffer, 9)),
        Err((Kind::Recoverable, "square".to_owned()))
    );
    x11.destroy();
    assert!(matches!(x11, LinuxCaptureBackend::X11(Square { destroyed: true })));
}

#[test]
fn macos_answers_with_errors() {
    assert_eq!(
        ScreenCaptureKitBackend::init(2, 2).err(),
        Some("macOS ScreenCaptureKit backend is not implemented yet; screen-recording permission and a tested stream implementation are required.".to_owned())
    );
    let mut backend = ScreenCaptureKitBackend;
    let mut buffer = [5u8; 4];
    assert_eq!(
        seen(backend.capture_frame(&mut buffer, 0)),
        fatal("macOS ScreenCaptureKit backend is unavailable")
    );
    assert_eq!(buffer, [5; 4]);
    backend.destroy();
}

#[test]
fn buffers_are_checked_against_the_geometry() {
    assert_eq!(seen(check_buffer_len(2, 3, 24)), Ok(()));
    assert_eq!(
        seen(check_buffer_len(2, 3, 23)),
        fatal("Capture buffer has 23 bytes; expected 24")
    );
    assert_eq!(
        seen(check_buffer_len(u32::MAX, u32::MAX, 24)),
        fatal("Capture dimensions overflow usize")
    );
}

fn formats() -> Vec<PixmapFormat> {
    vec![
        PixmapFormat { depth: 1, bits_per_pixel: 1, scanline_pad: 32 },
        PixmapFormat { depth: 24, bits_per_pixel: 32, scanline_pad: 64 },
        PixmapFormat { depth: 24, bits_per_pixel: 24, scanline_pad: 32 },
        PixmapFormat { depth: 30, bits_per_pixel: 32, scanline_pad: 0 },
    ]
}

#[test]
fn x11_strides_follow_the_first_format_of_the_depth() {
    assert_eq!(resolve_stride(&formats(), 24, 3), Ok(16));
    assert_eq!(resolve_stride(&formats(), 24, 4), Ok(16));
    assert_eq!(resolve_stride(&formats(), 30, 3), Ok(12));
    assert_eq!(resolve_stride(&formats(), 24, 0), Ok(0));
    assert_eq!(
        resolve_stride(&formats(), 16, 3),
        Err("Server did not advertise a pixmap format for depth 16".to_owned())
    );
    assert_eq!(
        resolve_stride(&formats(), 1, 3),
        Err("Unsupported root window pixel format: 1 bits per pixel at depth 1 \
             (only 32-bit ZPixmap formats are supported)"
            .to_owned())
    );
}

#[test]
fn x11_strides_cover_the_row_and_little_more() {
    for scanline_pad in [0u8, 1, 8, 12, 16, 32, 64, 255] {
        let formats = vec![PixmapFormat { depth: 24, bits_per_pixel: 32, scanline_pad }];
        for width in 0..300u32 {
            let stride = resolve_stride(&formats, 24, width).unwrap() as u32;
            let unit = u32::from(scanline_pad.max(8));
            assert_eq!(stride, (width * 32).div_ceil(unit) * unit / 8);
            assert!(width * 4 <= stride && stride * 8 < width * 32 + unit);
        }
    }
}

#[test]
fn x11_lines_must_be_countable() {
    assert!(line_is_countable(&formats(), 24, 65_535));
    assert!(line_is_countable(&formats(), 30, u32::MAX / 32));
    assert!(!line_is_countable(&formats(), 24, u32::MAX / 32));
    assert!(!line_is_countable(&formats(), 24, u32::MAX));
    assert!(line_is_countable(&formats(), 1, u32::MAX));
    assert!(line_is_countable(&formats(), 16, u32::MAX));
}

fn setup(screen_num: usize) -> X11Setup {
    X11Setup {
        pixmap_formats: formats(),
        roots: vec![
            X11Screen { root: 11, root_depth: 24 },
            X11Screen { root: 22, root_depth: 16 },
        ],
        screen_num,
    }
}

#[test]
fn x11_init_takes_root_and_stride_from_the_server() {
    assert_eq!(
        X11CaptureBackend::init(3, 2, Ok(setup(0))),
        Ok(X11CaptureBackend { window: 11, width: 3, height: 2, stride: 16 })
    );
    assert_eq!(
        X11CaptureBackend::init(3, 2, Ok(setup(1))),
        Err("Server did not advertise a pixmap format for depth 16".to_owned())
    );
    assert_eq!(
        X11CaptureBackend::init(3, 2, Err("refused".to_owned())),
        Err("X11 connect failed: refused".to_owned())
    );
}

#[test]
fn x11_requests_the_frame_and_refuses_a_truncated_one() {
    let backend = X11CaptureBackend { window: 11, width: 1920, height: 1080, stride: 7680 };
    assert_eq!(
        backend.image_request(),
        ImageRequest { window: 11, x: 0, y: 0, width: 1920, height: 1080, plane_mask: u32::MAX }
    );
    let backend = X11CaptureBackend { window: 11, width: 65_537, height: 1080, stride: 262_148 };
    assert_eq!(
        backend.image_request(),
        ImageRequest { window: 11, x: 0, y: 0, width: 1, height: 1080, plane_mask: u32::MAX }
    );
    assert_eq!(
        seen(backend.capture_frame(X11Image::Data(vec![0; 4320]), &mut [])),
        Err((
            Kind::Recoverable,
            "X11 image data has 4320 bytes; expected at least 283119840 (262148 bytes/line x 1080 lines)"
                .to_owned()
        ))
    );
    assert_eq!(X11CaptureBackend::delay_ms(0), None);
    assert_eq!(X11CaptureBackend::delay_ms(50), Some(50));
}

#[test]
fn x11_images_are_stored_or_refused() {
    let backend = X11CaptureBackend { window: 1, width: 1, height: 2, stride: 8 };
    let image = vec![1, 2, 3, 4, 0, 0, 0, 0, 5, 6, 7, 8, 0, 0, 0, 0];
    let mut buffer = [9u8; 8];
    assert_eq!(
        seen(backend.capture_frame(X11Image::Data(image[..15].to_vec()), &mut buffer)),
        Err((
            Kind::Recoverable,
            "X11 image data has 15 bytes; expected at least 16 (8 bytes/line x 2 lines)".to_owned()
        ))
    );
    assert_eq!(
        seen(backend.capture_frame(X11Image::RequestFailed("gone".to_owned()), &mut buffer)),
        Err((Kind::Recoverable, "XGetImage error: gone".to_owned()))
    );
    assert_eq!(
        seen(backend.capture_frame(X11Image::ReplyFailed("BadMatch".to_owned()), &mut buffer)),
        Err((Kind::Recoverable, "XGetImage reply error: BadMatch".to_owned()))
    );
    assert_eq!(buffer, [9; 8]);
    assert_eq!(seen(backend.capture_frame(X11Image::Data(image.clone()), &mut buffer)), Ok(true));
    assert_eq!(buffer, [3, 2, 1, 255, 7, 6, 5, 255]);

    let mut short = [9u8; 4];
    assert_eq!(
        seen(backend.capture_frame(X11Image::Data(image.clone()), &mut short)),
        fatal("Capture buffer has 4 bytes; expected 8")
    );
    let narrow = X11CaptureBackend { stride: 3, ..backend };
    assert_eq!(
        seen(narrow.capture_frame(X11Image::Data(image.clone()), &mut buffer)),
        fatal("Resolved X11 stride (3) is smaller than the expected row size (4)")
    );
    let huge = X11CaptureBackend { stride: usize::MAX, ..backend };
    assert_eq!(
        seen(huge.capture_frame(X11Image::Data(image), &mut buffer)),
        fatal("Capture dimensions overflow usize")
    );
}

#[test]
fn pipewire_buffers_are_converted_if_they_hold_one_frame() {
    let backend = PipeWireCaptureBackend::new(2, 1);
    assert_eq!(
        backend.convert(&[1, 2, 3, 4, 5, 6, 7, 8]),
        Some(vec![3, 2, 1, 255, 7, 6, 5, 255])
    );
    assert_eq!(backend.convert(&[1, 2, 3, 4]), None);
    assert_eq!(PipeWireCaptureBackend::new(0, 7).convert(&[]), Some(vec![]));
    // More bytes than 32 bits can count, and more than 64 bits can.
    assert_eq!(PipeWireCaptureBackend::new(65_536, 65_536).convert(&[]), None);
    assert_eq!(PipeWireCaptureBackend::new(u32::MAX, u32::MAX).convert(&[1, 2, 3, 4]), None);
}

#[test]
fn pipewire_captures_what_the_channel_gives() {
    let backend = PipeWireCaptureBackend::new(2, 1);
    let mut buffer = [9u8; 8];
    assert_eq!(seen(backend.check_buffer(8)), Ok(()));
    assert_eq!(
        seen(backend.check_buffer(9)),
        fatal("Capture buffer has 9 bytes; expected 8")
    );
    assert_eq!(seen(backend.capture_frame(Receipt::Nothing, &mut buffer)), Ok(false));
    assert_eq!(
        seen(backend.capture_frame(Receipt::Disconnected, &mut buffer)),
        fatal("PipeWire disconnected")
    );
    assert_eq!(
        seen(backend.capture_frame(Receipt::Frame(vec![1; 7]), &mut buffer)),
        Err((Kind::Reinitialize, "PipeWire frame has 7 bytes; expected 8".to_owned()))
    );
    assert_eq!(buffer, [9; 8]);
    assert_eq!(seen(backend.capture_frame(Receipt::Frame(vec![1; 8]), &mut buffer)), Ok(true));
    assert_eq!(buffer, [1; 8]);
    assert_eq!(
        seen(backend.capture_frame(Receipt::Frame(vec![1; 8]), &mut [0u8; 3])),
        fatal("Capture buffer has 3 bytes; expected 8")
    );
    assert_eq!(PipeWireCaptureBackend::receive(0), Receive::Poll);
    assert_eq!(PipeWireCaptureBackend::receive(50), Receive::WaitMs(50));
}

#[test]
fn pipewire_accepts_its_own_frames() {
    let backend = PipeWireCaptureBackend::new(3, 2);
    let map: Vec<u8> = (0..24).collect();
    let frame = backend.convert(&map).unwrap();
    let mut buffer = [0u8; 24];
    assert_eq!(seen(backend.capture_frame(Receipt::Frame(frame.clone()), &mut buffer)), Ok(true));
    assert_eq!(buffer.to_vec(), frame);
}

#[test]
fn pipewire_setup_reports_ready_after_its_last_step() {
    let mut setup = PipeWireSetup::new();
    let mut steps = vec![setup.step()];
    loop {
        match setup.advance(Ok(())) {
            SetupProgress::Next(next) => {
                steps.push(next.step());
                setup = next;
            }
            SetupProgress::Report(report) => {
                assert!(matches!(report, WorkerStartup::Ready));
                break;
            }
        }
    }
    assert_eq!(
        steps,
        vec![
            SetupStep::MainLoop,
            SetupStep::Context,
            SetupStep::Remote,
            SetupStep::Stream,
            SetupStep::Listener,
            SetupStep::Connect,
        ]
    );
}

#[test]
fn pipewire_setup_names_the_step_that_failed() {
    let failures = [
        "Failed to create PipeWire mainloop: e",
        "Failed to create PipeWire context: e",
        "Failed to connect to PipeWire via portal FD: e",
        "Failed to create PipeWire stream: e",
        "Failed to register PipeWire stream listener: e",
        "Failed to connect PipeWire stream: e",
    ];
    for (done, text) in failures.iter().enumerate() {
        let mut setup = PipeWireSetup::new();
        for _ in 0..done {
            setup = match setup.advance(Ok(())) {
                SetupProgress::Next(next) => next,
                SetupProgress::Report(report) => panic!("{report:?}"),
            };
        }
        match setup.advance(Err("e".to_owned())) {
            SetupProgress::Report(WorkerStartup::Failed(reason)) => assert_eq!(reason, *text),
            _ => panic!("{text}"),
        }
    }
}

/// An opening of a stream of 640 by 480 whose first `done` steps succeeded.
fn opening(done: usize) -> PipeWireOpening {
    let mut opening = PipeWireOpening::new(640, 480);
    for _ in 0..done {
        opening = match opening.advance(Ok(())) {
            Ok(HostProgress::Next(next)) => next,
            _ => panic!("no step is left"),
        };
    }
    opening
}

fn spawned() -> StartingStream {
    match opening(2).advance(Ok(())) {
        Ok(HostProgress::Spawned(stream)) => stream,
        _ => panic!("not spawned"),
    }
}

#[test]
fn pipewire_opens_in_order_and_ends_with_the_first_failure() {
    let steps = [
        (HostStep::Runtime, "Tokio runtime error: e"),
        (HostStep::Portal, "XDG Portal error: e"),
        (HostStep::Thread, "Failed to spawn PipeWire thread: e"),
    ];
    for (done, (step, text)) in steps.iter().enumerate() {
        assert_eq!(opening(done).step(), *step);
        match opening(done).advance(Err("e".to_owned())) {
            Err(message) => assert_eq!(message, *text),
            Ok(_) => panic!("{text}"),
        }
    }
}

#[test]
fn pipewire_startup_is_judged_by_its_report() {
    match spawned().judge_startup(Some(WorkerStartup::Ready)) {
        StartupVerdict::Running(backend) => {
            assert_eq!(backend, PipeWireCaptureBackend::new(640, 480));
        }
        _ => panic!("does not run"),
    }
    assert!(matches!(spawned().judge_startup(None), StartupVerdict::Vanished));
    match spawned().judge_startup(Some(WorkerStartup::Failed("why".to_owned()))) {
        StartupVerdict::Refused(reason) => assert_eq!(reason, "why"),
        _ => panic!("not refused"),
    }
    assert_eq!(
        spawned().vanished_error(Ok(())),
        "PipeWire worker thread failed to start: worker thread exited before reporting startup status"
    );
    assert_eq!(
        spawned().vanished_error(Err(PanicPayload::Str("boom"))),
        "PipeWire worker thread failed to start: boom"
    );
}

#[test]
fn panics_are_described() {
    assert_eq!(describe_panic_payload(&PanicPayload::Str("a")), "a");
    assert_eq!(describe_panic_payload(&PanicPayload::Owned("b".to_owned())), "b");
    assert_eq!(describe_panic_payload(&PanicPayload::Other), "<non-string panic payload>");
    assert_eq!(shutdown_report(Ok(())), None);
    assert_eq!(
        shutdown_report(Err(PanicPayload::Other)),
        Some(
            "[DesktopCapture] PipeWire worker thread panicked during shutdown: <non-string panic payload>"
                .to_owned()
        )
    );
}

#[test]
fn dxgi_steps_come_in_order_and_name_their_failure() {
    let failures = [
        (DxgiStep::CreateDevice, "D3D11CreateDevice failed: e"),
        (DxgiStep::Device, "D3D11CreateDevice succeeded without returning a device"),
        (DxgiStep::Context, "D3D11CreateDevice succeeded without returning a device context"),
        (DxgiStep::DxgiDevice, "ID3D11Device -> IDXGIDevice failed: e"),
        (DxgiStep::Adapter, "GetAdapter failed: e"),
        (DxgiStep::Output, "No display output is available: e"),
        (DxgiStep::Output1, "IDXGIOutput -> IDXGIOutput1 failed: e"),
        (DxgiStep::Duplication, "DuplicateOutput failed: e"),
        (DxgiStep::CreateTexture, "CreateTexture2D failed: e"),
        (DxgiStep::Texture, "CreateTexture2D succeeded without returning a staging texture"),
    ];
    let mut progress = DxgiProgress::Next(DxgiSetup::new(3, 2));
    for (done, (step, text)) in failures.iter().enumerate() {
        let setup = match progress {
            DxgiProgress::Next(setup) => setup,
            DxgiProgress::Ready(_) => panic!("{done}"),
        };
        assert_eq!(setup.step(), *step);
        match set_up_to(done).advance(Err("e".to_owned())) {
            Err(message) => assert_eq!(message, *text),
            Ok(_) => panic!("{text}"),
        }
        progress = setup.advance(Ok(())).ok().unwrap();
    }
    match progress {
        DxgiProgress::Ready(backend) => {
            assert_eq!(backend, DxgiCaptureBackend { width: 3, height: 2 });
        }
        DxgiProgress::Next(setup) => panic!("{:?}", setup.step()),
    }
}

/// A setup whose first `done` steps succeeded.
fn set_up_to(done: usize) -> DxgiSetup {
    let mut setup = DxgiSetup::new(3, 2);
    for _ in 0..done {
        setup = match setup.advance(Ok(())) {
            Ok(DxgiProgress::Next(next)) => next,
            _ => panic!("no step is left"),
        };
    }
    setup
}

const ONE_BY_TWO: DxgiCaptureBackend = DxgiCaptureBackend { width: 1, height: 2 };

#[test]
fn dxgi_textures_are_read_up_to_their_last_pixel() {
    assert_eq!(ONE_BY_TWO.mapped_len(6), Some(10));
    assert_eq!(ONE_BY_TWO.mapped_len(0), Some(4));
    let backend = |width: u32, height: u32| DxgiCaptureBackend { width, height };
    assert_eq!(backend(640, 1).mapped_len(usize::MAX), Some(2560));
    assert_eq!(backend(0, 9).mapped_len(64), Some(0));
    assert_eq!(backend(9, 0).mapped_len(64), Some(0));
    assert_eq!(ONE_BY_TWO.mapped_len(usize::MAX - 4), Some(usize::MAX));
    assert_eq!(ONE_BY_TWO.mapped_len(usize::MAX - 3), None);
    assert_eq!(backend(1, 3).mapped_len(usize::MAX / 2 + 1), None);
}

/// A frame that was acquired for a buffer of eight bytes.
fn acquired() -> AcquiredFrame {
    let checked = ONE_BY_TWO.check_buffer(8).ok().unwrap();
    checked.judge_acquire(Acquire::Acquired).ok().unwrap().unwrap()
}

#[test]
fn dxgi_frames_are_given_back_once() {
    let mut frame = acquired();
    assert!(frame.is_owned());
    assert!(frame.release());
    assert!(!frame.is_owned());
    assert!(!frame.release());
    assert!(!frame.release());
}

#[test]
fn dxgi_acquisition_is_judged_by_its_code() {
    assert_eq!(WAIT_TIMEOUT as u32, 0x887A_0027);
    assert_eq!(ACCESS_LOST as u32, 0x887A_0026);
    let judge = |acquire: Acquire| {
        let checked = ONE_BY_TWO.check_buffer(8).ok().unwrap();
        seen(checked.judge_acquire(acquire)).map(|frame| frame.is_some())
    };
    assert_eq!(judge(Acquire::Acquired), Ok(true));
    assert_eq!(judge(Acquire::Failed(WAIT_TIMEOUT, "e".to_owned())), Ok(false));
    assert_eq!(
        judge(Acquire::Failed(ACCESS_LOST, "e".to_owned())),
        Err((Kind::Reinitialize, "AcquireNextFrame: e".to_owned()))
    );
    assert_eq!(
        judge(Acquire::Failed(-1, "e".to_owned())),
        Err((Kind::Recoverable, "AcquireNextFrame: e".to_owned()))
    );
}

#[test]
fn dxgi_frames_are_stored_with_their_alpha() {
    let bytes = [1, 2, 3, 4, 0, 0, 5, 6, 7, 8];
    let mut buffer = [9u8; 8];
    let frame = acquired();
    assert_eq!(
        seen(ONE_BY_TWO.check_buffer(1)).map(|_| ()),
        fatal("Capture buffer has 1 bytes; expected 8")
    );
    assert_eq!(
        seen(frame.store(Mapping::NoResource, &mut buffer)),
        Err((Kind::Recoverable, "DXGI returned no desktop resource".to_owned()))
    );
    assert_eq!(
        seen(frame.store(Mapping::NotTexture("e".to_owned()), &mut buffer)),
        Err((Kind::Recoverable, "Desktop resource is not a texture: e".to_owned()))
    );
    assert_eq!(
        seen(frame.store(Mapping::MapFailed("e".to_owned()), &mut buffer)),
        Err((Kind::Reinitialize, "Map failed: e".to_owned()))
    );
    assert_eq!(buffer, [9; 8]);
    assert_eq!(seen(frame.store(Mapping::Mapped(&bytes, 6), &mut buffer)), Ok(()));
    assert_eq!(buffer, [3, 2, 1, 4, 7, 6, 5, 8]);
}

#[test]
fn dxgi_captures_end_with_the_first_error() {
    let mut frame = acquired();
    assert!(frame.release());
    let stored = || Err(CaptureError::Recoverable("store".to_owned()));
    let failed = || Err("e".to_owned());
    assert_eq!(seen(frame.conclude(Ok(()), Ok(()))), Ok(true));
    assert_eq!(
        seen(frame.conclude(Ok(()), failed())),
        Err((Kind::Reinitialize, "ReleaseFrame failed: e".to_owned()))
    );
    assert_eq!(
        seen(frame.conclude(stored(), failed())),
        Err((Kind::Recoverable, "store".to_owned()))
    );
    assert_eq!(
        seen(frame.conclude(stored(), Ok(()))),
        Err((Kind::Recoverable, "store".to_owned()))
    );
}
