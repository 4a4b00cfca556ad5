//! The PipeWire backend: frames from the desktop portal's screen cast.

use vstd::prelude::*;

use super::buffer_check;
use super::check_buffer_len;
use super::outcome;
use super::step_is_due;
use super::told;
use super::CaptureError;
use super::CaptureErrorView;
use crate::frame::checked_frame_len;
use crate::frame::convert_rows;
use crate::frame::copy_frame;
use crate::frame::frame_bytes;
use crate::frame::is_rgba_of;
use crate::frame::Alpha;
use crate::text::decimal;
use crate::text::decimal_string;
use crate::text::join;
use crate::text::join_four;

verus! {

/// What must succeed before the stream's thread can be waited for.
#[derive(Debug, Clone, Copy, PartialEq, Eq, Structural)]
pub enum HostStep {
    /// Building the runtime that talks to the portal.
    Runtime,
    /// Asking the portal for a screen cast.
    Portal,
    /// Spawning the stream's thread.
    Thread,
}

impl HostStep {
    /// What the message for a failed step starts with.
    pub open spec fn context(self) -> Seq<char> {
        match self {
            HostStep::Runtime => "Tokio runtime error: "@,
            HostStep::Portal => "XDG Portal error: "@,
            HostStep::Thread => "Failed to spawn PipeWire thread: "@,
        }
    }

    /// The message for a step that failed with `error`.
    fn failure(self, error: &str) -> (message: String)
        ensures
            message@ == self.context() + error@,
    {
        let context: &str = match self {
            HostStep::Runtime => "Tokio runtime error: ",
            HostStep::Portal => "XDG Portal error: ",
            HostStep::Thread => "Failed to spawn PipeWire thread: ",
        };
        join(context, error)
    }
}

/// The host step that is due once `done` of them succeeded.
pub open spec fn host_step(done: nat) -> HostStep {
    if done == 0 {
        HostStep::Runtime
    } else if done == 1 {
        HostStep::Portal
    } else {
        HostStep::Thread
    }
}

/// How the stream's thread reports that it started, or why it did not.
#[derive(Debug)]
pub enum WorkerStartup {
    Ready,
    Failed(String),
}

/// A `WorkerStartup` with its reason as a sequence of characters.
pub ghost enum WorkerStartupView {
    Ready,
    Failed(Seq<char>),
}

impl View for WorkerStartup {
    type V = WorkerStartupView;

    open spec fn view(&self) -> WorkerStartupView {
        match self {
            WorkerStartup::Ready => WorkerStartupView::Ready,
            WorkerStartup::Failed(reason) => WorkerStartupView::Failed(reason@),
        }
    }
}

/// What the stream's thread sets up, in this order.
#[derive(Debug, Clone, Copy, PartialEq, Eq, Structural)]
pub enum SetupStep {
    MainLoop,
    Context,
    /// Connecting through the portal's file descriptor.
    Remote,
    Stream,
    /// Registering the listener that converts frames.
    Listener,
    /// Connecting the stream to the portal's node.
    Connect,
}

impl SetupStep {
    /// What the message for a failed step starts with.
    pub open spec fn context(self) -> Seq<char> {
        match self {
            SetupStep::MainLoop => "Failed to create PipeWire mainloop"@,
            SetupStep::Context => "Failed to create PipeWire context"@,
            SetupStep::Remote => "Failed to connect to PipeWire via portal FD"@,
            SetupStep::Stream => "Failed to create PipeWire stream"@,
            SetupStep::Listener => "Failed to register PipeWire stream listener"@,
            SetupStep::Connect => "Failed to connect PipeWire stream"@,
        }
    }

    /// The report for a step that failed with `error`.
    fn failure(self, error: &str) -> (startup: WorkerStartup)
        ensures
            startup@ == WorkerStartupView::Failed(self.context() + ": "@ + error@),
    {
        let context: &str = match self {
            SetupStep::MainLoop => "Failed to create PipeWire mainloop",
            SetupStep::Context => "Failed to create PipeWire context",
            SetupStep::Remote => "Failed to connect to PipeWire via portal FD",
            SetupStep::Stream => "Failed to create PipeWire stream",
            SetupStep::Listener => "Failed to register PipeWire stream listener",
            SetupStep::Connect => "Failed to connect PipeWire stream",
        };
        WorkerStartup::Failed(join(join(context, ": ").as_str(), error))
    }
}

/// The setup step that is due once `done` of them succeeded.
pub open spec fn setup_step(done: nat) -> SetupStep {
    if done == 0 {
        SetupStep::MainLoop
    } else if done == 1 {
        SetupStep::Context
    } else if done == 2 {
        SetupStep::Remote
    } else if done == 3 {
        SetupStep::Stream
    } else if done == 4 {
        SetupStep::Listener
    } else {
        SetupStep::Connect
    }
}

/// What the stream's thread reports once its setup steps ended with `results`;
/// `None` while setup is not over.
pub open spec fn setup_report(results: Seq<Result<(), Seq<char>>>) -> Option<WorkerStartupView> {
    if results.len() == 0 {
        None
    } else {
        match results.last() {
            Err(error) => Some(
                WorkerStartupView::Failed(
                    setup_step((results.len() - 1) as nat).context() + ": "@ + error,
                ),
            ),
            Ok(()) => if results.len() == 6 {
                Some(WorkerStartupView::Ready)
            } else {
                None
            },
        }
    }
}

/// Setup reports readiness if and only if all six steps succeed. Otherwise it
/// ends with the first step that fails, and reports that step and its error.
pub proof fn law_setup_is_ready_iff_every_step_succeeds(results: Seq<Result<(), Seq<char>>>)
    requires
        results.len() > 0,
        step_is_due(results.drop_last(), 6),
    ensures
        setup_report(results) == Some(WorkerStartupView::Ready) <==> {
            &&& results.len() == 6
            &&& forall|i: int| 0 <= i < 6 ==> (#[trigger] results[i]) is Ok
        },
        setup_report(results) is None <==> step_is_due(results, 6),
        results.last() matches Err(error) ==> {
            &&& setup_report(results) == Some(
                WorkerStartupView::Failed(
                    setup_step((results.len() - 1) as nat).context() + ": "@ + error,
                ),
            )
            &&& forall|i: int| 0 <= i < results.len() - 1 ==> (#[trigger] results[i]) is Ok
        },
{
    let last = results.len() - 1;
    assert forall|i: int| 0 <= i < last implies (#[trigger] results[i]) is Ok by {
        assert(results.drop_last()[i] is Ok);
    }
    assert(results[last] == results.last());
}

/// The setup of a stream, on the stream's thread.
pub struct PipeWireSetup {
    step: SetupStep,
    results: Ghost<Seq<Result<(), Seq<char>>>>,
}

/// What the end of a setup step leads to.
pub enum SetupProgress {
    /// The next step is due.
    Next(PipeWireSetup),
    /// Setup is over, and this is reported.
    Report(WorkerStartup),
}

impl PipeWireSetup {
    #[verifier::type_invariant]
    spec fn inv(self) -> bool {
        &&& step_is_due(self.results@, 6)
        &&& self.step == setup_step(self.results@.len())
    }

    /// How the steps ended so far.
    pub closed spec fn results(self) -> Seq<Result<(), Seq<char>>> {
        self.results@
    }

    /// Nothing is set up yet.
    pub fn new() -> (setup: Self)
        ensures
            setup.results() == Seq::<Result<(), Seq<char>>>::empty(),
    {
        PipeWireSetup { step: SetupStep::MainLoop, results: Ghost(Seq::empty()) }
    }

    /// The step that is due.
    pub fn step(&self) -> (step: SetupStep)
        ensures
            step == setup_step(self.results().len()),
            step_is_due(self.results(), 6),
    {
        proof {
            use_type_invariant(self);
        }
        self.step
    }

    /// Moves on from the step that was due and ended with `result`: to the next
    /// one, or to the report that ends setup.
    pub fn advance(self, result: Result<(), String>) -> (progress: SetupProgress)
        ensures
            match progress {
                SetupProgress::Next(setup) => {
                    &&& setup.results() == self.results().push(told(result))
                    &&& setup_report(setup.results()) is None
                },
                SetupProgress::Report(startup) => setup_report(
                    self.results().push(told(result)),
                ) == Some(startup@),
            },
    {
        proof {
            use_type_invariant(&self);
        }
        let results: Ghost<Seq<Result<(), Seq<char>>>> = Ghost(
            self.results@.push(told(result)),
        );
        match result {
            Err(error) => SetupProgress::Report(self.step.failure(error.as_str())),
            Ok(()) => {
                let step = match self.step {
                    SetupStep::MainLoop => SetupStep::Context,
                    SetupStep::Context => SetupStep::Remote,
                    SetupStep::Remote => SetupStep::Stream,
                    SetupStep::Stream => SetupStep::Listener,
                    SetupStep::Listener => SetupStep::Connect,
                    SetupStep::Connect => {
                        return SetupProgress::Report(WorkerStartup::Ready);
                    },
                };
                SetupProgress::Next(PipeWireSetup { step, results })
            },
        }
    }
}

/// What a panicking thread left behind.
#[derive(Debug)]
pub enum PanicPayload {
    Str(&'static str),
    Owned(String),
    Other,
}

/// The human-readable message of a panic.
pub open spec fn panic_text(payload: PanicPayload) -> Seq<char> {
    match payload {
        PanicPayload::Str(message) => message@,
        PanicPayload::Owned(message) => message@,
        PanicPayload::Other => "<non-string panic payload>"@,
    }
}

/// Extracts a human-readable panic message from what a joined thread left.
pub fn describe_panic_payload(payload: &PanicPayload) -> (text: String)
    ensures
        text@ == panic_text(*payload),
{
    match payload {
        PanicPayload::Str(message) => (*message).to_owned(),
        PanicPayload::Owned(message) => message.clone(),
        PanicPayload::Other => "<non-string panic payload>".to_owned(),
    }
}

/// The error for a thread that ended without a report and was joined as
/// `joined`.
pub open spec fn vanished_text(joined: Result<(), PanicPayload>) -> Seq<char> {
    "PipeWire worker thread failed to start: "@ + (match joined {
        Err(payload) => panic_text(payload),
        Ok(()) => "worker thread exited before reporting startup status"@,
    })
}

/// What opening a stream for `width` by `height` frames answers, once the host
/// steps ended with `results` and, where they all succeeded, `received` came
/// through the startup channel and the thread, where it had to be, was joined
/// as `joined`. A channel that was closed without a report stands as `None`.
/// The answer is `None` while host steps are still due.
pub open spec fn open_outcome(
    width: u32,
    height: u32,
    results: Seq<Result<(), Seq<char>>>,
    received: Option<WorkerStartup>,
    joined: Result<(), PanicPayload>,
) -> Option<Result<PipeWireCaptureBackend, Seq<char>>> {
    if results.len() == 0 {
        None
    } else {
        match results.last() {
            Err(error) => Some(
                Err(host_step((results.len() - 1) as nat).context() + error),
            ),
            Ok(()) => if results.len() < 3 {
                None
            } else {
                Some(
                    match received {
                        Some(WorkerStartup::Ready) => Ok(PipeWireCaptureBackend { width, height }),
                        Some(WorkerStartup::Failed(reason)) => Err(reason@),
                        None => Err(vanished_text(joined)),
                    },
                )
            },
        }
    }
}

/// A stream opens if and only if the runtime, the portal and the thread come
/// up and the thread reports that it is ready; it then has the geometry that
/// was asked for. Otherwise the first failure decides the error: nothing is
/// begun after it, so that no thread is spawned after an error of the portal.
pub proof fn law_stream_opens_iff_everything_succeeds(
    width: u32,
    height: u32,
    results: Seq<Result<(), Seq<char>>>,
    received: Option<WorkerStartup>,
    joined: Result<(), PanicPayload>,
)
    requires
        results.len() > 0,
        step_is_due(results.drop_last(), 3),
    ensures
        ({
            let opened = open_outcome(width, height, results, received, joined);
            &&& opened is None <==> step_is_due(results, 3)
            &&& (opened matches Some(Ok(_))) <==> {
                &&& results.len() == 3
                &&& forall|i: int| 0 <= i < 3 ==> (#[trigger] results[i]) is Ok
                &&& received == Some(WorkerStartup::Ready)
            }
            &&& opened matches Some(Ok(backend)) ==> backend == (PipeWireCaptureBackend {
                width,
                height,
            })
            &&& results[0] matches Err(error) ==> opened == Some(
                Err::<PipeWireCaptureBackend, _>("Tokio runtime error: "@ + error),
            ) && results.len() == 1
            &&& results.len() > 1 ==> (results[1] matches Err(error) ==> opened == Some(
                Err::<PipeWireCaptureBackend, _>("XDG Portal error: "@ + error),
            ) && results.len() == 2)
            &&& results.len() > 2 ==> (results[2] matches Err(error) ==> opened == Some(
                Err::<PipeWireCaptureBackend, _>("Failed to spawn PipeWire thread: "@ + error),
            ))
            &&& results.len() == 3 && results[2] is Ok ==> (received matches Some(
                WorkerStartup::Failed(reason),
            ) ==> opened == Some(Err::<PipeWireCaptureBackend, _>(reason@)))
        }),
{
    let last = results.len() - 1;
    assert forall|i: int| 0 <= i < last implies (#[trigger] results[i]) is Ok by {
        assert(results.drop_last()[i] is Ok);
    }
    assert(results[last] == results.last());
}

/// The opening of a stream, on the side that waits for it.
pub struct PipeWireOpening {
    width: u32,
    height: u32,
    step: HostStep,
    results: Ghost<Seq<Result<(), Seq<char>>>>,
}

/// What the end of a host step leads to.
pub enum HostProgress {
    /// The next step is due.
    Next(PipeWireOpening),
    /// The thread was spawned: its report is waited for.
    Spawned(StartingStream),
}

impl PipeWireOpening {
    #[verifier::type_invariant]
    spec fn inv(self) -> bool {
        &&& step_is_due(self.results@, 3)
        &&& self.step == host_step(self.results@.len())
    }

    /// How the steps ended so far.
    pub closed spec fn results(self) -> Seq<Result<(), Seq<char>>> {
        self.results@
    }

    /// Width and height of the frames that are asked for.
    pub closed spec fn geometry(self) -> (u32, u32) {
        (self.width, self.height)
    }

    /// Nothing is begun yet.
    pub fn new(width: u32, height: u32) -> (opening: Self)
        ensures
            opening.geometry() == (width, height),
            opening.results() == Seq::<Result<(), Seq<char>>>::empty(),
    {
        PipeWireOpening { width, height, step: HostStep::Runtime, results: Ghost(Seq::empty()) }
    }

    /// The step that is due.
    pub fn step(&self) -> (step: HostStep)
        ensures
            step == host_step(self.results().len()),
            step_is_due(self.results(), 3),
    {
        proof {
            use_type_invariant(self);
        }
        self.step
    }

    /// Moves on from the step that was due and ended with `result`: to the next
    /// one, to the report of the thread that was spawned, or to the error that
    /// ends opening.
    pub fn advance(self, result: Result<(), String>) -> (progress: Result<HostProgress, String>)
        ensures
            match progress {
                Ok(HostProgress::Next(opening)) => {
                    &&& opening.geometry() == self.geometry()
                    &&& opening.results() == self.results().push(told(result))
                    &&& step_is_due(opening.results(), 3)
                },
                Ok(HostProgress::Spawned(stream)) => {
                    &&& stream.geometry() == self.geometry()
                    &&& stream.results() == self.results().push(told(result))
                    &&& !step_is_due(stream.results(), 3)
                },
                Err(message) => forall|
                    received: Option<WorkerStartup>,
                    joined: Result<(), PanicPayload>,
                | #[trigger]
                    open_outcome(
                        self.geometry().0,
                        self.geometry().1,
                        self.results().push(told(result)),
                        received,
                        joined,
                    ) == Some(Err::<PipeWireCaptureBackend, _>(message@)),
            },
            progress is Ok <==> result is Ok,
    {
        proof {
            use_type_invariant(&self);
        }
        let results: Ghost<Seq<Result<(), Seq<char>>>> = Ghost(
            self.results@.push(told(result)),
        );
        let width = self.width;
        let height = self.height;
        match result {
            Err(error) => Err(self.step.failure(error.as_str())),
            Ok(()) => Ok(
                match self.step {
                    HostStep::Runtime => HostProgress::Next(
                        PipeWireOpening { width, height, step: HostStep::Portal, results },
                    ),
                    HostStep::Portal => HostProgress::Next(
                        PipeWireOpening { width, height, step: HostStep::Thread, results },
                    ),
                    HostStep::Thread => HostProgress::Spawned(
                        StartingStream { width, height, results },
                    ),
                },
            ),
        }
    }
}

/// A stream whose thread was spawned and has not reported yet.
pub struct StartingStream {
    width: u32,
    height: u32,
    results: Ghost<Seq<Result<(), Seq<char>>>>,
}

/// What the starting side does with the report of the stream's thread.
pub enum StartupVerdict {
    /// The stream runs.
    Running(PipeWireCaptureBackend),
    /// The thread is joined and this is the error.
    Refused(String),
    /// The thread ended without a report: it is joined, and `vanished_error`
    /// tells the error.
    Vanished,
}

impl StartingStream {
    #[verifier::type_invariant]
    spec fn inv(self) -> bool {
        &&& self.results@.len() == 3
        &&& forall|i: int| 0 <= i < 3 ==> (#[trigger] self.results@[i]) is Ok
    }

    /// How the host steps ended.
    pub closed spec fn results(self) -> Seq<Result<(), Seq<char>>> {
        self.results@
    }

    /// Width and height of the frames that are asked for.
    pub closed spec fn geometry(self) -> (u32, u32) {
        (self.width, self.height)
    }

    /// Judges what came through the startup channel; `None` stands for a
    /// channel that was closed without a report.
    pub fn judge_startup(&self, received: Option<WorkerStartup>) -> (verdict: StartupVerdict)
        ensures
            match verdict {
                StartupVerdict::Running(backend) => forall|joined: Result<(), PanicPayload>|
                 #[trigger]
                    open_outcome(
                        self.geometry().0,
                        self.geometry().1,
                        self.results(),
                        received,
                        joined,
                    ) == Some(Ok::<_, Seq<char>>(backend)),
                StartupVerdict::Refused(message) => forall|joined: Result<(), PanicPayload>|
                 #[trigger]
                    open_outcome(
                        self.geometry().0,
                        self.geometry().1,
                        self.results(),
                        received,
                        joined,
                    ) == Some(Err::<PipeWireCaptureBackend, _>(message@)),
                StartupVerdict::Vanished => received is None,
            },
            received is None ==> verdict is Vanished,
    {
        proof {
            use_type_invariant(self);
        }
        match received {
            Some(WorkerStartup::Ready) => StartupVerdict::Running(
                PipeWireCaptureBackend { width: self.width, height: self.height },
            ),
            Some(WorkerStartup::Failed(reason)) => StartupVerdict::Refused(reason),
            None => StartupVerdict::Vanished,
        }
    }

    /// The error for a thread that ended without a report, given how it was
    /// joined.
    pub fn vanished_error(&self, joined: Result<(), PanicPayload>) -> (message: String)
        ensures
            message@ == vanished_text(joined),
            open_outcome(
                self.geometry().0,
                self.geometry().1,
                self.results(),
                None,
                joined,
            ) == Some(Err::<PipeWireCaptureBackend, _>(message@)),
    {
        proof {
            use_type_invariant(self);
        }
        let detail = match joined {
            Err(payload) => describe_panic_payload(&payload),
            Ok(()) => "worker thread exited before reporting startup status".to_owned(),
        };
        join("PipeWire worker thread failed to start: ", detail.as_str())
    }
}

/// What is logged when the stream's thread is joined at the end.
pub fn shutdown_report(joined: Result<(), PanicPayload>) -> (message: Option<String>)
    ensures
        match joined {
            Ok(()) => message is None,
            Err(payload) => message matches Some(text) && text@
                == "[DesktopCapture] PipeWire worker thread panicked during shutdown: "@
                + panic_text(payload),
        },
{
    match joined {
        Ok(()) => None,
        Err(payload) => Some(
            join(
                "[DesktopCapture] PipeWire worker thread panicked during shutdown: ",
                describe_panic_payload(&payload).as_str(),
            ),
        ),
    }
}

/// How to take a frame from the stream's channel.
#[derive(Debug, Clone, Copy, PartialEq, Eq, Structural)]
pub enum Receive {
    /// Look once.
    Poll,
    /// Wait for so many milliseconds.
    WaitMs(u64),
}

/// What came from the stream's channel.
#[derive(Debug)]
pub enum Receipt {
    Frame(Vec<u8>),
    /// No frame was there, or none came in time.
    Nothing,
    /// The stream's thread is gone.
    Disconnected,
}

/// Geometry of a capture by PipeWire.
#[derive(Debug, Clone, Copy, PartialEq, Eq, Structural)]
pub struct PipeWireCaptureBackend {
    pub width: u32,
    pub height: u32,
}

/// What `capture_frame` answers.
pub open spec fn pipewire_capture(
    backend: PipeWireCaptureBackend,
    receipt: Receipt,
    buffer_len: nat,
) -> Result<bool, CaptureErrorView> {
    match buffer_check(backend.width, backend.height, buffer_len) {
        Err(error) => Err(error),
        Ok(()) => match receipt {
            Receipt::Nothing => Ok(false),
            Receipt::Disconnected => Err(CaptureErrorView::Fatal("PipeWire disconnected"@)),
            Receipt::Frame(frame) => if frame@.len() != buffer_len {
                Err(
                    CaptureErrorView::Reinitialize(
                        "PipeWire frame has "@ + decimal(frame@.len()) + " bytes; expected "@
                            + decimal(buffer_len),
                    ),
                )
            } else {
                Ok(true)
            },
        },
    }
}

impl PipeWireCaptureBackend {
    /// The backend of a stream that runs.
    pub fn new(width: u32, height: u32) -> (backend: Self)
        ensures
            backend == (PipeWireCaptureBackend { width, height }),
    {
        PipeWireCaptureBackend { width, height }
    }

    /// Converts a mapped BGRx buffer of the stream to RGBA. A buffer of
    /// another size than one frame is skipped.
    pub fn convert(&self, map: &[u8]) -> (frame: Option<Vec<u8>>)
        ensures
            frame is Some <==> map@.len() == frame_bytes(self.width as nat, self.height as nat),
            frame matches Some(out) ==> is_rgba_of(
                out@,
                map@,
                self.width * 4,
                self.width as nat,
                self.height as nat,
                Alpha::Opaque,
            ),
    {
        let width = self.width;
        let height = self.height;
        let buffer_size: usize = match checked_frame_len(width, height) {
            Some(len) => len,
            None => {
                assert(map.len() <= usize::MAX);
                return None;
            },
        };
        if map.len() != buffer_size {
            return None;
        }
        if width == 0 || height == 0 {
            assert(width * height == 0) by (nonlinear_arith)
                requires
                    width == 0 || height == 0,
            ;
            return Some(Vec::new());
        }
        proof {
            assert((width * 4) * height == width * height * 4) by (nonlinear_arith);
            assert(width * 4 <= (width * 4) * height) by (nonlinear_arith)
                requires
                    1 <= height,
            ;
            assert((height - 1) * (width * 4) + width * 4 == (width * 4) * height)
                by (nonlinear_arith);
        }
        let mut out: Vec<u8> = vec![0u8; buffer_size];
        let stride: usize = (width as usize) * 4;
        convert_rows(
            map,
            stride,
            out.as_mut_slice(),
            width as usize,
            height as usize,
            Alpha::Opaque,
        );
        Some(out)
    }

    /// Checks the caller's buffer before a frame is taken for it.
    pub fn check_buffer(&self, buffer_len: usize) -> (result: Result<(), CaptureError>)
        ensures
            outcome(result) == buffer_check(self.width, self.height, buffer_len as nat),
    {
        check_buffer_len(self.width, self.height, buffer_len)
    }

    /// How to take a frame, given the timeout of a capture.
    pub fn receive(timeout_ms: u32) -> (receive: Receive)
        ensures
            receive == (if timeout_ms == 0 {
                Receive::Poll
            } else {
                Receive::WaitMs(timeout_ms as u64)
            }),
    {
        if timeout_ms == 0 {
            Receive::Poll
        } else {
            Receive::WaitMs(timeout_ms as u64)
        }
    }

    /// Stores what came from the channel in `buffer`.
    pub fn capture_frame(&self, receipt: Receipt, buffer: &mut [u8]) -> (result: Result<
        bool,
        CaptureError,
    >)
        ensures
            outcome(result) == pipewire_capture(*self, receipt, old(buffer)@.len()),
            outcome(result) == Ok::<bool, CaptureErrorView>(true) ==> final(buffer)@
                == receipt->Frame_0@,
            outcome(result) != Ok::<bool, CaptureErrorView>(true) ==> final(buffer)@ == old(
                buffer,
            )@,
    {
        match self.check_buffer(buffer.len()) {
            Err(error) => {
                return Err(error);
            },
            Ok(()) => {},
        }
        let expected_len: usize = buffer.len();
        match receipt {
            Receipt::Nothing => Ok(false),
            Receipt::Disconnected => Err(CaptureError::Fatal("PipeWire disconnected".to_owned())),
            Receipt::Frame(frame) => {
                if frame.len() != expected_len {
                    return Err(
                        CaptureError::Reinitialize(
                            join_four(
                                "PipeWire frame has ",
                                decimal_string(frame.len() as u64).as_str(),
                                " bytes; expected ",
                                decimal_string(expected_len as u64).as_str(),
                            ),
                        ),
                    );
                }
                copy_frame(frame.as_slice(), buffer);
                Ok(true)
            },
        }
    }
}

/// A frame that the stream converted is never refused by a capture into a
/// buffer that passed the check.
pub proof fn law_converted_frames_are_accepted(
    backend: PipeWireCaptureBackend,
    map: Seq<u8>,
    frame: Vec<u8>,
    buffer_len: nat,
)
    requires
        is_rgba_of(
            frame@,
            map,
            backend.width * 4,
            backend.width as nat,
            backend.height as nat,
            Alpha::Opaque,
        ),
        buffer_check(backend.width, backend.height, buffer_len) is Ok,
    ensures
        pipewire_capture(backend, Receipt::Frame(frame), buffer_len) == Ok::<
            bool,
            CaptureErrorView,
        >(true),
{
}

/// The host steps come in this order, and each names itself where it fails.
pub proof fn law_host_steps_are_named(error: Seq<char>)
    ensures
        host_step(0) == HostStep::Runtime,
        host_step(1) == HostStep::Portal,
        host_step(2) == HostStep::Thread,
        HostStep::Runtime.context() + error == "Tokio runtime error: "@ + error,
        HostStep::Portal.context() + error == "XDG Portal error: "@ + error,
        HostStep::Thread.context() + error == "Failed to spawn PipeWire thread: "@ + error,
{
}

/// The setup steps come in this order, and each names itself where it fails.
pub proof fn law_setup_steps_are_named()
    ensures
        setup_step(0) == SetupStep::MainLoop,
        setup_step(1) == SetupStep::Context,
        setup_step(2) == SetupStep::Remote,
        setup_step(3) == SetupStep::Stream,
        setup_step(4) == SetupStep::Listener,
        setup_step(5) == SetupStep::Connect,
        SetupStep::MainLoop.context() == "Failed to create PipeWire mainloop"@,
        SetupStep::Context.context() == "Failed to create PipeWire context"@,
        SetupStep::Remote.context() == "Failed to connect to PipeWire via portal FD"@,
        SetupStep::Stream.context() == "Failed to create PipeWire stream"@,
        SetupStep::Listener.context() == "Failed to register PipeWire stream listener"@,
        SetupStep::Connect.context() == "Failed to connect PipeWire stream"@,
{
}

/// A report is seen as what it is, with its whole reason.
pub proof fn law_reports_are_seen_as_they_are(reason: String)
    ensures
        WorkerStartup::Ready@ == WorkerStartupView::Ready,
        WorkerStartup::Failed(reason)@ == WorkerStartupView::Failed(reason@),
{
}

/// A panic with a message is told by that message, whole, and any other as what
/// it is. A thread that vanished is told of by its panic, or as one that ended
/// without a word; then opening fails with that.
pub proof fn law_panics_are_told(
    width: u32,
    height: u32,
    results: Seq<Result<(), Seq<char>>>,
    message: String,
    literal: &'static str,
    joined: Result<(), PanicPayload>,
)
    requires
        results.len() == 3,
        results[2] is Ok,
    ensures
        panic_text(PanicPayload::Str(literal)) == literal@,
        panic_text(PanicPayload::Owned(message)) == message@,
        panic_text(PanicPayload::Other) == "<non-string panic payload>"@,
        vanished_text(Ok(()))
            == "PipeWire worker thread failed to start: "@
            + "worker thread exited before reporting startup status"@,
        joined matches Err(payload) ==> vanished_text(joined)
            == "PipeWire worker thread failed to start: "@ + panic_text(payload),
        open_outcome(width, height, results, None, joined) == Some(
            Err::<PipeWireCaptureBackend, _>(vanished_text(joined)),
        ),
{
}

/// What came from the channel decides the capture, once the buffer passed: a
/// frame of the buffer's length is taken, and none of another length; nothing
/// is no error; a stream that is gone is fatal. A wrong buffer is told of
/// before anything else.
pub proof fn law_pipewire_capture_outcomes(
    backend: PipeWireCaptureBackend,
    receipt: Receipt,
    buffer_len: nat,
)
    ensures
        ({
            let result = pipewire_capture(backend, receipt, buffer_len);
            let fits = buffer_len == 4 * (backend.width * backend.height) && buffer_len
                <= usize::MAX;
            &&& !fits ==> (result matches Err(CaptureErrorView::Fatal(message)) && Err::<(), _>(
                CaptureErrorView::Fatal(message),
            ) == buffer_check(backend.width, backend.height, buffer_len))
            &&& fits ==> match receipt {
                Receipt::Nothing => result == Ok::<bool, CaptureErrorView>(false),
                Receipt::Disconnected => result == Err::<bool, _>(
                    CaptureErrorView::Fatal("PipeWire disconnected"@),
                ),
                Receipt::Frame(frame) => if frame@.len() == buffer_len {
                    result == Ok::<bool, CaptureErrorView>(true)
                } else {
                    result == Err::<bool, _>(
                        CaptureErrorView::Reinitialize(
                            "PipeWire frame has "@ + decimal(frame@.len())
                                + " bytes; expected "@ + decimal(buffer_len),
                        ),
                    )
                },
            }
        }),
{
    super::law_only_whole_frames_pass(backend.width, backend.height, buffer_len);
}

} // verus!
