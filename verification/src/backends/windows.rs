//! The Windows backend: DXGI desktop duplication.

use vstd::prelude::*;

use super::buffer_check;
use super::check_buffer_len;
use super::outcome;
use super::step_is_due;
use super::told;
use super::CaptureError;
use super::CaptureErrorView;
use crate::frame::convert_rows;
use crate::frame::holds_lines;
use crate::frame::is_rgba_of;
use crate::frame::law_lines_are_held_iff_every_pixel_is;
use crate::frame::Alpha;
use crate::text::join;

verus! {

/// `DXGI_ERROR_ACCESS_LOST`: the duplication interface is invalid.
pub const ACCESS_LOST: i32 = -2005270490;

/// `DXGI_ERROR_WAIT_TIMEOUT`: no frame came in time.
pub const WAIT_TIMEOUT: i32 = -2005270489;

/// What is set up for desktop duplication, in this order.
#[derive(Debug, Clone, Copy, PartialEq, Eq, Structural)]
pub enum DxgiStep {
    CreateDevice,
    /// The device that was created is there.
    Device,
    /// The device context that was created is there.
    Context,
    DxgiDevice,
    Adapter,
    /// The output of the primary monitor.
    Output,
    Output1,
    Duplication,
    CreateTexture,
    /// The staging texture that was created is there.
    Texture,
}

impl DxgiStep {
    /// The message for a step that failed with `error`.
    pub open spec fn message(self, error: Seq<char>) -> Seq<char> {
        match self {
            DxgiStep::CreateDevice => "D3D11CreateDevice failed: "@ + error,
            DxgiStep::Device => "D3D11CreateDevice succeeded without returning a device"@,
            DxgiStep::Context => "D3D11CreateDevice succeeded without returning a device context"@,
            DxgiStep::DxgiDevice => "ID3D11Device -> IDXGIDevice failed: "@ + error,
            DxgiStep::Adapter => "GetAdapter failed: "@ + error,
            DxgiStep::Output => "No display output is available: "@ + error,
            DxgiStep::Output1 => "IDXGIOutput -> IDXGIOutput1 failed: "@ + error,
            DxgiStep::Duplication => "DuplicateOutput failed: "@ + error,
            DxgiStep::CreateTexture => "CreateTexture2D failed: "@ + error,
            DxgiStep::Texture => "CreateTexture2D succeeded without returning a staging texture"@,
        }
    }

    /// The message for a step that failed with `error`.
    fn failure(self, error: &str) -> (message: String)
        ensures
            message@ == self.message(error@),
    {
        match self {
            DxgiStep::CreateDevice => join("D3D11CreateDevice failed: ", error),
            DxgiStep::Device => {
                "D3D11CreateDevice succeeded without returning a device".to_owned()
            },
            DxgiStep::Context => {
                "D3D11CreateDevice succeeded without returning a device context".to_owned()
            },
            DxgiStep::DxgiDevice => join("ID3D11Device -> IDXGIDevice failed: ", error),
            DxgiStep::Adapter => join("GetAdapter failed: ", error),
            DxgiStep::Output => join("No display output is available: ", error),
            DxgiStep::Output1 => join("IDXGIOutput -> IDXGIOutput1 failed: ", error),
            DxgiStep::Duplication => join("DuplicateOutput failed: ", error),
            DxgiStep::CreateTexture => join("CreateTexture2D failed: ", error),
            DxgiStep::Texture => {
                "CreateTexture2D succeeded without returning a staging texture".to_owned()
            },
        }
    }
}

/// The step that is due once `done` of them succeeded.
pub open spec fn dxgi_step(done: nat) -> DxgiStep {
    if done == 0 {
        DxgiStep::CreateDevice
    } else if done == 1 {
        DxgiStep::Device
    } else if done == 2 {
        DxgiStep::Context
    } else if done == 3 {
        DxgiStep::DxgiDevice
    } else if done == 4 {
        DxgiStep::Adapter
    } else if done == 5 {
        DxgiStep::Output
    } else if done == 6 {
        DxgiStep::Output1
    } else if done == 7 {
        DxgiStep::Duplication
    } else if done == 8 {
        DxgiStep::CreateTexture
    } else {
        DxgiStep::Texture
    }
}

/// What setting up duplication of `width` by `height` frames answers, once the
/// steps ended with `results`: the backend, or the error; `None` while steps
/// are still due.
pub open spec fn dxgi_init(
    width: u32,
    height: u32,
    results: Seq<Result<(), Seq<char>>>,
) -> Option<Result<DxgiCaptureBackend, Seq<char>>> {
    if results.len() == 0 {
        None
    } else {
        match results.last() {
            Err(error) => Some(Err(dxgi_step((results.len() - 1) as nat).message(error))),
            Ok(()) => if results.len() == 10 {
                Some(Ok(DxgiCaptureBackend { width, height }))
            } else {
                None
            },
        }
    }
}

/// Duplication is set up if and only if all ten steps succeed. Otherwise the
/// first step that fails ends it and decides the error.
pub proof fn law_dxgi_init_succeeds_iff_every_step_does(
    width: u32,
    height: u32,
    results: Seq<Result<(), Seq<char>>>,
)
    requires
        results.len() > 0,
        step_is_due(results.drop_last(), 10),
    ensures
        dxgi_init(width, height, results) == Some(
            Ok::<DxgiCaptureBackend, Seq<char>>(DxgiCaptureBackend { width, height }),
        ) <==> {
            &&& results.len() == 10
            &&& forall|i: int| 0 <= i < 10 ==> (#[trigger] results[i]) is Ok
        },
        dxgi_init(width, height, results) is None <==> step_is_due(results, 10),
        results.last() matches Err(error) ==> {
            &&& dxgi_init(width, height, results) == Some(
                Err::<DxgiCaptureBackend, _>(
                    dxgi_step((results.len() - 1) as nat).message(error),
                ),
            )
            &&& forall|i: int| 0 <= i < results.len() - 1 ==> (#[trigger] results[i]) is Ok
        },
{
    let last = results.len() - 1;
    assert forall|i: int| 0 <= i < last implies (#[trigger] results[i]) is Ok by {
        assert(results.drop_last()[i] is Ok);
    }
    assert(results[last] == results.last());
}

/// The setup of desktop duplication.
pub struct DxgiSetup {
    width: u32,
    height: u32,
    step: DxgiStep,
    results: Ghost<Seq<Result<(), Seq<char>>>>,
}

/// What the end of a setup step leads to.
pub enum DxgiProgress {
    /// The next step is due.
    Next(DxgiSetup),
    /// Everything is set up.
    Ready(DxgiCaptureBackend),
}

impl DxgiSetup {
    #[verifier::type_invariant]
    spec fn inv(self) -> bool {
        &&& step_is_due(self.results@, 10)
        &&& self.step == dxgi_step(self.results@.len())
    }

    /// How the steps ended so far.
    pub closed spec fn results(self) -> Seq<Result<(), Seq<char>>> {
        self.results@
    }

    /// Width and height of the frames that are asked for.
    pub closed spec fn geometry(self) -> (u32, u32) {
        (self.width, self.height)
    }

    /// Nothing is set up yet.
    pub fn new(width: u32, height: u32) -> (setup: Self)
        ensures
            setup.geometry() == (width, height),
            setup.results() == Seq::<Result<(), Seq<char>>>::empty(),
    {
        DxgiSetup { width, height, step: DxgiStep::CreateDevice, results: Ghost(Seq::empty()) }
    }

    /// The step that is due.
    pub fn step(&self) -> (step: DxgiStep)
        ensures
            step == dxgi_step(self.results().len()),
            step_is_due(self.results(), 10),
    {
        proof {
            use_type_invariant(self);
        }
        self.step
    }

    /// Moves on from the step that was due and ended with `result`: to the next
    /// one, to the backend, or to the error that ends setup.
    pub fn advance(self, result: Result<(), String>) -> (progress: Result<DxgiProgress, String>)
        ensures
            match progress {
                Ok(DxgiProgress::Next(setup)) => {
                    &&& setup.geometry() == self.geometry()
                    &&& setup.results() == self.results().push(told(result))
                    &&& dxgi_init(self.geometry().0, self.geometry().1, setup.results()) is None
                },
                Ok(DxgiProgress::Ready(backend)) => dxgi_init(
                    self.geometry().0,
                    self.geometry().1,
                    self.results().push(told(result)),
                ) == Some(Ok::<_, Seq<char>>(backend)),
                Err(message) => dxgi_init(
                    self.geometry().0,
                    self.geometry().1,
                    self.results().push(told(result)),
                ) == Some(Err::<DxgiCaptureBackend, _>(message@)),
            },
    {
        proof {
            use_type_invariant(&self);
        }
        let results: Ghost<Seq<Result<(), Seq<char>>>> = Ghost(
            self.results@.push(told(result)),
        );
        let width = self.width;
        let height = self.height;
        match result {
            Err(error) => Err(self.step.failure(error.as_str())),
            Ok(()) => {
                let step = match self.step {
                    DxgiStep::CreateDevice => DxgiStep::Device,
                    DxgiStep::Device => DxgiStep::Context,
                    DxgiStep::Context => DxgiStep::DxgiDevice,
                    DxgiStep::DxgiDevice => DxgiStep::Adapter,
                    DxgiStep::Adapter => DxgiStep::Output,
                    DxgiStep::Output => DxgiStep::Output1,
                    DxgiStep::Output1 => DxgiStep::Duplication,
                    DxgiStep::Duplication => DxgiStep::CreateTexture,
                    DxgiStep::CreateTexture => DxgiStep::Texture,
                    DxgiStep::Texture => {
                        return Ok(DxgiProgress::Ready(DxgiCaptureBackend { width, height }));
                    },
                };
                Ok(DxgiProgress::Next(DxgiSetup { width, height, step, results }))
            },
        }
    }
}

/// How `AcquireNextFrame` ended.
#[derive(Debug)]
pub enum Acquire {
    Acquired,
    /// The call's error code and its text.
    Failed(i32, String),
}

/// What lies behind an acquired frame.
#[derive(Debug)]
pub enum Mapping<'a> {
    /// DXGI gave no resource.
    NoResource,
    /// The resource is no texture.
    NotTexture(String),
    /// The staging texture could not be mapped.
    MapFailed(String),
    /// The mapped bytes, and how far apart the lines start.
    Mapped(&'a [u8], usize),
}

/// Geometry of a capture by desktop duplication.
#[derive(Debug, Clone, Copy, PartialEq, Eq, Structural)]
pub struct DxgiCaptureBackend {
    pub width: u32,
    pub height: u32,
}

/// The least length of a mapped texture of `height` lines of `width` pixels
/// that start `pitch` bytes apart: all lines but the last are a pitch long; of
/// the last, the pixels count.
pub open spec fn mapped_bytes(pitch: nat, width: nat, height: nat) -> nat {
    if width > 0 && height > 0 {
        ((height - 1) * pitch + width * 4) as nat
    } else {
        0
    }
}

/// What the acquisition of a frame means for the capture.
pub open spec fn acquire_outcome(acquire: Acquire) -> Result<bool, CaptureErrorView> {
    match acquire {
        Acquire::Acquired => Ok(true),
        Acquire::Failed(code, error) => if code == WAIT_TIMEOUT {
            Ok(false)
        } else if code == ACCESS_LOST {
            Err(CaptureErrorView::Reinitialize("AcquireNextFrame: "@ + error@))
        } else {
            Err(CaptureErrorView::Recoverable("AcquireNextFrame: "@ + error@))
        },
    }
}

/// What lies behind an acquired frame means for the capture.
pub open spec fn store_outcome(mapping: Mapping<'_>) -> Result<(), CaptureErrorView> {
    match mapping {
        Mapping::NoResource => Err(
            CaptureErrorView::Recoverable("DXGI returned no desktop resource"@),
        ),
        Mapping::NotTexture(error) => Err(
            CaptureErrorView::Recoverable("Desktop resource is not a texture: "@ + error@),
        ),
        Mapping::MapFailed(error) => Err(
            CaptureErrorView::Reinitialize("Map failed: "@ + error@),
        ),
        Mapping::Mapped(_, _) => Ok(()),
    }
}

/// What giving a frame back means for the capture.
pub open spec fn release_outcome(released: Result<(), Seq<char>>) -> Result<(), CaptureErrorView> {
    match released {
        Ok(()) => Ok(()),
        Err(error) => Err(CaptureErrorView::Reinitialize("ReleaseFrame failed: "@ + error)),
    }
}

/// What a capture answers once the frame was given back: an error of the copy
/// goes before one of the release.
pub open spec fn conclusion(
    stored: Result<(), CaptureErrorView>,
    released: Result<(), CaptureErrorView>,
) -> Result<bool, CaptureErrorView> {
    match (stored, released) {
        (Err(error), _) => Err(error),
        (Ok(()), Err(error)) => Err(error),
        (Ok(()), Ok(())) => Ok(true),
    }
}

/// What a whole capture answers: the buffer is checked, a frame acquired,
/// stored, which ends with `stored`, and given back.
pub open spec fn dxgi_capture(
    backend: DxgiCaptureBackend,
    buffer_len: nat,
    acquire: Acquire,
    stored: Result<(), CaptureErrorView>,
    released: Result<(), Seq<char>>,
) -> Result<bool, CaptureErrorView> {
    match buffer_check(backend.width, backend.height, buffer_len) {
        Err(error) => Err(error),
        Ok(()) => match acquire_outcome(acquire) {
            Err(error) => Err(error),
            Ok(false) => Ok(false),
            Ok(true) => conclusion(stored, release_outcome(released)),
        },
    }
}

/// A capture gives a frame if and only if the buffer fits and every call
/// succeeds, and no frame without an error if and only if none came in time. A
/// wrong buffer is the only fatal error: whatever DXGI answers, capture goes
/// on, with a new duplication where the old one is lost.
pub proof fn law_dxgi_capture_outcomes(
    backend: DxgiCaptureBackend,
    buffer_len: nat,
    acquire: Acquire,
    mapping: Mapping<'_>,
    released: Result<(), Seq<char>>,
)
    ensures
        ({
            let result = dxgi_capture(
                backend,
                buffer_len,
                acquire,
                store_outcome(mapping),
                released,
            );
            let fits = buffer_check(backend.width, backend.height, buffer_len) is Ok;
            &&& result == Ok::<bool, CaptureErrorView>(true) <==> {
                &&& fits
                &&& acquire is Acquired
                &&& mapping is Mapped
                &&& released is Ok
            }
            &&& result == Ok::<bool, CaptureErrorView>(false) <==> {
                &&& fits
                &&& acquire matches Acquire::Failed(code, _) && code == WAIT_TIMEOUT
            }
            &&& (result matches Err(CaptureErrorView::Fatal(_))) <==> !fits
            &&& (fits && (acquire matches Acquire::Failed(code, _) && code == ACCESS_LOST))
                ==> result matches Err(CaptureErrorView::Reinitialize(_))
        }),
{
}

impl DxgiCaptureBackend {
    /// How many bytes of a mapped texture a frame takes, if the lines start
    /// `pitch` bytes apart: the least length that holds them, or `None` where
    /// `usize` cannot.
    pub fn mapped_len(&self, pitch: usize) -> (len: Option<usize>)
        ensures
            match len {
                Some(n) => {
                    &&& n == mapped_bytes(pitch as nat, self.width as nat, self.height as nat)
                    &&& holds_lines(n as nat, pitch as nat, self.width as nat, self.height as nat)
                    &&& forall|m: nat| #[trigger]
                        holds_lines(m, pitch as nat, self.width as nat, self.height as nat) ==> n
                            <= m
                },
                None => mapped_bytes(pitch as nat, self.width as nat, self.height as nat)
                    > usize::MAX,
            },
    {
        if self.width == 0 || self.height == 0 {
            return Some(0);
        }
        let lines: usize = (self.height - 1) as usize;
        proof {
            assert(0 <= lines * pitch) by (nonlinear_arith);
        }
        match (lines.checked_mul(pitch), (self.width as usize).checked_mul(4)) {
            (Some(above), Some(row)) => above.checked_add(row),
            _ => None,
        }
    }

    /// Checks the caller's buffer before a frame is acquired for it.
    pub fn check_buffer(&self, buffer_len: usize) -> (result: Result<CheckedBuffer, CaptureError>)
        ensures
            match result {
                Ok(checked) => {
                    &&& checked.backend() == *self
                    &&& checked.buffer_len() == buffer_len
                    &&& buffer_check(self.width, self.height, buffer_len as nat) is Ok
                },
                Err(error) => forall|
                    acquire: Acquire,
                    stored: Result<(), CaptureErrorView>,
                    released: Result<(), Seq<char>>,
                | #[trigger]
                    dxgi_capture(*self, buffer_len as nat, acquire, stored, released) == Err::<
                        bool,
                        _,
                    >(error@),
            },
            result is Ok <==> buffer_check(self.width, self.height, buffer_len as nat) is Ok,
    {
        match check_buffer_len(self.width, self.height, buffer_len) {
            Ok(()) => Ok(CheckedBuffer { backend: *self, buffer_len }),
            Err(error) => Err(error),
        }
    }
}

/// A capture whose buffer holds exactly one frame.
pub struct CheckedBuffer {
    backend: DxgiCaptureBackend,
    buffer_len: usize,
}

impl CheckedBuffer {
    #[verifier::type_invariant]
    spec fn inv(self) -> bool {
        buffer_check(self.backend.width, self.backend.height, self.buffer_len as nat) is Ok
    }

    /// The backend that captures.
    pub closed spec fn backend(self) -> DxgiCaptureBackend {
        self.backend
    }

    /// The length of the buffer.
    pub closed spec fn buffer_len(self) -> nat {
        self.buffer_len as nat
    }

    /// Judges the acquisition of a frame: there is one, or none came in time,
    /// or it failed.
    pub fn judge_acquire(self, acquire: Acquire) -> (result: Result<
        Option<AcquiredFrame>,
        CaptureError,
    >)
        ensures
            match result {
                Ok(Some(frame)) => {
                    &&& acquire is Acquired
                    &&& frame.backend() == self.backend()
                    &&& frame.buffer_len() == self.buffer_len()
                    &&& !frame.is_released()
                    &&& frame.release_calls() == 0
                },
                Ok(None) => forall|
                    stored: Result<(), CaptureErrorView>,
                    released: Result<(), Seq<char>>,
                | #[trigger]
                    dxgi_capture(self.backend(), self.buffer_len(), acquire, stored, released)
                        == Ok::<bool, CaptureErrorView>(false),
                Err(error) => forall|
                    stored: Result<(), CaptureErrorView>,
                    released: Result<(), Seq<char>>,
                | #[trigger]
                    dxgi_capture(self.backend(), self.buffer_len(), acquire, stored, released)
                        == Err::<bool, _>(error@),
            },
            acquire is Acquired ==> (result matches Ok(Some(_))),
    {
        proof {
            use_type_invariant(&self);
        }
        match acquire {
            Acquire::Acquired => Ok(Some(AcquiredFrame::new(self))),
            Acquire::Failed(code, error) => {
                if code == WAIT_TIMEOUT {
                    Ok(None)
                } else if code == ACCESS_LOST {
                    Err(CaptureError::Reinitialize(join("AcquireNextFrame: ", error.as_str())))
                } else {
                    Err(CaptureError::Recoverable(join("AcquireNextFrame: ", error.as_str())))
                }
            },
        }
    }
}

/// A frame that desktop duplication lent out.
///
/// It has to be given back on every path, and once: DXGI refuses the next
/// frame while the current one is still owned by the client.
pub struct AcquiredFrame {
    backend: DxgiCaptureBackend,
    buffer_len: usize,
    released: bool,
    calls: Ghost<nat>,
}

impl AcquiredFrame {
    #[verifier::type_invariant]
    spec fn inv(self) -> bool {
        &&& buffer_check(self.backend.width, self.backend.height, self.buffer_len as nat) is Ok
        &&& self.calls@ == (if self.released {
            1nat
        } else {
            0nat
        })
    }

    /// The backend that captures.
    pub closed spec fn backend(self) -> DxgiCaptureBackend {
        self.backend
    }

    /// The length of the buffer that the frame goes to.
    pub closed spec fn buffer_len(self) -> nat {
        self.buffer_len as nat
    }

    /// The frame has been given back.
    pub closed spec fn is_released(self) -> bool {
        self.released
    }

    /// How often `ReleaseFrame` was called for.
    pub closed spec fn release_calls(self) -> nat {
        self.calls@
    }

    /// A frame that was just acquired.
    pub fn new(checked: CheckedBuffer) -> (frame: Self)
        ensures
            frame.backend() == checked.backend(),
            frame.buffer_len() == checked.buffer_len(),
            !frame.is_released(),
            frame.release_calls() == 0,
    {
        proof {
            use_type_invariant(&checked);
        }
        AcquiredFrame {
            backend: checked.backend,
            buffer_len: checked.buffer_len,
            released: false,
            calls: Ghost(0),
        }
    }

    /// The frame is still to be given back.
    pub fn is_owned(&self) -> (owned: bool)
        ensures
            owned == !self.is_released(),
    {
        !self.released
    }

    /// Tells whether `ReleaseFrame` has to be called now; from then on the
    /// frame counts as given back, whatever that call answers. However often a
    /// frame is released, on purpose and once more when it goes out of scope,
    /// the call is made exactly once.
    pub fn release(&mut self) -> (call: bool)
        ensures
            call == !old(self).is_released(),
            final(self).is_released(),
            final(self).release_calls() == old(self).release_calls() + (if call {
                1nat
            } else {
                0nat
            }),
            final(self).release_calls() == 1,
            final(self).backend() == old(self).backend(),
            final(self).buffer_len() == old(self).buffer_len(),
    {
        proof {
            use_type_invariant(&*self);
        }
        let call = !self.released;
        *self = AcquiredFrame {
            backend: self.backend,
            buffer_len: self.buffer_len,
            released: true,
            calls: Ghost(1),
        };
        call
    }

    /// Stores the frame in `buffer`, while it is still lent out.
    pub fn store(&self, mapping: Mapping<'_>, buffer: &mut [u8]) -> (result: Result<
        (),
        CaptureError,
    >)
        requires
            !self.is_released(),
            old(buffer)@.len() == self.buffer_len(),
            mapping matches Mapping::Mapped(bytes, pitch) ==> holds_lines(
                bytes@.len(),
                pitch as nat,
                self.backend().width as nat,
                self.backend().height as nat,
            ),
        ensures
            outcome(result) == store_outcome(mapping),
            match mapping {
                Mapping::Mapped(bytes, pitch) => is_rgba_of(
                    final(buffer)@,
                    bytes@,
                    pitch as int,
                    self.backend().width as nat,
                    self.backend().height as nat,
                    Alpha::Keep,
                ),
                _ => final(buffer)@ == old(buffer)@,
            },
    {
        proof {
            use_type_invariant(self);
        }
        match mapping {
            Mapping::NoResource => Err(
                CaptureError::Recoverable("DXGI returned no desktop resource".to_owned()),
            ),
            Mapping::NotTexture(error) => Err(
                CaptureError::Recoverable(
                    join("Desktop resource is not a texture: ", error.as_str()),
                ),
            ),
            Mapping::MapFailed(error) => Err(
                CaptureError::Reinitialize(join("Map failed: ", error.as_str())),
            ),
            Mapping::Mapped(bytes, pitch) => {
                convert_rows(
                    bytes,
                    pitch,
                    buffer,
                    self.backend.width as usize,
                    self.backend.height as usize,
                    Alpha::Keep,
                );
                Ok(())
            },
        }
    }

    /// Concludes a capture whose frame was given back. An error of the copy
    /// goes before one of the release.
    pub fn conclude(
        &self,
        stored: Result<(), CaptureError>,
        released: Result<(), String>,
    ) -> (result: Result<bool, CaptureError>)
        requires
            self.is_released(),
        ensures
            outcome(result) == dxgi_capture(
                self.backend(),
                self.buffer_len(),
                Acquire::Acquired,
                outcome(stored),
                told(released),
            ),
            outcome(result) == conclusion(outcome(stored), release_outcome(told(released))),
    {
        proof {
            use_type_invariant(self);
        }
        match stored {
            Err(error) => Err(error),
            Ok(()) => match released {
                Err(error) => Err(
                    CaptureError::Reinitialize(join("ReleaseFrame failed: ", error.as_str())),
                ),
                Ok(()) => Ok(true),
            },
        }
    }
}

/// The setup steps come in this order, and each names itself where it fails.
pub proof fn law_dxgi_steps_are_named(error: Seq<char>)
    ensures
        dxgi_step(0) == DxgiStep::CreateDevice,
        dxgi_step(1) == DxgiStep::Device,
        dxgi_step(2) == DxgiStep::Context,
        dxgi_step(3) == DxgiStep::DxgiDevice,
        dxgi_step(4) == DxgiStep::Adapter,
        dxgi_step(5) == DxgiStep::Output,
        dxgi_step(6) == DxgiStep::Output1,
        dxgi_step(7) == DxgiStep::Duplication,
        dxgi_step(8) == DxgiStep::CreateTexture,
        dxgi_step(9) == DxgiStep::Texture,
        DxgiStep::CreateDevice.message(error) == "D3D11CreateDevice failed: "@ + error,
        DxgiStep::Device.message(error)
            == "D3D11CreateDevice succeeded without returning a device"@,
        DxgiStep::Context.message(error)
            == "D3D11CreateDevice succeeded without returning a device context"@,
        DxgiStep::DxgiDevice.message(error) == "ID3D11Device -> IDXGIDevice failed: "@ + error,
        DxgiStep::Adapter.message(error) == "GetAdapter failed: "@ + error,
        DxgiStep::Output.message(error) == "No display output is available: "@ + error,
        DxgiStep::Output1.message(error) == "IDXGIOutput -> IDXGIOutput1 failed: "@ + error,
        DxgiStep::Duplication.message(error) == "DuplicateOutput failed: "@ + error,
        DxgiStep::CreateTexture.message(error) == "CreateTexture2D failed: "@ + error,
        DxgiStep::Texture.message(error)
            == "CreateTexture2D succeeded without returning a staging texture"@,
{
}

/// A mapped texture of the least length holds every pixel, and none shorter
/// does.
pub proof fn law_mapped_length_is_the_least(pitch: nat, width: nat, height: nat, len: nat)
    ensures
        len >= mapped_bytes(pitch, width, height) <==> forall|row: int, col: int|
            #![trigger row * pitch, col * 4]
            0 <= row < height && 0 <= col < width ==> row * pitch + col * 4 + 4 <= len,
{
    law_lines_are_held_iff_every_pixel_is(len, pitch, width, height);
    if width > 0 && height > 0 {
        assert(0 <= (height - 1) * pitch) by (nonlinear_arith)
            requires
                0 < height,
        ;
    }
}

/// Each failure has its consequence. A buffer that does not fit is told of
/// first. A frame that did not come in time is no error; a lost duplication is
/// set up anew; any other failure to acquire can be tried again. Of an acquired
/// frame, an error of the copy goes before one of the release, which asks for a
/// new duplication.
pub proof fn law_dxgi_failures_have_their_consequence(
    backend: DxgiCaptureBackend,
    buffer_len: nat,
    code: i32,
    error: String,
    copied: CaptureErrorView,
    released: Result<(), Seq<char>>,
    lost: Seq<char>,
    stored: Result<(), CaptureErrorView>,
)
    ensures
        ({
            let fits = buffer_len == 4 * (backend.width * backend.height) && buffer_len
                <= usize::MAX;
            let failed = dxgi_capture(
                backend,
                buffer_len,
                Acquire::Failed(code, error),
                stored,
                released,
            );
            &&& fits && code as int == 0x887A_0027 - 0x1_0000_0000 ==> failed == Ok::<
                bool,
                CaptureErrorView,
            >(false)
            &&& fits && code as int == 0x887A_0026 - 0x1_0000_0000 ==> failed == Err::<bool, _>(
                CaptureErrorView::Reinitialize("AcquireNextFrame: "@ + error@),
            )
            &&& fits && code as int != 0x887A_0027 - 0x1_0000_0000 && code as int != 0x887A_0026
                - 0x1_0000_0000 ==> failed == Err::<bool, _>(
                CaptureErrorView::Recoverable("AcquireNextFrame: "@ + error@),
            )
            &&& fits ==> dxgi_capture(
                backend,
                buffer_len,
                Acquire::Acquired,
                Err(copied),
                released,
            ) == Err::<bool, _>(copied)
            &&& fits ==> dxgi_capture(
                backend,
                buffer_len,
                Acquire::Acquired,
                Ok(()),
                Err(lost),
            ) == Err::<bool, _>(
                CaptureErrorView::Reinitialize("ReleaseFrame failed: "@ + lost),
            )
            &&& fits ==> dxgi_capture(backend, buffer_len, Acquire::Acquired, Ok(()), Ok(()))
                == Ok::<bool, CaptureErrorView>(true)
            &&& !fits ==> (failed matches Err(CaptureErrorView::Fatal(message)) && Err::<(), _>(
                CaptureErrorView::Fatal(message),
            ) == buffer_check(backend.width, backend.height, buffer_len))
            &&& !fits ==> (dxgi_capture(
                backend,
                buffer_len,
                Acquire::Acquired,
                stored,
                released,
            ) == failed)
        }),
{
    super::law_only_whole_frames_pass(backend.width, backend.height, buffer_len);
}

/// What a capture concludes is the first error of copy and release, and a frame
/// where there is none.
pub proof fn law_conclusion_is_the_first_error(
    stored: Result<(), CaptureErrorView>,
    released: Result<(), CaptureErrorView>,
)
    ensures
        stored matches Err(error) ==> conclusion(stored, released) == Err::<bool, _>(error),
        stored is Ok ==> (released matches Err(error) ==> conclusion(stored, released) == Err::<
            bool,
            _,
        >(error)),
        stored is Ok && released is Ok ==> conclusion(stored, released) == Ok::<
            bool,
            CaptureErrorView,
        >(true),
{
}

/// What lies behind an acquired frame decides the copy: mapped bytes are
/// copied; without a texture the frame is skipped; a texture that cannot be
/// mapped asks for a new duplication. A release that failed does so too.
pub proof fn law_what_lies_behind_a_frame_decides(
    error: String,
    bytes: &[u8],
    pitch: usize,
    lost: Seq<char>,
)
    ensures
        store_outcome(Mapping::Mapped(bytes, pitch)) == Ok::<(), CaptureErrorView>(()),
        store_outcome(Mapping::NoResource) == Err::<(), _>(
            CaptureErrorView::Recoverable("DXGI returned no desktop resource"@),
        ),
        store_outcome(Mapping::NotTexture(error)) == Err::<(), _>(
            CaptureErrorView::Recoverable("Desktop resource is not a texture: "@ + error@),
        ),
        store_outcome(Mapping::MapFailed(error)) == Err::<(), _>(
            CaptureErrorView::Reinitialize("Map failed: "@ + error@),
        ),
        release_outcome(Ok(())) == Ok::<(), CaptureErrorView>(()),
        release_outcome(Err(lost)) == Err::<(), _>(
            CaptureErrorView::Reinitialize("ReleaseFrame failed: "@ + lost),
        ),
{
}

} // verus!
