//! Capture backends: what they share, and the rules of each platform.

use vstd::prelude::*;

use crate::frame::checked_frame_len;
use crate::frame::frame_bytes;
use crate::text::decimal;
use crate::text::decimal_string;
use crate::text::join_four;

pub mod fallback;
pub mod linux;
pub mod linux_pipewire;
pub mod linux_x11;
pub mod macos;
pub mod windows;

verus! {

/// Why a frame could not be captured.
#[derive(Debug)]
pub enum CaptureError {
    /// The backend was invalidated by an operating-system display event and
    /// can be recreated with the current capture geometry.
    Reinitialize(String),
    /// The frame can be skipped; the worker retries after a small backoff.
    Recoverable(String),
    /// Continuing would be unsafe or cannot produce a correctly sized frame.
    Fatal(String),
}

/// A `CaptureError` with its message as a sequence of characters.
pub ghost enum CaptureErrorView {
    Reinitialize(Seq<char>),
    Recoverable(Seq<char>),
    Fatal(Seq<char>),
}

impl View for CaptureError {
    type V = CaptureErrorView;

    open spec fn view(&self) -> CaptureErrorView {
        match self {
            CaptureError::Reinitialize(message) => CaptureErrorView::Reinitialize(message@),
            CaptureError::Recoverable(message) => CaptureErrorView::Recoverable(message@),
            CaptureError::Fatal(message) => CaptureErrorView::Fatal(message@),
        }
    }
}

/// A result with its error seen through the view.
pub open spec fn outcome<T>(result: Result<T, CaptureError>) -> Result<T, CaptureErrorView> {
    match result {
        Ok(value) => Ok(value),
        Err(error) => Err(error@),
    }
}

/// A result with its message as a sequence of characters.
pub open spec fn told<T>(result: Result<T, String>) -> Result<T, Seq<char>> {
    match result {
        Ok(value) => Ok(value),
        Err(message) => Err(message@),
    }
}

/// Of `count` steps, each begun once the one before succeeded, another one is
/// due after those that ended with `results`.
pub open spec fn step_is_due(results: Seq<Result<(), Seq<char>>>, count: nat) -> bool {
    &&& results.len() < count
    &&& forall|i: int| 0 <= i < results.len() ==> (#[trigger] results[i]) is Ok
}

/// A source of desktop frames.
///
/// A backend says by its three relations what its operations may do; one that
/// leaves them as they are promises nothing.
pub trait CaptureBackend: Send + Sized {
    /// `init(width, height)` may return `result`.
    open spec fn may_init(width: u32, height: u32, result: Result<Self, String>) -> bool {
        true
    }

    /// `capture_frame` may take the backend from `before` to `after` and the
    /// buffer from `old_frame` to `new_frame`, and return `result`.
    open spec fn may_capture(
        before: Self,
        after: Self,
        old_frame: Seq<u8>,
        new_frame: Seq<u8>,
        timeout_ms: u32,
        result: Result<bool, CaptureError>,
    ) -> bool {
        true
    }

    /// `destroy` may take the backend from `before` to `after`.
    open spec fn may_destroy(before: Self, after: Self) -> bool {
        true
    }

    /// Initialize a backend for a frame of the specified RGBA8 dimensions.
    fn init(width: u32, height: u32) -> (result: Result<Self, String>)
        ensures
            Self::may_init(width, height, result),
    ;

    /// Capture one frame into `buffer`.
    ///
    /// `timeout_ms = 0` polls immediately. A finite non-zero timeout waits for
    /// an OS frame while still allowing the worker to check shutdown requests.
    fn capture_frame(&mut self, buffer: &mut [u8], timeout_ms: u32) -> (result: Result<
        bool,
        CaptureError,
    >)
        ensures
            Self::may_capture(
                *old(self),
                *final(self),
                old(buffer)@,
                final(buffer)@,
                timeout_ms,
                result,
            ),
            final(buffer)@.len() == old(buffer)@.len(),
    ;

    /// Release platform resources before the backend is dropped or recreated.
    fn destroy(&mut self)
        ensures
            Self::may_destroy(*old(self), *final(self)),
    ;
}

/// What a backend for `width` by `height` frames says of a buffer of
/// `buffer_len` bytes.
pub open spec fn buffer_check(width: u32, height: u32, buffer_len: nat) -> Result<
    (),
    CaptureErrorView,
> {
    let expected = frame_bytes(width as nat, height as nat);
    if expected > usize::MAX {
        Err(CaptureErrorView::Fatal("Capture dimensions overflow usize"@))
    } else if buffer_len != expected {
        Err(
            CaptureErrorView::Fatal(
                "Capture buffer has "@ + decimal(buffer_len) + " bytes; expected "@ + decimal(
                    expected,
                ),
            ),
        )
    } else {
        Ok(())
    }
}

/// Checks that a buffer holds exactly one RGBA8 frame.
pub fn check_buffer_len(width: u32, height: u32, buffer_len: usize) -> (result: Result<
    (),
    CaptureError,
>)
    ensures
        outcome(result) == buffer_check(width, height, buffer_len as nat),
{
    match checked_frame_len(width, height) {
        None => Err(CaptureError::Fatal("Capture dimensions overflow usize".to_owned())),
        Some(expected) => {
            if buffer_len != expected {
                Err(
                    CaptureError::Fatal(
                        join_four(
                            "Capture buffer has ",
                            decimal_string(buffer_len as u64).as_str(),
                            " bytes; expected ",
                            decimal_string(expected as u64).as_str(),
                        ),
                    ),
                )
            } else {
                Ok(())
            }
        },
    }
}

/// An error is seen as what it is, with its whole message, and a result as what
/// it holds.
pub proof fn law_results_are_seen_as_they_are<T>(value: T, message: String)
    ensures
        CaptureError::Reinitialize(message)@ == CaptureErrorView::Reinitialize(message@),
        CaptureError::Recoverable(message)@ == CaptureErrorView::Recoverable(message@),
        CaptureError::Fatal(message)@ == CaptureErrorView::Fatal(message@),
        outcome(Ok::<T, CaptureError>(value)) == Ok::<T, CaptureErrorView>(value),
        outcome(Err::<T, CaptureError>(CaptureError::Reinitialize(message))) == Err::<T, _>(
            CaptureErrorView::Reinitialize(message@),
        ),
        outcome(Err::<T, CaptureError>(CaptureError::Recoverable(message))) == Err::<T, _>(
            CaptureErrorView::Recoverable(message@),
        ),
        outcome(Err::<T, CaptureError>(CaptureError::Fatal(message))) == Err::<T, _>(
            CaptureErrorView::Fatal(message@),
        ),
        told(Ok::<T, String>(value)) == Ok::<T, Seq<char>>(value),
        told(Err::<T, String>(message)) == Err::<T, Seq<char>>(message@),
{
}

/// The first of some steps is due; after one that succeeded, the next one is, as
/// long as there is one; after one that failed, none is.
pub proof fn law_steps_follow_success(
    results: Seq<Result<(), Seq<char>>>,
    error: Seq<char>,
    count: nat,
)
    ensures
        step_is_due(Seq::empty(), count) <==> 0 < count,
        step_is_due(results.push(Ok(())), count) <==> step_is_due(results, count) && results.len()
            + 1 < count,
        !step_is_due(results.push(Err(error)), count),
{
    let ok = results.push(Ok(()));
    let failed = results.push(Err(error));
    assert(failed[results.len() as int] is Err);
    if step_is_due(ok, count) {
        assert forall|i: int| 0 <= i < results.len() implies (#[trigger] results[i]) is Ok by {
            assert(ok[i] is Ok);
        }
    }
}

/// A buffer passes if and only if it holds exactly four bytes per pixel and a
/// machine can address that many. Any other is a fatal error, which names both
/// lengths where there are two.
pub proof fn law_only_whole_frames_pass(width: u32, height: u32, buffer_len: nat)
    ensures
        buffer_check(width, height, buffer_len) is Ok <==> buffer_len == 4 * (width * height)
            && buffer_len <= usize::MAX,
        4 * (width * height) > usize::MAX ==> buffer_check(width, height, buffer_len) == Err::<
            (),
            _,
        >(CaptureErrorView::Fatal("Capture dimensions overflow usize"@)),
        4 * (width * height) <= usize::MAX && buffer_len != 4 * (width * height) ==> buffer_check(
            width,
            height,
            buffer_len,
        ) == Err::<(), _>(
            CaptureErrorView::Fatal(
                "Capture buffer has "@ + decimal(buffer_len) + " bytes; expected "@ + decimal(
                    (4 * (width * height)) as nat,
                ),
            ),
        ),
{
    assert(0 <= width * height) by (nonlinear_arith);
    assert(width as nat * height as nat * 4 == 4 * (width * height));
}

} // verus!
