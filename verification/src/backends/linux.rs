//! The Linux backend: PipeWire through the desktop portal, else X11.

use vstd::prelude::*;

use super::fallback::Fallback;
use super::fallback::OpenFailure;
use super::told;
use super::CaptureBackend;
use super::CaptureError;
use crate::text::join_four;

verus! {

/// A Linux backend: `P` is the PipeWire one, `X` the X11 one, which is opened
/// only with a failure of `P`.
pub enum LinuxCaptureBackend<P, X> {
    PipeWire(P),
    X11(X),
}

/// The message for two failed attempts.
pub open spec fn both_failed(pipewire_error: Seq<char>, x11_error: Seq<char>) -> Seq<char> {
    "Both PipeWire and X11 backends failed to initialize.\nPipeWire/XDG Portal error: "@
        + pipewire_error + "\nX11 error: "@ + x11_error
}

/// Tells why neither backend could be used.
pub fn both_failed_message(pipewire_error: &str, x11_error: &str) -> (message: String)
    ensures
        message@ == both_failed(pipewire_error@, x11_error@),
{
    join_four(
        "Both PipeWire and X11 backends failed to initialize.\nPipeWire/XDG Portal error: ",
        pipewire_error,
        "\nX11 error: ",
        x11_error,
    )
}

/// What PipeWire's answer leads to.
#[verifier::reject_recursive_types(P)]
pub enum LinuxOpening<P: CaptureBackend, X> {
    /// PipeWire is used.
    Ready(LinuxCaptureBackend<P, X>),
    /// PipeWire failed so: X11 is due.
    X11Due(OpenFailure<P>),
}

impl<P: CaptureBackend, X> LinuxOpening<P, X> {
    /// Takes the answer of PipeWire's `init` for `width` by `height` frames.
    pub fn after_pipewire(width: u32, height: u32, answer: Result<P, String>) -> (opening: Self)
        requires
            P::may_init(width, height, answer),
        ensures
            match answer {
                Ok(pw) => opening == LinuxOpening::<P, X>::Ready(
                    LinuxCaptureBackend::PipeWire(pw),
                ),
                Err(error) => opening matches LinuxOpening::X11Due(failure)
                    && failure.geometry() == (width, height) && failure.error() == error,
            },
    {
        match answer {
            Ok(pw) => LinuxOpening::Ready(LinuxCaptureBackend::PipeWire(pw)),
            Err(error) => LinuxOpening::X11Due(OpenFailure::new(width, height, error)),
        }
    }
}

/// Takes X11's answer after PipeWire's failure: its backend, or the error of
/// both attempts.
pub fn after_x11<P: CaptureBackend, X>(
    failure: &OpenFailure<P>,
    answer: Result<X, String>,
) -> (result: Result<LinuxCaptureBackend<P, X>, String>)
    ensures
        told(result) == (match answer {
            Ok(x11) => Ok(LinuxCaptureBackend::<P, X>::X11(x11)),
            Err(error) => Err(both_failed(failure.error()@, error@)),
        }),
{
    match answer {
        Ok(x11) => Ok(LinuxCaptureBackend::X11(x11)),
        Err(error) => Err(both_failed_message(failure.reason(), error.as_str())),
    }
}

impl<P: CaptureBackend, X: Fallback<P>> CaptureBackend for LinuxCaptureBackend<P, X> {
    /// PipeWire is tried first; X11 is used only where PipeWire failed.
    open spec fn may_init(width: u32, height: u32, result: Result<Self, String>) -> bool {
        match result {
            Ok(LinuxCaptureBackend::PipeWire(pw)) => P::may_init(width, height, Ok(pw)),
            Ok(LinuxCaptureBackend::X11(x11)) => {
                &&& exists|pipewire_error: String| #[trigger]
                    P::may_init(width, height, Err(pipewire_error))
                &&& X::may_open(width, height, Ok(x11))
            },
            Err(message) => exists|pipewire_error: String, x11_error: String|
                {
                    &&& #[trigger] P::may_init(width, height, Err(pipewire_error))
                    &&& #[trigger] X::may_open(width, height, Err(x11_error))
                    &&& message@ == both_failed(pipewire_error@, x11_error@)
                },
        }
    }

    /// The chosen backend captures; the choice stays.
    open spec fn may_capture(
        before: Self,
        after: Self,
        old_frame: Seq<u8>,
        new_frame: Seq<u8>,
        timeout_ms: u32,
        result: Result<bool, CaptureError>,
    ) -> bool {
        match (before, after) {
            (
                LinuxCaptureBackend::PipeWire(b),
                LinuxCaptureBackend::PipeWire(a),
            ) => P::may_capture(b, a, old_frame, new_frame, timeout_ms, result),
            (LinuxCaptureBackend::X11(b), LinuxCaptureBackend::X11(a)) => X::may_capture_instead(
                b,
                a,
                old_frame,
                new_frame,
                timeout_ms,
                result,
            ),
            _ => false,
        }
    }

    /// The chosen backend is destroyed; the choice stays.
    open spec fn may_destroy(before: Self, after: Self) -> bool {
        match (before, after) {
            (
                LinuxCaptureBackend::PipeWire(b),
                LinuxCaptureBackend::PipeWire(a),
            ) => P::may_destroy(b, a),
            (LinuxCaptureBackend::X11(b), LinuxCaptureBackend::X11(a)) => X::may_destroy_instead(b, a),
            _ => false,
        }
    }

    fn init(width: u32, height: u32) -> (result: Result<Self, String>) {
        let answer = P::init(width, height);
        match LinuxOpening::after_pipewire(width, height, answer) {
            LinuxOpening::Ready(backend) => Ok(backend),
            LinuxOpening::X11Due(failure) => {
                let answer = X::open_instead(&failure);
                assert(answer matches Err(error) ==> X::may_open(width, height, Err(error)));
                after_x11(&failure, answer)
            },
        }
    }

    fn capture_frame(&mut self, buffer: &mut [u8], timeout_ms: u32) -> (result: Result<
        bool,
        CaptureError,
    >) {
        match self {
            LinuxCaptureBackend::PipeWire(pw) => pw.capture_frame(buffer, timeout_ms),
            LinuxCaptureBackend::X11(x11) => x11.capture_instead(buffer, timeout_ms),
        }
    }

    fn destroy(&mut self) {
        match self {
            LinuxCaptureBackend::PipeWire(pw) => pw.destroy(),
            LinuxCaptureBackend::X11(x11) => x11.destroy_instead(),
        }
    }
}

/// The message for two failed attempts tells both errors, PipeWire's first.
pub proof fn law_both_errors_are_told(pipewire_error: Seq<char>, x11_error: Seq<char>)
    ensures
        both_failed(pipewire_error, x11_error)
            == "Both PipeWire and X11 backends failed to initialize.\nPipeWire/XDG Portal error: "@
            + pipewire_error + "\nX11 error: "@ + x11_error,
{
}

/// PipeWire's backend is used exactly as PipeWire opened it; X11's, exactly as
/// X11 opened it, and only where PipeWire may have failed. An error means that
/// both failed, and tells why.
pub proof fn law_linux_opens_pipewire_or_else_x11<P: CaptureBackend, X: CaptureBackend>(
    width: u32,
    height: u32,
    pw: P,
    x11: X,
    message: String,
)
    ensures
        LinuxCaptureBackend::<P, X>::may_init(width, height, Ok(LinuxCaptureBackend::PipeWire(pw)))
            <==> P::may_init(width, height, Ok(pw)),
        LinuxCaptureBackend::<P, X>::may_init(width, height, Ok(LinuxCaptureBackend::X11(x11))) <==> {
            &&& exists|error: String| #[trigger] P::may_init(width, height, Err(error))
            &&& X::may_init(width, height, Ok(x11))
        },
        LinuxCaptureBackend::<P, X>::may_init(width, height, Err(message)) <==> exists|
            pipewire_error: String,
            x11_error: String,
        |
            {
                &&& #[trigger] P::may_init(width, height, Err(pipewire_error))
                &&& #[trigger] X::may_init(width, height, Err(x11_error))
                &&& message@
                    == "Both PipeWire and X11 backends failed to initialize.\nPipeWire/XDG Portal error: "@
                    + pipewire_error@ + "\nX11 error: "@ + x11_error@
            },
{
    if LinuxCaptureBackend::<P, X>::may_init(width, height, Err(message)) {
        let (pipewire_error, x11_error) = choose|pipewire_error: String, x11_error: String|
            {
                &&& #[trigger] P::may_init(width, height, Err(pipewire_error))
                &&& #[trigger] <X as Fallback<P>>::may_open(width, height, Err(x11_error))
                &&& message@ == both_failed(pipewire_error@, x11_error@)
            };
        assert(X::may_init(width, height, Err(x11_error)));
    }
    if exists|pipewire_error: String, x11_error: String|
        {
            &&& #[trigger] P::may_init(width, height, Err(pipewire_error))
            &&& #[trigger] X::may_init(width, height, Err(x11_error))
            &&& message@ == both_failed(pipewire_error@, x11_error@)
        } {
        let (pipewire_error, x11_error) = choose|pipewire_error: String, x11_error: String|
            {
                &&& #[trigger] P::may_init(width, height, Err(pipewire_error))
                &&& #[trigger] X::may_init(width, height, Err(x11_error))
                &&& message@ == both_failed(pipewire_error@, x11_error@)
            };
        assert(<X as Fallback<P>>::may_open(width, height, Err(x11_error)));
    }
}

/// A capture or a release by the Linux backend is one by the backend that was
/// chosen, with the same buffer, timeout and result, and the choice stays.
pub proof fn law_linux_hands_on_unchanged<P: CaptureBackend, X: CaptureBackend>(
    pw: P,
    x11: X,
    after: LinuxCaptureBackend<P, X>,
    old_frame: Seq<u8>,
    new_frame: Seq<u8>,
    timeout_ms: u32,
    result: Result<bool, CaptureError>,
)
    ensures
        LinuxCaptureBackend::<P, X>::may_capture(
            LinuxCaptureBackend::PipeWire(pw),
            after,
            old_frame,
            new_frame,
            timeout_ms,
            result,
        ) <==> (after matches LinuxCaptureBackend::PipeWire(kept) && P::may_capture(
            pw,
            kept,
            old_frame,
            new_frame,
            timeout_ms,
            result,
        )),
        LinuxCaptureBackend::<P, X>::may_capture(
            LinuxCaptureBackend::X11(x11),
            after,
            old_frame,
            new_frame,
            timeout_ms,
            result,
        ) <==> (after matches LinuxCaptureBackend::X11(kept) && X::may_capture(
            x11,
            kept,
            old_frame,
            new_frame,
            timeout_ms,
            result,
        )),
        LinuxCaptureBackend::<P, X>::may_destroy(LinuxCaptureBackend::PipeWire(pw), after) <==> (
        after matches LinuxCaptureBackend::PipeWire(kept) && P::may_destroy(pw, kept)),
        LinuxCaptureBackend::<P, X>::may_destroy(LinuxCaptureBackend::X11(x11), after) <==> (
        after matches LinuxCaptureBackend::X11(kept) && X::may_destroy(x11, kept)),
{
}

} // verus!
