//! Opening a backend in place of another one that could not be opened.

use vstd::prelude::*;

use std::marker::PhantomData;

use super::CaptureBackend;
use super::CaptureError;

verus! {

/// A backend `P` could not be opened for frames of some size.
#[verifier::reject_recursive_types(P)]
pub struct OpenFailure<P: CaptureBackend> {
    width: u32,
    height: u32,
    error: String,
    backend: PhantomData<P>,
}

impl<P: CaptureBackend> OpenFailure<P> {
    /// Width and height of the frames that were asked for.
    pub closed spec fn geometry(self) -> (u32, u32) {
        (self.width, self.height)
    }

    /// Why `P` could not be opened.
    pub closed spec fn error(self) -> String {
        self.error
    }

    /// `init` of `P` may have failed so.
    #[verifier::type_invariant]
    spec fn inv(self) -> bool {
        P::may_init(self.width, self.height, Err(self.error))
    }

    /// The failure that `init` of `P` answered.
    pub fn new(width: u32, height: u32, error: String) -> (failure: Self)
        requires
            P::may_init(width, height, Err(error)),
        ensures
            failure.geometry() == (width, height),
            failure.error() == error,
    {
        OpenFailure { width, height, error, backend: PhantomData }
    }

    /// Opens `X` with the geometry of the failed attempt.
    fn open<X: CaptureBackend>(&self) -> (result: Result<X, String>)
        ensures
            X::may_init(self.geometry().0, self.geometry().1, result),
    {
        X::init(self.width, self.height)
    }

    /// Why `P` could not be opened, in words.
    pub fn reason(&self) -> (reason: &str)
        ensures
            reason@ == self.error()@,
    {
        self.error.as_str()
    }
}

/// A backend that can stand in for `P`. It cannot be opened but with a failure
/// of `P`. Every backend is one.
pub trait Fallback<P: CaptureBackend>: Send + Sized {
    /// `open_instead` may return `result`.
    spec fn may_open(width: u32, height: u32, result: Result<Self, String>) -> bool;

    /// `capture_instead` may take the backend from `before` to `after` and the
    /// buffer from `old_frame` to `new_frame`, and return `result`.
    spec fn may_capture_instead(
        before: Self,
        after: Self,
        old_frame: Seq<u8>,
        new_frame: Seq<u8>,
        timeout_ms: u32,
        result: Result<bool, CaptureError>,
    ) -> bool;

    /// `destroy_instead` may take the backend from `before` to `after`.
    spec fn may_destroy_instead(before: Self, after: Self) -> bool;

    /// Opens the backend in place of `P`, which failed.
    fn open_instead(failure: &OpenFailure<P>) -> (result: Result<Self, String>)
        ensures
            Self::may_open(failure.geometry().0, failure.geometry().1, result),
    ;

    /// Captures one frame into `buffer`, as `CaptureBackend::capture_frame`
    /// does.
    fn capture_instead(&mut self, buffer: &mut [u8], timeout_ms: u32) -> (result: Result<
        bool,
        CaptureError,
    >)
        ensures
            Self::may_capture_instead(
                *old(self),
                *final(self),
                old(buffer)@,
                final(buffer)@,
                timeout_ms,
                result,
            ),
            final(buffer)@.len() == old(buffer)@.len(),
    ;

    /// Releases platform resources, as `CaptureBackend::destroy` does.
    fn destroy_instead(&mut self)
        ensures
            Self::may_destroy_instead(*old(self), *final(self)),
    ;
}

impl<P: CaptureBackend, X: CaptureBackend> Fallback<P> for X {
    open spec fn may_open(width: u32, height: u32, result: Result<Self, String>) -> bool {
        X::may_init(width, height, result)
    }

    open spec fn may_capture_instead(
        before: Self,
        after: Self,
        old_frame: Seq<u8>,
        new_frame: Seq<u8>,
        timeout_ms: u32,
        result: Result<bool, CaptureError>,
    ) -> bool {
        X::may_capture(before, after, old_frame, new_frame, timeout_ms, result)
    }

    open spec fn may_destroy_instead(before: Self, after: Self) -> bool {
        X::may_destroy(before, after)
    }

    fn open_instead(failure: &OpenFailure<P>) -> (result: Result<Self, String>) {
        failure.open()
    }

    fn capture_instead(&mut self, buffer: &mut [u8], timeout_ms: u32) -> (result: Result<
        bool,
        CaptureError,
    >) {
        self.capture_frame(buffer, timeout_ms)
    }

    fn destroy_instead(&mut self) {
        self.destroy();
    }
}

} // verus!
