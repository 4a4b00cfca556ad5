//! The X11 fallback: `GetImage` on the root window.

use vstd::prelude::*;

use super::outcome;
use super::told;
use super::CaptureError;
use super::CaptureErrorView;
use crate::frame::convert_rows;
use crate::frame::frame_bytes;
use crate::frame::is_rgba_of;
use crate::frame::Alpha;
use crate::text::decimal;
use crate::text::decimal_string;
use crate::text::join;
use crate::text::join_four;

verus! {

/// A pixmap format that the X server advertises.
#[derive(Debug, Clone, Copy, PartialEq, Eq, Structural)]
pub struct PixmapFormat {
    pub depth: u8,
    pub bits_per_pixel: u8,
    pub scanline_pad: u8,
}

/// A screen of the X server: its root window and the depth of that window.
#[derive(Debug, Clone, Copy, PartialEq, Eq, Structural)]
pub struct X11Screen {
    pub root: u32,
    pub root_depth: u8,
}

/// What the X server tells when a client connects.
#[derive(Debug)]
pub struct X11Setup {
    pub pixmap_formats: Vec<PixmapFormat>,
    pub roots: Vec<X11Screen>,
    /// The screen that the display's name selects.
    pub screen_num: usize,
}

/// Arguments of a `GetImage` request, in `Z_PIXMAP` format.
#[derive(Debug, Clone, Copy, PartialEq, Eq, Structural)]
pub struct ImageRequest {
    pub window: u32,
    pub x: i16,
    pub y: i16,
    pub width: u16,
    pub height: u16,
    pub plane_mask: u32,
}

/// How a `GetImage` request ended.
#[derive(Debug)]
pub enum X11Image {
    /// The request could not be sent.
    RequestFailed(String),
    /// The server answered with an error, or not at all.
    ReplyFailed(String),
    /// The image's bytes.
    Data(Vec<u8>),
}

/// Geometry of a capture by `GetImage`.
///
/// Under a compositing window manager the root window may show no more than
/// the wallpaper; PipeWire is the preferred backend.
#[derive(Debug, Clone, Copy, PartialEq, Eq, Structural)]
pub struct X11CaptureBackend {
    pub window: u32,
    pub width: u32,
    pub height: u32,
    /// Bytes per line of the image. May include padding and exceed
    /// `width * 4`.
    pub stride: usize,
}

/// The first format for a depth.
pub open spec fn format_for(formats: Seq<PixmapFormat>, depth: u8) -> Option<PixmapFormat>
    decreases formats.len(),
{
    if formats.len() == 0 {
        None
    } else if formats[0].depth == depth {
        Some(formats[0])
    } else {
        format_for(formats.drop_first(), depth)
    }
}

/// The least multiple of `unit` that is not below `n`.
pub open spec fn round_up(n: int, unit: int) -> int {
    ((n + unit - 1) / unit) * unit
}

/// Bits that a line is padded to: what the server says, but whole bytes.
pub open spec fn line_unit(format: PixmapFormat) -> int {
    if format.scanline_pad < 8 {
        8
    } else {
        format.scanline_pad as int
    }
}

/// Bits of a line of `width` pixels of 32 bits each, with its padding.
pub open spec fn line_bits(format: PixmapFormat, width: u32) -> int {
    round_up(width * 32, line_unit(format))
}

/// Bytes per line at a depth, or why the depth cannot be captured.
pub open spec fn stride_at(formats: Seq<PixmapFormat>, depth: u8, width: u32) -> Result<
    usize,
    Seq<char>,
> {
    match format_for(formats, depth) {
        None => Err(
            "Server did not advertise a pixmap format for depth "@ + decimal(depth as nat),
        ),
        Some(format) => if format.bits_per_pixel != 32 {
            Err(
                "Unsupported root window pixel format: "@ + decimal(format.bits_per_pixel as nat)
                    + " bits per pixel at depth "@ + decimal(depth as nat)
                    + " (only 32-bit ZPixmap formats are supported)"@,
            )
        } else {
            Ok((line_bits(format, width) / 8) as usize)
        },
    }
}

/// The bits of a line can be counted in a `u32`, where the depth can be
/// captured at all.
pub open spec fn line_fits(formats: Seq<PixmapFormat>, depth: u8, width: u32) -> bool {
    match format_for(formats, depth) {
        Some(format) => format.bits_per_pixel == 32 ==> line_bits(format, width) <= u32::MAX,
        None => true,
    }
}

proof fn lemma_format_for_skips(formats: Seq<PixmapFormat>, depth: u8, at: int)
    requires
        0 <= at <= formats.len(),
        forall|i: int| 0 <= i < at ==> (#[trigger] formats[i]).depth != depth,
    ensures
        format_for(formats, depth) == format_for(formats.skip(at), depth),
    decreases at,
{
    if at == 0 {
        assert(formats.skip(0) =~= formats);
    } else {
        assert(formats[0].depth != depth);
        let rest = formats.drop_first();
        assert forall|i: int| 0 <= i < at - 1 implies (#[trigger] rest[i]).depth != depth by {
            assert(rest[i] == formats[i + 1]);
        }
        lemma_format_for_skips(rest, depth, at - 1);
        assert(rest.skip(at - 1) =~= formats.skip(at));
    }
}

/// Finds the first format for a depth.
fn find_format(formats: &Vec<PixmapFormat>, depth: u8) -> (format: Option<PixmapFormat>)
    ensures
        format == format_for(formats@, depth),
{
    let mut i: usize = 0;
    while i < formats.len()
        invariant
            i <= formats.len(),
            forall|j: int| 0 <= j < i ==> (#[trigger] formats@[j]).depth != depth,
        decreases formats.len() - i,
    {
        if formats[i].depth == depth {
            proof {
                lemma_format_for_skips(formats@, depth, i as int);
            }
            return Some(formats[i]);
        }
        i = i + 1;
    }
    proof {
        lemma_format_for_skips(formats@, depth, i as int);
    }
    None
}

/// `round_up` gives a multiple that is not below, and is the least of them.
proof fn lemma_round_up(n: int, unit: int)
    requires
        0 <= n,
        0 < unit,
    ensures
        n <= round_up(n, unit) < n + unit,
        round_up(n, unit) == (n / unit + (if n % unit == 0 {
            0int
        } else {
            1int
        })) * unit,
{
    let q = n / unit;
    let r = n % unit;
    assert(n == q * unit + r && 0 <= r < unit) by (nonlinear_arith)
        requires
            0 <= n,
            0 < unit,
            q == n / unit,
            r == n % unit,
    ;
    if r == 0 {
        assert((n + unit - 1) / unit == q) by (nonlinear_arith)
            requires
                n == q * unit,
                0 < unit,
        ;
    } else {
        assert((n + unit - 1) / unit == q + 1) by (nonlinear_arith)
            requires
                n == q * unit + r,
                0 < r < unit,
        ;
        assert((q + 1) * unit == q * unit + unit) by (nonlinear_arith);
    }
}

/// Tells whether the bits of a line can be counted in a `u32`, as
/// `resolve_stride` needs.
pub fn line_is_countable(formats: &Vec<PixmapFormat>, depth: u8, width: u32) -> (fits: bool)
    ensures
        fits == line_fits(formats@, depth, width),
{
    match find_format(formats, depth) {
        None => true,
        Some(format) => {
            if format.bits_per_pixel != 32 {
                return true;
            }
            let unit: u64 = if format.scanline_pad < 8 {
                8
            } else {
                format.scanline_pad as u64
            };
            let bits: u64 = (width as u64) * 32;
            proof {
                lemma_round_up(bits as int, unit as int);
            }
            let lines: u64 = (bits + (unit - 1)) / unit;
            assert(lines * unit == line_bits(format, width));
            lines * unit <= u32::MAX as u64
        },
    }
}

/// Computes the actual stride (bytes per line) of a 32-bit image at `depth`,
/// accounting for the server's padding.
pub fn resolve_stride(formats: &Vec<PixmapFormat>, depth: u8, width: u32) -> (stride: Result<
    usize,
    String,
>)
    requires
        line_fits(formats@, depth, width),
    ensures
        told(stride) == stride_at(formats@, depth, width),
{
    match find_format(formats, depth) {
        None => Err(
            join(
                "Server did not advertise a pixmap format for depth ",
                decimal_string(depth as u64).as_str(),
            ),
        ),
        Some(format) => {
            if format.bits_per_pixel != 32 {
                let message = join_four(
                    "Unsupported root window pixel format: ",
                    decimal_string(format.bits_per_pixel as u64).as_str(),
                    " bits per pixel at depth ",
                    decimal_string(depth as u64).as_str(),
                );
                return Err(
                    join(message.as_str(), " (only 32-bit ZPixmap formats are supported)"),
                );
            }
            let scanline_pad: u32 = if format.scanline_pad < 8 {
                8
            } else {
                format.scanline_pad as u32
            };
            proof {
                lemma_round_up(width * 32, scanline_pad as int);
            }
            let bits: u32 = width * 32;
            let whole: u32 = bits / scanline_pad;
            let padded: u32 = if bits % scanline_pad == 0 {
                whole
            } else {
                whole + 1
            };
            let bits_per_line: u32 = padded * scanline_pad;
            assert(bits_per_line == line_bits(format, width));
            Ok((bits_per_line / 8) as usize)
        },
    }
}

/// The request that a backend makes: the root window from its corner on, on all
/// planes. The protocol carries 16 bits of each extent, and of a larger one the
/// low 16 bits.
pub open spec fn request_of(backend: X11CaptureBackend) -> ImageRequest {
    ImageRequest {
        window: backend.window,
        x: 0,
        y: 0,
        width: (backend.width % 0x1_0000) as u16,
        height: (backend.height % 0x1_0000) as u16,
        plane_mask: u32::MAX,
    }
}

/// What `init` answers, given how the connection went.
pub open spec fn x11_init(
    width: u32,
    height: u32,
    connection: Result<X11Setup, Seq<char>>,
) -> Result<X11CaptureBackend, Seq<char>> {
    match connection {
        Err(error) => Err("X11 connect failed: "@ + error),
        Ok(setup) => {
            let screen = setup.roots@[setup.screen_num as int];
            match stride_at(setup.pixmap_formats@, screen.root_depth, width) {
                Err(error) => Err(error),
                Ok(stride) => Ok(
                    X11CaptureBackend { window: screen.root, width, height, stride },
                ),
            }
        },
    }
}

/// What `capture_frame` answers to an image of `image_len` bytes.
pub open spec fn x11_capture(
    backend: X11CaptureBackend,
    image_len: nat,
    buffer_len: nat,
) -> Result<bool, CaptureErrorView> {
    let row = backend.width * 4;
    let expected = backend.stride * backend.height;
    if backend.stride < row {
        Err(
            CaptureErrorView::Fatal(
                "Resolved X11 stride ("@ + decimal(backend.stride as nat)
                    + ") is smaller than the expected row size ("@ + decimal(row as nat) + ")"@,
            ),
        )
    } else if expected > usize::MAX {
        Err(CaptureErrorView::Fatal("Capture dimensions overflow usize"@))
    } else if image_len < expected {
        Err(
            CaptureErrorView::Recoverable(
                "X11 image data has "@ + decimal(image_len) + " bytes; expected at least "@
                    + decimal(expected as nat) + " ("@ + decimal(backend.stride as nat)
                    + " bytes/line x "@ + decimal(backend.height as nat) + " lines)"@,
            ),
        )
    } else if buffer_len != frame_bytes(backend.width as nat, backend.height as nat) {
        Err(
            CaptureErrorView::Fatal(
                "Capture buffer has "@ + decimal(buffer_len) + " bytes; expected "@ + decimal(
                    frame_bytes(backend.width as nat, backend.height as nat),
                ),
            ),
        )
    } else {
        Ok(true)
    }
}

impl X11CaptureBackend {
    /// Takes the root window and the stride from what the server told.
    pub fn init(width: u32, height: u32, connection: Result<X11Setup, String>) -> (result: Result<
        Self,
        String,
    >)
        requires
            connection matches Ok(setup) ==> {
                &&& setup.screen_num < setup.roots@.len()
                &&& line_fits(
                    setup.pixmap_formats@,
                    setup.roots@[setup.screen_num as int].root_depth,
                    width,
                )
            },
        ensures
            told(result) == x11_init(width, height, told(connection)),
    {
        match connection {
            Err(error) => Err(join("X11 connect failed: ", error.as_str())),
            Ok(setup) => {
                let screen = setup.roots[setup.screen_num];
                match resolve_stride(&setup.pixmap_formats, screen.root_depth, width) {
                    Err(error) => Err(error),
                    Ok(stride) => Ok(
                        X11CaptureBackend { window: screen.root, width, height, stride },
                    ),
                }
            },
        }
    }

    /// How long to sleep before the image is requested: `GetImage` cannot
    /// wait for damage, so a timeout becomes a plain delay and the worker
    /// does not spin.
    pub fn delay_ms(timeout_ms: u32) -> (delay: Option<u64>)
        ensures
            delay == (if timeout_ms > 0 {
                Some(timeout_ms as u64)
            } else {
                None
            }),
    {
        if timeout_ms > 0 {
            Some(timeout_ms as u64)
        } else {
            None
        }
    }

    /// The request for an image of the root window, on all planes: for the
    /// whole frame, where no extent exceeds 65535. A larger extent is truncated
    /// to the 16 bits that the protocol carries, and `capture_frame` then
    /// refuses the short image.
    pub fn image_request(&self) -> (request: ImageRequest)
        ensures
            request == request_of(*self),
            self.width <= u16::MAX ==> request.width == self.width,
            self.height <= u16::MAX ==> request.height == self.height,
    {
        ImageRequest {
            window: self.window,
            x: 0,
            y: 0,
            width: (self.width % 0x1_0000) as u16,
            height: (self.height % 0x1_0000) as u16,
            plane_mask: u32::MAX,
        }
    }

    /// Stores an image in `buffer`, or tells why it cannot be used.
    pub fn capture_frame(&self, image: X11Image, buffer: &mut [u8]) -> (result: Result<
        bool,
        CaptureError,
    >)
        requires
            self.width * 4 <= usize::MAX,
        ensures
            match image {
                X11Image::RequestFailed(error) => outcome(result) == Err::<bool, CaptureErrorView>(
                    CaptureErrorView::Recoverable("XGetImage error: "@ + error@),
                ),
                X11Image::ReplyFailed(error) => outcome(result) == Err::<bool, CaptureErrorView>(
                    CaptureErrorView::Recoverable("XGetImage reply error: "@ + error@),
                ),
                X11Image::Data(src) => outcome(result) == x11_capture(
                    *self,
                    src@.len(),
                    old(buffer)@.len(),
                ),
            },
            result is Err ==> final(buffer)@ == old(buffer)@,
            (result is Ok && image is Data) ==> is_rgba_of(
                final(buffer)@,
                image->Data_0@,
                self.stride as int,
                self.width as nat,
                self.height as nat,
                Alpha::Opaque,
            ),
    {
        let src = match image {
            X11Image::RequestFailed(error) => {
                return Err(CaptureError::Recoverable(join("XGetImage error: ", error.as_str())));
            },
            X11Image::ReplyFailed(error) => {
                return Err(
                    CaptureError::Recoverable(join("XGetImage reply error: ", error.as_str())),
                );
            },
            X11Image::Data(src) => src,
        };
        let width: usize = self.width as usize;
        let height: usize = self.height as usize;
        let dst_stride: usize = width * 4;
        let src_stride: usize = self.stride;
        if src_stride < dst_stride {
            let message = join_four(
                "Resolved X11 stride (",
                decimal_string(src_stride as u64).as_str(),
                ") is smaller than the expected row size (",
                decimal_string(dst_stride as u64).as_str(),
            );
            return Err(CaptureError::Fatal(join(message.as_str(), ")")));
        }
        let expected_len: usize = match src_stride.checked_mul(height) {
            Some(expected_len) => expected_len,
            None => {
                return Err(CaptureError::Fatal("Capture dimensions overflow usize".to_owned()));
            },
        };
        if src.len() < expected_len {
            let mut message = join_four(
                "X11 image data has ",
                decimal_string(src.len() as u64).as_str(),
                " bytes; expected at least ",
                decimal_string(expected_len as u64).as_str(),
            );
            message.append(" (");
            message.append(decimal_string(src_stride as u64).as_str());
            message.append(" bytes/line x ");
            message.append(decimal_string(self.height as u64).as_str());
            message.append(" lines)");
            return Err(CaptureError::Recoverable(message));
        }
        proof {
            assert(dst_stride * height <= src_stride * height) by (nonlinear_arith)
                requires
                    dst_stride <= src_stride,
            ;
            assert((width * 4) * height == (width * height) * 4) by (nonlinear_arith);
        }
        let frame_len: usize = dst_stride * height;
        if buffer.len() != frame_len {
            return Err(
                CaptureError::Fatal(
                    join_four(
                        "Capture buffer has ",
                        decimal_string(buffer.len() as u64).as_str(),
                        " bytes; expected ",
                        decimal_string(frame_len as u64).as_str(),
                    ),
                ),
            );
        }
        proof {
            if width > 0 && height > 0 {
                assert((height - 1) * src_stride + width * 4 <= src_stride * height)
                    by (nonlinear_arith)
                    requires
                        width * 4 <= src_stride,
                ;
            }
        }
        convert_rows(src.as_slice(), src_stride, buffer, width, height, Alpha::Opaque);
        Ok(true)
    }
}

/// A resolved stride leaves room for every pixel of a line and pads it by less
/// than one unit: the guard against a stride below the row size never fires
/// on it.
pub proof fn law_resolved_stride_covers_the_row(
    formats: Seq<PixmapFormat>,
    depth: u8,
    width: u32,
    stride: usize,
)
    requires
        line_fits(formats, depth, width),
        stride_at(formats, depth, width) == Ok::<usize, Seq<char>>(stride),
    ensures
        width * 4 <= stride,
        stride * 8 < width * 32 + line_unit(format_for(formats, depth).unwrap()),
{
    let format = format_for(formats, depth).unwrap();
    lemma_round_up(width * 32, line_unit(format));
}

/// A backend that `init` made answers an image only with a frame, with a
/// request to try again, or with a fatal error about sizes; it never finds
/// its own stride too small. Where the caller brings a buffer of one frame
/// and the machine can address the image, the error can only be a short image.
pub proof fn law_initialized_backend_accepts_full_images(
    width: u32,
    height: u32,
    setup: X11Setup,
    backend: X11CaptureBackend,
    image_len: nat,
)
    requires
        line_fits(
            setup.pixmap_formats@,
            setup.roots@[setup.screen_num as int].root_depth,
            width,
        ),
        x11_init(width, height, Ok(setup)) == Ok::<X11CaptureBackend, Seq<char>>(backend),
        backend.stride * backend.height <= usize::MAX,
    ensures
        x11_capture(backend, image_len, frame_bytes(width as nat, height as nat)) == Ok::<
            bool,
            CaptureErrorView,
        >(true) <==> backend.stride * backend.height <= image_len,
        x11_capture(backend, image_len, frame_bytes(width as nat, height as nat)) is Err
            ==> x11_capture(
            backend,
            image_len,
            frame_bytes(width as nat, height as nat),
        )->Err_0 is Recoverable,
{
    let depth = setup.roots@[setup.screen_num as int].root_depth;
    law_resolved_stride_covers_the_row(setup.pixmap_formats@, depth, width, backend.stride);
}

/// An image of the requested extent, with lines padded as the server says, is
/// a whole one where no extent of the frame exceeds 65535. Where one does, the
/// request is truncated and the image is too short: it is refused, and nothing
/// but a complete frame is ever taken for one.
pub proof fn law_truncated_images_are_refused(
    width: u32,
    height: u32,
    setup: X11Setup,
    format: PixmapFormat,
    backend: X11CaptureBackend,
    image_len: nat,
    buffer_len: nat,
)
    requires
        0 < width,
        0 < height,
        line_fits(
            setup.pixmap_formats@,
            setup.roots@[setup.screen_num as int].root_depth,
            width,
        ),
        x11_init(width, height, Ok(setup)) == Ok::<X11CaptureBackend, Seq<char>>(backend),
        format_for(
            setup.pixmap_formats@,
            setup.roots@[setup.screen_num as int].root_depth,
        ) == Some(format),
        image_len == (line_bits(format, request_of(backend).width as u32) / 8) * request_of(
            backend,
        ).height,
    ensures
        width <= u16::MAX && height <= u16::MAX ==> image_len == backend.stride * backend.height,
        width > u16::MAX || height > u16::MAX ==> {
            &&& image_len < backend.stride * backend.height
            &&& x11_capture(backend, image_len, buffer_len) is Err
        },
{
    let unit = line_unit(format);
    let asked = request_of(backend);
    let lines = asked.height as int;
    let line = line_bits(format, asked.width as u32) / 8;
    lemma_round_up(width * 32, unit);
    lemma_round_up(asked.width * 32, unit);
    assert(backend.stride == line_bits(format, width) / 8);
    if width > u16::MAX {
        assert(asked.width + 0x1_0000 <= width);
        assert(line < backend.stride);
    } else {
        assert(asked.width == width);
    }
    if width > u16::MAX || height > u16::MAX {
        assert(line * lines < backend.stride * height) by (nonlinear_arith)
            requires
                0 <= line <= backend.stride,
                0 <= lines <= height,
                0 < height,
                0 < backend.stride,
                line < backend.stride || lines < height,
        ;
    }
}

/// The format for a depth is one that the server advertised for it, and none
/// comes before it; there is none only where none was advertised.
pub proof fn law_first_format_of_the_depth_counts(formats: Seq<PixmapFormat>, depth: u8)
    ensures
        match format_for(formats, depth) {
            Some(format) => exists|at: int|
                {
                    &&& 0 <= at < formats.len()
                    &&& #[trigger] formats[at] == format
                    &&& format.depth == depth
                    &&& forall|i: int| 0 <= i < at ==> (#[trigger] formats[i]).depth != depth
                },
            None => forall|i: int|
                0 <= i < formats.len() ==> (#[trigger] formats[i]).depth != depth,
        },
    decreases formats.len(),
{
    if formats.len() > 0 {
        if formats[0].depth == depth {
            assert(formats[0] == format_for(formats, depth).unwrap());
        } else {
            let rest = formats.drop_first();
            law_first_format_of_the_depth_counts(rest, depth);
            match format_for(rest, depth) {
                Some(format) => {
                    let at = choose|at: int|
                        {
                            &&& 0 <= at < rest.len()
                            &&& #[trigger] rest[at] == format
                            &&& format.depth == depth
                            &&& forall|i: int| 0 <= i < at ==> (#[trigger] rest[i]).depth != depth
                        };
                    assert(formats[at + 1] == format);
                    assert forall|i: int| 0 <= i < at + 1 implies (
                    #[trigger] formats[i]).depth != depth by {
                        if i > 0 {
                            assert(rest[i - 1] == formats[i]);
                        }
                    }
                },
                None => {
                    assert forall|i: int| 0 <= i < formats.len() implies (
                    #[trigger] formats[i]).depth != depth by {
                        if i > 0 {
                            assert(rest[i - 1] == formats[i]);
                        }
                    }
                },
            }
        }
    }
}

/// No two numbers less than a unit above the same one are multiples of it.
proof fn lemma_one_multiple(n: int, unit: int, a: int, b: int)
    requires
        0 < unit,
        n <= a < n + unit,
        n <= b < n + unit,
        a % unit == 0,
        b % unit == 0,
    ensures
        a == b,
{
    let p = a / unit;
    let q = b / unit;
    assert(a == p * unit && b == q * unit) by (nonlinear_arith)
        requires
            0 < unit,
            a % unit == 0,
            b % unit == 0,
            p == a / unit,
            q == b / unit,
    ;
    assert(p == q) by (nonlinear_arith)
        requires
            0 < unit,
            p * unit - q * unit < unit,
            q * unit - p * unit < unit,
    ;
}

/// A depth has a stride if and only if its first format has 32 bits per pixel.
/// The stride is that of a line whose bits are the one multiple of the server's
/// padding, but of eight bits at least, which covers the pixels and exceeds
/// them by less than that padding. A line can be counted if and only if those
/// bits fit in 32 bits. Another depth is refused by name.
pub proof fn law_stride_is_the_padded_line(
    formats: Seq<PixmapFormat>,
    depth: u8,
    width: u32,
    unit: int,
    bits: int,
)
    requires
        format_for(formats, depth) matches Some(format) ==> {
            &&& format.scanline_pad <= 8 ==> unit == 8
            &&& format.scanline_pad > 8 ==> unit == format.scanline_pad
            &&& bits % unit == 0
            &&& 32 * width <= bits < 32 * width + unit
        },
    ensures
        match format_for(formats, depth) {
            Some(format) => if format.bits_per_pixel == 32 {
                &&& stride_at(formats, depth, width) == Ok::<usize, Seq<char>>((bits / 8) as usize)
                &&& line_fits(formats, depth, width) <==> bits < 0x1_0000_0000
            } else {
                &&& stride_at(formats, depth, width) == Err::<usize, _>(
                    "Unsupported root window pixel format: "@ + decimal(
                        format.bits_per_pixel as nat,
                    ) + " bits per pixel at depth "@ + decimal(depth as nat)
                        + " (only 32-bit ZPixmap formats are supported)"@,
                )
                &&& line_fits(formats, depth, width)
            },
            None => {
                &&& stride_at(formats, depth, width) == Err::<usize, _>(
                    "Server did not advertise a pixmap format for depth "@ + decimal(
                        depth as nat,
                    ),
                )
                &&& line_fits(formats, depth, width)
            },
        },
{
    match format_for(formats, depth) {
        Some(format) => {
            assert(unit == line_unit(format));
            lemma_round_up(width * 32, unit);
            let lines = (width * 32 + unit - 1) / unit;
            assert((lines * unit) % unit == 0) by (nonlinear_arith)
                requires
                    0 < unit,
            ;
            lemma_one_multiple(32 * width, unit, bits, line_bits(format, width));
        },
        None => {},
    }
}

/// Opening succeeds if and only if the server was reached and the depth of the
/// selected screen has a stride. The backend is then for the root window of the
/// screen that is selected, whichever that is, and for the geometry that was
/// asked for; it asks for that window's pixels from the corner on, on all
/// planes, and for as much of each extent as 16 bits can tell.
pub proof fn law_selected_screen_is_captured(width: u32, height: u32, setup: X11Setup)
    ensures
        ({
            let screen = setup.roots@[setup.screen_num as int];
            let stride = stride_at(setup.pixmap_formats@, screen.root_depth, width);
            match x11_init(width, height, Ok(setup)) {
                Ok(backend) => {
                    &&& backend.window == screen.root
                    &&& backend.width == width
                    &&& backend.height == height
                    &&& stride == Ok::<usize, Seq<char>>(backend.stride)
                    &&& request_of(backend).window == screen.root
                    &&& request_of(backend).x == 0
                    &&& request_of(backend).y == 0
                    &&& request_of(backend).plane_mask == 0xffff_ffffu32
                    &&& (width - request_of(backend).width) % 65536 == 0
                    &&& (height - request_of(backend).height) % 65536 == 0
                },
                Err(message) => stride == Err::<usize, _>(message),
            }
        }),
{
}

/// Every request is for the backend's own window, from its corner on, on all
/// planes; an extent that 16 bits can tell is asked for as it is.
pub proof fn law_requests_are_for_the_own_window(backend: X11CaptureBackend)
    ensures
        request_of(backend).window == backend.window,
        request_of(backend).x == 0,
        request_of(backend).y == 0,
        request_of(backend).plane_mask == 0xffff_ffffu32,
        backend.width < 65536 ==> request_of(backend).width == backend.width,
        backend.height < 65536 ==> request_of(backend).height == backend.height,
        (backend.width - request_of(backend).width) % 65536 == 0,
        (backend.height - request_of(backend).height) % 65536 == 0,
{
}

/// A server that cannot be reached is told of with its error.
pub proof fn law_unreachable_servers_are_told_of(width: u32, height: u32, error: Seq<char>)
    ensures
        x11_init(width, height, Err(error)) == Err::<X11CaptureBackend, _>(
            "X11 connect failed: "@ + error,
        ),
{
}

/// A frame is taken if and only if a line has room for its pixels, the machine
/// can address the image, the image holds all lines and the buffer is one
/// frame. A short image, and nothing else, can be tried again; the others are
/// fatal. Each message tells the numbers.
pub proof fn law_only_whole_images_are_taken(
    backend: X11CaptureBackend,
    image_len: nat,
    buffer_len: nat,
)
    ensures
        ({
            let result = x11_capture(backend, image_len, buffer_len);
            let roomy = backend.stride >= 4 * backend.width;
            let image = backend.height * backend.stride;
            let frame = 4 * (backend.width * backend.height);
            &&& result != Ok::<bool, CaptureErrorView>(false)
            &&& result == Ok::<bool, CaptureErrorView>(true) <==> roomy && image <= usize::MAX
                && image_len >= image && buffer_len == frame
            &&& !roomy ==> result == Err::<bool, _>(
                CaptureErrorView::Fatal(
                    "Resolved X11 stride ("@ + decimal(backend.stride as nat)
                        + ") is smaller than the expected row size ("@ + decimal(
                        (4 * backend.width) as nat,
                    ) + ")"@,
                ),
            )
            &&& roomy && image > usize::MAX ==> result == Err::<bool, _>(
                CaptureErrorView::Fatal("Capture dimensions overflow usize"@),
            )
            &&& roomy && image <= usize::MAX && image_len < image ==> result == Err::<bool, _>(
                CaptureErrorView::Recoverable(
                    "X11 image data has "@ + decimal(image_len) + " bytes; expected at least "@
                        + decimal(image as nat) + " ("@ + decimal(backend.stride as nat)
                        + " bytes/line x "@ + decimal(backend.height as nat) + " lines)"@,
                ),
            )
            &&& roomy && image <= usize::MAX && image_len >= image && buffer_len != frame
                ==> result == Err::<bool, _>(
                CaptureErrorView::Fatal(
                    "Capture buffer has "@ + decimal(buffer_len) + " bytes; expected "@ + decimal(
                        frame as nat,
                    ),
                ),
            )
        }),
{
    assert(backend.height * backend.stride == backend.stride * backend.height)
        by (nonlinear_arith);
    assert(0 <= backend.width * backend.height) by (nonlinear_arith);
    assert(0 <= backend.height * backend.stride) by (nonlinear_arith);
}

} // verus!
