//! The circle example: per-window swapchain state of the windowed renderer,
//! and the pixel checks and image dump of its offscreen self-test.

use vstd::prelude::*;
use vstd::string::StringExecFns;
use crate::surface::Extent2D;

verus! {

/// What went wrong with a swapchain operation.
#[derive(Clone, Copy, Debug, PartialEq, Eq)]
pub enum SwapchainError {
    /// The swapchain no longer matches the surface and must be recreated.
    OutOfDate,
    /// Any other error.
    Other,
}

/// How the circle renderer proceeds with a redraw request.
#[derive(Clone, Copy, Debug, PartialEq, Eq)]
pub enum RedrawStep {
    /// The window has no area: draw nothing.
    Skip,
    /// Draw a frame, recreating the swapchain (for `extent`) first when
    /// `recreate` is set.
    Proceed { recreate: bool, extent: Extent2D },
}

/// What follows an acquire attempt.
#[derive(Clone, Copy, Debug, PartialEq, Eq)]
pub enum AcquireStep {
    /// Draw into this swapchain image.
    Draw { image_index: u32 },
    /// Drop the frame; the swapchain will be recreated on the next redraw.
    Retry,
    /// Stop: acquiring failed.
    Abort,
}

/// What follows flushing the submitted frame.
#[derive(Clone, Copy, Debug, PartialEq, Eq)]
pub enum FlushStep {
    /// Keep the frame's future as the previous frame end.
    Keep,
    /// Start over from a fresh "now" future; the swapchain will be recreated.
    Reset,
    /// Stop: flushing failed.
    Abort,
}

/// The swapchain state of the circle renderer's window.
#[derive(Clone, Copy, Debug, PartialEq, Eq)]
pub struct RenderContext {
    /// The swapchain must be recreated before the next frame.
    pub recreate_swapchain: bool,
    /// The extent of the viewport the pipeline draws into.
    pub viewport_extent: Extent2D,
}

/// The state after a resize.
pub open spec fn resized_spec(s: RenderContext) -> RenderContext {
    RenderContext { recreate_swapchain: true, ..s }
}

/// The state and step after a redraw request for a window of size `window`.
pub open spec fn redraw_spec(s: RenderContext, window: Extent2D) -> (RenderContext, RedrawStep) {
    if window.width == 0 || window.height == 0 {
        (s, RedrawStep::Skip)
    } else {
        (
            RenderContext {
                recreate_swapchain: false,
                viewport_extent: if s.recreate_swapchain {
                    window
                } else {
                    s.viewport_extent
                },
            },
            RedrawStep::Proceed { recreate: s.recreate_swapchain, extent: window },
        )
    }
}

/// The state and step after an acquire attempt.
pub open spec fn acquire_spec(s: RenderContext, acquired: Result<(u32, bool), SwapchainError>) -> (
    RenderContext,
    AcquireStep,
) {
    match acquired {
        Ok((i, suboptimal)) => (
            RenderContext { recreate_swapchain: s.recreate_swapchain || suboptimal, ..s },
            AcquireStep::Draw { image_index: i },
        ),
        Err(SwapchainError::OutOfDate) => (
            RenderContext { recreate_swapchain: true, ..s },
            AcquireStep::Retry,
        ),
        Err(SwapchainError::Other) => (s, AcquireStep::Abort),
    }
}

/// The state and step after flushing a frame.
pub open spec fn flush_spec(s: RenderContext, flushed: Result<(), SwapchainError>) -> (
    RenderContext,
    FlushStep,
) {
    match flushed {
        Ok(()) => (s, FlushStep::Keep),
        Err(SwapchainError::OutOfDate) => (
            RenderContext { recreate_swapchain: true, ..s },
            FlushStep::Reset,
        ),
        Err(SwapchainError::Other) => (s, FlushStep::Abort),
    }
}

impl RenderContext {
    /// A freshly created swapchain for a window of size `window`.
    pub fn new(window: Extent2D) -> (rcx: RenderContext)
        ensures
            !rcx.recreate_swapchain,
            rcx.viewport_extent == window,
    {
        RenderContext { recreate_swapchain: false, viewport_extent: window }
    }

    /// The window was resized: recreate the swapchain before the next frame.
    pub fn resized(&mut self)
        ensures
            *final(self) == resized_spec(*old(self)),
            final(self).recreate_swapchain,
            final(self).viewport_extent == old(self).viewport_extent,
    {
        self.recreate_swapchain = true;
    }

    /// A redraw was requested while the window has size `window`: skip a
    /// window without area; otherwise recreate the swapchain first when it
    /// is due (the viewport then takes the window size).
    pub fn begin_redraw(&mut self, window: Extent2D) -> (step: RedrawStep)
        ensures
            (*final(self), step) == redraw_spec(*old(self), window),
            window.width == 0 || window.height == 0 ==> step == RedrawStep::Skip && *final(self)
                == *old(self),
            window.width != 0 && window.height != 0 ==> {
                &&& step == (RedrawStep::Proceed {
                    recreate: old(self).recreate_swapchain,
                    extent: window,
                })
                &&& !final(self).recreate_swapchain
                &&& final(self).viewport_extent == (if old(self).recreate_swapchain {
                    window
                } else {
                    old(self).viewport_extent
                })
            },
    {
        if window.width == 0 || window.height == 0 {
            return RedrawStep::Skip;
        }
        let recreate = self.recreate_swapchain;
        if recreate {
            self.viewport_extent = window;
            self.recreate_swapchain = false;
        }
        RedrawStep::Proceed { recreate, extent: window }
    }

    /// The result of acquiring an image: draw (and recreate later when the
    /// swapchain is suboptimal), retry after recreation when out of date,
    /// abort on other errors.
    pub fn after_acquire(&mut self, acquired: Result<(u32, bool), SwapchainError>) -> (step:
        AcquireStep)
        ensures
            (*final(self), step) == acquire_spec(*old(self), acquired),
            final(self).viewport_extent == old(self).viewport_extent,
            match acquired {
                Ok((i, suboptimal)) => step == (AcquireStep::Draw { image_index: i })
                    && final(self).recreate_swapchain == (old(self).recreate_swapchain
                    || suboptimal),
                Err(SwapchainError::OutOfDate) => step == AcquireStep::Retry
                    && final(self).recreate_swapchain,
                Err(SwapchainError::Other) => step == AcquireStep::Abort && *final(self)
                    == *old(self),
            },
    {
        match acquired {
            Ok((image_index, suboptimal)) => {
                if suboptimal {
                    self.recreate_swapchain = true;
                }
                AcquireStep::Draw { image_index }
            },
            Err(SwapchainError::OutOfDate) => {
                self.recreate_swapchain = true;
                AcquireStep::Retry
            },
            Err(SwapchainError::Other) => AcquireStep::Abort,
        }
    }

    /// The result of flushing the frame: keep its future, or start over
    /// (recreating the swapchain) when out of date, or abort.
    pub fn after_flush(&mut self, flushed: Result<(), SwapchainError>) -> (step: FlushStep)
        ensures
            (*final(self), step) == flush_spec(*old(self), flushed),
            final(self).viewport_extent == old(self).viewport_extent,
            match flushed {
                Ok(()) => step == FlushStep::Keep && *final(self) == *old(self),
                Err(SwapchainError::OutOfDate) => step == FlushStep::Reset
                    && final(self).recreate_swapchain,
                Err(SwapchainError::Other) => step == FlushStep::Abort && *final(self)
                    == *old(self),
            },
    {
        match flushed {
            Ok(()) => FlushStep::Keep,
            Err(SwapchainError::OutOfDate) => {
                self.recreate_swapchain = true;
                FlushStep::Reset
            },
            Err(SwapchainError::Other) => FlushStep::Abort,
        }
    }
}

/// Byte offset of pixel `(x, y)` in a tightly packed RGBA8 image `width`
/// pixels wide.
pub open spec fn pixel_offset_spec(x: int, y: int, width: int) -> int {
    (y * width + x) * 4
}

/// The image is row-major with four bytes per pixel: the first pixel is at
/// offset 0, one pixel to the right is 4 bytes further, one row down is
/// `4 * width` bytes further; pixels of one row lie in order in one block
/// of `4 * width` bytes, and distinct pixels of a row have disjoint bytes.
pub proof fn lemma_pixel_offset_row_major(x: int, y: int, width: int)
    requires
        0 <= x,
        0 <= y,
        0 <= width,
    ensures
        pixel_offset_spec(0, 0, width) == 0,
        pixel_offset_spec(x + 1, y, width) == pixel_offset_spec(x, y, width) + 4,
        pixel_offset_spec(x, y + 1, width) == pixel_offset_spec(x, y, width) + 4 * width,
        pixel_offset_spec(x, y, width) == pixel_offset_spec(0, y, width) + 4 * x,
        x < width ==> 4 * width * y <= pixel_offset_spec(x, y, width) && pixel_offset_spec(
            x,
            y,
            width,
        ) + 4 <= 4 * width * (y + 1),
{
    assert((y * width + x + 1) * 4 == (y * width + x) * 4 + 4) by (nonlinear_arith);
    assert(((y + 1) * width + x) * 4 == (y * width + x) * 4 + 4 * width) by (nonlinear_arith);
    assert((y * width + x) * 4 == (y * width + 0) * 4 + 4 * x) by (nonlinear_arith);
    assert((0 * width + 0) * 4 == 0) by (nonlinear_arith);
    if x < width {
        assert(4 * width * y <= (y * width + x) * 4 && (y * width + x) * 4 + 4 <= 4 * width * (y
            + 1)) by (nonlinear_arith)
            requires
                0 <= x < width,
                0 <= y,
        ;
    }
}

/// The byte offset of pixel `(x, y)` in an RGBA8 image `width` pixels wide.
pub fn pixel_offset(x: u32, y: u32, width: u32) -> (offset: usize)
    requires
        pixel_offset_spec(x as int, y as int, width as int) <= u32::MAX,
    ensures
        offset == pixel_offset_spec(x as int, y as int, width as int),
        offset == 4 * (y * width + x),
{
    proof {
        assert(0 <= y * width) by (nonlinear_arith);
    }
    ((y * width + x) * 4) as usize
}

/// The red, green and blue bytes of pixel `(x, y)` of an RGBA8 image.
pub fn pixel_rgb(pixels: &Vec<u8>, x: u32, y: u32, width: u32) -> (rgb: [u8; 3])
    requires
        pixel_offset_spec(x as int, y as int, width as int) <= u32::MAX,
        pixel_offset_spec(x as int, y as int, width as int) + 2 < pixels@.len(),
    ensures
        rgb@ == pixels@.subrange(
            pixel_offset_spec(x as int, y as int, width as int),
            pixel_offset_spec(x as int, y as int, width as int) + 3,
        ),
{
    let i = pixel_offset(x, y, width);
    let rgb = [pixels[i], pixels[i + 1], pixels[i + 2]];
    assert(rgb@ =~= pixels@.subrange(i as int, i + 3));
    rgb
}

/// `a` and `b` differ by at most `tolerance`.
pub open spec fn close_spec(a: u8, b: u8, tolerance: u8) -> bool {
    -(tolerance as int) <= a - b <= tolerance
}

/// Closeness of two channel values: it is symmetric and reflexive; with no
/// tolerance only equal values are close; a larger tolerance accepts all
/// that a smaller one does; a difference of exactly the tolerance, either
/// way, is still close and one more is not.
pub proof fn lemma_close_tolerance(a: u8, b: u8, t: u8, wider: u8)
    ensures
        close_spec(a, b, t) == close_spec(b, a, t),
        close_spec(a, a, t),
        close_spec(a, b, 0) <==> a == b,
        t <= wider && close_spec(a, b, t) ==> close_spec(a, b, wider),
        a == b + t ==> close_spec(a, b, t) && close_spec(b, a, t),
        a == b + t + 1 ==> !close_spec(a, b, t) && !close_spec(b, a, t),
{
}

/// Each channel of `actual` is within `tolerance` of the same channel of
/// `expected`.
pub fn rgb_close(actual: [u8; 3], expected: [u8; 3], tolerance: u8) -> (close: bool)
    ensures
        close == (forall|c: int|
            0 <= c < 3 ==> close_spec(#[trigger] actual@[c], expected@[c], tolerance)),
{
    let mut c: usize = 0;
    while c < 3
        invariant
            c <= 3,
            forall|k: int| 0 <= k < c ==> close_spec(#[trigger] actual@[k], expected@[k], tolerance),
        decreases 3 - c,
    {
        let a = actual[c] as i32;
        let b = expected[c] as i32;
        let d = a - b;
        if d < -(tolerance as i32) || d > tolerance as i32 {
            assert(!close_spec(actual@[c as int], expected@[c as int], tolerance));
            return false;
        }
        c = c + 1;
    }
    true
}

/// The red, green and blue bytes of every pixel of an RGBA8 image (a
/// trailing partial pixel is dropped): the body of a binary PPM image.
pub fn rgba_to_rgb(pixels: &Vec<u8>) -> (rgb: Vec<u8>)
    ensures
        rgb@.len() == (pixels@.len() / 4) * 3,
        forall|p: int, c: int|
            0 <= p < pixels@.len() / 4 && 0 <= c < 3 ==> #[trigger] rgb@[3 * p + c] == pixels@[4
                * p + c],
{
    let n = pixels.len() / 4;
    let mut rgb: Vec<u8> = Vec::new();
    let mut p: usize = 0;
    while p < n
        invariant
            n == pixels@.len() / 4,
            n == pixels.len() / 4,
            p <= n,
            rgb@.len() == 3 * p,
            forall|q: int, c: int|
                0 <= q < p && 0 <= c < 3 ==> #[trigger] rgb@[3 * q + c] == pixels@[4 * q + c],
        decreases n - p,
    {
        assert(4 * p + 4 <= pixels.len());
        let base = 4 * p;
        rgb.push(pixels[base]);
        rgb.push(pixels[base + 1]);
        rgb.push(pixels[base + 2]);
        assert forall|q: int, c: int| 0 <= q < p + 1 && 0 <= c < 3 implies #[trigger] rgb@[3 * q
            + c] == pixels@[4 * q + c] by {
            if q < p {
                assert(3 * q + c < 3 * p);
            } else {
                assert(q == p);
            }
        }
        p = p + 1;
    }
    rgb
}

/// The decimal digits of `v`, without leading zeros.
pub open spec fn decimal(v: nat) -> Seq<char>
    decreases v,
{
    if v < 10 {
        seq![(48 + v) as char]
    } else {
        decimal(v / 10).push((48 + v % 10) as char)
    }
}

/// `u32::to_string`: the decimal representation, as `Display` for integers
/// writes it.
#[verifier::external_body]
fn u32_to_string(v: u32) -> (s: String)
    ensures
        s@ == decimal(v as nat),
{
    v.to_string()
}

/// The header of a binary (P6) PPM image of 8-bit channels.
pub fn ppm_header(width: u32, height: u32) -> (header: String)
    ensures
        header@ == "P6\n"@ + decimal(width as nat) + " "@ + decimal(height as nat) + "\n255\n"@,
{
    let mut header = String::from_str("P6\n");
    header.append(u32_to_string(width).as_str());
    header.append(" ");
    header.append(u32_to_string(height).as_str());
    header.append("\n255\n");
    header
}

/// Whatever asked for a new swapchain (a resize, an out-of-date or
/// suboptimal acquire, an out-of-date flush), the next redraw of a window
/// with area recreates it for the window's size, after which nothing is
/// pending; a redraw of a window without area leaves the request pending.
pub proof fn lemma_recreation_on_next_redraw(s: RenderContext, window: Extent2D, i: u32)
    ensures
        forall|t: RenderContext|
            #![trigger redraw_spec(t, window)]
            t == resized_spec(s) || t == acquire_spec(s, Err(SwapchainError::OutOfDate)).0 || t
                == acquire_spec(s, Ok((i, true))).0 || t == flush_spec(
                s,
                Err(SwapchainError::OutOfDate),
            ).0 ==> {
                &&& t.recreate_swapchain
                &&& (window.width != 0 && window.height != 0) ==> redraw_spec(t, window) == (
                    RenderContext { recreate_swapchain: false, viewport_extent: window },
                    RedrawStep::Proceed { recreate: true, extent: window },
                )
                &&& (window.width == 0 || window.height == 0) ==> redraw_spec(
                    t,
                    window,
                ).0.recreate_swapchain
            },
{
}

/// A frame that is drawn and flushed without trouble leaves the swapchain
/// state as the redraw left it: nothing to recreate.
pub proof fn lemma_clean_frame_keeps_swapchain(s: RenderContext, window: Extent2D, i: u32)
    requires
        window.width != 0,
        window.height != 0,
    ensures
        ({
            let (after_redraw, _) = redraw_spec(s, window);
            let (after_acquire, step) = acquire_spec(after_redraw, Ok((i, false)));
            let (after_flush, flushed) = flush_spec(after_acquire, Ok(()));
            &&& step == AcquireStep::Draw { image_index: i }
            &&& flushed == FlushStep::Keep
            &&& !after_flush.recreate_swapchain
            &&& after_flush == after_redraw
        }),
{
}

} // verus!
