//! The test-frame source: which frame is produced on each request, what it
//! looks like, and how its pixels are written into a mapped video plane.

use vstd::prelude::*;

verus! {

/// Number of frames the source produces before it ends the stream.
pub const FRAME_BUDGET: u64 = 50;

/// Time between two frames, in milliseconds (two frames per second).
pub const FRAME_INTERVAL_MS: u64 = 500;

/// Nanoseconds in one millisecond.
pub const NANOS_PER_MSEC: u64 = 1_000_000;

/// The colour of a solid frame. In memory a pixel is the four bytes
/// blue, green, red and one unused byte.
#[derive(Clone, Copy, Debug, PartialEq, Eq, Structural)]
pub struct SolidColor {
    pub r: u8,
    pub g: u8,
    pub b: u8,
}

/// One frame that the source asks to be pushed.
#[derive(Clone, Copy, Debug, PartialEq, Eq, Structural)]
pub struct Frame {
    /// Position of the frame in the stream, counted from zero.
    pub index: u64,
    /// Colour of every pixel of the frame.
    pub color: SolidColor,
    /// Presentation time stamp in nanoseconds.
    pub pts_ns: u64,
}

/// What the source answers to a request for data.
#[derive(Clone, Copy, Debug, PartialEq, Eq, Structural)]
pub enum FrameAction {
    /// Push this frame.
    Push(Frame),
    /// The budget is used up: end the stream.
    EndOfStream,
}

/// A channel is dark on every `period`-th frame and fully lit otherwise.
pub open spec fn channel_level(index: u64, period: u64) -> u8 {
    if index % period == 0 {
        0
    } else {
        255
    }
}

/// Colour of the frame at `index`: red blinks with period 2, green with
/// period 3, blue with period 5.
pub open spec fn color_of(index: u64) -> SolidColor {
    SolidColor { r: channel_level(index, 2), g: channel_level(index, 3), b: channel_level(index, 5) }
}

/// Presentation time of the frame at `index`, in nanoseconds.
pub open spec fn pts_of(index: u64) -> int {
    index * FRAME_INTERVAL_MS * NANOS_PER_MSEC
}

/// The frame at `index` of the stream.
pub open spec fn frame_at(index: u64) -> Frame
    recommends
        index < FRAME_BUDGET,
{
    Frame { index, color: color_of(index), pts_ns: pts_of(index) as u64 }
}

/// Answer of a source that has produced `produced` frames so far.
pub open spec fn action_at(produced: nat) -> FrameAction {
    if produced < FRAME_BUDGET {
        FrameAction::Push(frame_at(produced as u64))
    } else {
        FrameAction::EndOfStream
    }
}

/// Number of frames produced once a source that had produced `produced`
/// frames has answered one more request.
pub open spec fn produced_next(produced: nat) -> nat {
    if produced < FRAME_BUDGET {
        produced + 1
    } else {
        produced
    }
}

/// Number of frames a fresh source has produced after `requests` requests.
pub open spec fn produced_after(requests: nat) -> nat
    decreases requests,
{
    if requests == 0 {
        0
    } else {
        produced_next(produced_after((requests - 1) as nat))
    }
}

/// Computes the colour of the frame at `index`.
pub fn frame_color(index: u64) -> (color: SolidColor)
    ensures
        color == color_of(index),
{
    let r: u8 = if index % 2 == 0 { 0 } else { 255 };
    let g: u8 = if index % 3 == 0 { 0 } else { 255 };
    let b: u8 = if index % 5 == 0 { 0 } else { 255 };
    SolidColor { r, g, b }
}

/// Computes the presentation time of the frame at `index`, in nanoseconds.
pub fn frame_pts(index: u64) -> (pts_ns: u64)
    requires
        index < FRAME_BUDGET,
    ensures
        pts_ns == pts_of(index),
{
    index * FRAME_INTERVAL_MS * NANOS_PER_MSEC
}

/// Counts the frames handed out and stops at the budget.
pub struct FrameSource {
    next: u64,
}

impl FrameSource {
    #[verifier::type_invariant]
    spec fn within_budget(&self) -> bool {
        self.next <= FRAME_BUDGET
    }

    /// Number of frames produced so far.
    pub closed spec fn produced(&self) -> nat {
        self.next as nat
    }

    /// A source that has produced nothing yet.
    pub fn new() -> (source: FrameSource)
        ensures
            source.produced() == 0,
    {
        FrameSource { next: 0 }
    }

    /// Number of frames produced so far.
    pub fn frames_produced(&self) -> (n: u64)
        ensures
            n == self.produced(),
            n <= FRAME_BUDGET,
    {
        proof {
            use_type_invariant(self);
        }
        self.next
    }

    /// Answers one request for data: the next frame while the budget lasts,
    /// the end of the stream from then on.
    pub fn need_data(&mut self) -> (action: FrameAction)
        ensures
            action == action_at(old(self).produced()),
            final(self).produced() == produced_next(old(self).produced()),
    {
        proof {
            use_type_invariant(&*self);
        }
        if self.next == FRAME_BUDGET {
            return FrameAction::EndOfStream;
        }
        let index: u64 = self.next;
        let frame = Frame { index, color: frame_color(index), pts_ns: frame_pts(index) };
        self.next = index + 1;
        FrameAction::Push(frame)
    }
}

/// A fresh source has produced as many frames as it was asked for, up to
/// the budget, and never more.
pub proof fn lemma_produced_after(requests: nat)
    ensures
        produced_after(requests) == if requests <= FRAME_BUDGET {
            requests
        } else {
            FRAME_BUDGET as nat
        },
    decreases requests,
{
    if requests > 0 {
        lemma_produced_after((requests - 1) as nat);
    }
}

/// A fresh source answers its first `FRAME_BUDGET` requests with the frames
/// of the stream in order, and every later request with the end of the
/// stream: it emits exactly `FRAME_BUDGET` frames.
pub proof fn lemma_exactly_budget_frames(request: nat)
    ensures
        request < FRAME_BUDGET ==> action_at(produced_after(request)) == FrameAction::Push(
            frame_at(request as u64),
        ),
        request >= FRAME_BUDGET ==> action_at(produced_after(request)) == FrameAction::EndOfStream,
{
    lemma_produced_after(request);
}

/// Byte of a pixel of `color` at `offset` bytes from the start of its line.
pub open spec fn pixel_byte(color: SolidColor, offset: int) -> u8 {
    let channel = offset % 4;
    if channel == 0 {
        color.b
    } else if channel == 1 {
        color.g
    } else if channel == 2 {
        color.r
    } else {
        0
    }
}

/// Number of lines of a plane of `len` bytes that a fill touches: the
/// `height` lines asked for, or as many whole lines as the plane holds.
pub open spec fn lines_filled(len: int, height: int, stride: int) -> int {
    if height <= len / stride {
        height
    } else {
        len / stride
    }
}

/// Byte `k` of a plane after the first `width` pixels of each of its first
/// `height` lines were painted in `color`; a line takes `stride` bytes.
pub open spec fn filled_byte(
    plane: Seq<u8>,
    k: int,
    width: int,
    height: int,
    stride: int,
    color: SolidColor,
) -> u8 {
    if k / stride < lines_filled(plane.len() as int, height, stride) && k % stride < 4 * width {
        pixel_byte(color, k % stride)
    } else {
        plane[k]
    }
}

/// A plane after the first `width` pixels of each of its first `height`
/// lines were painted in `color`.
pub open spec fn filled(plane: Seq<u8>, width: int, height: int, stride: int, color: SolidColor) -> Seq<
    u8,
> {
    Seq::new(plane.len(), |k: int| filled_byte(plane, k, width, height, stride, color))
}

proof fn lemma_line_and_column(k: int, line: int, stride: int)
    requires
        stride > 0,
        line * stride <= k < (line + 1) * stride,
    ensures
        k / stride == line,
        k % stride == k - line * stride,
{
    assert((line + 1) * stride == line * stride + stride) by (nonlinear_arith);
    vstd::arithmetic::div_mod::lemma_fundamental_div_mod_converse(k, stride, line, k - line * stride);
}

proof fn lemma_beyond_lines(k: int, lines: int, stride: int)
    requires
        stride > 0,
        lines >= 0,
        lines * stride <= k,
    ensures
        k / stride >= lines,
{
    assert(lines * stride == stride * lines) by (nonlinear_arith);
    vstd::arithmetic::div_mod::lemma_div_is_ordered(stride * lines, k, stride);
    vstd::arithmetic::div_mod::lemma_div_multiples_vanish(lines, stride);
}

proof fn lemma_lines_fit(len: int, lines: int, stride: int)
    requires
        stride > 0,
        len >= 0,
        0 <= lines <= len / stride,
    ensures
        lines * stride <= len,
{
    vstd::arithmetic::div_mod::lemma_fundamental_div_mod(len, stride);
    vstd::arithmetic::div_mod::lemma_mod_bound(len, stride);
    assert(lines * stride <= (len / stride) * stride) by (nonlinear_arith)
        requires
            lines <= len / stride,
            stride > 0,
    ;
    assert((len / stride) * stride == stride * (len / stride)) by (nonlinear_arith);
}

/// Where a plane holds exactly `height` lines of `width` pixels with nothing
/// between them, a fill leaves every pixel of the plane in `color`.
pub proof fn lemma_packed_frame_is_solid(plane: Seq<u8>, width: int, height: int, color: SolidColor)
    requires
        0 <= width,
        0 <= height,
        plane.len() == 4 * width * height,
    ensures
        filled(plane, width, height, 4 * width, color).len() == plane.len(),
        forall|k: int|
            0 <= k < plane.len() ==> #[trigger] filled(plane, width, height, 4 * width, color)[k]
                == pixel_byte(color, k),
{
    let stride = 4 * width;
    assert forall|k: int| 0 <= k < plane.len() implies #[trigger] filled(
        plane,
        width,
        height,
        stride,
        color,
    )[k] == pixel_byte(color, k) by {
        assert(0 < width && 4 * width * height == stride * height) by (nonlinear_arith)
            requires
                0 <= k < 4 * width * height,
                0 <= width,
                stride == 4 * width,
        ;
        vstd::arithmetic::div_mod::lemma_div_multiples_vanish(height, stride);
        vstd::arithmetic::div_mod::lemma_fundamental_div_mod(k, stride);
        vstd::arithmetic::div_mod::lemma_mod_bound(k, stride);
        assert(k / stride < height) by (nonlinear_arith)
            requires
                0 <= k < stride * height,
                0 < stride,
                k == stride * (k / stride) + k % stride,
                0 <= k % stride < stride,
        ;
        vstd::arithmetic::div_mod::lemma_mod_mod(k, 4, width);
    }
}

/// Paints the first `width` pixels of each of the first `height` lines of
/// `data` in `color`, where a line takes `stride` bytes. Bytes between the
/// end of the pixels and the end of a line, and bytes behind the last whole
/// line, stay as they are. A line must have room for its pixels, unless no
/// line is painted at all.
pub fn fill_frame(data: &mut [u8], width: usize, height: usize, stride: usize, color: SolidColor)
    requires
        stride > 0,
        lines_filled(old(data)@.len() as int, height as int, stride as int) > 0 ==> 4 * width
            <= stride,
    ensures
        final(data)@ == filled(old(data)@, width as int, height as int, stride as int, color),
{
    let len: usize = data.len();
    let whole: usize = len / stride;
    let lines: usize = if height <= whole { height } else { whole };
    let mut line: usize = 0;
    proof {
        lemma_lines_fit(len as int, lines as int, stride as int);
    }
    while line < lines
        invariant
            stride > 0,
            lines > 0 ==> 4 * width <= stride,
            len == old(data)@.len(),
            data@.len() == len,
            lines == lines_filled(len as int, height as int, stride as int),
            lines * stride <= len,
            line <= lines,
            forall|k: int|
                0 <= k < line * stride ==> data@[k] == filled_byte(
                    old(data)@,
                    k,
                    width as int,
                    height as int,
                    stride as int,
                    color,
                ),
            forall|k: int| line * stride <= k < len ==> data@[k] == old(data)@[k],
        decreases lines - line,
    {
        assert((line + 1) * stride <= lines * stride) by (nonlinear_arith)
            requires
                line + 1 <= lines,
                stride > 0,
        ;
        assert((line + 1) * stride == line * stride + stride) by (nonlinear_arith);
        let base: usize = line * stride;
        let mut x: usize = 0;
        while x < width
            invariant
                stride > 0,
                4 * width <= stride,
                data@.len() == len,
                len == old(data)@.len(),
                base == line * stride,
                base + stride <= len,
                x <= width,
                forall|k: int| 0 <= k < base ==> data@[k] == filled_byte(
                    old(data)@,
                    k,
                    width as int,
                    height as int,
                    stride as int,
                    color,
                ),
                forall|k: int| base <= k < base + 4 * x ==> data@[k] == pixel_byte(color, k - base),
                forall|k: int| base + 4 * x <= k < len ==> data@[k] == old(data)@[k],
            decreases width - x,
        {
            let at: usize = base + 4 * x;
            data[at] = color.b;
            data[at + 1] = color.g;
            data[at + 2] = color.r;
            data[at + 3] = 0;
            x += 1;
        }
        proof {
            assert forall|k: int| 0 <= k < (line + 1) * stride implies data@[k] == filled_byte(
                old(data)@,
                k,
                width as int,
                height as int,
                stride as int,
                color,
            ) by {
                if k >= base {
                    lemma_line_and_column(k, line as int, stride as int);
                }
            }
        }
        line += 1;
    }
    proof {
        assert forall|k: int| 0 <= k < len implies data@[k] == filled_byte(
            old(data)@,
            k,
            width as int,
            height as int,
            stride as int,
            color,
        ) by {
            if k >= lines * stride {
                lemma_beyond_lines(k, lines as int, stride as int);
            }
        }
    }
}

} // verus!
