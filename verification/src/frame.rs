//! The pixel normalizer: turns a native framebuffer (4 bytes per pixel in
//! blue-green-red-pad order, rows possibly padded to a stride) into a dense
//! row-major RGB buffer with no padding.

use vstd::prelude::*;

verus! {

use vstd::arithmetic::div_mod::lemma_fundamental_div_mod;
use vstd::arithmetic::div_mod::lemma_mod_bound;

/// Holds when the pixel of `dst` at `(x, y)` is the normalization of the
/// 4-byte record of `src` at `(x, y)`: the record's bytes are, in order,
/// blue, green, red and padding, and the output triplet is red, green, blue.
/// The padding byte at `y * stride + 4 * x + 3` is not consulted.
pub open spec fn pixel_normalized(
    src: Seq<u8>,
    dst: Seq<u8>,
    width: int,
    stride: int,
    x: int,
    y: int,
) -> bool {
    &&& dst[3 * (y * width + x)] == src[y * stride + 4 * x + 2]
    &&& dst[3 * (y * width + x) + 1] == src[y * stride + 4 * x + 1]
    &&& dst[3 * (y * width + x) + 2] == src[y * stride + 4 * x]
}

/// Holds when `dst` is the dense RGB normalization of the raw buffer `src`:
/// exactly `3 * width * height` bytes, every pixel normalized.
pub open spec fn frame_normalized(
    src: Seq<u8>,
    dst: Seq<u8>,
    width: int,
    height: int,
    stride: int,
) -> bool {
    &&& dst.len() == 3 * width * height
    &&& forall|y: int, x: int|
        0 <= y < height && 0 <= x < width ==> #[trigger] pixel_normalized(
            src,
            dst,
            width,
            stride,
            x,
            y,
        )
}

/// A raw capture result as the display server hands it out: `width * height`
/// pixels of 4 bytes each in blue-green-red-pad order, each row occupying
/// `stride` bytes of the buffer (`stride` may exceed `4 * width`; the excess
/// is alignment padding).
pub struct RawFrame {
    width: u16,
    height: u16,
    stride: usize,
    data: Vec<u8>,
}

impl RawFrame {
    /// The width in pixels.
    pub closed spec fn spec_width(&self) -> u16 {
        self.width
    }

    /// The height in pixels.
    pub closed spec fn spec_height(&self) -> u16 {
        self.height
    }

    /// The row length in bytes.
    pub closed spec fn spec_stride(&self) -> usize {
        self.stride
    }

    /// The raw buffer contents.
    pub closed spec fn spec_data(&self) -> Seq<u8> {
        self.data@
    }

    /// Well-formedness: each row holds its `width` 4-byte records, and the
    /// buffer holds exactly `height` rows of `stride` bytes.
    pub open spec fn wf(&self) -> bool {
        &&& self.spec_stride() >= 4 * self.spec_width()
        &&& self.spec_data().len() == self.spec_height() * self.spec_stride()
    }

    /// Builds a raw frame from its parts, accepting exactly the well-formed
    /// combinations: a stride of at least `4 * width` bytes and a buffer of
    /// exactly `height * stride` bytes.
    pub fn new(width: u16, height: u16, stride: usize, data: Vec<u8>) -> (r: Option<RawFrame>)
        ensures
            r is Some <==> stride >= 4 * width && data@.len() == height * stride,
            r matches Some(f) ==> {
                &&& f.spec_width() == width
                &&& f.spec_height() == height
                &&& f.spec_stride() == stride
                &&& f.spec_data() == data@
                &&& f.wf()
            },
    {
        let len: usize = data.len();
        if stride < 4 * (width as usize) {
            return None;
        }
        match (height as usize).checked_mul(stride) {
            Some(expected) if expected == len => Some(RawFrame { width, height, stride, data }),
            _ => None,
        }
    }

    /// The width in pixels.
    pub fn width(&self) -> (r: u16)
        ensures
            r == self.spec_width(),
    {
        self.width
    }

    /// The height in pixels.
    pub fn height(&self) -> (r: u16)
        ensures
            r == self.spec_height(),
    {
        self.height
    }

    /// The row length in bytes.
    pub fn stride(&self) -> (r: usize)
        ensures
            r == self.spec_stride(),
    {
        self.stride
    }

    /// Whether the frame is well-formed; [`RawFrame::new`] only builds
    /// well-formed frames, and this re-checks the same conditions.
    pub fn is_wf(&self) -> (r: bool)
        ensures
            r == self.wf(),
    {
        let len: usize = self.data.len();
        if self.stride < 4 * (self.width as usize) {
            return false;
        }
        match (self.height as usize).checked_mul(self.stride) {
            Some(expected) => expected == len,
            None => false,
        }
    }

    /// An owned copy with the same geometry and buffer contents.
    pub fn duplicate(&self) -> (r: RawFrame)
        ensures
            r.spec_width() == self.spec_width(),
            r.spec_height() == self.spec_height(),
            r.spec_stride() == self.spec_stride(),
            r.spec_data() == self.spec_data(),
    {
        let mut data: Vec<u8> = Vec::new();
        let n = self.data.len();
        let mut i: usize = 0;
        while i < n
            invariant
                i <= n,
                n == self.spec_data().len(),
                data@ =~= self.spec_data().subrange(0, i as int),
            decreases n - i,
        {
            data.push(self.data[i]);
            proof {
                assert(data@ =~= self.spec_data().subrange(0, i + 1));
            }
            i = i + 1;
        }
        proof {
            assert(data@ =~= self.spec_data());
        }
        RawFrame { width: self.width, height: self.height, stride: self.stride, data }
    }
}

/// A dense RGB image: `width * height` pixels of 3 bytes each in
/// red-green-blue order, row-major, with no padding anywhere.
pub struct RgbImage {
    width: u32,
    height: u32,
    data: Vec<u8>,
}

impl RgbImage {
    /// The width in pixels.
    pub closed spec fn spec_width(&self) -> u32 {
        self.width
    }

    /// The height in pixels.
    pub closed spec fn spec_height(&self) -> u32 {
        self.height
    }

    /// The pixel buffer contents.
    pub closed spec fn spec_data(&self) -> Seq<u8> {
        self.data@
    }

    /// Well-formedness: the buffer holds exactly `3 * width * height` bytes.
    pub open spec fn wf(&self) -> bool {
        self.spec_data().len() == 3 * self.spec_width() * self.spec_height()
    }

    /// Builds an image from a buffer already known to be dense.
    pub(crate) fn from_parts(width: u32, height: u32, data: Vec<u8>) -> (r: RgbImage)
        requires
            data@.len() == 3 * width * height,
        ensures
            r.spec_width() == width,
            r.spec_height() == height,
            r.spec_data() == data@,
            r.wf(),
    {
        RgbImage { width, height, data }
    }

    /// The width in pixels.
    pub fn width(&self) -> (r: u32)
        ensures
            r == self.spec_width(),
    {
        self.width
    }

    /// The height in pixels.
    pub fn height(&self) -> (r: u32)
        ensures
            r == self.spec_height(),
    {
        self.height
    }

    /// The pixel buffer: `3 * width * height` bytes, one red-green-blue
    /// triplet per pixel.
    pub fn as_raw(&self) -> (r: &Vec<u8>)
        ensures
            r@ == self.spec_data(),
    {
        &self.data
    }
}

/// Converts a raw frame into its dense RGB normalization: for every pixel the
/// record's red, green and blue bytes are emitted in that order, the padding
/// byte and the per-row alignment tail are dropped.
#[verifier::loop_isolation(false)]
pub fn normalize(frame: &RawFrame) -> (img: RgbImage)
    requires
        frame.wf(),
    ensures
        img.spec_width() == frame.spec_width(),
        img.spec_height() == frame.spec_height(),
        img.wf(),
        frame_normalized(
            frame.spec_data(),
            img.spec_data(),
            frame.spec_width() as int,
            frame.spec_height() as int,
            frame.spec_stride() as int,
        ),
{
    let w: usize = frame.width as usize;
    let h: usize = frame.height as usize;
    let stride: usize = frame.stride;
    let total: usize = frame.data.len();
    proof {
        assert(total == frame.spec_data().len());
    }
    let mut out: Vec<u8> = Vec::new();
    let mut y: usize = 0;
    while y < h
        invariant
            y <= h,
            out@.len() == 3 * (w * y),
            forall|yy: int, xx: int|
                0 <= yy < y && 0 <= xx < w ==> #[trigger] pixel_normalized(
                    frame.spec_data(),
                    out@,
                    w as int,
                    stride as int,
                    xx,
                    yy,
                ),
        decreases h - y,
    {
        proof {
            assert((y + 1) * stride <= h * stride && y * stride + stride == (y + 1) * stride)
                by (nonlinear_arith)
                requires
                    y < h,
                    stride >= 0,
            ;
        }
        let row: usize = y * stride;
        let mut x: usize = 0;
        while x < w
            invariant
                x <= w,
                row == y * stride,
                row + stride <= frame.spec_data().len(),
                out@.len() == 3 * (w * y + x),
                forall|yy: int, xx: int|
                    0 <= yy < y && 0 <= xx < w ==> #[trigger] pixel_normalized(
                        frame.spec_data(),
                        out@,
                        w as int,
                        stride as int,
                        xx,
                        yy,
                    ),
                forall|xx: int|
                    0 <= xx < x ==> #[trigger] pixel_normalized(
                        frame.spec_data(),
                        out@,
                        w as int,
                        stride as int,
                        xx,
                        y as int,
                    ),
            decreases w - x,
        {
            let s: usize = row + 4 * x;
            let ghost old_out = out@;
            out.push(frame.data[s + 2]);
            out.push(frame.data[s + 1]);
            out.push(frame.data[s]);
            proof {
                assert(out@ =~= old_out + seq![
                    frame.spec_data()[s + 2],
                    frame.spec_data()[s + 1],
                    frame.spec_data()[s as int],
                ]);
                assert forall|yy: int, xx: int|
                    0 <= yy < y && 0 <= xx < w implies #[trigger] pixel_normalized(
                    frame.spec_data(),
                    out@,
                    w as int,
                    stride as int,
                    xx,
                    yy,
                ) by {
                    assert(pixel_normalized(
                        frame.spec_data(),
                        old_out,
                        w as int,
                        stride as int,
                        xx,
                        yy,
                    ));
                    assert(3 * (yy * w + xx) + 2 < old_out.len()) by (nonlinear_arith)
                        requires
                            0 <= yy < y,
                            0 <= xx < w,
                            old_out.len() == 3 * (w * y + x),
                            0 <= x,
                    ;
                }
                assert forall|xx: int| 0 <= xx < x + 1 implies #[trigger] pixel_normalized(
                    frame.spec_data(),
                    out@,
                    w as int,
                    stride as int,
                    xx,
                    y as int,
                ) by {
                    if xx < x {
                        assert(pixel_normalized(
                            frame.spec_data(),
                            old_out,
                            w as int,
                            stride as int,
                            xx,
                            y as int,
                        ));
                        assert(3 * (y * w + xx) + 2 < old_out.len()) by (nonlinear_arith)
                            requires
                                0 <= xx < x,
                                old_out.len() == 3 * (w * y + x),
                                0 <= y,
                                w == w,
                        ;
                    } else {
                        assert(3 * (y * w + xx) == old_out.len() && y * stride + 4 * xx == s)
                            by (nonlinear_arith)
                            requires
                                xx == x,
                                old_out.len() == 3 * (w * y + x),
                                s == y * stride + 4 * x,
                                w as int * y as int == y as int * w as int,
                        ;
                    }
                }
            }
            x = x + 1;
        }
        proof {
            assert(w * y + w == w * (y + 1)) by (nonlinear_arith);
        }
        y = y + 1;
    }
    proof {
        assert(3 * (w * h) == 3 * w as int * h as int) by (nonlinear_arith);
    }
    RgbImage::from_parts(frame.width as u32, frame.height as u32, out)
}

/// The row of the pixel that owns byte `o` of a dense image of the given
/// width.
pub open spec fn byte_row(o: int, width: int) -> int {
    o / (3 * width)
}

/// The column of the pixel that owns byte `o` of a dense image of the given
/// width.
pub open spec fn byte_col(o: int, width: int) -> int {
    (o % (3 * width)) / 3
}

/// The channel (0 red, 1 green, 2 blue) that byte `o` of a dense image
/// holds.
pub open spec fn byte_channel(o: int, width: int) -> int {
    (o % (3 * width)) % 3
}

/// Every byte of a dense `width * height` image belongs to exactly one pixel
/// and one channel: the flat index decomposes as
/// `o == 3 * (row * width + col) + channel` with all three parts in range.
pub proof fn lemma_byte_owner(o: int, width: int, height: int)
    requires
        width > 0,
        0 <= o < 3 * width * height,
    ensures
        0 <= byte_row(o, width) < height,
        0 <= byte_col(o, width) < width,
        0 <= byte_channel(o, width) < 3,
        o == 3 * (byte_row(o, width) * width + byte_col(o, width)) + byte_channel(o, width),
{
    let rw = 3 * width;
    let row = o / rw;
    let rest = o % rw;
    lemma_fundamental_div_mod(o, rw);
    lemma_mod_bound(o, rw);
    lemma_fundamental_div_mod(rest, 3);
    lemma_mod_bound(rest, 3);
    assert(0 <= row < height && 0 <= rest / 3 < width) by (nonlinear_arith)
        requires
            width > 0,
            rw == 3 * width,
            0 <= o < 3 * width * height,
            o == rw * row + rest,
            0 <= rest < rw,
            rest == 3 * (rest / 3) + rest % 3,
            0 <= rest % 3 < 3,
    ;
    assert(o == 3 * (row * width + rest / 3) + rest % 3) by (nonlinear_arith)
        requires
            rw == 3 * width,
            o == rw * row + rest,
            rest == 3 * (rest / 3) + rest % 3,
    ;
}

/// Holds when two raw buffers hold the same blue, green and red bytes in the
/// record of pixel `(x, y)`; their padding bytes may differ.
pub open spec fn records_agree(src1: Seq<u8>, src2: Seq<u8>, stride: int, x: int, y: int) -> bool {
    &&& src1[y * stride + 4 * x] == src2[y * stride + 4 * x]
    &&& src1[y * stride + 4 * x + 1] == src2[y * stride + 4 * x + 1]
    &&& src1[y * stride + 4 * x + 2] == src2[y * stride + 4 * x + 2]
}

/// Normalization drops every padding byte: two raw buffers that agree on the
/// blue, green and red byte of every record — while their fourth record
/// bytes and their per-row alignment tails may differ arbitrarily — have
/// byte-for-byte equal normalizations.
pub proof fn lemma_normalization_drops_padding(
    src1: Seq<u8>,
    src2: Seq<u8>,
    dst1: Seq<u8>,
    dst2: Seq<u8>,
    width: int,
    height: int,
    stride: int,
)
    requires
        width >= 0,
        height >= 0,
        frame_normalized(src1, dst1, width, height, stride),
        frame_normalized(src2, dst2, width, height, stride),
        forall|y: int, x: int|
            0 <= y < height && 0 <= x < width ==> #[trigger] records_agree(src1, src2, stride, x, y),
    ensures
        dst1 =~= dst2,
{
    assert forall|o: int| 0 <= o < dst1.len() implies dst1[o] == dst2[o] by {
        assert(width > 0) by (nonlinear_arith)
            requires
                0 <= o < 3 * width * height,
                width >= 0,
        ;
        lemma_byte_owner(o, width, height);
        let y = byte_row(o, width);
        let x = byte_col(o, width);
        let c = byte_channel(o, width);
        assert(pixel_normalized(src1, dst1, width, stride, x, y));
        assert(pixel_normalized(src2, dst2, width, stride, x, y));
        assert(records_agree(src1, src2, stride, x, y));
    }
}

/// Normalization never reads the alignment tail of a row: every byte of the
/// normalized image is copied from a source offset that lies within the
/// first `4 * width` bytes of its row, never in the `[4 * width, stride)`
/// padding region, and never from a record's fourth (padding) byte.
pub proof fn lemma_padding_region_never_read(
    src: Seq<u8>,
    dst: Seq<u8>,
    width: int,
    height: int,
    stride: int,
    o: int,
)
    requires
        width >= 0,
        height >= 0,
        frame_normalized(src, dst, width, height, stride),
        0 <= o < dst.len(),
    ensures
        ({
            let y = byte_row(o, width);
            let x = byte_col(o, width);
            let c = byte_channel(o, width);
            &&& 0 <= y < height
            &&& 0 <= x < width
            &&& 0 <= c < 3
            &&& o == 3 * (y * width + x) + c
            &&& dst[o] == src[y * stride + 4 * x + (2 - c)]
            &&& 4 * x + (2 - c) < 4 * width
        }),
{
    assert(width > 0) by (nonlinear_arith)
        requires
            0 <= o < 3 * width * height,
            width >= 0,
    ;
    lemma_byte_owner(o, width, height);
    let y = byte_row(o, width);
    let x = byte_col(o, width);
    assert(pixel_normalized(src, dst, width, stride, x, y));
}

} // verus!
