//! Assembly of raw scan frames into a decoded image.
use vstd::prelude::*;

use crate::scan::FrameParameters;
use crate::sys;

verus! {

/// Configures a [`FrameDecoder`] before decoding starts.
#[derive(Debug, Clone)]
pub struct Builder {
    buffer: Vec<u8>,
    black_and_white_as_bytes: bool,
}

impl Builder {
    /// The buffer that decoded data is appended to.
    pub closed spec fn spec_buffer(&self) -> Seq<u8> {
        self.buffer@
    }

    /// Whether black and white pixels are decoded one byte each.
    pub closed spec fn spec_bw_as_bytes(&self) -> bool {
        self.black_and_white_as_bytes
    }

    pub fn new() -> (r: Self)
        ensures
            r.spec_buffer() == Seq::<u8>::empty(),
            !r.spec_bw_as_bytes(),
    {
        Builder { buffer: Vec::new(), black_and_white_as_bytes: false }
    }

    pub fn build(self) -> (r: FrameDecoder)
        ensures
            r@ == initial_model(self.spec_buffer(), self.spec_bw_as_bytes()),
    {
        FrameDecoder {
            buffer: self.buffer,
            image: Vec::new(),
            state: FrameDecoderState::Initial,
            width: 0,
            height: 0,
            black_and_white_as_bytes: self.black_and_white_as_bytes,
        }
    }

    /// By default, black and white images are represented as a packed big-endian bitmap.
    /// Setting this to true will store every pixel as a byte with value `0` or `1`.
    pub fn decode_black_and_white_as_bytes(self, do_it: bool) -> (r: Self)
        ensures
            r.spec_buffer() == self.spec_buffer(),
            r.spec_bw_as_bytes() == do_it,
    {
        Builder { buffer: self.buffer, black_and_white_as_bytes: do_it }
    }

    /// Decoded data will be appended to `buffer`.
    pub fn with_buffer(self, buffer: Vec<u8>) -> (r: Self)
        ensures
            r.spec_buffer() == buffer@,
            r.spec_bw_as_bytes() == self.spec_bw_as_bytes(),
    {
        Builder { buffer, black_and_white_as_bytes: self.black_and_white_as_bytes }
    }
}

impl Default for Builder {
    fn default() -> (r: Self)
        ensures
            r.spec_buffer() == Seq::<u8>::empty(),
            !r.spec_bw_as_bytes(),
    {
        Builder::new()
    }
}

/// Phase of a decoder.
#[derive(Debug, Clone, Copy, PartialEq, Eq, Structural)]
pub enum FrameDecoderState {
    /// No frame was received yet.
    Initial,
    /// The image is complete.
    Done(DecodedImageFormat),
    /// Exactly one or two colour bands of a banded RGB image were received.
    RgbParts { bytes_per_channel: u32, has_red: bool, has_green: bool, has_blue: bool },
}

impl FrameDecoderState {
    pub fn is_done(&self) -> (r: bool)
        ensures
            r == (*self is Done),
    {
        match self {
            FrameDecoderState::Done(_) => true,
            _ => false,
        }
    }
}

/// Assembles one frame, or three colour bands, into a [`DecodedImage`].
#[derive(Debug, Clone)]
pub struct FrameDecoder {
    buffer: Vec<u8>,
    image: Vec<u8>,
    state: FrameDecoderState,
    width: u32,
    height: u32,
    black_and_white_as_bytes: bool,
}

/// The abstract content of a [`FrameDecoder`].
pub struct DecoderModel {
    /// What the buffer held before decoding.
    pub base: Seq<u8>,
    /// The decoded pixel data so far (for banded RGB, the bands received so far
    /// with zeroes for the others).
    pub image: Seq<u8>,
    pub state: FrameDecoderState,
    pub width: u32,
    pub height: u32,
    pub bw_as_bytes: bool,
}

/// A decoder that has not received a frame.
pub open spec fn initial_model(base: Seq<u8>, bw_as_bytes: bool) -> DecoderModel {
    DecoderModel {
        base,
        image: Seq::empty(),
        state: FrameDecoderState::Initial,
        width: 0,
        height: 0,
        bw_as_bytes,
    }
}

/// Consistency of a decoder's content with its phase.
pub open spec fn model_wf(m: DecoderModel) -> bool {
    match m.state {
        FrameDecoderState::Initial => m.image.len() == 0,
        FrameDecoderState::RgbParts { bytes_per_channel, has_red, has_green, has_blue } => {
            &&& 0 < bytes_per_channel < 0x2000_0000
            &&& m.image.len() == m.width * m.height * 3 * bytes_per_channel
            &&& has_red as int + has_green as int + has_blue as int == 1 || has_red as int
                + has_green as int + has_blue as int == 2
        },
        FrameDecoderState::Done(_) => true,
    }
}

impl View for FrameDecoder {
    type V = DecoderModel;

    closed spec fn view(&self) -> DecoderModel {
        DecoderModel {
            base: self.buffer@,
            image: self.image@,
            state: self.state,
            width: self.width,
            height: self.height,
            bw_as_bytes: self.black_and_white_as_bytes,
        }
    }
}

/// Whether a frame code is one of the red, green and blue bands.
pub open spec fn is_band(code: u32) -> bool {
    code == sys::FRAME_RED || code == sys::FRAME_GREEN || code == sys::FRAME_BLUE
}

/// Position of a band's sample within an RGB pixel.
pub open spec fn band_index(code: u32) -> int {
    if code == sys::FRAME_RED {
        0
    } else if code == sys::FRAME_GREEN {
        1
    } else {
        2
    }
}

/// The first `row_len` bytes of each of the `height` rows of `bpl` bytes of `frame`,
/// one after the other.
pub open spec fn strip_rows(frame: Seq<u8>, bpl: int, row_len: int, height: int) -> Seq<u8> {
    Seq::new((height * row_len) as nat, |k: int| frame[(k / row_len) * bpl + k % row_len])
}

/// A packed bitmap with every bit inverted.
pub open spec fn bw_packed(bits: Seq<u8>) -> Seq<u8> {
    Seq::new(bits.len(), |k: int| !bits[k])
}

/// The value of bit `j` (most significant first) of `byte`.
pub open spec fn bit_of(byte: u8, j: int) -> bool {
    byte & (0x80u8 >> (j as u8)) != 0
}

/// A packed bitmap expanded to one byte per pixel: a set bit gives `0`, a clear one `1`.
pub open spec fn bw_expanded(bits: Seq<u8>) -> Seq<u8> {
    Seq::new(8 * bits.len(), |k: int| if bit_of(bits[k / 8], k % 8) { 0u8 } else { 1u8 })
}

/// Byte `i` of an RGB image with `bpc` bytes per channel and `width` pixels per row,
/// read from the band frame `frame` with rows of `bpl` bytes.
pub open spec fn band_sample(frame: Seq<u8>, bpl: int, width: int, bpc: int, i: int) -> u8 {
    let p = i / (3 * bpc);
    frame[(p / width) * bpl + (p % width) * bpc + i % bpc]
}

/// `image` with the samples of band `band` taken from `frame`.
pub open spec fn scatter_band(
    image: Seq<u8>,
    frame: Seq<u8>,
    bpl: int,
    width: int,
    bpc: int,
    band: int,
) -> Seq<u8> {
    Seq::new(
        image.len(),
        |i: int|
            if (i % (3 * bpc)) / bpc == band {
                band_sample(frame, bpl, width, bpc, i)
            } else {
                image[i]
            },
    )
}

/// The error found by the checks common to every frame, if any.
pub open spec fn common_error(m: DecoderModel, frame_len: int, p: FrameParameters) -> Option<
    FrameDecodeError,
> {
    if m.state is Done {
        Some(FrameDecodeError::AlreadyDone)
    } else if p.depth == 0 || frame_len > u32::MAX || p.bytes_per_line == 0 || frame_len
        % p.bytes_per_line as int != 0 {
        Some(FrameDecodeError::InvalidParameters)
    } else if p.lines is Some && p.lines->0 != frame_len / p.bytes_per_line as int {
        Some(FrameDecodeError::InvalidParameters)
    } else {
        None
    }
}

/// The error found by the checks particular to the decoder's phase and the frame's
/// format, if any.
pub open spec fn dispatch_error(m: DecoderModel, frame_len: int, p: FrameParameters) -> Option<
    FrameDecodeError,
> {
    let code = p.frame_code();
    let height = frame_len / p.bytes_per_line as int;
    let bpl = p.bytes_per_line as int;
    let ppl = p.pixels_per_line as int;
    let bpc = p.depth / 8;
    match m.state {
        FrameDecoderState::Initial => {
            if code == sys::FRAME_GRAY && p.depth == 1 {
                if ppl % 8 != 0 {
                    Some(FrameDecodeError::UnsupportedParameters)
                } else if ppl / 8 > bpl {
                    Some(FrameDecodeError::InvalidParameters)
                } else if m.bw_as_bytes && ppl * height > usize::MAX {
                    Some(FrameDecodeError::InvalidParameters)
                } else {
                    None
                }
            } else if code == sys::FRAME_GRAY || code == sys::FRAME_RGB || is_band(code) {
                let row = if code == sys::FRAME_RGB {
                    ppl * 3 * bpc
                } else {
                    ppl * bpc
                };
                if p.depth % 8 != 0 {
                    Some(FrameDecodeError::UnsupportedParameters)
                } else if row > bpl {
                    Some(FrameDecodeError::InvalidParameters)
                } else if is_band(code) && ppl * height * 3 * bpc > usize::MAX {
                    Some(FrameDecodeError::InvalidParameters)
                } else {
                    None
                }
            } else {
                Some(FrameDecodeError::UnsupportedParameters)
            }
        },
        FrameDecoderState::RgbParts { bytes_per_channel, has_red, has_green, has_blue } => {
            if !is_band(code) {
                Some(FrameDecodeError::UnsupportedParameters)
            } else if (code == sys::FRAME_RED && has_red) || (code == sys::FRAME_GREEN && has_green)
                || (code == sys::FRAME_BLUE && has_blue) {
                Some(FrameDecodeError::DuplicateChannel)
            } else if p.pixels_per_line != m.width || height != m.height {
                Some(FrameDecodeError::UnexpectedParameters)
            } else if p.depth % 8 != 0 || bpc != bytes_per_channel {
                Some(FrameDecodeError::UnexpectedParameters)
            } else if ppl * bpc > bpl {
                Some(FrameDecodeError::InvalidParameters)
            } else {
                None
            }
        },
        FrameDecoderState::Done(_) => Some(FrameDecodeError::AlreadyDone),
    }
}

/// The error that writing a frame of `frame_len` bytes with parameters `p` gives, if any.
pub open spec fn write_error(m: DecoderModel, frame_len: int, p: FrameParameters) -> Option<
    FrameDecodeError,
> {
    match common_error(m, frame_len, p) {
        Some(e) => Some(e),
        None => dispatch_error(m, frame_len, p),
    }
}

/// The decoder after a successful write of `frame` with parameters `p`.
pub open spec fn write_result(m: DecoderModel, frame: Seq<u8>, p: FrameParameters) -> DecoderModel {
    let code = p.frame_code();
    let bpl = p.bytes_per_line as int;
    let height = frame.len() as int / bpl;
    let ppl = p.pixels_per_line as int;
    let bpc = p.depth / 8;
    match m.state {
        FrameDecoderState::Initial => {
            if code == sys::FRAME_GRAY && p.depth == 1 {
                let bits = strip_rows(frame, bpl, ppl / 8, height);
                DecoderModel {
                    base: m.base,
                    image: if m.bw_as_bytes {
                        bw_expanded(bits)
                    } else {
                        bw_packed(bits)
                    },
                    state: FrameDecoderState::Done(DecodedImageFormat::BlackAndWhite),
                    width: p.pixels_per_line,
                    height: height as u32,
                    bw_as_bytes: m.bw_as_bytes,
                }
            } else if code == sys::FRAME_GRAY {
                DecoderModel {
                    base: m.base,
                    image: strip_rows(frame, bpl, ppl * bpc, height),
                    state: FrameDecoderState::Done(
                        DecodedImageFormat::Gray { bytes_per_pixel: bpc },
                    ),
                    width: p.pixels_per_line,
                    height: height as u32,
                    bw_as_bytes: m.bw_as_bytes,
                }
            } else if code == sys::FRAME_RGB {
                DecoderModel {
                    base: m.base,
                    image: strip_rows(frame, bpl, ppl * 3 * bpc, height),
                    state: FrameDecoderState::Done(
                        DecodedImageFormat::Rgb { bytes_per_channel: bpc },
                    ),
                    width: p.pixels_per_line,
                    height: height as u32,
                    bw_as_bytes: m.bw_as_bytes,
                }
            } else {
                DecoderModel {
                    base: m.base,
                    image: scatter_band(
                        Seq::new((ppl * height * 3 * bpc) as nat, |i: int| 0u8),
                        frame,
                        bpl,
                        ppl,
                        bpc as int,
                        band_index(code),
                    ),
                    state: FrameDecoderState::RgbParts {
                        bytes_per_channel: bpc,
                        has_red: code == sys::FRAME_RED,
                        has_green: code == sys::FRAME_GREEN,
                        has_blue: code == sys::FRAME_BLUE,
                    },
                    width: p.pixels_per_line,
                    height: height as u32,
                    bw_as_bytes: m.bw_as_bytes,
                }
            }
        },
        FrameDecoderState::RgbParts { bytes_per_channel, has_red, has_green, has_blue } => {
            let red = has_red || code == sys::FRAME_RED;
            let green = has_green || code == sys::FRAME_GREEN;
            let blue = has_blue || code == sys::FRAME_BLUE;
            DecoderModel {
                base: m.base,
                image: scatter_band(
                    m.image,
                    frame,
                    bpl,
                    m.width as int,
                    bytes_per_channel as int,
                    band_index(code),
                ),
                state: if red && green && blue {
                    FrameDecoderState::Done(
                        DecodedImageFormat::Rgb { bytes_per_channel: bytes_per_channel },
                    )
                } else {
                    FrameDecoderState::RgbParts {
                        bytes_per_channel,
                        has_red: red,
                        has_green: green,
                        has_blue: blue,
                    }
                },
                width: m.width,
                height: m.height,
                bw_as_bytes: m.bw_as_bytes,
            }
        },
        FrameDecoderState::Done(_) => m,
    }
}

/// `r * bpl + c` indexes a frame of `h` rows of `bpl` bytes when `r < h` and `c < bpl`.
proof fn lemma_in_frame(r: int, c: int, h: int, bpl: int)
    requires
        0 <= r < h,
        0 <= c < bpl,
    ensures
        0 <= r * bpl + c < h * bpl,
        r * bpl <= h * bpl,
{
    assert(0 <= r * bpl + c < h * bpl) by (nonlinear_arith)
        requires
            0 <= r < h,
            0 <= c < bpl,
    ;
    assert(r * bpl <= h * bpl) by (nonlinear_arith)
        requires
            0 <= r < h,
            0 <= c < bpl,
    ;
}

/// The quotient of `k < h * d` by `d` is below `h`, and the remainder below `d`.
proof fn lemma_div_below(k: int, d: int, h: int)
    requires
        0 <= k < h * d,
        0 < d,
    ensures
        0 <= k / d < h,
        0 <= k % d < d,
{
    assert(0 <= k / d < h) by (nonlinear_arith)
        requires
            0 <= k < h * d,
            0 < d,
    ;
}

/// Where byte `k` of the stripped rows lies in the frame.
proof fn lemma_strip_index(k: int, row_len: int, bpl: int, h: int)
    requires
        0 <= k < h * row_len,
        0 < row_len <= bpl,
    ensures
        0 <= (k / row_len) * bpl + k % row_len < h * bpl,
        (k / row_len) * bpl <= h * bpl,
{
    lemma_div_below(k, row_len, h);
    lemma_in_frame(k / row_len, k % row_len, h, bpl);
}

/// Where byte `i` of an RGB image lies in the frame of one of its bands.
proof fn lemma_band_index(i: int, width: int, h: int, bpc: int, bpl: int)
    requires
        0 <= i < width * h * 3 * bpc,
        0 < bpc,
        0 <= width,
        0 <= h,
        width * bpc <= bpl,
    ensures
        0 < width,
        0 <= ((i / (3 * bpc)) / width) * bpl + ((i / (3 * bpc)) % width) * bpc + i % bpc < h
            * bpl,
        ((i / (3 * bpc)) / width) * bpl <= h * bpl,
        ((i / (3 * bpc)) % width) * bpc + i % bpc < bpl,
{
    let p = i / (3 * bpc);
    assert(width * h * 3 * bpc == (width * h) * (3 * bpc)) by (nonlinear_arith);
    assert(width > 0) by (nonlinear_arith)
        requires
            0 <= i < width * h * 3 * bpc,
            0 < bpc,
            0 <= width,
            0 <= h,
    ;
    assert(h > 0) by (nonlinear_arith)
        requires
            0 <= i < width * h * 3 * bpc,
            0 < bpc,
            width > 0,
            0 <= h,
    ;
    lemma_div_below(i, 3 * bpc, width * h);
    assert(h * width == width * h) by (nonlinear_arith);
    lemma_div_below(p, width, h);
    let c = (p % width) * bpc + i % bpc;
    assert(0 <= c < width * bpc) by (nonlinear_arith)
        requires
            0 <= p % width < width,
            0 <= i % bpc < bpc,
            c == (p % width) * bpc + i % bpc,
    ;
    lemma_in_frame(p / width, c, h, bpl);
}

/// The first `row_len` bytes of each row of `bpl` bytes of `frame`.
fn copy_rows(frame: &[u8], bpl: usize, row_len: usize, height: usize) -> (out: Vec<u8>)
    requires
        row_len <= bpl,
        frame@.len() == height * bpl,
    ensures
        out@ == strip_rows(frame@, bpl as int, row_len as int, height as int),
{
    let mut out: Vec<u8> = Vec::new();
    let flen = frame.len();
    if row_len == 0 {
        assert(out@ =~= strip_rows(frame@, bpl as int, row_len as int, height as int));
        return out;
    }
    proof {
        assert(height * row_len <= height * bpl) by (nonlinear_arith)
            requires
                row_len <= bpl,
        ;
    }
    let total: usize = height * row_len;
    let mut k: usize = 0;
    while k < total
        invariant
            0 < row_len <= bpl,
            frame@.len() == height * bpl,
            flen == frame@.len(),
            total == height * row_len,
            k <= total,
            out@.len() == k,
            forall|j: int|
                0 <= j < k ==> out@[j] == frame@[(j / row_len as int) * bpl + j % row_len as int],
        decreases total - k,
    {
        proof {
            lemma_strip_index(k as int, row_len as int, bpl as int, height as int);
        }
        let src = (k / row_len) * bpl + k % row_len;
        out.push(frame[src]);
        k += 1;
    }
    assert(out@ =~= strip_rows(frame@, bpl as int, row_len as int, height as int));
    out
}

/// Every byte of `bits` inverted.
fn invert_bits(bits: Vec<u8>) -> (out: Vec<u8>)
    ensures
        out@ == bw_packed(bits@),
{
    let mut out = bits;
    let mut k: usize = 0;
    while k < out.len()
        invariant
            out@.len() == bits@.len(),
            k <= out@.len(),
            forall|j: int| 0 <= j < k ==> out@[j] == !bits@[j],
            forall|j: int| k <= j < out@.len() ==> out@[j] == bits@[j],
        decreases out@.len() - k,
    {
        let b = out[k];
        out.set(k, !b);
        k += 1;
    }
    assert(out@ =~= bw_packed(bits@));
    out
}

/// Every bit of `bits` as a byte: `0` for a set bit, `1` for a clear one.
fn expand_bits(bits: &Vec<u8>) -> (out: Vec<u8>)
    requires
        8 * bits@.len() <= usize::MAX,
    ensures
        out@ == bw_expanded(bits@),
{
    let mut out: Vec<u8> = Vec::new();
    let total: usize = 8 * bits.len();
    let mut k: usize = 0;
    while k < total
        invariant
            total == 8 * bits@.len(),
            k <= total,
            out@.len() == k,
            forall|j: int|
                0 <= j < k ==> out@[j] == (if bit_of(bits@[j / 8], j % 8) {
                    0u8
                } else {
                    1u8
                }),
        decreases total - k,
    {
        let byte = bits[k / 8];
        let j = (k % 8) as u8;
        let v: u8 = if byte & (0x80u8 >> j) != 0 {
            0
        } else {
            1
        };
        out.push(v);
        k += 1;
    }
    assert(out@ =~= bw_expanded(bits@));
    out
}

/// Writes the samples of band `band` from `frame` into the RGB image `image`.
fn scatter_into(
    image: &mut Vec<u8>,
    frame: &[u8],
    bpl: usize,
    width: usize,
    height: usize,
    bpc: usize,
    band: usize,
)
    requires
        old(image)@.len() == width * height * 3 * bpc,
        frame@.len() == height * bpl,
        width * bpc <= bpl,
        0 < bpc < 0x2000_0000,
        band < 3,
    ensures
        final(image)@ == scatter_band(
            old(image)@,
            frame@,
            bpl as int,
            width as int,
            bpc as int,
            band as int,
        ),
{
    let ghost start = image@;
    let n = image.len();
    let flen = frame.len();
    let mut i: usize = 0;
    while i < n
        invariant
            n == image@.len(),
            n == start.len(),
            n == width * height * 3 * bpc,
            frame@.len() == height * bpl,
            flen == frame@.len(),
            width * bpc <= bpl,
            0 < bpc,
            bpc < 0x2000_0000,
            i <= n,
            forall|j: int|
                0 <= j < i ==> image@[j] == scatter_band(
                    start,
                    frame@,
                    bpl as int,
                    width as int,
                    bpc as int,
                    band as int,
                )[j],
            forall|j: int| i <= j < n ==> image@[j] == start[j],
        decreases n - i,
    {
        if (i % (3 * bpc)) / bpc == band {
            proof {
                lemma_band_index(i as int, width as int, height as int, bpc as int, bpl as int);
            }
            let p = i / (3 * bpc);
            let src = (p / width) * bpl + (p % width) * bpc + i % bpc;
            image.set(i, frame[src]);
        }
        i += 1;
    }
    assert(image@ =~= scatter_band(
        start,
        frame@,
        bpl as int,
        width as int,
        bpc as int,
        band as int,
    ));
}

impl FrameDecoder {
    /// The decoder's content is consistent with its phase.
    pub open spec fn wf(&self) -> bool {
        model_wf(self@)
    }

    pub fn builder() -> (r: Builder)
        ensures
            r.spec_buffer() == Seq::<u8>::empty(),
            !r.spec_bw_as_bytes(),
    {
        Builder::new()
    }

    pub fn new() -> (r: Self)
        ensures
            r@ == initial_model(Seq::empty(), false),
            r.wf(),
    {
        FrameDecoder {
            buffer: Vec::new(),
            image: Vec::new(),
            state: FrameDecoderState::Initial,
            width: 0,
            height: 0,
            black_and_white_as_bytes: false,
        }
    }

    pub fn is_done(&self) -> (r: bool)
        ensures
            r == (self@.state is Done),
    {
        self.state.is_done()
    }

    /// The decoded image once all frames were received; otherwise the buffer
    /// as it was given, without partial data.
    pub fn into_image(self) -> (r: Result<DecodedImage, Vec<u8>>)
        ensures
            match self@.state {
                FrameDecoderState::Done(format) => r matches Ok(img) && img.data@ == self@.base
                    + self@.image && img.format == format && img.width == self@.width
                    && img.height == self@.height,
                _ => r matches Err(buf) && buf@ == self@.base,
            },
    {
        match self.state {
            FrameDecoderState::Done(format) => {
                let mut data = self.buffer;
                let mut image = self.image;
                data.append(&mut image);
                Ok(DecodedImage { data, format, width: self.width, height: self.height })
            },
            _ => Err(self.buffer),
        }
    }

    /// Adds one frame to the image.
    pub fn write(&mut self, frame: &[u8], params: &FrameParameters) -> (r: Result<
        (),
        FrameDecodeError,
    >)
        requires
            old(self).wf(),
        ensures
            final(self).wf(),
            match write_error(old(self)@, frame@.len() as int, *params) {
                Some(e) => r == Err::<(), FrameDecodeError>(e) && final(self)@ == old(self)@,
                None => r is Ok && final(self)@ == write_result(old(self)@, frame@, *params),
            },
    {
        if self.state.is_done() {
            return Err(FrameDecodeError::AlreadyDone);
        }
        if params.depth == 0 {
            return Err(FrameDecodeError::InvalidParameters);
        }
        if frame.len() > u32::MAX as usize {
            return Err(FrameDecodeError::InvalidParameters);
        }
        let frame_len = frame.len() as u32;
        let bpl = params.bytes_per_line;
        if bpl == 0 || frame_len % bpl != 0 {
            return Err(FrameDecodeError::InvalidParameters);
        }
        let height = frame_len / bpl;
        if let Some(lines) = params.lines {
            if lines != height {
                return Err(FrameDecodeError::InvalidParameters);
            }
        }
        proof {
            vstd::arithmetic::div_mod::lemma_fundamental_div_mod(frame_len as int, bpl as int);
            assert((height as int) * (bpl as int) == frame_len as int) by (nonlinear_arith)
                requires
                    frame_len as int == (bpl as int) * (height as int) + 0,
            ;
        }
        let code = params.format.0;
        let ppl = params.pixels_per_line;
        let depth = params.depth;
        match self.state {
            FrameDecoderState::Initial => {
                if code == sys::FRAME_GRAY && depth == 1 {
                    if ppl % 8 != 0 {
                        return Err(FrameDecodeError::UnsupportedParameters);
                    }
                    if ppl / 8 > bpl {
                        return Err(FrameDecodeError::InvalidParameters);
                    }
                    let bits = copy_rows(
                        frame,
                        bpl as usize,
                        (ppl / 8) as usize,
                        height as usize,
                    );
                    proof {
                        assert((ppl as int) * (height as int) <= 0xffff_ffffu64 * 0xffff_ffffu64)
                            by (nonlinear_arith)
                            requires
                                ppl <= 0xffff_ffffu32,
                                height <= 0xffff_ffffu32,
                        ;
                    }
                    if self.black_and_white_as_bytes && ppl as u64 * height as u64
                        > usize::MAX as u64 {
                        return Err(FrameDecodeError::InvalidParameters);
                    }
                    let image = if self.black_and_white_as_bytes {
                        proof {
                            assert(8 * ((height as int) * ((ppl / 8) as int)) == (ppl as int) * (
                            height as int)) by (nonlinear_arith)
                                requires
                                    ppl % 8 == 0,
                            ;
                        }
                        expand_bits(&bits)
                    } else {
                        invert_bits(bits)
                    };
                    self.image = image;
                    self.width = ppl;
                    self.height = height;
                    self.state = FrameDecoderState::Done(DecodedImageFormat::BlackAndWhite);
                    Ok(())
                } else if code == sys::FRAME_GRAY || code == sys::FRAME_RGB || code
                    == sys::FRAME_RED || code == sys::FRAME_GREEN || code == sys::FRAME_BLUE {
                    if depth % 8 != 0 {
                        return Err(FrameDecodeError::UnsupportedParameters);
                    }
                    let bpc = depth / 8;
                    proof {
                        assert((ppl as int) * 3 * (bpc as int) <= 0xffff_ffffu64 * 3 * 0x2000_0000u64)
                            by (nonlinear_arith)
                            requires
                                ppl <= 0xffff_ffffu32,
                                bpc <= 0x2000_0000u32,
                        ;
                        assert((ppl as int) * (bpc as int) <= (ppl as int) * 3 * (bpc as int))
                            by (nonlinear_arith);
                    }
                    let row: u64 = if code == sys::FRAME_RGB {
                        ppl as u64 * 3 * bpc as u64
                    } else {
                        ppl as u64 * bpc as u64
                    };
                    if row > bpl as u64 {
                        return Err(FrameDecodeError::InvalidParameters);
                    }
                    if code == sys::FRAME_GRAY || code == sys::FRAME_RGB {
                        let image = copy_rows(
                            frame,
                            bpl as usize,
                            row as usize,
                            height as usize,
                        );
                        self.image = image;
                        self.width = ppl;
                        self.height = height;
                        self.state = if code == sys::FRAME_GRAY {
                            FrameDecoderState::Done(
                                DecodedImageFormat::Gray { bytes_per_pixel: bpc },
                            )
                        } else {
                            FrameDecoderState::Done(
                                DecodedImageFormat::Rgb { bytes_per_channel: bpc },
                            )
                        };
                        Ok(())
                    } else {
                        proof {
                            assert((ppl as int) * (height as int) * 3 * (bpc as int) <= 3 * ((
                            height as int) * (bpl as int))) by (nonlinear_arith)
                                requires
                                    (ppl as int) * (bpc as int) <= bpl as int,
                                    height >= 0,
                            ;
                            assert((ppl as int) * (height as int) <= (ppl as int) * (height as int)
                                * 3 <= (ppl as int) * (height as int) * 3 * (bpc as int))
                                by (nonlinear_arith)
                                requires
                                    bpc >= 1,
                                    ppl >= 0,
                                    height >= 0,
                            ;
                        }
                        if ppl as u64 * height as u64 * 3 * bpc as u64 > usize::MAX as u64 {
                            return Err(FrameDecodeError::InvalidParameters);
                        }
                        let len = ppl as usize * height as usize * 3 * bpc as usize;
                        let mut image: Vec<u8> = vec![0u8; len];
                        let band: usize = if code == sys::FRAME_RED {
                            0
                        } else if code == sys::FRAME_GREEN {
                            1
                        } else {
                            2
                        };
                        proof {
                            assert(image@ =~= Seq::new(
                                (ppl as int * height as int * 3 * bpc as int) as nat,
                                |i: int| 0u8,
                            ));
                        }
                        scatter_into(
                            &mut image,
                            frame,
                            bpl as usize,
                            ppl as usize,
                            height as usize,
                            bpc as usize,
                            band,
                        );
                        self.image = image;
                        self.width = ppl;
                        self.height = height;
                        self.state = FrameDecoderState::RgbParts {
                            bytes_per_channel: bpc,
                            has_red: code == sys::FRAME_RED,
                            has_green: code == sys::FRAME_GREEN,
                            has_blue: code == sys::FRAME_BLUE,
                        };
                        Ok(())
                    }
                } else {
                    Err(FrameDecodeError::UnsupportedParameters)
                }
            },
            FrameDecoderState::RgbParts { bytes_per_channel, has_red, has_green, has_blue } => {
                if !(code == sys::FRAME_RED || code == sys::FRAME_GREEN || code
                    == sys::FRAME_BLUE) {
                    return Err(FrameDecodeError::UnsupportedParameters);
                }
                if (code == sys::FRAME_RED && has_red) || (code == sys::FRAME_GREEN && has_green)
                    || (code == sys::FRAME_BLUE && has_blue) {
                    return Err(FrameDecodeError::DuplicateChannel);
                }
                if ppl != self.width || height != self.height {
                    return Err(FrameDecodeError::UnexpectedParameters);
                }
                if depth % 8 != 0 || depth / 8 != bytes_per_channel {
                    return Err(FrameDecodeError::UnexpectedParameters);
                }
                proof {
                    assert((ppl as int) * (bytes_per_channel as int) <= 0xffff_ffffu64
                        * 0x2000_0000u64) by (nonlinear_arith)
                        requires
                            ppl <= 0xffff_ffffu32,
                            bytes_per_channel <= 0x2000_0000u32,
                    ;
                }
                if ppl as u64 * bytes_per_channel as u64 > bpl as u64 {
                    return Err(FrameDecodeError::InvalidParameters);
                }
                let band: usize = if code == sys::FRAME_RED {
                    0
                } else if code == sys::FRAME_GREEN {
                    1
                } else {
                    2
                };
                scatter_into(
                    &mut self.image,
                    frame,
                    bpl as usize,
                    ppl as usize,
                    height as usize,
                    bytes_per_channel as usize,
                    band,
                );
                let red = has_red || code == sys::FRAME_RED;
                let green = has_green || code == sys::FRAME_GREEN;
                let blue = has_blue || code == sys::FRAME_BLUE;
                self.state = if red && green && blue {
                    FrameDecoderState::Done(DecodedImageFormat::Rgb { bytes_per_channel })
                } else {
                    FrameDecoderState::RgbParts {
                        bytes_per_channel,
                        has_red: red,
                        has_green: green,
                        has_blue: blue,
                    }
                };
                Ok(())
            },
            FrameDecoderState::Done(_) => Err(FrameDecodeError::AlreadyDone),
        }
    }
}

impl Default for FrameDecoder {
    fn default() -> (r: Self)
        ensures
            r@ == initial_model(Seq::empty(), false),
            r.wf(),
    {
        FrameDecoder::new()
    }
}

/// Once a decoder is done, every further frame is refused with `AlreadyDone`
/// (and `write` then leaves the decoder, its buffer included, unchanged).
pub proof fn lemma_done_is_final(m: DecoderModel, frame_len: int, p: FrameParameters)
    requires
        m.state is Done,
    ensures
        write_error(m, frame_len, p) == Some(FrameDecodeError::AlreadyDone),
{
}

/// A gray or interleaved RGB frame decodes to exactly `width * height` pixels of
/// `bytes_per_pixel` bytes each, whatever padding its rows carried.
pub proof fn lemma_padding_discarded(m: DecoderModel, frame: Seq<u8>, p: FrameParameters)
    requires
        m.state is Initial,
        p.frame_code() == sys::FRAME_RGB || (p.frame_code() == sys::FRAME_GRAY && p.depth != 1),
        write_error(m, frame.len() as int, p) is None,
    ensures
        ({
            let r = write_result(m, frame, p);
            match r.state {
                FrameDecoderState::Done(DecodedImageFormat::Gray { bytes_per_pixel }) => r.image.len()
                    == r.width * r.height * bytes_per_pixel,
                FrameDecoderState::Done(DecodedImageFormat::Rgb { bytes_per_channel }) => r.image.len()
                    == r.width * r.height * (3 * bytes_per_channel),
                _ => false,
            }
        }),
{
    let bpl = p.bytes_per_line as int;
    let h = frame.len() as int / bpl;
    let w = p.pixels_per_line as int;
    let bpc = (p.depth / 8) as int;
    assert(h >= 0) by (nonlinear_arith)
        requires
            bpl > 0,
            frame.len() >= 0,
            h == frame.len() as int / bpl,
    ;
    vstd::arithmetic::div_mod::lemma_fundamental_div_mod(frame.len() as int, bpl);
    assert(h * bpl <= 0xffff_ffff) by (nonlinear_arith)
        requires
            frame.len() as int == bpl * h + 0,
            frame.len() <= 0xffff_ffff,
    ;
    assert(h * (w * bpc) == w * h * bpc) by (nonlinear_arith);
    assert(h * (w * 3 * bpc) == w * h * (3 * bpc)) by (nonlinear_arith);
}

/// For band `band`, the samples of `band_frame` (rows of `band_bpl` bytes) are those of
/// the interleaved frame `rgb_frame` (rows of `rgb_bpl` bytes), for an image of
/// `width * height` pixels with `bpc` bytes per channel.
pub open spec fn same_samples(
    band_frame: Seq<u8>,
    band_bpl: int,
    rgb_frame: Seq<u8>,
    rgb_bpl: int,
    width: int,
    height: int,
    bpc: int,
    band: int,
) -> bool {
    forall|px: int, b: int|
        0 <= px < width * height && 0 <= b < bpc ==> #[trigger] band_frame[(px / width) * band_bpl
            + (px % width) * bpc + b] == rgb_frame[(px / width) * rgb_bpl + (px % width) * (3
            * bpc) + band * bpc + b]
}

/// How byte `i` of an RGB image splits into pixel, channel and byte, and where the
/// same byte lies among the stripped rows of an interleaved frame.
proof fn lemma_rgb_position(i: int, w: int, h: int, bpc: int)
    requires
        0 <= i < w * h * 3 * bpc,
        0 < bpc,
        0 < w,
    ensures
        0 <= i / (3 * bpc) < w * h,
        0 <= (i % (3 * bpc)) / bpc < 3,
        0 <= i % bpc < bpc,
        i / (w * 3 * bpc) == (i / (3 * bpc)) / w,
        i % (w * 3 * bpc) == ((i / (3 * bpc)) % w) * (3 * bpc) + ((i % (3 * bpc)) / bpc) * bpc
            + i % bpc,
{
    let s = 3 * bpc;
    assert(w * h * 3 * bpc == (w * h) * s) by (nonlinear_arith)
        requires
            s == 3 * bpc,
    ;
    lemma_div_below(i, s, w * h);
    assert(w * 3 * bpc == s * w) by (nonlinear_arith)
        requires
            s == 3 * bpc,
    ;
    vstd::arithmetic::div_mod::lemma_div_denominator(i, s, w);
    vstd::arithmetic::div_mod::lemma_mod_breakdown(i, s, w);
    assert(s * ((i / s) % w) == ((i / s) % w) * s) by (nonlinear_arith);
    let q = i % s;
    assert(0 <= q < 3 * bpc);
    lemma_div_below(q, bpc, 3);
    vstd::arithmetic::div_mod::lemma_fundamental_div_mod(q, bpc);
    assert(bpc * 3 == s) by (nonlinear_arith)
        requires
            s == 3 * bpc,
    ;
    vstd::arithmetic::div_mod::lemma_mod_mod(i, bpc, 3);
    assert(bpc * (q / bpc) == (q / bpc) * bpc) by (nonlinear_arith);
}

/// Three colour bands, in any order, with the geometry and depth of an interleaved RGB
/// frame and the same samples, decode to the image that the interleaved frame decodes to.
pub proof fn lemma_bands_match_interleaved(
    base: Seq<u8>,
    bw_as_bytes: bool,
    fa: Seq<u8>,
    pa: FrameParameters,
    fb: Seq<u8>,
    pb: FrameParameters,
    fc: Seq<u8>,
    pc: FrameParameters,
    rgb: Seq<u8>,
    prgb: FrameParameters,
)
    requires
        is_band(pa.frame_code()),
        is_band(pb.frame_code()),
        is_band(pc.frame_code()),
        pa.frame_code() != pb.frame_code(),
        pa.frame_code() != pc.frame_code(),
        pb.frame_code() != pc.frame_code(),
        prgb.frame_code() == sys::FRAME_RGB,
        write_error(initial_model(base, bw_as_bytes), fa.len() as int, pa) is None,
        write_error(initial_model(base, bw_as_bytes), fb.len() as int, pb) is None,
        write_error(initial_model(base, bw_as_bytes), fc.len() as int, pc) is None,
        write_error(initial_model(base, bw_as_bytes), rgb.len() as int, prgb) is None,
        pa.pixels_per_line == prgb.pixels_per_line,
        pb.pixels_per_line == prgb.pixels_per_line,
        pc.pixels_per_line == prgb.pixels_per_line,
        pa.depth == prgb.depth,
        pb.depth == prgb.depth,
        pc.depth == prgb.depth,
        fa.len() as int / (pa.bytes_per_line as int) == rgb.len() as int / (prgb.bytes_per_line as int),
        fb.len() as int / (pb.bytes_per_line as int) == rgb.len() as int / (prgb.bytes_per_line as int),
        fc.len() as int / (pc.bytes_per_line as int) == rgb.len() as int / (prgb.bytes_per_line as int),
        same_samples(
            fa,
            pa.bytes_per_line as int,
            rgb,
            prgb.bytes_per_line as int,
            prgb.pixels_per_line as int,
            rgb.len() as int / (prgb.bytes_per_line as int),
            (prgb.depth / 8) as int,
            band_index(pa.frame_code()),
        ),
        same_samples(
            fb,
            pb.bytes_per_line as int,
            rgb,
            prgb.bytes_per_line as int,
            prgb.pixels_per_line as int,
            rgb.len() as int / (prgb.bytes_per_line as int),
            (prgb.depth / 8) as int,
            band_index(pb.frame_code()),
        ),
        same_samples(
            fc,
            pc.bytes_per_line as int,
            rgb,
            prgb.bytes_per_line as int,
            prgb.pixels_per_line as int,
            rgb.len() as int / (prgb.bytes_per_line as int),
            (prgb.depth / 8) as int,
            band_index(pc.frame_code()),
        ),
    ensures
        ({
            let m_init = initial_model(base, bw_as_bytes);
            let ma = write_result(m_init, fa, pa);
            let mb = write_result(ma, fb, pb);
            &&& write_error(ma, fb.len() as int, pb) is None
            &&& write_error(mb, fc.len() as int, pc) is None
            &&& write_result(mb, fc, pc) == write_result(m_init, rgb, prgb)
        }),
{
    let m_init = initial_model(base, bw_as_bytes);
    let ma = write_result(m_init, fa, pa);
    let mb = write_result(ma, fb, pb);
    let mc = write_result(mb, fc, pc);
    let mi = write_result(m_init, rgb, prgb);
    let w = prgb.pixels_per_line as int;
    let h = rgb.len() as int / (prgb.bytes_per_line as int);
    let bpc = (prgb.depth / 8) as int;
    let bpl = prgb.bytes_per_line as int;
    assert(bpc > 0);
    assert(write_error(ma, fb.len() as int, pb) is None);
    assert(write_error(mb, fc.len() as int, pc) is None);
    let len = w * h * 3 * bpc;
    assert(h * (w * 3 * bpc) == len) by (nonlinear_arith)
        requires
            len == w * h * 3 * bpc,
    ;
    assert(h >= 0) by (nonlinear_arith)
        requires
            bpl > 0,
            rgb.len() >= 0,
            h == rgb.len() as int / bpl,
    ;
    assert(mc.image.len() == len);
    assert(mi.image.len() == len);
    assert forall|i: int| 0 <= i < len implies mc.image[i] == mi.image[i] by {
        assert(w > 0) by (nonlinear_arith)
            requires
                0 <= i < len,
                len == w * h * 3 * bpc,
                w >= 0,
                h >= 0,
                bpc > 0,
        ;
        lemma_rgb_position(i, w, h, bpc);
        assert(w * h == h * w) by (nonlinear_arith);
        lemma_div_below(i / (3 * bpc), w, h);
        let px = i / (3 * bpc);
        let c = (i % (3 * bpc)) / bpc;
        let b = i % bpc;
        vstd::arithmetic::div_mod::lemma_fundamental_div_mod(rgb.len() as int, bpl);
        lemma_in_frame(px / w, (px % w) * (3 * bpc) + c * bpc + b, h, bpl);
        if band_index(pc.frame_code()) == c {
            assert(fc[(px / w) * (pc.bytes_per_line as int) + (px % w) * bpc + b] == rgb[(px / w)
                * bpl + (px % w) * (3 * bpc) + c * bpc + b]);
        } else if band_index(pb.frame_code()) == c {
            assert(fb[(px / w) * (pb.bytes_per_line as int) + (px % w) * bpc + b] == rgb[(px / w)
                * bpl + (px % w) * (3 * bpc) + c * bpc + b]);
        } else {
            assert(fa[(px / w) * (pa.bytes_per_line as int) + (px % w) * bpc + b] == rgb[(px / w)
                * bpl + (px % w) * (3 * bpc) + c * bpc + b]);
        }
    }
    assert(mc.image =~= mi.image);
}

/// A decoded image.
#[derive(Debug, Clone)]
pub struct DecodedImage {
    pub data: Vec<u8>,
    pub format: DecodedImageFormat,
    pub width: u32,
    pub height: u32,
}

/// Pixel layout of a decoded image.
#[derive(Debug, Clone, Copy, PartialEq, Eq, Structural)]
pub enum DecodedImageFormat {
    /// Black and white images are represented as a packed big-endian bitmap unless
    /// [`Builder::decode_black_and_white_as_bytes`] was set to `true`, in which case
    /// every pixel is a byte with value `0` or `1`.
    BlackAndWhite,
    /// Gray pixel data with the given amount of bytes per pixel.
    Gray { bytes_per_pixel: u32 },
    /// RGB pixel data with the given amount of bytes per color channel.
    Rgb { bytes_per_channel: u32 },
}

/// Why a frame was refused.
#[derive(Debug, Clone, Copy, PartialEq, Eq, Structural)]
pub enum FrameDecodeError {
    AlreadyDone,
    DuplicateChannel,
    UnexpectedParameters,
    UnsupportedParameters,
    InvalidParameters,
}

impl FrameDecodeError {
    /// A description of the error.
    pub fn message(&self) -> (r: &'static str) {
        match self {
            FrameDecodeError::AlreadyDone => "already received all frames",
            FrameDecodeError::DuplicateChannel => "channel was already received",
            FrameDecodeError::UnexpectedParameters => "parameters of this frame mismatch the predecessor",
            FrameDecodeError::UnsupportedParameters => "frame parameters are not supported by this decoder",
            FrameDecodeError::InvalidParameters => "frame parameters are invalid",
        }
    }
}

} // verus!
