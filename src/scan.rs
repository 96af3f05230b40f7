//! Frame parameters and the sequencing of a scan: starting frames, reading
//! them in part or whole, and ending the scan.
use vstd::prelude::*;

use crate::error::{Error, Status};
use crate::sys;

verus! {

/// Parameters of one frame of a scan.
#[derive(Clone, Copy, Debug)]
pub struct FrameParameters {
    /// Raw frame format code
    pub format: sys::Frame,
    /// Whether this is the last frame of an image
    pub last_frame: bool,
    /// Size of one scanned line in bytes, which may include padding
    pub bytes_per_line: u32,
    /// Width of the frame in pixels
    pub pixels_per_line: u32,
    /// Height of the frame in pixels, if known
    pub lines: Option<u32>,
    /// Bits per sample
    pub depth: u32,
}

impl FrameParameters {
    /// The raw frame format code.
    pub open spec fn frame_code(&self) -> u32 {
        self.format.0
    }

    pub fn format(&self) -> (r: FrameFormat)
        ensures
            r == frame_format_of(self.frame_code()),
    {
        FrameFormat::from(self.format)
    }

    pub fn sys_format(&self) -> (r: sys::Frame)
        ensures
            r.0 == self.frame_code(),
    {
        self.format
    }
}

/// The frame parameters that raw parameters describe: a `lines` of `-1` means the
/// height is not known.
pub open spec fn params_of(v: sys::Parameters) -> FrameParameters {
    FrameParameters {
        format: v.format,
        last_frame: v.last_frame != sys::FALSE,
        bytes_per_line: v.bytes_per_line as u32,
        pixels_per_line: v.pixels_per_line as u32,
        lines: if v.lines == UNKNOWN_LINES {
            None
        } else {
            Some(v.lines as u32)
        },
        depth: v.depth as u32,
    }
}

/// What the library reports for `lines` when the height is not known.
pub const UNKNOWN_LINES: sys::Int = -1;

impl From<sys::Parameters> for FrameParameters {
    fn from(value: sys::Parameters) -> (r: FrameParameters) {
        FrameParameters {
            format: value.format,
            last_frame: value.last_frame != sys::FALSE,
            bytes_per_line: value.bytes_per_line as u32,
            pixels_per_line: value.pixels_per_line as u32,
            lines: if value.lines == UNKNOWN_LINES {
                None
            } else {
                Some(value.lines as u32)
            },
            depth: value.depth as u32,
        }
    }
}

impl vstd::std_specs::convert::FromSpecImpl<sys::Parameters> for FrameParameters {
    open spec fn obeys_from_spec() -> bool {
        true
    }

    open spec fn from_spec(v: sys::Parameters) -> FrameParameters {
        params_of(v)
    }
}

/// Frame formats known to this library.
#[derive(Clone, Copy, Debug, PartialEq, Eq, Structural)]
pub enum FrameFormat {
    /// Band covering human visual range.
    Gray,
    /// Pixel-interleaved red/green/blue bands.
    Rgb,
    /// Red band of a red/green/blue image.
    Red,
    /// Green band of a red/green/blue image.
    Green,
    /// Blue band of a red/green/blue image.
    Blue,
    /// The scan format is unsupported by these bindings to SANE.
    Unsupported,
}

/// The frame format named by a raw frame code.
pub open spec fn frame_format_of(code: u32) -> FrameFormat {
    if code == sys::FRAME_GRAY {
        FrameFormat::Gray
    } else if code == sys::FRAME_RGB {
        FrameFormat::Rgb
    } else if code == sys::FRAME_RED {
        FrameFormat::Red
    } else if code == sys::FRAME_GREEN {
        FrameFormat::Green
    } else if code == sys::FRAME_BLUE {
        FrameFormat::Blue
    } else {
        FrameFormat::Unsupported
    }
}

impl FrameFormat {
    pub fn is_rgb(&self) -> (r: bool)
        ensures
            r == (*self == FrameFormat::Rgb || *self == FrameFormat::Red || *self
                == FrameFormat::Green || *self == FrameFormat::Blue),
    {
        match self {
            FrameFormat::Rgb | FrameFormat::Red | FrameFormat::Green | FrameFormat::Blue => true,
            _ => false,
        }
    }
}

impl From<sys::Frame> for FrameFormat {
    fn from(value: sys::Frame) -> (r: FrameFormat) {
        if value.0 == sys::FRAME_GRAY {
            FrameFormat::Gray
        } else if value.0 == sys::FRAME_RGB {
            FrameFormat::Rgb
        } else if value.0 == sys::FRAME_RED {
            FrameFormat::Red
        } else if value.0 == sys::FRAME_GREEN {
            FrameFormat::Green
        } else if value.0 == sys::FRAME_BLUE {
            FrameFormat::Blue
        } else {
            FrameFormat::Unsupported
        }
    }
}

impl vstd::std_specs::convert::FromSpecImpl<sys::Frame> for FrameFormat {
    open spec fn obeys_from_spec() -> bool {
        true
    }

    open spec fn from_spec(v: sys::Frame) -> FrameFormat {
        frame_format_of(v.0)
    }
}

/// A call into the native library that setting up a frame needs.
#[derive(Clone, Copy, Debug, PartialEq, Eq, Structural)]
pub enum FrameSetup {
    /// Start acquiring the next frame.
    Start,
    /// Ask for blocking reads.
    SetBlockingIo,
    /// Fetch the parameters of the started frame.
    GetParameters,
}

/// What to do next while setting up a frame.
#[derive(Clone, Copy, Debug)]
pub enum SetupStep {
    /// Make this call and hand its result to the matching `after_*` function.
    Call(FrameSetup),
    /// The frame is set up.
    Frame(FrameParameters),
    /// The scan has ended: no frame follows.
    NoFrame,
    /// Setting up failed with this error.
    Fail(Error),
}

/// The first step towards a frame: none once the scan has ended, otherwise
/// starting the frame.
pub open spec fn first_setup_step(done: bool) -> SetupStep {
    if done {
        SetupStep::NoFrame
    } else {
        SetupStep::Call(FrameSetup::Start)
    }
}

/// Whether the scan has ended after a read with result `res`.
pub open spec fn done_after_read(done: bool, res: Result<usize, Error>, last_frame: bool) -> bool {
    done || (res matches Err(e) && read_ends_scan(e, last_frame))
}

/// Whether the scan has ended once a whole-frame read has begun: the last frame
/// ends it.
pub open spec fn done_after_full_read(done: bool, last_frame: bool) -> bool {
    done || last_frame
}

/// Once a scan has ended, by cancelling or otherwise, no later step starts a frame:
/// recording reads of any result keeps it ended, and the first step towards a frame
/// is then always that there is none.
pub proof fn lemma_ended_scan_starts_nothing(res: Result<usize, Error>, last_frame: bool)
    ensures
        done_after_read(true, res, last_frame),
        done_after_full_read(true, last_frame),
        first_setup_step(true) is NoFrame,
{
}

/// The state a scan adds to a device: whether it has ended.
#[derive(Debug)]
pub struct ScanState {
    done: bool,
}

impl ScanState {
    /// Whether the scan has ended (finished or cancelled).
    pub closed spec fn spec_done(&self) -> bool {
        self.done
    }

    /// A scan that has just begun.
    pub fn new() -> (r: Self)
        ensures
            !r.spec_done(),
    {
        ScanState { done: false }
    }

    pub fn is_done(&self) -> (r: bool)
        ensures
            r == self.spec_done(),
    {
        self.done
    }

    /// Ends the scan. Returns whether the device must be told to cancel, which is
    /// the case unless the scan had already ended.
    pub fn cancel(&mut self) -> (issue: bool)
        ensures
            issue == !old(self).spec_done(),
            final(self).spec_done(),
    {
        let issue = !self.done;
        self.done = true;
        issue
    }

    /// The first step towards the next frame: none once the scan has ended,
    /// otherwise starting the frame.
    pub fn next_frame(&self) -> (r: SetupStep)
        ensures
            r == first_setup_step(self.spec_done()),
    {
        if self.done {
            SetupStep::NoFrame
        } else {
            SetupStep::Call(FrameSetup::Start)
        }
    }

    /// The step after starting a frame: an error is returned as it is.
    pub fn after_start(res: Result<(), Error>) -> (r: SetupStep)
        ensures
            res matches Err(e) ==> r == SetupStep::Fail(e),
            res is Ok ==> r == SetupStep::Call(FrameSetup::SetBlockingIo),
    {
        match res {
            Ok(()) => SetupStep::Call(FrameSetup::SetBlockingIo),
            Err(e) => SetupStep::Fail(e),
        }
    }

    /// The step after asking for blocking reads. Blocking reads are always
    /// supported, so a backend that answers `Unsupported` is taken at its word
    /// that nothing changed.
    pub fn after_set_io_mode(res: Result<(), Error>) -> (r: SetupStep)
        ensures
            res matches Err(e) ==> (e.code() != sys::STATUS_UNSUPPORTED ==> r == SetupStep::Fail(e)),
            (res is Ok || (res matches Err(e) && e.code() == sys::STATUS_UNSUPPORTED)) ==> r
                == SetupStep::Call(FrameSetup::GetParameters),
    {
        match res {
            Ok(()) => SetupStep::Call(FrameSetup::GetParameters),
            Err(e) => {
                if e.sys_status().0 == sys::STATUS_UNSUPPORTED {
                    SetupStep::Call(FrameSetup::GetParameters)
                } else {
                    SetupStep::Fail(e)
                }
            },
        }
    }

    /// The step after fetching the parameters: the frame, or the error.
    pub fn after_get_parameters(res: Result<sys::Parameters, Error>) -> (r: SetupStep)
        ensures
            res matches Err(e) ==> r == SetupStep::Fail(e),
            res matches Ok(p) ==> r == SetupStep::Frame(params_of(p)),
    {
        match res {
            Ok(p) => SetupStep::Frame(FrameParameters::from(p)),
            Err(e) => SetupStep::Fail(e),
        }
    }
}

/// The state of one frame being read.
#[derive(Debug)]
pub struct FrameState {
    params: FrameParameters,
    started: bool,
}

/// Whether a failed read ends the whole scan: when it was cancelled, or when the
/// last frame is exhausted.
pub open spec fn read_ends_scan(e: Error, last_frame: bool) -> bool {
    e.code() == sys::STATUS_CANCELLED || (e.code() == sys::STATUS_EOF && last_frame)
}

impl FrameState {
    pub closed spec fn spec_params(&self) -> FrameParameters {
        self.params
    }

    /// Whether any data of the frame was asked for.
    pub closed spec fn spec_started(&self) -> bool {
        self.started
    }

    pub fn new(params: FrameParameters) -> (r: Self)
        ensures
            r.spec_params() == params,
            !r.spec_started(),
    {
        FrameState { params, started: false }
    }

    /// Whether any data of the frame was asked for.
    pub fn is_started(&self) -> (r: bool)
        ensures
            r == self.spec_started(),
    {
        self.started
    }

    pub fn parameters(&self) -> (r: &FrameParameters)
        ensures
            *r == self.spec_params(),
    {
        &self.params
    }

    /// Records the result of one read of the frame's data.
    pub fn after_read(&mut self, scan: &mut ScanState, res: &Result<usize, Error>)
        ensures
            final(self).spec_started(),
            final(self).spec_params() == old(self).spec_params(),
            final(scan).spec_done() == done_after_read(
                old(scan).spec_done(),
                *res,
                old(self).spec_params().last_frame,
            ),
    {
        self.started = true;
        if let Err(e) = res {
            let code = e.sys_status().0;
            if code == sys::STATUS_CANCELLED || (code == sys::STATUS_EOF && self.params.last_frame) {
                scan.done = true;
            }
        }
    }

    /// Begins reading the whole frame at once, appending to `buf`.
    pub fn begin_full_read(&mut self, scan: &mut ScanState, buf: Vec<u8>) -> (r: FullFrameRead)
        requires
            !old(self).spec_started(),
            old(self).spec_params().lines matches Some(l) ==> buf@.len() + old(
                self,
            ).spec_params().bytes_per_line * l <= usize::MAX,
        ensures
            final(self).spec_started(),
            final(self).spec_params() == old(self).spec_params(),
            final(scan).spec_done() == done_after_full_read(
                old(scan).spec_done(),
                old(self).spec_params().last_frame,
            ),
            r.wf(),
            r.spec_start() == buf@,
            r.spec_buffer() == buf@,
            r.spec_bytes_per_line() == old(self).spec_params().bytes_per_line,
            r.spec_lines() == old(self).spec_params().lines,
            r.spec_step() == first_step(
                old(self).spec_params().bytes_per_line,
                old(self).spec_params().lines,
            ),
    {
        self.started = true;
        if self.params.last_frame {
            scan.done = true;
        }
        FullFrameRead::new(buf, self.params.bytes_per_line, self.params.lines)
    }
}

/// The lines of data that an unknown-height frame first asks for.
pub const FIRST_TRY_LINES: usize = 32;

/// What to do next while reading a whole frame.
#[derive(Clone, Copy, Debug)]
pub enum FullReadStep {
    /// Read at most this many bytes and hand them to `on_data`, or the error to `on_error`.
    Read(usize),
    /// The frame was read completely.
    Finished,
    /// Reading failed with this error.
    Failed(Error),
    /// The frame ended before its announced size: the backend is broken.
    EarlyEof,
}

/// `bpl * lines`, or the largest `usize` where that does not fit.
pub open spec fn reservation(bpl: u32, lines: usize) -> usize {
    if bpl * lines <= usize::MAX {
        (bpl * lines) as usize
    } else {
        usize::MAX
    }
}

/// The number of lines to ask for after a read of `read` bytes out of `reserved`:
/// half as many when less than half arrived, otherwise one more.
pub open spec fn next_try_lines(try_lines: usize, read: int, reserved: int) -> usize {
    if read < reserved / 2 {
        (try_lines / 2) as usize
    } else if try_lines < usize::MAX {
        (try_lines + 1) as usize
    } else {
        try_lines
    }
}

/// The first step of reading a whole frame.
pub open spec fn first_step(bpl: u32, lines: Option<u32>) -> FullReadStep {
    match lines {
        Some(l) => if bpl * l == 0 {
            FullReadStep::Finished
        } else {
            FullReadStep::Read((bpl * l) as usize)
        },
        None => FullReadStep::Read(reservation(bpl, FIRST_TRY_LINES)),
    }
}

fn reserve_bytes(bpl: u32, lines: usize) -> (r: usize)
    ensures
        r == reservation(bpl, lines),
{
    match (bpl as usize).checked_mul(lines) {
        Some(n) => n,
        None => usize::MAX,
    }
}

/// Appends `data` to `buf`.
fn append_bytes(buf: &mut Vec<u8>, data: &[u8])
    ensures
        final(buf)@ == old(buf)@ + data@,
{
    let mut i: usize = 0;
    while i < data.len()
        invariant
            0 <= i <= data@.len(),
            buf@ == old(buf)@ + data@.subrange(0, i as int),
        decreases data@.len() - i,
    {
        buf.push(data[i]);
        i += 1;
        proof {
            assert(data@.subrange(0, i as int) =~= data@.subrange(0, i - 1) + seq![data@[i - 1]]);
        }
    }
    proof {
        assert(data@.subrange(0, data@.len() as int) =~= data@);
    }
}

/// Reading a whole frame into a buffer: the frame's announced size when its height
/// is known, otherwise until the end of the frame with a reservation that adapts to
/// how much each read delivers.
pub struct FullFrameRead {
    buf: Vec<u8>,
    start: Ghost<Seq<u8>>,
    start_len: usize,
    bytes_per_line: u32,
    lines: Option<u32>,
    try_lines: usize,
    step: FullReadStep,
}

impl FullFrameRead {
    /// What the buffer held before reading.
    pub closed spec fn spec_start(&self) -> Seq<u8> {
        self.start@
    }

    /// What the buffer holds now.
    pub closed spec fn spec_buffer(&self) -> Seq<u8> {
        self.buf@
    }

    pub closed spec fn spec_bytes_per_line(&self) -> u32 {
        self.bytes_per_line
    }

    pub closed spec fn spec_lines(&self) -> Option<u32> {
        self.lines
    }

    /// Lines asked for by the next read of a frame of unknown height.
    pub closed spec fn spec_try_lines(&self) -> usize {
        self.try_lines
    }

    pub closed spec fn spec_step(&self) -> FullReadStep {
        self.step
    }

    /// Consistency of the buffer with the bytes counted so far.
    pub closed spec fn wf(&self) -> bool {
        &&& self.start_len == self.start@.len()
        &&& self.buf@.len() >= self.start_len
        &&& self.buf@.subrange(0, self.start_len as int) == self.start@
        &&& match self.lines {
            Some(l) => {
                &&& self.start_len + self.bytes_per_line * l <= usize::MAX
                &&& self.buf@.len() <= self.start_len + self.bytes_per_line * l
                &&& match self.step {
                    FullReadStep::Read(n) => n == self.start_len + self.bytes_per_line * l
                        - self.buf@.len() && n > 0,
                    FullReadStep::Finished => self.buf@.len() == self.start_len
                        + self.bytes_per_line * l,
                    _ => true,
                }
            },
            None => self.step matches FullReadStep::Read(n) ==> n == reservation(
                self.bytes_per_line,
                self.try_lines,
            ),
        }
    }

    fn new(buf: Vec<u8>, bytes_per_line: u32, lines: Option<u32>) -> (r: Self)
        requires
            lines matches Some(l) ==> buf@.len() + bytes_per_line * l <= usize::MAX,
        ensures
            r.wf(),
            r.spec_start() == buf@,
            r.spec_buffer() == buf@,
            r.spec_bytes_per_line() == bytes_per_line,
            r.spec_lines() == lines,
            lines is None ==> r.spec_try_lines() == FIRST_TRY_LINES,
            r.spec_step() == first_step(bytes_per_line, lines),
    {
        let start_len = buf.len();
        let ghost start = buf@;
        let step = match lines {
            Some(l) => {
                let total = bytes_per_line as usize * l as usize;
                if total == 0 {
                    FullReadStep::Finished
                } else {
                    FullReadStep::Read(total)
                }
            },
            None => FullReadStep::Read(reserve_bytes(bytes_per_line, FIRST_TRY_LINES)),
        };
        proof {
            assert(buf@.subrange(0, start_len as int) =~= start);
        }
        FullFrameRead {
            buf,
            start: Ghost(start),
            start_len,
            bytes_per_line,
            lines,
            try_lines: FIRST_TRY_LINES,
            step,
        }
    }

    /// What to do next.
    pub fn step(&self) -> (r: FullReadStep)
        ensures
            r == self.spec_step(),
    {
        self.step
    }

    /// Appends the bytes that a read delivered.
    pub fn on_data(&mut self, data: &[u8])
        requires
            old(self).wf(),
            old(self).spec_step() matches FullReadStep::Read(n) && data@.len() <= n,
        ensures
            final(self).wf(),
            final(self).spec_buffer() == old(self).spec_buffer() + data@,
            final(self).spec_start() == old(self).spec_start(),
            final(self).spec_bytes_per_line() == old(self).spec_bytes_per_line(),
            final(self).spec_lines() == old(self).spec_lines(),
            old(self).spec_lines() matches Some(l) ==> final(self).spec_step() == (if final(self).spec_buffer().len() == old(self).spec_start().len() + old(self).spec_bytes_per_line()
                * l {
                FullReadStep::Finished
            } else {
                FullReadStep::Read(
                    (old(self).spec_start().len() + old(self).spec_bytes_per_line() * l - final(self).spec_buffer().len()) as usize,
                )
            }),
            old(self).spec_lines() is None ==> {
                let reserved = reservation(
                    old(self).spec_bytes_per_line(),
                    old(self).spec_try_lines(),
                );
                let next = next_try_lines(old(self).spec_try_lines(), data@.len() as int, reserved as int);
                &&& final(self).spec_try_lines() == next
                &&& final(self).spec_step() == FullReadStep::Read(
                    reservation(old(self).spec_bytes_per_line(), next),
                )
            },
    {
        let ghost old_buf = self.buf@;
        let reserved = match self.step {
            FullReadStep::Read(n) => n,
            _ => 0,
        };
        append_bytes(&mut self.buf, data);
        proof {
            assert(self.buf@.subrange(0, self.start_len as int) =~= old_buf.subrange(
                0,
                self.start_len as int,
            ));
        }
        match self.lines {
            Some(l) => {
                let total = self.start_len + self.bytes_per_line as usize * l as usize;
                if self.buf.len() == total {
                    self.step = FullReadStep::Finished;
                } else {
                    self.step = FullReadStep::Read(total - self.buf.len());
                }
            },
            None => {
                if data.len() < reserved / 2 {
                    self.try_lines = self.try_lines / 2;
                } else {
                    self.try_lines = self.try_lines.saturating_add(1);
                }
                self.step = FullReadStep::Read(reserve_bytes(self.bytes_per_line, self.try_lines));
            },
        }
    }

    /// Takes a failed read into account. The end of the frame finishes a read of
    /// unknown height and breaks one of known height; any other error fails the
    /// read, and for a frame of known height leaves the buffer as it was given.
    pub fn on_error(&mut self, err: Error)
        requires
            old(self).wf(),
            old(self).spec_step() is Read,
        ensures
            final(self).wf(),
            final(self).spec_start() == old(self).spec_start(),
            final(self).spec_bytes_per_line() == old(self).spec_bytes_per_line(),
            final(self).spec_lines() == old(self).spec_lines(),
            final(self).spec_try_lines() == old(self).spec_try_lines(),
            err.code() == sys::STATUS_EOF ==> final(self).spec_buffer() == old(self).spec_buffer(),
            err.code() == sys::STATUS_EOF && old(self).spec_lines() is None ==> final(self).spec_step() is Finished,
            err.code() == sys::STATUS_EOF && old(self).spec_lines() is Some ==> final(self).spec_step() is EarlyEof,
            err.code() != sys::STATUS_EOF ==> final(self).spec_step() == FullReadStep::Failed(err),
            err.code() != sys::STATUS_EOF && old(self).spec_lines() is Some ==> final(self).spec_buffer() == old(self).spec_start(),
            err.code() != sys::STATUS_EOF && old(self).spec_lines() is None ==> final(self).spec_buffer() == old(self).spec_buffer(),
    {
        if err.sys_status().0 == sys::STATUS_EOF {
            if self.lines.is_some() {
                self.step = FullReadStep::EarlyEof;
            } else {
                self.step = FullReadStep::Finished;
            }
        } else {
            if self.lines.is_some() {
                self.buf.truncate(self.start_len);
                proof {
                    assert(self.buf@ =~= self.start@);
                    assert(self.buf@.subrange(0, self.start_len as int) =~= self.start@);
                }
            }
            self.step = FullReadStep::Failed(err);
        }
    }

    /// The buffer with everything read so far.
    pub fn into_buffer(self) -> (r: Vec<u8>)
        ensures
            r@ == self.spec_buffer(),
    {
        self.buf
    }
}

/// A read of known height that finished holds what the buffer held before and
/// exactly `bytes_per_line * lines` more bytes.
pub proof fn lemma_full_frame_accounting(r: &FullFrameRead)
    requires
        r.wf(),
        r.spec_lines() is Some,
        r.spec_step() is Finished,
    ensures
        r.spec_buffer().len() == r.spec_start().len() + r.spec_bytes_per_line()
            * r.spec_lines()->0,
        r.spec_buffer().subrange(0, r.spec_start().len() as int) == r.spec_start(),
{
}

/// The kind of I/O error that a failed read of frame data stands for.
#[derive(Clone, Copy, Debug, PartialEq, Eq, Structural)]
pub enum ReadErrorKind {
    BrokenPipe,
    UnexpectedEof,
    OutOfMemory,
    PermissionDenied,
    Other,
}

/// The I/O error kind of a status: a cancelled read is a broken pipe, exhausted
/// memory and denied access keep their meaning, and the end of the frame raised
/// as an error is an unexpected end.
pub open spec fn read_error_kind_of(code: u32) -> ReadErrorKind {
    if code == sys::STATUS_CANCELLED {
        ReadErrorKind::BrokenPipe
    } else if code == sys::STATUS_EOF {
        ReadErrorKind::UnexpectedEof
    } else if code == sys::STATUS_NO_MEM {
        ReadErrorKind::OutOfMemory
    } else if code == sys::STATUS_ACCESS_DENIED {
        ReadErrorKind::PermissionDenied
    } else {
        ReadErrorKind::Other
    }
}

pub fn read_error_kind(error: &Error) -> (r: ReadErrorKind)
    ensures
        r == read_error_kind_of(error.code()),
{
    match error.status() {
        Status::Cancelled => ReadErrorKind::BrokenPipe,
        Status::Eof => ReadErrorKind::UnexpectedEof,
        Status::NoMem => ReadErrorKind::OutOfMemory,
        Status::AccessDenied => ReadErrorKind::PermissionDenied,
        _ => ReadErrorKind::Other,
    }
}

/// A read of frame data as a byte stream sees it: the end of the frame reads
/// zero bytes, other errors stay errors.
pub fn read_as_stream(res: Result<usize, Error>) -> (r: Result<usize, Error>)
    ensures
        res matches Ok(n) ==> r == Ok::<usize, Error>(n),
        res matches Err(e) ==> (if e.code() == sys::STATUS_EOF {
            r == Ok::<usize, Error>(0)
        } else {
            r == Err::<usize, Error>(e)
        }),
{
    match res {
        Ok(n) => Ok(n),
        Err(e) => {
            if e.sys_status().0 == sys::STATUS_EOF {
                Ok(0)
            } else {
                Err(e)
            }
        },
    }
}

} // verus!
