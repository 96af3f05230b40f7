use libsane::error::{status_result, Error};
use libsane::scan::{
    read_as_stream, read_error_kind, FrameFormat, FrameParameters, FrameSetup, FrameState,
    FullReadStep, ReadErrorKind, ScanState, SetupStep,
};
use libsane::sys;

fn err(code: u32) -> Error {
    status_result(sys::Status(code)).unwrap_err()
}

fn params(lines: i32, bpl: i32, last: bool) -> FrameParameters {
    FrameParameters::from(sys::Parameters {
        format: sys::Frame(sys::FRAME_GRAY),
        last_frame: if last { sys::TRUE } else { sys::FALSE },
        bytes_per_line: bpl,
        pixels_per_line: bpl,
        lines,
        depth: 8,
    })
}

/// Feeds `total` bytes through a whole-frame read, in reads of at most `chunk`
/// bytes, then ends the frame; returns the buffer and the last step.
fn run_full_read(p: FrameParameters, total: usize, chunk: usize) -> (Vec<u8>, FullReadStep) {
    let mut scan = ScanState::new();
    let mut frame = FrameState::new(p);
    let mut read = frame.begin_full_read(&mut scan, Vec::new());
    let mut sent = 0usize;
    loop {
        match read.step() {
            FullReadStep::Read(n) => {
                if sent == total {
                    read.on_error(err(sys::STATUS_EOF));
                } else {
                    let len = n.min(chunk).min(total - sent);
                    let data: Vec<u8> = (sent..sent + len).map(|i| i as u8).collect();
                    sent += len;
                    read.on_data(&data);
                }
            }
            step => return (read.into_buffer(), step),
        }
    }
}

#[test]
fn full_frame_unknown_height_reads_until_eof() {
    let (buf, step) = run_full_read(params(-1, 10, true), 250, 1000);
    assert!(matches!(step, FullReadStep::Finished));
    assert_eq!(buf.len(), 250);
    assert_eq!(buf[249], 249);
}

#[test]
fn full_frame_unknown_height_small_reads() {
    let (buf, step) = run_full_read(params(-1, 10, true), 250, 7);
    assert!(matches!(step, FullReadStep::Finished));
    assert_eq!(buf.len(), 250);
}

#[test]
fn full_frame_known_height_reads_exactly() {
    let (buf, step) = run_full_read(params(3, 10, true), 30, 7);
    assert!(matches!(step, FullReadStep::Finished));
    assert_eq!(buf.len(), 30);
}

#[test]
fn full_frame_known_height_early_eof() {
    let (buf, step) = run_full_read(params(3, 10, true), 20, 7);
    assert!(matches!(step, FullReadStep::EarlyEof));
    assert_eq!(buf.len(), 20);
}

#[test]
fn full_frame_first_request_and_adaptation() {
    let mut scan = ScanState::new();
    let mut frame = FrameState::new(params(-1, 10, false));
    let mut read = frame.begin_full_read(&mut scan, vec![1, 2]);
    assert!(!scan.is_done());
    assert!(matches!(read.step(), FullReadStep::Read(320)));
    read.on_data(&[0; 100]);
    assert!(matches!(read.step(), FullReadStep::Read(160)));
    read.on_data(&[0; 160]);
    assert!(matches!(read.step(), FullReadStep::Read(170)));
    read.on_error(err(sys::STATUS_IO_ERROR));
    assert!(matches!(read.step(), FullReadStep::Failed(e) if e == err(sys::STATUS_IO_ERROR)));
    assert_eq!(read.into_buffer().len(), 2 + 260);
}

#[test]
fn full_frame_known_height_error_keeps_buffer() {
    let mut scan = ScanState::new();
    let mut frame = FrameState::new(params(2, 4, true));
    let mut read = frame.begin_full_read(&mut scan, vec![9]);
    assert!(scan.is_done());
    assert!(matches!(read.step(), FullReadStep::Read(8)));
    read.on_data(&[1, 2, 3]);
    assert!(matches!(read.step(), FullReadStep::Read(5)));
    read.on_error(err(sys::STATUS_JAMMED));
    assert_eq!(read.into_buffer(), vec![9]);
}

#[test]
fn full_frame_zero_size_is_finished_at_once() {
    let mut scan = ScanState::new();
    let mut frame = FrameState::new(params(0, 4, false));
    let read = frame.begin_full_read(&mut scan, Vec::new());
    assert!(matches!(read.step(), FullReadStep::Finished));
}

#[test]
fn cancelled_scan_starts_no_frame() {
    let mut scan = ScanState::new();
    assert!(matches!(scan.next_frame(), SetupStep::Call(FrameSetup::Start)));
    assert!(scan.cancel());
    assert!(scan.is_done());
    assert!(matches!(scan.next_frame(), SetupStep::NoFrame));
    assert!(!scan.cancel());
    let mut frame = FrameState::new(params(1, 1, false));
    frame.after_read(&mut scan, &Ok(5));
    assert!(matches!(scan.next_frame(), SetupStep::NoFrame));
}

#[test]
fn frame_setup_sequence() {
    assert!(matches!(
        ScanState::after_start(Ok(())),
        SetupStep::Call(FrameSetup::SetBlockingIo)
    ));
    assert!(matches!(
        ScanState::after_start(Err(err(sys::STATUS_NO_DOCS))),
        SetupStep::Fail(e) if e == err(sys::STATUS_NO_DOCS)
    ));
    assert!(matches!(
        ScanState::after_set_io_mode(Err(err(sys::STATUS_UNSUPPORTED))),
        SetupStep::Call(FrameSetup::GetParameters)
    ));
    assert!(matches!(
        ScanState::after_set_io_mode(Err(err(sys::STATUS_INVAL))),
        SetupStep::Fail(e) if e == err(sys::STATUS_INVAL)
    ));
    let raw = sys::Parameters {
        format: sys::Frame(sys::FRAME_RED),
        last_frame: sys::FALSE,
        bytes_per_line: 12,
        pixels_per_line: 4,
        lines: -1,
        depth: 8,
    };
    match ScanState::after_get_parameters(Ok(raw)) {
        SetupStep::Frame(p) => {
            assert_eq!(p.format(), FrameFormat::Red);
            assert!(!p.last_frame);
            assert_eq!(p.lines, None);
            assert_eq!(p.bytes_per_line, 12);
        }
        _ => panic!("expected a frame"),
    }
}

#[test]
fn reads_that_end_the_scan() {
    let mut scan = ScanState::new();
    let mut frame = FrameState::new(params(1, 1, false));
    frame.after_read(&mut scan, &Err(err(sys::STATUS_EOF)));
    assert!(!scan.is_done());
    frame.after_read(&mut scan, &Err(err(sys::STATUS_CANCELLED)));
    assert!(scan.is_done());

    let mut scan = ScanState::new();
    let mut last = FrameState::new(params(1, 1, true));
    last.after_read(&mut scan, &Err(err(sys::STATUS_EOF)));
    assert!(scan.is_done());
}

#[test]
fn read_errors_as_io_kinds() {
    assert_eq!(read_error_kind(&err(sys::STATUS_CANCELLED)), ReadErrorKind::BrokenPipe);
    assert_eq!(read_error_kind(&err(sys::STATUS_EOF)), ReadErrorKind::UnexpectedEof);
    assert_eq!(read_error_kind(&err(sys::STATUS_NO_MEM)), ReadErrorKind::OutOfMemory);
    assert_eq!(
        read_error_kind(&err(sys::STATUS_ACCESS_DENIED)),
        ReadErrorKind::PermissionDenied
    );
    assert_eq!(read_error_kind(&err(sys::STATUS_JAMMED)), ReadErrorKind::Other);
    assert_eq!(read_as_stream(Err(err(sys::STATUS_EOF))), Ok(0));
    assert_eq!(read_as_stream(Ok(17)), Ok(17));
    assert_eq!(
        read_as_stream(Err(err(sys::STATUS_IO_ERROR))),
        Err(err(sys::STATUS_IO_ERROR))
    );
}

#[test]
fn frame_formats() {
    assert!(FrameFormat::Rgb.is_rgb());
    assert!(FrameFormat::Blue.is_rgb());
    assert!(!FrameFormat::Gray.is_rgb());
    assert!(!FrameFormat::Unsupported.is_rgb());
    assert_eq!(FrameFormat::from(sys::Frame(7)), FrameFormat::Unsupported);
    let p = params(4, 2, true);
    assert_eq!(p.sys_format(), sys::Frame(sys::FRAME_GRAY));
    assert_eq!(p.lines, Some(4));
    assert!(p.last_frame);
}
