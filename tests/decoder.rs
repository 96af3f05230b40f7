use libsane::frame_decoder::{DecodedImageFormat, FrameDecodeError, FrameDecoder};
use libsane::scan::FrameParameters;
use libsane::sys;

fn params(format: u32, ppl: i32, bpl: i32, lines: i32, depth: i32) -> FrameParameters {
    FrameParameters::from(sys::Parameters {
        format: sys::Frame(format),
        last_frame: sys::TRUE,
        bytes_per_line: bpl,
        pixels_per_line: ppl,
        lines,
        depth,
    })
}

#[test]
fn gray_depth8_padded() {
    let p = params(sys::FRAME_GRAY, 4, 8, 2, 8);
    let mut d = FrameDecoder::new();
    d.write(&[10, 20, 30, 40, 0, 0, 0, 0, 50, 60, 70, 80, 0, 0, 0, 0], &p).unwrap();
    assert!(d.is_done());
    let img = d.into_image().unwrap();
    assert_eq!(img.format, DecodedImageFormat::Gray { bytes_per_pixel: 1 });
    assert_eq!(img.width, 4);
    assert_eq!(img.height, 2);
    assert_eq!(img.data, vec![10, 20, 30, 40, 50, 60, 70, 80]);
}

#[test]
fn black_and_white_packed() {
    let p = params(sys::FRAME_GRAY, 8, 1, 2, 1);
    let mut d = FrameDecoder::new();
    d.write(&[0b1010_1010, 0b1111_0000], &p).unwrap();
    let img = d.into_image().unwrap();
    assert_eq!(img.format, DecodedImageFormat::BlackAndWhite);
    assert_eq!(img.data, vec![0b0101_0101, 0b0000_1111]);
    assert_eq!((img.width, img.height), (8, 2));
}

#[test]
fn black_and_white_expanded() {
    let p = params(sys::FRAME_GRAY, 8, 1, 2, 1);
    let mut d = FrameDecoder::builder().decode_black_and_white_as_bytes(true).build();
    d.write(&[0b1010_1010, 0b1111_0000], &p).unwrap();
    let img = d.into_image().unwrap();
    assert_eq!(img.format, DecodedImageFormat::BlackAndWhite);
    assert_eq!(img.data, vec![0, 1, 0, 1, 0, 1, 0, 1, 0, 0, 0, 0, 1, 1, 1, 1]);
}

#[test]
fn black_and_white_padded_rows() {
    let p = params(sys::FRAME_GRAY, 8, 2, -1, 1);
    let mut d = FrameDecoder::new();
    d.write(&[0x0f, 0xaa, 0xf0, 0xbb], &p).unwrap();
    let img = d.into_image().unwrap();
    assert_eq!(img.data, vec![0xf0, 0x0f]);
}

#[test]
fn rgb_interleaved_depth8() {
    let p = params(sys::FRAME_RGB, 1, 3, 1, 8);
    let mut d = FrameDecoder::new();
    d.write(&[1, 2, 3], &p).unwrap();
    let img = d.into_image().unwrap();
    assert_eq!(img.format, DecodedImageFormat::Rgb { bytes_per_channel: 1 });
    assert_eq!((img.width, img.height), (1, 1));
    assert_eq!(img.data, vec![1, 2, 3]);
}

#[test]
fn rgb_bands_green_blue_red() {
    let mut d = FrameDecoder::new();
    d.write(&[20], &params(sys::FRAME_GREEN, 1, 1, 1, 8)).unwrap();
    assert!(!d.is_done());
    d.write(&[30], &params(sys::FRAME_BLUE, 1, 1, 1, 8)).unwrap();
    assert!(!d.is_done());
    d.write(&[10], &params(sys::FRAME_RED, 1, 1, 1, 8)).unwrap();
    assert!(d.is_done());
    let img = d.into_image().unwrap();
    assert_eq!(img.format, DecodedImageFormat::Rgb { bytes_per_channel: 1 });
    assert_eq!(img.data, vec![10, 20, 30]);
}

#[test]
fn rgb_bands_in_every_order_match_interleaved() {
    // 2x2 image, 16-bit channels, band rows padded to 6 bytes, interleaved rows to 14.
    let red: Vec<u8> = vec![1, 2, 3, 4, 0, 0, 5, 6, 7, 8, 0, 0];
    let green: Vec<u8> = vec![11, 12, 13, 14, 0, 0, 15, 16, 17, 18, 0, 0];
    let blue: Vec<u8> = vec![21, 22, 23, 24, 0, 0, 25, 26, 27, 28, 0, 0];
    let interleaved: Vec<u8> = vec![
        1, 2, 11, 12, 21, 22, 3, 4, 13, 14, 23, 24, 9, 9, //
        5, 6, 15, 16, 25, 26, 7, 8, 17, 18, 27, 28, 9, 9,
    ];
    let mut whole = FrameDecoder::new();
    whole.write(&interleaved, &params(sys::FRAME_RGB, 2, 14, 2, 16)).unwrap();
    let expected = whole.into_image().unwrap();
    assert_eq!(expected.data.len(), 2 * 2 * 3 * 2);
    let bands = [
        (sys::FRAME_RED, &red),
        (sys::FRAME_GREEN, &green),
        (sys::FRAME_BLUE, &blue),
    ];
    let orders = [[0, 1, 2], [0, 2, 1], [1, 0, 2], [1, 2, 0], [2, 0, 1], [2, 1, 0]];
    for order in orders {
        let mut d = FrameDecoder::new();
        for &k in order.iter() {
            let (code, data) = bands[k];
            d.write(data, &params(code, 2, 6, 2, 16)).unwrap();
        }
        let img = d.into_image().unwrap();
        assert_eq!(img.format, DecodedImageFormat::Rgb { bytes_per_channel: 2 });
        assert_eq!(img.data, expected.data);
        assert_eq!((img.width, img.height), (2, 2));
    }
}

#[test]
fn done_decoder_refuses_more_frames() {
    let p = params(sys::FRAME_GRAY, 2, 2, 1, 8);
    let mut d = FrameDecoder::new();
    d.write(&[7, 8], &p).unwrap();
    assert_eq!(d.write(&[9, 9], &p), Err(FrameDecodeError::AlreadyDone));
    assert_eq!(
        d.write(&[1, 2, 3], &params(sys::FRAME_RGB, 1, 3, 1, 8)),
        Err(FrameDecodeError::AlreadyDone)
    );
    assert_eq!(d.into_image().unwrap().data, vec![7, 8]);
}

#[test]
fn padding_is_discarded_for_wide_rows() {
    // 3 pixels of 2 bytes, rows of 10 bytes, 3 rows.
    let mut frame = Vec::new();
    for row in 0..3u8 {
        frame.extend_from_slice(&[row, 1, row, 2, row, 3, 0xee, 0xee, 0xee, 0xee]);
    }
    let mut d = FrameDecoder::new();
    d.write(&frame, &params(sys::FRAME_GRAY, 3, 10, 3, 16)).unwrap();
    let img = d.into_image().unwrap();
    assert_eq!(img.format, DecodedImageFormat::Gray { bytes_per_pixel: 2 });
    assert_eq!(img.data.len(), 3 * 3 * 2);
    assert_eq!(img.data, vec![0, 1, 0, 2, 0, 3, 1, 1, 1, 2, 1, 3, 2, 1, 2, 2, 2, 3]);
}

#[test]
fn duplicate_channel_is_refused() {
    let mut d = FrameDecoder::new();
    d.write(&[1], &params(sys::FRAME_RED, 1, 1, 1, 8)).unwrap();
    assert_eq!(
        d.write(&[2], &params(sys::FRAME_RED, 1, 1, 1, 8)),
        Err(FrameDecodeError::DuplicateChannel)
    );
    assert!(!d.is_done());
}

#[test]
fn mismatched_band_is_refused() {
    let mut d = FrameDecoder::new();
    d.write(&[1, 2], &params(sys::FRAME_RED, 2, 2, 1, 8)).unwrap();
    assert_eq!(
        d.write(&[1, 2, 3], &params(sys::FRAME_GREEN, 3, 3, 1, 8)),
        Err(FrameDecodeError::UnexpectedParameters)
    );
    assert_eq!(
        d.write(&[1, 2, 3, 4], &params(sys::FRAME_GREEN, 2, 2, 2, 8)),
        Err(FrameDecodeError::UnexpectedParameters)
    );
    assert_eq!(
        d.write(&[1, 2, 3, 4], &params(sys::FRAME_GREEN, 2, 4, 1, 16)),
        Err(FrameDecodeError::UnexpectedParameters)
    );
    assert_eq!(
        d.write(&[1, 2, 3], &params(sys::FRAME_RGB, 1, 3, 1, 8)),
        Err(FrameDecodeError::UnsupportedParameters)
    );
}

#[test]
fn unsupported_parameters() {
    let mut d = FrameDecoder::new();
    assert_eq!(
        d.write(&[0, 0], &params(sys::FRAME_GRAY, 2, 2, 1, 12)),
        Err(FrameDecodeError::UnsupportedParameters)
    );
    assert_eq!(
        d.write(&[0], &params(sys::FRAME_GRAY, 4, 1, 1, 1)),
        Err(FrameDecodeError::UnsupportedParameters)
    );
    assert_eq!(
        d.write(&[0], &params(9, 1, 1, 1, 8)),
        Err(FrameDecodeError::UnsupportedParameters)
    );
    assert!(!d.is_done());
}

#[test]
fn invalid_parameters() {
    let mut d = FrameDecoder::new();
    assert_eq!(
        d.write(&[0, 0], &params(sys::FRAME_GRAY, 2, 2, 1, 0)),
        Err(FrameDecodeError::InvalidParameters)
    );
    assert_eq!(
        d.write(&[0, 0, 0], &params(sys::FRAME_GRAY, 2, 2, -1, 8)),
        Err(FrameDecodeError::InvalidParameters)
    );
    assert_eq!(
        d.write(&[0, 0, 0, 0], &params(sys::FRAME_GRAY, 2, 2, 3, 8)),
        Err(FrameDecodeError::InvalidParameters)
    );
    assert_eq!(
        d.write(&[0, 0], &params(sys::FRAME_GRAY, 2, 0, -1, 8)),
        Err(FrameDecodeError::InvalidParameters)
    );
    assert_eq!(
        d.write(&[0, 0], &params(sys::FRAME_GRAY, 4, 2, 1, 8)),
        Err(FrameDecodeError::InvalidParameters)
    );
    assert!(!d.is_done());
}

#[test]
fn buffer_is_kept_in_front_of_image() {
    let mut d = FrameDecoder::builder().with_buffer(vec![99, 98]).build();
    d.write(&[5, 6], &params(sys::FRAME_GRAY, 2, 2, 1, 8)).unwrap();
    assert_eq!(d.into_image().unwrap().data, vec![99, 98, 5, 6]);
}

#[test]
fn incomplete_image_returns_buffer() {
    let mut d = FrameDecoder::builder().with_buffer(vec![1, 2, 3]).build();
    d.write(&[9], &params(sys::FRAME_BLUE, 1, 1, 1, 8)).unwrap();
    assert_eq!(d.into_image().unwrap_err(), vec![1, 2, 3]);
    assert_eq!(FrameDecoder::default().into_image().unwrap_err(), Vec::<u8>::new());
}
