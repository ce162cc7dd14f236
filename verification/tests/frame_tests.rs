use qemuweb_sidecar::frame::{Frame, FrameError};
use qemuweb_sidecar::protocol::{Double, FrameFormat, FrameMetadata};

fn test_metadata() -> FrameMetadata {
    FrameMetadata {
        sequence: 0,
        timestamp: Double::from_bits(0.0f64.to_bits()),
        width: 2,
        height: 2,
        format: FrameFormat::Rgba,
        keyframe: true,
    }
}

fn metadata(width: u32, height: u32, format: FrameFormat) -> FrameMetadata {
    FrameMetadata { width, height, format, ..test_metadata() }
}

#[test]
fn test_frame_creation() {
    let metadata = test_metadata();
    let data = vec![0u8; 16]; // 2x2 RGBA = 16 bytes
    let frame = Frame::new(metadata, data).unwrap();
    assert_eq!(frame.as_bytes().len(), 16);
}

#[test]
fn test_frame_size_mismatch() {
    let metadata = test_metadata();
    let data = vec![0u8; 8]; // Wrong size
    let result = Frame::new(metadata, data);
    assert!(matches!(result, Err(FrameError::SizeMismatch { .. })));
}

#[test]
fn test_rgba_to_rgb565() {
    let metadata = test_metadata();
    // White pixel in RGBA: [255, 255, 255, 255]
    let data = vec![255u8; 16];
    let frame = Frame::new(metadata, data).unwrap();

    let converted = frame.convert(FrameFormat::Rgb565).unwrap();
    assert_eq!(converted.data.len(), 8); // 2x2 RGB565 = 8 bytes
}

#[test]
fn size_mismatch_reports_expected_and_actual() {
    match Frame::new(test_metadata(), vec![0u8; 8]) {
        Err(FrameError::SizeMismatch { expected, actual }) => {
            assert_eq!(expected, 16);
            assert_eq!(actual, 8);
        }
        other => panic!("{:?}", other),
    }
    match Frame::new(metadata(3, 5, FrameFormat::Rgb565), vec![0u8; 31]) {
        Err(FrameError::SizeMismatch { expected, actual }) => {
            assert_eq!(expected, 30);
            assert_eq!(actual, 31);
        }
        other => panic!("{:?}", other),
    }
}

#[test]
fn frame_keeps_metadata_and_payload() {
    let mut m = metadata(1, 2, FrameFormat::Rgb565);
    m.sequence = 77;
    m.timestamp = Double::from_bits(1234.5f64.to_bits());
    m.keyframe = false;
    let frame = Frame::new(m, vec![1, 2, 3, 4]).unwrap();
    assert_eq!(frame.metadata.sequence, 77);
    assert_eq!(f64::from_bits(frame.metadata.timestamp.to_bits()), 1234.5);
    assert_eq!(frame.metadata.width, 1);
    assert_eq!(frame.metadata.height, 2);
    assert_eq!(frame.metadata.format, FrameFormat::Rgb565);
    assert!(!frame.metadata.keyframe);
    assert_eq!(frame.data, vec![1, 2, 3, 4]);
    assert_eq!(frame.as_bytes(), &[1u8, 2, 3, 4][..]);
}

#[test]
fn layouts_without_pixel_size_take_any_payload() {
    assert!(Frame::new(metadata(4, 4, FrameFormat::Yuv420), vec![0u8; 24]).is_ok());
    assert!(Frame::new(metadata(4, 4, FrameFormat::Yuv420), vec![]).is_ok());
    assert!(Frame::new(metadata(4, 4, FrameFormat::Compressed), vec![9u8; 5]).is_ok());
}

#[test]
fn empty_frame_of_zero_width() {
    let frame = Frame::new(metadata(0, 7, FrameFormat::Rgba), vec![]).unwrap();
    assert!(frame.data.is_empty());
    let converted = frame.convert(FrameFormat::Rgb565).unwrap();
    assert!(converted.data.is_empty());
    assert!(Frame::new(metadata(0, 7, FrameFormat::Rgba), vec![0u8; 4]).is_err());
}

#[test]
fn white_pixels_become_all_ones_words() {
    let frame = Frame::new(test_metadata(), vec![255u8; 16]).unwrap();
    let converted = frame.convert(FrameFormat::Rgb565).unwrap();
    assert_eq!(converted.data.len(), 8);
    for word in converted.data.chunks(2) {
        assert_eq!(u16::from_le_bytes([word[0], word[1]]), 0xFFFF);
    }
    assert_eq!(converted.metadata.format, FrameFormat::Rgb565);
    assert_eq!(converted.metadata.width, 2);
    assert_eq!(converted.metadata.height, 2);
    // the frame that was converted is as it was
    assert_eq!(frame.data, vec![255u8; 16]);
    assert_eq!(frame.metadata.format, FrameFormat::Rgba);
}

#[test]
fn packing_takes_the_top_bits_of_each_channel() {
    // red only, green only, blue only, and a mixed pixel whose alpha is dropped
    let data = vec![
        0xFF, 0x00, 0x00, 0x12, //
        0x00, 0xFF, 0x00, 0x34, //
        0x00, 0x00, 0xFF, 0x56, //
        0x12, 0x34, 0x56, 0x78,
    ];
    let frame = Frame::new(metadata(4, 1, FrameFormat::Rgba), data).unwrap();
    let converted = frame.convert(FrameFormat::Rgb565).unwrap();
    let words: Vec<u16> =
        converted.data.chunks(2).map(|w| u16::from_le_bytes([w[0], w[1]])).collect();
    assert_eq!(words, vec![0xF800, 0x07E0, 0x001F, 0x11AA]);
    assert_eq!(converted.data, vec![0x00, 0xF8, 0xE0, 0x07, 0x1F, 0x00, 0xAA, 0x11]);
}

#[test]
fn unpacking_widens_and_sets_alpha() {
    let words: [u16; 5] = [0xF800, 0x07E0, 0x001F, 0x11AA, 0x0000];
    let mut data = Vec::new();
    for w in words {
        data.extend_from_slice(&w.to_le_bytes());
    }
    let frame = Frame::new(metadata(5, 1, FrameFormat::Rgb565), data).unwrap();
    let converted = frame.convert(FrameFormat::Rgba).unwrap();
    assert_eq!(
        converted.data,
        vec![
            255, 0, 0, 255, //
            0, 255, 0, 255, //
            0, 0, 255, 255, //
            0x10, 0x34, 0x52, 255, //
            0, 0, 0, 255,
        ]
    );
    assert_eq!(converted.metadata.format, FrameFormat::Rgba);
}

#[test]
fn alpha_is_opaque_after_every_unpacking() {
    let mut data = Vec::new();
    for w in (0u16..=u16::MAX).step_by(257) {
        data.extend_from_slice(&w.to_le_bytes());
    }
    let pixels = (data.len() / 2) as u32;
    let frame = Frame::new(metadata(pixels, 1, FrameFormat::Rgb565), data).unwrap();
    let converted = frame.convert(FrameFormat::Rgba).unwrap();
    assert_eq!(converted.data.len(), 4 * pixels as usize);
    for pixel in converted.data.chunks(4) {
        assert_eq!(pixel[3], 255);
    }
}

#[test]
fn two_byte_layout_survives_the_round_trip() {
    let mut data = Vec::new();
    for w in (0u16..=u16::MAX).step_by(97) {
        data.extend_from_slice(&w.to_le_bytes());
    }
    let pixels = (data.len() / 2) as u32;
    let frame = Frame::new(metadata(pixels, 1, FrameFormat::Rgb565), data.clone()).unwrap();
    let back = frame.convert(FrameFormat::Rgba).unwrap().convert(FrameFormat::Rgb565).unwrap();
    assert_eq!(back.data, data);
}

#[test]
fn four_byte_layout_loses_low_bits_in_the_round_trip() {
    let data = vec![1, 2, 4, 0, 0x12, 0x34, 0x56, 0x78, 255, 255, 255, 3];
    let frame = Frame::new(metadata(3, 1, FrameFormat::Rgba), data.clone()).unwrap();
    let back = frame.convert(FrameFormat::Rgb565).unwrap().convert(FrameFormat::Rgba).unwrap();
    assert_eq!(back.data, vec![0, 0, 0, 255, 0x10, 0x34, 0x52, 255, 255, 255, 255, 255]);
    assert_ne!(back.data, data);
    for (kept, given) in back.data.chunks(4).zip(data.chunks(4)) {
        assert_eq!(kept[0], (given[0] & 0xF8) | (given[0] >> 5));
        assert_eq!(kept[1], (given[1] & 0xFC) | (given[1] >> 6));
        assert_eq!(kept[2], (given[2] & 0xF8) | (given[2] >> 5));
        assert_eq!(kept[3], 255);
    }
}

#[test]
fn converting_to_the_own_layout_copies() {
    for format in
        [FrameFormat::Rgba, FrameFormat::Rgb565, FrameFormat::Yuv420, FrameFormat::Compressed]
    {
        let data: Vec<u8> = (0u8..16).collect();
        let frame = Frame::new(metadata(2, if format == FrameFormat::Rgb565 { 4 } else { 2 }, format), data.clone()).unwrap();
        let copy = frame.convert(format).unwrap();
        assert_eq!(copy.data, data);
        assert_eq!(copy.metadata.format, format);
        assert_eq!(copy.metadata.width, frame.metadata.width);
        assert_eq!(copy.metadata.height, frame.metadata.height);
    }
}

#[test]
fn other_pairs_are_refused() {
    let all =
        [FrameFormat::Rgba, FrameFormat::Rgb565, FrameFormat::Yuv420, FrameFormat::Compressed];
    for from in all {
        for to in all {
            let height = if from == FrameFormat::Rgb565 { 4 } else { 2 };
            let frame = Frame::new(metadata(2, height, from), vec![0u8; 16]).unwrap();
            let supported = from == to
                || (from == FrameFormat::Rgba && to == FrameFormat::Rgb565)
                || (from == FrameFormat::Rgb565 && to == FrameFormat::Rgba);
            match frame.convert(to) {
                Ok(_) => assert!(supported),
                Err(FrameError::UnsupportedConversion { from: f, to: t }) => {
                    assert!(!supported);
                    assert_eq!(f, from);
                    assert_eq!(t, to);
                }
                Err(other) => panic!("{:?}", other),
            }
        }
    }
}
