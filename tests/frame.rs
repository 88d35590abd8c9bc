use ffplay_lite::frame::{packed, AudioFrame, FrameError, Layout, PcmFormat};

fn plane_of(xs: &[f32]) -> Vec<u8> {
    xs.iter().flat_map(|x| x.to_le_bytes()).collect()
}

#[test]
fn planar_frame_is_refused() {
    let f = AudioFrame {
        format: PcmFormat::F32(Layout::Planar),
        channels: 2,
        samples: 1,
        plane: plane_of(&[0.1, 0.2]),
    };
    assert_eq!(packed(&f), Err(FrameError::NotPacked));
}

#[test]
fn frame_of_other_type_is_refused() {
    let f = AudioFrame {
        format: PcmFormat::I16(Layout::Packed),
        channels: 2,
        samples: 2,
        plane: vec![0u8; 8],
    };
    assert_eq!(packed(&f), Err(FrameError::UnsupportedType));
}

#[test]
fn short_plane_is_refused() {
    let f = AudioFrame {
        format: PcmFormat::F32(Layout::Packed),
        channels: 2,
        samples: 3,
        plane: plane_of(&[1.0, 2.0, 3.0, 4.0, 5.0]),
    };
    assert_eq!(packed(&f), Err(FrameError::ShortPlane));
}

#[test]
fn packed_stereo_frame_keeps_every_value_bit_for_bit() {
    let values = [0.5f32, -0.5, 1.0e-8, -0.0, f32::MAX, f32::MIN_POSITIVE];
    let mut plane = plane_of(&values);
    plane.extend_from_slice(&[0xAB; 8]);
    let f = AudioFrame { format: PcmFormat::F32(Layout::Packed), channels: 2, samples: 3, plane };
    let words = packed(&f).unwrap();
    assert_eq!(words.len(), 6);
    let back: Vec<u32> = values.iter().map(|x| x.to_bits()).collect();
    assert_eq!(words, back);
}

#[test]
fn word_is_read_little_endian() {
    let f = AudioFrame {
        format: PcmFormat::F32(Layout::Packed),
        channels: 1,
        samples: 1,
        plane: vec![0x01, 0x02, 0x03, 0x04],
    };
    assert_eq!(packed(&f), Ok(vec![0x0403_0201]));
}

#[test]
fn empty_frame_gives_no_values() {
    let f = AudioFrame { format: PcmFormat::F32(Layout::Packed), channels: 2, samples: 0, plane: vec![] };
    assert_eq!(packed(&f), Ok(vec![]));
}

#[test]
fn packedness_follows_the_layout() {
    assert!(PcmFormat::F32(Layout::Packed).is_packed());
    assert!(!PcmFormat::U8(Layout::Planar).is_packed());
    assert!(PcmFormat::Unset.is_packed());
}
