//! PNG round trips, the compression trade-off and the data-URI transport.
use base64::Engine;
use xshot_core::EncodeError;
use xshot_core::encoder::Compression;
use xshot_core::encoder::EncodedImage;
use xshot_core::encoder::ImageFormat;
use xshot_core::encoder::base64_encode;
use xshot_core::encoder::encode_png;
use xshot_core::encoder::to_data_uri;
use xshot_core::orchestrator::SessionError;
use xshot_core::orchestrator::capture_fullscreen_encoded;
use xshot_core::orchestrator::capture_region_encoded;
use xshot_core::pixels::PixelBuffer;

/// A small deterministic RGBA pattern.
fn pattern(width: u32, height: u32) -> PixelBuffer {
    let mut data = Vec::new();
    for k in 0..(width as usize) * (height as usize) * 4 {
        data.push((k * 7 % 256) as u8);
    }
    PixelBuffer { width, height, data }
}

fn decode(png: &[u8]) -> (u32, u32, Vec<u8>) {
    let img = image::load_from_memory(png).expect("decodable PNG").to_rgba8();
    (img.width(), img.height(), img.into_raw())
}

#[test]
fn png_round_trip_is_lossless_for_both_compressions() {
    // Both compression choices decode back to the identical width, height
    // and pixel values.
    let buf = pattern(31, 17);
    for compression in [Compression::Fast, Compression::Best] {
        let img = encode_png(&buf, compression).unwrap();
        let (w, h, raw) = decode(&img.bytes);
        assert_eq!(w, 31);
        assert_eq!(h, 17);
        assert_eq!(raw, buf.data);
    }
}

#[test]
fn encoding_is_deterministic_per_compression() {
    let buf = pattern(16, 16);
    let a = encode_png(&buf, Compression::Fast).unwrap();
    let b = encode_png(&pattern(16, 16), Compression::Fast).unwrap();
    assert_eq!(a.bytes, b.bytes);
    let c = encode_png(&buf, Compression::Best).unwrap();
    let d = encode_png(&pattern(16, 16), Compression::Best).unwrap();
    assert_eq!(c.bytes, d.bytes);
}

#[test]
fn invalid_buffer_is_rejected_with_encode_error() {
    let wrong_len = PixelBuffer { width: 4, height: 4, data: vec![0u8; 9] };
    assert!(matches!(encode_png(&wrong_len, Compression::Fast), Err(EncodeError::InvalidBuffer)));
    let zero_dim = PixelBuffer { width: 0, height: 4, data: Vec::new() };
    assert!(matches!(encode_png(&zero_dim, Compression::Best), Err(EncodeError::InvalidBuffer)));
}

#[test]
fn fullscreen_pipeline_round_trips() {
    let buf = pattern(64, 48);
    let img = capture_fullscreen_encoded(pattern(64, 48), Compression::Fast).unwrap();
    let (w, h, raw) = decode(&img.bytes);
    assert_eq!((w, h), (64, 48));
    assert_eq!(raw, buf.data);

    let bad = PixelBuffer { width: 2, height: 2, data: vec![1u8; 3] };
    assert!(matches!(
        capture_fullscreen_encoded(bad, Compression::Fast),
        Err(SessionError::Capture(_))
    ));
}

#[test]
fn region_pipeline_encodes_exactly_the_region() {
    // The encoded region decodes to the requested dimensions and to the
    // source pixels offset by the region origin.
    let full = pattern(40, 30);
    let img = capture_region_encoded(pattern(40, 30), 5, 3, 20, 10, Compression::Best).unwrap();
    let (w, h, raw) = decode(&img.bytes);
    assert_eq!((w, h), (20, 10));
    for row in 0..10usize {
        for col in 0..20usize {
            for ch in 0..4usize {
                let got = raw[(row * 20 + col) * 4 + ch];
                let want = full.data[((row + 3) * 40 + (col + 5)) * 4 + ch];
                assert_eq!(got, want);
            }
        }
    }
}

#[test]
fn region_pipeline_rejects_out_of_bounds() {
    let r = capture_region_encoded(pattern(40, 30), 30, 0, 20, 10, Compression::Fast);
    assert!(matches!(
        r,
        Err(SessionError::Capture(xshot_core::CaptureError::RegionOutOfBounds))
    ));
}

#[test]
fn base64_matches_reference_engine() {
    let reference = base64::engine::general_purpose::STANDARD;
    for len in 0..10usize {
        let bytes: Vec<u8> = (0..len).map(|k| (k * 37 + 11) as u8).collect();
        assert_eq!(base64_encode(&bytes), reference.encode(&bytes));
    }
    let bigger: Vec<u8> = (0..255u8).collect();
    assert_eq!(base64_encode(&bigger), reference.encode(&bigger));
}

#[test]
fn base64_known_values() {
    assert_eq!(base64_encode(&b"Man".to_vec()), "TWFu");
    assert_eq!(base64_encode(&b"Ma".to_vec()), "TWE=");
    assert_eq!(base64_encode(&b"M".to_vec()), "TQ==");
    assert_eq!(base64_encode(&Vec::new()), "");
}

#[test]
fn data_uri_wraps_bytes_without_reencoding() {
    let img = EncodedImage { format: ImageFormat::Png, bytes: vec![1, 2, 3, 250, 251, 252] };
    let uri = to_data_uri(&img);
    let reference = base64::engine::general_purpose::STANDARD;
    assert_eq!(uri, format!("data:image/png;base64,{}", reference.encode(&img.bytes)));
    assert!(uri.starts_with("data:image/png;base64,"));
}
