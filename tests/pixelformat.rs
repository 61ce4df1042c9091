use v_ayylmao::pixelformat::PixelFormat;

#[test]
fn bytes_round_trip() {
    let cases: [[u8; 4]; 5] = [[0, 0, 0, 0], [255, 255, 255, 255], [1, 2, 3, 4], *b"NV12", [0x80, 0x00, 0xff, 0x7f]];
    for b in cases {
        assert_eq!(PixelFormat::from_bytes(b).to_bytes(), b);
    }
}

#[test]
fn bytes_are_little_endian() {
    assert_eq!(PixelFormat::from_bytes([1, 2, 3, 4]).to_u32_le(), 0x0403_0201);
    assert_eq!(PixelFormat::from_u32_le(0x0403_0201).to_bytes(), [1, 2, 3, 4]);
}

#[test]
fn nv12_code() {
    let f = PixelFormat::nv12();
    assert_eq!(f.to_bytes(), *b"NV12");
    assert_eq!(f.to_u32_le(), 0x3231_564e);
    assert_eq!(f, PixelFormat::from_bytes(*b"NV12"));
    assert_ne!(f, PixelFormat::from_bytes(*b"RGBA"));
}

#[test]
fn renders_four_characters() {
    let s: String = PixelFormat::from_bytes(*b"RGBX").to_chars().iter().collect();
    assert_eq!(s, "RGBX");
    let s: String = PixelFormat::nv12().to_chars().iter().collect();
    assert_eq!(s, "NV12");
}

#[test]
fn equal_codes_are_equal_formats() {
    assert_eq!(PixelFormat::from_u32_le(0x3231_564e), PixelFormat::nv12());
    assert_eq!(PixelFormat::from_u32_le(PixelFormat::nv12().to_u32_le()), PixelFormat::nv12());
    let p = PixelFormat::from_u32_le(0xdead_beef);
    assert_eq!(PixelFormat::from_bytes(p.to_bytes()), p);
    assert_eq!(PixelFormat::from_u32_le(0x1234_5678), PixelFormat::from_bytes(0x1234_5678u32.to_le_bytes()));
}
