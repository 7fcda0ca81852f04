use tagged_ptr::packable3::{F32Bits, Packable3};

#[test]
fn test_shift() {
    let x: i32 = -10;
    let y = x.pack() << 3;
    let z: i32 = Packable3::unpack(y >> 3);
    assert_eq!(x, z);
}

#[test]
fn test_unit_round_trip() {
    let w = ().pack();
    assert_eq!(w, 0);
    let _: () = Packable3::unpack(w);
}

#[test]
fn test_bool_round_trip() {
    assert_eq!(false.pack(), 0);
    assert_eq!(true.pack(), 1);
    let f: bool = Packable3::unpack(false.pack());
    let t: bool = Packable3::unpack(true.pack());
    assert_eq!(f, false);
    assert_eq!(t, true);
}

#[test]
fn test_u16_round_trip() {
    for x in [0u16, 1, 256, u16::MAX] {
        let y: u16 = Packable3::unpack(x.pack());
        assert_eq!(x, y);
    }
    assert_eq!(3u16.pack(), 3);
}

#[test]
fn test_u32_round_trip() {
    for x in [0u32, 1, 0xdead_beef, u32::MAX] {
        let y: u32 = Packable3::unpack(x.pack());
        assert_eq!(x, y);
    }
    assert_eq!(7u32.pack(), 7);
}

#[test]
fn test_i16_round_trip() {
    for x in [0i16, 1, -1, i16::MIN, i16::MAX] {
        let y: i16 = Packable3::unpack(x.pack());
        assert_eq!(x, y);
    }
    // the packed form is the 16-bit two's complement pattern
    assert_eq!((-1i16).pack(), 0xffff);
}

#[test]
fn test_i32_round_trip() {
    for x in [0i32, 1, -1, i32::MIN, i32::MAX] {
        let y: i32 = Packable3::unpack(x.pack());
        assert_eq!(x, y);
    }
    // the packed form is the 32-bit two's complement pattern
    assert_eq!((-1i32).pack(), 0xffff_ffff);
}

#[test]
fn test_f32_bits_round_trip() {
    let patterns = [
        0.0f32.to_bits(),
        (-0.0f32).to_bits(),
        1.6f32.to_bits(),
        f32::INFINITY.to_bits(),
        f32::NEG_INFINITY.to_bits(),
        f32::NAN.to_bits(),
        0x7f80_0001u32, // a signalling NaN pattern
    ];
    for bits in patterns {
        let v = F32Bits::new(bits);
        let w = v.pack();
        let back: F32Bits = Packable3::unpack(w);
        assert_eq!(back.bits, bits);
    }
}
