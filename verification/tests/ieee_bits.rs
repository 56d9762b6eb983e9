use litchi_mission::ieee::{
    binary32_to_i16, binary32_to_u16, binary32_to_u8, binary32_whole_part, binary64_from_i32,
    binary64_whole_part, HIDDEN_BIT, INFINITY_64, MINUS_ONE, ONE_64, SIGN_BIT, U16_MAX_64,
};

fn singles() -> Vec<f32> {
    let mut samples = vec![
        0.0f32, -0.0, 0.25, 0.5, 0.99999994, 1.0, 1.5, 1.9999999, 2.0, 2.5, 3.0, 7.9, 42.5, 127.0,
        127.5, 128.0, 254.5, 255.0, 255.5, 256.0, 257.0, 1000.0, 32766.5, 32767.0, 32767.5,
        32768.0, 32768.5, 32769.0, 65534.5, 65535.0, 65535.5, 65536.0, 65537.0, 1.0e9, 3.0e38,
        f32::MAX, f32::MIN_POSITIVE, 1.0e-40, f32::INFINITY, f32::NAN,
    ];
    let negated: Vec<f32> = samples.iter().map(|x| -x).collect();
    samples.extend(negated);
    samples
}

#[test]
fn constants_are_the_bit_patterns() {
    assert_eq!(MINUS_ONE, (-1.0f32).to_bits());
    assert_eq!(ONE_64, 1.0f64.to_bits());
    assert_eq!(U16_MAX_64, 65535.0f64.to_bits());
    assert_eq!(INFINITY_64, f64::INFINITY.to_bits());
    assert_eq!(SIGN_BIT, (-0.0f64).to_bits());
    assert_eq!(HIDDEN_BIT, 1u64 << 52);
}

#[test]
fn single_to_u16_is_the_cast() {
    for x in singles() {
        assert_eq!(binary32_to_u16(x.to_bits()), x as u16, "for {}", x);
    }
    assert_eq!(binary32_to_u16(42.5f32.to_bits()), 42);
    assert_eq!(binary32_to_u16(70000.0f32.to_bits()), 65535);
    assert_eq!(binary32_to_u16((-3.0f32).to_bits()), 0);
    assert_eq!(binary32_to_u16(f32::NAN.to_bits()), 0);
}

#[test]
fn single_to_u8_is_the_cast() {
    for x in singles() {
        assert_eq!(binary32_to_u8(x.to_bits()), x as u8, "for {}", x);
        assert_eq!(binary32_to_u8(x.to_bits()), x.floor() as u8, "for floor of {}", x);
    }
    assert_eq!(binary32_to_u8(8.0f32.to_bits()), 8);
    assert_eq!(binary32_to_u8(7.9f32.to_bits()), 7);
    assert_eq!(binary32_to_u8(300.0f32.to_bits()), 255);
}

#[test]
fn single_to_i16_is_the_cast() {
    for x in singles() {
        assert_eq!(binary32_to_i16(x.to_bits()), x as i16, "for {}", x);
    }
    assert_eq!(binary32_to_i16((-7.5f32).to_bits()), -7);
    assert_eq!(binary32_to_i16((-40000.0f32).to_bits()), i16::MIN);
    assert_eq!(binary32_to_i16(40000.0f32.to_bits()), i16::MAX);
}

#[test]
fn whole_part_of_singles() {
    assert_eq!(binary32_whole_part(0.75f32.to_bits()), 0);
    assert_eq!(binary32_whole_part(1.0f32.to_bits()), 1);
    assert_eq!(binary32_whole_part(65535.9f32.to_bits()), 65535);
    assert_eq!(binary32_whole_part(65536.0f32.to_bits()), 65536);
    assert_eq!(binary32_whole_part(1.0e30f32.to_bits()), 65536);
    assert_eq!(binary32_whole_part((-12.25f32).to_bits()), 12);
}

#[test]
fn whole_part_of_doubles() {
    for x in [1.0f64, 1.5, 2.0, 3.999, 100.25, 255.0, 256.0, 4096.5, 32768.0, 65534.999, 65535.0] {
        assert_eq!(binary64_whole_part(x.to_bits()), x as u16, "for {}", x);
    }
    assert_eq!(binary64_whole_part(1.0f64.to_bits()), 1);
    assert_eq!(binary64_whole_part(65535.0f64.to_bits()), 65535);
}

#[test]
fn every_small_integer_becomes_its_double() {
    for x in -2000..2000i32 {
        assert_eq!(binary64_from_i32(x), (x as f64).to_bits());
    }
    let mut x: i32 = 1;
    for _ in 0..30 {
        for d in [-1i32, 0, 1] {
            let v = x.wrapping_add(d);
            assert_eq!(binary64_from_i32(v), (v as f64).to_bits());
            assert_eq!(binary64_from_i32(v.wrapping_neg()), (v.wrapping_neg() as f64).to_bits());
        }
        x *= 2;
    }
}
