//! The half-precision codec against the `half` crate, bit for bit.

use vane::codec::{compress_texel, decompress_texel, narrow, widen, Texel};
use vane::vector::FlowVector;

fn check_narrow(value: f32) {
    let expected = half::f16::from_f32(value).to_bits();
    assert_eq!(
        narrow(value.to_bits()),
        expected,
        "narrowing {value} ({:#010x})",
        value.to_bits()
    );
}

fn check_widen(bits: u16) {
    let expected = half::f16::from_bits(bits).to_f32().to_bits();
    assert_eq!(widen(bits), expected, "widening {bits:#06x}");
}

#[test]
fn narrow_matches_half_on_exact_values() {
    for value in [
        0.0f32, -0.0, 1.0, -1.0, 2.0, 0.5, 0.25, 65504.0, -65504.0, 1024.0, 6.1035156e-5,
    ] {
        check_narrow(value);
    }
}

#[test]
fn narrow_matches_half_on_rounded_values() {
    for value in [
        0.1f32,
        0.2,
        1.0 / 3.0,
        2049.0,
        2051.0,
        65519.0,
        65520.0,
        70000.0,
        1.0e-7,
        -3.0e-8,
        5.96e-8,
        6.0e-8,
        1.0e-40,
        f32::MIN_POSITIVE,
        3.141592653589793_f32,
    ] {
        check_narrow(value);
        check_narrow(-value);
    }
}

#[test]
fn narrow_matches_half_on_non_finite_values() {
    for value in [f32::INFINITY, f32::NEG_INFINITY, f32::NAN] {
        check_narrow(value);
    }
}

#[test]
fn narrow_matches_half_densely_around_the_subnormal_boundary() {
    for i in 0..2000u32 {
        let bits = 0x3380_0000u32 + i * 0x1000;
        check_narrow(f32::from_bits(bits));
        check_narrow(-f32::from_bits(bits));
    }
}

#[test]
fn widen_matches_half_on_every_half_precision_value() {
    let mut bits: u32 = 0;
    while bits <= 0xFFFF {
        let h = bits as u16;
        if !half::f16::from_bits(h).is_nan() {
            check_widen(h);
        } else {
            assert!(f32::from_bits(widen(h)).is_nan());
        }
        bits += 1;
    }
}

#[test]
fn widen_of_narrow_is_within_half_precision_error() {
    for value in [0.1f32, 1.0, -2.5, 1234.5678, 0.000244140625] {
        let round_tripped = f32::from_bits(widen(narrow(value.to_bits())));
        let expected = half::f16::from_f32(value).to_f32();
        assert_eq!(round_tripped.to_bits(), expected.to_bits());
        let relative = ((round_tripped - value) / value).abs();
        assert!(relative <= 0.001, "{value} -> {round_tripped}");
    }
}

#[test]
fn texel_compression_round_trips_exact_values() {
    let v = FlowVector {
        x: 1.0f32.to_bits(),
        y: 0.5f32.to_bits(),
        z: (-2.0f32).to_bits(),
        w: 4.0f32.to_bits(),
    };
    let t = compress_texel(v);
    assert_eq!(
        t,
        Texel {
            x: half::f16::from_f32(1.0).to_bits(),
            y: half::f16::from_f32(0.5).to_bits(),
            z: half::f16::from_f32(-2.0).to_bits(),
            w: half::f16::from_f32(4.0).to_bits(),
        }
    );
    assert_eq!(decompress_texel(t), v);
}
