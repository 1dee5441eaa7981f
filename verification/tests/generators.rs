//! The generator algebra: sum, amplification and affine transformation,
//! cross-checked against `bevy_math`.

use vane::field::{FlowField, UInt3};
use vane::generator::{
    uniform_flow_field, Affine3, FlowFieldGenerator, SumGenerator, Uniform,
};
use vane::vector::{Float3, FlowVector};

fn fv(x: f32, y: f32, z: f32, w: f32) -> FlowVector {
    FlowVector { x: x.to_bits(), y: y.to_bits(), z: z.to_bits(), w: w.to_bits() }
}

fn p3(x: f32, y: f32, z: f32) -> Float3 {
    Float3 { x: x.to_bits(), y: y.to_bits(), z: z.to_bits() }
}

fn affine_of(a: bevy_math::Affine3A) -> Affine3 {
    Affine3 { entries: a.to_cols_array().map(|e| e.to_bits()) }
}

/// A generator whose output encodes the position it was sampled at.
#[derive(Clone, Copy)]
struct PositionProbe;

impl FlowFieldGenerator for PositionProbe {
    fn spec_generate(self, position: Float3) -> FlowVector {
        FlowVector { x: position.x, y: position.y, z: position.z, w: 1.0f32.to_bits() }
    }

    fn generate(&self, position: Float3) -> FlowVector {
        FlowVector { x: position.x, y: position.y, z: position.z, w: 1.0f32.to_bits() }
    }
}

#[test]
fn uniform_ignores_position() {
    let v = fv(1.0, 2.0, 3.0, 4.0);
    let g = uniform_flow_field(v);
    assert_eq!(g.generate(p3(0.0, 0.0, 0.0)), v);
    assert_eq!(g.generate(p3(-100.0, 3.5, 42.0)), v);
}

#[test]
fn sum_of_two_equals_componentwise_sum() {
    let v1 = fv(1.0, 0.25, -3.0, 2.0);
    let v2 = fv(0.5, 0.125, 7.0, 1.0);
    let composed = SumGenerator { generators: vec![Uniform(v1), Uniform(v2)] };
    let out = composed.generate(p3(9.0, 9.0, 9.0));
    assert_eq!(out, v1.add(v2));
}

#[test]
fn sum_of_none_is_zero_everywhere() {
    let composed: SumGenerator<Uniform> = SumGenerator { generators: vec![] };
    assert_eq!(composed.generate(p3(0.0, 0.0, 0.0)), FlowVector::zero());
    assert_eq!(composed.generate(p3(5.0, -1.0, 2.0)), FlowVector::zero());
}

#[test]
fn sum_of_many_adds_in_order() {
    let values = [
        fv(0.1, 0.0, 0.0, 1.0),
        fv(0.2, 1.0, 0.0, 1.0),
        fv(0.3, 0.0, -1.0, 1.0),
    ];
    let composed = SumGenerator { generators: values.iter().map(|v| Uniform(*v)).collect() };
    let out = composed.generate(p3(0.0, 0.0, 0.0));
    let expected = values[0].add(values[1]).add(values[2]);
    assert_eq!(out, expected);
}

#[test]
fn amplified_scales_the_output() {
    let v = fv(1.0, -2.0, 0.5, 4.0);
    let g = uniform_flow_field(v).amplified(3.0f32.to_bits());
    let out = g.generate(p3(0.0, 0.0, 0.0));
    assert_eq!(out, v.mul(3.0f32.to_bits()));
    let (x, y, z, w) = (
        f32::from_bits(out.x),
        f32::from_bits(out.y),
        f32::from_bits(out.z),
        f32::from_bits(out.w),
    );
    assert_eq!((x, y, z, w), (3.0, -6.0, 1.5, 12.0));
}

#[test]
fn transformed_samples_in_local_space() {
    let transform = bevy_math::Affine3A::from_scale_rotation_translation(
        bevy_math::Vec3::new(2.0, 1.0, 0.5),
        bevy_math::Quat::from_rotation_y(0.7),
        bevy_math::Vec3::new(3.0, -1.0, 4.0),
    );
    let g = PositionProbe.transformed(&affine_of(transform));

    let sample = bevy_math::Vec3::new(1.5, -2.0, 0.25);
    let out = g.generate(p3(sample.x, sample.y, sample.z));

    let expected_local = transform.inverse().transform_point3(sample);
    assert_eq!(out.x, expected_local.x.to_bits());
    assert_eq!(out.y, expected_local.y.to_bits());
    assert_eq!(out.z, expected_local.z.to_bits());
}

#[test]
fn fill_samples_centered_positions() {
    let size = UInt3 { x: 2, y: 3, z: 1 };
    let field = FlowField::from_gen(size, PositionProbe);
    let guard = field.modify();
    for x in 0..2u32 {
        for y in 0..3u32 {
            let read = guard.get(UInt3 { x, y, z: 0 });
            let expected = bevy_math::UVec3::new(x, y, 0).as_vec3()
                + bevy_math::Vec3::splat(0.5)
                - bevy_math::UVec3::new(2, 3, 1).as_vec3() / 2.0;
            let expected_half = |v: f32| half::f16::from_f32(v).to_f32().to_bits();
            assert_eq!(read.x, expected_half(expected.x));
            assert_eq!(read.y, expected_half(expected.y));
            assert_eq!(read.z, expected_half(expected.z));
            assert_eq!(read.w, expected_half(1.0));
        }
    }
}

#[test]
fn uniform_fill_reads_value_within_half_precision() {
    let v = fv(0.1, -2.7, 3.3, 1.9);
    let size = UInt3 { x: 3, y: 2, z: 2 };
    let field = FlowField::from_gen(size, uniform_flow_field(v));
    let guard = field.modify();
    for x in 0..3u32 {
        for y in 0..2u32 {
            for z in 0..2u32 {
                let read = guard.get(UInt3 { x, y, z });
                for (lane, original) in [
                    (read.x, 0.1f32),
                    (read.y, -2.7),
                    (read.z, 3.3),
                    (read.w, 1.9),
                ] {
                    assert_eq!(lane, half::f16::from_f32(original).to_f32().to_bits());
                    let error = (f32::from_bits(lane) - original).abs();
                    assert!(error <= original.abs() * 0.001);
                }
            }
        }
    }
}
