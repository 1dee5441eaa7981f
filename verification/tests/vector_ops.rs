//! Flow vector arithmetic against plain `f32` arithmetic.

use vane::vector::{Float3, FlowVector};

fn fv(x: f32, y: f32, z: f32, w: f32) -> FlowVector {
    FlowVector { x: x.to_bits(), y: y.to_bits(), z: z.to_bits(), w: w.to_bits() }
}

fn fv_values(v: FlowVector) -> (f32, f32, f32, f32) {
    (
        f32::from_bits(v.x),
        f32::from_bits(v.y),
        f32::from_bits(v.z),
        f32::from_bits(v.w),
    )
}

#[test]
fn zero_is_all_zero_bits() {
    let z = FlowVector::zero();
    assert_eq!(fv_values(z), (0.0, 0.0, 0.0, 0.0));
    assert_eq!((z.x, z.y, z.z, z.w), (0, 0, 0, 0));
}

#[test]
fn new_carries_momentum_and_density() {
    let m = Float3 {
        x: 1.5f32.to_bits(),
        y: (-2.0f32).to_bits(),
        z: 0.25f32.to_bits(),
    };
    let v = FlowVector::new(m, 3.0f32.to_bits());
    assert_eq!(fv_values(v), (1.5, -2.0, 0.25, 3.0));
    assert_eq!(v.momentum_density(), m);
    assert_eq!(v.density(), 3.0f32.to_bits());
}

#[test]
fn from_velocity_scales_by_density() {
    let vel = Float3 {
        x: 0.5f32.to_bits(),
        y: 2.0f32.to_bits(),
        z: (-1.25f32).to_bits(),
    };
    let v = FlowVector::from_velocity(vel, 4.0f32.to_bits());
    assert_eq!(fv_values(v), (0.5 * 4.0, 2.0 * 4.0, -1.25 * 4.0, 4.0));
}

#[test]
fn add_matches_ieee_sum() {
    let a = fv(1.0, 0.1, -3.5, 2.0);
    let b = fv(2.0, 0.2, 1.25, 0.5);
    let s = a.add(b);
    assert_eq!(fv_values(s), (1.0 + 2.0, 0.1f32 + 0.2f32, -3.5 + 1.25, 2.5));
}

#[test]
fn sub_matches_ieee_difference() {
    let a = fv(1.0, 0.3, -3.5, 2.0);
    let b = fv(2.0, 0.1, 1.25, 0.5);
    let d = a.sub(b);
    assert_eq!(fv_values(d), (1.0 - 2.0, 0.3f32 - 0.1f32, -3.5 - 1.25, 1.5));
}

#[test]
fn mul_scales_every_lane() {
    let a = fv(1.0, -0.5, 0.125, 3.0);
    let p = a.mul(2.5f32.to_bits());
    assert_eq!(fv_values(p), (2.5, -1.25, 0.3125, 7.5));
}

#[test]
fn div_divides_every_lane() {
    let a = fv(1.0, -0.5, 0.125, 3.0);
    let q = a.div(2.0f32.to_bits());
    assert_eq!(fv_values(q), (0.5, -0.25, 0.0625, 1.5));
}

#[test]
fn neg_flips_every_lane() {
    let a = fv(1.0, -0.5, 0.0, 3.0);
    let n = a.neg();
    let (x, y, z, w) = fv_values(n);
    assert_eq!((x, y, w), (-1.0, 0.5, -3.0));
    assert!(z == 0.0 && z.is_sign_negative());
}

#[test]
fn velocity_is_momentum_over_density() {
    let v = fv(1.0, 2.0, -4.0, 2.0);
    let vel = v.velocity();
    assert_eq!(
        (
            f32::from_bits(vel.x),
            f32::from_bits(vel.y),
            f32::from_bits(vel.z)
        ),
        (0.5, 1.0, -2.0)
    );
}

#[test]
fn velocity_at_unit_density_is_momentum() {
    let v = fv(0.1, -2.75, 3.0e-20, 1.0);
    let vel = v.velocity();
    assert_eq!((vel.x, vel.y, vel.z), (v.x, v.y, v.z));
}

#[test]
fn velocity_at_zero_density_is_not_finite() {
    let v = fv(1.0, -1.0, 0.0, 0.0);
    let vel = v.velocity();
    assert_eq!(f32::from_bits(vel.x), f32::INFINITY);
    assert_eq!(f32::from_bits(vel.y), f32::NEG_INFINITY);
    assert!(f32::from_bits(vel.z).is_nan());
}

#[test]
fn sum_folds_from_zero() {
    let values = vec![fv(1.0, 0.0, 0.0, 1.0), fv(2.0, 0.5, -1.0, 0.25)];
    let s = FlowVector::sum(&values);
    assert_eq!(fv_values(s), (3.0, 0.5, -1.0, 1.25));

    let empty: Vec<FlowVector> = Vec::new();
    assert_eq!(FlowVector::sum(&empty), FlowVector::zero());
}

#[test]
fn double_negation_is_identity() {
    let a = fv(1.0, -0.5, 0.0, 3.75);
    assert_eq!(a.neg().neg(), a);
}

#[test]
fn operations_cross_checked_against_bevy_math() {
    let a = bevy_math::Vec4::new(0.1, -7.25, 1.0e-10, 42.0);
    let b = bevy_math::Vec4::new(-0.3, 1.5, 2.0e10, 0.125);
    let va = fv(a.x, a.y, a.z, a.w);
    let vb = fv(b.x, b.y, b.z, b.w);
    let sum = va.add(vb);
    let expected = a + b;
    assert_eq!(
        [sum.x, sum.y, sum.z, sum.w],
        [
            expected.x.to_bits(),
            expected.y.to_bits(),
            expected.z.to_bits(),
            expected.w.to_bits()
        ]
    );
}
