//! Storage and edit-session behaviour: exact in-session reads, the
//! compressed round trip across a flush, zero fills and degenerate
//! grids.

use vane::field::{FlowField, UInt3};
use vane::vector::{Float3, FlowVector};

fn size(x: u32, y: u32, z: u32) -> UInt3 {
    UInt3 { x, y, z }
}

fn fv(x: f32, y: f32, z: f32, w: f32) -> FlowVector {
    FlowVector { x: x.to_bits(), y: y.to_bits(), z: z.to_bits(), w: w.to_bits() }
}

#[test]
fn zeroed_has_one_texel_per_cell() {
    let field = FlowField::zeroed(size(3, 4, 5));
    assert_eq!(field.size(), size(3, 4, 5));
    assert_eq!(field.texels.len(), 60);
    assert!(field.label().is_none());
}

#[test]
fn zeroed_with_zero_dimension_is_empty() {
    assert_eq!(FlowField::zeroed(size(0, 4, 5)).texels.len(), 0);
    assert_eq!(FlowField::zeroed(size(3, 0, 5)).texels.len(), 0);
    assert_eq!(FlowField::zeroed(size(3, 4, 0)).texels.len(), 0);
    assert_eq!(FlowField::zeroed(size(0, 0, 0)).texels.len(), 0);
}

#[test]
fn zeroed_reads_back_zero_everywhere() {
    let field = FlowField::zeroed(size(2, 3, 2));
    let guard = field.modify();
    for x in 0..2 {
        for y in 0..3 {
            for z in 0..2 {
                let v = guard.get(size(x, y, z));
                assert_eq!(v, FlowVector::zero());
                assert_eq!(v.momentum_density(), Float3 { x: 0, y: 0, z: 0 });
                assert_eq!(v.density(), 0);
            }
        }
    }
}

#[test]
fn set_then_get_in_one_session_is_exact() {
    let field = FlowField::zeroed(size(4, 4, 4));
    let mut guard = field.modify();
    let v = fv(0.1, -0.2, 0.3, 0.7);
    guard.set(size(1, 2, 3), v);
    assert_eq!(guard.get(size(1, 2, 3)), v);
}

#[test]
fn set_leaves_other_cells_alone() {
    let field = FlowField::zeroed(size(2, 2, 2));
    let mut guard = field.modify();
    guard.set(size(1, 0, 1), fv(5.0, 6.0, 7.0, 8.0));
    assert_eq!(guard.get(size(0, 0, 0)), FlowVector::zero());
    assert_eq!(guard.get(size(1, 1, 1)), FlowVector::zero());
}

#[test]
fn get_mut_writes_through() {
    let field = FlowField::zeroed(size(2, 2, 2));
    let mut guard = field.modify();
    *guard.get_mut(size(0, 1, 0)) = fv(1.0, 2.0, 3.0, 4.0);
    assert_eq!(guard.get(size(0, 1, 0)), fv(1.0, 2.0, 3.0, 4.0));
}

#[test]
fn flush_then_reopen_rounds_to_half_precision() {
    let field = FlowField::zeroed(size(2, 2, 2));
    let mut guard = field.modify();
    let v = fv(0.1, -0.2, 1.0, 2.0);
    guard.set(size(1, 1, 0), v);
    let field = guard.release();

    let guard = field.modify();
    let read = guard.get(size(1, 1, 0));
    for (lane, original) in [
        (read.x, 0.1f32),
        (read.y, -0.2),
        (read.z, 1.0),
        (read.w, 2.0),
    ] {
        let expected = half::f16::from_f32(original).to_f32();
        assert_eq!(lane, expected.to_bits());
        let error = (f32::from_bits(lane) - original).abs();
        assert!(error <= original.abs() * 0.001);
    }
}

#[test]
fn with_label_sets_the_label() {
    let field = FlowField::zeroed(size(1, 1, 1)).with_label(String::from("wind_tunnel"));
    assert_eq!(field.label().as_deref(), Some("wind_tunnel"));
    assert_eq!(field.size(), size(1, 1, 1));
}

#[test]
fn release_preserves_identity() {
    let field = FlowField::zeroed(size(2, 1, 1)).with_label(String::from("jet"));
    let guard = field.modify();
    let field = guard.release();
    assert_eq!(field.label().as_deref(), Some("jet"));
    assert_eq!(field.size(), size(2, 1, 1));
    assert_eq!(field.texels.len(), 2);
}
