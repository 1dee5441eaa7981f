//! GPU mirror preparation: texture reuse across passes, failure
//! without a partial mirror, the upload byte layout, and the region
//! index table.

use vane::field::{FlowField, UInt3};
use vane::gpu::{
    flow_field_sampler_config, needs_new_texture, prepare_asset, texel_bytes, AddressMode,
    FilterMode, FlowFieldMissingError, MirrorRegistry, PrepareError,
};
use vane::vector::FlowVector;

fn size(x: u32, y: u32, z: u32) -> UInt3 {
    UInt3 { x, y, z }
}

#[test]
fn preparing_twice_with_unchanged_size_keeps_the_texture() {
    let mut registry = MirrorRegistry::new();
    let source = FlowField::zeroed(size(2, 2, 2));

    registry.prepare(7, &source, Some((101, 201))).unwrap();
    let first = registry.get(7).unwrap().texture();

    // Second pass: the size is unchanged, so no allocation is offered
    // and none is needed.
    registry.prepare(7, &source, None).unwrap();
    let second = registry.get(7).unwrap().texture();

    assert_eq!(first, second);
    assert_eq!(first, 101);
    assert_eq!(registry.get(7).unwrap().texture_view(), 201);
}

#[test]
fn preparing_with_changed_size_installs_the_fresh_texture() {
    let mut registry = MirrorRegistry::new();
    registry
        .prepare(7, &FlowField::zeroed(size(2, 2, 2)), Some((101, 201)))
        .unwrap();

    let grown = FlowField::zeroed(size(2, 2, 3));
    registry.prepare(7, &grown, Some((102, 202))).unwrap();

    let mirror = registry.get(7).unwrap();
    assert_ne!(mirror.texture(), 101);
    assert_eq!(mirror.texture(), 102);
    assert_eq!(mirror.size(), size(2, 2, 3));
}

#[test]
fn failed_preparation_leaves_the_prior_mirror() {
    let mut registry = MirrorRegistry::new();
    registry
        .prepare(7, &FlowField::zeroed(size(2, 2, 2)), Some((101, 201)))
        .unwrap();

    let grown = FlowField::zeroed(size(4, 4, 4));
    let result = registry.prepare(7, &grown, None);
    assert_eq!(result, Err(PrepareError::ResourceMissing));

    let mirror = registry.get(7).unwrap();
    assert_eq!(mirror.texture(), 101);
    assert_eq!(mirror.size(), size(2, 2, 2));
}

#[test]
fn missing_mirror_is_reported_with_its_identity() {
    let registry = MirrorRegistry::new();
    assert_eq!(registry.get(42).unwrap_err(), FlowFieldMissingError { id: 42 });
}

#[test]
fn needs_new_texture_compares_extents() {
    let source = FlowField::zeroed(size(2, 2, 2));
    assert!(needs_new_texture(&source, None));
    let mirror = prepare_asset(&source, None, Some((1, 2))).unwrap();
    assert!(!needs_new_texture(&source, Some(&mirror)));
    let grown = FlowField::zeroed(size(2, 2, 3));
    assert!(needs_new_texture(&grown, Some(&mirror)));
}

#[test]
fn prepare_asset_without_fresh_texture_fails() {
    let source = FlowField::zeroed(size(1, 1, 1));
    let result = prepare_asset(&source, None, None);
    assert!(matches!(result, Err(PrepareError::ResourceMissing)));
}

#[test]
fn prepare_asset_carries_label_and_size() {
    let source = FlowField::zeroed(size(2, 1, 1)).with_label(String::from("gust"));
    let mirror = prepare_asset(&source, None, Some((9, 10))).unwrap();
    assert_eq!(mirror.label().as_deref(), Some("gust"));
    assert_eq!(mirror.size(), size(2, 1, 1));
    assert_eq!(mirror.texture(), 9);
    assert_eq!(mirror.texture_view(), 10);
}

#[test]
fn texel_bytes_lays_out_half_channels_little_endian() {
    let field = FlowField::zeroed(size(2, 1, 1));
    let mut guard = field.modify();
    guard.set(
        size(0, 0, 0),
        FlowVector {
            x: 1.0f32.to_bits(),
            y: (-2.0f32).to_bits(),
            z: 0.5f32.to_bits(),
            w: 4.0f32.to_bits(),
        },
    );
    guard.set(
        size(1, 0, 0),
        FlowVector {
            x: 0.25f32.to_bits(),
            y: 8.0f32.to_bits(),
            z: (-0.125f32).to_bits(),
            w: 16.0f32.to_bits(),
        },
    );
    let field = guard.release();

    let bytes = texel_bytes(&field);
    assert_eq!(bytes.len(), 16);

    let mut expected: Vec<u8> = Vec::new();
    for value in [1.0f32, -2.0, 0.5, 4.0, 0.25, 8.0, -0.125, 16.0] {
        let h = half::f16::from_f32(value);
        expected.extend_from_slice(&h.to_bits().to_le_bytes());
    }
    assert_eq!(bytes, expected);
}

#[test]
fn sampler_is_linear_and_clamped() {
    let config = flow_field_sampler_config();
    assert_eq!(config.address_mode_u, AddressMode::ClampToEdge);
    assert_eq!(config.address_mode_v, AddressMode::ClampToEdge);
    assert_eq!(config.address_mode_w, AddressMode::ClampToEdge);
    assert_eq!(config.mag_filter, FilterMode::Linear);
    assert_eq!(config.min_filter, FilterMode::Linear);
    assert_eq!(config.mipmap_filter, FilterMode::Linear);
}
