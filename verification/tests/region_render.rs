//! Region render bookkeeping: texture index assignment, uniform
//! packing, and the missing-field error.

use vane::activity::Aabb3;
use vane::field::{FlowField, UInt3};
use vane::flow::{FlowFlags, FlowInfluence, FlowLayers};
use vane::generator::Affine3;
use vane::gpu::{FlowFieldMissingError, MirrorRegistry};
use vane::render::{
    prepare_flow_field_indices, prepare_flow_uniforms, ExtractedFlow, ExtractedRegion,
    ExtractedRegionFields,
};
use vane::vector::Float3;

fn p3(x: f32, y: f32, z: f32) -> Float3 {
    Float3 { x: x.to_bits(), y: y.to_bits(), z: z.to_bits() }
}

fn affine_of(a: bevy_math::Affine3A) -> Affine3 {
    Affine3 { entries: a.to_cols_array().map(|e| e.to_bits()) }
}

fn extracted(field_id: u64, transform: bevy_math::Affine3A) -> ExtractedFlow {
    ExtractedFlow {
        transform: affine_of(transform),
        aabb: Aabb3 { center: p3(0.0, 0.0, 0.0), half_extents: p3(1.0, 1.0, 1.0) },
        field_id,
        flags: FlowFlags::for_inheritance(true, false),
        layers: FlowLayers::layer(0),
        influence: FlowInfluence::default(),
        linear_velocity: p3(0.0, 0.0, 0.0),
        angular_velocity: p3(0.0, 0.0, 0.0),
    }
}

fn registry_with(ids: &[(u64, u64, u64)]) -> MirrorRegistry {
    let mut registry = MirrorRegistry::new();
    for (id, texture, view) in ids {
        let source = FlowField::zeroed(UInt3 { x: 1, y: 1, z: 1 });
        registry.prepare(*id, &source, Some((*texture, *view))).unwrap();
    }
    registry
}

#[test]
fn index_table_assigns_one_index_per_field() {
    let registry = registry_with(&[(1, 11, 21), (2, 12, 22)]);
    let region = ExtractedRegion {
        flows: vec![
            extracted(1, bevy_math::Affine3A::IDENTITY),
            extracted(2, bevy_math::Affine3A::IDENTITY),
            extracted(1, bevy_math::Affine3A::IDENTITY),
        ],
    };
    let mut table = ExtractedRegionFields::new();
    prepare_flow_field_indices(&region, &registry, &mut table).unwrap();
    assert_eq!(table.field_textures, vec![21, 22]);
    assert_eq!(table.indices.get(&1), Some(&0));
    assert_eq!(table.indices.get(&2), Some(&1));
}

#[test]
fn missing_mirror_fails_index_preparation() {
    let registry = registry_with(&[(1, 11, 21)]);
    let region = ExtractedRegion {
        flows: vec![
            extracted(1, bevy_math::Affine3A::IDENTITY),
            extracted(9, bevy_math::Affine3A::IDENTITY),
        ],
    };
    let mut table = ExtractedRegionFields::new();
    let result = prepare_flow_field_indices(&region, &registry, &mut table);
    assert_eq!(result, Err(FlowFieldMissingError { id: 9 }));
}

#[test]
fn uniforms_pack_the_decomposed_transform() {
    let transform = bevy_math::Affine3A::from_scale_rotation_translation(
        bevy_math::Vec3::new(2.0, 3.0, 4.0),
        bevy_math::Quat::from_rotation_z(0.25),
        bevy_math::Vec3::new(-1.0, 0.5, 2.0),
    );
    let registry = registry_with(&[(5, 15, 25)]);
    let region = ExtractedRegion { flows: vec![extracted(5, transform)] };
    let mut table = ExtractedRegionFields::new();
    prepare_flow_field_indices(&region, &registry, &mut table).unwrap();

    let records = prepare_flow_uniforms(&region, &table).unwrap();
    assert_eq!(records.len(), 1);
    let record = &records[0];
    assert_eq!(record.field_index, 0);

    let (scale, rotation, translation) = transform.to_scale_rotation_translation();
    assert_eq!(record.scale, p3(scale.x, scale.y, scale.z));
    assert_eq!(record.translation, p3(translation.x, translation.y, translation.z));
    assert_eq!(
        [record.rotation.x, record.rotation.y, record.rotation.z, record.rotation.w],
        [
            rotation.x.to_bits(),
            rotation.y.to_bits(),
            rotation.z.to_bits(),
            rotation.w.to_bits()
        ]
    );
    assert_eq!(record.layers, FlowLayers::layer(0));
    assert_eq!(record.flags, FlowFlags::for_inheritance(true, false));
}

#[test]
fn uniforms_report_the_first_unlisted_field() {
    let region = ExtractedRegion {
        flows: vec![extracted(3, bevy_math::Affine3A::IDENTITY)],
    };
    let table = ExtractedRegionFields::new();
    let result = prepare_flow_uniforms(&region, &table);
    assert!(matches!(result, Err(FlowFieldMissingError { id: 3 })));
}
