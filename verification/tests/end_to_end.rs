//! The end-to-end authoring scenario: fill a small field uniformly,
//! then read every cell back through a session and derive velocities.

use vane::field::{FlowField, UInt3};
use vane::generator::uniform_flow_field;
use vane::vector::{Float3, FlowVector};

#[test]
fn uniform_two_cube_scenario() {
    let momentum = Float3 {
        x: 1.0f32.to_bits(),
        y: 0.0f32.to_bits(),
        z: 0.0f32.to_bits(),
    };
    let value = FlowVector::new(momentum, 2.0f32.to_bits());
    let size = UInt3 { x: 2, y: 2, z: 2 };

    let field = FlowField::from_gen(size, uniform_flow_field(value));
    assert_eq!(field.size(), size);
    assert_eq!(field.texels.len(), 8);

    let guard = field.modify();
    for x in 0..2u32 {
        for y in 0..2u32 {
            for z in 0..2u32 {
                let read = guard.get(UInt3 { x, y, z });

                let m = read.momentum_density();
                assert_eq!(f32::from_bits(m.x), 1.0);
                assert_eq!(f32::from_bits(m.y), 0.0);
                assert_eq!(f32::from_bits(m.z), 0.0);
                assert_eq!(f32::from_bits(read.density()), 2.0);

                let velocity = read.velocity();
                assert_eq!(f32::from_bits(velocity.x), 0.5);
                assert_eq!(f32::from_bits(velocity.y), 0.0);
                assert_eq!(f32::from_bits(velocity.z), 0.0);
            }
        }
    }
}
