use rg3d_core::pool::Handle as PoolHandle;
use scene_editor::commands::body::SetBodyCommand;
use scene_editor::commands::collider::SetColliderCommand;
use scene_editor::commands::collider_properties::{
    SetBallRadiusCommand, SetCapsuleBeginCommand, SetCapsuleEndCommand, SetCapsuleRadiusCommand,
    SetColliderCollisionGroupsFilterCommand, SetColliderCollisionGroupsMembershipsCommand,
    SetColliderFrictionCommand, SetColliderIsSensorCommand, SetColliderPositionCommand,
    SetColliderRestitutionCommand, SetColliderRotationCommand, SetConeHalfHeightCommand,
    SetConeRadiusCommand, SetCuboidHalfExtentsCommand, SetCylinderHalfHeightCommand,
    SetCylinderRadiusCommand,
};
use scene_editor::handle::Handle;
use scene_editor::math::{Quaternion, Scalar, Vector3};
use scene_editor::physics::body::{RigidBody, RigidBodyType};
use scene_editor::physics::collider::{
    Ball, Capsule, Collider, ColliderShape, Cone, Cuboid, Cylinder, InteractionGroups,
};
use scene_editor::physics::Physics;

fn scalar(value: f32) -> Scalar {
    Scalar::from_bits(value.to_bits())
}

fn vector(x: f32, y: f32, z: f32) -> Vector3 {
    Vector3 { x: scalar(x), y: scalar(y), z: scalar(z) }
}

fn rotation(i: f32, j: f32, k: f32, w: f32) -> Quaternion {
    Quaternion { i: scalar(i), j: scalar(j), k: scalar(k), w: scalar(w) }
}

fn body() -> RigidBody {
    RigidBody {
        position: vector(0.0, 0.0, 0.0),
        rotation: rotation(0.0, 0.0, 0.0, 1.0),
        lin_vel: vector(0.0, 0.0, 0.0),
        ang_vel: vector(0.0, 0.0, 0.0),
        sleeping: false,
        status: RigidBodyType::Dynamic,
        colliders: Vec::new(),
        mass: scalar(1.0),
        x_rotation_locked: false,
        y_rotation_locked: false,
        z_rotation_locked: false,
        translation_locked: false,
    }
}

/// The parent of every collider of these tests.
fn parent() -> Handle {
    Handle::new(0, 1)
}

fn collider(shape: ColliderShape) -> Collider {
    Collider {
        shape,
        parent: parent(),
        friction: scalar(0.5),
        density: Some(scalar(2.5)),
        restitution: scalar(0.25),
        is_sensor: false,
        translation: vector(1.0, 2.0, 3.0),
        rotation: rotation(0.0, 0.0, 0.0, 1.0),
        collision_groups: InteractionGroups { memberships: 0x0000_00ff, filter: 0x0000_ff00 },
        solver_groups: InteractionGroups { memberships: 0x00ff_0000, filter: 0xff00_0000 },
    }
}

fn ball() -> ColliderShape {
    ColliderShape::Ball(Ball { radius: scalar(1.5) })
}

fn cylinder() -> ColliderShape {
    ColliderShape::Cylinder(Cylinder { half_height: scalar(2.0), radius: scalar(0.75) })
}

fn cone() -> ColliderShape {
    ColliderShape::Cone(Cone { half_height: scalar(3.0), radius: scalar(1.25) })
}

fn cuboid() -> ColliderShape {
    ColliderShape::Cuboid(Cuboid { half_extents: vector(1.0, 2.0, 3.0) })
}

fn capsule() -> ColliderShape {
    ColliderShape::Capsule(Capsule {
        begin: vector(0.0, -1.0, 0.0),
        end: vector(0.0, 1.0, 0.0),
        radius: scalar(0.5),
    })
}

/// A physics with one body and, attached to it, a ball at (0, 1) and a
/// collider of the given shape at (1, 1).
fn physics_with(shape: ColliderShape) -> Physics {
    let mut physics = Physics::new();
    SetBodyCommand::new(Handle::new(20, 1), body()).execute(&mut physics);
    SetColliderCommand::new(parent(), collider(ball())).execute(&mut physics);
    SetColliderCommand::new(parent(), collider(shape)).execute(&mut physics);
    physics
}

fn subject() -> Handle {
    Handle::new(1, 1)
}

fn collider_at(physics: &Physics, handle: Handle) -> Collider {
    *physics.colliders.borrow(PoolHandle::new(handle.index, handle.generation))
}

/// Nothing but the collider at (1, 1) differs from what `physics_with` made.
fn assert_rest_untouched(physics: &Physics) {
    assert_eq!(collider_at(physics, Handle::new(0, 1)), collider(ball()));
    assert_eq!(physics.colliders.alive_count(), 2);
    assert_eq!(
        physics.bodies.borrow(PoolHandle::new(0, 1)).colliders,
        vec![Handle::new(0, 1), Handle::new(1, 1)]
    );
}

#[test]
fn set_collider_friction() {
    let mut physics = physics_with(ball());
    let before = collider(ball());
    let after = Collider { friction: scalar(0.875), ..collider(ball()) };
    let mut command = SetColliderFrictionCommand::new(subject(), scalar(0.875));
    assert_eq!(command.name(), "Set Collider Friction");
    assert!(command.is_ready(&physics));
    command.execute(&mut physics);
    assert_eq!(collider_at(&physics, subject()), after);
    assert_rest_untouched(&physics);
    command.revert(&mut physics);
    assert_eq!(collider_at(&physics, subject()), before);
    command.execute(&mut physics);
    assert_eq!(collider_at(&physics, subject()), after);
    assert_rest_untouched(&physics);
}

#[test]
fn set_collider_restitution() {
    let mut physics = physics_with(ball());
    let before = collider(ball());
    let after = Collider { restitution: scalar(0.875), ..collider(ball()) };
    let mut command = SetColliderRestitutionCommand::new(subject(), scalar(0.875));
    assert_eq!(command.name(), "Set Collider Restitution");
    assert!(command.is_ready(&physics));
    command.execute(&mut physics);
    assert_eq!(collider_at(&physics, subject()), after);
    assert_rest_untouched(&physics);
    command.revert(&mut physics);
    assert_eq!(collider_at(&physics, subject()), before);
    command.execute(&mut physics);
    assert_eq!(collider_at(&physics, subject()), after);
    assert_rest_untouched(&physics);
}

#[test]
fn set_collider_position() {
    let mut physics = physics_with(ball());
    let before = collider(ball());
    let after = Collider { translation: vector(7.0, 8.0, 9.0), ..collider(ball()) };
    let mut command = SetColliderPositionCommand::new(subject(), vector(7.0, 8.0, 9.0));
    assert_eq!(command.name(), "Set Collider Position");
    assert!(command.is_ready(&physics));
    command.execute(&mut physics);
    assert_eq!(collider_at(&physics, subject()), after);
    assert_rest_untouched(&physics);
    command.revert(&mut physics);
    assert_eq!(collider_at(&physics, subject()), before);
    command.execute(&mut physics);
    assert_eq!(collider_at(&physics, subject()), after);
    assert_rest_untouched(&physics);
}

#[test]
fn set_collider_rotation() {
    let mut physics = physics_with(ball());
    let before = collider(ball());
    let after = Collider { rotation: rotation(0.0, 1.0, 0.0, 0.0), ..collider(ball()) };
    let mut command = SetColliderRotationCommand::new(subject(), rotation(0.0, 1.0, 0.0, 0.0));
    assert_eq!(command.name(), "Set Collider Rotation");
    assert!(command.is_ready(&physics));
    command.execute(&mut physics);
    assert_eq!(collider_at(&physics, subject()), after);
    assert_rest_untouched(&physics);
    command.revert(&mut physics);
    assert_eq!(collider_at(&physics, subject()), before);
    command.execute(&mut physics);
    assert_eq!(collider_at(&physics, subject()), after);
    assert_rest_untouched(&physics);
}

#[test]
fn set_collider_is_sensor() {
    let mut physics = physics_with(ball());
    let before = collider(ball());
    let after = Collider { is_sensor: true, ..collider(ball()) };
    let mut command = SetColliderIsSensorCommand::new(subject(), true);
    assert_eq!(command.name(), "Set Collider Is Sensor");
    assert!(command.is_ready(&physics));
    command.execute(&mut physics);
    assert_eq!(collider_at(&physics, subject()), after);
    assert_rest_untouched(&physics);
    command.revert(&mut physics);
    assert_eq!(collider_at(&physics, subject()), before);
    command.execute(&mut physics);
    assert_eq!(collider_at(&physics, subject()), after);
    assert_rest_untouched(&physics);
}

#[test]
fn set_collider_collision_groups_memberships() {
    let mut physics = physics_with(ball());
    let before = collider(ball());
    let after = Collider {
        collision_groups: InteractionGroups { memberships: 0x1234_5678, filter: 0x0000_ff00 },
        ..collider(ball())
    };
    let mut command = SetColliderCollisionGroupsMembershipsCommand::new(subject(), 0x1234_5678);
    assert_eq!(command.name(), "Set Collider Collision Groups Memberships");
    assert!(command.is_ready(&physics));
    command.execute(&mut physics);
    assert_eq!(collider_at(&physics, subject()), after);
    assert_rest_untouched(&physics);
    command.revert(&mut physics);
    assert_eq!(collider_at(&physics, subject()), before);
    command.execute(&mut physics);
    assert_eq!(collider_at(&physics, subject()), after);
    assert_rest_untouched(&physics);
}

#[test]
fn set_collider_collision_groups_filter() {
    let mut physics = physics_with(ball());
    let before = collider(ball());
    let after = Collider {
        collision_groups: InteractionGroups { memberships: 0x0000_00ff, filter: 0x1234_5678 },
        ..collider(ball())
    };
    let mut command = SetColliderCollisionGroupsFilterCommand::new(subject(), 0x1234_5678);
    assert_eq!(command.name(), "Set Collider Collision Groups Filter");
    assert!(command.is_ready(&physics));
    command.execute(&mut physics);
    assert_eq!(collider_at(&physics, subject()), after);
    assert_rest_untouched(&physics);
    command.revert(&mut physics);
    assert_eq!(collider_at(&physics, subject()), before);
    command.execute(&mut physics);
    assert_eq!(collider_at(&physics, subject()), after);
    assert_rest_untouched(&physics);
}

#[test]
fn set_cylinder_half_height() {
    let mut physics = physics_with(cylinder());
    let before = collider(cylinder());
    let after = collider(ColliderShape::Cylinder(Cylinder {
        half_height: scalar(9.0),
        radius: scalar(0.75),
    }));
    let mut command = SetCylinderHalfHeightCommand::new(subject(), scalar(9.0));
    assert_eq!(command.name(), "Set Cylinder Half Height");
    assert!(command.is_ready(&physics));
    command.execute(&mut physics);
    assert_eq!(collider_at(&physics, subject()), after);
    assert_rest_untouched(&physics);
    command.revert(&mut physics);
    assert_eq!(collider_at(&physics, subject()), before);
    command.execute(&mut physics);
    assert_eq!(collider_at(&physics, subject()), after);
    assert_rest_untouched(&physics);
}

#[test]
fn set_cylinder_radius() {
    let mut physics = physics_with(cylinder());
    let before = collider(cylinder());
    let after = collider(ColliderShape::Cylinder(Cylinder {
        half_height: scalar(2.0),
        radius: scalar(9.0),
    }));
    let mut command = SetCylinderRadiusCommand::new(subject(), scalar(9.0));
    assert_eq!(command.name(), "Set Cylinder Radius");
    assert!(command.is_ready(&physics));
    command.execute(&mut physics);
    assert_eq!(collider_at(&physics, subject()), after);
    assert_rest_untouched(&physics);
    command.revert(&mut physics);
    assert_eq!(collider_at(&physics, subject()), before);
    command.execute(&mut physics);
    assert_eq!(collider_at(&physics, subject()), after);
    assert_rest_untouched(&physics);
}

#[test]
fn set_cone_half_height() {
    let mut physics = physics_with(cone());
    let before = collider(cone());
    let after = collider(ColliderShape::Cone(Cone {
        half_height: scalar(9.0),
        radius: scalar(1.25),
    }));
    let mut command = SetConeHalfHeightCommand::new(subject(), scalar(9.0));
    assert_eq!(command.name(), "Set Cone Half Height");
    assert!(command.is_ready(&physics));
    command.execute(&mut physics);
    assert_eq!(collider_at(&physics, subject()), after);
    assert_rest_untouched(&physics);
    command.revert(&mut physics);
    assert_eq!(collider_at(&physics, subject()), before);
    command.execute(&mut physics);
    assert_eq!(collider_at(&physics, subject()), after);
    assert_rest_untouched(&physics);
}

#[test]
fn set_cone_radius() {
    let mut physics = physics_with(cone());
    let before = collider(cone());
    let after = collider(ColliderShape::Cone(Cone {
        half_height: scalar(3.0),
        radius: scalar(9.0),
    }));
    let mut command = SetConeRadiusCommand::new(subject(), scalar(9.0));
    assert_eq!(command.name(), "Set Cone Radius");
    assert!(command.is_ready(&physics));
    command.execute(&mut physics);
    assert_eq!(collider_at(&physics, subject()), after);
    assert_rest_untouched(&physics);
    command.revert(&mut physics);
    assert_eq!(collider_at(&physics, subject()), before);
    command.execute(&mut physics);
    assert_eq!(collider_at(&physics, subject()), after);
    assert_rest_untouched(&physics);
}

#[test]
fn set_cuboid_half_extents() {
    let mut physics = physics_with(cuboid());
    let before = collider(cuboid());
    let after = collider(ColliderShape::Cuboid(Cuboid {
        half_extents: vector(4.0, 5.0, 6.0),
    }));
    let mut command = SetCuboidHalfExtentsCommand::new(subject(), vector(4.0, 5.0, 6.0));
    assert_eq!(command.name(), "Set Cuboid Half Extents");
    assert!(command.is_ready(&physics));
    command.execute(&mut physics);
    assert_eq!(collider_at(&physics, subject()), after);
    assert_rest_untouched(&physics);
    command.revert(&mut physics);
    assert_eq!(collider_at(&physics, subject()), before);
    command.execute(&mut physics);
    assert_eq!(collider_at(&physics, subject()), after);
    assert_rest_untouched(&physics);
}

#[test]
fn set_capsule_radius() {
    let mut physics = physics_with(capsule());
    let before = collider(capsule());
    let after = collider(ColliderShape::Capsule(Capsule {
        begin: vector(0.0, -1.0, 0.0),
        end: vector(0.0, 1.0, 0.0),
        radius: scalar(9.0),
    }));
    let mut command = SetCapsuleRadiusCommand::new(subject(), scalar(9.0));
    assert_eq!(command.name(), "Set Capsule Radius");
    assert!(command.is_ready(&physics));
    command.execute(&mut physics);
    assert_eq!(collider_at(&physics, subject()), after);
    assert_rest_untouched(&physics);
    command.revert(&mut physics);
    assert_eq!(collider_at(&physics, subject()), before);
    command.execute(&mut physics);
    assert_eq!(collider_at(&physics, subject()), after);
    assert_rest_untouched(&physics);
}

#[test]
fn set_capsule_begin() {
    let mut physics = physics_with(capsule());
    let before = collider(capsule());
    let after = collider(ColliderShape::Capsule(Capsule {
        begin: vector(4.0, 5.0, 6.0),
        end: vector(0.0, 1.0, 0.0),
        radius: scalar(0.5),
    }));
    let mut command = SetCapsuleBeginCommand::new(subject(), vector(4.0, 5.0, 6.0));
    assert_eq!(command.name(), "Set Capsule Begin");
    assert!(command.is_ready(&physics));
    command.execute(&mut physics);
    assert_eq!(collider_at(&physics, subject()), after);
    assert_rest_untouched(&physics);
    command.revert(&mut physics);
    assert_eq!(collider_at(&physics, subject()), before);
    command.execute(&mut physics);
    assert_eq!(collider_at(&physics, subject()), after);
    assert_rest_untouched(&physics);
}

#[test]
fn set_capsule_end() {
    let mut physics = physics_with(capsule());
    let before = collider(capsule());
    let after = collider(ColliderShape::Capsule(Capsule {
        begin: vector(0.0, -1.0, 0.0),
        end: vector(4.0, 5.0, 6.0),
        radius: scalar(0.5),
    }));
    let mut command = SetCapsuleEndCommand::new(subject(), vector(4.0, 5.0, 6.0));
    assert_eq!(command.name(), "Set Capsule End");
    assert!(command.is_ready(&physics));
    command.execute(&mut physics);
    assert_eq!(collider_at(&physics, subject()), after);
    assert_rest_untouched(&physics);
    command.revert(&mut physics);
    assert_eq!(collider_at(&physics, subject()), before);
    command.execute(&mut physics);
    assert_eq!(collider_at(&physics, subject()), after);
    assert_rest_untouched(&physics);
}

#[test]
fn set_ball_radius() {
    let mut physics = physics_with(ball());
    let before = collider(ball());
    let after = collider(ColliderShape::Ball(Ball { radius: scalar(9.0) }));
    let mut command = SetBallRadiusCommand::new(subject(), scalar(9.0));
    assert_eq!(command.name(), "Set Ball Radius");
    assert!(command.is_ready(&physics));
    command.execute(&mut physics);
    assert_eq!(collider_at(&physics, subject()), after);
    assert_rest_untouched(&physics);
    command.revert(&mut physics);
    assert_eq!(collider_at(&physics, subject()), before);
    command.execute(&mut physics);
    assert_eq!(collider_at(&physics, subject()), after);
    assert_rest_untouched(&physics);
}

#[test]
fn a_command_for_a_shape_is_ready_for_that_shape_alone() {
    let physics = physics_with(cylinder());
    assert!(SetCylinderRadiusCommand::new(subject(), scalar(1.0)).is_ready(&physics));
    assert!(!SetConeRadiusCommand::new(subject(), scalar(1.0)).is_ready(&physics));
    assert!(!SetBallRadiusCommand::new(subject(), scalar(1.0)).is_ready(&physics));
    assert!(!SetCapsuleRadiusCommand::new(subject(), scalar(1.0)).is_ready(&physics));
    assert!(!SetCuboidHalfExtentsCommand::new(subject(), vector(1.0, 1.0, 1.0))
        .is_ready(&physics));
    assert!(SetBallRadiusCommand::new(Handle::new(0, 1), scalar(1.0)).is_ready(&physics));
    assert!(!SetCylinderRadiusCommand::new(Handle::new(0, 1), scalar(1.0)).is_ready(&physics));
}

#[test]
fn a_command_is_not_ready_for_a_handle_that_names_no_collider() {
    let physics = physics_with(ball());
    for handle in [Handle::none(), Handle::new(1, 2), Handle::new(2, 1), Handle::new(1, 0)] {
        assert!(!SetColliderFrictionCommand::new(handle, scalar(1.0)).is_ready(&physics));
        assert!(!SetBallRadiusCommand::new(handle, scalar(1.0)).is_ready(&physics));
    }
}

#[test]
fn the_physics_finds_a_collider_by_its_handle() {
    let physics = physics_with(cone());
    assert_eq!(physics.collider(subject()), Some(&collider(cone())));
    assert_eq!(physics.collider(Handle::new(0, 1)), Some(&collider(ball())));
    assert_eq!(physics.collider(Handle::new(1, 2)), None);
    assert_eq!(physics.collider(Handle::new(2, 1)), None);
    assert_eq!(physics.body(parent()).map(|body| body.colliders.len()), Some(2));
    assert_eq!(physics.body(Handle::new(1, 1)), None);
}
