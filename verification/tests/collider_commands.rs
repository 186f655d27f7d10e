use rg3d_core::pool::Handle as PoolHandle;
use scene_editor::commands::body::SetBodyCommand;
use scene_editor::commands::collider::{DeleteColliderCommand, SetColliderCommand};
use scene_editor::handle::Handle;
use scene_editor::math::{Quaternion, Scalar, Vector3};
use scene_editor::physics::body::{RigidBody, RigidBodyType};
use scene_editor::physics::collider::{Ball, Collider, ColliderShape, InteractionGroups};
use scene_editor::physics::Physics;

fn scalar(value: f32) -> Scalar {
    Scalar::from_bits(value.to_bits())
}

fn vector(x: f32, y: f32, z: f32) -> Vector3 {
    Vector3 { x: scalar(x), y: scalar(y), z: scalar(z) }
}

fn body(mass: f32) -> RigidBody {
    RigidBody {
        position: vector(0.0, 0.0, 0.0),
        rotation: Quaternion { i: scalar(0.0), j: scalar(0.0), k: scalar(0.0), w: scalar(1.0) },
        lin_vel: vector(0.0, 0.0, 0.0),
        ang_vel: vector(0.0, 0.0, 0.0),
        sleeping: false,
        status: RigidBodyType::Static,
        colliders: Vec::new(),
        mass: scalar(mass),
        x_rotation_locked: false,
        y_rotation_locked: false,
        z_rotation_locked: false,
        translation_locked: false,
    }
}

fn ball(radius: f32, parent: Handle) -> Collider {
    Collider {
        shape: ColliderShape::Ball(Ball { radius: scalar(radius) }),
        parent,
        friction: scalar(0.5),
        density: None,
        restitution: scalar(0.0),
        is_sensor: false,
        translation: vector(0.0, 0.0, 0.0),
        rotation: Quaternion { i: scalar(0.0), j: scalar(0.0), k: scalar(0.0), w: scalar(1.0) },
        collision_groups: InteractionGroups { memberships: u32::MAX, filter: u32::MAX },
        solver_groups: InteractionGroups { memberships: u32::MAX, filter: u32::MAX },
    }
}

fn collider_at(physics: &Physics, index: u32, generation: u32) -> Option<Collider> {
    physics.colliders.try_borrow(PoolHandle::new(index, generation)).copied()
}

fn colliders_of(physics: &Physics, index: u32, generation: u32) -> Vec<Handle> {
    physics.bodies.borrow(PoolHandle::new(index, generation)).colliders.clone()
}

/// A physics with two bodies, at (0, 1) and (1, 1).
fn two_bodies() -> Physics {
    let mut physics = Physics::new();
    SetBodyCommand::new(Handle::new(10, 1), body(1.0)).execute(&mut physics);
    SetBodyCommand::new(Handle::new(11, 1), body(2.0)).execute(&mut physics);
    physics
}

#[test]
fn set_collider_puts_the_collider_in_and_attaches_it() {
    let mut physics = two_bodies();
    let parent = Handle::new(1, 1);
    let mut command = SetColliderCommand::new(parent, ball(3.0, Handle::none()));
    command.execute(&mut physics);
    assert_eq!(physics.colliders.alive_count(), 1);
    assert_eq!(collider_at(&physics, 0, 1), Some(ball(3.0, parent)));
    assert_eq!(colliders_of(&physics, 1, 1), vec![Handle::new(0, 1)]);
    assert_eq!(colliders_of(&physics, 0, 1), Vec::<Handle>::new());
    assert_eq!(physics.bodies.borrow(PoolHandle::new(1, 1)).mass, scalar(2.0));
}

#[test]
fn set_collider_attaches_behind_the_colliders_that_are_there() {
    let mut physics = two_bodies();
    let parent = Handle::new(0, 1);
    SetColliderCommand::new(parent, ball(1.0, Handle::none())).execute(&mut physics);
    SetColliderCommand::new(parent, ball(2.0, Handle::none())).execute(&mut physics);
    SetColliderCommand::new(parent, ball(3.0, Handle::none())).execute(&mut physics);
    assert_eq!(
        colliders_of(&physics, 0, 1),
        vec![Handle::new(0, 1), Handle::new(1, 1), Handle::new(2, 1)]
    );
}

#[test]
fn set_collider_revert_takes_the_collider_out_and_detaches_it() {
    let mut physics = two_bodies();
    let parent = Handle::new(0, 1);
    SetColliderCommand::new(parent, ball(1.0, Handle::none())).execute(&mut physics);
    let mut command = SetColliderCommand::new(parent, ball(2.0, Handle::none()));
    command.execute(&mut physics);
    SetColliderCommand::new(parent, ball(3.0, Handle::none())).execute(&mut physics);
    command.revert(&mut physics);
    assert_eq!(physics.colliders.alive_count(), 2);
    assert_eq!(collider_at(&physics, 1, 1), None);
    assert_eq!(colliders_of(&physics, 0, 1), vec![Handle::new(0, 1), Handle::new(2, 1)]);
}

#[test]
fn set_collider_execute_after_revert_attaches_it_last() {
    let mut physics = two_bodies();
    let parent = Handle::new(0, 1);
    let mut command = SetColliderCommand::new(parent, ball(1.0, Handle::none()));
    command.execute(&mut physics);
    SetColliderCommand::new(parent, ball(2.0, Handle::none())).execute(&mut physics);
    command.revert(&mut physics);
    command.execute(&mut physics);
    assert_eq!(collider_at(&physics, 0, 1), Some(ball(1.0, parent)));
    assert_eq!(colliders_of(&physics, 0, 1), vec![Handle::new(1, 1), Handle::new(0, 1)]);
    assert_eq!(physics.colliders.get_capacity(), 2);
}

#[test]
fn set_collider_finalize_after_revert_frees_the_slot() {
    let mut physics = two_bodies();
    let parent = Handle::new(0, 1);
    let mut command = SetColliderCommand::new(parent, ball(1.0, Handle::none()));
    command.execute(&mut physics);
    command.revert(&mut physics);
    command.finalize(&mut physics);
    command.finalize(&mut physics);
    SetColliderCommand::new(parent, ball(2.0, Handle::none())).execute(&mut physics);
    SetColliderCommand::new(parent, ball(3.0, Handle::none())).execute(&mut physics);
    assert_eq!(collider_at(&physics, 0, 2), Some(ball(2.0, parent)));
    assert_eq!(collider_at(&physics, 1, 1), Some(ball(3.0, parent)));
    assert_eq!(colliders_of(&physics, 0, 1), vec![Handle::new(0, 2), Handle::new(1, 1)]);
}

#[test]
fn delete_collider_takes_the_collider_out_and_detaches_it_from_its_parent() {
    let mut physics = two_bodies();
    SetColliderCommand::new(Handle::new(0, 1), ball(1.0, Handle::none())).execute(&mut physics);
    SetColliderCommand::new(Handle::new(1, 1), ball(2.0, Handle::none())).execute(&mut physics);
    SetColliderCommand::new(Handle::new(1, 1), ball(3.0, Handle::none())).execute(&mut physics);
    let mut delete = DeleteColliderCommand::new(Handle::new(1, 1));
    delete.execute(&mut physics);
    assert_eq!(collider_at(&physics, 1, 1), None);
    assert_eq!(physics.colliders.alive_count(), 2);
    assert_eq!(colliders_of(&physics, 0, 1), vec![Handle::new(0, 1)]);
    assert_eq!(colliders_of(&physics, 1, 1), vec![Handle::new(2, 1)]);
}

#[test]
fn delete_collider_revert_puts_the_collider_back_and_attaches_it_last() {
    let mut physics = two_bodies();
    let parent = Handle::new(1, 1);
    SetColliderCommand::new(parent, ball(2.0, Handle::none())).execute(&mut physics);
    SetColliderCommand::new(parent, ball(3.0, Handle::none())).execute(&mut physics);
    let mut delete = DeleteColliderCommand::new(Handle::new(0, 1));
    delete.execute(&mut physics);
    delete.revert(&mut physics);
    assert_eq!(collider_at(&physics, 0, 1), Some(ball(2.0, parent)));
    assert_eq!(colliders_of(&physics, 1, 1), vec![Handle::new(1, 1), Handle::new(0, 1)]);
    delete.execute(&mut physics);
    assert_eq!(collider_at(&physics, 0, 1), None);
    assert_eq!(colliders_of(&physics, 1, 1), vec![Handle::new(1, 1)]);
}

#[test]
fn delete_collider_finalize_frees_the_slot() {
    let mut physics = two_bodies();
    let parent = Handle::new(1, 1);
    SetColliderCommand::new(parent, ball(2.0, Handle::none())).execute(&mut physics);
    let mut delete = DeleteColliderCommand::new(Handle::new(0, 1));
    delete.execute(&mut physics);
    delete.finalize(&mut physics);
    delete.finalize(&mut physics);
    SetColliderCommand::new(parent, ball(4.0, Handle::none())).execute(&mut physics);
    SetColliderCommand::new(parent, ball(5.0, Handle::none())).execute(&mut physics);
    assert_eq!(collider_at(&physics, 0, 2), Some(ball(4.0, parent)));
    assert_eq!(collider_at(&physics, 1, 1), Some(ball(5.0, parent)));
}

#[test]
fn collider_commands_leave_joints_and_bindings_alone() {
    let mut physics = two_bodies();
    let mut command = SetColliderCommand::new(Handle::new(0, 1), ball(1.0, Handle::none()));
    command.execute(&mut physics);
    command.revert(&mut physics);
    assert_eq!(physics.joints.get_capacity(), 0);
    assert_eq!(physics.binder.len(), 2);
    assert_eq!(physics.bodies.alive_count(), 2);
}

#[test]
fn collider_command_names() {
    assert_eq!(
        SetColliderCommand::new(Handle::new(0, 1), ball(1.0, Handle::none())).name(),
        "Set Collider"
    );
    assert_eq!(DeleteColliderCommand::new(Handle::new(0, 1)).name(), "Delete Collider");
}
