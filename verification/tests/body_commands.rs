use rg3d_core::pool::Handle as PoolHandle;
use scene_editor::commands::body::{DeleteBodyCommand, SetBodyCommand};
use scene_editor::commands::body_properties::SetBodyMassCommand;
use scene_editor::handle::Handle;
use scene_editor::math::{Quaternion, Scalar, Vector3};
use scene_editor::physics::body::{RigidBody, RigidBodyType};
use scene_editor::physics::Physics;

fn scalar(value: f32) -> Scalar {
    Scalar::from_bits(value.to_bits())
}

fn vector(x: f32, y: f32, z: f32) -> Vector3 {
    Vector3 { x: scalar(x), y: scalar(y), z: scalar(z) }
}

fn body(mass: f32) -> RigidBody {
    RigidBody {
        position: vector(1.0, 2.0, 3.0),
        rotation: Quaternion { i: scalar(0.0), j: scalar(0.0), k: scalar(0.0), w: scalar(1.0) },
        lin_vel: vector(0.0, 0.0, 0.0),
        ang_vel: vector(0.0, 0.0, 0.0),
        sleeping: false,
        status: RigidBodyType::Dynamic,
        colliders: Vec::new(),
        mass: scalar(mass),
        x_rotation_locked: false,
        y_rotation_locked: true,
        z_rotation_locked: false,
        translation_locked: false,
    }
}

fn body_at(physics: &Physics, index: u32, generation: u32) -> Option<&RigidBody> {
    physics.bodies.try_borrow(PoolHandle::new(index, generation))
}

fn bound_body(physics: &Physics, node: Handle) -> Option<Handle> {
    physics
        .binder
        .value_of(&(node.index, node.generation))
        .map(|&(index, generation)| Handle::new(index, generation))
}

fn bound_node(physics: &Physics, body: Handle) -> Option<Handle> {
    physics
        .binder
        .key_of(&(body.index, body.generation))
        .map(|&(index, generation)| Handle::new(index, generation))
}

#[test]
fn set_body_puts_the_body_in_and_binds_the_node() {
    let mut physics = Physics::new();
    let node = Handle::new(7, 3);
    let mut command = SetBodyCommand::new(node, body(2.0));
    command.execute(&mut physics);
    assert_eq!(physics.bodies.alive_count(), 1);
    assert_eq!(body_at(&physics, 0, 1), Some(&body(2.0)));
    assert_eq!(bound_body(&physics, node), Some(Handle::new(0, 1)));
    assert_eq!(bound_node(&physics, Handle::new(0, 1)), Some(node));
    assert_eq!(physics.binder.len(), 1);
}

#[test]
fn set_body_revert_takes_the_body_out_and_unbinds_the_node() {
    let mut physics = Physics::new();
    let node = Handle::new(7, 3);
    let mut command = SetBodyCommand::new(node, body(2.0));
    command.execute(&mut physics);
    command.revert(&mut physics);
    assert_eq!(physics.bodies.alive_count(), 0);
    assert_eq!(body_at(&physics, 0, 1), None);
    assert_eq!(bound_body(&physics, node), None);
    assert_eq!(bound_node(&physics, Handle::new(0, 1)), None);
    assert!(physics.binder.is_empty());
}

#[test]
fn set_body_execute_after_revert_restores_body_and_binding() {
    let mut physics = Physics::new();
    let node = Handle::new(7, 3);
    let mut command = SetBodyCommand::new(node, body(2.0));
    command.execute(&mut physics);
    command.revert(&mut physics);
    command.execute(&mut physics);
    assert_eq!(physics.bodies.get_capacity(), 1);
    assert_eq!(body_at(&physics, 0, 1), Some(&body(2.0)));
    assert_eq!(bound_body(&physics, node), Some(Handle::new(0, 1)));
}

#[test]
fn set_body_finalize_after_revert_frees_the_slot() {
    let mut physics = Physics::new();
    let mut command = SetBodyCommand::new(Handle::new(7, 3), body(2.0));
    command.execute(&mut physics);
    command.revert(&mut physics);
    command.finalize(&mut physics);
    command.finalize(&mut physics);
    let other = Handle::new(8, 1);
    SetBodyCommand::new(other, body(5.0)).execute(&mut physics);
    assert_eq!(physics.bodies.get_capacity(), 1);
    assert_eq!(body_at(&physics, 0, 2), Some(&body(5.0)));
    assert_eq!(bound_body(&physics, other), Some(Handle::new(0, 2)));
}

#[test]
fn set_body_finalize_of_an_executed_command_keeps_the_binding() {
    let mut physics = Physics::new();
    let node = Handle::new(7, 3);
    let mut command = SetBodyCommand::new(node, body(2.0));
    command.execute(&mut physics);
    command.finalize(&mut physics);
    assert_eq!(body_at(&physics, 0, 1), Some(&body(2.0)));
    assert_eq!(bound_body(&physics, node), Some(Handle::new(0, 1)));
}

#[test]
fn set_body_binds_a_node_anew() {
    let mut physics = Physics::new();
    let node = Handle::new(7, 3);
    SetBodyCommand::new(node, body(2.0)).execute(&mut physics);
    SetBodyCommand::new(node, body(3.0)).execute(&mut physics);
    assert_eq!(bound_body(&physics, node), Some(Handle::new(1, 1)));
    assert_eq!(bound_node(&physics, Handle::new(1, 1)), Some(node));
    // The entry that led from the first body back to the node stays.
    assert_eq!(bound_node(&physics, Handle::new(0, 1)), Some(node));
}

#[test]
fn delete_body_takes_the_body_out_and_unbinds_it() {
    let mut physics = Physics::new();
    let node = Handle::new(7, 3);
    SetBodyCommand::new(node, body(2.0)).execute(&mut physics);
    SetBodyCommand::new(Handle::new(9, 1), body(3.0)).execute(&mut physics);
    let mut delete = DeleteBodyCommand::new(Handle::new(0, 1));
    delete.execute(&mut physics);
    assert_eq!(body_at(&physics, 0, 1), None);
    assert_eq!(body_at(&physics, 1, 1), Some(&body(3.0)));
    assert_eq!(bound_body(&physics, node), None);
    assert_eq!(bound_node(&physics, Handle::new(0, 1)), None);
    assert_eq!(bound_body(&physics, Handle::new(9, 1)), Some(Handle::new(1, 1)));
}

#[test]
fn delete_body_revert_puts_the_body_back_and_binds_it_again() {
    let mut physics = Physics::new();
    let node = Handle::new(7, 3);
    SetBodyCommand::new(node, body(2.0)).execute(&mut physics);
    let mut delete = DeleteBodyCommand::new(Handle::new(0, 1));
    delete.execute(&mut physics);
    delete.revert(&mut physics);
    assert_eq!(body_at(&physics, 0, 1), Some(&body(2.0)));
    assert_eq!(bound_body(&physics, node), Some(Handle::new(0, 1)));
    assert_eq!(bound_node(&physics, Handle::new(0, 1)), Some(node));
    delete.execute(&mut physics);
    assert_eq!(body_at(&physics, 0, 1), None);
    assert_eq!(bound_body(&physics, node), None);
}

#[test]
fn delete_body_revert_of_an_unbound_body_binds_the_handle_that_names_nothing() {
    let mut physics = Physics::new();
    let node = Handle::new(7, 3);
    SetBodyCommand::new(node, body(2.0)).execute(&mut physics);
    assert_eq!(physics.unbind_by_body(Handle::new(0, 1)), node);
    let mut delete = DeleteBodyCommand::new(Handle::new(0, 1));
    delete.execute(&mut physics);
    delete.revert(&mut physics);
    assert_eq!(body_at(&physics, 0, 1), Some(&body(2.0)));
    assert_eq!(bound_body(&physics, Handle::new(0, 0)), Some(Handle::new(0, 1)));
    assert_eq!(bound_body(&physics, node), None);
}

#[test]
fn delete_body_finalize_frees_the_slot() {
    let mut physics = Physics::new();
    SetBodyCommand::new(Handle::new(7, 3), body(2.0)).execute(&mut physics);
    let mut delete = DeleteBodyCommand::new(Handle::new(0, 1));
    delete.execute(&mut physics);
    delete.finalize(&mut physics);
    delete.finalize(&mut physics);
    SetBodyCommand::new(Handle::new(8, 1), body(4.0)).execute(&mut physics);
    SetBodyCommand::new(Handle::new(9, 1), body(5.0)).execute(&mut physics);
    assert_eq!(body_at(&physics, 0, 2), Some(&body(4.0)));
    assert_eq!(body_at(&physics, 1, 1), Some(&body(5.0)));
}

#[test]
fn unbind_by_body_returns_the_node() {
    let mut physics = Physics::new();
    let node = Handle::new(7, 3);
    SetBodyCommand::new(node, body(2.0)).execute(&mut physics);
    assert_eq!(physics.unbind_by_body(Handle::new(0, 1)), node);
    assert!(physics.binder.is_empty());
    assert_eq!(body_at(&physics, 0, 1), Some(&body(2.0)));
}

#[test]
fn unbind_by_body_of_an_unbound_body_returns_the_handle_that_names_nothing() {
    let mut physics = Physics::new();
    let node = Handle::new(7, 3);
    SetBodyCommand::new(node, body(2.0)).execute(&mut physics);
    assert_eq!(physics.unbind_by_body(Handle::new(5, 5)), Handle::none());
    assert_eq!(bound_body(&physics, node), Some(Handle::new(0, 1)));
}

#[test]
fn set_body_mass_swaps_the_mass() {
    let mut physics = Physics::new();
    SetBodyCommand::new(Handle::new(7, 3), body(2.0)).execute(&mut physics);
    SetBodyCommand::new(Handle::new(8, 3), body(3.0)).execute(&mut physics);
    let mut command = SetBodyMassCommand::new(Handle::new(0, 1), scalar(10.5));
    assert!(command.is_ready(&physics));
    assert!(!SetBodyMassCommand::new(Handle::new(0, 2), scalar(10.5)).is_ready(&physics));
    assert!(!SetBodyMassCommand::new(Handle::new(2, 1), scalar(10.5)).is_ready(&physics));
    command.execute(&mut physics);
    assert_eq!(body_at(&physics, 0, 1), Some(&body(10.5)));
    assert_eq!(body_at(&physics, 1, 1), Some(&body(3.0)));
    command.revert(&mut physics);
    assert_eq!(body_at(&physics, 0, 1), Some(&body(2.0)));
    command.execute(&mut physics);
    assert_eq!(body_at(&physics, 0, 1), Some(&body(10.5)));
}

#[test]
fn attach_and_detach_keep_the_order_of_the_colliders() {
    let mut subject = body(1.0);
    subject.attach(Handle::new(3, 1));
    subject.attach(Handle::new(1, 1));
    subject.attach(Handle::new(3, 1));
    subject.attach(Handle::new(2, 4));
    assert_eq!(
        subject.colliders,
        vec![Handle::new(3, 1), Handle::new(1, 1), Handle::new(3, 1), Handle::new(2, 4)]
    );
    assert_eq!(subject.position_of(Handle::new(3, 1)), Some(0));
    assert_eq!(subject.position_of(Handle::new(2, 4)), Some(3));
    assert_eq!(subject.position_of(Handle::new(2, 5)), None);
    subject.detach(Handle::new(3, 1));
    assert_eq!(subject.colliders, vec![Handle::new(1, 1), Handle::new(3, 1), Handle::new(2, 4)]);
    subject.detach(Handle::new(2, 4));
    assert_eq!(subject.colliders, vec![Handle::new(1, 1), Handle::new(3, 1)]);
    assert_eq!(subject.mass, scalar(1.0));
}

#[test]
fn body_command_names() {
    assert_eq!(SetBodyCommand::new(Handle::new(1, 1), body(1.0)).name(), "Set Node Body");
    assert_eq!(DeleteBodyCommand::new(Handle::new(0, 1)).name(), "Delete Body");
    assert_eq!(SetBodyMassCommand::new(Handle::new(0, 1), scalar(1.0)).name(), "Set Body Mass");
}
