use rg3d_core::pool::Handle as PoolHandle;
use scene_editor::commands::joint::{AddJointCommand, DeleteJointCommand};
use scene_editor::handle::Handle;
use scene_editor::math::{Scalar, Vector3};
use scene_editor::physics::joint::{BallJoint, Joint, JointParams};
use scene_editor::physics::Physics;

fn vector(x: f32, y: f32, z: f32) -> Vector3 {
    Vector3 {
        x: Scalar::from_bits(x.to_bits()),
        y: Scalar::from_bits(y.to_bits()),
        z: Scalar::from_bits(z.to_bits()),
    }
}

fn ball_joint(tag: f32) -> Joint {
    Joint {
        body1: Handle::new(1, 1),
        body2: Handle::new(2, 1),
        params: JointParams::BallJoint(BallJoint {
            local_anchor1: vector(tag, 0.0, 0.0),
            local_anchor2: vector(0.0, tag, 0.0),
        }),
    }
}

fn joint_at(physics: &Physics, index: u32, generation: u32) -> Option<Joint> {
    physics
        .joints
        .try_borrow(PoolHandle::new(index, generation))
        .copied()
}

#[test]
fn a_new_physics_is_empty() {
    let physics = Physics::new();
    assert_eq!(physics.bodies.alive_count(), 0);
    assert_eq!(physics.colliders.alive_count(), 0);
    assert_eq!(physics.joints.alive_count(), 0);
    assert_eq!(physics.bodies.get_capacity(), 0);
    assert!(physics.binder.is_empty());
}

#[test]
fn add_joint_puts_the_joint_into_the_first_slot() {
    let mut physics = Physics::new();
    let mut command = AddJointCommand::new(ball_joint(1.0));
    command.execute(&mut physics);
    assert_eq!(physics.joints.alive_count(), 1);
    assert_eq!(joint_at(&physics, 0, 1), Some(ball_joint(1.0)));
}

#[test]
fn add_joint_gives_each_joint_a_slot_of_its_own() {
    let mut physics = Physics::new();
    AddJointCommand::new(ball_joint(1.0)).execute(&mut physics);
    AddJointCommand::new(ball_joint(2.0)).execute(&mut physics);
    assert_eq!(physics.joints.alive_count(), 2);
    assert_eq!(joint_at(&physics, 0, 1), Some(ball_joint(1.0)));
    assert_eq!(joint_at(&physics, 1, 1), Some(ball_joint(2.0)));
}

#[test]
fn add_joint_revert_takes_the_joint_out_and_keeps_the_slot() {
    let mut physics = Physics::new();
    let mut command = AddJointCommand::new(ball_joint(1.0));
    command.execute(&mut physics);
    command.revert(&mut physics);
    assert_eq!(physics.joints.alive_count(), 0);
    assert_eq!(joint_at(&physics, 0, 1), None);
    // The slot is reserved: a new joint goes elsewhere.
    AddJointCommand::new(ball_joint(2.0)).execute(&mut physics);
    assert_eq!(joint_at(&physics, 1, 1), Some(ball_joint(2.0)));
    assert_eq!(joint_at(&physics, 0, 1), None);
}

#[test]
fn add_joint_execute_after_revert_restores_the_handle() {
    let mut physics = Physics::new();
    let mut command = AddJointCommand::new(ball_joint(1.0));
    command.execute(&mut physics);
    command.revert(&mut physics);
    command.execute(&mut physics);
    assert_eq!(physics.joints.alive_count(), 1);
    assert_eq!(physics.joints.get_capacity(), 1);
    assert_eq!(joint_at(&physics, 0, 1), Some(ball_joint(1.0)));
    // And once more.
    command.revert(&mut physics);
    command.execute(&mut physics);
    assert_eq!(joint_at(&physics, 0, 1), Some(ball_joint(1.0)));
}

#[test]
fn add_joint_finalize_after_revert_frees_the_slot() {
    let mut physics = Physics::new();
    let mut command = AddJointCommand::new(ball_joint(1.0));
    command.execute(&mut physics);
    command.revert(&mut physics);
    command.finalize(&mut physics);
    // The slot is filled next, under the next generation.
    AddJointCommand::new(ball_joint(2.0)).execute(&mut physics);
    assert_eq!(physics.joints.get_capacity(), 1);
    assert_eq!(joint_at(&physics, 0, 1), None);
    assert_eq!(joint_at(&physics, 0, 2), Some(ball_joint(2.0)));
}

#[test]
fn add_joint_finalize_forgets_the_ticket_once() {
    let mut physics = Physics::new();
    let mut command = AddJointCommand::new(ball_joint(1.0));
    command.execute(&mut physics);
    command.revert(&mut physics);
    command.finalize(&mut physics);
    command.finalize(&mut physics);
    // Were the slot given up twice, the second of two new joints would find
    // it filled.
    AddJointCommand::new(ball_joint(2.0)).execute(&mut physics);
    AddJointCommand::new(ball_joint(3.0)).execute(&mut physics);
    assert_eq!(joint_at(&physics, 0, 2), Some(ball_joint(2.0)));
    assert_eq!(joint_at(&physics, 1, 1), Some(ball_joint(3.0)));
}

#[test]
fn add_joint_finalize_of_an_executed_command_changes_nothing() {
    let mut physics = Physics::new();
    let mut command = AddJointCommand::new(ball_joint(1.0));
    command.execute(&mut physics);
    command.finalize(&mut physics);
    assert_eq!(joint_at(&physics, 0, 1), Some(ball_joint(1.0)));
    AddJointCommand::new(ball_joint(2.0)).execute(&mut physics);
    assert_eq!(joint_at(&physics, 1, 1), Some(ball_joint(2.0)));
}

#[test]
fn delete_joint_takes_the_joint_out() {
    let mut physics = Physics::new();
    AddJointCommand::new(ball_joint(1.0)).execute(&mut physics);
    AddJointCommand::new(ball_joint(2.0)).execute(&mut physics);
    let mut delete = DeleteJointCommand::new(Handle::new(0, 1));
    delete.execute(&mut physics);
    assert_eq!(physics.joints.alive_count(), 1);
    assert_eq!(joint_at(&physics, 0, 1), None);
    assert_eq!(joint_at(&physics, 1, 1), Some(ball_joint(2.0)));
}

#[test]
fn delete_joint_revert_puts_the_joint_back_under_its_handle() {
    let mut physics = Physics::new();
    AddJointCommand::new(ball_joint(1.0)).execute(&mut physics);
    AddJointCommand::new(ball_joint(2.0)).execute(&mut physics);
    let mut delete = DeleteJointCommand::new(Handle::new(1, 1));
    delete.execute(&mut physics);
    delete.revert(&mut physics);
    assert_eq!(physics.joints.alive_count(), 2);
    assert_eq!(joint_at(&physics, 0, 1), Some(ball_joint(1.0)));
    assert_eq!(joint_at(&physics, 1, 1), Some(ball_joint(2.0)));
    // The command can run again on the handle that came back.
    delete.execute(&mut physics);
    assert_eq!(joint_at(&physics, 1, 1), None);
}

#[test]
fn delete_joint_finalize_frees_the_slot() {
    let mut physics = Physics::new();
    AddJointCommand::new(ball_joint(1.0)).execute(&mut physics);
    let mut delete = DeleteJointCommand::new(Handle::new(0, 1));
    delete.execute(&mut physics);
    delete.finalize(&mut physics);
    AddJointCommand::new(ball_joint(2.0)).execute(&mut physics);
    assert_eq!(physics.joints.get_capacity(), 1);
    assert_eq!(joint_at(&physics, 0, 2), Some(ball_joint(2.0)));
}

#[test]
fn joint_commands_leave_bodies_and_colliders_alone() {
    let mut physics = Physics::new();
    let mut command = AddJointCommand::new(ball_joint(1.0));
    command.execute(&mut physics);
    command.revert(&mut physics);
    command.execute(&mut physics);
    assert_eq!(physics.bodies.get_capacity(), 0);
    assert_eq!(physics.colliders.get_capacity(), 0);
    assert!(physics.binder.is_empty());
}

#[test]
fn joint_command_names() {
    assert_eq!(AddJointCommand::new(ball_joint(1.0)).name(), "Add Joint");
    assert_eq!(DeleteJointCommand::new(Handle::new(0, 1)).name(), "Delete Joint");
}
