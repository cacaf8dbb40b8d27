use rover_drive::assembler::{assemble, AssemblyParams, CHASSIS_FRICTION, WHEEL_FRICTION};
use rover_drive::control::{apply_drive, control_step, motor_target, ControlConfig, MotorTarget};
use rover_drive::input::{resolve, DirectionalInput};
use rover_drive::rig::{Body, BodyKind, ColliderShape, Joint, JointKind, Rig, Side, Vec3i, WheelRef};

fn params() -> AssemblyParams {
    AssemblyParams {
        drop_height: 5_000,
        chassis_half_extents: Vec3i { x: 600, y: 250, z: 950 },
        wheel_radius: 400,
        axle_half_width: 400,
        axle_offset: 600,
        axle_height: -100,
        motor_factor: 30_000,
        gravity: Vec3i { x: 0, y: -90_000, z: 0 },
    }
}

fn config() -> ControlConfig {
    ControlConfig { max_speed: 10_000, max_factor: 150_000 }
}

fn input(forward: bool, backward: bool, left: bool, right: bool) -> DirectionalInput {
    DirectionalInput { forward, backward, left, right }
}

#[test]
fn motor_target_formula() {
    let cfg = config();
    let c = resolve(&input(true, false, false, true));
    assert_eq!(c.left, 2);
    let t = motor_target(&c, Side::Left, &cfg);
    assert_eq!(t, MotorTarget { velocity: -20_000, factor: 150_000 });
    let c = resolve(&input(false, true, false, false));
    let t = motor_target(&c, Side::Right, &cfg);
    assert_eq!(t, MotorTarget { velocity: 10_000, factor: 150_000 });
}

#[test]
fn assembler_two_mirrored_wheels() {
    let rig = assemble(&params());
    assert_eq!(rig.wheels.len(), 2);
    assert_eq!(rig.joints.len(), 2);
    assert_eq!(rig.wheels[0].side, Side::Left);
    assert_eq!(rig.wheels[1].side, Side::Right);
    // Each wheel owns exactly one joint of the two.
    assert_ne!(rig.wheels[0].joint, rig.wheels[1].joint);
    let jl = &rig.joints[rig.wheels[0].joint];
    let jr = &rig.joints[rig.wheels[1].joint];
    // Anchors mirror across the chassis centerline: X negated, Y and Z kept.
    assert_eq!(jl.anchor_a, Vec3i { x: -400, y: -100, z: 600 });
    assert_eq!(jr.anchor_a, Vec3i { x: 400, y: -100, z: 600 });
    assert_eq!(jl.anchor_a.x, -jr.anchor_a.x);
    assert_eq!(jl.anchor_a.y, jr.anchor_a.y);
    assert_eq!(jl.anchor_a.z, jr.anchor_a.z);
    // Wheel-side anchors sit at each wheel's own origin.
    assert_eq!(jl.anchor_b, Vec3i { x: 0, y: 0, z: 0 });
    assert_eq!(jr.anchor_b, Vec3i { x: 0, y: 0, z: 0 });
    // Both joints are revolute about the lateral axis, linking chassis and
    // wheel, with the motor idle at the configured drive factor.
    for (w, j) in [(&rig.wheels[0], jl), (&rig.wheels[1], jr)] {
        assert_eq!(j.kind, JointKind::Revolute);
        assert_eq!(j.axis, Vec3i { x: 1_000, y: 0, z: 0 });
        assert_eq!(j.body_a, rig.chassis);
        assert_eq!(j.body_b, w.body);
        assert_eq!(j.motor_velocity, 0);
        assert_eq!(j.motor_factor, 30_000);
    }
}

#[test]
fn assembler_body_properties() {
    let rig = assemble(&params());
    let chassis = &rig.bodies[rig.chassis];
    assert_eq!(chassis.kind, BodyKind::Dynamic);
    assert_eq!(chassis.friction, CHASSIS_FRICTION);
    assert_eq!(
        chassis.shape,
        ColliderShape::Cuboid { half_x: 600, half_y: 250, half_z: 950 }
    );
    assert_eq!(chassis.position, Vec3i { x: 0, y: 5_000, z: 0 });
    for w in &rig.wheels {
        let body = &rig.bodies[w.body];
        assert_eq!(body.kind, BodyKind::Dynamic);
        assert_eq!(body.friction, WHEEL_FRICTION);
        assert_eq!(body.shape, ColliderShape::Ball { radius: 400 });
    }
    let ground = &rig.bodies[rig.ground];
    assert_eq!(ground.kind, BodyKind::Fixed);
    assert_eq!(ground.friction, 1_000);
    assert_eq!(rig.gravity, Vec3i { x: 0, y: -90_000, z: 0 });
}

#[test]
fn collision_groups_distinct() {
    let rig = assemble(&params());
    let chassis_group = rig.bodies[rig.chassis].collision_group;
    let left_group = rig.bodies[rig.wheels[0].body].collision_group;
    let right_group = rig.bodies[rig.wheels[1].body].collision_group;
    assert_ne!(chassis_group, left_group);
    assert_ne!(chassis_group, right_group);
    assert_ne!(left_group, right_group);
}

#[test]
fn sleep_disabled_on_dynamic_bodies() {
    let rig = assemble(&params());
    for body in &rig.bodies {
        if body.kind == BodyKind::Dynamic {
            assert!(!body.can_sleep);
        }
    }
}

#[test]
fn validate_rejects_bad_geometry() {
    assert!(params().validate());
    let mut p = params();
    p.wheel_radius = 0;
    assert!(!p.validate());
    let mut p = params();
    p.chassis_half_extents.y = -250;
    assert!(!p.validate());
    let mut p = params();
    p.axle_half_width = -1;
    assert!(!p.validate());
}

#[test]
fn end_to_end_forward() {
    let mut rig = assemble(&params());
    let cfg = config();
    control_step(&mut rig, &input(true, false, false, false), &cfg);
    for w in &rig.wheels {
        let j = &rig.joints[w.joint];
        assert_eq!(j.motor_velocity, -10_000);
        assert_eq!(j.motor_factor, 150_000);
    }
}

#[test]
fn end_to_end_idle_keeps_factor() {
    let mut rig = assemble(&params());
    let cfg = config();
    control_step(&mut rig, &input(true, false, false, false), &cfg);
    control_step(&mut rig, &input(false, false, false, false), &cfg);
    for w in &rig.wheels {
        let j = &rig.joints[w.joint];
        assert_eq!(j.motor_velocity, 0);
        assert_eq!(j.motor_factor, 150_000);
    }
}

#[test]
fn turn_in_place_opposite_motors() {
    let mut rig = assemble(&params());
    let cfg = config();
    control_step(&mut rig, &input(false, false, true, false), &cfg);
    let left = &rig.joints[rig.wheels[0].joint];
    let right = &rig.joints[rig.wheels[1].joint];
    assert_eq!(left.motor_velocity, 10_000);
    assert_eq!(right.motor_velocity, -10_000);
    assert_eq!(left.motor_velocity, -right.motor_velocity);
}

#[test]
fn controller_idempotent() {
    let cfg = config();
    let d = input(true, false, true, false);
    let cmd = resolve(&d);
    let mut once = assemble(&params());
    apply_drive(&mut once, &cmd, &cfg);
    let mut twice = once.clone();
    apply_drive(&mut twice, &cmd, &cfg);
    assert_eq!(once, twice);
}

#[test]
fn non_revolute_joint_skipped() {
    // A wheel whose joint is not revolute is passed over: its joint keeps
    // its motor values, and the other wheels are still driven.
    let locked = Joint {
        body_a: 0,
        body_b: 1,
        kind: JointKind::Locked,
        axis: Vec3i { x: 1_000, y: 0, z: 0 },
        anchor_a: Vec3i { x: -400, y: 0, z: 0 },
        anchor_b: Vec3i { x: 0, y: 0, z: 0 },
        motor_velocity: 77,
        motor_factor: 88,
    };
    let revolute = Joint {
        body_a: 0,
        body_b: 2,
        kind: JointKind::Revolute,
        axis: Vec3i { x: 1_000, y: 0, z: 0 },
        anchor_a: Vec3i { x: 400, y: 0, z: 0 },
        anchor_b: Vec3i { x: 0, y: 0, z: 0 },
        motor_velocity: 0,
        motor_factor: 0,
    };
    let body = Body {
        kind: BodyKind::Dynamic,
        position: Vec3i { x: 0, y: 0, z: 0 },
        shape: ColliderShape::Ball { radius: 400 },
        friction: 1_000,
        restitution: 0,
        collision_group: 0,
        can_sleep: false,
    };
    let mut rig = Rig {
        bodies: vec![body, body, body],
        joints: vec![locked, revolute],
        wheels: vec![
            WheelRef { side: Side::Left, body: 1, joint: 0, telemetry: 0 },
            WheelRef { side: Side::Right, body: 2, joint: 1, telemetry: 0 },
        ],
        chassis: 0,
        ground: 0,
        gravity: Vec3i { x: 0, y: -90_000, z: 0 },
    };
    let cfg = config();
    let cmd = resolve(&input(true, false, false, false));
    apply_drive(&mut rig, &cmd, &cfg);
    assert_eq!(rig.joints[0].motor_velocity, 77);
    assert_eq!(rig.joints[0].motor_factor, 88);
    assert_eq!(rig.joints[1].motor_velocity, -10_000);
    assert_eq!(rig.joints[1].motor_factor, 150_000);
}
