//! Drivetrain assembler: builds the chassis-plus-two-wheels rig once, before
//! simulation starts. The chassis is a frictionless dynamic box in its own
//! collision group; each wheel is a full-grip dynamic sphere in its own
//! group, hung on a motorized revolute joint about the lateral (X) axis whose
//! chassis-side anchors mirror each other across the chassis centerline.
//! Sleep is disabled on every dynamic body: a sleeping body would ignore the
//! controller's motor-velocity writes.

use vstd::prelude::*;

use crate::rig::{Body, BodyKind, ColliderShape, Joint, JointKind, Rig, Side, Vec3i, WheelRef};

verus! {

/// One unit (1.0) in milli-unit fixed point.
pub const UNIT_MILLI: i64 = 1_000;

/// Half extent of the square ground plane, in milli-units.
pub const GROUND_HALF_EXTENT: i64 = 100_000;

/// Half thickness of the ground slab, in milli-units.
pub const GROUND_HALF_THICKNESS: i64 = 100;

/// Friction of the ground plane: full grip.
pub const GROUND_FRICTION: i64 = 1_000;

/// Friction of the chassis box: frictionless — only the wheels grip.
pub const CHASSIS_FRICTION: i64 = 0;

/// Friction of each wheel sphere: full grip.
pub const WHEEL_FRICTION: i64 = 1_000;

/// The shared default collision group: no collision exemption.
pub const SHARED_GROUP: u32 = 0;

/// Dedicated collision group of the chassis.
pub const CHASSIS_GROUP: u32 = 2;

/// Dedicated collision group of the left wheel.
pub const LEFT_WHEEL_GROUP: u32 = 3;

/// Dedicated collision group of the right wheel.
pub const RIGHT_WHEEL_GROUP: u32 = 4;

/// Geometry and motor configuration handed to the assembler, in milli-units:
/// the drop height the rig starts at, the chassis box half extents, the
/// wheel sphere radius, the axle placement relative to the chassis origin
/// (half width sideways, offset lengthways, height vertically), the drive
/// factor the wheel motors are created with, and the world's gravity vector.
#[derive(Clone, Copy, PartialEq, Eq, Structural, Debug)]
pub struct AssemblyParams {
    pub drop_height: i64,
    pub chassis_half_extents: Vec3i,
    pub wheel_radius: i64,
    pub axle_half_width: i64,
    pub axle_offset: i64,
    pub axle_height: i64,
    pub motor_factor: i64,
    pub gravity: Vec3i,
}

impl AssemblyParams {
    /// Valid geometry: extents and radius strictly positive, the axle half
    /// width a nonnegative length, the drive factor nonnegative. Anything
    /// else is a configuration error, rejected before assembly.
    pub open spec fn wf(self) -> bool {
        &&& 0 < self.chassis_half_extents.x
        &&& 0 < self.chassis_half_extents.y
        &&& 0 < self.chassis_half_extents.z
        &&& 0 < self.wheel_radius
        &&& 0 <= self.axle_half_width
        &&& 0 <= self.motor_factor
    }

    /// Runtime check of `wf`, for callers whose parameters are not known
    /// valid up front.
    pub fn validate(&self) -> (r: bool)
        ensures
            r == self.wf(),
    {
        self.chassis_half_extents.x > 0 && self.chassis_half_extents.y > 0
            && self.chassis_half_extents.z > 0 && self.wheel_radius > 0 && self.axle_half_width >= 0
            && self.motor_factor >= 0
    }
}

/// The ground body: a fixed, full-grip slab at the origin in the shared
/// collision group.
pub open spec fn spec_ground_body() -> Body {
    Body {
        kind: BodyKind::Fixed,
        position: Vec3i { x: 0, y: 0, z: 0 },
        shape: ColliderShape::Cuboid {
            half_x: GROUND_HALF_EXTENT,
            half_y: GROUND_HALF_THICKNESS,
            half_z: GROUND_HALF_EXTENT,
        },
        friction: GROUND_FRICTION,
        restitution: 0,
        collision_group: SHARED_GROUP,
        can_sleep: true,
    }
}

/// The chassis body: a dynamic, frictionless box at the drop height, in its
/// own collision group, never allowed to sleep.
pub open spec fn spec_chassis_body(p: AssemblyParams) -> Body {
    Body {
        kind: BodyKind::Dynamic,
        position: Vec3i { x: 0, y: p.drop_height, z: 0 },
        shape: ColliderShape::Cuboid {
            half_x: p.chassis_half_extents.x,
            half_y: p.chassis_half_extents.y,
            half_z: p.chassis_half_extents.z,
        },
        friction: CHASSIS_FRICTION,
        restitution: 0,
        collision_group: CHASSIS_GROUP,
        can_sleep: false,
    }
}

/// The collision group a wheel body gets: one per side, distinct from the
/// chassis's.
pub open spec fn spec_wheel_group(side: Side) -> u32 {
    match side {
        Side::Left => LEFT_WHEEL_GROUP,
        Side::Right => RIGHT_WHEEL_GROUP,
    }
}

/// A wheel body: a dynamic, full-grip sphere dropped at the chassis
/// position, in its side's own collision group, never allowed to sleep.
pub open spec fn spec_wheel_body(p: AssemblyParams, side: Side) -> Body {
    Body {
        kind: BodyKind::Dynamic,
        position: Vec3i { x: 0, y: p.drop_height, z: 0 },
        shape: ColliderShape::Ball { radius: p.wheel_radius },
        friction: WHEEL_FRICTION,
        restitution: 0,
        collision_group: spec_wheel_group(side),
        can_sleep: false,
    }
}

/// The X coordinate of a wheel joint's chassis-side anchor: the axle half
/// width, negated on the left side — the two anchors mirror each other
/// across the chassis centerline.
pub open spec fn spec_anchor_x(p: AssemblyParams, side: Side) -> int {
    match side {
        Side::Left => -(p.axle_half_width as int),
        Side::Right => p.axle_half_width as int,
    }
}

/// A wheel's revolute joint: chassis on side A, wheel on side B, one
/// rotational degree of freedom about the lateral (X) axis, the chassis-side
/// anchor at the axle position for the wheel's side, the wheel-side anchor
/// at the wheel's own origin, and the motor initialized to velocity zero
/// with the configured drive factor.
pub open spec fn spec_wheel_joint(p: AssemblyParams, side: Side, chassis: usize, wheel: usize) -> Joint {
    Joint {
        body_a: chassis,
        body_b: wheel,
        kind: JointKind::Revolute,
        axis: Vec3i { x: UNIT_MILLI, y: 0, z: 0 },
        anchor_a: Vec3i {
            x: spec_anchor_x(p, side) as i64,
            y: p.axle_height,
            z: p.axle_offset,
        },
        anchor_b: Vec3i { x: 0, y: 0, z: 0 },
        motor_velocity: 0,
        motor_factor: p.motor_factor,
    }
}

/// Builds the complete rig: ground, chassis, two tagged wheel bodies and
/// their mirrored revolute joints. The ensures pin down every body and
/// joint, and state the three standing invariants directly: the chassis and
/// the two wheels occupy three pairwise distinct collision groups; every
/// dynamic body has sleep disabled; and the two chassis-side anchors are
/// mirror images across the centerline (X negated, Y and Z equal).
pub fn assemble(p: &AssemblyParams) -> (r: Rig)
    requires
        p.wf(),
    ensures
        r@.wf(),
        r.bodies@.len() == 4,
        r.joints@.len() == 2,
        r.wheels@.len() == 2,
        r.gravity == p.gravity,
        r.bodies@[r@.ground] == spec_ground_body(),
        r.bodies@[r@.chassis] == spec_chassis_body(*p),
        r.wheels@[0].side == Side::Left,
        r.wheels@[1].side == Side::Right,
        r.wheels@[0].telemetry == 0,
        r.wheels@[1].telemetry == 0,
        r.bodies@[r.wheels@[0].body as int] == spec_wheel_body(*p, Side::Left),
        r.bodies@[r.wheels@[1].body as int] == spec_wheel_body(*p, Side::Right),
        r.joints@[r.wheels@[0].joint as int] == spec_wheel_joint(*p, Side::Left, r.chassis, r.wheels@[0].body),
        r.joints@[r.wheels@[1].joint as int] == spec_wheel_joint(*p, Side::Right, r.chassis, r.wheels@[1].body),
        r.chassis != r.ground,
        r.wheels@[0].body != r.wheels@[1].body,
        r.wheels@[0].body != r.chassis,
        r.wheels@[1].body != r.chassis,
        r.wheels@[0].body != r.ground,
        r.wheels@[1].body != r.ground,
        r.wheels@[0].joint != r.wheels@[1].joint,
        r.bodies@[r@.chassis].collision_group != r.bodies@[r.wheels@[0].body as int].collision_group,
        r.bodies@[r@.chassis].collision_group != r.bodies@[r.wheels@[1].body as int].collision_group,
        r.bodies@[r.wheels@[0].body as int].collision_group != r.bodies@[r.wheels@[1].body as int].collision_group,
        forall|i: int|
            0 <= i < r.bodies@.len() && (#[trigger] r.bodies@[i]).kind is Dynamic
                ==> !r.bodies@[i].can_sleep,
        r.joints@[r.wheels@[0].joint as int].anchor_a.x as int == -(r.joints@[r.wheels@[1].joint
            as int].anchor_a.x as int),
        r.joints@[r.wheels@[0].joint as int].anchor_a.y == r.joints@[r.wheels@[1].joint
            as int].anchor_a.y,
        r.joints@[r.wheels@[0].joint as int].anchor_a.z == r.joints@[r.wheels@[1].joint
            as int].anchor_a.z,
        r.joints@[r.wheels@[0].joint as int].anchor_b == (Vec3i { x: 0, y: 0, z: 0 }),
        r.joints@[r.wheels@[1].joint as int].anchor_b == (Vec3i { x: 0, y: 0, z: 0 }),
{
    let ground = Body {
        kind: BodyKind::Fixed,
        position: Vec3i { x: 0, y: 0, z: 0 },
        shape: ColliderShape::Cuboid {
            half_x: GROUND_HALF_EXTENT,
            half_y: GROUND_HALF_THICKNESS,
            half_z: GROUND_HALF_EXTENT,
        },
        friction: GROUND_FRICTION,
        restitution: 0,
        collision_group: SHARED_GROUP,
        can_sleep: true,
    };
    let chassis = Body {
        kind: BodyKind::Dynamic,
        position: Vec3i { x: 0, y: p.drop_height, z: 0 },
        shape: ColliderShape::Cuboid {
            half_x: p.chassis_half_extents.x,
            half_y: p.chassis_half_extents.y,
            half_z: p.chassis_half_extents.z,
        },
        friction: CHASSIS_FRICTION,
        restitution: 0,
        collision_group: CHASSIS_GROUP,
        can_sleep: false,
    };
    let left_wheel = Body {
        kind: BodyKind::Dynamic,
        position: Vec3i { x: 0, y: p.drop_height, z: 0 },
        shape: ColliderShape::Ball { radius: p.wheel_radius },
        friction: WHEEL_FRICTION,
        restitution: 0,
        collision_group: LEFT_WHEEL_GROUP,
        can_sleep: false,
    };
    let right_wheel = Body {
        kind: BodyKind::Dynamic,
        position: Vec3i { x: 0, y: p.drop_height, z: 0 },
        shape: ColliderShape::Ball { radius: p.wheel_radius },
        friction: WHEEL_FRICTION,
        restitution: 0,
        collision_group: RIGHT_WHEEL_GROUP,
        can_sleep: false,
    };
    let left_anchor_x: i64 = -p.axle_half_width;
    let left_joint = Joint {
        body_a: 1,
        body_b: 2,
        kind: JointKind::Revolute,
        axis: Vec3i { x: UNIT_MILLI, y: 0, z: 0 },
        anchor_a: Vec3i { x: left_anchor_x, y: p.axle_height, z: p.axle_offset },
        anchor_b: Vec3i { x: 0, y: 0, z: 0 },
        motor_velocity: 0,
        motor_factor: p.motor_factor,
    };
    let right_joint = Joint {
        body_a: 1,
        body_b: 3,
        kind: JointKind::Revolute,
        axis: Vec3i { x: UNIT_MILLI, y: 0, z: 0 },
        anchor_a: Vec3i { x: p.axle_half_width, y: p.axle_height, z: p.axle_offset },
        anchor_b: Vec3i { x: 0, y: 0, z: 0 },
        motor_velocity: 0,
        motor_factor: p.motor_factor,
    };
    let mut bodies: Vec<Body> = Vec::new();
    bodies.push(ground);
    bodies.push(chassis);
    bodies.push(left_wheel);
    bodies.push(right_wheel);
    let mut joints: Vec<Joint> = Vec::new();
    joints.push(left_joint);
    joints.push(right_joint);
    let mut wheels: Vec<WheelRef> = Vec::new();
    wheels.push(WheelRef { side: Side::Left, body: 2, joint: 0, telemetry: 0 });
    wheels.push(WheelRef { side: Side::Right, body: 3, joint: 1, telemetry: 0 });
    let r = Rig { bodies, joints, wheels, chassis: 1, ground: 0, gravity: p.gravity };
    proof {
        assert(r.joints@[0] == spec_wheel_joint(*p, Side::Left, 1, 2));
        assert(r.joints@[1] == spec_wheel_joint(*p, Side::Right, 1, 3));
        assert(r@.wf());
    }
    r
}

} // verus!
