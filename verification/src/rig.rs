//! The body registry: rigid bodies, the joints constraining them, and the
//! wheel tags that the controller drives. Handles are indices into the
//! registry's tables; the tables are created once at assembly and the set of
//! bodies and joints never changes afterwards — only joint motor targets are
//! rewritten, by the controller, step by step.
//!
//! All lengths and positions are fixed-point integers in thousandths
//! (milli-units) of the simulation's length unit; speeds and drive factors
//! use the same scale.

use vstd::prelude::*;

verus! {

/// A position, offset or axis in world or body-local space, in milli-units.
#[derive(Clone, Copy, PartialEq, Eq, Structural, Debug)]
pub struct Vec3i {
    pub x: i64,
    pub y: i64,
    pub z: i64,
}

/// Motion kind of a body: fixed bodies never move and never receive velocity
/// or force writes; dynamic bodies are integrated by the solver.
#[derive(Clone, Copy, PartialEq, Eq, Structural, Debug)]
pub enum BodyKind {
    Fixed,
    Dynamic,
}

/// Collision shape of a body, sized in milli-units.
#[derive(Clone, Copy, PartialEq, Eq, Structural, Debug)]
pub enum ColliderShape {
    Cuboid { half_x: i64, half_y: i64, half_z: i64 },
    Ball { radius: i64 },
}

/// One rigid body as recorded at creation time. The position is the initial
/// placement; once the solver starts integrating, the evolving pose is owned
/// by the solver and read back through its own interface.
///
/// `collision_group` partitions bodies: two bodies with distinct nonzero
/// groups never collide with each other; group 0 is the shared default group
/// with no such exemption. `can_sleep == false` forbids the solver's
/// idle-detection from ever putting the body to sleep — a sleeping body would
/// ignore new motor-velocity writes.
#[derive(Clone, Copy, PartialEq, Eq, Structural, Debug)]
pub struct Body {
    pub kind: BodyKind,
    pub position: Vec3i,
    pub shape: ColliderShape,
    pub friction: i64,
    pub restitution: i64,
    pub collision_group: u32,
    pub can_sleep: bool,
}

/// Constraint type of a joint: revolute leaves one rotational degree of
/// freedom about `axis` and is the only kind that carries a usable motor;
/// a locked joint welds the two bodies rigidly.
#[derive(Clone, Copy, PartialEq, Eq, Structural, Debug)]
pub enum JointKind {
    Revolute,
    Locked,
}

/// A constraint between exactly two bodies. Anchors are offsets in each
/// body's local frame, so the constraint is independent of global placement.
/// `motor_velocity` and `motor_factor` are the motor's target angular
/// velocity and its stiffness-like drive factor (bounding corrective torque);
/// they are meaningful only for revolute joints.
#[derive(Clone, Copy, PartialEq, Eq, Structural, Debug)]
pub struct Joint {
    pub body_a: usize,
    pub body_b: usize,
    pub kind: JointKind,
    pub axis: Vec3i,
    pub anchor_a: Vec3i,
    pub anchor_b: Vec3i,
    pub motor_velocity: i64,
    pub motor_factor: i64,
}

/// Which side of the rover a wheel sits on.
#[derive(Clone, Copy, PartialEq, Eq, Structural, Debug)]
pub enum Side {
    Left,
    Right,
}

/// The tag attached to each driven wheel: its side label, the handles of its
/// body and of the joint linking it to the chassis, and a scalar slot
/// reserved for future telemetry (unused by control).
#[derive(Clone, Copy, PartialEq, Eq, Structural, Debug)]
pub struct WheelRef {
    pub side: Side,
    pub body: usize,
    pub joint: usize,
    pub telemetry: i64,
}

/// The assembled rig: body and joint tables, the wheel tags, the chassis and
/// ground handles, and the gravity vector the world is configured with.
#[derive(Clone, PartialEq, Debug)]
pub struct Rig {
    pub bodies: Vec<Body>,
    pub joints: Vec<Joint>,
    pub wheels: Vec<WheelRef>,
    pub chassis: usize,
    pub ground: usize,
    pub gravity: Vec3i,
}

/// Mathematical model of a `Rig`: the same record over sequences.
#[verifier::ext_equal]
pub ghost struct RigView {
    pub bodies: Seq<Body>,
    pub joints: Seq<Joint>,
    pub wheels: Seq<WheelRef>,
    pub chassis: int,
    pub ground: int,
    pub gravity: Vec3i,
}

impl View for Rig {
    type V = RigView;

    open spec fn view(&self) -> RigView {
        RigView {
            bodies: self.bodies@,
            joints: self.joints@,
            wheels: self.wheels@,
            chassis: self.chassis as int,
            ground: self.ground as int,
            gravity: self.gravity,
        }
    }
}

impl RigView {
    /// Well-formedness: every handle held anywhere in the rig points into the
    /// tables, and no two wheel tags share a joint (each wheel owns its own
    /// joint, so driving one wheel never touches another's motor).
    pub open spec fn wf(self) -> bool {
        &&& 0 <= self.chassis < self.bodies.len()
        &&& 0 <= self.ground < self.bodies.len()
        &&& forall|i: int|
            0 <= i < self.joints.len() ==> (#[trigger] self.joints[i]).body_a
                < self.bodies.len() && self.joints[i].body_b < self.bodies.len()
        &&& forall|i: int|
            0 <= i < self.wheels.len() ==> (#[trigger] self.wheels[i]).body < self.bodies.len()
                && self.wheels[i].joint < self.joints.len()
        &&& forall|i: int, j: int|
            0 <= i < j < self.wheels.len() ==> (#[trigger] self.wheels[i]).joint != (
            #[trigger] self.wheels[j]).joint
    }
}

} // verus!
