//! Joint motor controller: every simulation step, looks up each wheel's
//! commanded intent by its side label and writes the joint's motor target —
//! target angular velocity `intent * -max_speed` and drive factor
//! `max_factor`. The sign inversion matches the wheels' local rotation-axis
//! convention, under which positive (forward) intent corresponds to negative
//! angular velocity about the axle.
//!
//! The controller mutates only joint motor targets, never body state, and a
//! wheel whose joint is not revolute is skipped without aborting the step.

use vstd::prelude::*;

use crate::input::{DirectionalInput, DriveCommand, resolve, spec_resolve};
use crate::rig::{Joint, JointKind, Rig, RigView, Side, WheelRef};

verus! {

/// Upper bound on the configured motor speed and drive factor, in
/// milli-units. Keeps `intent * -max_speed` far inside `i64` range.
pub const MOTOR_LIMIT: i64 = 1_000_000_000_000;

/// Fixed controller configuration: the magnitude of the per-unit-intent
/// target speed and the drive factor written to every revolute wheel joint.
#[derive(Clone, Copy, PartialEq, Eq, Structural, Debug)]
pub struct ControlConfig {
    pub max_speed: i64,
    pub max_factor: i64,
}

impl ControlConfig {
    /// Speeds and factors are nonnegative and bounded so that motor targets
    /// cannot overflow.
    pub open spec fn wf(self) -> bool {
        &&& 0 <= self.max_speed <= MOTOR_LIMIT
        &&& 0 <= self.max_factor <= MOTOR_LIMIT
    }
}

/// The intent commanded for one side.
pub open spec fn spec_intent(cmd: DriveCommand, side: Side) -> int {
    match side {
        Side::Left => cmd.left as int,
        Side::Right => cmd.right as int,
    }
}

/// The target angular velocity written for one side: the commanded intent
/// times the negated configured speed.
pub open spec fn spec_motor_velocity(cmd: DriveCommand, side: Side, cfg: ControlConfig) -> int {
    spec_intent(cmd, side) * -(cfg.max_speed as int)
}

/// The motor target written onto one revolute joint.
#[derive(Clone, Copy, PartialEq, Eq, Structural, Debug)]
pub struct MotorTarget {
    pub velocity: i64,
    pub factor: i64,
}

/// Computes one side's motor target from the drive command: velocity
/// `intent * -max_speed`, factor `max_factor`. Pure — depends on nothing but
/// its arguments, so identical commands yield identical targets.
pub fn motor_target(cmd: &DriveCommand, side: Side, cfg: &ControlConfig) -> (t: MotorTarget)
    requires
        cmd.wf(),
        cfg.wf(),
    ensures
        t.velocity as int == spec_motor_velocity(*cmd, side, *cfg),
        t.factor == cfg.max_factor,
{
    let intent: i64 = match side {
        Side::Left => cmd.left,
        Side::Right => cmd.right,
    };
    let neg_speed: i64 = -cfg.max_speed;
    proof {
        assert((-2 * MOTOR_LIMIT) <= intent as int * neg_speed as int <= 2 * MOTOR_LIMIT)
            by (nonlinear_arith)
            requires
                -2 <= intent as int <= 2,
                -MOTOR_LIMIT <= neg_speed as int <= 0,
        ;
    }
    let velocity: i64 = intent * neg_speed;
    MotorTarget { velocity, factor: cfg.max_factor }
}

/// The joint as it stands after the controller has written one side's motor
/// target onto it: motor fields replaced, everything else kept.
pub open spec fn spec_drive_joint(j: Joint, cmd: DriveCommand, cfg: ControlConfig, side: Side) -> Joint {
    Joint {
        motor_velocity: spec_motor_velocity(cmd, side, cfg) as i64,
        motor_factor: cfg.max_factor,
        ..j
    }
}

/// One wheel's visit by the controller: if the wheel's joint handle is valid
/// and the joint is revolute, its motor target is rewritten; otherwise the
/// rig is left untouched (the defensive skip).
pub open spec fn spec_step_wheel(rv: RigView, cmd: DriveCommand, cfg: ControlConfig, w: WheelRef) -> RigView {
    if w.joint < rv.joints.len() && rv.joints[w.joint as int].kind is Revolute {
        RigView {
            joints: rv.joints.update(
                w.joint as int,
                spec_drive_joint(rv.joints[w.joint as int], cmd, cfg, w.side),
            ),
            ..rv
        }
    } else {
        rv
    }
}

/// The rig after the controller has visited the first `n` wheels, in order.
pub open spec fn spec_apply_prefix(rv: RigView, cmd: DriveCommand, cfg: ControlConfig, n: int) -> RigView
    decreases n,
{
    if n <= 0 {
        rv
    } else {
        spec_step_wheel(spec_apply_prefix(rv, cmd, cfg, n - 1), cmd, cfg, rv.wheels[n - 1])
    }
}

/// The rig after one full controller pass over all wheels.
pub open spec fn spec_apply_drive(rv: RigView, cmd: DriveCommand, cfg: ControlConfig) -> RigView {
    spec_apply_prefix(rv, cmd, cfg, rv.wheels.len() as int)
}

/// Whether one of the first `n` wheels owns joint `k`.
pub open spec fn wheel_owns_joint(rv: RigView, n: int, k: int) -> bool {
    exists|i: int| 0 <= i < n && (#[trigger] rv.wheels[i]).joint == k
}

/// The value a controller pass leaves in the `i`-th wheel's joint: the motor
/// target for the wheel's side if the joint is revolute, the untouched joint
/// otherwise.
pub open spec fn spec_visited_joint(rv: RigView, cmd: DriveCommand, cfg: ControlConfig, i: int) -> Joint {
    let k = rv.wheels[i].joint as int;
    if rv.joints[k].kind is Revolute {
        spec_drive_joint(rv.joints[k], cmd, cfg, rv.wheels[i].side)
    } else {
        rv.joints[k]
    }
}

/// What a controller pass leaves where: everything but the joints table is
/// untouched; a joint owned by no visited wheel keeps its value; a visited
/// wheel's joint carries exactly the value its side's motor write leaves.
#[verifier::rlimit(50)]
pub proof fn lemma_apply_prefix_frame(rv: RigView, cmd: DriveCommand, cfg: ControlConfig, n: int)
    requires
        rv.wf(),
        0 <= n <= rv.wheels.len(),
    ensures
        spec_apply_prefix(rv, cmd, cfg, n).bodies == rv.bodies,
        spec_apply_prefix(rv, cmd, cfg, n).wheels == rv.wheels,
        spec_apply_prefix(rv, cmd, cfg, n).chassis == rv.chassis,
        spec_apply_prefix(rv, cmd, cfg, n).ground == rv.ground,
        spec_apply_prefix(rv, cmd, cfg, n).gravity == rv.gravity,
        spec_apply_prefix(rv, cmd, cfg, n).joints.len() == rv.joints.len(),
        forall|k: int|
            0 <= k < rv.joints.len() && !wheel_owns_joint(rv, n, k) ==> spec_apply_prefix(
                rv,
                cmd,
                cfg,
                n,
            ).joints[k] == rv.joints[k],
        forall|i: int|
            0 <= i < n ==> spec_apply_prefix(rv, cmd, cfg, n).joints[(#[trigger] rv.wheels[i]).joint
                as int] == spec_visited_joint(rv, cmd, cfg, i),
    decreases n,
{
    if n > 0 {
        lemma_apply_prefix_frame(rv, cmd, cfg, n - 1);
        let prev = spec_apply_prefix(rv, cmd, cfg, n - 1);
        let a = spec_apply_prefix(rv, cmd, cfg, n);
        let w = rv.wheels[n - 1];
        let k0 = w.joint as int;
        // No earlier wheel shares this wheel's joint, so `prev` still holds
        // the joint's starting value there.
        assert(forall|i: int| 0 <= i < n - 1 ==> (#[trigger] rv.wheels[i]).joint != w.joint);
        assert(!wheel_owns_joint(rv, n - 1, k0));
        assert(prev.joints[k0] == rv.joints[k0]);
        assert(a == spec_step_wheel(prev, cmd, cfg, w));
        assert forall|k: int|
            0 <= k < rv.joints.len() && !wheel_owns_joint(rv, n, k) implies a.joints[k]
            == rv.joints[k] by {
            assert(rv.wheels[n - 1].joint != k);
            assert(!wheel_owns_joint(rv, n - 1, k));
        }
        assert forall|i: int| 0 <= i < n implies a.joints[rv.wheels[i].joint as int]
            == spec_visited_joint(rv, cmd, cfg, i) by {
            if i < n - 1 {
                assert(rv.wheels[i].joint != w.joint);
                assert(a.joints[rv.wheels[i].joint as int] == prev.joints[rv.wheels[i].joint
                    as int]);
            }
        }
    }
}

/// One full controller pass, applied a second time to its own result, writes
/// the same motor targets again and changes nothing: the controller
/// accumulates no state across steps.
pub proof fn lemma_apply_drive_idempotent(rv: RigView, cmd: DriveCommand, cfg: ControlConfig)
    requires
        rv.wf(),
    ensures
        spec_apply_drive(spec_apply_drive(rv, cmd, cfg), cmd, cfg) == spec_apply_drive(rv, cmd, cfg),
{
    lemma_apply_prefix_frame(rv, cmd, cfg, rv.wheels.len() as int);
    lemma_reapply_prefix(rv, cmd, cfg, rv.wheels.len() as int);
}

/// Reapplying any prefix of the controller pass to the full pass's result is
/// a no-op.
#[verifier::rlimit(50)]
proof fn lemma_reapply_prefix(rv: RigView, cmd: DriveCommand, cfg: ControlConfig, n: int)
    requires
        rv.wf(),
        0 <= n <= rv.wheels.len(),
    ensures
        spec_apply_prefix(spec_apply_drive(rv, cmd, cfg), cmd, cfg, n) == spec_apply_drive(rv, cmd, cfg),
    decreases n,
{
    let a = spec_apply_drive(rv, cmd, cfg);
    lemma_apply_prefix_frame(rv, cmd, cfg, rv.wheels.len() as int);
    if n > 0 {
        lemma_reapply_prefix(rv, cmd, cfg, n - 1);
        let w = a.wheels[n - 1];
        assert(w == rv.wheels[n - 1]);
        let k = w.joint as int;
        assert(a.joints[k] == spec_visited_joint(rv, cmd, cfg, n - 1));
        if rv.joints[k].kind is Revolute {
            assert(a.joints[k] == spec_drive_joint(rv.joints[k], cmd, cfg, w.side));
            assert(a.joints[k].kind is Revolute);
            assert(spec_drive_joint(a.joints[k], cmd, cfg, w.side) == a.joints[k]);
            assert(a.joints.update(k, a.joints[k]) =~= a.joints);
            assert(spec_step_wheel(a, cmd, cfg, w) =~= a);
        } else {
            assert(a.joints[k] == rv.joints[k]);
            assert(spec_step_wheel(a, cmd, cfg, w) == a);
        }
    }
}

/// When the two sides are commanded the same intent, their target velocities
/// are equal in magnitude and sign (the rover drives straight).
pub proof fn lemma_equal_intents_equal_velocities(cmd: DriveCommand, cfg: ControlConfig)
    requires
        cmd.left == cmd.right,
    ensures
        spec_motor_velocity(cmd, Side::Left, cfg) == spec_motor_velocity(cmd, Side::Right, cfg),
{
}

/// When the two sides are commanded opposite intents, their target
/// velocities are opposite, so the wheels counter-rotate and the rover turns
/// in place.
pub proof fn lemma_opposite_intents_opposite_velocities(cmd: DriveCommand, cfg: ControlConfig)
    requires
        cmd.left as int == -(cmd.right as int),
    ensures
        spec_motor_velocity(cmd, Side::Left, cfg) == -spec_motor_velocity(cmd, Side::Right, cfg),
{
    assert(cmd.left as int * -(cfg.max_speed as int) == -(cmd.right as int * -(cfg.max_speed
        as int))) by (nonlinear_arith)
        requires
            cmd.left as int == -(cmd.right as int),
    ;
}

/// One controller pass over the rig: for every wheel tag, looks up the
/// intent for its side and writes the joint's motor target; a wheel whose
/// joint is not revolute is skipped, and nothing else in the rig is touched.
#[verifier::rlimit(50)]
pub fn apply_drive(rig: &mut Rig, cmd: &DriveCommand, cfg: &ControlConfig)
    requires
        old(rig)@.wf(),
        cmd.wf(),
        cfg.wf(),
    ensures
        final(rig)@ == spec_apply_drive(old(rig)@, *cmd, *cfg),
        final(rig)@.wf(),
        final(rig)@.bodies == old(rig)@.bodies,
        final(rig)@.wheels == old(rig)@.wheels,
        final(rig)@.chassis == old(rig)@.chassis,
        final(rig)@.ground == old(rig)@.ground,
        final(rig)@.gravity == old(rig)@.gravity,
        final(rig)@.joints.len() == old(rig)@.joints.len(),
        forall|i: int|
            0 <= i < old(rig)@.wheels.len() ==> final(rig)@.joints[(#[trigger] old(
                rig,
            )@.wheels[i]).joint as int] == spec_visited_joint(old(rig)@, *cmd, *cfg, i),
        forall|k: int|
            0 <= k < old(rig)@.joints.len() && !wheel_owns_joint(
                old(rig)@,
                old(rig)@.wheels.len() as int,
                k,
            ) ==> final(rig)@.joints[k] == old(rig)@.joints[k],
{
    let ghost orig = rig@;
    let n = rig.wheels.len();
    let mut i: usize = 0;
    while i < n
        invariant
            orig.wf(),
            cmd.wf(),
            cfg.wf(),
            n == orig.wheels.len(),
            i <= n,
            rig@ == spec_apply_prefix(orig, *cmd, *cfg, i as int),
            rig.wheels@ == orig.wheels,
            rig.bodies@ == orig.bodies,
            rig.joints@.len() == orig.joints.len(),
            rig.chassis as int == orig.chassis,
            rig.ground as int == orig.ground,
            rig.gravity == orig.gravity,
        decreases n - i,
    {
        let w = rig.wheels[i];
        let jidx = w.joint;
        assert(jidx < rig.joints@.len());
        let j = rig.joints[jidx];
        match j.kind {
            JointKind::Revolute => {
                let t = motor_target(cmd, w.side, cfg);
                let mut nj = j;
                nj.motor_velocity = t.velocity;
                nj.motor_factor = t.factor;
                proof {
                    assert(nj == spec_drive_joint(j, *cmd, *cfg, w.side));
                }
                rig.joints[jidx] = nj;
                proof {
                    assert(rig@ =~= spec_apply_prefix(orig, *cmd, *cfg, i + 1));
                }
            },
            JointKind::Locked => {
                proof {
                    assert(rig@ =~= spec_apply_prefix(orig, *cmd, *cfg, i + 1));
                }
            },
        }
        i += 1;
    }
    proof {
        lemma_apply_prefix_frame(orig, *cmd, *cfg, n as int);
        // Every joint still points at valid bodies: a joint is either
        // untouched or rewritten by a motor write, which keeps its body
        // handles.
        assert forall|k: int|
            0 <= k < rig@.joints.len() implies (#[trigger] rig@.joints[k]).body_a
            < rig@.bodies.len() && rig@.joints[k].body_b < rig@.bodies.len() by {
            if wheel_owns_joint(orig, n as int, k) {
                let i = choose|i: int| 0 <= i < n && (#[trigger] orig.wheels[i]).joint == k;
                assert(rig@.joints[k] == spec_visited_joint(orig, *cmd, *cfg, i));
            } else {
                assert(rig@.joints[k] == orig.joints[k]);
            }
        }
    }
}

/// One full control step: resolves the sampled directional input into a
/// drive command and writes every wheel's motor target from it. Recomputed
/// from current input alone, with no state carried between steps.
pub fn control_step(rig: &mut Rig, d: &DirectionalInput, cfg: &ControlConfig)
    requires
        old(rig)@.wf(),
        cfg.wf(),
    ensures
        final(rig)@ == spec_apply_drive(old(rig)@, spec_resolve(*d), *cfg),
        final(rig)@.wf(),
{
    let cmd = resolve(d);
    apply_drive(rig, &cmd, cfg);
}

} // verus!
