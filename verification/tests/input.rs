use rover_drive::input::{resolve, DirectionalInput, DriveCommand};

fn input(forward: bool, backward: bool, left: bool, right: bool) -> DirectionalInput {
    DirectionalInput { forward, backward, left, right }
}

fn intent(b: bool) -> i64 {
    if b {
        1
    } else {
        0
    }
}

#[test]
fn drive_axis_cancellation() {
    // With forward and backward pressed both or neither, the drive axis
    // contributes nothing: only the turning terms remain, whatever the turn
    // keys do.
    for &(f, b) in &[(false, false), (true, true)] {
        for &l in &[false, true] {
            for &r in &[false, true] {
                let c = resolve(&input(f, b, l, r));
                assert_eq!(c.left, intent(r) - intent(l));
                assert_eq!(c.right, intent(l) - intent(r));
            }
        }
    }
}

#[test]
fn turn_axis_cancellation() {
    // With turn-left and turn-right pressed both or neither, there is no net
    // turning contribution: both sides get the same straight-drive intent.
    for &(l, r) in &[(false, false), (true, true)] {
        for &f in &[false, true] {
            for &b in &[false, true] {
                let c = resolve(&input(f, b, l, r));
                assert_eq!(c.left, c.right);
                assert_eq!(c.left, intent(f) - intent(b));
            }
        }
    }
}

#[test]
fn pure_forward_intents() {
    let c = resolve(&input(true, false, false, false));
    assert_eq!(c, DriveCommand { left: 1, right: 1 });
}

#[test]
fn pure_backward_intents() {
    let c = resolve(&input(false, true, false, false));
    assert_eq!(c, DriveCommand { left: -1, right: -1 });
}

#[test]
fn pure_left_turn_intents() {
    // Opposite signs on the two sides: the rover rotates in place.
    let c = resolve(&input(false, false, true, false));
    assert_eq!(c, DriveCommand { left: -1, right: 1 });
}

#[test]
fn pure_right_turn_intents() {
    let c = resolve(&input(false, false, false, true));
    assert_eq!(c, DriveCommand { left: 1, right: -1 });
}

#[test]
fn resolver_full_table() {
    // Every one of the sixteen input combinations against the reduction
    // rule, and the intents stay within [-2, 2].
    for mask in 0u32..16 {
        let f = mask & 1 != 0;
        let b = mask & 2 != 0;
        let l = mask & 4 != 0;
        let r = mask & 8 != 0;
        let c = resolve(&input(f, b, l, r));
        assert_eq!(c.left, intent(f) - intent(b) - intent(l) + intent(r));
        assert_eq!(c.right, intent(f) - intent(b) + intent(l) - intent(r));
        assert!(-2 <= c.left && c.left <= 2);
        assert!(-2 <= c.right && c.right <= 2);
    }
}

#[test]
fn resolver_extremes() {
    // Forward plus turn-right pushes the left side to 2; the opposite
    // combination pushes it to -2.
    let c = resolve(&input(true, false, false, true));
    assert_eq!(c, DriveCommand { left: 2, right: 0 });
    let c = resolve(&input(false, true, true, false));
    assert_eq!(c, DriveCommand { left: -2, right: 0 });
}
