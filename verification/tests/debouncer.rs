//! The direction debouncer: opposing assertions stay exclusive, and a
//! release restores a still-held opposite key.

use melee_vpad::dpad::DPadState;

fn wf(d: &DPadState) -> bool {
    !(d.up && d.down) && !(d.left && d.right)
}

#[test]
fn press_asserts_and_records_held() {
    let mut d = DPadState::default();
    d.on_left(true);
    assert!(d.left && d.left_held);
    assert!(!d.right && !d.right_held);
    assert!(wf(&d));
}

#[test]
fn release_clears() {
    let mut d = DPadState::default();
    d.on_left(true);
    d.on_left(false);
    assert!(!d.left && !d.left_held);
    assert!(wf(&d));
}

#[test]
fn opposing_press_suppresses_but_keeps_held() {
    let mut d = DPadState::default();
    d.on_left(true);
    d.on_right(true);
    assert!(d.right && !d.left);
    assert!(d.left_held && d.right_held);
    assert!(wf(&d));
}

#[test]
fn release_restores_held_opposite() {
    let mut d = DPadState::default();
    d.on_left(true);
    d.on_right(true);
    d.on_right(false);
    assert!(d.left && !d.right);
    assert!(d.left_held && !d.right_held);
    assert!(wf(&d));
}

#[test]
fn release_does_not_restore_unheld_opposite() {
    let mut d = DPadState::default();
    d.on_left(true);
    d.on_right(true);
    d.on_left(false);
    d.on_right(false);
    assert!(!d.left && !d.right);
    assert!(wf(&d));
}

#[test]
fn axes_are_independent() {
    let mut d = DPadState::default();
    d.on_up(true);
    d.on_left(true);
    assert!(d.up && d.left);
    d.on_down(true);
    assert!(!d.up && d.down && d.left);
    assert!(wf(&d));
}

#[test]
fn exclusivity_holds_along_a_long_sequence() {
    let mut d = DPadState::default();
    let edges = [
        (0u8, true),
        (1, true),
        (2, true),
        (3, true),
        (0, false),
        (2, false),
        (1, true),
        (3, true),
        (1, false),
        (0, true),
        (3, false),
        (2, true),
    ];
    for (dir, v) in edges {
        match dir {
            0 => d.on_up(v),
            1 => d.on_down(v),
            2 => d.on_left(v),
            _ => d.on_right(v),
        }
        assert!(wf(&d));
    }
}
