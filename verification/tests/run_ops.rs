//! The event transition's emitted output: which device updates each kind of
//! event owes, and in what order.

use melee_vpad::config::Settings;
use melee_vpad::frac::Frac;
use melee_vpad::state::{
    AxisId, ButtonId, JoyState, OutputOp, StateUpdate, StateUpdateKind,
};

fn run_one(s: &mut JoyState, cfg: &Settings, kind: StateUpdateKind, value: bool) -> Vec<OutputOp> {
    StateUpdate { kind, value }.run(s, cfg)
}

#[test]
fn noop_emits_nothing() {
    let cfg = Settings::default();
    let mut s = JoyState::default();
    let before = s;
    let ops = run_one(&mut s, &cfg, StateUpdateKind::Noop, true);
    assert!(ops.is_empty());
    assert_eq!(s, before);
}

#[test]
fn stateless_buttons_pass_through() {
    let cfg = Settings::default();
    let mut s = JoyState::default();
    let before = s;
    let ops = run_one(&mut s, &cfg, StateUpdateKind::BtnA, true);
    assert_eq!(
        ops,
        vec![OutputOp::SetButton(ButtonId::A, true), OutputOp::Sync]
    );
    assert_eq!(s, before);
    let ops = run_one(&mut s, &cfg, StateUpdateKind::BtnStart, false);
    assert_eq!(
        ops,
        vec![OutputOp::SetButton(ButtonId::Start, false), OutputOp::Sync]
    );
}

#[test]
fn right_shoulder_is_digital_and_stored() {
    let cfg = Settings::default();
    let mut s = JoyState::default();
    let ops = run_one(&mut s, &cfg, StateUpdateKind::BtnR, true);
    assert!(s.btn.r);
    assert_eq!(
        ops,
        vec![OutputOp::SetButton(ButtonId::R, true), OutputOp::Sync]
    );
}

#[test]
fn dpad_events_debounce_and_emit_asserted_levels() {
    let cfg = Settings::default();
    let mut s = JoyState::default();
    let ops = run_one(&mut s, &cfg, StateUpdateKind::DPadLeft, true);
    assert!(s.dpad.left);
    assert_eq!(
        ops,
        vec![
            OutputOp::SetButton(ButtonId::DPadLeft, true),
            OutputOp::SetButton(ButtonId::DPadRight, false),
            OutputOp::Sync
        ]
    );
    // Pressing the opposite direction suppresses the first one on the
    // device as well, and releasing it restores the still-held key.
    let ops = run_one(&mut s, &cfg, StateUpdateKind::DPadRight, true);
    assert!(s.dpad.right && !s.dpad.left && s.dpad.left_held);
    assert_eq!(
        ops,
        vec![
            OutputOp::SetButton(ButtonId::DPadLeft, false),
            OutputOp::SetButton(ButtonId::DPadRight, true),
            OutputOp::Sync
        ]
    );
    let ops = run_one(&mut s, &cfg, StateUpdateKind::DPadRight, false);
    assert!(s.dpad.left && !s.dpad.right);
    assert_eq!(
        ops,
        vec![
            OutputOp::SetButton(ButtonId::DPadLeft, true),
            OutputOp::SetButton(ButtonId::DPadRight, false),
            OutputOp::Sync
        ]
    );
}

#[test]
fn c_stick_is_linear_and_unattenuated() {
    let cfg = Settings::default();
    let mut s = JoyState::default();
    run_one(&mut s, &cfg, StateUpdateKind::Mod2, true);
    let ops = run_one(&mut s, &cfg, StateUpdateKind::CStickUp, true);
    // The tilt modifier does not touch the C-stick.
    assert_eq!(s.c_stick.y.raw, -128);
    assert_eq!(
        ops,
        vec![
            OutputOp::SetAxis(AxisId::Cy, Frac { raw: -128 }),
            OutputOp::Sync
        ]
    );
    let ops = run_one(&mut s, &cfg, StateUpdateKind::CStickRight, true);
    assert_eq!(s.c_stick.x.raw, 127);
    assert_eq!(
        ops,
        vec![
            OutputOp::SetAxis(AxisId::Cx, Frac { raw: 127 }),
            OutputOp::Sync
        ]
    );
}

#[test]
fn plain_cardinal_emits_only_its_axis() {
    let cfg = Settings::default();
    let mut s = JoyState::default();
    let ops = run_one(&mut s, &cfg, StateUpdateKind::ControlStickLeft, true);
    assert_eq!(
        ops,
        vec![
            OutputOp::SetAxis(AxisId::X, Frac { raw: -128 }),
            OutputOp::Sync
        ]
    );
}

#[test]
fn plain_diagonal_emits_both_axes() {
    let cfg = Settings::default();
    let mut s = JoyState::default();
    let ops = run_one(&mut s, &cfg, StateUpdateKind::ControlStickDownRight, true);
    assert_eq!(
        ops,
        vec![
            OutputOp::SetAxis(AxisId::X, Frac { raw: 127 }),
            OutputOp::SetAxis(AxisId::Y, Frac { raw: 127 }),
            OutputOp::Sync
        ]
    );
}

#[test]
fn modifier_events_emit_sync_alone_when_nothing_resolves() {
    let cfg = Settings::default();
    let mut s = JoyState::default();
    let ops = run_one(&mut s, &cfg, StateUpdateKind::Mod1, true);
    assert!(s.m.mod1);
    assert_eq!(ops, vec![OutputOp::Sync]);
    // A tilt edge under the precision modifier flips the flag but leaves
    // the coordinate to the precision path.
    let ops = run_one(&mut s, &cfg, StateUpdateKind::Mod2, true);
    assert!(s.m.mod2);
    assert_eq!(ops, vec![OutputOp::Sync]);
}

#[test]
fn tilt_edge_rederives_both_axes() {
    let cfg = Settings::default();
    let mut s = JoyState::default();
    run_one(&mut s, &cfg, StateUpdateKind::ControlStickRight, true);
    let ops = run_one(&mut s, &cfg, StateUpdateKind::Mod2, true);
    assert_eq!(
        ops,
        vec![
            OutputOp::SetAxis(AxisId::X, Frac { raw: 47 }),
            OutputOp::SetAxis(AxisId::Y, Frac { raw: 0 }),
            OutputOp::Sync
        ]
    );
    let ops = run_one(&mut s, &cfg, StateUpdateKind::Mod2, false);
    assert_eq!(
        ops,
        vec![
            OutputOp::SetAxis(AxisId::X, Frac { raw: 127 }),
            OutputOp::SetAxis(AxisId::Y, Frac { raw: 0 }),
            OutputOp::Sync
        ]
    );
}

#[test]
fn precision_events_emit_both_axes() {
    let cfg = Settings::default();
    let mut s = JoyState::default();
    run_one(&mut s, &cfg, StateUpdateKind::Mod1, true);
    let ops = run_one(&mut s, &cfg, StateUpdateKind::ControlStickUp, true);
    assert_eq!(
        ops,
        vec![
            OutputOp::SetAxis(AxisId::X, Frac { raw: 0 }),
            OutputOp::SetAxis(AxisId::Y, Frac { raw: -128 }),
            OutputOp::Sync
        ]
    );
}
