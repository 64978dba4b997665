//! The dispatch table and the directional bind lookups.

use melee_vpad::config::{
    Binds, DPad8Binds, DPadBinds, DirectionalBinds, Settings, KEY_J, KEY_LEFTSHIFT, KEY_Q,
    KEY_SLASH, KEY_W,
};
use melee_vpad::dir8::Dir8;
use melee_vpad::state::{BindsMap, StateUpdateKind};

#[test]
fn default_binds_dispatch_to_their_roles() {
    let binds = Binds::default();
    assert!(binds.check_wf());
    let map = BindsMap::create(&binds);
    let cases = [
        (binds.a, StateUpdateKind::BtnA),
        (binds.b, StateUpdateKind::BtnB),
        (binds.x, StateUpdateKind::BtnX),
        (binds.y, StateUpdateKind::BtnY),
        (binds.z, StateUpdateKind::BtnZ),
        (binds.start, StateUpdateKind::BtnStart),
        (binds.l, StateUpdateKind::BtnL),
        (binds.r, StateUpdateKind::BtnR),
        (binds.mod1, StateUpdateKind::Mod1),
        (binds.mod2, StateUpdateKind::Mod2),
        (binds.control_stick.up, StateUpdateKind::ControlStickUp),
        (binds.control_stick.down, StateUpdateKind::ControlStickDown),
        (binds.control_stick.left, StateUpdateKind::ControlStickLeft),
        (binds.control_stick.right, StateUpdateKind::ControlStickRight),
        (binds.control_stick.upleft, StateUpdateKind::ControlStickUpLeft),
        (binds.control_stick.upright, StateUpdateKind::ControlStickUpRight),
        (binds.control_stick.downleft, StateUpdateKind::ControlStickDownLeft),
        (
            binds.control_stick.downright,
            StateUpdateKind::ControlStickDownRight,
        ),
        (binds.c_stick.up, StateUpdateKind::CStickUp),
        (binds.c_stick.down, StateUpdateKind::CStickDown),
        (binds.c_stick.left, StateUpdateKind::CStickLeft),
        (binds.c_stick.right, StateUpdateKind::CStickRight),
        (binds.dpad.up, StateUpdateKind::DPadUp),
        (binds.dpad.down, StateUpdateKind::DPadDown),
        (binds.dpad.left, StateUpdateKind::DPadLeft),
        (binds.dpad.right, StateUpdateKind::DPadRight),
    ];
    for (key, kind) in cases {
        let upd = map.lookup_key(key, true).unwrap();
        assert_eq!(upd.kind, kind, "key {key}");
        assert!(upd.value);
    }
}

#[test]
fn unbound_and_out_of_range_keys_are_noops() {
    let map = BindsMap::create(&Binds::default());
    let upd = map.lookup_key(1, false).unwrap();
    assert_eq!(upd.kind, StateUpdateKind::Noop);
    assert!(!upd.value);
    let upd = map.lookup_key(60000, true).unwrap();
    assert_eq!(upd.kind, StateUpdateKind::Noop);
}

#[test]
fn colliding_bind_resolves_to_later_assignment() {
    // The control-stick "up" key also bound as the second modifier: the
    // modifier assignment comes later in the construction order and wins.
    let mut binds = Binds::default();
    binds.mod2 = binds.control_stick.up;
    let map = BindsMap::create(&binds);
    let upd = map.lookup_key(binds.control_stick.up, true).unwrap();
    assert_eq!(upd.kind, StateUpdateKind::Mod2);
}

#[test]
fn default_kind_is_noop() {
    assert_eq!(StateUpdateKind::default(), StateUpdateKind::Noop);
}

#[test]
fn default_settings_constants() {
    let cfg = Settings::default();
    assert_eq!(cfg.mod1_incr.raw, 50);
    assert_eq!(cfg.mod1_around_y.raw, 40);
    assert_eq!(cfg.mod2_x_mul.raw, 48);
    assert_eq!(cfg.mod2_y_mul.raw, 48);
    assert_eq!(cfg.mod1_trigger_mul.raw, 64);
    assert_eq!(cfg.binds.a, KEY_J);
    assert_eq!(cfg.binds.mod1, KEY_LEFTSHIFT);
    assert_eq!(cfg.binds.mod2, KEY_SLASH);
    assert_eq!(cfg.binds.control_stick.up, KEY_W);
    assert_eq!(cfg.binds.control_stick.upleft, KEY_Q);
}

#[test]
fn eight_way_binds_classify_directions() {
    let b = DPad8Binds {
        upleft: 1,
        up: 2,
        upright: 3,
        downleft: 4,
        down: 5,
        downright: 6,
        left: 7,
        right: 8,
    };
    assert_eq!(b.dir(1), Some(Dir8::NW));
    assert_eq!(b.dir(2), Some(Dir8::N));
    assert_eq!(b.dir(3), Some(Dir8::NE));
    assert_eq!(b.dir(4), Some(Dir8::SW));
    assert_eq!(b.dir(5), Some(Dir8::S));
    assert_eq!(b.dir(6), Some(Dir8::SE));
    assert_eq!(b.dir(7), Some(Dir8::W));
    assert_eq!(b.dir(8), Some(Dir8::E));
    assert_eq!(b.dir(9), None);
}

#[test]
fn four_way_binds_classify_directions() {
    let b = DPadBinds {
        up: 11,
        down: 12,
        left: 13,
        right: 14,
    };
    assert_eq!(b.dir(11), Some(Dir8::N));
    assert_eq!(b.dir(12), Some(Dir8::S));
    assert_eq!(b.dir(13), Some(Dir8::W));
    assert_eq!(b.dir(14), Some(Dir8::E));
    assert_eq!(b.dir(15), None);
}
