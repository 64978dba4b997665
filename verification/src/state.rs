//! The aggregate controller state, the dispatch table from key codes to
//! logical roles, and the transition that applies one key edge to the state
//! and yields the updates owed to the output device.

use crate::config::{Binds, Settings};
use crate::dpad::{base_x, base_y, step_raw, tilt_raw, DPadState, Dir4, JoyStickState};
use crate::frac::Frac;
use vstd::prelude::*;

verus! {

/// Size of the dispatch table: one entry per key code the table covers,
/// enough for every keyboard key of the Linux input code space.
pub const TABLE_SIZE: u16 = 594;

/// Raw vertical multiplier of the shield-drop special case: 55/128, close
/// to 0.43.
pub const SHIELD_DROP_Y_MUL: i8 = 55;

/// Digital buttons whose level feeds back into the resolver: the two
/// shoulder buttons. The remaining buttons are stateless and pass straight
/// through to the output.
#[derive(Clone, Copy, Debug, PartialEq, Eq, Structural)]
pub struct JoyButtons {
    pub l: bool,
    pub r: bool,
}

/// The two modifier flags: precision steering and tilt scaling.
#[derive(Clone, Copy, Debug, PartialEq, Eq, Structural)]
pub struct Modifiers {
    pub mod1: bool,
    pub mod2: bool,
}

/// The logical role a key edge is dispatched to.
#[derive(Clone, Copy, Debug, PartialEq, Eq, Structural)]
pub enum StateUpdateKind {
    Noop,
    ControlStickLeft,
    ControlStickDownLeft,
    ControlStickUpLeft,
    ControlStickRight,
    ControlStickDownRight,
    ControlStickUpRight,
    ControlStickUp,
    ControlStickDown,
    CStickLeft,
    CStickRight,
    CStickUp,
    CStickDown,
    DPadLeft,
    DPadRight,
    DPadUp,
    DPadDown,
    BtnA,
    BtnB,
    BtnZ,
    BtnX,
    BtnY,
    BtnStart,
    BtnL,
    BtnR,
    Mod1,
    Mod2,
}

impl Default for StateUpdateKind {
    /// The role of an unbound key.
    fn default() -> (r: StateUpdateKind)
        ensures
            r == StateUpdateKind::Noop,
    {
        StateUpdateKind::Noop
    }
}

/// One dispatched event: a logical role and the edge level of its key.
#[derive(Clone, Copy, Debug, PartialEq, Eq, Structural)]
pub struct StateUpdate {
    pub kind: StateUpdateKind,
    pub value: bool,
}

/// The whole controller state owned by the consumer loop.
#[derive(Clone, Copy, Debug, PartialEq, Eq, Structural)]
pub struct JoyState {
    pub control_stick: JoyStickState,
    pub c_stick: JoyStickState,
    pub dpad: DPadState,
    pub l_trigger: Frac,
    pub btn: JoyButtons,
    pub m: Modifiers,
}

impl Default for JoyState {
    /// The rest state: nothing held, nothing asserted, everything zero.
    fn default() -> (r: JoyState)
        ensures
            r == JoyState::spec_rest(),
    {
        JoyState {
            control_stick: JoyStickState::default(),
            c_stick: JoyStickState::default(),
            dpad: DPadState::default(),
            l_trigger: Frac { raw: 0 },
            btn: JoyButtons { l: false, r: false },
            m: Modifiers { mod1: false, mod2: false },
        }
    }
}

impl JoyState {
    /// The rest state: nothing held, nothing asserted, everything zero.
    pub open spec fn spec_rest() -> JoyState {
        JoyState {
            control_stick: JoyStickState {
                dpad: DPadState::spec_rest(),
                x: Frac { raw: 0 },
                y: Frac { raw: 0 },
            },
            c_stick: JoyStickState {
                dpad: DPadState::spec_rest(),
                x: Frac { raw: 0 },
                y: Frac { raw: 0 },
            },
            dpad: DPadState::spec_rest(),
            l_trigger: Frac { raw: 0 },
            btn: JoyButtons { l: false, r: false },
            m: Modifiers { mod1: false, mod2: false },
        }
    }
}

/// An analog axis of the output device.
#[derive(Clone, Copy, Debug, PartialEq, Eq, Structural)]
pub enum AxisId {
    /// Control stick, horizontal.
    X,
    /// Control stick, vertical.
    Y,
    /// C-stick, horizontal.
    Cx,
    /// C-stick, vertical.
    Cy,
    /// Analog depth of the left shoulder.
    Trigger,
}

/// A digital button of the output device.
#[derive(Clone, Copy, Debug, PartialEq, Eq, Structural)]
pub enum ButtonId {
    A,
    B,
    X,
    Y,
    Z,
    Start,
    R,
    DPadUp,
    DPadDown,
    DPadLeft,
    DPadRight,
}

/// One update owed to the output device.
#[derive(Clone, Copy, Debug, PartialEq, Eq, Structural)]
pub enum OutputOp {
    SetAxis(AxisId, Frac),
    SetButton(ButtonId, bool),
    /// Marks the end of one batch of updates.
    Sync,
}

/// The role a key code resolves to under a bindings table. Where one key is
/// bound to several roles the later assignment of the construction order
/// wins, so the roles are tried here in the reverse of that order.
pub open spec fn spec_role(cfg: Binds, key: u16) -> StateUpdateKind {
    if key == cfg.mod2 {
        StateUpdateKind::Mod2
    } else if key == cfg.mod1 {
        StateUpdateKind::Mod1
    } else if key == cfg.r {
        StateUpdateKind::BtnR
    } else if key == cfg.l {
        StateUpdateKind::BtnL
    } else if key == cfg.start {
        StateUpdateKind::BtnStart
    } else if key == cfg.z {
        StateUpdateKind::BtnZ
    } else if key == cfg.y {
        StateUpdateKind::BtnY
    } else if key == cfg.x {
        StateUpdateKind::BtnX
    } else if key == cfg.b {
        StateUpdateKind::BtnB
    } else if key == cfg.a {
        StateUpdateKind::BtnA
    } else if key == cfg.dpad.right {
        StateUpdateKind::DPadRight
    } else if key == cfg.dpad.left {
        StateUpdateKind::DPadLeft
    } else if key == cfg.dpad.up {
        StateUpdateKind::DPadUp
    } else if key == cfg.dpad.down {
        StateUpdateKind::DPadDown
    } else if key == cfg.c_stick.right {
        StateUpdateKind::CStickRight
    } else if key == cfg.c_stick.left {
        StateUpdateKind::CStickLeft
    } else if key == cfg.c_stick.up {
        StateUpdateKind::CStickUp
    } else if key == cfg.c_stick.down {
        StateUpdateKind::CStickDown
    } else if key == cfg.control_stick.upright {
        StateUpdateKind::ControlStickUpRight
    } else if key == cfg.control_stick.upleft {
        StateUpdateKind::ControlStickUpLeft
    } else if key == cfg.control_stick.downright {
        StateUpdateKind::ControlStickDownRight
    } else if key == cfg.control_stick.downleft {
        StateUpdateKind::ControlStickDownLeft
    } else if key == cfg.control_stick.right {
        StateUpdateKind::ControlStickRight
    } else if key == cfg.control_stick.left {
        StateUpdateKind::ControlStickLeft
    } else if key == cfg.control_stick.up {
        StateUpdateKind::ControlStickUp
    } else if key == cfg.control_stick.down {
        StateUpdateKind::ControlStickDown
    } else {
        StateUpdateKind::Noop
    }
}

/// The role a key code resolves to under a bindings table.
pub fn role_of(cfg: &Binds, key: u16) -> (r: StateUpdateKind)
    ensures
        r == spec_role(*cfg, key),
{
    if key == cfg.mod2 {
        StateUpdateKind::Mod2
    } else if key == cfg.mod1 {
        StateUpdateKind::Mod1
    } else if key == cfg.r {
        StateUpdateKind::BtnR
    } else if key == cfg.l {
        StateUpdateKind::BtnL
    } else if key == cfg.start {
        StateUpdateKind::BtnStart
    } else if key == cfg.z {
        StateUpdateKind::BtnZ
    } else if key == cfg.y {
        StateUpdateKind::BtnY
    } else if key == cfg.x {
        StateUpdateKind::BtnX
    } else if key == cfg.b {
        StateUpdateKind::BtnB
    } else if key == cfg.a {
        StateUpdateKind::BtnA
    } else if key == cfg.dpad.right {
        StateUpdateKind::DPadRight
    } else if key == cfg.dpad.left {
        StateUpdateKind::DPadLeft
    } else if key == cfg.dpad.up {
        StateUpdateKind::DPadUp
    } else if key == cfg.dpad.down {
        StateUpdateKind::DPadDown
    } else if key == cfg.c_stick.right {
        StateUpdateKind::CStickRight
    } else if key == cfg.c_stick.left {
        StateUpdateKind::CStickLeft
    } else if key == cfg.c_stick.up {
        StateUpdateKind::CStickUp
    } else if key == cfg.c_stick.down {
        StateUpdateKind::CStickDown
    } else if key == cfg.control_stick.upright {
        StateUpdateKind::ControlStickUpRight
    } else if key == cfg.control_stick.upleft {
        StateUpdateKind::ControlStickUpLeft
    } else if key == cfg.control_stick.downright {
        StateUpdateKind::ControlStickDownRight
    } else if key == cfg.control_stick.downleft {
        StateUpdateKind::ControlStickDownLeft
    } else if key == cfg.control_stick.right {
        StateUpdateKind::ControlStickRight
    } else if key == cfg.control_stick.left {
        StateUpdateKind::ControlStickLeft
    } else if key == cfg.control_stick.up {
        StateUpdateKind::ControlStickUp
    } else if key == cfg.control_stick.down {
        StateUpdateKind::ControlStickDown
    } else {
        StateUpdateKind::Noop
    }
}

/// O(1) dispatch from a physical key code to its logical role.
#[derive(Clone)]
pub struct BindsMap {
    binds: Vec<StateUpdateKind>,
}

impl BindsMap {
    /// The table covers exactly the supported key code space.
    pub closed spec fn wf(self) -> bool {
        self.binds@.len() == TABLE_SIZE
    }

    /// The role stored for a key code; unmapped and out-of-range codes are
    /// no-ops.
    pub closed spec fn spec_lookup(self, key: u16) -> StateUpdateKind {
        if key < TABLE_SIZE {
            self.binds@[key as int]
        } else {
            StateUpdateKind::Noop
        }
    }

    /// Builds the dispatch table from a bindings configuration.
    pub fn create(cfg: &Binds) -> (r: BindsMap)
        requires
            cfg.wf(),
        ensures
            r.wf(),
            forall|key: u16| r.spec_lookup(key) == spec_role(*cfg, key),
    {
        let mut binds: Vec<StateUpdateKind> = Vec::new();
        let n: usize = TABLE_SIZE as usize;
        for k in 0..n
            invariant
                binds@.len() == k,
                forall|i: int| 0 <= i < k ==> binds@[i] == spec_role(*cfg, i as u16),
        {
            binds.push(role_of(cfg, k as u16));
        }
        BindsMap { binds }
    }

    /// Dispatches one key edge to the event it stands for.
    pub fn lookup_key(&self, key: u16, value: bool) -> (r: Option<StateUpdate>)
        requires
            self.wf(),
        ensures
            r == Option::Some(StateUpdate { kind: self.spec_lookup(key), value }),
    {
        let kind = if key < TABLE_SIZE {
            self.binds[key as usize]
        } else {
            StateUpdateKind::Noop
        };
        Option::Some(StateUpdate { kind, value })
    }
}

} // verus!

verus! {

/// Analog trigger depth for a shoulder level under the given modifiers:
/// full scale when pressed plainly, the configured reduced depth when
/// pressed under the precision modifier, zero when released.
pub open spec fn spec_trigger(value: bool, m: Modifiers, cfg: Settings) -> Frac {
    if value {
        if m.mod1 {
            cfg.mod1_trigger_mul
        } else {
            Frac { raw: 127 }
        }
    } else {
        Frac { raw: 0 }
    }
}

/// The shield-drop multiplier handed to the tilt mapping: present exactly
/// while a shoulder button is held.
pub open spec fn spec_shield(btn: JoyButtons) -> Option<Frac> {
    if btn.l || btn.r {
        Option::Some(Frac { raw: SHIELD_DROP_Y_MUL })
    } else {
        Option::None
    }
}

/// The control stick after one resolution under the given modifiers:
/// precision stepping under the first modifier, the tilt mapping under the
/// second alone, and otherwise the plain linear mapping of the axes named
/// by `do_x` and `do_y`. Precision and tilt never combine: the precision
/// modifier decides alone which of the two runs.
pub open spec fn spec_control_resolved(
    stick: JoyStickState,
    m: Modifiers,
    btn: JoyButtons,
    cfg: Settings,
    do_x: bool,
    do_y: bool,
) -> JoyStickState {
    if m.mod1 {
        JoyStickState {
            x: crate::frac::as_frac(step_raw(stick, cfg.mod1_incr, cfg.mod1_around_y).0),
            y: crate::frac::as_frac(step_raw(stick, cfg.mod1_incr, cfg.mod1_around_y).1),
            ..stick
        }
    } else if m.mod2 {
        JoyStickState {
            x: crate::frac::as_frac(
                tilt_raw(stick.dpad, cfg.mod2_x_mul, cfg.mod2_y_mul, spec_shield(btn)).0,
            ),
            y: crate::frac::as_frac(
                tilt_raw(stick.dpad, cfg.mod2_x_mul, cfg.mod2_y_mul, spec_shield(btn)).1,
            ),
            ..stick
        }
    } else {
        JoyStickState {
            x: if do_x {
                crate::frac::as_frac(base_x(stick.dpad))
            } else {
                stick.x
            },
            y: if do_y {
                crate::frac::as_frac(base_y(stick.dpad))
            } else {
                stick.y
            },
            ..stick
        }
    }
}

/// The axis updates one control-stick resolution owes the output: both axes
/// after precision or tilt, and only the named axes after the plain mapping.
pub open spec fn spec_control_ops(
    st: JoyStickState,
    do_x: bool,
    do_y: bool,
    m: Modifiers,
) -> Seq<OutputOp> {
    if m.mod1 || m.mod2 {
        seq![OutputOp::SetAxis(AxisId::X, st.x), OutputOp::SetAxis(AxisId::Y, st.y)]
    } else {
        (if do_x {
            seq![OutputOp::SetAxis(AxisId::X, st.x)]
        } else {
            Seq::empty()
        }) + (if do_y {
            seq![OutputOp::SetAxis(AxisId::Y, st.y)]
        } else {
            Seq::empty()
        })
    }
}

/// State and output of a control-stick direction event: the transitioned
/// pad is resolved under the current modifiers and the changed axes are
/// emitted.
pub open spec fn spec_control_event(
    s: JoyState,
    cfg: Settings,
    dpad1: DPadState,
    do_x: bool,
    do_y: bool,
) -> (JoyState, Seq<OutputOp>) {
    let stick1 = JoyStickState { dpad: dpad1, ..s.control_stick };
    let st = spec_control_resolved(stick1, s.m, s.btn, cfg, do_x, do_y);
    (
        JoyState { control_stick: st, ..s },
        spec_control_ops(st, do_x, do_y, s.m) + seq![OutputOp::Sync],
    )
}

/// The whole transition of one dispatched event: the state after it and the
/// sequence of updates owed to the output device. Direction events resolve
/// the stick they touch; a modifier edge re-derives the control stick
/// through the direct or tilt path, except that a tilt edge under the held
/// precision modifier only records the flag — tilt transformations apply
/// only while the precision modifier is up.
pub open spec fn spec_run(s: JoyState, upd: StateUpdate, cfg: Settings) -> (
    JoyState,
    Seq<OutputOp>,
) {
    let v = upd.value;
    match upd.kind {
        StateUpdateKind::Noop => (s, Seq::empty()),
        StateUpdateKind::BtnA => (
            s,
            seq![OutputOp::SetButton(ButtonId::A, v), OutputOp::Sync],
        ),
        StateUpdateKind::BtnB => (
            s,
            seq![OutputOp::SetButton(ButtonId::B, v), OutputOp::Sync],
        ),
        StateUpdateKind::BtnX => (
            s,
            seq![OutputOp::SetButton(ButtonId::X, v), OutputOp::Sync],
        ),
        StateUpdateKind::BtnY => (
            s,
            seq![OutputOp::SetButton(ButtonId::Y, v), OutputOp::Sync],
        ),
        StateUpdateKind::BtnZ => (
            s,
            seq![OutputOp::SetButton(ButtonId::Z, v), OutputOp::Sync],
        ),
        StateUpdateKind::BtnStart => (
            s,
            seq![OutputOp::SetButton(ButtonId::Start, v), OutputOp::Sync],
        ),
        StateUpdateKind::BtnR => (
            JoyState { btn: JoyButtons { r: v, ..s.btn }, ..s },
            seq![OutputOp::SetButton(ButtonId::R, v), OutputOp::Sync],
        ),
        StateUpdateKind::BtnL => (
            JoyState {
                btn: JoyButtons { l: v, ..s.btn },
                l_trigger: spec_trigger(v, s.m, cfg),
                ..s
            },
            seq![
                OutputOp::SetAxis(AxisId::Trigger, spec_trigger(v, s.m, cfg)),
                OutputOp::Sync,
            ],
        ),
        StateUpdateKind::DPadUp => spec_dpad_vertical(s, Dir4::Up, v),
        StateUpdateKind::DPadDown => spec_dpad_vertical(s, Dir4::Down, v),
        StateUpdateKind::DPadLeft => spec_dpad_horizontal(s, Dir4::Left, v),
        StateUpdateKind::DPadRight => spec_dpad_horizontal(s, Dir4::Right, v),
        StateUpdateKind::CStickLeft => spec_cstick_x(s, Dir4::Left, v),
        StateUpdateKind::CStickRight => spec_cstick_x(s, Dir4::Right, v),
        StateUpdateKind::CStickUp => spec_cstick_y(s, Dir4::Up, v),
        StateUpdateKind::CStickDown => spec_cstick_y(s, Dir4::Down, v),
        StateUpdateKind::ControlStickLeft => spec_control_event(
            s,
            cfg,
            s.control_stick.dpad.spec_on(Dir4::Left, v),
            true,
            false,
        ),
        StateUpdateKind::ControlStickRight => spec_control_event(
            s,
            cfg,
            s.control_stick.dpad.spec_on(Dir4::Right, v),
            true,
            false,
        ),
        StateUpdateKind::ControlStickUp => spec_control_event(
            s,
            cfg,
            s.control_stick.dpad.spec_on(Dir4::Up, v),
            false,
            true,
        ),
        StateUpdateKind::ControlStickDown => spec_control_event(
            s,
            cfg,
            s.control_stick.dpad.spec_on(Dir4::Down, v),
            false,
            true,
        ),
        StateUpdateKind::ControlStickUpLeft => spec_control_event(
            s,
            cfg,
            s.control_stick.dpad.spec_on(Dir4::Up, v).spec_on(Dir4::Left, v),
            true,
            true,
        ),
        StateUpdateKind::ControlStickUpRight => spec_control_event(
            s,
            cfg,
            s.control_stick.dpad.spec_on(Dir4::Up, v).spec_on(Dir4::Right, v),
            true,
            true,
        ),
        StateUpdateKind::ControlStickDownLeft => spec_control_event(
            s,
            cfg,
            s.control_stick.dpad.spec_on(Dir4::Down, v).spec_on(Dir4::Left, v),
            true,
            true,
        ),
        StateUpdateKind::ControlStickDownRight => spec_control_event(
            s,
            cfg,
            s.control_stick.dpad.spec_on(Dir4::Down, v).spec_on(Dir4::Right, v),
            true,
            true,
        ),
        StateUpdateKind::Mod1 => {
            let m1 = Modifiers { mod1: v, ..s.m };
            if v {
                (JoyState { m: m1, ..s }, seq![OutputOp::Sync])
            } else {
                let st = spec_control_resolved(s.control_stick, m1, s.btn, cfg, true, true);
                (
                    JoyState { m: m1, control_stick: st, ..s },
                    spec_control_ops(st, true, true, m1) + seq![OutputOp::Sync],
                )
            }
        },
        StateUpdateKind::Mod2 => {
            let m1 = Modifiers { mod2: v, ..s.m };
            if s.m.mod1 {
                (JoyState { m: m1, ..s }, seq![OutputOp::Sync])
            } else {
                let st = spec_control_resolved(s.control_stick, m1, s.btn, cfg, true, true);
                (
                    JoyState { m: m1, control_stick: st, ..s },
                    spec_control_ops(st, true, true, m1) + seq![OutputOp::Sync],
                )
            }
        },
    }
}

/// State and output of a vertical D-pad event. The D-pad is purely
/// digital: after the debouncing transition both levels of the touched
/// axis are emitted as the asserted bits now stand, so a suppressed or
/// restored opposite direction reaches the device too.
pub open spec fn spec_dpad_vertical(s: JoyState, dir: Dir4, v: bool) -> (JoyState, Seq<OutputOp>) {
    let d = s.dpad.spec_on(dir, v);
    (
        JoyState { dpad: d, ..s },
        seq![
            OutputOp::SetButton(ButtonId::DPadUp, d.up),
            OutputOp::SetButton(ButtonId::DPadDown, d.down),
            OutputOp::Sync,
        ],
    )
}

/// State and output of a horizontal D-pad event.
pub open spec fn spec_dpad_horizontal(s: JoyState, dir: Dir4, v: bool) -> (
    JoyState,
    Seq<OutputOp>,
) {
    let d = s.dpad.spec_on(dir, v);
    (
        JoyState { dpad: d, ..s },
        seq![
            OutputOp::SetButton(ButtonId::DPadLeft, d.left),
            OutputOp::SetButton(ButtonId::DPadRight, d.right),
            OutputOp::Sync,
        ],
    )
}

/// State and output of a horizontal C-stick event: the pad transitions and
/// the horizontal coordinate re-derives linearly, unattenuated.
pub open spec fn spec_cstick_x(s: JoyState, dir: Dir4, v: bool) -> (JoyState, Seq<OutputOp>) {
    let c1 = JoyStickState { dpad: s.c_stick.dpad.spec_on(dir, v), ..s.c_stick };
    let c2 = JoyStickState { x: crate::frac::as_frac(base_x(c1.dpad)), ..c1 };
    (
        JoyState { c_stick: c2, ..s },
        seq![OutputOp::SetAxis(AxisId::Cx, c2.x), OutputOp::Sync],
    )
}

/// State and output of a vertical C-stick event.
pub open spec fn spec_cstick_y(s: JoyState, dir: Dir4, v: bool) -> (JoyState, Seq<OutputOp>) {
    let c1 = JoyStickState { dpad: s.c_stick.dpad.spec_on(dir, v), ..s.c_stick };
    let c2 = JoyStickState { y: crate::frac::as_frac(base_y(c1.dpad)), ..c1 };
    (
        JoyState { c_stick: c2, ..s },
        seq![OutputOp::SetAxis(AxisId::Cy, c2.y), OutputOp::Sync],
    )
}

} // verus!

verus! {

/// Resolves the control stick under the current modifiers: precision
/// stepping, tilt mapping, or the plain linear mapping of the named axes.
fn control_resolve(state: &mut JoyState, cfg: &Settings, do_x: bool, do_y: bool)
    ensures
        *final(state) == (JoyState {
            control_stick: spec_control_resolved(
                old(state).control_stick,
                old(state).m,
                old(state).btn,
                *cfg,
                do_x,
                do_y,
            ),
            ..*old(state)
        }),
{
    if state.m.mod1 {
        state.control_stick.step(cfg.mod1_incr, cfg.mod1_around_y);
        return;
    }
    if state.m.mod2 {
        let shield = if state.btn.l || state.btn.r {
            Option::Some(Frac { raw: SHIELD_DROP_Y_MUL })
        } else {
            Option::None
        };
        state.control_stick.tilt(cfg.mod2_x_mul, cfg.mod2_y_mul, shield);
        return;
    }
    if do_x {
        state.control_stick.update_x(Option::None);
    }
    if do_y {
        state.control_stick.update_y(Option::None);
    }
}

/// Appends the control-stick axis updates one resolution owes the output:
/// both axes after precision or tilt, only the named axes otherwise.
fn emit_control(state: &JoyState, do_x: bool, do_y: bool, ops: &mut Vec<OutputOp>)
    ensures
        final(ops)@ == old(ops)@ + spec_control_ops(state.control_stick, do_x, do_y, state.m),
{
    if state.m.mod1 || state.m.mod2 {
        ops.push(OutputOp::SetAxis(AxisId::X, state.control_stick.x));
        ops.push(OutputOp::SetAxis(AxisId::Y, state.control_stick.y));
    } else {
        if do_x {
            ops.push(OutputOp::SetAxis(AxisId::X, state.control_stick.x));
        }
        if do_y {
            ops.push(OutputOp::SetAxis(AxisId::Y, state.control_stick.y));
        }
    }
    proof {
        assert(ops@ =~= old(ops)@ + spec_control_ops(state.control_stick, do_x, do_y, state.m));
    }
}

/// Applies one vertical D-pad event: debounce, then emit both vertical
/// levels as asserted.
fn dpad_vertical_event(state: &mut JoyState, dir: Dir4, v: bool) -> (ops: Vec<OutputOp>)
    ensures
        *final(state) == spec_dpad_vertical(*old(state), dir, v).0,
        ops@ == spec_dpad_vertical(*old(state), dir, v).1,
{
    state.dpad.on(dir, v);
    let mut ops: Vec<OutputOp> = Vec::new();
    ops.push(OutputOp::SetButton(ButtonId::DPadUp, state.dpad.up));
    ops.push(OutputOp::SetButton(ButtonId::DPadDown, state.dpad.down));
    ops.push(OutputOp::Sync);
    proof {
        assert(ops@ =~= spec_dpad_vertical(*old(state), dir, v).1);
    }
    ops
}

/// Applies one horizontal D-pad event: debounce, then emit both horizontal
/// levels as asserted.
fn dpad_horizontal_event(state: &mut JoyState, dir: Dir4, v: bool) -> (ops: Vec<OutputOp>)
    ensures
        *final(state) == spec_dpad_horizontal(*old(state), dir, v).0,
        ops@ == spec_dpad_horizontal(*old(state), dir, v).1,
{
    state.dpad.on(dir, v);
    let mut ops: Vec<OutputOp> = Vec::new();
    ops.push(OutputOp::SetButton(ButtonId::DPadLeft, state.dpad.left));
    ops.push(OutputOp::SetButton(ButtonId::DPadRight, state.dpad.right));
    ops.push(OutputOp::Sync);
    proof {
        assert(ops@ =~= spec_dpad_horizontal(*old(state), dir, v).1);
    }
    ops
}

/// Applies one control-stick direction event: the pad transition for each
/// touched sub-axis, one resolution, and the owed output.
fn stick_event(
    state: &mut JoyState,
    cfg: &Settings,
    d1: Dir4,
    d2: Option<Dir4>,
    v: bool,
    do_x: bool,
    do_y: bool,
) -> (ops: Vec<OutputOp>)
    ensures
        ({
            let dpad1 = match d2 {
                Option::None => old(state).control_stick.dpad.spec_on(d1, v),
                Option::Some(dd) => old(state).control_stick.dpad.spec_on(d1, v).spec_on(dd, v),
            };
            *final(state) == spec_control_event(*old(state), *cfg, dpad1, do_x, do_y).0
                && ops@ == spec_control_event(*old(state), *cfg, dpad1, do_x, do_y).1
        }),
{
    state.control_stick.dpad.on(d1, v);
    match d2 {
        Option::Some(dd) => state.control_stick.dpad.on(dd, v),
        Option::None => {},
    }
    let mut ops: Vec<OutputOp> = Vec::new();
    control_resolve(state, cfg, do_x, do_y);
    emit_control(state, do_x, do_y, &mut ops);
    ops.push(OutputOp::Sync);
    proof {
        let dpad1 = match d2 {
            Option::None => old(state).control_stick.dpad.spec_on(d1, v),
            Option::Some(dd) => old(state).control_stick.dpad.spec_on(d1, v).spec_on(dd, v),
        };
        assert(ops@ =~= spec_control_event(*old(state), *cfg, dpad1, do_x, do_y).1);
    }
    ops
}

} // verus!


verus! {

/// Whether an event touches neither the control stick nor a modifier, so
/// that its transition never invokes the analog resolver.
pub open spec fn is_basic(kind: StateUpdateKind) -> bool {
    match kind {
        StateUpdateKind::Noop
        | StateUpdateKind::BtnA
        | StateUpdateKind::BtnB
        | StateUpdateKind::BtnX
        | StateUpdateKind::BtnY
        | StateUpdateKind::BtnZ
        | StateUpdateKind::BtnStart
        | StateUpdateKind::BtnR
        | StateUpdateKind::BtnL
        | StateUpdateKind::DPadUp
        | StateUpdateKind::DPadDown
        | StateUpdateKind::DPadLeft
        | StateUpdateKind::DPadRight
        | StateUpdateKind::CStickLeft
        | StateUpdateKind::CStickRight
        | StateUpdateKind::CStickUp
        | StateUpdateKind::CStickDown => true,
        _ => false,
    }
}

/// Whether an event is a control-stick direction event.
pub open spec fn is_stick(kind: StateUpdateKind) -> bool {
    match kind {
        StateUpdateKind::ControlStickLeft
        | StateUpdateKind::ControlStickRight
        | StateUpdateKind::ControlStickUp
        | StateUpdateKind::ControlStickDown
        | StateUpdateKind::ControlStickUpLeft
        | StateUpdateKind::ControlStickUpRight
        | StateUpdateKind::ControlStickDownLeft
        | StateUpdateKind::ControlStickDownRight => true,
        _ => false,
    }
}

impl StateUpdate {
    /// The transition of the events that leave the control stick alone.
    #[verifier::rlimit(100)]
    #[verifier::spinoff_prover]
    fn run_basic(self, state: &mut JoyState, settings: &Settings) -> (ops: Vec<OutputOp>)
        requires
            is_basic(self.kind),
        ensures
            *final(state) == spec_run(*old(state), self, *settings).0,
            ops@ == spec_run(*old(state), self, *settings).1,
    {
        let mut ops: Vec<OutputOp> = Vec::new();
        let v = self.value;
        match self.kind {
            StateUpdateKind::Noop => {
                proof {
                    assert(ops@ =~= spec_run(*old(state), self, *settings).1);
                }
                return ops;
            },
            StateUpdateKind::BtnA => {
                ops.push(OutputOp::SetButton(ButtonId::A, v));
                ops.push(OutputOp::Sync);
                proof {
                    assert(ops@ =~= spec_run(*old(state), self, *settings).1);
                }
                return ops;
            },
            StateUpdateKind::BtnB => {
                ops.push(OutputOp::SetButton(ButtonId::B, v));
                ops.push(OutputOp::Sync);
                proof {
                    assert(ops@ =~= spec_run(*old(state), self, *settings).1);
                }
                return ops;
            },
            StateUpdateKind::BtnX => {
                ops.push(OutputOp::SetButton(ButtonId::X, v));
                ops.push(OutputOp::Sync);
                proof {
                    assert(ops@ =~= spec_run(*old(state), self, *settings).1);
                }
                return ops;
            },
            StateUpdateKind::BtnY => {
                ops.push(OutputOp::SetButton(ButtonId::Y, v));
                ops.push(OutputOp::Sync);
                proof {
                    assert(ops@ =~= spec_run(*old(state), self, *settings).1);
                }
                return ops;
            },
            StateUpdateKind::BtnZ => {
                ops.push(OutputOp::SetButton(ButtonId::Z, v));
                ops.push(OutputOp::Sync);
                proof {
                    assert(ops@ =~= spec_run(*old(state), self, *settings).1);
                }
                return ops;
            },
            StateUpdateKind::BtnStart => {
                ops.push(OutputOp::SetButton(ButtonId::Start, v));
                ops.push(OutputOp::Sync);
                proof {
                    assert(ops@ =~= spec_run(*old(state), self, *settings).1);
                }
                return ops;
            },
            StateUpdateKind::BtnR => {
                state.btn.r = v;
                ops.push(OutputOp::SetButton(ButtonId::R, v));
                ops.push(OutputOp::Sync);
                proof {
                    assert(ops@ =~= spec_run(*old(state), self, *settings).1);
                }
                return ops;
            },
            StateUpdateKind::BtnL => {
                state.btn.l = v;
                state.l_trigger = if v {
                    if state.m.mod1 {
                        settings.mod1_trigger_mul
                    } else {
                        Frac { raw: 127 }
                    }
                } else {
                    Frac { raw: 0 }
                };
                ops.push(OutputOp::SetAxis(AxisId::Trigger, state.l_trigger));
                ops.push(OutputOp::Sync);
                proof {
                    assert(ops@ =~= spec_run(*old(state), self, *settings).1);
                }
                return ops;
            },
            StateUpdateKind::DPadUp => {
                return dpad_vertical_event(state, Dir4::Up, v);
            },
            StateUpdateKind::DPadDown => {
                return dpad_vertical_event(state, Dir4::Down, v);
            },
            StateUpdateKind::DPadLeft => {
                return dpad_horizontal_event(state, Dir4::Left, v);
            },
            StateUpdateKind::DPadRight => {
                return dpad_horizontal_event(state, Dir4::Right, v);
            },
            StateUpdateKind::CStickLeft => {
                state.c_stick.dpad.on_left(v);
                state.c_stick.update_x(Option::None);
                ops.push(OutputOp::SetAxis(AxisId::Cx, state.c_stick.x));
                ops.push(OutputOp::Sync);
                proof {
                    assert(ops@ =~= spec_run(*old(state), self, *settings).1);
                }
                return ops;
            },
            StateUpdateKind::CStickRight => {
                state.c_stick.dpad.on_right(v);
                state.c_stick.update_x(Option::None);
                ops.push(OutputOp::SetAxis(AxisId::Cx, state.c_stick.x));
                ops.push(OutputOp::Sync);
                proof {
                    assert(ops@ =~= spec_run(*old(state), self, *settings).1);
                }
                return ops;
            },
            StateUpdateKind::CStickUp => {
                state.c_stick.dpad.on_up(v);
                state.c_stick.update_y(Option::None);
                ops.push(OutputOp::SetAxis(AxisId::Cy, state.c_stick.y));
                ops.push(OutputOp::Sync);
                proof {
                    assert(ops@ =~= spec_run(*old(state), self, *settings).1);
                }
                return ops;
            },
            StateUpdateKind::CStickDown => {
                state.c_stick.dpad.on_down(v);
                state.c_stick.update_y(Option::None);
                ops.push(OutputOp::SetAxis(AxisId::Cy, state.c_stick.y));
                ops.push(OutputOp::Sync);
                proof {
                    assert(ops@ =~= spec_run(*old(state), self, *settings).1);
                }
                return ops;
            },
            _ => {
                proof {
                    assert(false);
                }
            },
        }
        ops
    }

    /// The transition of the control-stick direction events.
    #[verifier::rlimit(100)]
    #[verifier::spinoff_prover]
    fn run_stick(self, state: &mut JoyState, settings: &Settings) -> (ops: Vec<OutputOp>)
        requires
            is_stick(self.kind),
        ensures
            *final(state) == spec_run(*old(state), self, *settings).0,
            ops@ == spec_run(*old(state), self, *settings).1,
    {
        let v = self.value;
        match self.kind {
            StateUpdateKind::ControlStickLeft => stick_event(
                state, settings, Dir4::Left, Option::None, v, true, false),
            StateUpdateKind::ControlStickRight => stick_event(
                state, settings, Dir4::Right, Option::None, v, true, false),
            StateUpdateKind::ControlStickUp => stick_event(
                state, settings, Dir4::Up, Option::None, v, false, true),
            StateUpdateKind::ControlStickDown => stick_event(
                state, settings, Dir4::Down, Option::None, v, false, true),
            StateUpdateKind::ControlStickUpLeft => stick_event(
                state, settings, Dir4::Up, Option::Some(Dir4::Left), v, true, true),
            StateUpdateKind::ControlStickUpRight => stick_event(
                state, settings, Dir4::Up, Option::Some(Dir4::Right), v, true, true),
            StateUpdateKind::ControlStickDownLeft => stick_event(
                state, settings, Dir4::Down, Option::Some(Dir4::Left), v, true, true),
            StateUpdateKind::ControlStickDownRight => stick_event(
                state, settings, Dir4::Down, Option::Some(Dir4::Right), v, true, true),
            _ => {
                proof {
                    assert(false);
                }
                Vec::new()
            },
        }
    }

    /// The transition of the two modifier events, either of which may
    /// re-derive the control stick.
    #[verifier::rlimit(100)]
    #[verifier::spinoff_prover]
    fn run_modifier(self, state: &mut JoyState, settings: &Settings) -> (ops: Vec<OutputOp>)
        requires
            self.kind == StateUpdateKind::Mod1 || self.kind == StateUpdateKind::Mod2,
        ensures
            *final(state) == spec_run(*old(state), self, *settings).0,
            ops@ == spec_run(*old(state), self, *settings).1,
    {
        let mut ops: Vec<OutputOp> = Vec::new();
        let v = self.value;
        match self.kind {
            StateUpdateKind::Mod1 => {
                state.m.mod1 = v;
                if !v {
                    control_resolve(state, settings, true, true);
                    emit_control(state, true, true, &mut ops);
                }
                ops.push(OutputOp::Sync);
                proof {
                    assert(ops@ =~= spec_run(*old(state), self, *settings).1);
                }
                return ops;
            },
            StateUpdateKind::Mod2 => {
                state.m.mod2 = v;
                if !state.m.mod1 {
                    control_resolve(state, settings, true, true);
                    emit_control(state, true, true, &mut ops);
                }
                ops.push(OutputOp::Sync);
                proof {
                    assert(ops@ =~= spec_run(*old(state), self, *settings).1);
                }
                return ops;
            },
            _ => {
                proof {
                    assert(false);
                }
            },
        }
        ops
    }

    /// Applies one dispatched key edge to the controller state and returns
    /// the updates owed to the output device, in emission order.
    pub fn run(self, state: &mut JoyState, settings: &Settings) -> (ops: Vec<OutputOp>)
        ensures
            *final(state) == spec_run(*old(state), self, *settings).0,
            ops@ == spec_run(*old(state), self, *settings).1,
    {
        match self.kind {
            StateUpdateKind::Noop | StateUpdateKind::BtnA | StateUpdateKind::BtnB | StateUpdateKind::BtnX | StateUpdateKind::BtnY | StateUpdateKind::BtnZ | StateUpdateKind::BtnStart | StateUpdateKind::BtnR | StateUpdateKind::BtnL | StateUpdateKind::DPadUp | StateUpdateKind::DPadDown | StateUpdateKind::DPadLeft | StateUpdateKind::DPadRight | StateUpdateKind::CStickLeft | StateUpdateKind::CStickRight | StateUpdateKind::CStickUp | StateUpdateKind::CStickDown => self.run_basic(state, settings),
            StateUpdateKind::ControlStickLeft | StateUpdateKind::ControlStickRight | StateUpdateKind::ControlStickUp | StateUpdateKind::ControlStickDown | StateUpdateKind::ControlStickUpLeft | StateUpdateKind::ControlStickUpRight | StateUpdateKind::ControlStickDownLeft | StateUpdateKind::ControlStickDownRight => self.run_stick(state, settings),
            _ => self.run_modifier(state, settings),
        }
    }
}

} // verus!
