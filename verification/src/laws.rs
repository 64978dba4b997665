//! The laws of the core, stated and proved over the transition functions:
//! the debouncer never asserts opposing directions together and restores a
//! suppressed direction on release; an inactive pad rests at exactly zero;
//! saturation bounds every coordinate; the direct and tilt resolutions are
//! idempotent; and the precision and tilt transformations never combine.

use crate::config::Settings;
use crate::dpad::{base_x, base_y, step_raw, tilt_raw, DPadState, Dir4, JoyStickState};
use crate::frac::{as_frac, sat_add_raw, sat_mul_raw};
use crate::state::{
    spec_control_resolved, spec_run, spec_shield, JoyButtons, JoyState, Modifiers, StateUpdate,
    StateUpdateKind,
};
use vstd::prelude::*;

verus! {

/// The pad reached by applying a sequence of direction edges in order.
pub open spec fn dpad_after(s: DPadState, edges: Seq<(Dir4, bool)>) -> DPadState
    decreases edges.len(),
{
    if edges.len() == 0 {
        s
    } else {
        dpad_after(s.spec_on(edges[0].0, edges[0].1), edges.drop_first())
    }
}

/// One direction edge keeps opposing asserted directions mutually
/// exclusive.
pub proof fn lemma_debounce_step_exclusive(s: DPadState, dir: Dir4, value: bool)
    requires
        s.wf(),
    ensures
        s.spec_on(dir, value).wf(),
{
}

/// After any sequence of direction edges from a well-formed pad — the rest
/// pad in particular — at most one of each opposing pair is asserted.
pub proof fn lemma_debounce_never_contradicts(s: DPadState, edges: Seq<(Dir4, bool)>)
    requires
        s.wf(),
    ensures
        dpad_after(s, edges).wf(),
    decreases edges.len(),
{
    if edges.len() > 0 {
        lemma_debounce_never_contradicts(s.spec_on(edges[0].0, edges[0].1), edges.drop_first());
    }
}

/// Releasing a direction key clears its own assertion and restores the
/// opposite direction to exactly what its held bit says: in particular, an
/// opposite key still physically held becomes asserted again.
pub proof fn lemma_release_restores_opposite(s: DPadState, dir: Dir4)
    ensures
        !s.spec_on(dir, false).asserted(dir),
        s.spec_on(dir, false).asserted(DPadState::opposite(dir)) == s.held(
            DPadState::opposite(dir),
        ),
{
}

/// The invariant the event loop maintains across every transition: all
/// three pads are free of contradictions, the C-stick coordinate is exactly
/// the linear image of its asserted bits, and a control-stick axis without
/// an asserted direction rests at zero — except under the precision
/// modifier, where stepping may leave a released axis deflected while the
/// other axis still steers, and only a fully inactive pad is forced to
/// zero.
pub open spec fn state_inv(s: JoyState) -> bool {
    &&& s.control_stick.dpad.wf()
    &&& s.c_stick.dpad.wf()
    &&& s.dpad.wf()
    &&& s.c_stick.x.raw as int == base_x(s.c_stick.dpad)
    &&& s.c_stick.y.raw as int == base_y(s.c_stick.dpad)
    &&& if s.m.mod1 {
        s.control_stick.dpad.inactive() ==> s.control_stick.x.raw == 0 && s.control_stick.y.raw
            == 0
    } else {
        (base_x(s.control_stick.dpad) == 0 ==> s.control_stick.x.raw == 0) && (base_y(
            s.control_stick.dpad,
        ) == 0 ==> s.control_stick.y.raw == 0)
    }
}

/// The rest state satisfies the invariant.
pub proof fn lemma_rest_satisfies_inv()
    ensures
        state_inv(JoyState::spec_rest()),
{
}

/// The control-stick clause of the invariant: outside precision mode an
/// axis without an asserted direction rests at zero; under it only a fully
/// inactive pad is forced to zero.
pub open spec fn control_clause(stick: JoyStickState, mod1: bool) -> bool {
    if mod1 {
        stick.dpad.inactive() ==> stick.x.raw == 0 && stick.y.raw == 0
    } else {
        (base_x(stick.dpad) == 0 ==> stick.x.raw == 0) && (base_y(stick.dpad) == 0
            ==> stick.y.raw == 0)
    }
}

/// One resolution establishes the control-stick clause, provided an axis it
/// leaves untouched already satisfied it.
#[verifier::rlimit(100)]
#[verifier::spinoff_prover]
proof fn lemma_control_resolved_clause(
    stick: JoyStickState,
    m: Modifiers,
    btn: JoyButtons,
    cfg: Settings,
    do_x: bool,
    do_y: bool,
)
    requires
        !m.mod1 && !m.mod2 ==> ((!do_x ==> (base_x(stick.dpad) == 0 ==> stick.x.raw == 0)) && (
        !do_y ==> (base_y(stick.dpad) == 0 ==> stick.y.raw == 0))),
    ensures
        control_clause(spec_control_resolved(stick, m, btn, cfg, do_x, do_y), m.mod1),
{
    reveal(step_raw);
    reveal(tilt_raw);
}

/// Transitions that touch neither the control stick nor a modifier
/// preserve the invariant.
#[verifier::rlimit(100)]
#[verifier::spinoff_prover]
proof fn lemma_inv_basic(s: JoyState, upd: StateUpdate, cfg: Settings)
    requires
        state_inv(s),
        crate::state::is_basic(upd.kind),
    ensures
        state_inv(spec_run(s, upd, cfg).0),
{
}

/// Control-stick direction transitions preserve the invariant.
#[verifier::rlimit(100)]
#[verifier::spinoff_prover]
proof fn lemma_inv_stick(s: JoyState, upd: StateUpdate, cfg: Settings)
    requires
        state_inv(s),
        crate::state::is_stick(upd.kind),
    ensures
        state_inv(spec_run(s, upd, cfg).0),
{
    let v = upd.value;
    let d0 = s.control_stick.dpad;
    match upd.kind {
        StateUpdateKind::ControlStickLeft => {
            let stick1 = JoyStickState { dpad: d0.spec_on(Dir4::Left, v), ..s.control_stick };
            lemma_control_resolved_clause(stick1, s.m, s.btn, cfg, true, false);
        },
        StateUpdateKind::ControlStickRight => {
            let stick1 = JoyStickState { dpad: d0.spec_on(Dir4::Right, v), ..s.control_stick };
            lemma_control_resolved_clause(stick1, s.m, s.btn, cfg, true, false);
        },
        StateUpdateKind::ControlStickUp => {
            let stick1 = JoyStickState { dpad: d0.spec_on(Dir4::Up, v), ..s.control_stick };
            lemma_control_resolved_clause(stick1, s.m, s.btn, cfg, false, true);
        },
        StateUpdateKind::ControlStickDown => {
            let stick1 = JoyStickState { dpad: d0.spec_on(Dir4::Down, v), ..s.control_stick };
            lemma_control_resolved_clause(stick1, s.m, s.btn, cfg, false, true);
        },
        StateUpdateKind::ControlStickUpLeft => {
            let stick1 = JoyStickState {
                dpad: d0.spec_on(Dir4::Up, v).spec_on(Dir4::Left, v),
                ..s.control_stick
            };
            lemma_control_resolved_clause(stick1, s.m, s.btn, cfg, true, true);
        },
        StateUpdateKind::ControlStickUpRight => {
            let stick1 = JoyStickState {
                dpad: d0.spec_on(Dir4::Up, v).spec_on(Dir4::Right, v),
                ..s.control_stick
            };
            lemma_control_resolved_clause(stick1, s.m, s.btn, cfg, true, true);
        },
        StateUpdateKind::ControlStickDownLeft => {
            let stick1 = JoyStickState {
                dpad: d0.spec_on(Dir4::Down, v).spec_on(Dir4::Left, v),
                ..s.control_stick
            };
            lemma_control_resolved_clause(stick1, s.m, s.btn, cfg, true, true);
        },
        StateUpdateKind::ControlStickDownRight => {
            let stick1 = JoyStickState {
                dpad: d0.spec_on(Dir4::Down, v).spec_on(Dir4::Right, v),
                ..s.control_stick
            };
            lemma_control_resolved_clause(stick1, s.m, s.btn, cfg, true, true);
        },
        _ => {},
    }
}

/// Modifier transitions preserve the invariant.
#[verifier::rlimit(100)]
#[verifier::spinoff_prover]
proof fn lemma_inv_modifier(s: JoyState, upd: StateUpdate, cfg: Settings)
    requires
        state_inv(s),
        upd.kind == StateUpdateKind::Mod1 || upd.kind == StateUpdateKind::Mod2,
    ensures
        state_inv(spec_run(s, upd, cfg).0),
{
    let v = upd.value;
    match upd.kind {
        StateUpdateKind::Mod1 => {
            let m1 = Modifiers { mod1: v, ..s.m };
            if !v {
                lemma_control_resolved_clause(s.control_stick, m1, s.btn, cfg, true, true);
            }
        },
        StateUpdateKind::Mod2 => {
            let m1 = Modifiers { mod2: v, ..s.m };
            if !s.m.mod1 {
                lemma_control_resolved_clause(s.control_stick, m1, s.btn, cfg, true, true);
            }
        },
        _ => {},
    }
}

/// Every transition preserves the invariant.
pub proof fn lemma_run_preserves_inv(s: JoyState, upd: StateUpdate, cfg: Settings)
    requires
        state_inv(s),
    ensures
        state_inv(spec_run(s, upd, cfg).0),
{
    if crate::state::is_basic(upd.kind) {
        lemma_inv_basic(s, upd, cfg);
    } else if crate::state::is_stick(upd.kind) {
        lemma_inv_stick(s, upd, cfg);
    } else {
        lemma_inv_modifier(s, upd, cfg);
    }
}

/// If no direction of a stick's pad is asserted, its resolved coordinate is
/// exactly zero — in every modifier state.
pub proof fn lemma_inactive_rests_at_zero(s: JoyState)
    requires
        state_inv(s),
    ensures
        s.control_stick.dpad.inactive() ==> s.control_stick.x.raw == 0 && s.control_stick.y.raw
            == 0,
        s.c_stick.dpad.inactive() ==> s.c_stick.x.raw == 0 && s.c_stick.y.raw == 0,
{
}

/// Saturation law: whatever the operands — constants included — and however
/// often increments are reapplied, a saturating sum or product never leaves
/// the representable full-scale range.
pub proof fn lemma_saturation(a: int, b: int)
    ensures
        -128 <= sat_add_raw(a, b) <= 127,
        -128 <= sat_mul_raw(a, b) <= 127,
{
}

/// Idempotence of the resolver outside precision mode: the direct and tilt
/// mappings depend only on the asserted bits, the buttons and the
/// constants, never on the previous coordinate, so re-resolving an
/// unchanged pad under unchanged modifiers is bit-identical.
pub proof fn lemma_resolver_idempotent(
    stick: JoyStickState,
    m: Modifiers,
    btn: JoyButtons,
    cfg: Settings,
    do_x: bool,
    do_y: bool,
)
    requires
        !m.mod1,
    ensures
        ({
            let once = spec_control_resolved(stick, m, btn, cfg, do_x, do_y);
            let twice = spec_control_resolved(once, m, btn, cfg, do_x, do_y);
            twice == once
        }),
{
}

/// Precision and tilt are mutually exclusive in one resolution: under the
/// precision modifier the outcome is exactly the precision step, under the
/// tilt modifier alone exactly the tilt mapping, and otherwise exactly the
/// plain linear mapping — never a combination.
pub proof fn lemma_modes_mutually_exclusive(
    stick: JoyStickState,
    m: Modifiers,
    btn: JoyButtons,
    cfg: Settings,
    do_x: bool,
    do_y: bool,
)
    ensures
        m.mod1 ==> spec_control_resolved(stick, m, btn, cfg, do_x, do_y) == (JoyStickState {
            x: as_frac(step_raw(stick, cfg.mod1_incr, cfg.mod1_around_y).0),
            y: as_frac(step_raw(stick, cfg.mod1_incr, cfg.mod1_around_y).1),
            ..stick
        }),
        !m.mod1 && m.mod2 ==> spec_control_resolved(stick, m, btn, cfg, do_x, do_y) == (
        JoyStickState {
            x: as_frac(tilt_raw(stick.dpad, cfg.mod2_x_mul, cfg.mod2_y_mul, spec_shield(btn)).0),
            y: as_frac(tilt_raw(stick.dpad, cfg.mod2_x_mul, cfg.mod2_y_mul, spec_shield(btn)).1),
            ..stick
        }),
        !m.mod1 && !m.mod2 ==> spec_control_resolved(stick, m, btn, cfg, do_x, do_y) == (
        JoyStickState {
            x: if do_x {
                as_frac(base_x(stick.dpad))
            } else {
                stick.x
            },
            y: if do_y {
                as_frac(base_y(stick.dpad))
            } else {
                stick.y
            },
            ..stick
        }),
{
}

/// Releasing the precision modifier immediately re-derives the control
/// stick through the direct or tilt path, under the modifiers as they then
/// stand.
pub proof fn lemma_mod1_release_rederives(s: JoyState, cfg: Settings)
    ensures
        ({
            let m1 = Modifiers { mod1: false, ..s.m };
            let upd = StateUpdate { kind: StateUpdateKind::Mod1, value: false };
            spec_run(s, upd, cfg).0.control_stick == spec_control_resolved(
                s.control_stick,
                m1,
                s.btn,
                cfg,
                true,
                true,
            )
        }),
{
}

} // verus!

verus! {

/// The state reached by applying a sequence of dispatched events in order.
pub open spec fn run_all(s: JoyState, upds: Seq<StateUpdate>, cfg: Settings) -> JoyState
    decreases upds.len(),
{
    if upds.len() == 0 {
        s
    } else {
        run_all(spec_run(s, upds[0], cfg).0, upds.drop_first(), cfg)
    }
}

/// The invariant holds after any sequence of events from any state that
/// satisfies it — from the rest state in particular: opposing directions
/// are never both asserted, and a stick with nothing asserted reads
/// exactly zero.
pub proof fn lemma_inv_after_any_sequence(s: JoyState, upds: Seq<StateUpdate>, cfg: Settings)
    requires
        state_inv(s),
    ensures
        state_inv(run_all(s, upds, cfg)),
    decreases upds.len(),
{
    if upds.len() > 0 {
        lemma_run_preserves_inv(s, upds[0], cfg);
        lemma_inv_after_any_sequence(spec_run(s, upds[0], cfg).0, upds.drop_first(), cfg);
    }
}

} // verus!
