//! Direction debouncing and per-stick analog state.
//!
//! [`DPadState`] tracks, for one four-direction pad, which direction keys are
//! physically held and which directions are logically asserted, resolving the
//! case where opposing keys are held at once: pressing a key asserts its
//! direction and suppresses the opposite one, and releasing it restores the
//! opposite direction if that key is still physically held. Opposing asserted
//! bits are never both set.
//!
//! [`JoyStickState`] pairs such a pad with the fixed-point coordinate it
//! resolves to, and carries the three resolution rules: the plain and
//! attenuated linear mapping, the tilt mapping with its axis-priority snap
//! and shield-drop exception, and the incremental precision stepping.

use crate::frac::{sat_add_raw, sat_mul_raw, Frac};
use vstd::prelude::*;

verus! {

/// One of the four cardinal directions of a pad, used to speak about all
/// four debouncing transitions at once.
#[derive(Clone, Copy, Debug, PartialEq, Eq, Structural)]
pub enum Dir4 {
    Up,
    Down,
    Left,
    Right,
}

/// Held and asserted direction bits of one four-direction pad.
///
/// The `*_held` bits record raw physical key state; the plain bits record
/// which direction is logically asserted after debouncing. The held bits are
/// a memory used only to decide restoration on release.
#[derive(Clone, Copy, Debug, PartialEq, Eq, Structural)]
pub struct DPadState {
    pub up_held: bool,
    pub down_held: bool,
    pub left_held: bool,
    pub right_held: bool,
    pub up: bool,
    pub down: bool,
    pub left: bool,
    pub right: bool,
}

impl DPadState {
    /// Well-formed: opposing asserted directions are mutually exclusive.
    pub open spec fn wf(self) -> bool {
        !(self.up && self.down) && !(self.left && self.right)
    }

    /// No direction is asserted: the pad is at rest.
    pub open spec fn inactive(self) -> bool {
        !self.up && !self.down && !self.left && !self.right
    }

    /// The fully released pad.
    pub open spec fn spec_rest() -> DPadState {
        DPadState {
            up_held: false,
            down_held: false,
            left_held: false,
            right_held: false,
            up: false,
            down: false,
            left: false,
            right: false,
        }
    }

    /// The direction opposing the given one on its axis.
    pub open spec fn opposite(dir: Dir4) -> Dir4 {
        match dir {
            Dir4::Up => Dir4::Down,
            Dir4::Down => Dir4::Up,
            Dir4::Left => Dir4::Right,
            Dir4::Right => Dir4::Left,
        }
    }

    /// Whether the given direction is logically asserted.
    pub open spec fn asserted(self, dir: Dir4) -> bool {
        match dir {
            Dir4::Up => self.up,
            Dir4::Down => self.down,
            Dir4::Left => self.left,
            Dir4::Right => self.right,
        }
    }

    /// Whether the given direction's key is physically held.
    pub open spec fn held(self, dir: Dir4) -> bool {
        match dir {
            Dir4::Up => self.up_held,
            Dir4::Down => self.down_held,
            Dir4::Left => self.left_held,
            Dir4::Right => self.right_held,
        }
    }

    /// The debouncing transition for one direction edge: record the held
    /// bit, then either suppress the opposite direction (press) or restore
    /// it from its held bit (release).
    pub open spec fn spec_on(self, dir: Dir4, value: bool) -> DPadState {
        match dir {
            Dir4::Up => DPadState {
                up: value,
                up_held: value,
                down: if value { false } else { self.down_held },
                ..self
            },
            Dir4::Down => DPadState {
                down: value,
                down_held: value,
                up: if value { false } else { self.up_held },
                ..self
            },
            Dir4::Left => DPadState {
                left: value,
                left_held: value,
                right: if value { false } else { self.right_held },
                ..self
            },
            Dir4::Right => DPadState {
                right: value,
                right_held: value,
                left: if value { false } else { self.left_held },
                ..self
            },
        }
    }

    /// Applies a direction edge; the entry point the event loop dispatches to.
    pub fn on(&mut self, dir: Dir4, value: bool)
        ensures
            *final(self) == old(self).spec_on(dir, value),
    {
        match dir {
            Dir4::Up => self.on_up(value),
            Dir4::Down => self.on_down(value),
            Dir4::Left => self.on_left(value),
            Dir4::Right => self.on_right(value),
        }
    }

    /// Edge of the "up" key.
    pub fn on_up(&mut self, value: bool)
        ensures
            *final(self) == old(self).spec_on(Dir4::Up, value),
    {
        self.up = value;
        self.up_held = value;
        if value {
            self.down = false;
        } else {
            self.down = self.down_held;
        }
    }

    /// Edge of the "down" key.
    pub fn on_down(&mut self, value: bool)
        ensures
            *final(self) == old(self).spec_on(Dir4::Down, value),
    {
        self.down = value;
        self.down_held = value;
        if value {
            self.up = false;
        } else {
            self.up = self.up_held;
        }
    }

    /// Edge of the "left" key.
    pub fn on_left(&mut self, value: bool)
        ensures
            *final(self) == old(self).spec_on(Dir4::Left, value),
    {
        self.left = value;
        self.left_held = value;
        if value {
            self.right = false;
        } else {
            self.right = self.right_held;
        }
    }

    /// Edge of the "right" key.
    pub fn on_right(&mut self, value: bool)
        ensures
            *final(self) == old(self).spec_on(Dir4::Right, value),
    {
        self.right = value;
        self.right_held = value;
        if value {
            self.left = false;
        } else {
            self.left = self.left_held;
        }
    }
}

impl Default for DPadState {
    /// The fully released pad.
    fn default() -> (r: DPadState)
        ensures
            r == DPadState::spec_rest(),
    {
        DPadState {
            up_held: false,
            down_held: false,
            left_held: false,
            right_held: false,
            up: false,
            down: false,
            left: false,
            right: false,
        }
    }
}

} // verus!

verus! {

/// Raw signed base deflection of one axis from its two asserted bits: one of
/// {-128, 0, 127}, the full-scale fixed-point values of {-1, 0, +1}.
pub open spec fn axis_base(neg: bool, pos: bool) -> int {
    if pos == neg {
        0
    } else if pos {
        127
    } else {
        -128
    }
}

/// Base deflection of the horizontal axis (left negative, right positive).
pub open spec fn base_x(d: DPadState) -> int {
    axis_base(d.left, d.right)
}

/// Base deflection of the vertical axis (up negative, down positive).
pub open spec fn base_y(d: DPadState) -> int {
    axis_base(d.up, d.down)
}

/// Magnitude of a raw coordinate.
pub open spec fn mag(v: int) -> int {
    if v < 0 {
        -v
    } else {
        v
    }
}

/// Whether a raw coordinate is at full deflection in either direction.
pub open spec fn maximal(v: int) -> bool {
    v == 127 || v == -128
}

/// The plain or attenuated linear mapping of one axis: the base deflection,
/// scaled by the multiplier when one is given.
pub open spec fn linear_raw(base: int, mul: Option<Frac>) -> int {
    match mul {
        Option::None => base,
        Option::Some(m) => sat_mul_raw(base, m.raw as int),
    }
}

/// A stick: one debounced four-direction pad together with the fixed-point
/// coordinate pair it currently resolves to.
#[derive(Clone, Copy, Debug, PartialEq, Eq, Structural)]
pub struct JoyStickState {
    pub dpad: DPadState,
    pub x: Frac,
    pub y: Frac,
}

/// Both coordinates of the tilt mapping. The attenuated base deflections are
/// the rule; two exceptions override them. Shield drop: a shoulder button is
/// held and "down" is the only asserted direction, so the vertical axis takes
/// the dedicated shield multiplier instead of the tilt one. Axis-priority
/// snap: both attenuated axes are deflected short of full scale, so the one
/// with the strictly larger magnitude is promoted to full deflection while
/// the other keeps its attenuated value.
#[verifier::opaque]
pub open spec fn tilt_raw(
    d: DPadState,
    mul_x: Frac,
    mul_y: Frac,
    shield: Option<Frac>,
) -> (int, int) {
    if shield.is_some() && d.down && !d.left && !d.right {
        (0, sat_mul_raw(base_y(d), shield->Some_0.raw as int))
    } else {
        let gx = sat_mul_raw(base_x(d), mul_x.raw as int);
        let gy = sat_mul_raw(base_y(d), mul_y.raw as int);
        if gx != 0 && gy != 0 && !maximal(gx) && !maximal(gy) {
            if mag(gx) > mag(gy) {
                (if gx > 0 { 127 as int } else { -128 as int }, gy)
            } else if mag(gy) > mag(gx) {
                (gx, if gy > 0 { 127 as int } else { -128 as int })
            } else {
                (gx, gy)
            }
        } else {
            (gx, gy)
        }
    }
}

/// Both coordinates of one precision step. A fully inactive pad rests at
/// exactly zero. Otherwise an axis whose partner is at rest snaps to its
/// base deflection, while an axis whose partner is already off-center
/// advances from its current value by its base deflection scaled with the
/// per-axis increment, saturating at full scale.
#[verifier::opaque]
pub open spec fn step_raw(s: JoyStickState, x_incr: Frac, y_incr: Frac) -> (int, int) {
    if s.dpad.inactive() {
        (0, 0)
    } else {
        (
            if s.y.raw == 0 {
                base_x(s.dpad)
            } else {
                sat_add_raw(s.x.raw as int, sat_mul_raw(base_x(s.dpad), x_incr.raw as int))
            },
            if s.x.raw == 0 {
                base_y(s.dpad)
            } else {
                sat_add_raw(s.y.raw as int, sat_mul_raw(base_y(s.dpad), y_incr.raw as int))
            },
        )
    }
}

/// Base deflection of one axis as a fixed-point value.
fn axis_base_frac(neg: bool, pos: bool) -> (r: Frac)
    ensures
        r.raw as int == axis_base(neg, pos),
{
    if pos == neg {
        Frac { raw: 0 }
    } else if pos {
        Frac { raw: 127 }
    } else {
        Frac { raw: -128 }
    }
}

impl JoyStickState {
    /// Re-derives the horizontal coordinate linearly from the asserted
    /// direction bits, attenuated by `mul` when one is given.
    pub fn update_x(&mut self, mul: Option<Frac>)
        ensures
            final(self).dpad == old(self).dpad,
            final(self).y == old(self).y,
            final(self).x.raw as int == linear_raw(base_x(old(self).dpad), mul),
    {
        let base = axis_base_frac(self.dpad.left, self.dpad.right);
        self.x = match mul {
            Option::Some(m) => base.saturating_mul(m),
            Option::None => base,
        };
    }

    /// Re-derives the vertical coordinate linearly from the asserted
    /// direction bits, attenuated by `mul` when one is given.
    pub fn update_y(&mut self, mul: Option<Frac>)
        ensures
            final(self).dpad == old(self).dpad,
            final(self).x == old(self).x,
            final(self).y.raw as int == linear_raw(base_y(old(self).dpad), mul),
    {
        let base = axis_base_frac(self.dpad.up, self.dpad.down);
        self.y = match mul {
            Option::Some(m) => base.saturating_mul(m),
            Option::None => base,
        };
    }

    /// Re-derives both coordinates through the tilt mapping; `shield` holds
    /// the shield-drop multiplier exactly when a shoulder button is held.
    pub fn tilt(&mut self, mul_x: Frac, mul_y: Frac, shield: Option<Frac>)
        ensures
            final(self).dpad == old(self).dpad,
            final(self).x.raw as int == tilt_raw(old(self).dpad, mul_x, mul_y, shield).0,
            final(self).y.raw as int == tilt_raw(old(self).dpad, mul_x, mul_y, shield).1,
    {
        proof {
            reveal(tilt_raw);
        }
        match shield {
            Option::Some(c) if self.dpad.down && !self.dpad.left && !self.dpad.right => {
                let base = axis_base_frac(self.dpad.up, self.dpad.down);
                self.x = Frac { raw: 0 };
                self.y = base.saturating_mul(c);
            }
            _ => {
                let bx = axis_base_frac(self.dpad.left, self.dpad.right);
                let by = axis_base_frac(self.dpad.up, self.dpad.down);
                let gx = bx.saturating_mul(mul_x);
                let gy = by.saturating_mul(mul_y);
                let gx_max = gx.raw == 127 || gx.raw == -128;
                let gy_max = gy.raw == 127 || gy.raw == -128;
                let gx_mag: i16 = if gx.raw < 0 { -(gx.raw as i16) } else { gx.raw as i16 };
                let gy_mag: i16 = if gy.raw < 0 { -(gy.raw as i16) } else { gy.raw as i16 };
                if gx.raw != 0 && gy.raw != 0 && !gx_max && !gy_max {
                    if gx_mag > gy_mag {
                        self.x = Frac { raw: if gx.raw > 0 { 127 } else { -128 } };
                        self.y = gy;
                    } else if gy_mag > gx_mag {
                        self.x = gx;
                        self.y = Frac { raw: if gy.raw > 0 { 127 } else { -128 } };
                    } else {
                        self.x = gx;
                        self.y = gy;
                    }
                } else {
                    self.x = gx;
                    self.y = gy;
                }
            }
        }
    }

    /// Advances both coordinates by one precision step.
    pub fn step(&mut self, x_incr: Frac, y_incr: Frac)
        ensures
            final(self).dpad == old(self).dpad,
            final(self).x.raw as int == step_raw(*old(self), x_incr, y_incr).0,
            final(self).y.raw as int == step_raw(*old(self), x_incr, y_incr).1,
    {
        proof {
            reveal(step_raw);
        }
        let d = self.dpad;
        if !d.up && !d.down && !d.left && !d.right {
            self.x = Frac { raw: 0 };
            self.y = Frac { raw: 0 };
        } else {
            let bx = axis_base_frac(d.left, d.right);
            let by = axis_base_frac(d.up, d.down);
            let x1 = if self.y.raw == 0 {
                bx
            } else {
                self.x.saturating_add(bx.saturating_mul(x_incr))
            };
            let y1 = if self.x.raw == 0 {
                by
            } else {
                self.y.saturating_add(by.saturating_mul(y_incr))
            };
            self.x = x1;
            self.y = y1;
        }
    }
}

impl Default for JoyStickState {
    /// The rest stick: released pad, both coordinates zero.
    fn default() -> (r: JoyStickState)
        ensures
            r.dpad == DPadState::spec_rest(),
            r.x.raw == 0,
            r.y.raw == 0,
    {
        JoyStickState { dpad: DPadState::default(), x: Frac { raw: 0 }, y: Frac { raw: 0 } }
    }
}

} // verus!
