//! The resolved configuration the core consumes: a bindings table assigning
//! one physical key code to each logical control role, and the tunable
//! fixed-point constants of the analog resolver. Keys are plain Linux input
//! event codes; loading and persisting a configuration file is the wiring's
//! concern, not the core's.

pub use crate::dir8::Dir8;
use crate::frac::Frac;
use crate::state::TABLE_SIZE;
use vstd::prelude::*;

verus! {

// Linux input event codes of the keys bound by default.
pub const KEY_Q: u16 = 16;
pub const KEY_W: u16 = 17;
pub const KEY_E: u16 = 18;
pub const KEY_T: u16 = 20;
pub const KEY_I: u16 = 23;
pub const KEY_O: u16 = 24;
pub const KEY_A: u16 = 30;
pub const KEY_S: u16 = 31;
pub const KEY_D: u16 = 32;
pub const KEY_H: u16 = 35;
pub const KEY_J: u16 = 36;
pub const KEY_K: u16 = 37;
pub const KEY_L: u16 = 38;
pub const KEY_LEFTSHIFT: u16 = 42;
pub const KEY_Z: u16 = 44;
pub const KEY_C: u16 = 46;
pub const KEY_B: u16 = 48;
pub const KEY_N: u16 = 49;
pub const KEY_M: u16 = 50;
pub const KEY_SLASH: u16 = 53;
pub const KEY_LEFTALT: u16 = 56;
pub const KEY_SPACE: u16 = 57;
pub const KEY_UP: u16 = 103;
pub const KEY_LEFT: u16 = 105;
pub const KEY_RIGHT: u16 = 106;
pub const KEY_DOWN: u16 = 108;

// Default resolver constants, in raw 1/128 steps.
/// Precision-mode increment of the dominant axis: 50/128, close to 0.39.
pub const DEFAULT_MOD1_INCR: i8 = 50;
/// Precision-mode increment of the secondary axis of a diagonal: 40/128,
/// close to 0.31.
pub const DEFAULT_MOD1_AROUND_Y: i8 = 40;
/// Tilt attenuation of either control-stick axis: 48/128.
pub const DEFAULT_MOD2_MUL: i8 = 48;
/// Reduced trigger depth under the precision modifier: 64/128, close to the
/// half of the full range.
pub const DEFAULT_MOD1_TRIGGER_MUL: i8 = 64;

/// Key binds of one four-direction pad.
#[derive(Clone, Copy, Debug, PartialEq, Eq, Structural)]
pub struct DPadBinds {
    pub up: u16,
    pub down: u16,
    pub left: u16,
    pub right: u16,
}

/// Key binds of an eight-direction pad: the four cardinals and one key per
/// diagonal.
#[derive(Clone, Copy, Debug, PartialEq, Eq, Structural)]
pub struct DPad8Binds {
    pub upleft: u16,
    pub up: u16,
    pub upright: u16,
    pub downleft: u16,
    pub down: u16,
    pub downright: u16,
    pub left: u16,
    pub right: u16,
}

/// One physical key code per logical control role.
#[derive(Clone, Copy, Debug, PartialEq, Eq, Structural)]
pub struct Binds {
    pub a: u16,
    pub b: u16,
    pub z: u16,
    pub x: u16,
    pub y: u16,
    pub l: u16,
    pub r: u16,
    pub start: u16,
    pub mod1: u16,
    pub mod2: u16,
    pub control_stick: DPad8Binds,
    pub c_stick: DPadBinds,
    pub dpad: DPadBinds,
}

/// The resolved configuration: the bindings table and the tunable constants
/// of the analog resolver.
#[derive(Clone, Copy, Debug, PartialEq, Eq, Structural)]
pub struct Settings {
    pub binds: Binds,
    /// Precision-mode increment of an axis whose partner axis is off-center.
    pub mod1_incr: Frac,
    /// Precision-mode increment of the secondary axis of a diagonal.
    pub mod1_around_y: Frac,
    /// Tilt attenuation of the horizontal control-stick axis.
    pub mod2_x_mul: Frac,
    /// Tilt attenuation of the vertical control-stick axis.
    pub mod2_y_mul: Frac,
    /// Trigger depth while the precision modifier is held.
    pub mod1_trigger_mul: Frac,
}

impl Binds {
    /// The default key layout.
    pub open spec fn spec_default() -> Binds {
        Binds {
            a: KEY_J,
            b: KEY_K,
            z: KEY_L,
            x: KEY_SPACE,
            y: KEY_LEFTALT,
            start: KEY_T,
            l: KEY_I,
            r: KEY_O,
            mod1: KEY_LEFTSHIFT,
            mod2: KEY_SLASH,
            control_stick: DPad8Binds {
                up: KEY_W,
                upleft: KEY_Q,
                upright: KEY_E,
                down: KEY_S,
                downleft: KEY_Z,
                downright: KEY_C,
                left: KEY_A,
                right: KEY_D,
            },
            c_stick: DPadBinds {
                up: KEY_H,
                down: KEY_N,
                left: KEY_B as u16,
                right: KEY_M,
            },
            dpad: DPadBinds {
                up: KEY_UP,
                down: KEY_DOWN,
                left: KEY_LEFT,
                right: KEY_RIGHT,
            },
        }
    }
}

impl Default for Binds {
    /// The default key layout.
    fn default() -> (r: Binds)
        ensures
            r == Binds::spec_default(),
    {
        Binds {
            a: KEY_J,
            b: KEY_K,
            z: KEY_L,
            x: KEY_SPACE,
            y: KEY_LEFTALT,
            start: KEY_T,
            l: KEY_I,
            r: KEY_O,
            mod1: KEY_LEFTSHIFT,
            mod2: KEY_SLASH,
            control_stick: DPad8Binds {
                up: KEY_W,
                upleft: KEY_Q,
                upright: KEY_E,
                down: KEY_S,
                downleft: KEY_Z,
                downright: KEY_C,
                left: KEY_A,
                right: KEY_D,
            },
            c_stick: DPadBinds { up: KEY_H, down: KEY_N, left: KEY_B, right: KEY_M },
            dpad: DPadBinds { up: KEY_UP, down: KEY_DOWN, left: KEY_LEFT, right: KEY_RIGHT },
        }
    }
}

impl Settings {
    /// The default configuration: default binds and default constants.
    pub open spec fn spec_default() -> Settings {
        Settings {
            binds: Binds::spec_default(),
            mod1_incr: Frac { raw: DEFAULT_MOD1_INCR },
            mod1_around_y: Frac { raw: DEFAULT_MOD1_AROUND_Y },
            mod2_x_mul: Frac { raw: DEFAULT_MOD2_MUL },
            mod2_y_mul: Frac { raw: DEFAULT_MOD2_MUL },
            mod1_trigger_mul: Frac { raw: DEFAULT_MOD1_TRIGGER_MUL },
        }
    }
}

impl Default for Settings {
    /// The default configuration: default binds and default constants.
    fn default() -> (r: Settings)
        ensures
            r == Settings::spec_default(),
    {
        Settings {
            binds: Binds::default(),
            mod1_incr: Frac { raw: DEFAULT_MOD1_INCR },
            mod1_around_y: Frac { raw: DEFAULT_MOD1_AROUND_Y },
            mod2_x_mul: Frac { raw: DEFAULT_MOD2_MUL },
            mod2_y_mul: Frac { raw: DEFAULT_MOD2_MUL },
            mod1_trigger_mul: Frac { raw: DEFAULT_MOD1_TRIGGER_MUL },
        }
    }
}

/// A set of directional binds that can classify a key code as one of the
/// compass directions it binds.
pub trait DirectionalBinds {
    /// The direction a key code maps to, if any.
    spec fn dir_spec(&self, key: u16) -> Option<Dir8>;

    /// Looks a key code up among the directional binds.
    fn dir(&self, key: u16) -> (r: Option<Dir8>)
        ensures
            r == self.dir_spec(key),
    ;
}

impl DirectionalBinds for DPad8Binds {
    open spec fn dir_spec(&self, key: u16) -> Option<Dir8> {
        if key == self.up {
            Option::Some(Dir8::N)
        } else if key == self.upleft {
            Option::Some(Dir8::NW)
        } else if key == self.upright {
            Option::Some(Dir8::NE)
        } else if key == self.down {
            Option::Some(Dir8::S)
        } else if key == self.downleft {
            Option::Some(Dir8::SW)
        } else if key == self.downright {
            Option::Some(Dir8::SE)
        } else if key == self.left {
            Option::Some(Dir8::W)
        } else if key == self.right {
            Option::Some(Dir8::E)
        } else {
            Option::None
        }
    }

    fn dir(&self, key: u16) -> (r: Option<Dir8>) {
        if key == self.up {
            Option::Some(Dir8::N)
        } else if key == self.upleft {
            Option::Some(Dir8::NW)
        } else if key == self.upright {
            Option::Some(Dir8::NE)
        } else if key == self.down {
            Option::Some(Dir8::S)
        } else if key == self.downleft {
            Option::Some(Dir8::SW)
        } else if key == self.downright {
            Option::Some(Dir8::SE)
        } else if key == self.left {
            Option::Some(Dir8::W)
        } else if key == self.right {
            Option::Some(Dir8::E)
        } else {
            Option::None
        }
    }
}

impl DirectionalBinds for DPadBinds {
    open spec fn dir_spec(&self, key: u16) -> Option<Dir8> {
        if key == self.up {
            Option::Some(Dir8::N)
        } else if key == self.down {
            Option::Some(Dir8::S)
        } else if key == self.left {
            Option::Some(Dir8::W)
        } else if key == self.right {
            Option::Some(Dir8::E)
        } else {
            Option::None
        }
    }

    fn dir(&self, key: u16) -> (r: Option<Dir8>) {
        if key == self.up {
            Option::Some(Dir8::N)
        } else if key == self.down {
            Option::Some(Dir8::S)
        } else if key == self.left {
            Option::Some(Dir8::W)
        } else if key == self.right {
            Option::Some(Dir8::E)
        } else {
            Option::None
        }
    }
}

} // verus!

verus! {

impl Binds {
    /// Every bound key code lies inside the dispatch table's code space.
    pub open spec fn wf(self) -> bool {
        self.a < TABLE_SIZE && self.b < TABLE_SIZE
            && self.z < TABLE_SIZE && self.x < TABLE_SIZE
            && self.y < TABLE_SIZE && self.l < TABLE_SIZE
            && self.r < TABLE_SIZE && self.start < TABLE_SIZE
            && self.mod1 < TABLE_SIZE && self.mod2 < TABLE_SIZE
            && self.control_stick.up < TABLE_SIZE
            && self.control_stick.down < TABLE_SIZE
            && self.control_stick.left < TABLE_SIZE
            && self.control_stick.right < TABLE_SIZE
            && self.control_stick.upleft < TABLE_SIZE
            && self.control_stick.upright < TABLE_SIZE
            && self.control_stick.downleft < TABLE_SIZE
            && self.control_stick.downright < TABLE_SIZE
            && self.c_stick.up < TABLE_SIZE
            && self.c_stick.down < TABLE_SIZE
            && self.c_stick.left < TABLE_SIZE
            && self.c_stick.right < TABLE_SIZE
            && self.dpad.up < TABLE_SIZE
            && self.dpad.down < TABLE_SIZE
            && self.dpad.left < TABLE_SIZE
            && self.dpad.right < TABLE_SIZE
    }

    /// Checks at run time that every bound key code lies inside the
    /// dispatch table's code space, as a loaded configuration may not.
    pub fn check_wf(&self) -> (r: bool)
        ensures
            r == self.wf(),
    {
        self.a < TABLE_SIZE && self.b < TABLE_SIZE
            && self.z < TABLE_SIZE && self.x < TABLE_SIZE
            && self.y < TABLE_SIZE && self.l < TABLE_SIZE
            && self.r < TABLE_SIZE && self.start < TABLE_SIZE
            && self.mod1 < TABLE_SIZE && self.mod2 < TABLE_SIZE
            && self.control_stick.up < TABLE_SIZE
            && self.control_stick.down < TABLE_SIZE
            && self.control_stick.left < TABLE_SIZE
            && self.control_stick.right < TABLE_SIZE
            && self.control_stick.upleft < TABLE_SIZE
            && self.control_stick.upright < TABLE_SIZE
            && self.control_stick.downleft < TABLE_SIZE
            && self.control_stick.downright < TABLE_SIZE
            && self.c_stick.up < TABLE_SIZE
            && self.c_stick.down < TABLE_SIZE
            && self.c_stick.left < TABLE_SIZE
            && self.c_stick.right < TABLE_SIZE
            && self.dpad.up < TABLE_SIZE
            && self.dpad.down < TABLE_SIZE
            && self.dpad.left < TABLE_SIZE
            && self.dpad.right < TABLE_SIZE
    }
}

} // verus!
