//! Core of a keyboard-to-virtual-gamepad mapper: a dispatch table from key
//! codes to logical controller roles, a direction debouncer that resolves
//! conflicting opposing key holds, and an analog resolver that turns the
//! debounced state and modifier flags into fixed-point stick coordinates and
//! trigger depth. Device I/O and configuration loading live outside the core.

pub mod config;
pub mod dir8;
pub mod dpad;
pub mod frac;
pub mod laws;
pub mod state;

pub use frac::Frac;
