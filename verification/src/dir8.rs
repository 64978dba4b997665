//! The eight compass directions a directional bind can map to.

use vstd::prelude::*;

verus! {

/// A compass direction: the four cardinals and the four diagonals.
#[derive(Clone, Copy, Debug, PartialEq, Eq, Structural)]
pub enum Dir8 {
    NW,
    N,
    NE,
    W,
    E,
    SW,
    S,
    SE,
}

} // verus!
