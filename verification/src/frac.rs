//! Signed fixed-point fractions with 7 fractional bits, the numeric type of
//! every analog coordinate and trigger depth in this crate. A `Frac` holds a
//! raw count of 1/128 steps in an `i8`, so the represented value `raw / 128`
//! covers [-1.0, 127/128]. All arithmetic saturates into that range; nothing
//! here overflows, wraps or panics.

use vstd::arithmetic::div_mod::{
    lemma_fundamental_div_mod_converse, lemma_fundamental_div_mod,
};
use vstd::prelude::*;

verus! {

/// A fraction in [-1.0, 127/128] stored as `raw` 1/128 steps.
#[derive(Clone, Copy, Debug, PartialEq, Eq, Structural)]
pub struct Frac {
    pub raw: i8,
}

/// The fraction with the given raw value; meaningful for values already in
/// the raw range.
pub open spec fn as_frac(v: int) -> Frac {
    Frac { raw: v as i8 }
}

/// Clamps a mathematical integer into the representable raw range.
pub open spec fn sat_raw(v: int) -> int {
    if v > 127 {
        127
    } else if v < -128 {
        -128
    } else {
        v
    }
}

/// Raw value of the saturating sum of two fractions.
pub open spec fn sat_add_raw(a: int, b: int) -> int {
    sat_raw(a + b)
}

/// Raw value of the saturating product of two fractions: the exact product
/// `(a/128) * (b/128)` has raw numerator `a * b / 128`, rounded toward
/// negative infinity as a binary arithmetic shift would, then clamped.
pub open spec fn sat_mul_raw(a: int, b: int) -> int {
    sat_raw((a * b) / 128)
}

impl Frac {
    /// The rest value 0.0.
    pub fn zero() -> (r: Frac)
        ensures
            r.raw == 0,
    {
        Frac { raw: 0 }
    }

    /// The largest representable deflection, 127/128 (full positive).
    pub fn max_val() -> (r: Frac)
        ensures
            r.raw == 127,
    {
        Frac { raw: 127 }
    }

    /// The most negative representable deflection, -1.0 (full negative).
    pub fn min_val() -> (r: Frac)
        ensures
            r.raw == -128,
    {
        Frac { raw: -128 }
    }

    /// Saturating addition.
    pub fn saturating_add(self, other: Frac) -> (r: Frac)
        ensures
            r.raw as int == sat_add_raw(self.raw as int, other.raw as int),
    {
        let s: i16 = self.raw as i16 + other.raw as i16;
        if s > 127 {
            Frac { raw: 127 }
        } else if s < -128 {
            Frac { raw: -128 }
        } else {
            Frac { raw: s as i8 }
        }
    }

    /// Saturating multiplication, rounding the exact product toward negative
    /// infinity. Only `-1.0 * -1.0` falls outside the range and saturates.
    pub fn saturating_mul(self, other: Frac) -> (r: Frac)
        ensures
            r.raw as int == sat_mul_raw(self.raw as int, other.raw as int),
    {
        let a: i32 = self.raw as i32;
        let b: i32 = other.raw as i32;
        let am: u32 = if a < 0 { (-a) as u32 } else { a as u32 };
        let bm: u32 = if b < 0 { (-b) as u32 } else { b as u32 };
        proof {
            assert(am * bm <= 128 * 128) by (nonlinear_arith)
                requires am <= 128 && bm <= 128;
        }
        let m: u32 = am * bm;
        let q: i32 = if (a < 0) == (b < 0) {
            proof {
                assert(a * b == am * bm) by (nonlinear_arith)
                    requires
                        (a < 0 <==> b < 0) && (a < 0 ==> am == -a && bm == -b)
                            && (a >= 0 ==> am == a && bm == b);
            }
            (m / 128) as i32
        } else {
            proof {
                assert(a * b == -(am * bm)) by (nonlinear_arith)
                    requires
                        (a < 0 <==> b >= 0) && (a < 0 ==> am == -a && bm == b)
                            && (a >= 0 ==> am == a && bm == -b);
                lemma_fundamental_div_mod(m + 127, 128);
                lemma_fundamental_div_mod_converse(
                    -(m as int),
                    128,
                    -((m + 127) / 128 as int),
                    127 - ((m + 127) % 128 as int),
                );
            }
            -(((m + 127) / 128) as i32)
        };
        if q > 127 {
            Frac { raw: 127 }
        } else if q < -128 {
            Frac { raw: -128 }
        } else {
            Frac { raw: q as i8 }
        }
    }
}

} // verus!

