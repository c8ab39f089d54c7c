//! Rotations of the plane as fixed-point unit vectors.
//!
//! Sines and cosines are not integer functions, so the library does not
//! compute them. Whoever drives the simulation supplies a compass: a function
//! from an orientation to its [`Rotation`]. A rotation can only be made of a
//! unit vector, within rounding, and the library does the rest exactly.

use crate::units::{quotient, trunc_div, UNIT};
use vstd::prelude::*;

verus! {

/// How far the squared length of a rotation may lie from `UNIT * UNIT`. It
/// admits a cosine and a sine that were each rounded or truncated to an
/// integer.
pub const NORM_SLACK: i64 = 3_000_000;

/// First component of the local axis along which a hull drives forward. The
/// sprite of a hull is drawn facing its local +X, so forward is +X; changing
/// the axis turns every hull's motion with it.
pub const FORWARD_AXIS_X: i64 = 1_000_000;

/// Second component of the local forward axis.
pub const FORWARD_AXIS_Y: i64 = 0;

/// Whether `(cos, sin)`, scaled by [`UNIT`], is a unit vector within rounding.
pub open spec fn is_unit(cos: int, sin: int) -> bool {
    &&& -UNIT <= cos <= UNIT
    &&& -UNIT <= sin <= UNIT
    &&& UNIT * UNIT - NORM_SLACK <= cos * cos + sin * sin <= UNIT * UNIT + NORM_SLACK
}

/// A rotation of the plane, held as its cosine and sine scaled by [`UNIT`].
#[derive(Clone, Copy, Debug, PartialEq, Eq)]
pub struct Rotation {
    cos: i32,
    sin: i32,
}

impl Rotation {
    /// The cosine, scaled by [`UNIT`].
    pub closed spec fn cosine(self) -> int {
        self.cos as int
    }

    /// The sine, scaled by [`UNIT`].
    pub closed spec fn sine(self) -> int {
        self.sin as int
    }

    /// Cosine and sine form a unit vector within rounding. Every rotation
    /// that exists at run time does.
    #[verifier::type_invariant]
    pub open spec fn is_unit(self) -> bool {
        is_unit(self.cosine(), self.sine())
    }

    /// First component of the forward axis turned by this rotation.
    pub open spec fn forward_x(self) -> int {
        trunc_div(self.cosine() * FORWARD_AXIS_X - self.sine() * FORWARD_AXIS_Y, UNIT as int)
    }

    /// Second component of the forward axis turned by this rotation.
    pub open spec fn forward_y(self) -> int {
        trunc_div(self.sine() * FORWARD_AXIS_X + self.cosine() * FORWARD_AXIS_Y, UNIT as int)
    }

    /// Makes a rotation of a cosine and a sine, if they form a unit vector.
    pub fn new(cos: i32, sin: i32) -> (made: Option<Rotation>)
        ensures
            made.is_some() <==> is_unit(cos as int, sin as int),
            made matches Some(rotation) ==> rotation.cosine() == cos && rotation.sine() == sin
                && rotation.is_unit(),
    {
        if cos < -1_000_000 || cos > 1_000_000 || sin < -1_000_000 || sin > 1_000_000 {
            return None;
        }
        assert(0 <= cos * cos <= 1_000_000 * 1_000_000) by (nonlinear_arith)
            requires
                -1_000_000 <= cos <= 1_000_000,
        ;
        assert(0 <= sin * sin <= 1_000_000 * 1_000_000) by (nonlinear_arith)
            requires
                -1_000_000 <= sin <= 1_000_000,
        ;
        let norm: i64 = (cos as i64) * (cos as i64) + (sin as i64) * (sin as i64);
        if UNIT * UNIT - NORM_SLACK <= norm && norm <= UNIT * UNIT + NORM_SLACK {
            Some(Rotation { cos, sin })
        } else {
            None
        }
    }

    /// The cosine, scaled by [`UNIT`].
    pub fn cos(&self) -> (c: i32)
        ensures
            c == self.cosine(),
            -UNIT <= c <= UNIT,
    {
        proof {
            use_type_invariant(self);
        }
        self.cos
    }

    /// The sine, scaled by [`UNIT`].
    pub fn sin(&self) -> (s: i32)
        ensures
            s == self.sine(),
            -UNIT <= s <= UNIT,
    {
        proof {
            use_type_invariant(self);
        }
        self.sin
    }

    /// The forward axis turned by this rotation: the direction in which a hull
    /// with this orientation drives.
    pub fn forward(&self) -> (direction: (i64, i64))
        ensures
            direction.0 == self.forward_x(),
            direction.1 == self.forward_y(),
            -UNIT <= direction.0 <= UNIT,
            -UNIT <= direction.1 <= UNIT,
    {
        let c: i128 = self.cos() as i128;
        let s: i128 = self.sin() as i128;
        let x: i128 = quotient(c * (FORWARD_AXIS_X as i128) - s * (FORWARD_AXIS_Y as i128));
        let y: i128 = quotient(s * (FORWARD_AXIS_X as i128) + c * (FORWARD_AXIS_Y as i128));
        (x as i64, y as i64)
    }
}

} // verus!
