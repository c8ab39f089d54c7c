//! Spatial state of an entity: where it is and which way it faces.

use crate::rotation::Rotation;
use crate::units::{
    advance, advanced, inside, lemma_wrapped_in_domain, turn, turned, wrap_coordinate, wrapped,
    CHANGE_LIMIT, TURN,
};
use vstd::prelude::*;

verus! {

/// Position and orientation. `x` and `y` are the position in the plane, `z`
/// is the draw order and is never changed by the simulation, and `angle` is
/// the rotation about the axis that points out of the plane, counter-clockwise
/// from the +X axis.
#[derive(Clone, Copy, Debug, PartialEq, Eq)]
pub struct Transform {
    pub x: i64,
    pub y: i64,
    pub z: i64,
    pub angle: u64,
}

impl Transform {
    /// The orientation lies within one full turn.
    pub open spec fn wf(self) -> bool {
        self.angle < TURN
    }

    /// This transform turned through `delta`, position untouched.
    pub open spec fn rotated(self, delta: int) -> Transform {
        Transform { angle: turned(self.angle as int, delta) as u64, ..self }
    }

    /// This transform moved by `distance` along the forward axis as turned by
    /// `rotation`, orientation untouched.
    pub open spec fn translated(self, rotation: Rotation, distance: int) -> Transform {
        Transform {
            x: advanced(self.x as int, rotation.forward_x(), distance) as i64,
            y: advanced(self.y as int, rotation.forward_y(), distance) as i64,
            ..self
        }
    }

    /// This transform with its position wrapped into a domain of `width` by
    /// `height` centred on the origin, orientation and draw order untouched.
    pub open spec fn wrapped(self, width: int, height: int) -> Transform {
        Transform {
            x: wrapped(self.x as int, width) as i64,
            y: wrapped(self.y as int, height) as i64,
            ..self
        }
    }

    /// The position lies in the domain of `width` by `height` centred on the
    /// origin.
    pub open spec fn inside(self, width: int, height: int) -> bool {
        inside(self.x as int, width) && inside(self.y as int, height)
    }

    /// A wrapped transform lies in the domain, and one that lay in it already
    /// is not changed by wrapping.
    pub proof fn lemma_wrapped_inside(self, width: int, height: int)
        requires
            0 < width <= u64::MAX,
            0 < height <= u64::MAX,
        ensures
            self.wrapped(width, height).inside(width, height),
            self.inside(width, height) ==> self.wrapped(width, height) == self,
    {
        lemma_wrapped_in_domain(self.x as int, width);
        lemma_wrapped_in_domain(self.y as int, height);
    }

    /// Turns about the out-of-plane axis through `delta`.
    pub fn rotate_z(&mut self, delta: i128)
        ensures
            *final(self) == old(self).rotated(delta as int),
            final(self).wf(),
    {
        self.angle = turn(self.angle, delta);
    }

    /// Moves by `distance` along the forward axis as turned by `rotation`.
    pub(crate) fn translate(&mut self, rotation: &Rotation, distance: i128)
        requires
            -CHANGE_LIMIT <= distance <= CHANGE_LIMIT,
        ensures
            *final(self) == old(self).translated(*rotation, distance as int),
    {
        let direction: (i64, i64) = rotation.forward();
        self.x = advance(self.x, direction.0, distance);
        self.y = advance(self.y, direction.1, distance);
    }

    /// Wraps the position into a domain of `width` by `height` centred on the
    /// origin.
    pub fn wrap(&mut self, width: u64, height: u64)
        requires
            width > 0,
            height > 0,
        ensures
            *final(self) == old(self).wrapped(width as int, height as int),
            final(self).inside(width as int, height as int),
    {
        self.x = wrap_coordinate(self.x, width);
        self.y = wrap_coordinate(self.y, height);
    }
}

} // verus!
