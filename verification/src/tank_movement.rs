//! Tank-style movement: two keys turn the hull, two keys drive it forward and
//! backward along its heading, and the play field wraps at its edges.

use crate::keyboard::{key_axis, pressed_keys, read_axis};
use crate::rotation::Rotation;
use crate::transform::Transform;
use crate::units::{
    advanced, integrate, integrated, lemma_integrated_within_cap, turned, TURN, UNIT,
};
use crate::world::{Entity, World};
use bevy::input::keyboard::KeyCode;
use bevy::input::ButtonInput;
use vstd::prelude::*;

verus! {

/// Width, in world units, of the band beyond each pair of opposite edges of
/// the viewport that still belongs to the play field, so that an entity has
/// left the picture before it reappears on the other side.
pub const WRAP_MARGIN: u32 = 256;

/// The net value of the hull's throttle axis when `keys` are pressed: W drives
/// forward, S backward.
pub open spec fn forward_axis(keys: Set<KeyCode>) -> int {
    key_axis(keys, KeyCode::KeyW, KeyCode::KeyS)
}

/// The net value of the hull's turning axis when `keys` are pressed: A turns
/// counter-clockwise, D clockwise.
pub open spec fn rotation_axis(keys: Set<KeyCode>) -> int {
    key_axis(keys, KeyCode::KeyA, KeyCode::KeyD)
}

/// Driving state of a hull.
#[derive(Clone, Copy, Debug, PartialEq, Eq)]
pub struct TankMovementController {
    /// The throttle intent, from -1 to 1. Positive drives forward.
    pub forward_intent: i8,
    /// The turning intent, from -1 to 1. Positive turns counter-clockwise.
    pub rotation_intent: i8,
    /// Top speed in world units per second.
    pub max_speed: u32,
    /// Turning speed in thousandths of a degree per second.
    pub rotation_speed: u32,
}

impl TankMovementController {
    /// Both intents are valid intents and both speeds are positive.
    pub open spec fn wf(self) -> bool {
        &&& -1 <= self.forward_intent <= 1
        &&& -1 <= self.rotation_intent <= 1
        &&& self.max_speed > 0
        &&& self.rotation_speed > 0
    }

    /// This controller after the keyboard was recorded with `keys` pressed.
    pub open spec fn recorded(self, keys: Set<KeyCode>) -> TankMovementController {
        TankMovementController {
            forward_intent: forward_axis(keys) as i8,
            rotation_intent: rotation_axis(keys) as i8,
            ..self
        }
    }

    /// `transform` after this controller turned it for `dt`.
    pub open spec fn turned(self, transform: Transform, dt: u32) -> Transform {
        transform.rotated(
            integrated(self.rotation_intent as int, self.rotation_speed as int, dt as int),
        )
    }

    /// `transform` after this controller drove it for `dt` along the forward
    /// axis as turned by `rotation`. Without throttle nothing moves.
    pub open spec fn driven(self, transform: Transform, dt: u32, rotation: Rotation) -> Transform {
        if self.forward_intent != 0 {
            transform.translated(
                rotation,
                integrated(self.forward_intent as int, self.max_speed as int, dt as int),
            )
        } else {
            transform
        }
    }

    /// `transform` after one frame of `dt`: turned first, then driven along
    /// `rotation`.
    pub open spec fn moved(self, transform: Transform, dt: u32, rotation: Rotation) -> Transform {
        self.driven(self.turned(transform, dt), dt, rotation)
    }

    /// The orientation whose rotation a frame of `dt` needs from the compass:
    /// the one that `transform` has after turning, if there is throttle.
    pub open spec fn heading_sought(self, transform: Transform, dt: u32) -> Option<u64> {
        if self.forward_intent != 0 {
            Some(self.turned(transform, dt).angle)
        } else {
            None
        }
    }

    /// Whether `after` is `before` moved by one frame of `dt`, with the
    /// rotation that `compass` gave for the orientation after turning.
    pub open spec fn integrates<F: Fn(u64) -> Rotation>(
        self,
        before: Transform,
        after: Transform,
        dt: u32,
        compass: F,
    ) -> bool {
        exists|rotation: Rotation|
            {
                &&& self.heading_sought(before, dt) matches Some(angle) ==> rotation.is_unit()
                    && call_ensures(compass, (angle,), rotation)
                &&& after == #[trigger] self.moved(before, dt, rotation)
            }
    }

    /// Within one frame a hull turns before it drives. The rotation that the
    /// frame needs from the compass belongs to the orientation after turning,
    /// not to the one before; the hull ends with that orientation, and at the
    /// position reached from where it was along that rotation.
    pub proof fn lemma_turns_before_driving(self, transform: Transform, dt: u32, rotation: Rotation)
        requires
            self.forward_intent != 0,
        ensures
            self.moved(transform, dt, rotation).angle == turned(
                transform.angle as int,
                integrated(self.rotation_intent as int, self.rotation_speed as int, dt as int),
            ),
            self.heading_sought(transform, dt) == Some(self.moved(transform, dt, rotation).angle),
            self.moved(transform, dt, rotation).x == advanced(
                transform.x as int,
                rotation.forward_x(),
                integrated(self.forward_intent as int, self.max_speed as int, dt as int),
            ),
            self.moved(transform, dt, rotation).y == advanced(
                transform.y as int,
                rotation.forward_y(),
                integrated(self.forward_intent as int, self.max_speed as int, dt as int),
            ),
    {
    }

    /// However a valid throttle intent was produced, driving moves a hull
    /// along each axis by no more than its top speed allows over the elapsed
    /// time, and changes neither its draw order nor its orientation.
    pub proof fn lemma_driven_within_cap(self, transform: Transform, dt: u32, rotation: Rotation)
        requires
            -1 <= self.forward_intent <= 1,
            rotation.is_unit(),
        ensures
            -(self.max_speed * dt) <= self.driven(transform, dt, rotation).x - transform.x
                <= self.max_speed * dt,
            -(self.max_speed * dt) <= self.driven(transform, dt, rotation).y - transform.y
                <= self.max_speed * dt,
            self.driven(transform, dt, rotation).z == transform.z,
            self.driven(transform, dt, rotation).angle == transform.angle,
    {
        let cap: int = self.max_speed * dt;
        let distance: int = integrated(
            self.forward_intent as int,
            self.max_speed as int,
            dt as int,
        );
        lemma_integrated_within_cap(self.forward_intent as int, self.max_speed as nat, dt as nat);
        let x: int = rotation.forward_x();
        let y: int = rotation.forward_y();
        assert(-UNIT * cap <= x * distance <= UNIT * cap) by (nonlinear_arith)
            requires
                -UNIT <= x <= UNIT,
                -cap <= distance <= cap,
        ;
        assert(-UNIT * cap <= y * distance <= UNIT * cap) by (nonlinear_arith)
            requires
                -UNIT <= y <= UNIT,
                -cap <= distance <= cap,
        ;
    }

    /// Turns `transform` by the turning intent at the turning speed for `dt`
    /// microseconds.
    pub fn turn(&self, transform: &mut Transform, dt: u32)
        ensures
            *final(transform) == self.turned(*old(transform), dt),
            final(transform).wf(),
    {
        transform.rotate_z(integrate(self.rotation_intent, self.rotation_speed, dt));
    }

    /// Drives `transform` by the throttle intent at top speed for `dt`
    /// microseconds, along the forward axis as turned by `rotation`.
    pub fn drive(&self, transform: &mut Transform, dt: u32, rotation: &Rotation)
        ensures
            *final(transform) == self.driven(*old(transform), dt, *rotation),
    {
        if self.forward_intent != 0 {
            transform.translate(rotation, integrate(self.forward_intent, self.max_speed, dt));
        }
    }

    /// Moves `transform` by one frame of `dt` microseconds: turns it, then, if
    /// there is throttle, asks `compass` for the rotation of the orientation
    /// it has now and drives along it.
    pub fn integrate<F: Fn(u64) -> Rotation>(&self, transform: &mut Transform, dt: u32, compass: &F)
        requires
            forall|angle: u64| angle < TURN ==> call_requires(*compass, (angle,)),
        ensures
            self.integrates(*old(transform), *final(transform), dt, *compass),
            final(transform).wf(),
    {
        self.turn(transform, dt);
        if self.forward_intent != 0 {
            let rotation = compass(transform.angle);
            proof {
                use_type_invariant(&rotation);
            }
            self.drive(transform, dt, &rotation);
            assert(*transform == self.moved(*old(transform), dt, rotation));
        } else {
            assert(*transform == self.moved(*old(transform), dt, arbitrary()));
        }
    }
}

impl Default for TankMovementController {
    /// A hull at rest with a top speed of 400 world units per second that
    /// turns at 180 degrees per second.
    fn default() -> (controller: TankMovementController)
        ensures
            controller == (TankMovementController {
                forward_intent: 0,
                rotation_intent: 0,
                max_speed: 400,
                rotation_speed: 180_000,
            }),
            controller.wf(),
    {
        TankMovementController {
            forward_intent: 0,
            rotation_intent: 0,
            max_speed: 400,
            rotation_speed: 180_000,
        }
    }
}

/// Marks an entity that wraps round the edges of the play field.
#[derive(Clone, Copy, Debug, PartialEq, Eq)]
pub struct ScreenWrap;

/// Size of the viewport in whole world units.
#[derive(Clone, Copy, Debug, PartialEq, Eq)]
pub struct Viewport {
    pub width: u32,
    pub height: u32,
}

/// The size of the play field along an axis on which the viewport measures
/// `extent`, in position subunits: the viewport and the margin.
pub open spec fn domain(extent: u32) -> int {
    (extent + WRAP_MARGIN) * UNIT
}

/// Computes the size of the play field along an axis on which the viewport
/// measures `extent`.
pub fn domain_size(extent: u32) -> (size: u64)
    ensures
        size == domain(extent),
        0 < size <= i64::MAX,
{
    let units: u64 = extent as u64 + WRAP_MARGIN as u64;
    assert(0 < units * UNIT <= 0x1_0000_00FF * UNIT) by (nonlinear_arith)
        requires
            0 < units <= 0x1_0000_00FF,
    ;
    units * (UNIT as u64)
}

impl Entity {
    /// This entity after the hull's keys were recorded with `keys` pressed.
    /// Only a hull controller changes.
    pub open spec fn tank_recorded(self, keys: Set<KeyCode>) -> Entity {
        match self.tank {
            Some(controller) => Entity { tank: Some(controller.recorded(keys)), ..self },
            None => self,
        }
    }

    /// This entity after its hull controller moved its transform by one frame
    /// of `dt`, driving along `rotation`. An entity without a hull controller
    /// or without a transform stays as it is.
    pub open spec fn hull_moved(self, dt: u32, rotation: Rotation) -> Entity {
        match (self.tank, self.transform) {
            (Some(controller), Some(transform)) => Entity {
                transform: Some(controller.moved(transform, dt, rotation)),
                ..self
            },
            _ => self,
        }
    }

    /// The orientation whose rotation a frame of `dt` needs from the compass
    /// for this entity, if it needs one.
    pub open spec fn heading_sought(self, dt: u32) -> Option<u64> {
        match (self.tank, self.transform) {
            (Some(controller), Some(transform)) => controller.heading_sought(transform, dt),
            _ => None,
        }
    }

    /// Whether `rotation` is a unit vector that `compass` gave for the
    /// orientation that this entity needs, where it needs one.
    pub open spec fn consulted<F: Fn(u64) -> Rotation>(
        self,
        dt: u32,
        compass: F,
        rotation: Rotation,
    ) -> bool {
        self.heading_sought(dt) matches Some(angle) ==> rotation.is_unit() && call_ensures(
            compass,
            (angle,),
            rotation,
        )
    }

    /// Whether `after` is this entity moved by its hull controller for one
    /// frame of `dt`, with the rotation that `compass` gave.
    pub open spec fn hull_integrated<F: Fn(u64) -> Rotation>(
        self,
        after: Entity,
        dt: u32,
        compass: F,
    ) -> bool {
        exists|rotation: Rotation| #[trigger]
            self.consulted(dt, compass, rotation) && after == self.hull_moved(dt, rotation)
    }

    /// This entity with its position wrapped into the play field round
    /// `viewport`. Without a viewport, a marker or a transform it stays as it
    /// is.
    pub open spec fn screen_wrapped(self, viewport: Option<Viewport>) -> Entity {
        match (viewport, self.screen_wrap, self.transform) {
            (Some(view), Some(_), Some(transform)) => Entity {
                transform: Some(transform.wrapped(domain(view.width), domain(view.height))),
                ..self
            },
            _ => self,
        }
    }

    /// Whether the wrapper has nothing to correct on this entity: it lacks a
    /// marker or a transform, there is no viewport, or its position lies in
    /// the play field round `viewport`.
    pub open spec fn settled(self, viewport: Option<Viewport>) -> bool {
        match (viewport, self.screen_wrap, self.transform) {
            (Some(view), Some(_), Some(transform)) => transform.inside(
                domain(view.width),
                domain(view.height),
            ),
            _ => true,
        }
    }

    /// After wrapping, a marked entity lies in the play field, whatever its
    /// position was; and on an entity with nothing to correct, and whenever
    /// there is no viewport, wrapping changes nothing. Wrapping is about
    /// position alone: orientation, draw order and controllers stay.
    pub proof fn lemma_screen_wrapped_settles(self, viewport: Option<Viewport>)
        ensures
            self.screen_wrapped(viewport).settled(viewport),
            self.settled(viewport) ==> self.screen_wrapped(viewport) == self,
            viewport.is_none() ==> self.screen_wrapped(viewport) == self,
            self.screen_wrapped(viewport) == (Entity {
                transform: self.screen_wrapped(viewport).transform,
                ..self
            }),
            self.transform matches Some(transform) ==> {
                &&& self.screen_wrapped(viewport).transform.is_some()
                &&& self.screen_wrapped(viewport).transform->0.angle == transform.angle
                &&& self.screen_wrapped(viewport).transform->0.z == transform.z
            },
    {
        match (viewport, self.screen_wrap, self.transform) {
            (Some(view), Some(_), Some(transform)) => {
                transform.lemma_wrapped_inside(domain(view.width), domain(view.height));
            },
            _ => {},
        }
    }

    /// A hull whose intents are both zero is left where it is and facing as
    /// it does, for any elapsed time and whatever the compass says.
    pub proof fn lemma_resting_hull_stays(self, dt: u32, rotation: Rotation)
        requires
            self.transform matches Some(transform) ==> transform.wf(),
            self.tank matches Some(controller) ==> controller.forward_intent == 0
                && controller.rotation_intent == 0,
        ensures
            self.hull_moved(dt, rotation) == self,
    {
        match (self.tank, self.transform) {
            (Some(controller), Some(transform)) => {
                lemma_integrated_within_cap(0, controller.rotation_speed as nat, dt as nat);
            },
            _ => {},
        }
    }
}

/// Records the hull's keys: reads the throttle and turning axes once and
/// overwrites the intents of every hull controller with them, so a hull
/// without input this frame is told to rest.
pub fn record_tank_input(input: &ButtonInput<KeyCode>, world: &mut World)
    ensures
        final(world)@.len() == old(world)@.len(),
        forall|i: int|
            0 <= i < old(world)@.len() ==> #[trigger] final(world)@[i] == old(
                world,
            )@[i].tank_recorded(pressed_keys(*input)),
{
    let forward_intent: i8 = read_axis(input, KeyCode::KeyW, KeyCode::KeyS);
    let rotation_intent: i8 = read_axis(input, KeyCode::KeyA, KeyCode::KeyD);
    let count: usize = world.entities.len();
    let mut index: usize = 0;
    while index < count
        invariant
            index <= count,
            count == world@.len(),
            count == old(world)@.len(),
            forward_intent == forward_axis(pressed_keys(*input)),
            rotation_intent == rotation_axis(pressed_keys(*input)),
            forall|i: int|
                0 <= i < index ==> #[trigger] world@[i] == old(world)@[i].tank_recorded(
                    pressed_keys(*input),
                ),
            forall|i: int| index <= i < count ==> #[trigger] world@[i] == old(world)@[i],
        decreases count - index,
    {
        if let Some(controller) = &mut world.entities[index].tank {
            controller.forward_intent = forward_intent;
            controller.rotation_intent = rotation_intent;
        }
        index = index + 1;
    }
}

/// Moves every hull by one frame of `dt` microseconds: each entity with a hull
/// controller and a transform is turned and then driven along the heading it
/// has after turning, which `compass` turns into a rotation.
pub fn apply_tank_movement<F: Fn(u64) -> Rotation>(dt: u32, world: &mut World, compass: &F)
    requires
        forall|angle: u64| angle < TURN ==> call_requires(*compass, (angle,)),
    ensures
        final(world)@.len() == old(world)@.len(),
        forall|i: int|
            0 <= i < old(world)@.len() ==> old(world)@[i].hull_integrated(
                #[trigger] final(world)@[i],
                dt,
                *compass,
            ),
{
    let count: usize = world.entities.len();
    let mut index: usize = 0;
    while index < count
        invariant
            index <= count,
            count == world@.len(),
            count == old(world)@.len(),
            forall|angle: u64| angle < TURN ==> call_requires(*compass, (angle,)),
            forall|i: int|
                0 <= i < index ==> old(world)@[i].hull_integrated(
                    #[trigger] world@[i],
                    dt,
                    *compass,
                ),
            forall|i: int| index <= i < count ==> #[trigger] world@[i] == old(world)@[i],
        decreases count - index,
    {
        let ghost before = world@[index as int];
        let entity = &mut world.entities[index];
        if let Some(controller) = entity.tank {
            if let Some(transform) = &mut entity.transform {
                controller.integrate(transform, dt, compass);
            }
        }
        proof {
            let after = world@[index as int];
            match (before.tank, before.transform) {
                (Some(controller), Some(transform)) => {
                    let rotation = choose|rotation: Rotation|
                        {
                            &&& controller.heading_sought(transform, dt) matches Some(angle)
                                ==> rotation.is_unit() && call_ensures(
                                *compass,
                                (angle,),
                                rotation,
                            )
                            &&& after.transform->0 == #[trigger] controller.moved(
                                transform,
                                dt,
                                rotation,
                            )
                        };
                    assert(before.consulted(dt, *compass, rotation));
                },
                _ => {
                    let rotation: Rotation = arbitrary();
                    assert(before.consulted(dt, *compass, rotation));
                },
            }
        }
        index = index + 1;
    }
}

/// Wraps every marked entity into the play field round `viewport`, so that one
/// that leaves by an edge comes back in by the opposite edge. Without a
/// viewport nothing is changed.
pub fn apply_screen_wrap(viewport: Option<Viewport>, world: &mut World)
    ensures
        final(world)@.len() == old(world)@.len(),
        forall|i: int|
            0 <= i < old(world)@.len() ==> #[trigger] final(world)@[i] == old(
                world,
            )@[i].screen_wrapped(viewport),
        viewport.is_none() ==> final(world)@ == old(world)@,
        forall|i: int|
            0 <= i < old(world)@.len() ==> (#[trigger] final(world)@[i]).settled(viewport),
{
    proof {
        assert forall|i: int| 0 <= i < old(world)@.len() implies (#[trigger] old(
            world,
        )@[i]).screen_wrapped(viewport).settled(viewport) by {
            old(world)@[i].lemma_screen_wrapped_settles(viewport);
        }
    }
    if let Some(view) = viewport {
        let width: u64 = domain_size(view.width);
        let height: u64 = domain_size(view.height);
        let count: usize = world.entities.len();
        let mut index: usize = 0;
        while index < count
            invariant
                index <= count,
                count == world@.len(),
                count == old(world)@.len(),
                viewport == Some(view),
                width == domain(view.width),
                height == domain(view.height),
                forall|i: int|
                    0 <= i < index ==> #[trigger] world@[i] == old(world)@[i].screen_wrapped(
                        viewport,
                    ),
                forall|i: int| index <= i < count ==> #[trigger] world@[i] == old(world)@[i],
            decreases count - index,
        {
            let entity = &mut world.entities[index];
            if entity.screen_wrap.is_some() {
                if let Some(transform) = &mut entity.transform {
                    transform.wrap(width, height);
                }
            }
            index = index + 1;
        }
    }
}

} // verus!
