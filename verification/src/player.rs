//! The player's tank: its turret controller and how a tank is put together.

use crate::keyboard::{key_axis, pressed_keys, read_axis};
use crate::tank_movement::{ScreenWrap, TankMovementController};
use crate::transform::Transform;
use crate::units::{integrate, integrated, lemma_integrated_within_cap, turned, QUARTER_TURN};
use crate::world::{Entity, World};
use bevy::input::keyboard::KeyCode;
use bevy::input::ButtonInput;
use vstd::prelude::*;

verus! {

/// The net value of the turret's aiming axis when `keys` are pressed: the left
/// arrow aims counter-clockwise, the right arrow clockwise.
pub open spec fn turret_axis(keys: Set<KeyCode>) -> int {
    key_axis(keys, KeyCode::ArrowLeft, KeyCode::ArrowRight)
}

/// Aiming state of a turret. A turret only turns; it rides on its hull.
#[derive(Clone, Copy, Debug, PartialEq, Eq)]
pub struct TurretController {
    /// The aiming intent, from -1 to 1. Positive turns counter-clockwise.
    pub rotation_intent: i8,
    /// Turning speed in thousandths of a degree per second.
    pub rotation_speed: u32,
}

impl TurretController {
    /// The intent is a valid intent and the speed is positive.
    pub open spec fn wf(self) -> bool {
        &&& -1 <= self.rotation_intent <= 1
        &&& self.rotation_speed > 0
    }

    /// This controller after the keyboard was recorded with `keys` pressed.
    pub open spec fn recorded(self, keys: Set<KeyCode>) -> TurretController {
        TurretController { rotation_intent: turret_axis(keys) as i8, ..self }
    }

    /// `transform` after this controller turned it for `dt`.
    pub open spec fn turned(self, transform: Transform, dt: u32) -> Transform {
        transform.rotated(
            integrated(self.rotation_intent as int, self.rotation_speed as int, dt as int),
        )
    }

    /// Turns `transform` by the intent at the turning speed for `dt`
    /// microseconds.
    pub fn integrate(&self, transform: &mut Transform, dt: u32)
        ensures
            *final(transform) == self.turned(*old(transform), dt),
            final(transform).wf(),
    {
        transform.rotate_z(integrate(self.rotation_intent, self.rotation_speed, dt));
    }
}

impl Default for TurretController {
    /// A turret at rest that turns at 180 degrees per second.
    fn default() -> (controller: TurretController)
        ensures
            controller == (TurretController { rotation_intent: 0, rotation_speed: 180_000 }),
            controller.wf(),
    {
        TurretController { rotation_intent: 0, rotation_speed: 180_000 }
    }
}

impl Entity {
    /// This entity after the turret's keys were recorded with `keys` pressed.
    /// Only a turret controller changes.
    pub open spec fn turret_recorded(self, keys: Set<KeyCode>) -> Entity {
        match self.turret {
            Some(controller) => Entity { turret: Some(controller.recorded(keys)), ..self },
            None => self,
        }
    }

    /// This entity after its turret controller turned its transform for one
    /// frame of `dt`. An entity without a turret controller or without a
    /// transform stays as it is.
    pub open spec fn turret_moved(self, dt: u32) -> Entity {
        match (self.turret, self.transform) {
            (Some(controller), Some(transform)) => Entity {
                transform: Some(controller.turned(transform, dt)),
                ..self
            },
            _ => self,
        }
    }

    /// A turret controller only turns: it moves its entity nowhere, and what
    /// it turns it by is its intent times its speed times the elapsed time.
    pub proof fn lemma_turret_only_turns(self, dt: u32)
        ensures
            self.turret_moved(dt) == (Entity {
                transform: self.turret_moved(dt).transform,
                ..self
            }),
            (self.turret, self.transform) matches (Some(controller), Some(transform)) ==> {
                &&& self.turret_moved(dt).transform == Some(
                    Transform {
                        angle: turned(
                            transform.angle as int,
                            integrated(
                                controller.rotation_intent as int,
                                controller.rotation_speed as int,
                                dt as int,
                            ),
                        ) as u64,
                        ..transform
                    },
                )
            },
    {
    }

    /// A turret whose intent is zero is left facing as it does, for any
    /// elapsed time.
    pub proof fn lemma_resting_turret_stays(self, dt: u32)
        requires
            self.transform matches Some(transform) ==> transform.wf(),
            self.turret matches Some(controller) ==> controller.rotation_intent == 0,
        ensures
            self.turret_moved(dt) == self,
    {
        match (self.turret, self.transform) {
            (Some(controller), Some(transform)) => {
                lemma_integrated_within_cap(0, controller.rotation_speed as nat, dt as nat);
            },
            _ => {},
        }
    }
}

/// Records the turret's keys: reads the aiming axis once and overwrites the
/// intent of every turret controller with it.
pub fn record_turret_input(input: &ButtonInput<KeyCode>, world: &mut World)
    ensures
        final(world)@.len() == old(world)@.len(),
        forall|i: int|
            0 <= i < old(world)@.len() ==> #[trigger] final(world)@[i] == old(
                world,
            )@[i].turret_recorded(pressed_keys(*input)),
{
    let rotation_intent: i8 = read_axis(input, KeyCode::ArrowLeft, KeyCode::ArrowRight);
    let count: usize = world.entities.len();
    let mut index: usize = 0;
    while index < count
        invariant
            index <= count,
            count == world@.len(),
            count == old(world)@.len(),
            rotation_intent == turret_axis(pressed_keys(*input)),
            forall|i: int|
                0 <= i < index ==> #[trigger] world@[i] == old(world)@[i].turret_recorded(
                    pressed_keys(*input),
                ),
            forall|i: int| index <= i < count ==> #[trigger] world@[i] == old(world)@[i],
        decreases count - index,
    {
        if let Some(controller) = &mut world.entities[index].turret {
            controller.rotation_intent = rotation_intent;
        }
        index = index + 1;
    }
}

/// Turns every turret by one frame of `dt` microseconds: each entity with a
/// turret controller and a transform is turned, and nothing is moved.
pub fn apply_turret_movement(dt: u32, world: &mut World)
    ensures
        final(world)@.len() == old(world)@.len(),
        forall|i: int|
            0 <= i < old(world)@.len() ==> #[trigger] final(world)@[i] == old(
                world,
            )@[i].turret_moved(dt),
{
    let count: usize = world.entities.len();
    let mut index: usize = 0;
    while index < count
        invariant
            index <= count,
            count == world@.len(),
            count == old(world)@.len(),
            forall|i: int|
                0 <= i < index ==> #[trigger] world@[i] == old(world)@[i].turret_moved(dt),
            forall|i: int| index <= i < count ==> #[trigger] world@[i] == old(world)@[i],
        decreases count - index,
    {
        let entity = &mut world.entities[index];
        if let Some(controller) = entity.turret {
            if let Some(transform) = &mut entity.transform {
                controller.integrate(transform, dt);
            }
        }
        index = index + 1;
    }
}

/// The turret that sits on top of the hull at index `hull`. It faces a quarter
/// turn from the +X axis and does not wrap by itself: it is carried.
pub fn turret(hull: usize) -> (entity: Entity)
    ensures
        entity == (Entity {
            transform: Some(Transform { x: 0, y: 0, z: 0, angle: QUARTER_TURN }),
            tank: None,
            turret: Some(TurretController { rotation_intent: 0, rotation_speed: 180_000 }),
            screen_wrap: None,
            parent: Some(hull),
        }),
{
    Entity {
        transform: Some(Transform { x: 0, y: 0, z: 0, angle: QUARTER_TURN }),
        tank: None,
        turret: Some(TurretController::default()),
        screen_wrap: None,
        parent: Some(hull),
    }
}

/// Spawns the player's tank: a hull at the origin that drives at up to
/// `max_speed` world units per second and wraps round the play field, and its
/// turret as the next entity. Returns the index of the hull.
pub fn player(max_speed: u32, world: &mut World) -> (hull: usize)
    ensures
        hull == old(world)@.len(),
        final(world)@ == old(world)@.push(
            Entity {
                transform: Some(Transform { x: 0, y: 0, z: 0, angle: QUARTER_TURN }),
                tank: Some(
                    TankMovementController {
                        forward_intent: 0,
                        rotation_intent: 0,
                        max_speed,
                        rotation_speed: 180_000,
                    },
                ),
                turret: None,
                screen_wrap: Some(ScreenWrap),
                parent: None,
            },
        ).push(
            Entity {
                transform: Some(Transform { x: 0, y: 0, z: 0, angle: QUARTER_TURN }),
                tank: None,
                turret: Some(TurretController { rotation_intent: 0, rotation_speed: 180_000 }),
                screen_wrap: None,
                parent: Some(hull),
            },
        ),
{
    let mut controller = TankMovementController::default();
    controller.max_speed = max_speed;
    let hull: usize = world.spawn(
        Entity {
            transform: Some(Transform { x: 0, y: 0, z: 0, angle: QUARTER_TURN }),
            tank: Some(controller),
            turret: None,
            screen_wrap: Some(ScreenWrap),
            parent: None,
        },
    );
    world.spawn(turret(hull));
    hull
}

} // verus!
