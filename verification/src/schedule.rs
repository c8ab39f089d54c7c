//! The frame: every stage in its fixed order, gated as one by the pause flag.

use crate::keyboard::pressed_keys;
use crate::player::{apply_turret_movement, record_turret_input, turret_axis};
use crate::rotation::Rotation;
use crate::tank_movement::{
    apply_screen_wrap, apply_tank_movement, forward_axis, record_tank_input, rotation_axis,
    Viewport,
};
use crate::units::TURN;
use crate::world::{Entity, World};
use bevy::input::keyboard::KeyCode;
use bevy::input::ButtonInput;
use vstd::prelude::*;

verus! {

/// What one frame is given: the keys that are pressed, the elapsed time in
/// microseconds, the viewport if there is one, whether the simulation is
/// paused, and the rotation that the compass gave to an entity that asked.
pub ghost struct Step {
    pub keys: Set<KeyCode>,
    pub dt: u32,
    pub viewport: Option<Viewport>,
    pub paused: bool,
    pub rotation: Rotation,
}

impl Entity {
    /// This entity after both recorders ran with `keys` pressed.
    pub open spec fn recorded(self, keys: Set<KeyCode>) -> Entity {
        self.tank_recorded(keys).turret_recorded(keys)
    }

    /// This entity after one frame that was not paused: recorded, moved as a
    /// hull along `rotation`, turned as a turret, and wrapped, in this order.
    pub open spec fn ticked(
        self,
        keys: Set<KeyCode>,
        dt: u32,
        viewport: Option<Viewport>,
        rotation: Rotation,
    ) -> Entity {
        self.recorded(keys).hull_moved(dt, rotation).turret_moved(dt).screen_wrapped(viewport)
    }

    /// This entity after the frame `step`. A paused frame runs no stage.
    pub open spec fn stepped(self, step: Step) -> Entity {
        if step.paused {
            self
        } else {
            self.ticked(step.keys, step.dt, step.viewport, step.rotation)
        }
    }

    /// Whether `after` is this entity after a frame with `keys` pressed, with
    /// a rotation that `compass` gave for the heading that the hull has once
    /// it has turned, where the frame needed one.
    pub open spec fn tick_outcome<F: Fn(u64) -> Rotation>(
        self,
        after: Entity,
        keys: Set<KeyCode>,
        dt: u32,
        viewport: Option<Viewport>,
        paused: bool,
        compass: F,
    ) -> bool {
        exists|rotation: Rotation|
            {
                &&& !paused ==> self.recorded(keys).consulted(dt, compass, rotation)
                &&& after == #[trigger] self.stepped(
                    Step { keys, dt, viewport, paused, rotation },
                )
            }
    }

    /// This entity after the frames `steps`, first to last.
    pub open spec fn run(self, steps: Seq<Step>) -> Entity
        decreases steps.len(),
    {
        if steps.len() == 0 {
            self
        } else {
            self.run(steps.drop_last()).stepped(steps.last())
        }
    }
}

/// Whether `keys` net out to no intent on any axis: on each axis neither key is
/// pressed, or both are.
pub open spec fn idle(keys: Set<KeyCode>) -> bool {
    forward_axis(keys) == 0 && rotation_axis(keys) == 0 && turret_axis(keys) == 0
}

/// Whether two frames are the same to a hull: they differ at most in the
/// turret's keys.
pub open spec fn same_to_hull(one: Step, other: Step) -> bool {
    &&& forward_axis(one.keys) == forward_axis(other.keys)
    &&& rotation_axis(one.keys) == rotation_axis(other.keys)
    &&& one.dt == other.dt
    &&& one.viewport == other.viewport
    &&& one.paused == other.paused
    &&& one.rotation == other.rotation
}

/// Whether two frames are the same to a turret: they differ at most in the
/// hull's keys and in what the compass gave a hull.
pub open spec fn same_to_turret(one: Step, other: Step) -> bool {
    &&& turret_axis(one.keys) == turret_axis(other.keys)
    &&& one.dt == other.dt
    &&& one.viewport == other.viewport
    &&& one.paused == other.paused
}

/// Opposite keys cancel. After recording with both keys of an axis pressed,
/// the intent on that axis is exactly zero, whatever else is pressed and
/// whatever the intent was before.
pub proof fn lemma_opposite_keys_cancel(entity: Entity, keys: Set<KeyCode>)
    ensures
        entity.recorded(keys).tank matches Some(controller) ==> {
            &&& keys.contains(KeyCode::KeyW) && keys.contains(KeyCode::KeyS)
                ==> controller.forward_intent == 0
            &&& keys.contains(KeyCode::KeyA) && keys.contains(KeyCode::KeyD)
                ==> controller.rotation_intent == 0
        },
        entity.recorded(keys).turret matches Some(controller) ==> (keys.contains(
            KeyCode::ArrowLeft,
        ) && keys.contains(KeyCode::ArrowRight) ==> controller.rotation_intent == 0),
{
}

/// Releasing the keys of an axis brings its intent to rest. After recording
/// with neither key of an axis pressed, the intent on that axis is zero: an
/// intent of an earlier frame is never carried over.
pub proof fn lemma_released_keys_rest(entity: Entity, keys: Set<KeyCode>)
    ensures
        entity.recorded(keys).tank matches Some(controller) ==> {
            &&& !keys.contains(KeyCode::KeyW) && !keys.contains(KeyCode::KeyS)
                ==> controller.forward_intent == 0
            &&& !keys.contains(KeyCode::KeyA) && !keys.contains(KeyCode::KeyD)
                ==> controller.rotation_intent == 0
        },
        entity.recorded(keys).turret matches Some(controller) ==> (!keys.contains(
            KeyCode::ArrowLeft,
        ) && !keys.contains(KeyCode::ArrowRight) ==> controller.rotation_intent == 0),
{
}

/// A recorded intent is a valid intent, whatever it was before: recording
/// leaves a controller well-formed exactly if its speeds are positive.
pub proof fn lemma_recorded_intents_are_valid(entity: Entity, keys: Set<KeyCode>)
    ensures
        entity.recorded(keys).tank.is_some() == entity.tank.is_some(),
        entity.recorded(keys).turret.is_some() == entity.turret.is_some(),
        entity.recorded(keys).tank matches Some(controller) ==> {
            &&& -1 <= controller.forward_intent <= 1
            &&& -1 <= controller.rotation_intent <= 1
            &&& controller.max_speed == entity.tank->0.max_speed
            &&& controller.rotation_speed == entity.tank->0.rotation_speed
            &&& controller.wf() == (controller.max_speed > 0 && controller.rotation_speed > 0)
        },
        entity.recorded(keys).turret matches Some(controller) ==> {
            &&& -1 <= controller.rotation_intent <= 1
            &&& controller.rotation_speed == entity.turret->0.rotation_speed
            &&& controller.wf() == (controller.rotation_speed > 0)
        },
{
}

/// A frame changes intents, positions and orientations and nothing else. Every
/// entity keeps its set of components, the speeds that its controllers were
/// spawned with, its draw order, its marker and its parent.
pub proof fn lemma_step_keeps_the_rest(entity: Entity, step: Step)
    ensures
        entity.stepped(step).transform.is_some() == entity.transform.is_some(),
        entity.stepped(step).tank.is_some() == entity.tank.is_some(),
        entity.stepped(step).turret.is_some() == entity.turret.is_some(),
        entity.stepped(step).transform matches Some(transform) ==> transform.z
            == entity.transform->0.z,
        entity.stepped(step).tank matches Some(controller) ==> {
            &&& controller.max_speed == entity.tank->0.max_speed
            &&& controller.rotation_speed == entity.tank->0.rotation_speed
        },
        entity.stepped(step).turret matches Some(controller) ==> controller.rotation_speed
            == entity.turret->0.rotation_speed,
        entity.stepped(step).screen_wrap == entity.screen_wrap,
        entity.stepped(step).parent == entity.parent,
{
}

/// With no intent on any axis, any number of frames leaves position and
/// orientation of an entity unchanged, provided that its orientation lay
/// within one turn and that the wrapper had nothing to correct to begin with.
pub proof fn lemma_idle_run_keeps_transform(entity: Entity, steps: Seq<Step>)
    requires
        entity.transform matches Some(transform) ==> transform.wf(),
        forall|k: int|
            0 <= k < steps.len() ==> idle((#[trigger] steps[k]).keys) && entity.settled(
                steps[k].viewport,
            ),
    ensures
        entity.run(steps).transform == entity.transform,
        entity.run(steps).screen_wrap == entity.screen_wrap,
    decreases steps.len(),
{
    if steps.len() > 0 {
        let earlier = steps.drop_last();
        let step = steps.last();
        lemma_idle_run_keeps_transform(entity, earlier);
        let before = entity.run(earlier);
        if !step.paused {
            let recorded = before.recorded(step.keys);
            recorded.lemma_resting_hull_stays(step.dt, step.rotation);
            recorded.lemma_resting_turret_stays(step.dt);
            recorded.lemma_screen_wrapped_settles(step.viewport);
        }
    }
}

/// The turret's keys have no effect on an entity that carries no turret
/// controller: over any number of frames that differ at most in those keys it
/// ends in the same state, position and orientation included.
pub proof fn lemma_hull_ignores_turret_keys(entity: Entity, first: Seq<Step>, second: Seq<Step>)
    requires
        entity.turret.is_none(),
        first.len() == second.len(),
        forall|k: int| 0 <= k < first.len() ==> same_to_hull(#[trigger] first[k], second[k]),
    ensures
        entity.run(first) == entity.run(second),
        entity.run(first).turret.is_none(),
    decreases first.len(),
{
    if first.len() > 0 {
        let earlier = first.drop_last();
        let other = second.drop_last();
        lemma_hull_ignores_turret_keys(entity, earlier, other);
    }
}

/// The hull's keys, and what the compass says, have no effect on an entity
/// that carries no hull controller: over any number of frames that differ at
/// most in those it ends in the same state, orientation included.
pub proof fn lemma_turret_ignores_hull_keys(entity: Entity, first: Seq<Step>, second: Seq<Step>)
    requires
        entity.tank.is_none(),
        first.len() == second.len(),
        forall|k: int| 0 <= k < first.len() ==> same_to_turret(#[trigger] first[k], second[k]),
    ensures
        entity.run(first) == entity.run(second),
        entity.run(first).tank.is_none(),
    decreases first.len(),
{
    if first.len() > 0 {
        let earlier = first.drop_last();
        let other = second.drop_last();
        lemma_turret_ignores_hull_keys(entity, earlier, other);
    }
}

/// Runs one frame on every entity: records the hull's keys, then the turret's,
/// moves the hulls, turns the turrets, and wraps positions last. While
/// `paused` holds, no stage runs. `dt` is the elapsed time in microseconds, the
/// same for every entity, and `compass` gives the rotation of an orientation.
pub fn tick<F: Fn(u64) -> Rotation>(
    input: &ButtonInput<KeyCode>,
    dt: u32,
    viewport: Option<Viewport>,
    paused: bool,
    world: &mut World,
    compass: &F,
)
    requires
        forall|angle: u64| angle < TURN ==> call_requires(*compass, (angle,)),
    ensures
        final(world)@.len() == old(world)@.len(),
        paused ==> final(world)@ == old(world)@,
        forall|i: int|
            0 <= i < old(world)@.len() ==> old(world)@[i].tick_outcome(
                #[trigger] final(world)@[i],
                pressed_keys(*input),
                dt,
                viewport,
                paused,
                *compass,
            ),
{
    if paused {
        proof {
            assert forall|i: int| 0 <= i < old(world)@.len() implies old(world)@[i].tick_outcome(
                #[trigger] world@[i],
                pressed_keys(*input),
                dt,
                viewport,
                paused,
                *compass,
            ) by {
                let rotation: Rotation = arbitrary();
                assert(world@[i] == old(world)@[i].stepped(
                    Step { keys: pressed_keys(*input), dt, viewport, paused, rotation },
                ));
            }
        }
    } else {
        let ghost keys = pressed_keys(*input);
        record_tank_input(input, world);
        record_turret_input(input, world);
        let ghost recorded = world@;
        apply_tank_movement(dt, world, compass);
        let ghost moved = world@;
        apply_turret_movement(dt, world);
        apply_screen_wrap(viewport, world);
        proof {
            assert forall|i: int| 0 <= i < old(world)@.len() implies old(world)@[i].tick_outcome(
                #[trigger] world@[i],
                keys,
                dt,
                viewport,
                paused,
                *compass,
            ) by {
                let before = old(world)@[i];
                let rotation = choose|rotation: Rotation| #[trigger]
                    recorded[i].consulted(dt, *compass, rotation) && moved[i]
                        == recorded[i].hull_moved(dt, rotation);
                assert(world@[i] == before.stepped(Step { keys, dt, viewport, paused, rotation }));
            }
        }
    }
}

} // verus!
