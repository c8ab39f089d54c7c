//! The entity store: an arena of entities, each a set of optional components.

use crate::player::TurretController;
use crate::tank_movement::{ScreenWrap, TankMovementController};
use crate::transform::Transform;
use vstd::prelude::*;

verus! {

/// One entity. A component that is `None` is absent, and a stage passes over
/// every entity that lacks a component it needs.
#[derive(Clone, Copy, Debug, PartialEq, Eq)]
pub struct Entity {
    /// Where the entity is and which way it faces.
    pub transform: Option<Transform>,
    /// Present on a hull that can be driven.
    pub tank: Option<TankMovementController>,
    /// Present on a turret that can be aimed.
    pub turret: Option<TurretController>,
    /// Present on an entity that wraps round the edges of the play field.
    pub screen_wrap: Option<ScreenWrap>,
    /// Index of the entity that carries this one. The simulation never reads
    /// it; whoever draws the scene composes a child's transform with its
    /// parent's.
    pub parent: Option<usize>,
}

/// All entities, found by index.
#[derive(Clone, Debug, PartialEq, Eq)]
pub struct World {
    pub entities: Vec<Entity>,
}

impl View for World {
    type V = Seq<Entity>;

    open spec fn view(&self) -> Seq<Entity> {
        self.entities@
    }
}

impl World {
    /// A world without entities.
    pub fn new() -> (world: World)
        ensures
            world@ == Seq::<Entity>::empty(),
    {
        World { entities: Vec::new() }
    }

    /// Adds `entity` and returns its index.
    pub fn spawn(&mut self, entity: Entity) -> (index: usize)
        ensures
            final(self)@ == old(self)@.push(entity),
            index == old(self)@.len(),
    {
        let index: usize = self.entities.len();
        self.entities.push(entity);
        index
    }
}

} // verus!
