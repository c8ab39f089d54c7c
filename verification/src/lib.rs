//! Movement core of a top-down tank with an independently aimed turret.
//!
//! Once per frame three stages run, in this order: the keyboard is recorded
//! into intents, intents are integrated into orientation and position over the
//! elapsed time, and positions are wrapped round the edges of the play field.
//! [`schedule::tick`] runs a whole frame; the stages are in [`tank_movement`]
//! for the hull and the play field and in [`player`] for the turret, and they
//! work on the entities of a [`world::World`].
//!
//! All arithmetic is exact integer arithmetic in the fixed-point units of
//! [`units`]. The one thing that integers cannot give is the sine and cosine
//! of a heading: the caller supplies them as a compass, a function from an
//! orientation to a [`rotation::Rotation`].
//!
//! The keyboard is bevy's `ButtonInput<KeyCode>`; [`keyboard`] holds what is
//! believed of it.

pub mod keyboard;
pub mod player;
pub mod rotation;
pub mod schedule;
pub mod tank_movement;
pub mod transform;
pub mod units;
pub mod world;
