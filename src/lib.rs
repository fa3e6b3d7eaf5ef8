//! A small first-person game world in fixed-point arithmetic: mobile bodies
//! under gravity, drag and friction, a player controller, a herd of frogs,
//! thrown balls and a terrain that reacts to where the player stands; and a
//! small board on which a pawn walks from tile to tile.
//!
//! Lengths are in micrometres, velocities in micrometres per second and
//! frame times in microseconds.

pub mod vec3;
pub mod terrain;
pub mod mob;
pub mod color;
pub mod ball;
pub mod frog;
pub mod player;
pub mod balls;
pub mod world;
pub mod mouse;
pub mod board;
