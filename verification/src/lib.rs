//! The simulation core of a small 2D game, in fixed-point arithmetic.
//!
//! Entities are axis-aligned rectangles. Once a frame the world takes a
//! snapshot of them all and lets each run its chain of behaviours on it:
//! movers that turn round at the edges, the player's input, the search for
//! contacts, and physics with gravity and the air's resistance. Every
//! number is a `Fixed`: a count of millionths that saturates instead of
//! wrapping, so that a frame gives the same result on every machine.
//!
//! Beside the world stand the game's state from frame to frame, and the
//! menu with its elements and handlers.

pub mod actions;
pub mod game;
pub mod game_object;
pub mod geometry;
pub mod gui;
pub mod math;
pub mod mouse;
pub mod serialization;
pub mod util;
