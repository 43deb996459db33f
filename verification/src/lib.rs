//! The core of Dragon's Escape, a small text adventure set in a dragon's castle.
//!
//! The crate holds what the game decides: how a line of input becomes a
//! command, how the rooms hang together, and how one command moves the game
//! from one state to the next. Drawing the screen, pacing the animations and
//! reading the keyboard are left to the program around it.
//!
//! Every function is verified with Verus against the contract it carries.

pub mod castle;
pub mod command;
pub mod direction;
pub mod game;
pub mod registry;
pub mod room;
pub mod text;
