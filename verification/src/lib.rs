//! Core of a minimal side-scrolling avoidance game.
//!
//! A player entity falls under gravity and is kept aloft by discrete upward
//! impulses ("flaps"); it must pass through gaps in vertical barriers.  The
//! crate holds the game logic only: player physics, obstacle generation and
//! collision, and the per-tick state machine.  Rendering and input are the
//! business of an outer shell, which feeds each tick a wall-clock delta and at
//! most one key, and carries out the draw commands the tick returns.

pub mod game;
pub mod obstacle;
pub mod player;
pub mod surface;
