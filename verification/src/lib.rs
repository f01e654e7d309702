//! A deterministic grid game engine: a snake on a toroidal board, food with
//! colours kept apart from the background, and a pacing controller.

pub mod color;
pub mod food;
pub mod game;
pub mod render;
pub mod rng;
pub mod session;
pub mod snake;
pub mod uart;
