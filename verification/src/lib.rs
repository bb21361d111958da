//! Core of a grid-based snake simulation.
//!
//! The library models the game state (snake body, heading, food, grid
//! bounds), one discrete logic tick, a bounded input queue, a fixed-timestep
//! scheduler, and an abstract rendering capability. Window management and
//! rasterization live outside the library and talk to it through plain
//! values and the `Renderer` trait.

pub mod geometry;
pub mod snake;
pub mod game;
pub mod render;
pub mod timing;
pub mod input;
