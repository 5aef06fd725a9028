//! Simulation core of a small asteroids arcade game.
//!
//! Coordinates are fixed-point integers: one pixel is [`bounds::SUBPIXELS`]
//! units. Velocities are in units per millisecond, which is the same as
//! pixels per second, and time is counted in milliseconds.
pub mod arith;
pub mod asteroid;
pub mod bounds;
pub mod clock;
pub mod collision;
pub mod component;
pub mod game;
pub mod input;
pub mod movement;
pub mod player;
pub mod scene;
pub mod score;
pub mod scores;
pub mod spawn;
pub mod timeout;
