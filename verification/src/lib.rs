//! Logic of a small shoreline arcade game, stated and proved over plain
//! values: the player walks along the shore, drops a bomb that detonates
//! into a short-lived explosion, fish swim across the water and are worth
//! points, and the whole game pauses, ends and restarts through a small
//! state machine.
//!
//! Positions are whole pixels (`i64`), time is whole milliseconds (`u32`).
//! The engine that renders, reads input and detects contacts lives outside;
//! it hands these functions plain values and acts on what they return.

pub mod enemy;
pub mod game_over;
pub mod level;
pub mod player;
pub mod rng;
pub mod score;
pub mod state;
pub mod timer;
pub mod types;
