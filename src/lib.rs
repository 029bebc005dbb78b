//! A grid actor in a tiled arena, driven by a two-state game machine.
pub mod cooldown;
pub mod player;
pub mod arena;
pub mod game;
