//! Typed descriptors for GPU buffers, textures and programs, and the schedule
//! of a particle simulation that runs on them.
//!
//! Nothing here talks to a driver. Every operation validates its arguments
//! against the descriptor it is called on and returns the [`command::Command`]s
//! that a driver loop has to perform, in order. What the commands mean on a
//! device, and what the schedules therefore guarantee, is stated in [`model`].

pub mod format;
pub mod command;
pub mod buffer;
pub mod texture;
pub mod binding;
pub mod program;
pub mod stage;
pub mod pipeline;
pub mod model;
