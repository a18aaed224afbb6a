//! Bootstrap configuration for a desktop/mobile shell application.
//!
//! The shell hands almost everything to a host framework and its capability
//! plugins; the only decisions made here are which plugins to attach for a
//! given build target, what the startup callback does, and how the process
//! ends when the run loop reports its outcome. Those decisions are modelled
//! and verified in this crate; the framework calls themselves (window
//! creation, the event loop) live outside it.

pub mod bootstrap;
pub mod build_target;
pub mod plugins;
pub mod shutdown;
pub mod startup;
