//! A multi-stage application scheduler: independently clocked stages that run
//! over a shared world, reconfigured between iterations through a queue of
//! deferred commands.
//!
//! - [`timer`]: the pulse timer that gates the process unit of a stage.
//! - [`stage`]: a stage, and the record that the settings show of it.
//! - [`builder`]: the builders of stages and of applications.
//! - [`roster`]: the model of the stage lists and of the commands on them.
//! - [`settings`]: the settings resource and its command queue.
//! - [`app`]: the application and its run loop.
//! - [`clock`]: the frame clock of the run loop.
//! - [`ecs`]: the world, the resources and the executable units of `legion`.
//! - [`text`]: comparison and formatting of names.

pub mod app;
pub mod builder;
pub mod clock;
pub mod ecs;
pub mod roster;
pub mod settings;
pub mod stage;
pub mod text;
pub mod timer;
