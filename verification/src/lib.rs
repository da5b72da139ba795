//! Decision logic of a desktop shell's server supervisor: where the companion
//! project lives, how its server is invoked, when it counts as ready, and who
//! owns the child process until shutdown.

pub mod command;
pub mod greeting;
pub mod locator;
pub mod logger;
pub mod platform;
pub mod project;
pub mod readiness;
pub mod supervisor;
pub mod text;
