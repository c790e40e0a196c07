//! Decision core of a supervisor that runs a fixed set of commands together and
//! terminates them together.
//!
//! The crate holds the rules of the supervisor: the life cycle of each command, the
//! policy that turns an exit into a decision to terminate the others, and the
//! bookkeeping of the one decision that is ever acted upon. Spawning processes and
//! waiting on them is left to the program that embeds the crate; it feeds the events
//! in and carries the resulting orders out.
pub mod channel;
pub mod command;
pub mod config;
pub mod history;
pub mod plugin;
pub mod spawn;
pub mod status;
pub mod system;

pub use crate::config::LabeledCommandData;
pub use crate::plugin::CommandSystemPlugin;
pub use crate::spawn::spawn_from_run_config_with_plugin;
pub use crate::status::{ExitStatusPattern, KillBehavior};
pub use crate::system::{CommandSystem, CommandSystemKiller};
