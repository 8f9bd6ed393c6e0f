//! A lightweight process supervisor library: a durable registry of named
//! child processes, the state-transition rules that govern starting,
//! killing, deleting and restarting them, and the bookkeeping the
//! per-process watch and restart tasks perform when a child exits.

pub mod cli_args;
pub mod codec;
pub mod command_line;
pub mod errors;
pub mod laws;
pub mod listing;
pub mod model;
pub mod record;
pub mod registry;
pub mod service;
pub mod store;

pub use cli_args::{Cli, Commands, DeleteArgs, KillArgs, ListArgs, RestartArgs, StartArgs};
pub use command_line::parse_command;
pub use errors::ProcessError;
pub use listing::{build_row, ListRow, ProcessStats};
pub use record::{Process, ProcessModel, Status};
pub use registry::Registry;
pub use service::{should_relaunch, ProcessManager, RestartPlan};
