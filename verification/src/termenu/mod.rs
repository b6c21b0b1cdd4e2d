//! The command registry and dispatch engine.

pub mod descriptor;
pub mod dispatch;
pub mod exceptions;
pub mod help;
pub mod options;
pub mod registry;

pub use descriptor::{CommandEntry, Invocation, SyncHandler, Termenu};
pub use exceptions::{Part, TermenuError, Tone};
pub use help::{show_help, HelpLine, Package};
pub use options::ParsedOptions;
pub use registry::{RegistryFault, MAX_COMMAND, MIN_COMMAND};
