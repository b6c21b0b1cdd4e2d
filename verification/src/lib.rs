//! A small command-line application framework.
//!
//! A program registers named commands, each with a description, a schema of
//! options and a handler. The engine appends a built-in `help` command,
//! resolves the command named on the command line, parses its options
//! against its schema and says which handler is to run.
//!
//! A set of commands that is not fit to be registered is a mistake of the
//! program, not of its user: it is never handed to the engine. The caller
//! asks [`termenu::Termenu::registry_fault`] and
//! [`termenu::Termenu::help_fault`] first and aborts on a fault; the
//! functions that register and dispatch take fit commands only.
//!
//! The engine never performs input or output and never calls a handler. It
//! takes the process arguments as plain values and answers with an
//! [`termenu::Invocation`]: the handler to call or to await, with the parsed
//! options, or the help page to render. The caller does that work and passes
//! what the handler returned to [`termenu::Termenu::finish`].
//!
//! Every function of the library is verified against its contract. What is
//! taken on trust is marked as such where it stands: the calls into
//! `serde_json` for the payloads of errors, into `figlet_rs` for the banner,
//! and into a few text functions of the standard library.

pub mod banner;
pub mod commands;
pub mod exceptions;
pub mod json;
pub mod termenu;
pub mod text;
