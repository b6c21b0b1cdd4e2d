//! The `helloworld` command, which greets.

use vstd::prelude::*;
use crate::termenu::descriptor::{EntryView, SyncHandler, Termenu};

verus! {

/// What the command shows of itself.
pub open spec fn entry() -> EntryView {
    EntryView {
        command: "helloworld"@,
        description: "Print Hello, World!"@,
        options: Seq::empty(),
    }
}

/// The `helloworld` command with the given handler.
pub fn register<S, A>(handler: S) -> (command: Termenu<S, A>)
    ensures
        command.entry() == entry(),
        command.handler == Some(SyncHandler::User(handler)),
        command.async_handler is None,
{
    let command = Termenu::new_command("helloworld", "Print Hello, World!", handler);
    assert(command.options.deep_view() =~= Seq::empty());
    command
}

} // verus!
