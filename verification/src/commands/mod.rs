//! The commands that come with the framework.

use vstd::prelude::*;
use vstd::string::StringExecFns;
use crate::termenu::exceptions::{issue_payload, TermenuError};

pub mod developer_command;
pub mod hello_world_command;
pub mod inspire_command;

verus! {

/// The issue reported for a step that failed: what failed, a colon and the
/// failure's own text.
pub open spec fn failure_issue(what: Seq<char>, detail: Seq<char>) -> Seq<char> {
    what + ": "@ + detail
}

/// The error for a step that failed on a file or on the network.
pub fn connection_failure(what: &str, detail: &str) -> (error: TermenuError)
    ensures
        error.reports("E611"@, "ConnectionError"@, failure_issue(what@, detail@)),
{
    let mut issue = String::from_str(what);
    issue.append(": ");
    issue.append(detail);
    TermenuError::connection_unknown_error(issue_payload(issue.as_str()))
}

} // verus!
