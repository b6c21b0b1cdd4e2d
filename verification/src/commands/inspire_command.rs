//! The `inspire` command, which shows a quote fetched from a quotes service.

use vstd::prelude::*;
use vstd::string::StringExecFns;
use crate::json::{error_line, json_error_line, json_parsed, member, parse, text_at, text_of};
use crate::termenu::descriptor::{EntryView, Termenu};
use crate::termenu::exceptions::{issue_payload, TermenuError};

verus! {

/// What the command shows of itself.
pub open spec fn entry() -> EntryView {
    EntryView {
        command: "inspire"@,
        description: "Fetches and displays a random inspirational quote."@,
        options: seq![
            (
                "--category"@,
                "Specify a quote category (optional, not used in current API)."@,
            ),
        ],
    }
}

/// The `inspire` command with the given handler.
pub fn register<S, A>(handler: A) -> (command: Termenu<S, A>)
    ensures
        command.entry() == entry(),
        command.handler is None,
        command.async_handler == Some(handler),
{
    let mut command = Termenu::new_async_command(
        "inspire",
        "Fetches and displays a random inspirational quote.",
        handler,
    );
    command.add_option(
        "--category",
        "Specify a quote category (optional, not used in current API).",
    );
    assert(command.options.deep_view() =~= entry().options);
    command
}

/// A quote and who said it.
#[derive(Debug, PartialEq, Eq)]
pub struct Quote {
    pub content: String,
    pub author: String,
}

/// The text under `key` in `document`, or `fallback` where there is none.
pub open spec fn text_or(document: serde_json::Value, key: Seq<char>, fallback: Seq<char>) -> Seq<
    char,
> {
    match text_at(document, key) {
        Some(text) => text,
        None => fallback,
    }
}

/// The issue reported for a response that is no JSON document.
pub open spec fn invalid_json_issue(fault: serde_json::Error) -> Seq<char> {
    "Invalid JSON: "@ + json_error_line(fault)
}

/// Reads the text under `key`, or takes `fallback` where there is none.
fn field_or(document: &serde_json::Value, key: &str, fallback: &str) -> (text: String)
    ensures
        text@ == text_or(*document, key@, fallback@),
{
    let found = match member(document, key) {
        Some(m) => text_of(m),
        None => None,
    };
    match found {
        Some(text) => String::from_str(text),
        None => String::from_str(fallback),
    }
}

/// Reads the quote out of the service's response. The response must be a
/// JSON document; the quote is its `content` and the author its `author`,
/// each replaced by a stand-in text where the document has no such string.
pub fn read_quote(body: &str) -> (outcome: Result<Quote, TermenuError>)
    ensures
        match json_parsed(body@) {
            Ok(document) => outcome matches Ok(quote) && quote.content@ == text_or(
                document,
                "content"@,
                "No quote found."@,
            ) && quote.author@ == text_or(document, "author"@, "Unknown"@),
            Err(fault) => outcome matches Err(e) && e.reports(
                "E111"@,
                "InputError"@,
                invalid_json_issue(fault),
            ),
        },
{
    match parse(body) {
        Ok(document) => Ok(
            Quote {
                content: field_or(&document, "content", "No quote found."),
                author: field_or(&document, "author", "Unknown"),
            },
        ),
        Err(fault) => {
            let mut issue = String::from_str("Invalid JSON: ");
            let line = error_line(&fault);
            issue.append(line.as_str());
            Err(TermenuError::input_unknown_error(issue_payload(issue.as_str())))
        },
    }
}

} // verus!
