//! The errors of services that commands call on.

use vstd::prelude::*;
use vstd::string::StringExecFns;
use crate::json::{member, text_of};
use crate::termenu::exceptions::{
    exception_line,
    exception_line_parts,
    exception_parts,
    io_error_text,
    issue_or_placeholder,
    join,
    lemma_parts_spell_line,
    Part,
    Tone,
};

verus! {

/// An error of a service: either a coded exception with an optional JSON
/// payload, or an I/O failure.
#[derive(Debug)]
pub enum ServError {
    /// A coded exception: a stable code, a name and an optional payload,
    /// which by custom holds the issue as a string under `"issue"`.
    Exception { code: String, name: String, data: Option<serde_json::Value> },
    /// A failure of input or output.
    Io(std::io::Error),
}

impl ServError {
    /// Whether this is the exception of the given code and name carrying
    /// exactly `data`.
    pub open spec fn is_exception(
        self,
        code: Seq<char>,
        name: Seq<char>,
        data: Option<serde_json::Value>,
    ) -> bool {
        self matches ServError::Exception { code: c, name: n, data: d } && c@ == code && n@ == name
            && d == data
    }

    /// The issue part of the error's line: present exactly when the error is
    /// an exception with a payload.
    pub open spec fn issue(self) -> Option<Seq<char>> {
        match self {
            ServError::Exception { data: Some(d), .. } => Some(issue_or_placeholder(d)),
            _ => None,
        }
    }

    /// The line that describes an exception: `[code] name`, followed by
    /// `: issue` when there is a payload. An I/O failure has no such line.
    pub open spec fn line(self) -> Option<Seq<char>> {
        match self {
            ServError::Exception { code, name, .. } => Some(
                exception_line(code@, name@, self.issue()),
            ),
            ServError::Io(_) => None,
        }
    }

    /// The parts of the line that describes an exception. An I/O failure
    /// has one part, whose text is the failure's own.
    pub open spec fn shown(self) -> Option<Seq<(Seq<char>, Tone)>> {
        match self {
            ServError::Exception { code, name, .. } => Some(
                exception_parts(code@, name@, self.issue()),
            ),
            ServError::Io(_) => None,
        }
    }

    /// The exception of the given code and name with the given payload.
    fn exception(code: &str, name: &str, data: Option<serde_json::Value>) -> (error: Self)
        ensures
            error.is_exception(code@, name@, data),
    {
        ServError::Exception { code: String::from_str(code), name: String::from_str(name), data }
    }

    /// Input that is not recognised.
    pub fn input_unknown_error(data: Option<serde_json::Value>) -> (error: Self)
        ensures
            error.is_exception("E111"@, "InputError"@, data),
    {
        Self::exception("E111", "InputError", data)
    }

    /// Input that is required and was not given.
    pub fn input_missing_error(data: Option<serde_json::Value>) -> (error: Self)
        ensures
            error.is_exception("E112"@, "InputMissingError"@, data),
    {
        Self::exception("E112", "InputMissingError", data)
    }

    /// A failure to reach or to use something outside the program.
    pub fn connection_unknown_error(data: Option<serde_json::Value>) -> (error: Self)
        ensures
            error.is_exception("611"@, "ConnectionError"@, data),
    {
        Self::exception("611", "ConnectionError", data)
    }

    /// A connection that took too long.
    pub fn connection_timeout_error(data: Option<serde_json::Value>) -> (error: Self)
        ensures
            error.is_exception("612"@, "ConnectionTimeoutError"@, data),
    {
        Self::exception("612", "ConnectionTimeoutError", data)
    }

    /// A fault of a command.
    pub fn command_unknown_error(data: Option<serde_json::Value>) -> (error: Self)
        ensures
            error.is_exception("711"@, "CommandError"@, data),
    {
        Self::exception("711", "CommandError", data)
    }

    /// A command that does not exist or cannot be run.
    pub fn invalid_command_error(data: Option<serde_json::Value>) -> (error: Self)
        ensures
            error.is_exception("E712"@, "InvalidCommandError"@, data),
    {
        Self::exception("E712", "InvalidCommandError", data)
    }

    /// A command that took too long.
    pub fn command_timeout_error(data: Option<serde_json::Value>) -> (error: Self)
        ensures
            error.is_exception("713"@, "CommandTimeoutError"@, data),
    {
        Self::exception("713", "CommandTimeoutError", data)
    }

    /// The issue text of the error's line, if it has one.
    pub fn issue_text(&self) -> (text: Option<String>)
        ensures
            match text {
                Some(t) => self.issue() == Some(t@),
                None => self.issue() is None,
            },
    {
        match self {
            ServError::Exception { data: Some(d), .. } => {
                let found = match member(d, "issue") {
                    Some(m) => text_of(m),
                    None => None,
                };
                match found {
                    Some(issue) => Some(String::from_str(issue)),
                    None => Some(String::from_str("<no issue field>")),
                }
            },
            _ => None,
        }
    }

    /// The error's line in parts, each with the way it is meant, for a
    /// caller that shows them in different colours.
    pub fn parts(&self) -> (parts: Vec<Part>)
        ensures
            match self.shown() {
                Some(expected) => parts.deep_view() == expected,
                None => parts@.len() == 1 && parts@[0].tone == Tone::Failure,
            },
    {
        match self {
            ServError::Exception { code, name, .. } => exception_line_parts(
                code.as_str(),
                name.as_str(),
                self.issue_text(),
            ),
            ServError::Io(error) => {
                let mut parts: Vec<Part> = Vec::new();
                parts.push(Part { text: io_error_text(error), tone: Tone::Failure });
                parts
            },
        }
    }

    /// The error as one line of plain text.
    pub fn message(&self) -> (text: String)
        ensures
            self.line() matches Some(line) ==> text@ == line,
    {
        proof {
            if let ServError::Exception { code, name, .. } = self {
                lemma_parts_spell_line(code@, name@, self.issue());
            }
        }
        join(&self.parts())
    }
}

} // verus!
