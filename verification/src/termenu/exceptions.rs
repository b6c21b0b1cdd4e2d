//! The errors that the engine and command handlers return.

use vstd::prelude::*;
use vstd::string::StringExecFns;
use crate::json::{member, object_with, text_at, text_of};

verus! {

/// `std::io::Error`, carried through the library as an opaque value.
#[verifier::external_type_specification]
#[verifier::external_body]
pub struct ExIoError(std::io::Error);

/// Trusted: calls `to_string` on a `std::io::Error`. The text comes from the
/// operating system or from whoever built the error, so nothing is claimed
/// of it.
#[verifier::external_body]
pub(crate) fn io_error_text(error: &std::io::Error) -> String {
    error.to_string()
}

/// How a part of an error's line is meant: as plain text, as the error's
/// code, name or issue, or as the text of a failure of input or output.
#[derive(Debug, Clone, Copy, PartialEq, Eq)]
pub enum Tone {
    Plain,
    Code,
    Name,
    Issue,
    Failure,
}

/// A part of an error's line: its text and how it is meant.
#[derive(Debug, PartialEq, Eq)]
pub struct Part {
    pub text: String,
    pub tone: Tone,
}

impl DeepView for Part {
    type V = (Seq<char>, Tone);

    open spec fn deep_view(&self) -> (Seq<char>, Tone) {
        (self.text@, self.tone)
    }
}

/// The parts of an exception's line: `[`, the code, `] ` and the name,
/// followed by `: ` and the issue where there is one.
pub open spec fn exception_parts(
    code: Seq<char>,
    name: Seq<char>,
    issue: Option<Seq<char>>,
) -> Seq<(Seq<char>, Tone)> {
    let head = seq![
        ("["@, Tone::Plain),
        (code, Tone::Code),
        ("] "@, Tone::Plain),
        (name, Tone::Name),
    ];
    match issue {
        Some(text) => head + seq![(": "@, Tone::Plain), (text, Tone::Issue)],
        None => head,
    }
}

/// The texts of the parts, one after the other.
pub open spec fn joined(parts: Seq<(Seq<char>, Tone)>) -> Seq<char>
    decreases parts.len(),
{
    if parts.len() == 0 {
        Seq::empty()
    } else {
        joined(parts.drop_last()) + parts.last().0
    }
}

/// The line of an exception: `[code] name`, followed by `: issue` where
/// there is an issue.
pub open spec fn exception_line(
    code: Seq<char>,
    name: Seq<char>,
    issue: Option<Seq<char>>,
) -> Seq<char> {
    match issue {
        Some(text) => "["@ + code + "] "@ + name + ": "@ + text,
        None => "["@ + code + "] "@ + name,
    }
}

/// The parts of an exception's line spell that line.
pub proof fn lemma_parts_spell_line(code: Seq<char>, name: Seq<char>, issue: Option<Seq<char>>)
    ensures
        joined(exception_parts(code, name, issue)) == exception_line(code, name, issue),
{
    reveal_with_fuel(joined, 7);
}

/// The parts of the line of the exception of this code and name.
pub fn exception_line_parts(code: &str, name: &str, issue: Option<String>) -> (parts: Vec<Part>)
    ensures
        parts.deep_view() == exception_parts(
            code@,
            name@,
            match issue {
                Some(text) => Some(text@),
                None => None,
            },
        ),
{
    let mut parts: Vec<Part> = Vec::new();
    parts.push(Part { text: String::from_str("["), tone: Tone::Plain });
    parts.push(Part { text: String::from_str(code), tone: Tone::Code });
    parts.push(Part { text: String::from_str("] "), tone: Tone::Plain });
    parts.push(Part { text: String::from_str(name), tone: Tone::Name });
    match issue {
        Some(text) => {
            parts.push(Part { text: String::from_str(": "), tone: Tone::Plain });
            parts.push(Part { text, tone: Tone::Issue });
        },
        None => {},
    }
    parts
}

/// Writes the parts out as one text.
pub fn join(parts: &Vec<Part>) -> (text: String)
    ensures
        text@ == joined(parts.deep_view()),
{
    let ghost shown = parts.deep_view();
    let mut text = String::new();
    let mut i: usize = 0;
    while i < parts.len()
        invariant
            i <= parts@.len(),
            shown == parts.deep_view(),
            text@ == joined(shown.take(i as int)),
        decreases parts@.len() - i,
    {
        assert(shown.take(i + 1).drop_last() =~= shown.take(i as int));
        text.append(parts[i].text.as_str());
        i += 1;
    }
    assert(shown.take(i as int) =~= shown);
    text
}

/// An error of the framework or of a command: either a coded exception with
/// an optional JSON payload, or an I/O failure.
#[derive(Debug)]
pub enum TermenuError {
    /// A coded exception: a stable code, a name and an optional payload,
    /// which by custom holds the issue as a string under `"issue"`.
    Exception { code: String, name: String, data: Option<serde_json::Value> },
    /// A failure of input or output.
    Io(std::io::Error),
}

/// The text shown for a payload: what it holds under `"issue"`, or a
/// placeholder when it holds no such string.
pub open spec fn issue_or_placeholder(data: serde_json::Value) -> Seq<char> {
    match text_at(data, "issue"@) {
        Some(issue) => issue,
        None => "<no issue field>"@,
    }
}

/// The payload `{"issue": issue}`.
pub(crate) fn issue_payload(issue: &str) -> (data: Option<serde_json::Value>)
    ensures
        data matches Some(d) && text_at(d, "issue"@) == Some(issue@),
{
    Some(object_with("issue", issue))
}

impl TermenuError {
    /// Whether this is the exception of the given code and name carrying
    /// exactly `data`.
    pub open spec fn is_exception(
        self,
        code: Seq<char>,
        name: Seq<char>,
        data: Option<serde_json::Value>,
    ) -> bool {
        self matches TermenuError::Exception { code: c, name: n, data: d } && c@ == code && n@
            == name && d == data
    }

    /// Whether this is the exception of the given code and name whose payload
    /// holds `issue` under `"issue"`.
    pub open spec fn reports(self, code: Seq<char>, name: Seq<char>, issue: Seq<char>) -> bool {
        self matches TermenuError::Exception { code: c, name: n, data: Some(d) } && c@ == code
            && n@ == name && text_at(d, "issue"@) == Some(issue)
    }

    /// The issue part of the error's line: present exactly when the error is
    /// an exception with a payload.
    pub open spec fn issue(self) -> Option<Seq<char>> {
        match self {
            TermenuError::Exception { data: Some(d), .. } => Some(issue_or_placeholder(d)),
            _ => None,
        }
    }

    /// The line that describes an exception: `[code] name`, followed by
    /// `: issue` when there is a payload. An I/O failure has no such line.
    pub open spec fn line(self) -> Option<Seq<char>> {
        match self {
            TermenuError::Exception { code, name, .. } => Some(
                exception_line(code@, name@, self.issue()),
            ),
            TermenuError::Io(_) => None,
        }
    }

    /// The parts of the line that describes an exception. An I/O failure
    /// has one part, whose text is the failure's own.
    pub open spec fn shown(self) -> Option<Seq<(Seq<char>, Tone)>> {
        match self {
            TermenuError::Exception { code, name, .. } => Some(
                exception_parts(code@, name@, self.issue()),
            ),
            TermenuError::Io(_) => None,
        }
    }

    /// The exception of the given code and name with the given payload.
    fn exception(code: &str, name: &str, data: Option<serde_json::Value>) -> (error: Self)
        ensures
            error.is_exception(code@, name@, data),
    {
        TermenuError::Exception { code: String::from_str(code), name: String::from_str(name), data }
    }

    /// A fault of the framework itself.
    pub fn framework_unknown_error(data: Option<serde_json::Value>) -> (error: Self)
        ensures
            error.is_exception("E011"@, "FrameworkError"@, data),
    {
        Self::exception("E011", "FrameworkError", data)
    }

    /// Something that the framework does not allow in its present mode.
    pub fn framework_forbidden_error(data: Option<serde_json::Value>) -> (error: Self)
        ensures
            error.is_exception("E011"@, "FrameworkForbiddenError"@, data),
    {
        Self::exception("E011", "FrameworkForbiddenError", data)
    }

    /// A resource that the framework needs and cannot have. It goes by the
    /// code and name of `framework_forbidden_error`.
    pub fn framework_resource_error(data: Option<serde_json::Value>) -> (error: Self)
        ensures
            error.is_exception("E011"@, "FrameworkForbiddenError"@, data),
    {
        Self::exception("E011", "FrameworkForbiddenError", data)
    }

    /// Input that is not recognised.
    pub fn input_unknown_error(data: Option<serde_json::Value>) -> (error: Self)
        ensures
            error.is_exception("E111"@, "InputError"@, data),
    {
        Self::exception("E111", "InputError", data)
    }

    /// Input that is required and was not given.
    pub fn input_missing_error(data: Option<serde_json::Value>) -> (error: Self)
        ensures
            error.is_exception("E112"@, "InputMissingError"@, data),
    {
        Self::exception("E112", "InputMissingError", data)
    }

    /// A failure to reach or to use something outside the program.
    pub fn connection_unknown_error(data: Option<serde_json::Value>) -> (error: Self)
        ensures
            error.is_exception("E611"@, "ConnectionError"@, data),
    {
        Self::exception("E611", "ConnectionError", data)
    }

    /// A connection that took too long.
    pub fn connection_timeout_error(data: Option<serde_json::Value>) -> (error: Self)
        ensures
            error.is_exception("E612"@, "ConnectionTimeoutError"@, data),
    {
        Self::exception("E612", "ConnectionTimeoutError", data)
    }

    /// A fault of a command.
    pub fn command_unknown_error(data: Option<serde_json::Value>) -> (error: Self)
        ensures
            error.is_exception("E711"@, "CommandError"@, data),
    {
        Self::exception("E711", "CommandError", data)
    }

    /// A command that does not exist or cannot be run.
    pub fn invalid_command_error(data: Option<serde_json::Value>) -> (error: Self)
        ensures
            error.is_exception("E712"@, "InvalidCommandError"@, data),
    {
        Self::exception("E712", "InvalidCommandError", data)
    }

    /// A command that took too long.
    pub fn command_timeout_error(data: Option<serde_json::Value>) -> (error: Self)
        ensures
            error.is_exception("E713"@, "CommandTimeoutError"@, data),
    {
        Self::exception("E713", "CommandTimeoutError", data)
    }

    /// The issue text of the error's line, if it has one.
    pub fn issue_text(&self) -> (text: Option<String>)
        ensures
            match text {
                Some(t) => self.issue() == Some(t@),
                None => self.issue() is None,
            },
    {
        match self {
            TermenuError::Exception { data: Some(d), .. } => {
                let found = match member(d, "issue") {
                    Some(m) => text_of(m),
                    None => None,
                };
                match found {
                    Some(issue) => Some(String::from_str(issue)),
                    None => Some(String::from_str("<no issue field>")),
                }
            },
            _ => None,
        }
    }

    /// The error's line in parts, each with the way it is meant, for a
    /// caller that shows them in different colours.
    pub fn parts(&self) -> (parts: Vec<Part>)
        ensures
            match self.shown() {
                Some(expected) => parts.deep_view() == expected,
                None => parts@.len() == 1 && parts@[0].tone == Tone::Failure,
            },
    {
        match self {
            TermenuError::Exception { code, name, .. } => exception_line_parts(
                code.as_str(),
                name.as_str(),
                self.issue_text(),
            ),
            TermenuError::Io(error) => {
                let mut parts: Vec<Part> = Vec::new();
                parts.push(Part { text: io_error_text(error), tone: Tone::Failure });
                parts
            },
        }
    }

    /// The error as one line of plain text.
    pub fn message(&self) -> (text: String)
        ensures
            self.line() matches Some(line) ==> text@ == line,
    {
        proof {
            if let TermenuError::Exception { code, name, .. } = self {
                lemma_parts_spell_line(code@, name@, self.issue());
            }
        }
        join(&self.parts())
    }
}

} // verus!
