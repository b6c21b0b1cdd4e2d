//! The `developer` command, which adds the source file of a new command.

use vstd::prelude::*;
use vstd::string::{StrSliceExecFns, StringExecFns};
use crate::termenu::descriptor::{EntryView, SyncHandler, Termenu};
use crate::termenu::exceptions::{issue_payload, TermenuError};
use crate::termenu::options::ParsedOptions;
use crate::text::{contains, lowercase, occurs_in, to_lowercase, to_uppercase, trim, trimmed, uppercase};

verus! {

/// The generated source up to the command's name.
pub const TEMPLATE_HEAD: &'static str =
    "use crate::modules::termenu::Termenu;\n\npub fn register() -> Termenu {\n    let command: Termenu = Termenu::new_command(\n        \"";

/// The generated source between the command's name and its greeting.
pub const TEMPLATE_MIDDLE: &'static str =
    "\",\n        \"Describe what this command does.\",\n        |_options| {\n            println!(\"Command '";

/// The generated source after the greeting.
pub const TEMPLATE_TAIL: &'static str =
    "' executed.\");\n            Ok(())\n        },\n    );\n\n    command\n}\n";

/// What the command shows of itself.
pub open spec fn entry() -> EntryView {
    EntryView {
        command: "developer"@,
        description: "Add new command for development purposes. Will only work in debug mode."@,
        options: seq![
            ("--verbose"@, "--verbose | Display detailed usage information."@),
            ("--add"@, "--add=<command_name> | Specify the name of the command to add."@),
        ],
    }
}

/// The `developer` command with the given handler.
pub fn register<S, A>(handler: S) -> (command: Termenu<S, A>)
    ensures
        command.entry() == entry(),
        command.handler == Some(SyncHandler::User(handler)),
        command.async_handler is None,
{
    let mut command = Termenu::new_command(
        "developer",
        "Add new command for development purposes. Will only work in debug mode.",
        handler,
    );
    command.add_option("--verbose", "--verbose | Display detailed usage information.");
    command.add_option(
        "--add",
        "--add=<command_name> | Specify the name of the command to add.",
    );
    assert(command.options.deep_view() =~= entry().options);
    command
}

/// The source of a new command called `name`: it registers the command
/// under the name in lower case and greets with the name as given.
pub open spec fn template(name: Seq<char>) -> Seq<char> {
    TEMPLATE_HEAD@ + lowercase(name) + TEMPLATE_MIDDLE@ + name + TEMPLATE_TAIL@
}

/// Generates the source of a new command called `name`.
pub fn generate_command_template(name: &str) -> (source: String)
    ensures
        source@ == template(name@),
{
    let lower = to_lowercase(name);
    let mut source = String::from_str(TEMPLATE_HEAD);
    source.append(lower.as_str());
    source.append(TEMPLATE_MIDDLE);
    source.append(name);
    source.append(TEMPLATE_TAIL);
    source
}

/// `s` with its first character in upper case.
pub open spec fn capitalized(s: Seq<char>) -> Seq<char> {
    if s.len() == 0 {
        s
    } else {
        uppercase(s[0]) + s.skip(1)
    }
}

/// Puts the first character of `s` in upper case.
pub fn capitalize_first_letter(s: &str) -> (capital: String)
    ensures
        capital@ == capitalized(s@),
{
    let n: usize = s.unicode_len();
    if n == 0 {
        String::new()
    } else {
        let mut capital = to_uppercase(s.get_char(0));
        capital.append(s.substring_char(1, n));
        capital
    }
}

/// The file that holds the source of the command called `name`.
pub open spec fn file_name_of(name: Seq<char>) -> Seq<char> {
    "src/commands/"@ + lowercase(name) + "_command.rs"@
}

/// The line that declares the module of the command called `name`.
pub open spec fn module_line_of(name: Seq<char>) -> Seq<char> {
    "pub mod "@ + lowercase(name) + "_command;\n"@
}

/// The name given with `--add`, trimmed; `None` where the option is missing,
/// has no value or has a blank one.
pub open spec fn requested_name(options: Map<Seq<char>, Option<Seq<char>>>) -> Option<Seq<char>> {
    if options.contains_key("--add"@) {
        match options["--add"@] {
            Some(value) => if trimmed(value).len() > 0 {
                Some(trimmed(value))
            } else {
                None
            },
            None => None,
        }
    } else {
        None
    }
}

/// What adding a command takes: the file to create, its contents and the
/// line that declares it.
#[derive(Debug, PartialEq, Eq)]
pub struct Scaffold {
    pub verbose: bool,
    pub command_name: String,
    pub file_name: String,
    pub contents: String,
    pub module_line: String,
}

impl Scaffold {
    /// Whether this is the scaffold of the command called `name`.
    pub open spec fn is_for(self, name: Seq<char>, verbose: bool) -> bool {
        &&& self.verbose == verbose
        &&& self.command_name@ == name
        &&& self.file_name@ == file_name_of(name)
        &&& self.contents@ == template(name)
        &&& self.module_line@ == module_line_of(name)
    }
}

/// Plans the addition of a command from the options of the invocation. The
/// command works in debug mode only and needs a name, given with `--add`.
pub fn plan(options: &ParsedOptions, debug: bool) -> (outcome: Result<Scaffold, TermenuError>)
    ensures
        if !debug {
            outcome matches Err(e) && e.reports(
                "E011"@,
                "FrameworkForbiddenError"@,
                "This command is only available in debug mode."@,
            )
        } else {
            match requested_name(options@) {
                Some(name) => outcome matches Ok(scaffold) && scaffold.is_for(
                    name,
                    options@.contains_key("--verbose"@),
                ),
                None => outcome matches Err(e) && e.reports(
                    "E112"@,
                    "InputMissingError"@,
                    "Action is required. Use `--add=<command_name>` to continue."@,
                ),
            }
        },
{
    if !debug {
        return Err(
            TermenuError::framework_forbidden_error(
                issue_payload("This command is only available in debug mode."),
            ),
        );
    }
    let verbose = options.contains_key("--verbose");
    let given = match options.get("--add") {
        Some(Some(value)) => {
            let name = trim(value.as_str());
            if name.is_empty() {
                None
            } else {
                Some(name)
            }
        },
        _ => None,
    };
    match given {
        Some(name) => {
            let lower = to_lowercase(name);
            let mut file_name = String::from_str("src/commands/");
            file_name.append(lower.as_str());
            file_name.append("_command.rs");
            let mut module_line = String::from_str("pub mod ");
            module_line.append(lower.as_str());
            module_line.append("_command;\n");
            Ok(
                Scaffold {
                    verbose,
                    command_name: String::from_str(name),
                    file_name,
                    contents: generate_command_template(name),
                    module_line,
                },
            )
        },
        None => Err(
            TermenuError::input_missing_error(
                issue_payload("Action is required. Use `--add=<command_name>` to continue."),
            ),
        ),
    }
}

/// The issue reported when the command's file is already there.
pub open spec fn file_exists_issue(file_name: Seq<char>) -> Seq<char> {
    "Command file already exists: "@ + file_name
}

/// The error for a command whose file is already there.
pub fn file_exists_error(file_name: &str) -> (error: TermenuError)
    ensures
        error.reports("E111"@, "InputError"@, file_exists_issue(file_name@)),
{
    let mut issue = String::from_str("Command file already exists: ");
    issue.append(file_name);
    TermenuError::input_unknown_error(issue_payload(issue.as_str()))
}

/// Whether the module file still lacks the line that declares the command.
pub fn needs_module_line(modules: &str, module_line: &str) -> (needed: bool)
    ensures
        needed == !occurs_in(module_line@, modules@),
{
    !contains(modules, module_line)
}

} // verus!
