use termenu::commands::developer_command::{
    self, capitalize_first_letter, file_exists_error, generate_command_template,
    needs_module_line, plan, Scaffold,
};
use termenu::commands::connection_failure;
use termenu::commands::inspire_command::{self, read_quote, Quote};
use termenu::commands::hello_world_command;
use termenu::termenu::{CommandEntry, ParsedOptions, SyncHandler, Termenu, TermenuError};

fn options(pairs: &[(&str, Option<&str>)]) -> ParsedOptions {
    let mut options = ParsedOptions::new();
    for (key, value) in pairs {
        options.insert(key.to_string(), value.map(|v| v.to_string()));
    }
    options
}

fn error_parts(error: &TermenuError) -> (String, String, Option<String>) {
    match error {
        TermenuError::Exception { code, name, .. } => {
            (code.clone(), name.clone(), error.issue_text())
        }
        TermenuError::Io(e) => panic!("unexpected {e}"),
    }
}

const FOO_SOURCE: &str = "use crate::modules::termenu::Termenu;

pub fn register() -> Termenu {
    let command: Termenu = Termenu::new_command(
        \"foo\",
        \"Describe what this command does.\",
        |_options| {
            println!(\"Command 'Foo' executed.\");
            Ok(())
        },
    );

    command
}
";

#[test]
fn template_names_the_command_twice() {
    assert_eq!(generate_command_template("Foo"), FOO_SOURCE);
}

#[test]
fn template_lowers_the_registered_name_only() {
    let source = generate_command_template("MyTool");
    assert!(source.contains("        \"mytool\",\n"));
    assert!(source.contains("println!(\"Command 'MyTool' executed.\");"));
    assert_eq!(source.len(), FOO_SOURCE.len() + 6);
}

#[test]
fn template_of_an_empty_name() {
    let source = generate_command_template("");
    assert!(source.contains("        \"\",\n"));
    assert!(source.contains("Command '' executed."));
}

#[test]
fn capitalize_raises_the_first_letter_only() {
    assert_eq!(capitalize_first_letter("abc"), "Abc");
    assert_eq!(capitalize_first_letter("a"), "A");
    assert_eq!(capitalize_first_letter("Abc"), "Abc");
    assert_eq!(capitalize_first_letter("aBC def"), "ABC def");
    assert_eq!(capitalize_first_letter("1abc"), "1abc");
    assert_eq!(capitalize_first_letter(""), "");
}

#[test]
fn capitalize_handles_letters_beyond_ascii() {
    assert_eq!(capitalize_first_letter("\u{e9}cole"), "\u{c9}cole");
    assert_eq!(capitalize_first_letter("\u{df}a"), "SSa");
    assert_eq!(capitalize_first_letter("\u{fb01}n"), "FIn");
}

#[test]
fn developer_command_is_registered_with_its_options() {
    let command: Termenu<u8, u8> = developer_command::register(3);
    assert_eq!(
        command.snapshot(),
        CommandEntry {
            command: "developer".to_string(),
            description: "Add new command for development purposes. Will only work in debug mode."
                .to_string(),
            options: vec![
                (
                    "--verbose".to_string(),
                    "--verbose | Display detailed usage information.".to_string()
                ),
                (
                    "--add".to_string(),
                    "--add=<command_name> | Specify the name of the command to add.".to_string()
                ),
            ],
        }
    );
    assert!(matches!(command.handler, Some(SyncHandler::User(3))));
    assert!(command.async_handler.is_none());
}

#[test]
fn hello_world_command_is_registered() {
    let command: Termenu<u8, u8> = hello_world_command::register(4);
    assert_eq!(
        command.snapshot(),
        CommandEntry {
            command: "helloworld".to_string(),
            description: "Print Hello, World!".to_string(),
            options: Vec::new(),
        }
    );
    assert!(matches!(command.handler, Some(SyncHandler::User(4))));
    assert!(command.async_handler.is_none());
}

#[test]
fn inspire_command_is_registered_with_its_option() {
    let command: Termenu<u8, u8> = inspire_command::register(5);
    assert_eq!(
        command.snapshot(),
        CommandEntry {
            command: "inspire".to_string(),
            description: "Fetches and displays a random inspirational quote.".to_string(),
            options: vec![(
                "--category".to_string(),
                "Specify a quote category (optional, not used in current API).".to_string()
            )],
        }
    );
    assert!(command.handler.is_none());
    assert_eq!(command.async_handler, Some(5));
}

#[test]
fn plan_needs_debug_mode() {
    let error = plan(&options(&[("--add", Some("foo"))]), false).unwrap_err();
    assert_eq!(
        error_parts(&error),
        (
            "E011".to_string(),
            "FrameworkForbiddenError".to_string(),
            Some("This command is only available in debug mode.".to_string())
        )
    );
}

#[test]
fn plan_needs_a_name() {
    for given in [
        options(&[]),
        options(&[("--verbose", None)]),
        options(&[("--add", None)]),
        options(&[("--add", Some(""))]),
        options(&[("--add", Some(" \t "))]),
    ] {
        let error = plan(&given, true).unwrap_err();
        assert_eq!(
            error_parts(&error),
            (
                "E112".to_string(),
                "InputMissingError".to_string(),
                Some("Action is required. Use `--add=<command_name>` to continue.".to_string())
            )
        );
    }
}

#[test]
fn plan_names_the_file_and_the_module() {
    assert_eq!(
        plan(&options(&[("--add", Some("Foo"))]), true).unwrap(),
        Scaffold {
            verbose: false,
            command_name: "Foo".to_string(),
            file_name: "src/commands/foo_command.rs".to_string(),
            contents: FOO_SOURCE.to_string(),
            module_line: "pub mod foo_command;\n".to_string(),
        }
    );
}

#[test]
fn plan_trims_the_name_and_reads_verbose() {
    let scaffold = plan(&options(&[("--verbose", None), ("--add", Some("  Foo \n"))]), true).unwrap();
    assert!(scaffold.verbose);
    assert_eq!(scaffold.command_name, "Foo");
    assert_eq!(scaffold.file_name, "src/commands/foo_command.rs");
    assert_eq!(scaffold.contents, FOO_SOURCE);
    assert_eq!(scaffold.module_line, "pub mod foo_command;\n");
}

#[test]
fn an_existing_file_is_an_input_error() {
    let error = file_exists_error("src/commands/foo_command.rs");
    assert_eq!(
        error_parts(&error),
        (
            "E111".to_string(),
            "InputError".to_string(),
            Some("Command file already exists: src/commands/foo_command.rs".to_string())
        )
    );
}

#[test]
fn a_failed_step_is_a_connection_error() {
    let failure = std::io::Error::new(std::io::ErrorKind::Other, "read-only file system");
    let error = connection_failure("Failed to create file", &failure.to_string());
    assert_eq!(
        error_parts(&error),
        (
            "E611".to_string(),
            "ConnectionError".to_string(),
            Some("Failed to create file: read-only file system".to_string())
        )
    );
}

#[test]
fn the_module_line_is_needed_until_it_is_there() {
    let line = "pub mod foo_command;\n";
    assert!(needs_module_line("", line));
    assert!(needs_module_line("pub mod bar_command;\n", line));
    assert!(needs_module_line("pub mod foo_command;", line));
    assert!(!needs_module_line("pub mod foo_command;\n", line));
    assert!(!needs_module_line("pub mod bar_command;\npub mod foo_command;\npub mod z;\n", line));
    assert!(!needs_module_line("anything", ""));
}

#[test]
fn quote_is_read_from_the_response() {
    let body = "{\"_id\":\"x\",\"content\":\"Stay hungry.\",\"author\":\"S. Jobs\",\"length\":12}";
    assert_eq!(
        read_quote(body).unwrap(),
        Quote { content: "Stay hungry.".to_string(), author: "S. Jobs".to_string() }
    );
}

#[test]
fn quote_falls_back_where_the_response_lacks_a_field() {
    assert_eq!(
        read_quote("{}").unwrap(),
        Quote { content: "No quote found.".to_string(), author: "Unknown".to_string() }
    );
    assert_eq!(
        read_quote("{\"content\": 3, \"author\": \"A\"}").unwrap(),
        Quote { content: "No quote found.".to_string(), author: "A".to_string() }
    );
    assert_eq!(
        read_quote("[\"content\", \"author\"]").unwrap(),
        Quote { content: "No quote found.".to_string(), author: "Unknown".to_string() }
    );
    assert_eq!(
        read_quote("null").unwrap(),
        Quote { content: "No quote found.".to_string(), author: "Unknown".to_string() }
    );
}

#[test]
fn a_response_that_is_no_json_is_an_input_error() {
    let error = read_quote("<html>").unwrap_err();
    assert_eq!(
        error_parts(&error),
        (
            "E111".to_string(),
            "InputError".to_string(),
            Some("Invalid JSON: expected value at line 1 column 1".to_string())
        )
    );
    let error = read_quote("{\"content\": ").unwrap_err();
    assert_eq!(
        error_parts(&error).2,
        Some("Invalid JSON: EOF while parsing a value at line 1 column 12".to_string())
    );
}
