use termenu::termenu::{ParsedOptions, Termenu, TermenuError};
use termenu::text::{is_blank, split_once};

type Command = Termenu<u8, u8>;

fn tokens(raw: &[&str]) -> Vec<String> {
    raw.iter().map(|t| t.to_string()).collect()
}

fn developer() -> Command {
    let mut command = Command::new_command("developer", "adds commands", 1);
    command.add_option("--verbose", "say more");
    command.add_option("--add", "the name to add");
    command
}

fn unknown_option(error: TermenuError) -> String {
    match &error {
        TermenuError::Exception { code, name, .. } => {
            assert_eq!(code, "E111");
            assert_eq!(name, "InputError");
        }
        TermenuError::Io(e) => panic!("unexpected {e}"),
    }
    error.issue_text().expect("an issue")
}

#[test]
fn parsed_options_start_empty() {
    let options = ParsedOptions::new();
    assert!(options.is_empty());
    assert_eq!(options.len(), 0);
    assert_eq!(options.get("--verbose"), None);
    assert!(!options.contains_key("--verbose"));
}

#[test]
fn parsed_options_keep_what_is_inserted() {
    let mut options = ParsedOptions::new();
    options.insert("--add".to_string(), Some("foo".to_string()));
    options.insert("--verbose".to_string(), None);
    assert_eq!(options.len(), 2);
    assert!(!options.is_empty());
    assert_eq!(options.get("--add"), Some(&Some("foo".to_string())));
    assert_eq!(options.get("--verbose"), Some(&None));
    assert_eq!(options.get("--other"), None);
    assert!(options.contains_key("--verbose"));
    assert!(!options.contains_key("--verb"));
}

#[test]
fn parsed_options_replace_an_earlier_value() {
    let mut options = ParsedOptions::new();
    options.insert("--add".to_string(), Some("foo".to_string()));
    options.insert("--verbose".to_string(), None);
    options.insert("--add".to_string(), Some("bar".to_string()));
    assert_eq!(options.len(), 2);
    assert_eq!(options.get("--add"), Some(&Some("bar".to_string())));
    assert_eq!(options.entries().len(), 2);
    options.insert("--add".to_string(), None);
    assert_eq!(options.get("--add"), Some(&None));
}

#[test]
fn parse_value_and_flag() {
    let parsed = developer().parse_options(&tokens(&["--add=foo", "--verbose"])).unwrap();
    assert_eq!(parsed.len(), 2);
    assert_eq!(parsed.get("--add"), Some(&Some("foo".to_string())));
    assert_eq!(parsed.get("--verbose"), Some(&None));
}

#[test]
fn parse_nothing() {
    let parsed = developer().parse_options(&[]).unwrap();
    assert!(parsed.is_empty());
}

#[test]
fn parse_splits_at_the_first_separator() {
    let parsed = developer().parse_options(&tokens(&["--add=a=b"])).unwrap();
    assert_eq!(parsed.get("--add"), Some(&Some("a=b".to_string())));
    let parsed = developer().parse_options(&tokens(&["--add="])).unwrap();
    assert_eq!(parsed.get("--add"), Some(&Some(String::new())));
}

#[test]
fn parse_keeps_the_last_of_a_repeated_option() {
    let parsed = developer().parse_options(&tokens(&["--add=a", "--add", "--add=c"])).unwrap();
    assert_eq!(parsed.len(), 1);
    assert_eq!(parsed.get("--add"), Some(&Some("c".to_string())));
    let parsed = developer().parse_options(&tokens(&["--add=a", "--add"])).unwrap();
    assert_eq!(parsed.get("--add"), Some(&None));
}

#[test]
fn parse_rejects_an_unknown_token_at_any_position() {
    for raw in [
        vec!["--bogus"],
        vec!["--bogus", "--verbose", "--add=x"],
        vec!["--verbose", "--bogus", "--add=x"],
        vec!["--verbose", "--add=x", "--bogus"],
    ] {
        let error = developer().parse_options(&tokens(&raw)).unwrap_err();
        assert_eq!(unknown_option(error), "Unknown option: '--bogus'");
    }
}

#[test]
fn parse_names_the_key_of_an_unknown_valued_token() {
    let error = developer().parse_options(&tokens(&["--verbose", "--bogus=1"])).unwrap_err();
    assert_eq!(unknown_option(error), "Unknown option: '--bogus'");
}

#[test]
fn parse_names_the_first_unknown_token() {
    let error = developer().parse_options(&tokens(&["--one", "--two"])).unwrap_err();
    assert_eq!(unknown_option(error), "Unknown option: '--one'");
}

#[test]
fn parse_matches_names_exactly() {
    for raw in ["--verb", "--verbose ", "--VERBOSE", "-verbose", "verbose", "", "=x"] {
        let error = developer().parse_options(&tokens(&[raw])).unwrap_err();
        let key = raw.split('=').next().unwrap();
        assert_eq!(unknown_option(error), format!("Unknown option: '{key}'"));
    }
}

#[test]
fn parse_uses_the_first_of_two_equal_options() {
    let mut command = developer();
    command.add_option("--add", "again");
    assert_eq!(command.options.len(), 3);
    let parsed = command.parse_options(&tokens(&["--add=x"])).unwrap();
    assert_eq!(parsed.get("--add"), Some(&Some("x".to_string())));
}

#[test]
fn knows_its_own_options_only() {
    let command = developer();
    assert!(command.knows("--add"));
    assert!(command.knows("--verbose"));
    assert!(!command.knows("--add="));
    assert!(!command.knows(""));
    assert!(!Command::new_command("bare", "no options", 0).knows("--add"));
}

#[test]
fn split_once_at_the_first_separator() {
    assert_eq!(split_once("--add=foo", '='), Some(("--add", "foo")));
    assert_eq!(split_once("a=b=c", '='), Some(("a", "b=c")));
    assert_eq!(split_once("=", '='), Some(("", "")));
    assert_eq!(split_once("--verbose", '='), None);
    assert_eq!(split_once("", '='), None);
    assert_eq!(split_once("\u{e9}t\u{e9}=\u{fc}", '='), Some(("\u{e9}t\u{e9}", "\u{fc}")));
}

#[test]
fn blank_is_white_space_only() {
    assert!(is_blank(""));
    assert!(is_blank(" "));
    assert!(is_blank(" \t\r\n"));
    assert!(is_blank("\u{a0}\u{2003}\u{3000}\u{85}\u{1680}\u{2028}\u{2029}\u{202f}\u{205f}\u{b}\u{c}"));
    assert!(!is_blank("a"));
    assert!(!is_blank("  a  "));
    assert!(!is_blank("\u{200b}"));
    assert!(!is_blank("\u{180e}"));
    assert!(!is_blank("\u{feff}"));
    assert!(!is_blank("_"));
}
