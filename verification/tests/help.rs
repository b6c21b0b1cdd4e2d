use termenu::banner::Banner;
use termenu::termenu::{show_help, CommandEntry, HelpLine, Package, TermenuError};

fn package() -> Package {
    Package {
        name: "termenu".to_string(),
        version: "1.2.3".to_string(),
        authors: vec!["Ada <ada@example.org>".to_string(), "Grace".to_string()],
    }
}

fn entry(command: &str, description: &str, options: &[(&str, &str)]) -> CommandEntry {
    CommandEntry {
        command: command.to_string(),
        description: description.to_string(),
        options: options.iter().map(|(o, d)| (o.to_string(), d.to_string())).collect(),
    }
}

fn entries() -> Vec<CommandEntry> {
    vec![
        entry("developer", "adds commands", &[("--verbose", "say more"), ("--add", "the name")]),
        entry("helloworld", "greets", &[]),
        entry("inspire", "quotes", &[("--category", "the kind of quote")]),
    ]
}

fn preamble() -> Vec<HelpLine> {
    vec![
        HelpLine::Banner(Banner::render("Termenu")),
        HelpLine::Developer("Ada <ada@example.org>".to_string()),
        HelpLine::Version("1.2.3".to_string()),
        HelpLine::Usage("termenu".to_string()),
        HelpLine::Note("termenu".to_string()),
        HelpLine::Heading,
    ]
}

fn command(name: &str, description: &str) -> HelpLine {
    HelpLine::Command { name: name.to_string(), description: description.to_string() }
}

fn flag(token: &str, description: &str) -> HelpLine {
    HelpLine::Flag { token: token.to_string(), description: description.to_string() }
}

#[test]
fn the_page_starts_with_the_banner() {
    let lines = show_help(&package(), &[], None, false).unwrap();
    assert_eq!(lines, preamble());
    assert!(matches!(&lines[0], HelpLine::Banner(Ok(art)) if art.lines().count() == 6));
}

#[test]
fn the_plain_page_lists_each_command_once() {
    let mut expected = preamble();
    expected.push(command("developer", "adds commands"));
    expected.push(command("helloworld", "greets"));
    expected.push(command("inspire", "quotes"));
    assert_eq!(show_help(&package(), &entries(), None, false).unwrap(), expected);
}

#[test]
fn the_verbose_page_lists_each_option() {
    let mut expected = preamble();
    expected.push(command("developer", "adds commands"));
    expected.push(flag("--verbose", "say more"));
    expected.push(flag("--add", "the name"));
    expected.push(HelpLine::Blank);
    expected.push(command("helloworld", "greets"));
    expected.push(HelpLine::Blank);
    expected.push(command("inspire", "quotes"));
    expected.push(flag("--category", "the kind of quote"));
    expected.push(HelpLine::Blank);
    assert_eq!(show_help(&package(), &entries(), None, true).unwrap(), expected);
}

#[test]
fn the_page_for_one_command_lists_it_alone_with_its_options() {
    let mut expected = preamble();
    expected.push(command("developer", "adds commands"));
    expected.push(flag("--verbose", "say more"));
    expected.push(flag("--add", "the name"));
    expected.push(HelpLine::Blank);
    assert_eq!(show_help(&package(), &entries(), Some("developer"), false).unwrap(), expected);
    assert_eq!(show_help(&package(), &entries(), Some("developer"), true).unwrap(), expected);
}

#[test]
fn the_page_for_a_command_without_options() {
    let mut expected = preamble();
    expected.push(command("helloworld", "greets"));
    expected.push(HelpLine::Blank);
    assert_eq!(show_help(&package(), &entries(), Some("helloworld"), false).unwrap(), expected);
}

#[test]
fn the_page_for_an_unknown_command_lists_none() {
    assert_eq!(show_help(&package(), &entries(), Some("nothing"), true).unwrap(), preamble());
    assert_eq!(show_help(&package(), &entries(), Some("Developer"), false).unwrap(), preamble());
    assert_eq!(show_help(&package(), &entries(), Some(""), false).unwrap(), preamble());
}

#[test]
fn the_page_lists_every_entry_of_a_repeated_name() {
    let twice = vec![entry("a", "first", &[]), entry("b", "other", &[]), entry("a", "second", &[])];
    let mut expected = preamble();
    expected.push(command("a", "first"));
    expected.push(HelpLine::Blank);
    expected.push(command("a", "second"));
    expected.push(HelpLine::Blank);
    assert_eq!(show_help(&package(), &twice, Some("a"), false).unwrap(), expected);
}

#[test]
fn a_package_without_author_has_no_page() {
    let mut anonymous = package();
    anonymous.authors.clear();
    let error = show_help(&anonymous, &entries(), None, false).unwrap_err();
    match &error {
        TermenuError::Exception { code, name, .. } => {
            assert_eq!(code, "E011");
            assert_eq!(name, "FrameworkForbiddenError");
        }
        TermenuError::Io(e) => panic!("unexpected {e}"),
    }
    assert_eq!(error.issue_text(), Some("Package metadata names no author.".to_string()));
}
