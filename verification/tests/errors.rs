use serde_json::Value;
use termenu::exceptions::ServError;
use termenu::termenu::exceptions::{exception_line_parts, join};
use termenu::termenu::{Part, TermenuError, Tone};

fn issue(text: &str) -> Option<Value> {
    Some(Value::from_iter([("issue", text)]))
}

fn parts(error: TermenuError) -> (String, String, Option<Value>) {
    match error {
        TermenuError::Exception { code, name, data } => (code, name, data),
        TermenuError::Io(e) => panic!("unexpected {e}"),
    }
}

fn serv_parts(error: ServError) -> (String, String, Option<Value>) {
    match error {
        ServError::Exception { code, name, data } => (code, name, data),
        ServError::Io(e) => panic!("unexpected {e}"),
    }
}

fn named(code: &str, name: &str) -> (String, String, Option<Value>) {
    (code.to_string(), name.to_string(), None)
}

#[test]
fn framework_errors_have_their_codes() {
    assert_eq!(parts(TermenuError::framework_unknown_error(None)), named("E011", "FrameworkError"));
    assert_eq!(
        parts(TermenuError::framework_forbidden_error(None)),
        named("E011", "FrameworkForbiddenError")
    );
    assert_eq!(
        parts(TermenuError::framework_resource_error(None)),
        named("E011", "FrameworkForbiddenError")
    );
}

#[test]
fn input_errors_have_their_codes() {
    assert_eq!(parts(TermenuError::input_unknown_error(None)), named("E111", "InputError"));
    assert_eq!(parts(TermenuError::input_missing_error(None)), named("E112", "InputMissingError"));
}

#[test]
fn connection_errors_have_their_codes() {
    assert_eq!(
        parts(TermenuError::connection_unknown_error(None)),
        named("E611", "ConnectionError")
    );
    assert_eq!(
        parts(TermenuError::connection_timeout_error(None)),
        named("E612", "ConnectionTimeoutError")
    );
}

#[test]
fn command_errors_have_their_codes() {
    assert_eq!(parts(TermenuError::command_unknown_error(None)), named("E711", "CommandError"));
    assert_eq!(
        parts(TermenuError::invalid_command_error(None)),
        named("E712", "InvalidCommandError")
    );
    assert_eq!(
        parts(TermenuError::command_timeout_error(None)),
        named("E713", "CommandTimeoutError")
    );
}

#[test]
fn payload_is_kept_as_given() {
    let data = issue("it broke");
    let (_, _, kept) = parts(TermenuError::command_unknown_error(data.clone()));
    assert_eq!(kept, data);
}

#[test]
fn message_without_payload() {
    let error = TermenuError::invalid_command_error(None);
    assert_eq!(error.issue_text(), None);
    assert_eq!(error.message(), "[E712] InvalidCommandError");
}

#[test]
fn message_with_issue() {
    let error = TermenuError::input_missing_error(issue("no name given"));
    assert_eq!(error.issue_text(), Some("no name given".to_string()));
    assert_eq!(error.message(), "[E112] InputMissingError: no name given");
}

#[test]
fn message_with_payload_that_has_no_issue() {
    let error = TermenuError::input_missing_error(Some(Value::from_iter([("other", "x")])));
    assert_eq!(error.issue_text(), Some("<no issue field>".to_string()));
    assert_eq!(error.message(), "[E112] InputMissingError: <no issue field>");
}

#[test]
fn message_with_issue_that_is_no_text() {
    let error = TermenuError::input_missing_error(Some(Value::from_iter([("issue", 7)])));
    assert_eq!(error.message(), "[E112] InputMissingError: <no issue field>");
    let error = TermenuError::input_missing_error(Some(Value::from("issue")));
    assert_eq!(error.message(), "[E112] InputMissingError: <no issue field>");
}

#[test]
fn message_of_io_failure_is_its_own_text() {
    let error = TermenuError::Io(std::io::Error::new(std::io::ErrorKind::Other, "disk on fire"));
    assert_eq!(error.issue_text(), None);
    assert_eq!(error.message(), "disk on fire");
}

#[test]
fn service_errors_have_their_codes() {
    assert_eq!(serv_parts(ServError::input_unknown_error(None)), named("E111", "InputError"));
    assert_eq!(serv_parts(ServError::input_missing_error(None)), named("E112", "InputMissingError"));
    assert_eq!(serv_parts(ServError::connection_unknown_error(None)), named("611", "ConnectionError"));
    assert_eq!(
        serv_parts(ServError::connection_timeout_error(None)),
        named("612", "ConnectionTimeoutError")
    );
    assert_eq!(serv_parts(ServError::command_unknown_error(None)), named("711", "CommandError"));
    assert_eq!(
        serv_parts(ServError::invalid_command_error(None)),
        named("E712", "InvalidCommandError")
    );
    assert_eq!(
        serv_parts(ServError::command_timeout_error(None)),
        named("713", "CommandTimeoutError")
    );
}

#[test]
fn service_error_messages() {
    assert_eq!(ServError::command_timeout_error(None).message(), "[713] CommandTimeoutError");
    assert_eq!(
        ServError::connection_unknown_error(issue("no route")).message(),
        "[611] ConnectionError: no route"
    );
    assert_eq!(
        ServError::connection_unknown_error(Some(Value::Null)).message(),
        "[611] ConnectionError: <no issue field>"
    );
    let error = ServError::Io(std::io::Error::new(std::io::ErrorKind::Other, "gone"));
    assert_eq!(error.message(), "gone");
    assert_eq!(error.issue_text(), None);
}

fn part(text: &str, tone: Tone) -> Part {
    Part { text: text.to_string(), tone }
}

#[test]
fn parts_of_a_line_without_payload() {
    assert_eq!(
        TermenuError::invalid_command_error(None).parts(),
        vec![
            part("[", Tone::Plain),
            part("E712", Tone::Code),
            part("] ", Tone::Plain),
            part("InvalidCommandError", Tone::Name),
        ]
    );
}

#[test]
fn parts_of_a_line_with_issue() {
    let expected = vec![
        part("[", Tone::Plain),
        part("E112", Tone::Code),
        part("] ", Tone::Plain),
        part("InputMissingError", Tone::Name),
        part(": ", Tone::Plain),
        part("no name given", Tone::Issue),
    ];
    assert_eq!(TermenuError::input_missing_error(issue("no name given")).parts(), expected);
    assert_eq!(ServError::input_missing_error(issue("no name given")).parts(), expected);
    assert_eq!(
        exception_line_parts("E112", "InputMissingError", Some("no name given".to_string())),
        expected
    );
    assert_eq!(join(&expected), "[E112] InputMissingError: no name given");
}

#[test]
fn parts_of_a_line_with_payload_that_has_no_issue() {
    let parts = TermenuError::command_unknown_error(Some(Value::Null)).parts();
    assert_eq!(parts.len(), 6);
    assert_eq!(parts[5], part("<no issue field>", Tone::Issue));
}

#[test]
fn parts_of_an_io_failure() {
    let error = TermenuError::Io(std::io::Error::new(std::io::ErrorKind::Other, "disk on fire"));
    assert_eq!(error.parts(), vec![part("disk on fire", Tone::Failure)]);
    let error = ServError::Io(std::io::Error::new(std::io::ErrorKind::Other, "gone"));
    assert_eq!(error.parts(), vec![part("gone", Tone::Failure)]);
}

#[test]
fn joining_no_parts_gives_nothing() {
    assert_eq!(join(&Vec::new()), "");
}
