//! Command descriptors: a command's name, description, option schema and
//! handler, and what invoking one amounts to.

use vstd::prelude::*;
use vstd::string::StringExecFns;
use crate::termenu::exceptions::{issue_payload, TermenuError};
use crate::termenu::options::{
    all_recognized,
    first_unrecognized,
    option_key,
    parsed,
    recognized,
    value_view,
    ParsedOptions,
};
use crate::text::split_once;

verus! {

/// What a command shows of itself: its name, its description and its options,
/// each option a token with a description.
pub struct EntryView {
    pub command: Seq<char>,
    pub description: Seq<char>,
    pub options: Seq<(Seq<char>, Seq<char>)>,
}

/// The name, description and options of one command, without its handler.
#[derive(Debug, PartialEq, Eq)]
pub struct CommandEntry {
    pub command: String,
    pub description: String,
    pub options: Vec<(String, String)>,
}

impl DeepView for CommandEntry {
    type V = EntryView;

    open spec fn deep_view(&self) -> EntryView {
        EntryView {
            command: self.command@,
            description: self.description@,
            options: self.options.deep_view(),
        }
    }
}

/// A synchronous handler: one that the caller supplied, or the built-in help
/// renderer, which holds the commands it lists.
#[derive(Debug)]
pub enum SyncHandler<S> {
    /// A handler of the caller.
    User(S),
    /// The built-in help renderer with the commands that it lists.
    Help(Vec<CommandEntry>),
}

/// A registered command. `S` is the type of the caller's synchronous handlers
/// and `A` that of its asynchronous ones; the engine stores them and hands
/// them back, and never calls them.
#[derive(Debug)]
pub struct Termenu<S, A> {
    pub command: String,
    pub description: String,
    pub options: Vec<(String, String)>,
    pub handler: Option<SyncHandler<S>>,
    pub async_handler: Option<A>,
}

/// What remains to be done once a command has been resolved and its options
/// parsed.
#[allow(inconsistent_fields)]
#[derive(Debug)]
pub enum Invocation<S, A> {
    /// Call the synchronous handler with the options.
    Sync { handler: S, options: ParsedOptions },
    /// Call the asynchronous handler with the options and await it.
    Async { handler: A, options: ParsedOptions },
    /// Render help for `entries`: for all of them, or for the one named
    /// `specific`.
    Help { entries: Vec<CommandEntry>, specific: Option<String>, verbose: bool },
}

/// The names that a schema knows.
pub open spec fn option_names(options: Seq<(Seq<char>, Seq<char>)>) -> Seq<Seq<char>> {
    options.map_values(|option: (Seq<char>, Seq<char>)| option.0)
}

/// The issue reported for a token whose name the schema does not know.
pub open spec fn unknown_option_issue(key: Seq<char>) -> Seq<char> {
    "Unknown option: '"@ + key + "'"@
}

/// Whether `error` is the error for the first token of `tokens` whose name
/// `schema` does not know: an input error that names that token.
pub open spec fn rejects(schema: Seq<Seq<char>>, tokens: Seq<Seq<char>>, error: TermenuError) -> bool {
    exists|at: int|
        {
            &&& #[trigger] first_unrecognized(schema, tokens, at)
            &&& error.reports(
                "E111"@,
                "InputError"@,
                unknown_option_issue(option_key(tokens[at])),
            )
        }
}

/// Whether `outcome` is what reading `tokens` against `schema` gives: the
/// mapping they stand for when the schema knows them all, else the error for
/// the first that it does not know.
pub open spec fn parses(
    schema: Seq<Seq<char>>,
    tokens: Seq<Seq<char>>,
    outcome: Result<ParsedOptions, TermenuError>,
) -> bool {
    match outcome {
        Ok(options) => all_recognized(schema, tokens) && options@ == parsed(tokens),
        Err(error) => rejects(schema, tokens, error),
    }
}

/// A token whose name the schema does not know is rejected by name, wherever
/// it stands among tokens that the schema knows.
pub proof fn lemma_unknown_token_is_rejected(
    schema: Seq<Seq<char>>,
    tokens: Seq<Seq<char>>,
    at: int,
    outcome: Result<ParsedOptions, TermenuError>,
)
    requires
        parses(schema, tokens, outcome),
        0 <= at < tokens.len(),
        !recognized(schema, tokens[at]),
        forall|j: int| 0 <= j < tokens.len() && j != at ==> recognized(schema, #[trigger] tokens[j]),
    ensures
        outcome matches Err(error) && error.reports(
            "E111"@,
            "InputError"@,
            unknown_option_issue(option_key(tokens[at])),
        ),
{
}

/// The command that the options of a help invocation ask for, if any.
pub open spec fn requested_command(options: Map<Seq<char>, Option<Seq<char>>>) -> Option<
    Seq<char>,
> {
    if options.contains_key("--command"@) {
        options["--command"@]
    } else {
        None
    }
}

impl<S, A> Termenu<S, A> {
    /// What the command shows of itself.
    pub open spec fn entry(self) -> EntryView {
        EntryView {
            command: self.command@,
            description: self.description@,
            options: self.options.deep_view(),
        }
    }

    /// The names of the command's options.
    pub open spec fn schema(self) -> Seq<Seq<char>> {
        option_names(self.options.deep_view())
    }

    /// Whether `outcome` is what invoking this command with `options` gives:
    /// its synchronous handler if it has one, else its asynchronous one, else
    /// the error that it has no handler. The built-in help handler reads
    /// `--verbose` and `--command` from the options.
    pub open spec fn invokes(
        self,
        options: Map<Seq<char>, Option<Seq<char>>>,
        outcome: Result<Invocation<S, A>, TermenuError>,
    ) -> bool {
        match self.handler {
            Some(SyncHandler::User(h)) => outcome matches Ok(
                Invocation::Sync { handler, options: o },
            ) && handler == h && o@ == options,
            Some(SyncHandler::Help(snapshot)) => outcome matches Ok(
                Invocation::Help { entries, specific, verbose },
            ) && entries == snapshot && verbose == options.contains_key("--verbose"@)
                && value_view(specific) == requested_command(options),
            None => match self.async_handler {
                Some(h) => outcome matches Ok(Invocation::Async { handler, options: o })
                    && handler == h && o@ == options,
                None => outcome matches Err(e) && e.reports(
                    "E712"@,
                    "InvalidCommandError"@,
                    "No handler found for this command."@,
                ),
            },
        }
    }

    /// A command with a synchronous handler and no options yet.
    pub fn new_command(command: &str, description: &str, handler: S) -> (termenu: Self)
        ensures
            termenu.command@ == command@,
            termenu.description@ == description@,
            termenu.options@.len() == 0,
            termenu.handler == Some(SyncHandler::User(handler)),
            termenu.async_handler is None,
    {
        Termenu {
            command: String::from_str(command),
            description: String::from_str(description),
            options: Vec::new(),
            handler: Some(SyncHandler::User(handler)),
            async_handler: None,
        }
    }

    /// A command with an asynchronous handler and no options yet.
    pub fn new_async_command(command: &str, description: &str, handler: A) -> (termenu: Self)
        ensures
            termenu.command@ == command@,
            termenu.description@ == description@,
            termenu.options@.len() == 0,
            termenu.handler is None,
            termenu.async_handler == Some(handler),
    {
        Termenu {
            command: String::from_str(command),
            description: String::from_str(description),
            options: Vec::new(),
            handler: None,
            async_handler: Some(handler),
        }
    }

    /// Appends an option to the command's schema.
    pub fn add_option(&mut self, option: &str, description: &str)
        ensures
            final(self).options.deep_view() == old(self).options.deep_view().push(
                (option@, description@),
            ),
            final(self).command == old(self).command,
            final(self).description == old(self).description,
            final(self).handler == old(self).handler,
            final(self).async_handler == old(self).async_handler,
    {
        self.options.push((String::from_str(option), String::from_str(description)));
    }

    /// The command's name, description and options, copied.
    pub fn snapshot(&self) -> (entry: CommandEntry)
        ensures
            entry.deep_view() == self.entry(),
    {
        let mut options: Vec<(String, String)> = Vec::new();
        let mut i: usize = 0;
        while i < self.options.len()
            invariant
                i <= self.options@.len(),
                options@.len() == i,
                forall|j: int|
                    0 <= j < i ==> (#[trigger] options@[j]).0@ == self.options@[j].0@
                        && options@[j].1@ == self.options@[j].1@,
            decreases self.options@.len() - i,
        {
            options.push((self.options[i].0.clone(), self.options[i].1.clone()));
            i += 1;
        }
        assert(options.deep_view() =~= self.options.deep_view());
        CommandEntry {
            command: self.command.clone(),
            description: self.description.clone(),
            options,
        }
    }

    /// Whether the schema holds an option of exactly this name.
    pub fn knows(&self, name: &str) -> (known: bool)
        ensures
            known == self.schema().contains(name@),
    {
        let wanted = String::from_str(name);
        let mut i: usize = 0;
        while i < self.options.len()
            invariant
                wanted@ == name@,
                i <= self.options@.len(),
                forall|j: int| 0 <= j < i ==> (#[trigger] self.schema()[j]) != name@,
            decreases self.options@.len() - i,
        {
            if self.options[i].0 == wanted {
                assert(self.schema()[i as int] == name@);
                return true;
            }
            i += 1;
        }
        false
    }

    /// Reads raw option tokens against the command's schema. A token
    /// `name=value` records the value under the name, a bare token records a
    /// flag; the first token whose name the schema does not know ends the
    /// parse with an error that names it.
    pub fn parse_options(&self, raw_args: &[String]) -> (outcome: Result<
        ParsedOptions,
        TermenuError,
    >)
        ensures
            outcome is Ok <==> all_recognized(self.schema(), raw_args.deep_view()),
            parses(self.schema(), raw_args.deep_view(), outcome),
    {
        let ghost tokens = raw_args.deep_view();
        let mut options = ParsedOptions::new();
        let mut i: usize = 0;
        while i < raw_args.len()
            invariant
                i <= raw_args@.len(),
                tokens == raw_args.deep_view(),
                tokens.len() == raw_args@.len(),
                forall|j: int| 0 <= j < i ==> recognized(self.schema(), #[trigger] tokens[j]),
                options@ == parsed(tokens.take(i as int)),
            decreases raw_args@.len() - i,
        {
            let arg = &raw_args[i];
            assert(tokens.take(i + 1).drop_last() =~= tokens.take(i as int));
            match split_once(arg.as_str(), '=') {
                Some((key, value)) => {
                    if self.knows(key) {
                        options.insert(String::from_str(key), Some(String::from_str(value)));
                    } else {
                        assert(first_unrecognized(self.schema(), tokens, i as int));
                        return Err(Self::unknown_option(key));
                    }
                },
                None => {
                    if self.knows(arg.as_str()) {
                        options.insert(arg.clone(), None);
                    } else {
                        assert(first_unrecognized(self.schema(), tokens, i as int));
                        return Err(Self::unknown_option(arg.as_str()));
                    }
                },
            }
            i += 1;
        }
        assert(tokens.take(i as int) =~= tokens);
        Ok(options)
    }

    /// The error for a token whose name the schema does not know.
    fn unknown_option(key: &str) -> (error: TermenuError)
        ensures
            error.reports("E111"@, "InputError"@, unknown_option_issue(key@)),
    {
        let mut issue = String::from_str("Unknown option: '");
        issue.append(key);
        issue.append("'");
        TermenuError::input_unknown_error(issue_payload(issue.as_str()))
    }

    /// Resolves what invoking the command with `options` amounts to: which
    /// handler is to run, the synchronous one before the asynchronous one,
    /// and with which options. A command without a handler is an error. The
    /// handler itself is left to the caller to call or to await.
    pub fn execute(self, options: ParsedOptions) -> (outcome: Result<
        Invocation<S, A>,
        TermenuError,
    >)
        ensures
            self.invokes(options@, outcome),
    {
        match self.handler {
            Some(SyncHandler::User(handler)) => Ok(Invocation::Sync { handler, options }),
            Some(SyncHandler::Help(entries)) => {
                let verbose = options.contains_key("--verbose");
                let specific = match options.get("--command") {
                    Some(Some(name)) => Some(name.clone()),
                    _ => None,
                };
                Ok(Invocation::Help { entries, specific, verbose })
            },
            None => match self.async_handler {
                Some(handler) => Ok(Invocation::Async { handler, options }),
                None => Err(
                    TermenuError::invalid_command_error(
                        issue_payload("No handler found for this command."),
                    ),
                ),
            },
        }
    }
}

} // verus!
