//! Dispatch: from the registered commands and the process arguments to the
//! handler that is to run.

use vstd::prelude::*;
use vstd::slice::slice_subrange;
use vstd::string::StringExecFns;
use crate::termenu::descriptor::{
    option_names,
    rejects,
    requested_command,
    CommandEntry,
    EntryView,
    Invocation,
    SyncHandler,
    Termenu,
};
use crate::termenu::exceptions::{issue_payload, TermenuError};
use crate::termenu::help::{command_line, entry_lines, lemma_plain_listing, lemma_specific_listing, listing};
use crate::termenu::options::{all_recognized, option_key, option_value, parsed, value_view};
use crate::termenu::registry::{
    entries_of,
    first_repeat,
    names_distinct,
    registry_ok,
    repeats,
    RegistryFault,
    MAX_COMMAND,
};

verus! {

/// What the built-in help command shows of itself.
pub open spec fn help_entry() -> EntryView {
    EntryView {
        command: "help"@,
        description: "Show usage guide and command descriptions."@,
        options: seq![
            ("--verbose"@, "Display detailed usage information."@),
            ("--command"@, "Show help for a specific command (e.g. --command=test)."@),
        ],
    }
}

/// The entries that are searched for a command: those of the registered
/// commands, then that of the built-in help command.
pub open spec fn with_help(entries: Seq<EntryView>) -> Seq<EntryView> {
    entries.push(help_entry())
}

/// Whether entry `at` is the first of the given name.
pub open spec fn resolves(entries: Seq<EntryView>, name: Seq<char>, at: int) -> bool {
    &&& 0 <= at < entries.len()
    &&& entries[at].command == name
    &&& forall|k: int| 0 <= k < at ==> (#[trigger] entries[k]).command != name
}

/// Whether some entry has the given name.
pub open spec fn registered(entries: Seq<EntryView>, name: Seq<char>) -> bool {
    exists|at: int| 0 <= at < entries.len() && (#[trigger] entries[at]).command == name
}

/// The issue reported for a command name that is not registered.
pub open spec fn unknown_command_issue(name: Seq<char>) -> Seq<char> {
    "invalid command '"@ + name + "'. Run with 'help' to view available commands."@
}

/// Whether `outcome` is the help page request made when no command is named:
/// all entries, the built-in one included, without detail.
pub open spec fn asks_default_help<S, A>(
    commands: Seq<Termenu<S, A>>,
    outcome: Result<Invocation<S, A>, TermenuError>,
) -> bool {
    outcome matches Ok(Invocation::Help { entries, specific, verbose }) && entries.deep_view()
        == with_help(entries_of(commands)) && specific is None && !verbose
}

/// Whether `outcome` is what naming entry `at` with the raw option tokens
/// `raw` gives: the error of the first token that the entry's schema does not
/// know, else the invocation of that command with the parsed options. The
/// built-in help command, which comes after the registered ones, lists the
/// registered commands.
pub open spec fn dispatches_to<S, A>(
    commands: Seq<Termenu<S, A>>,
    at: int,
    raw: Seq<Seq<char>>,
    outcome: Result<Invocation<S, A>, TermenuError>,
) -> bool {
    let schema = option_names(with_help(entries_of(commands))[at].options);
    if !all_recognized(schema, raw) {
        outcome matches Err(e) && rejects(schema, raw, e)
    } else if at < commands.len() {
        commands[at].invokes(parsed(raw), outcome)
    } else {
        outcome matches Ok(Invocation::Help { entries, specific, verbose }) && entries.deep_view()
            == entries_of(commands) && verbose == parsed(raw).contains_key("--verbose"@)
            && value_view(specific) == requested_command(parsed(raw))
    }
}

/// Whether `outcome` is what the engine decides for the registered commands
/// and the process arguments `args`, of which the first is the program, the
/// second the command's name and the rest its raw option tokens.
pub open spec fn dispatches<S, A>(
    commands: Seq<Termenu<S, A>>,
    args: Seq<Seq<char>>,
    outcome: Result<Invocation<S, A>, TermenuError>,
) -> bool {
    let entries = with_help(entries_of(commands));
    if args.len() < 2 {
        asks_default_help(commands, outcome)
    } else if !registered(entries, args[1]) {
        outcome matches Err(e) && e.reports(
            "E712"@,
            "InvalidCommandError"@,
            unknown_command_issue(args[1]),
        )
    } else {
        exists|at: int| #[trigger]
            resolves(entries, args[1], at) && dispatches_to(commands, at, args.skip(2), outcome)
    }
}

impl<S, A> Termenu<S, A> {
    /// The built-in help command, which lists `snapshot`.
    pub fn help(snapshot: Vec<CommandEntry>) -> (termenu: Self)
        ensures
            termenu.entry() == help_entry(),
            termenu.handler == Some(SyncHandler::<S>::Help(snapshot)),
            termenu.async_handler is None,
    {
        let mut options: Vec<(String, String)> = Vec::new();
        options.push(
            (String::from_str("--verbose"), String::from_str("Display detailed usage information.")),
        );
        options.push(
            (
                String::from_str("--command"),
                String::from_str("Show help for a specific command (e.g. --command=test)."),
            ),
        );
        assert(options.deep_view() =~= help_entry().options);
        Termenu {
            command: String::from_str("help"),
            description: String::from_str("Show usage guide and command descriptions."),
            options,
            handler: Some(SyncHandler::Help(snapshot)),
            async_handler: None,
        }
    }

    /// The name, description and options of each command, copied.
    pub fn snapshots(commands: &Vec<Self>) -> (entries: Vec<CommandEntry>)
        ensures
            entries.deep_view() == entries_of(commands@),
    {
        let mut entries: Vec<CommandEntry> = Vec::new();
        let mut i: usize = 0;
        while i < commands.len()
            invariant
                i <= commands@.len(),
                entries@.len() == i,
                forall|j: int|
                    0 <= j < i ==> (#[trigger] entries@[j]).deep_view() == commands@[j].entry(),
            decreases commands@.len() - i,
        {
            entries.push(commands[i].snapshot());
            i += 1;
        }
        entries
    }

    /// The first command of the given name, if there is one.
    pub fn find(commands: &Vec<Self>, name: &String) -> (found: Option<usize>)
        ensures
            match found {
                Some(at) => resolves(entries_of(commands@), name@, at as int),
                None => !registered(entries_of(commands@), name@),
            },
    {
        let ghost entries = entries_of(commands@);
        let mut i: usize = 0;
        while i < commands.len()
            invariant
                i <= commands@.len(),
                entries == entries_of(commands@),
                forall|k: int| 0 <= k < i ==> (#[trigger] entries[k]).command != name@,
            decreases commands@.len() - i,
        {
            if commands[i].command == *name {
                return Some(i);
            }
            i += 1;
        }
        None
    }

    /// The error for a command name that is not registered.
    fn unknown_command(name: &str) -> (error: TermenuError)
        ensures
            error.reports("E712"@, "InvalidCommandError"@, unknown_command_issue(name@)),
    {
        let mut issue = String::from_str("invalid command '");
        issue.append(name);
        issue.append("'. Run with 'help' to view available commands.");
        TermenuError::invalid_command_error(issue_payload(issue.as_str()))
    }

    /// Says whether a command of the caller takes the name of the built-in
    /// help command: the fault of the repeated name `help`, which the list
    /// would have once the built-in command is appended, or `None` where the
    /// name is free.
    pub fn help_fault(commands: &Vec<Self>) -> (fault: Option<RegistryFault>)
        ensures
            fault is None <==> !registered(entries_of(commands@), "help"@),
            match fault {
                None => true,
                Some(found) => found matches RegistryFault::Duplicate { command } && command@
                    == "help"@,
            },
    {
        let name = String::from_str("help");
        match Self::find(commands, &name) {
            Some(at) => {
                assert(entries_of(commands@)[at as int].command == "help"@);
                Some(RegistryFault::Duplicate { command: name })
            },
            None => None,
        }
    }

    /// Decides what one run of the program does. The built-in help command
    /// is appended to `commands`, none of which may be called `help`: that
    /// name would then stand twice, which is a mistake of the program that
    /// `help_fault` finds. Without a command name in `args`, the outcome
    /// asks for the help page of all commands. Otherwise the first command
    /// of that name is looked up, the remaining arguments are parsed against
    /// its schema, and the outcome is the invocation of its handler; an
    /// unknown name or an unknown option is an error.
    pub fn processor(commands: Vec<Self>, args: &[String]) -> (outcome: Result<
        Invocation<S, A>,
        TermenuError,
    >)
        requires
            !registered(entries_of(commands@), "help"@),
        ensures
            dispatches(commands@, args.deep_view(), outcome),
    {
        let ghost entries = with_help(entries_of(commands@));
        let snapshot = Self::snapshots(&commands);
        let mut commands = commands;
        commands.push(Self::help(snapshot));
        assert(entries_of(commands@) =~= entries);

        if args.len() < 2 {
            let entries = Self::snapshots(&commands);
            return Ok(Invocation::Help { entries, specific: None, verbose: false });
        }
        let name = &args[1];
        match Self::find(&commands, name) {
            None => Err(Self::unknown_command(name.as_str())),
            Some(at) => {
                let raw = slice_subrange(args, 2, args.len());
                assert(raw.deep_view() =~= args.deep_view().skip(2));
                match commands[at].parse_options(raw) {
                    Err(error) => Err(error),
                    Ok(options) => commands.swap_remove(at).execute(options),
                }
            },
        }
    }

    /// The result of the run, given what the invoked handler returned: that
    /// result itself, success or error, as it is.
    pub fn finish(returned: Result<(), TermenuError>) -> (outcome: Result<(), TermenuError>)
        ensures
            outcome == returned,
    {
        match returned {
            Ok(done) => Ok(done),
            Err(error) => Err(error),
        }
    }
}

/// The schema of the built-in help command.
pub open spec fn help_schema() -> Seq<Seq<char>> {
    option_names(help_entry().options)
}

/// Only one entry is the first of a given name.
proof fn lemma_resolves_once(entries: Seq<EntryView>, name: Seq<char>, a: int, b: int)
    requires
        resolves(entries, name, a),
        resolves(entries, name, b),
    ensures
        a == b,
{
    if a < b {
        assert(entries[a].command != name);
    } else if b < a {
        assert(entries[b].command != name);
    }
}

/// The first entry of a name among the registered commands is also the first
/// once the built-in help command is appended.
proof fn lemma_resolves_with_help(entries: Seq<EntryView>, name: Seq<char>, at: int)
    requires
        resolves(entries, name, at),
    ensures
        resolves(with_help(entries), name, at),
        registered(with_help(entries), name),
{
    let all = with_help(entries);
    assert(all[at] == entries[at]);
    assert forall|k: int| 0 <= k < at implies (#[trigger] all[k]).command != name by {
        assert(all[k] == entries[k]);
    }
}

/// The name `help` is always registered: where no command of the caller has
/// it, it resolves to the built-in help command, which stands after the
/// caller's commands.
pub proof fn lemma_help_is_registered(entries: Seq<EntryView>)
    ensures
        registered(with_help(entries), "help"@),
        !registered(entries, "help"@) ==> resolves(
            with_help(entries),
            "help"@,
            entries.len() as int,
        ),
{
    let all = with_help(entries);
    let last: int = entries.len() as int;
    assert(all[last] == help_entry());
    assert(all[last].command == "help"@);
    if !registered(entries, "help"@) {
        assert forall|k: int| 0 <= k < last implies (#[trigger] all[k]).command != "help"@ by {
            assert(all[k] == entries[k]);
            assert(entries[k].command != "help"@);
        }
    }
}

/// Naming a registered command with options that its schema knows invokes
/// that command and no other: the first of that name, with its own handler
/// and the options as parsed.
pub proof fn lemma_registered_command_is_invoked<S, A>(
    commands: Seq<Termenu<S, A>>,
    args: Seq<Seq<char>>,
    at: int,
    outcome: Result<Invocation<S, A>, TermenuError>,
)
    requires
        dispatches(commands, args, outcome),
        args.len() >= 2,
        resolves(entries_of(commands), args[1], at),
        all_recognized(commands[at].schema(), args.skip(2)),
    ensures
        commands[at].invokes(parsed(args.skip(2)), outcome),
{
    let entries = with_help(entries_of(commands));
    lemma_resolves_with_help(entries_of(commands), args[1], at);
    let found: int = choose|found: int| #[trigger]
        resolves(entries, args[1], found) && dispatches_to(
            commands,
            found,
            args.skip(2),
            outcome,
        );
    lemma_resolves_once(entries, args[1], at, found);
    assert(entries[at] == commands[at].entry());
}

/// Naming a registered command with an option that its schema does not know
/// is an input error that names the first such option.
pub proof fn lemma_unknown_option_is_rejected<S, A>(
    commands: Seq<Termenu<S, A>>,
    args: Seq<Seq<char>>,
    at: int,
    outcome: Result<Invocation<S, A>, TermenuError>,
)
    requires
        dispatches(commands, args, outcome),
        args.len() >= 2,
        resolves(entries_of(commands), args[1], at),
        !all_recognized(commands[at].schema(), args.skip(2)),
    ensures
        outcome matches Err(error) && rejects(commands[at].schema(), args.skip(2), error),
{
    let entries = with_help(entries_of(commands));
    lemma_resolves_with_help(entries_of(commands), args[1], at);
    let found: int = choose|found: int| #[trigger]
        resolves(entries, args[1], found) && dispatches_to(
            commands,
            found,
            args.skip(2),
            outcome,
        );
    lemma_resolves_once(entries, args[1], at, found);
    assert(entries[at] == commands[at].entry());
}

/// Naming a command that is not registered, and is not `help`, is an
/// invalid-command error whose issue holds the name as it was given.
pub proof fn lemma_unregistered_name_is_rejected<S, A>(
    commands: Seq<Termenu<S, A>>,
    args: Seq<Seq<char>>,
    outcome: Result<Invocation<S, A>, TermenuError>,
)
    requires
        dispatches(commands, args, outcome),
        args.len() >= 2,
        !registered(entries_of(commands), args[1]),
        args[1] != "help"@,
    ensures
        outcome matches Err(error) && error.reports(
            "E712"@,
            "InvalidCommandError"@,
            unknown_command_issue(args[1]),
        ),
{
    let own = entries_of(commands);
    let entries = with_help(own);
    if registered(entries, args[1]) {
        let at: int = choose|at: int| 0 <= at < entries.len() && (#[trigger] entries[at]).command
            == args[1];
        if at < own.len() {
            assert(entries[at] == own[at]);
            assert(own[at].command == args[1]);
        } else {
            assert(entries[at] == help_entry());
        }
    }
}

/// Without a command name the run succeeds and asks for the help page of
/// every command, the built-in one included: one line for each, in order,
/// and nothing else.
pub proof fn lemma_no_command_asks_for_full_help<S, A>(
    commands: Seq<Termenu<S, A>>,
    args: Seq<Seq<char>>,
    outcome: Result<Invocation<S, A>, TermenuError>,
)
    requires
        dispatches(commands, args, outcome),
        args.len() < 2,
    ensures
        outcome matches Ok(Invocation::Help { entries, specific, verbose }) && listing(
            entries.deep_view(),
            value_view(specific),
            verbose,
        ) == with_help(entries_of(commands)).map_values(|entry: EntryView| command_line(entry)),
{
    lemma_plain_listing(with_help(entries_of(commands)));
}

/// The built-in help command can always be invoked: where no command of the
/// caller is called `help`, naming `help` with options that its schema knows
/// asks for the help page of the caller's commands, with `--verbose` and
/// `--command` read from the options.
pub proof fn lemma_help_is_dispatchable<S, A>(
    commands: Seq<Termenu<S, A>>,
    args: Seq<Seq<char>>,
    outcome: Result<Invocation<S, A>, TermenuError>,
)
    requires
        dispatches(commands, args, outcome),
        args.len() >= 2,
        args[1] == "help"@,
        !registered(entries_of(commands), "help"@),
        all_recognized(help_schema(), args.skip(2)),
    ensures
        outcome matches Ok(Invocation::Help { entries, specific, verbose }) && entries.deep_view()
            == entries_of(commands) && verbose == parsed(args.skip(2)).contains_key("--verbose"@)
            && value_view(specific) == requested_command(parsed(args.skip(2))),
{
    let own = entries_of(commands);
    let entries = with_help(own);
    lemma_help_is_registered(own);
    let found: int = choose|found: int| #[trigger]
        resolves(entries, args[1], found) && dispatches_to(
            commands,
            found,
            args.skip(2),
            outcome,
        );
    lemma_resolves_once(entries, args[1], own.len() as int, found);
    assert(entries[found] == help_entry());
}

/// The token `--command=<name>` is known to the help command and asks for
/// the command of that name.
pub proof fn lemma_command_token(name: Seq<char>)
    ensures
        option_key("--command="@ + name) == "--command"@,
        option_value("--command="@ + name) == Some(name),
        all_recognized(help_schema(), seq!["--command="@ + name]),
        requested_command(parsed(seq!["--command="@ + name])) == Some(name),
{
    reveal_strlit("--command=");
    reveal_strlit("--command");
    let token = "--command="@ + name;
    token.index_of_first_ensures('=');
    assert(token[9] == '=');
    assert(token.contains('='));
    let at = token.index_of_first('=').unwrap();
    if at < 9 {
        assert(token[at] == "--command="@[at]);
    }
    assert(at == 9);
    assert(token.take(9) =~= "--command"@);
    assert(token.skip(10) =~= name);
    assert(help_schema()[1] == "--command"@);
    let tokens = seq![token];
    assert(tokens.drop_last() =~= Seq::<Seq<char>>::empty());
    assert(tokens.last() == token);
    assert(parsed(tokens.drop_last()) == Map::<Seq<char>, Option<Seq<char>>>::empty());
    assert(parsed(tokens) == Map::<Seq<char>, Option<Seq<char>>>::empty().insert(
        "--command"@,
        Some(name),
    ));
}

/// `help --command=<name>` for a registered command lists that command
/// alone: its line, a line for each of its options and an empty line. This
/// holds for any options of the help command that ask for that name, with
/// or without `--verbose`.
pub proof fn lemma_help_for_one_command<S, A>(
    commands: Seq<Termenu<S, A>>,
    args: Seq<Seq<char>>,
    at: int,
    outcome: Result<Invocation<S, A>, TermenuError>,
)
    requires
        dispatches(commands, args, outcome),
        names_distinct(entries_of(commands)),
        !registered(entries_of(commands), "help"@),
        0 <= at < commands.len(),
        args.len() >= 2,
        args[1] == "help"@,
        all_recognized(help_schema(), args.skip(2)),
        requested_command(parsed(args.skip(2))) == Some(commands[at].entry().command),
    ensures
        outcome matches Ok(Invocation::Help { entries, specific, verbose }) && listing(
            entries.deep_view(),
            value_view(specific),
            verbose,
        ) == entry_lines(commands[at].entry(), true),
{
    lemma_help_is_dispatchable(commands, args, outcome);
    assert(entries_of(commands)[at] == commands[at].entry());
    lemma_specific_listing(
        entries_of(commands),
        at,
        parsed(args.skip(2)).contains_key("--verbose"@),
    );
}

/// The command line `help --command=<name>`, with the name of a registered
/// command, lists that command alone, with each of its options.
pub proof fn lemma_help_command_lists_one<S, A>(
    commands: Seq<Termenu<S, A>>,
    program: Seq<char>,
    at: int,
    outcome: Result<Invocation<S, A>, TermenuError>,
)
    requires
        0 <= at < commands.len(),
        names_distinct(entries_of(commands)),
        !registered(entries_of(commands), "help"@),
        dispatches(
            commands,
            seq![program, "help"@, "--command="@ + commands[at].entry().command],
            outcome,
        ),
    ensures
        outcome matches Ok(Invocation::Help { entries, specific, verbose }) && listing(
            entries.deep_view(),
            value_view(specific),
            verbose,
        ) == entry_lines(commands[at].entry(), true),
{
    let name = commands[at].entry().command;
    let args = seq![program, "help"@, "--command="@ + name];
    lemma_command_token(name);
    assert(args.skip(2) =~= seq!["--command="@ + name]);
    lemma_help_for_one_command(commands, args, at, outcome);
}

/// A command of the caller that is called `help` stands twice in the list
/// once the built-in help command is appended: that list cannot be
/// registered, and where the caller's own commands can, the fault is the
/// repeated name `help`.
pub proof fn lemma_second_help_is_duplicate(entries: Seq<EntryView>, fault: RegistryFault)
    requires
        registered(entries, "help"@),
        names_distinct(entries),
        fault.describes(with_help(entries)),
        entries.len() < MAX_COMMAND,
    ensures
        !registry_ok(with_help(entries)),
        fault matches RegistryFault::Duplicate { command } && command@ == "help"@,
{
    let all = with_help(entries);
    let last: int = entries.len() as int;
    let own: int = choose|own: int| 0 <= own < entries.len() && (#[trigger] entries[own]).command
        == "help"@;
    assert(all[own] == entries[own]);
    assert(all[last] == help_entry());
    assert(all[own].command == all[last].command);
    assert(!names_distinct(all));
    assert(repeats(all, last));
    assert forall|k: int| 0 <= k < last implies !#[trigger] repeats(all, k) by {
        if repeats(all, k) {
            let i: int = choose|i: int| 0 <= i < k && (#[trigger] all[i]).command == all[k].command;
            assert(all[i] == entries[i]);
            assert(all[k] == entries[k]);
            assert(entries[i].command != entries[k].command);
        }
    }
    assert(first_repeat(all, last));
    match fault {
        RegistryFault::Duplicate { command } => {
            let at: int = choose|at: int| #[trigger]
                first_repeat(all, at) && command@ == all[at].command;
            if at < last {
                assert(!repeats(all, at));
            }
        },
        _ => {},
    }
}

} // verus!
