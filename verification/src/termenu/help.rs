//! The help page: what is shown for all commands or for one of them.

use vstd::prelude::*;
use vstd::string::StringExecFns;
use crate::banner::{rendering, rendering_view, Banner};
use crate::termenu::descriptor::{CommandEntry, EntryView};
use crate::termenu::exceptions::{issue_payload, TermenuError};
use crate::termenu::registry::names_distinct;

verus! {

/// What the help page shows of the package: its name, its version and its
/// authors, the first of whom is named as the developer.
#[derive(Debug, PartialEq, Eq)]
pub struct Package {
    pub name: String,
    pub version: String,
    pub authors: Vec<String>,
}

/// One line of the help page.
#[derive(Debug, PartialEq, Eq)]
pub enum HelpLine {
    /// The banner, or the notice that it could not be drawn.
    Banner(Result<String, String>),
    /// The developer's name.
    Developer(String),
    /// The package's version.
    Version(String),
    /// How the program of this name is called.
    Usage(String),
    /// How help for one command of the program of this name is asked for.
    Note(String),
    /// The heading of the list of commands.
    Heading,
    /// A command and its description.
    Command { name: String, description: String },
    /// An option of the command above and its description.
    Flag { token: String, description: String },
    /// An empty line.
    Blank,
}

/// One line of the help page, as plain text.
pub enum HelpLineView {
    Banner(Result<Seq<char>, Seq<char>>),
    Developer(Seq<char>),
    Version(Seq<char>),
    Usage(Seq<char>),
    Note(Seq<char>),
    Heading,
    Command { name: Seq<char>, description: Seq<char> },
    Flag { token: Seq<char>, description: Seq<char> },
    Blank,
}

impl DeepView for HelpLine {
    type V = HelpLineView;

    open spec fn deep_view(&self) -> HelpLineView {
        match self {
            HelpLine::Banner(rendered) => HelpLineView::Banner(rendering_view(*rendered)),
            HelpLine::Developer(name) => HelpLineView::Developer(name@),
            HelpLine::Version(version) => HelpLineView::Version(version@),
            HelpLine::Usage(program) => HelpLineView::Usage(program@),
            HelpLine::Note(program) => HelpLineView::Note(program@),
            HelpLine::Heading => HelpLineView::Heading,
            HelpLine::Command { name, description } => HelpLineView::Command {
                name: name@,
                description: description@,
            },
            HelpLine::Flag { token, description } => HelpLineView::Flag {
                token: token@,
                description: description@,
            },
            HelpLine::Blank => HelpLineView::Blank,
        }
    }
}

/// The text of the banner at the top of the help page.
pub open spec fn banner_text() -> Seq<char> {
    "Termenu"@
}

/// The lines above the list of commands.
pub open spec fn preamble(
    name: Seq<char>,
    version: Seq<char>,
    developer: Seq<char>,
) -> Seq<HelpLineView> {
    seq![
        HelpLineView::Banner(rendering(banner_text())),
        HelpLineView::Developer(developer),
        HelpLineView::Version(version),
        HelpLineView::Usage(name),
        HelpLineView::Note(name),
        HelpLineView::Heading,
    ]
}

/// Whether the page for `specific` lists `entry`.
pub open spec fn listed(entry: EntryView, specific: Option<Seq<char>>) -> bool {
    match specific {
        Some(name) => entry.command == name,
        None => true,
    }
}

/// The line of the command itself.
pub open spec fn command_line(entry: EntryView) -> HelpLineView {
    HelpLineView::Command { name: entry.command, description: entry.description }
}

/// The lines of the command's options, in the order of its schema.
pub open spec fn flag_lines(options: Seq<(Seq<char>, Seq<char>)>) -> Seq<HelpLineView> {
    options.map_values(
        |option: (Seq<char>, Seq<char>)|
            HelpLineView::Flag { token: option.0, description: option.1 },
    )
}

/// The lines shown for one command: its own line and, when `detailed`, a
/// line for each of its options and an empty line.
pub open spec fn entry_lines(entry: EntryView, detailed: bool) -> Seq<HelpLineView> {
    if detailed {
        seq![command_line(entry)] + flag_lines(entry.options) + seq![HelpLineView::Blank]
    } else {
        seq![command_line(entry)]
    }
}

/// The list of commands: the lines of each listed entry, in order, detailed
/// when `verbose` is set or one command was asked for.
pub open spec fn listing(
    entries: Seq<EntryView>,
    specific: Option<Seq<char>>,
    verbose: bool,
) -> Seq<HelpLineView>
    decreases entries.len(),
{
    if entries.len() == 0 {
        Seq::empty()
    } else if listed(entries.last(), specific) {
        listing(entries.drop_last(), specific, verbose) + entry_lines(
            entries.last(),
            verbose || specific is Some,
        )
    } else {
        listing(entries.drop_last(), specific, verbose)
    }
}

/// Without a name and without detail, the list holds the line of each entry,
/// in order, and nothing else.
pub proof fn lemma_plain_listing(entries: Seq<EntryView>)
    ensures
        listing(entries, None, false) == entries.map_values(|entry: EntryView| command_line(entry)),
    decreases entries.len(),
{
    if entries.len() > 0 {
        lemma_plain_listing(entries.drop_last());
    }
}

/// A name that no entry has lists nothing.
pub proof fn lemma_unknown_name_lists_nothing(
    entries: Seq<EntryView>,
    name: Seq<char>,
    verbose: bool,
)
    requires
        forall|i: int| 0 <= i < entries.len() ==> (#[trigger] entries[i]).command != name,
    ensures
        listing(entries, Some(name), verbose) == Seq::<HelpLineView>::empty(),
    decreases entries.len(),
{
    if entries.len() > 0 {
        let front = entries.drop_last();
        assert forall|i: int| 0 <= i < front.len() implies (#[trigger] front[i]).command
            != name by {
            assert(front[i] == entries[i]);
        }
        lemma_unknown_name_lists_nothing(front, name, verbose);
    }
}

/// Asked for one command among entries of distinct names, the list holds
/// that command's line, a line for each of its options and an empty line,
/// and nothing of any other command, whether `verbose` is set or not.
pub proof fn lemma_specific_listing(entries: Seq<EntryView>, at: int, verbose: bool)
    requires
        names_distinct(entries),
        0 <= at < entries.len(),
    ensures
        listing(entries, Some(entries[at].command), verbose) == entry_lines(entries[at], true),
    decreases entries.len(),
{
    let name = entries[at].command;
    let front = entries.drop_last();
    let last: int = entries.len() - 1;
    if at == last {
        assert forall|i: int| 0 <= i < front.len() implies (#[trigger] front[i]).command
            != name by {
            assert(front[i] == entries[i]);
        }
        lemma_unknown_name_lists_nothing(front, name, verbose);
    } else {
        assert forall|i: int, j: int| 0 <= i < j < front.len() implies (
        #[trigger] front[i]).command != (#[trigger] front[j]).command by {
            assert(front[i] == entries[i]);
            assert(front[j] == entries[j]);
        }
        lemma_specific_listing(front, at, verbose);
    }
}

/// What is reported for a package without an author.
pub open spec fn no_author_issue() -> Seq<char> {
    "Package metadata names no author."@
}

/// The name asked for, as plain text.
pub open spec fn name_view(specific: Option<&str>) -> Option<Seq<char>> {
    match specific {
        Some(name) => Some(name@),
        None => None,
    }
}

/// Composes the help page for `entries`: the preamble, then the list of
/// commands, of all of them or of the one named `specific`. Fails only when
/// the package names no author.
pub fn show_help(
    package: &Package,
    entries: &[CommandEntry],
    specific: Option<&str>,
    verbose: bool,
) -> (outcome: Result<Vec<HelpLine>, TermenuError>)
    ensures
        match outcome {
            Ok(lines) => package.authors@.len() > 0 && lines.deep_view() == preamble(
                package.name@,
                package.version@,
                package.authors@[0]@,
            ) + listing(entries.deep_view(), name_view(specific), verbose),
            Err(e) => package.authors@.len() == 0 && e.reports(
                "E011"@,
                "FrameworkForbiddenError"@,
                no_author_issue(),
            ),
        },
{
    if package.authors.len() == 0 {
        return Err(
            TermenuError::framework_resource_error(
                issue_payload("Package metadata names no author."),
            ),
        );
    }
    let ghost shown = entries.deep_view();
    let ghost wanted = name_view(specific);
    let ghost top = preamble(package.name@, package.version@, package.authors@[0]@);
    let detailed = verbose || specific.is_some();
    let wanted_name = match specific {
        Some(name) => Some(String::from_str(name)),
        None => None,
    };
    let mut lines: Vec<HelpLine> = Vec::new();
    lines.push(HelpLine::Banner(Banner::render("Termenu")));
    lines.push(HelpLine::Developer(package.authors[0].clone()));
    lines.push(HelpLine::Version(package.version.clone()));
    lines.push(HelpLine::Usage(package.name.clone()));
    lines.push(HelpLine::Note(package.name.clone()));
    lines.push(HelpLine::Heading);
    let mut i: usize = 0;
    while i < entries.len()
        invariant
            i <= entries@.len(),
            shown == entries.deep_view(),
            shown.len() == entries@.len(),
            wanted == name_view(specific),
            detailed == (verbose || specific is Some),
            wanted_name is Some == specific is Some,
            wanted_name matches Some(w) ==> Some(w@) == wanted,
            lines.deep_view() == top + listing(shown.take(i as int), wanted, verbose),
        decreases entries@.len() - i,
    {
        let entry = &entries[i];
        assert(shown.take(i + 1).drop_last() =~= shown.take(i as int));
        let show = match &wanted_name {
            Some(name) => entry.command == *name,
            None => true,
        };
        if show {
            let ghost before = lines.deep_view();
            lines.push(
                HelpLine::Command {
                    name: entry.command.clone(),
                    description: entry.description.clone(),
                },
            );
            assert(lines.deep_view() =~= before + seq![command_line(entry.deep_view())]);
            if detailed {
                let ghost flags = entry.options.deep_view();
                let mut k: usize = 0;
                while k < entry.options.len()
                    invariant
                        k <= entry.options@.len(),
                        flags == entry.options.deep_view(),
                        flags.len() == entry.options@.len(),
                        lines.deep_view() == before + seq![command_line(entry.deep_view())]
                            + flag_lines(flags.take(k as int)),
                    decreases entry.options@.len() - k,
                {
                    let ghost so_far = lines.deep_view();
                    lines.push(
                        HelpLine::Flag {
                            token: entry.options[k].0.clone(),
                            description: entry.options[k].1.clone(),
                        },
                    );
                    assert(lines.deep_view() =~= so_far.push(
                        HelpLineView::Flag {
                            token: flags[k as int].0,
                            description: flags[k as int].1,
                        },
                    ));
                    k += 1;
                }
                let ghost so_far = lines.deep_view();
                lines.push(HelpLine::Blank);
                assert(lines.deep_view() =~= so_far.push(HelpLineView::Blank));
            }
        }
        i += 1;
    }
    assert(shown.take(i as int) =~= shown);
    Ok(lines)
}

} // verus!
