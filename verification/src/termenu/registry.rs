//! Validation of a set of commands before it is put to use: what makes a
//! set fit to be registered, and which fault an unfit set has.

use vstd::prelude::*;
use crate::termenu::descriptor::{EntryView, Termenu};
use crate::text::{blank, is_blank};

verus! {

/// The largest number of commands that can be registered.
pub const MAX_COMMAND: i32 = 100;

/// The number of commands that a registry must exceed.
pub const MIN_COMMAND: i32 = 0;

/// Why a set of commands cannot be registered.
#[derive(Debug, PartialEq, Eq)]
pub enum RegistryFault {
    /// More than `MAX_COMMAND` commands.
    TooMany { count: usize },
    /// No more than `MIN_COMMAND` commands.
    TooFew { count: usize },
    /// A command's name repeats that of an earlier command.
    Duplicate { command: String },
    /// A command's name is blank.
    EmptyName,
    /// The description of the named command is blank.
    MissingDescription { command: String },
}

/// What each of the commands shows of itself, in order.
pub open spec fn entries_of<S, A>(commands: Seq<Termenu<S, A>>) -> Seq<EntryView> {
    commands.map_values(|command: Termenu<S, A>| command.entry())
}

/// No two entries have the same name.
pub open spec fn names_distinct(entries: Seq<EntryView>) -> bool {
    forall|i: int, j: int|
        0 <= i < j < entries.len() ==> (#[trigger] entries[i]).command != (
        #[trigger] entries[j]).command
}

/// Entry `at` has the name of an earlier entry.
pub open spec fn repeats(entries: Seq<EntryView>, at: int) -> bool {
    exists|i: int| 0 <= i < at && (#[trigger] entries[i]).command == entries[at].command
}

/// Entry `at` is the first that has the name of an earlier entry.
pub open spec fn first_repeat(entries: Seq<EntryView>, at: int) -> bool {
    &&& 0 <= at < entries.len()
    &&& repeats(entries, at)
    &&& forall|k: int| 0 <= k < at ==> !#[trigger] repeats(entries, k)
}

/// No entry has a blank name.
pub open spec fn all_named(entries: Seq<EntryView>) -> bool {
    forall|i: int| 0 <= i < entries.len() ==> !blank((#[trigger] entries[i]).command)
}

/// No entry has a blank description.
pub open spec fn all_described(entries: Seq<EntryView>) -> bool {
    forall|i: int| 0 <= i < entries.len() ==> !blank((#[trigger] entries[i]).description)
}

/// Entry `at` is the first with a blank description.
pub open spec fn first_undescribed(entries: Seq<EntryView>, at: int) -> bool {
    &&& 0 <= at < entries.len()
    &&& blank(entries[at].description)
    &&& forall|k: int| 0 <= k < at ==> !blank((#[trigger] entries[k]).description)
}

/// The number of entries lies within the bounds.
pub open spec fn count_ok(entries: Seq<EntryView>) -> bool {
    MIN_COMMAND < entries.len() <= MAX_COMMAND
}

/// The entries can be registered: between 1 and 100 of them, with distinct
/// names, none with a blank name or a blank description.
pub open spec fn registry_ok(entries: Seq<EntryView>) -> bool {
    &&& count_ok(entries)
    &&& names_distinct(entries)
    &&& all_named(entries)
    &&& all_described(entries)
}

impl RegistryFault {
    /// Whether this fault is the first check that `entries` fail, the checks
    /// taken in order: too many, too few, a repeated name, a blank name, a
    /// blank description.
    pub open spec fn describes(self, entries: Seq<EntryView>) -> bool {
        match self {
            RegistryFault::TooMany { count } => count == entries.len() && entries.len()
                > MAX_COMMAND,
            RegistryFault::TooFew { count } => count == entries.len() && entries.len()
                <= MIN_COMMAND,
            RegistryFault::Duplicate { command } => count_ok(entries) && exists|at: int|
                #[trigger] first_repeat(entries, at) && command@ == entries[at].command,
            RegistryFault::EmptyName => count_ok(entries) && names_distinct(entries)
                && !all_named(entries),
            RegistryFault::MissingDescription { command } => count_ok(entries)
                && names_distinct(entries) && all_named(entries) && exists|at: int|
                #[trigger] first_undescribed(entries, at) && command@ == entries[at].command,
        }
    }
}

/// A fault never describes entries that can be registered.
pub proof fn lemma_fault_excludes_ok(fault: RegistryFault, entries: Seq<EntryView>)
    requires
        fault.describes(entries),
    ensures
        !registry_ok(entries),
{
}

impl<S, A> Termenu<S, A> {
    /// The first command that has the name of an earlier one, if any.
    fn find_repeat(commands: &Vec<Self>) -> (found: Option<usize>)
        ensures
            match found {
                Some(at) => first_repeat(entries_of(commands@), at as int),
                None => names_distinct(entries_of(commands@)),
            },
    {
        let ghost entries = entries_of(commands@);
        let mut j: usize = 0;
        while j < commands.len()
            invariant
                j <= commands@.len(),
                entries == entries_of(commands@),
                forall|k: int| 0 <= k < j ==> !#[trigger] repeats(entries, k),
            decreases commands@.len() - j,
        {
            let mut i: usize = 0;
            while i < j
                invariant
                    i <= j < commands@.len(),
                    entries == entries_of(commands@),
                    forall|k: int| 0 <= k < j ==> !#[trigger] repeats(entries, k),
                    forall|k: int|
                        0 <= k < i ==> (#[trigger] entries[k]).command != entries[j as int].command,
                decreases j - i,
            {
                assert(entries[i as int].command == commands@[i as int].command@);
                if commands[i].command == commands[j].command {
                    return Some(j);
                }
                i += 1;
            }
            j += 1;
        }
        proof {
            assert forall|a: int, b: int| 0 <= a < b < entries.len() implies (
            #[trigger] entries[a]).command != (#[trigger] entries[b]).command by {
                assert(!repeats(entries, b));
            }
        }
        None
    }

    /// Says why `commands` cannot be registered: the first check that they
    /// fail, the checks taken in order; or `None` where they can be
    /// registered.
    pub fn registry_fault(commands: &Vec<Self>) -> (fault: Option<RegistryFault>)
        ensures
            fault is None <==> registry_ok(entries_of(commands@)),
            match fault {
                None => registry_ok(entries_of(commands@)),
                Some(found) => found.describes(entries_of(commands@)),
            },
    {
        let ghost entries = entries_of(commands@);
        if commands.len() > MAX_COMMAND as usize {
            return Some(RegistryFault::TooMany { count: commands.len() });
        }
        if commands.len() <= MIN_COMMAND as usize {
            return Some(RegistryFault::TooFew { count: commands.len() });
        }
        match Self::find_repeat(commands) {
            Some(at) => {
                let fault = RegistryFault::Duplicate { command: commands[at].command.clone() };
                proof {
                    lemma_fault_excludes_ok(fault, entries);
                }
                return Some(fault);
            },
            None => {},
        }
        let mut i: usize = 0;
        while i < commands.len()
            invariant
                i <= commands@.len(),
                entries == entries_of(commands@),
                count_ok(entries),
                names_distinct(entries),
                forall|k: int| 0 <= k < i ==> !blank((#[trigger] entries[k]).command),
            decreases commands@.len() - i,
        {
            if is_blank(commands[i].command.as_str()) {
                assert(blank(entries[i as int].command));
                return Some(RegistryFault::EmptyName);
            }
            i += 1;
        }
        let mut i: usize = 0;
        while i < commands.len()
            invariant
                i <= commands@.len(),
                entries == entries_of(commands@),
                count_ok(entries),
                names_distinct(entries),
                all_named(entries),
                forall|k: int| 0 <= k < i ==> !blank((#[trigger] entries[k]).description),
            decreases commands@.len() - i,
        {
            if is_blank(commands[i].description.as_str()) {
                let fault = RegistryFault::MissingDescription {
                    command: commands[i].command.clone(),
                };
                proof {
                    assert(first_undescribed(entries, i as int));
                    lemma_fault_excludes_ok(fault, entries);
                }
                return Some(fault);
            }
            i += 1;
        }
        None
    }

    /// Registers `commands`, which must be fit to be registered: between 1
    /// and 100 of them, with distinct names, none with a blank name or a
    /// blank description. They come back unchanged. Commands that are not
    /// fit are a mistake of the program and never reach this function:
    /// `registry_fault` says what is wrong with them.
    pub fn validate_commands(commands: Vec<Self>) -> (accepted: Vec<Self>)
        requires
            registry_ok(entries_of(commands@)),
        ensures
            accepted == commands,
    {
        commands
    }
}

} // verus!
