//! Parsed options: the mapping from option name to optional value that a
//! command's handler receives, and the reading of raw option tokens.

use vstd::prelude::*;
use vstd::string::StringExecFns;

verus! {

/// The value of an option as plain text.
pub open spec fn value_view(value: Option<String>) -> Option<Seq<char>> {
    match value {
        Some(v) => Some(v@),
        None => None,
    }
}

/// The mapping that a list of name/value pairs stands for; a later pair
/// replaces an earlier one of the same name.
pub open spec fn map_of(entries: Seq<(String, Option<String>)>) -> Map<
    Seq<char>,
    Option<Seq<char>>,
>
    decreases entries.len(),
{
    if entries.len() == 0 {
        Map::empty()
    } else {
        map_of(entries.drop_last()).insert(entries.last().0@, value_view(entries.last().1))
    }
}

/// No name occurs twice in the list.
pub open spec fn distinct_keys(entries: Seq<(String, Option<String>)>) -> bool {
    forall|i: int, j: int|
        0 <= i < j < entries.len() ==> (#[trigger] entries[i]).0@ != (#[trigger] entries[j]).0@
}

/// A list without its last pair still has no name twice.
proof fn lemma_front_distinct(entries: Seq<(String, Option<String>)>)
    requires
        distinct_keys(entries),
        entries.len() > 0,
    ensures
        distinct_keys(entries.drop_last()),
{
    let front = entries.drop_last();
    assert forall|a: int, b: int| 0 <= a < b < front.len() implies (#[trigger] front[a]).0@ != (
    #[trigger] front[b]).0@ by {
        assert(front[a] == entries[a]);
        assert(front[b] == entries[b]);
    }
}

/// The mapping knows exactly the names in the list.
proof fn lemma_map_of_domain(entries: Seq<(String, Option<String>)>, key: Seq<char>)
    ensures
        map_of(entries).contains_key(key) <==> exists|i: int|
            0 <= i < entries.len() && (#[trigger] entries[i]).0@ == key,
        map_of(entries).dom().finite(),
    decreases entries.len(),
{
    if entries.len() > 0 {
        let front = entries.drop_last();
        lemma_map_of_domain(front, key);
        if exists|i: int| 0 <= i < entries.len() && (#[trigger] entries[i]).0@ == key {
            let i: int = choose|i: int| 0 <= i < entries.len() && (#[trigger] entries[i]).0@ == key;
            if i < front.len() {
                assert(front[i].0@ == key);
            }
        }
        if map_of(front).contains_key(key) {
            let i: int = choose|i: int| 0 <= i < front.len() && (#[trigger] front[i]).0@ == key;
            assert(entries[i].0@ == key);
        }
    }
}

/// Where no name occurs twice, the mapping gives each name the value that
/// stands beside it.
proof fn lemma_map_of_at(entries: Seq<(String, Option<String>)>, i: int)
    requires
        distinct_keys(entries),
        0 <= i < entries.len(),
    ensures
        map_of(entries).contains_key(entries[i].0@),
        map_of(entries)[entries[i].0@] == value_view(entries[i].1),
    decreases entries.len(),
{
    if i < entries.len() - 1 {
        lemma_front_distinct(entries);
        lemma_map_of_at(entries.drop_last(), i);
    }
}

/// Replacing a pair by one of the same name replaces its value in the
/// mapping.
proof fn lemma_map_of_update(
    entries: Seq<(String, Option<String>)>,
    i: int,
    pair: (String, Option<String>),
)
    requires
        distinct_keys(entries),
        0 <= i < entries.len(),
        pair.0@ == entries[i].0@,
    ensures
        distinct_keys(entries.update(i, pair)),
        map_of(entries.update(i, pair)) == map_of(entries).insert(pair.0@, value_view(pair.1)),
    decreases entries.len(),
{
    let updated = entries.update(i, pair);
    let front = entries.drop_last();
    if i == entries.len() - 1 {
        assert(updated.drop_last() == front);
    } else {
        lemma_front_distinct(entries);
        lemma_map_of_update(front, i, pair);
        assert(updated.drop_last() == front.update(i, pair));
    }
}

/// Where no name occurs twice, the mapping has as many names as the list has
/// pairs.
proof fn lemma_map_of_len(entries: Seq<(String, Option<String>)>)
    requires
        distinct_keys(entries),
    ensures
        map_of(entries).dom().finite(),
        map_of(entries).len() == entries.len(),
    decreases entries.len(),
{
    if entries.len() > 0 {
        let front = entries.drop_last();
        lemma_front_distinct(entries);
        lemma_map_of_len(front);
        lemma_map_of_domain(front, entries.last().0@);
    }
}

/// The options given to one invocation of a command: option name to value,
/// where a flag without a value maps to `None`.
#[derive(Debug)]
pub struct ParsedOptions {
    entries: Vec<(String, Option<String>)>,
}

impl View for ParsedOptions {
    type V = Map<Seq<char>, Option<Seq<char>>>;

    closed spec fn view(&self) -> Map<Seq<char>, Option<Seq<char>>> {
        map_of(self.entries@)
    }
}

impl ParsedOptions {
    /// No name is recorded twice.
    #[verifier::type_invariant]
    spec fn well_formed(self) -> bool {
        distinct_keys(self.entries@)
    }

    /// No options at all.
    pub fn new() -> (options: Self)
        ensures
            options@ == Map::<Seq<char>, Option<Seq<char>>>::empty(),
    {
        ParsedOptions { entries: Vec::new() }
    }

    /// Where the pair of this name stands, if there is one.
    fn position(&self, key: &String) -> (at: Option<usize>)
        ensures
            match at {
                Some(i) => i < self.entries@.len() && self.entries@[i as int].0@ == key@,
                None => !self@.contains_key(key@),
            },
    {
        let mut i: usize = 0;
        while i < self.entries.len()
            invariant
                i <= self.entries@.len(),
                forall|j: int| 0 <= j < i ==> (#[trigger] self.entries@[j]).0@ != key@,
            decreases self.entries@.len() - i,
        {
            if self.entries[i].0 == *key {
                return Some(i);
            }
            i += 1;
        }
        proof {
            lemma_map_of_domain(self.entries@, key@);
        }
        None
    }

    /// Records `value` under `key`, in place of what was there.
    pub fn insert(&mut self, key: String, value: Option<String>)
        ensures
            final(self)@ == old(self)@.insert(key@, value_view(value)),
    {
        proof {
            use_type_invariant(&*self);
        }
        match self.position(&key) {
            Some(i) => {
                proof {
                    lemma_map_of_update(self.entries@, i as int, (key, value));
                }
                let mut entries = Vec::new();
                core::mem::swap(&mut self.entries, &mut entries);
                entries.set(i, (key, value));
                self.entries = entries;
            },
            None => {
                proof {
                    lemma_map_of_domain(self.entries@, key@);
                    let pushed = self.entries@.push((key, value));
                    assert(pushed.drop_last() == self.entries@);
                    assert forall|a: int, b: int| 0 <= a < b < pushed.len() implies (
                    #[trigger] pushed[a]).0@ != (#[trigger] pushed[b]).0@ by {
                        assert(pushed[a] == self.entries@[a]);
                    }
                }
                let mut entries = Vec::new();
                core::mem::swap(&mut self.entries, &mut entries);
                entries.push((key, value));
                self.entries = entries;
            },
        }
    }

    /// Whether an option of this name was given.
    pub fn contains_key(&self, key: &str) -> (present: bool)
        ensures
            present == self@.contains_key(key@),
    {
        let key = String::from_str(key);
        proof {
            use_type_invariant(self);
        }
        match self.position(&key) {
            Some(i) => {
                proof {
                    lemma_map_of_at(self.entries@, i as int);
                }
                true
            },
            None => false,
        }
    }

    /// The value given for the option of this name: `None` when the option
    /// was not given, `Some(None)` when it was given as a flag.
    pub fn get(&self, key: &str) -> (value: Option<&Option<String>>)
        ensures
            match value {
                Some(v) => self@.contains_key(key@) && self@[key@] == value_view(*v),
                None => !self@.contains_key(key@),
            },
    {
        let key = String::from_str(key);
        proof {
            use_type_invariant(self);
        }
        match self.position(&key) {
            Some(i) => {
                proof {
                    lemma_map_of_at(self.entries@, i as int);
                }
                Some(&self.entries[i].1)
            },
            None => None,
        }
    }

    /// How many options were given.
    pub fn len(&self) -> (count: usize)
        ensures
            self@.dom().finite(),
            count == self@.len(),
    {
        proof {
            use_type_invariant(self);
            lemma_map_of_len(self.entries@);
        }
        self.entries.len()
    }

    /// Whether no option was given.
    pub fn is_empty(&self) -> (empty: bool)
        ensures
            empty == (self@ == Map::<Seq<char>, Option<Seq<char>>>::empty()),
    {
        proof {
            use_type_invariant(self);
            lemma_map_of_len(self.entries@);
        }
        self.entries.len() == 0
    }

    /// The options as a list of pairs, each name once.
    pub fn entries(&self) -> (pairs: &Vec<(String, Option<String>)>)
        ensures
            distinct_keys(pairs@),
            map_of(pairs@) == self@,
    {
        proof {
            use_type_invariant(self);
        }
        &self.entries
    }
}

/// The name part of a raw token: the text before its first `=`, or the whole
/// token when it has none.
pub open spec fn option_key(token: Seq<char>) -> Seq<char> {
    match token.index_of_first('=') {
        Some(at) => token.take(at),
        None => token,
    }
}

/// The value part of a raw token: the text after its first `=`, if it has one.
pub open spec fn option_value(token: Seq<char>) -> Option<Seq<char>> {
    match token.index_of_first('=') {
        Some(at) => Some(token.skip(at + 1)),
        None => None,
    }
}

/// Whether the schema knows the name part of `token`.
pub open spec fn recognized(schema: Seq<Seq<char>>, token: Seq<char>) -> bool {
    schema.contains(option_key(token))
}

/// Whether the schema knows the name of every token.
pub open spec fn all_recognized(schema: Seq<Seq<char>>, tokens: Seq<Seq<char>>) -> bool {
    forall|i: int| 0 <= i < tokens.len() ==> recognized(schema, #[trigger] tokens[i])
}

/// Whether `tokens[at]` is the first token that the schema does not know.
pub open spec fn first_unrecognized(schema: Seq<Seq<char>>, tokens: Seq<Seq<char>>, at: int) -> bool {
    &&& 0 <= at < tokens.len()
    &&& !recognized(schema, tokens[at])
    &&& forall|j: int| 0 <= j < at ==> recognized(schema, #[trigger] tokens[j])
}

/// The mapping that a list of raw tokens stands for, read in order.
pub open spec fn parsed(tokens: Seq<Seq<char>>) -> Map<Seq<char>, Option<Seq<char>>>
    decreases tokens.len(),
{
    if tokens.len() == 0 {
        Map::empty()
    } else {
        parsed(tokens.drop_last()).insert(option_key(tokens.last()), option_value(tokens.last()))
    }
}

/// The names recorded for tokens that the schema knows are names of the
/// schema, and no others.
pub proof fn lemma_parsed_names_are_known(schema: Seq<Seq<char>>, tokens: Seq<Seq<char>>)
    requires
        all_recognized(schema, tokens),
    ensures
        forall|name: Seq<char>| #[trigger] parsed(tokens).contains_key(name) ==> schema.contains(name),
    decreases tokens.len(),
{
    if tokens.len() > 0 {
        let front = tokens.drop_last();
        assert forall|i: int| 0 <= i < front.len() implies recognized(schema, #[trigger] front[i]) by {
            assert(front[i] == tokens[i]);
        }
        lemma_parsed_names_are_known(schema, front);
        assert forall|name: Seq<char>| #[trigger]
            parsed(tokens).contains_key(name) implies schema.contains(name) by {
            if name == option_key(tokens.last()) {
                assert(recognized(schema, tokens[tokens.len() - 1]));
            } else {
                assert(parsed(front).contains_key(name));
            }
        }
    }
}

} // verus!
