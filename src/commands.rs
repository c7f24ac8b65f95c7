use vstd::prelude::*;
use crate::data::Entry;
use crate::text::{
    decimal,
    decimal_text,
    pad,
    pad_right,
    parse_decimal,
    parsed_usize,
    split_words,
    strings_view,
    words,
};

verus! {

/// Whether `index` is the 1-based position of an entry in a store of `len` entries.
pub open spec fn valid_index(index: int, len: int) -> bool {
    1 <= index <= len
}

/// Which of the three fields of a new entry were not supplied.
#[derive(Debug, Clone, Copy, PartialEq, Eq)]
pub struct MissingFields {
    pub command: bool,
    pub category: bool,
    pub note: bool,
}

/// Appends a new entry made of the three fields, when all three are given.
/// Otherwise the store is left as it was and every missing field is named.
pub fn add_command(
    entries: &mut Vec<Entry>,
    command: Option<String>,
    category: Option<String>,
    note: Option<String>,
) -> (r: Result<(), MissingFields>)
    ensures
        r is Ok <==> (command is Some && category is Some && note is Some),
        r is Ok ==> final(entries)@ == old(entries)@.push(
            (Entry { command: command->0, category: category->0, note: note->0 }),
        ),
        r is Err ==> final(entries)@ == old(entries)@,
        r is Err ==> r->Err_0 == (MissingFields {
            command: command is None,
            category: category is None,
            note: note is None,
        }),
{
    match (command, category, note) {
        (Some(command), Some(category), Some(note)) => {
            entries.push(Entry { command, category, note });
            Ok(())
        },
        (command, category, note) => Err(
            MissingFields {
                command: command.is_none(),
                category: category.is_none(),
                note: note.is_none(),
            },
        ),
    }
}

/// The line that stands for an empty store.
pub open spec fn empty_notice() -> Seq<char> {
    "No commands registered."@
}

/// The column titles of the listing.
pub open spec fn header_line() -> Seq<char> {
    "Index Category   Command                        Note"@
}

/// The rule under the column titles.
pub open spec fn rule_line() -> Seq<char> {
    "----- ---------- ------------------------------ ----"@
}

/// One entry shown at its 1-based position: index, category and command in
/// fields of 5, 10 and 30 characters, then the note.
pub open spec fn row(index: nat, e: Entry) -> Seq<char> {
    pad(decimal(index), 5) + seq![' '] + pad(e.category@, 10) + seq![' '] + pad(e.command@, 30)
        + seq![' '] + e.note@
}

/// The lines that listing a store prints: one notice for an empty store,
/// otherwise the titles, the rule and one row per entry, numbered from 1.
pub open spec fn listing(es: Seq<Entry>) -> Seq<Seq<char>> {
    if es.len() == 0 {
        seq![empty_notice()]
    } else {
        seq![header_line(), rule_line()] + Seq::new(es.len(), |i: int| row((i + 1) as nat, es[i]))
    }
}

/// The row of `e` shown at position `index`.
pub fn row_text(index: usize, e: &Entry) -> (r: String)
    ensures
        r@ == row(index as nat, *e),
{
    proof {
        reveal_strlit(" ");
    }
    let mut r = pad_right(decimal_text(index).as_str(), 5);
    r.append(" ");
    r.append(pad_right(e.category.as_str(), 10).as_str());
    r.append(" ");
    r.append(pad_right(e.command.as_str(), 30).as_str());
    r.append(" ");
    r.append(e.note.as_str());
    assert(r@ =~= row(index as nat, *e));
    r
}

/// The lines that show the store: a notice when it is empty, otherwise a
/// table with one row per entry in stored order.
pub fn list_commands(entries: &Vec<Entry>) -> (lines: Vec<String>)
    ensures
        strings_view(lines@) == listing(entries@),
        entries@.len() == 0 ==> strings_view(lines@) == seq![empty_notice()],
{
    let mut lines: Vec<String> = Vec::new();
    if entries.len() == 0 {
        lines.push(String::from_str("No commands registered."));
        assert(strings_view(lines@) =~= listing(entries@));
        return lines;
    }
    lines.push(String::from_str("Index Category   Command                        Note"));
    lines.push(String::from_str("----- ---------- ------------------------------ ----"));
    let mut i: usize = 0;
    while i < entries.len()
        invariant
            i <= entries@.len(),
            strings_view(lines@) == seq![header_line(), rule_line()] + Seq::new(
                i as nat,
                |j: int| row((j + 1) as nat, entries@[j]),
            ),
        decreases entries@.len() - i,
    {
        let line = row_text(i + 1, &entries[i]);
        let ghost before = lines@;
        lines.push(line);
        assert(strings_view(lines@) =~= strings_view(before).push(line@));
        assert(seq![header_line(), rule_line()] + Seq::new(
            (i + 1) as nat,
            |j: int| row((j + 1) as nat, entries@[j]),
        ) =~= seq![header_line(), rule_line()] + Seq::new(
            i as nat,
            |j: int| row((j + 1) as nat, entries@[j]),
        ).push(line@));
        i = i + 1;
    }
    lines
}

/// What deleting the entry at position `index` confirms.
pub fn deletion_notice(index: usize, e: &Entry) -> (r: String)
    ensures
        r@ == "Command deleted: "@ + row(index as nat, *e),
{
    let mut r = String::from_str("Command deleted: ");
    r.append(row_text(index, e).as_str());
    r
}

/// Removes the entry at 1-based position `index` and hands it back; the later
/// entries move one position down. An index outside the store removes nothing.
pub fn delete_command(entries: &mut Vec<Entry>, index: usize) -> (r: Option<Entry>)
    ensures
        valid_index(index as int, old(entries)@.len() as int) ==> {
            &&& r == Some(old(entries)@[index - 1])
            &&& final(entries)@ == old(entries)@.remove(index - 1)
            &&& final(entries)@.len() == old(entries)@.len() - 1
            &&& forall|j: int| 0 <= j < index - 1 ==> final(entries)@[j] == old(entries)@[j]
            &&& forall|j: int|
                index - 1 <= j < final(entries)@.len() ==> final(entries)@[j] == old(
                    entries,
                )@[j + 1]
        },
        !valid_index(index as int, old(entries)@.len() as int) ==> {
            &&& r is None
            &&& final(entries)@ == old(entries)@
        },
{
    if index == 0 || entries.len() < index {
        None
    } else {
        Some(entries.remove(index - 1))
    }
}

/// The words of the message that names the missing fields, in field order.
pub open spec fn missing_text(m: MissingFields) -> Seq<char> {
    "Missing required option(s):"@ + (if m.command {
        " --command"@
    } else {
        Seq::empty()
    }) + (if m.category {
        " --category"@
    } else {
        Seq::empty()
    }) + (if m.note {
        " --note"@
    } else {
        Seq::empty()
    })
}

impl MissingFields {
    /// The usage message that names every missing field.
    pub fn message(&self) -> (r: String)
        ensures
            r@ == missing_text(*self),
    {
        let mut r = String::from_str("Missing required option(s):");
        if self.command {
            r.append(" --command");
        }
        if self.category {
            r.append(" --category");
        }
        if self.note {
            r.append(" --note");
        }
        assert(r@ =~= missing_text(*self));
        r
    }
}

/// Why an index argument could not be used.
#[derive(Debug, Clone, PartialEq, Eq)]
pub enum IndexError {
    /// No index was given.
    Missing,
    /// The given text is not a non-negative integer that fits a `usize`.
    Unparsable(String),
}

/// Reads the index argument of `run` and `delete`.
pub fn parse_index(text: Option<String>) -> (r: Result<usize, IndexError>)
    ensures
        match text {
            None => r == Err::<usize, IndexError>(IndexError::Missing),
            Some(t) => match parsed_usize(t@) {
                Some(n) => r == Ok::<usize, IndexError>(n),
                None => r == Err::<usize, IndexError>(IndexError::Unparsable(t)),
            },
        },
{
    match text {
        None => Err(IndexError::Missing),
        Some(t) => match parse_decimal(t.as_str()) {
            Some(n) => Ok(n),
            None => Err(IndexError::Unparsable(t)),
        },
    }
}

impl IndexError {
    /// The usage message for this error.
    pub fn message(&self) -> (r: String)
        ensures
            r@ == match self {
                IndexError::Missing => "Index not provided"@,
                IndexError::Unparsable(t) => "Failed to parse index: not a non-negative integer: "@
                    + t@,
            },
    {
        match self {
            IndexError::Missing => String::from_str("Index not provided"),
            IndexError::Unparsable(t) => {
                let mut r = String::from_str("Failed to parse index: not a non-negative integer: ");
                r.append(t.as_str());
                r
            },
        }
    }
}

/// What running an entry comes to.
#[derive(Debug, Clone, PartialEq, Eq)]
pub enum RunPlan {
    /// The index names no entry: nothing is run.
    InvalidIndex,
    /// The entry's command holds no word: it is announced and nothing is run.
    Empty { command: String },
    /// The entry's command is announced, then `program` is run with `args`.
    Spawn { command: String, program: String, args: Vec<String> },
}

/// Decides how to run the entry at 1-based position `index`: its command is
/// split at white space into a program and its arguments. An index outside
/// the store runs nothing.
pub fn run_command(entries: &Vec<Entry>, index: usize) -> (r: RunPlan)
    ensures
        !valid_index(index as int, entries@.len() as int) <==> r is InvalidIndex,
        valid_index(index as int, entries@.len() as int) ==> match r {
            RunPlan::InvalidIndex => false,
            RunPlan::Empty { command } => {
                &&& command == entries@[index - 1].command
                &&& words(command@).len() == 0
            },
            RunPlan::Spawn { command, program, args } => {
                &&& command == entries@[index - 1].command
                &&& words(command@) == seq![program@] + strings_view(args@)
            },
        },
{
    if index == 0 || entries.len() < index {
        return RunPlan::InvalidIndex;
    }
    let command = entries[index - 1].command.clone();
    let mut args = split_words(command.as_str());
    if args.len() == 0 {
        RunPlan::Empty { command }
    } else {
        let ghost all = args@;
        let program = args.remove(0);
        assert(strings_view(all) =~= seq![program@] + strings_view(args@));
        RunPlan::Spawn { command, program, args }
    }
}

} // verus!
