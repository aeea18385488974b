use vstd::prelude::*;

verus! {

/// What a user can ask of the shell.
#[derive(Debug, Clone, Copy, PartialEq, Eq, Structural)]
pub enum Command {
    Help,
    List,
    Add,
    Read,
    Tag,
    Toggle,
    AddChecklistItem,
    ToggleChecklistItem,
    Remove,
    Exit,
}

/// How the notes to list are chosen.
#[derive(Debug, Clone, Copy, PartialEq, Eq, Structural)]
pub enum ListFilter {
    Description,
    Tag,
    Date,
    All,
}

/// The command that `word` names, if any.
pub open spec fn command_named(word: Seq<char>) -> Option<Command> {
    if word == "help"@ {
        Some(Command::Help)
    } else if word == "list"@ {
        Some(Command::List)
    } else if word == "add"@ {
        Some(Command::Add)
    } else if word == "read"@ {
        Some(Command::Read)
    } else if word == "tag"@ {
        Some(Command::Tag)
    } else if word == "toggle"@ {
        Some(Command::Toggle)
    } else if word == "add_checklist_item"@ {
        Some(Command::AddChecklistItem)
    } else if word == "toggle_checklist_item"@ {
        Some(Command::ToggleChecklistItem)
    } else if word == "remove"@ {
        Some(Command::Remove)
    } else if word == "exit"@ {
        Some(Command::Exit)
    } else {
        None
    }
}

/// The filter that `word` names; any other word lists every note.
pub open spec fn filter_named(word: Seq<char>) -> ListFilter {
    if word == "description"@ {
        ListFilter::Description
    } else if word == "tag"@ {
        ListFilter::Tag
    } else if word == "date"@ {
        ListFilter::Date
    } else {
        ListFilter::All
    }
}

/// Whether `word` is exactly `name`.
fn is_word(word: &String, name: &str) -> (r: bool)
    ensures
        r == (word@ == name@),
{
    *word == name.to_owned()
}

impl Command {
    /// The command that an already trimmed `word` names, or `None`.
    pub fn from_keyword(word: &str) -> (r: Option<Command>)
        ensures
            r == command_named(word@),
    {
        let w = word.to_owned();
        if is_word(&w, "help") {
            Some(Command::Help)
        } else if is_word(&w, "list") {
            Some(Command::List)
        } else if is_word(&w, "add") {
            Some(Command::Add)
        } else if is_word(&w, "read") {
            Some(Command::Read)
        } else if is_word(&w, "tag") {
            Some(Command::Tag)
        } else if is_word(&w, "toggle") {
            Some(Command::Toggle)
        } else if is_word(&w, "add_checklist_item") {
            Some(Command::AddChecklistItem)
        } else if is_word(&w, "toggle_checklist_item") {
            Some(Command::ToggleChecklistItem)
        } else if is_word(&w, "remove") {
            Some(Command::Remove)
        } else if is_word(&w, "exit") {
            Some(Command::Exit)
        } else {
            None
        }
    }
}

impl ListFilter {
    /// The filter that an already trimmed `word` names; any other word,
    /// the empty one included, lists every note.
    pub fn from_keyword(word: &str) -> (r: ListFilter)
        ensures
            r == filter_named(word@),
    {
        let w = word.to_owned();
        if is_word(&w, "description") {
            ListFilter::Description
        } else if is_word(&w, "tag") {
            ListFilter::Tag
        } else if is_word(&w, "date") {
            ListFilter::Date
        } else {
            ListFilter::All
        }
    }
}

/// The position behind a number shown to users, who count from 1; `None` for 0.
pub fn position_from_display(shown: usize) -> (r: Option<usize>)
    ensures
        r == (if shown == 0 { None } else { Some((shown - 1) as usize) }),
{
    if shown == 0 {
        None
    } else {
        Some(shown - 1)
    }
}

} // verus!
