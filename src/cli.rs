use vstd::prelude::*;

verus! {

/// What one invocation of the program is asked to do.
#[derive(Debug, Clone, PartialEq, Eq)]
pub enum Action {
    /// Print the usage text.
    Help,
    Add,
    List,
    Run,
    Delete,
    /// The named subcommand does not exist: report it, then print the usage text.
    Unknown(String),
}

/// The action for the first argument after the program name, when the help
/// flag was or was not given.
pub open spec fn action_for(subcommand: Option<String>, help: bool) -> Action {
    if help {
        Action::Help
    } else {
        match subcommand {
            None => Action::Help,
            Some(s) => if s@ == "add"@ {
                Action::Add
            } else if s@ == "list"@ {
                Action::List
            } else if s@ == "run"@ {
                Action::Run
            } else if s@ == "delete"@ {
                Action::Delete
            } else {
                Action::Unknown(s)
            },
        }
    }
}

/// Picks the subcommand to carry out. The help flag, or no subcommand at all,
/// asks for the usage text.
pub fn choose_action(subcommand: Option<String>, help: bool) -> (r: Action)
    ensures
        r == action_for(subcommand, help),
{
    if help {
        return Action::Help;
    }
    match subcommand {
        None => Action::Help,
        Some(s) => {
            if s == String::from_str("add") {
                Action::Add
            } else if s == String::from_str("list") {
                Action::List
            } else if s == String::from_str("run") {
                Action::Run
            } else if s == String::from_str("delete") {
                Action::Delete
            } else {
                Action::Unknown(s)
            }
        },
    }
}

/// The part of the usage text that follows the program's name.
pub open spec fn subcommands_text() -> Seq<char> {
    " <subcommand> [options]\n\nSubcommands:\n\tadd    Add a new command\n\tlist   List all registered commands\n\trun    Run a command by its index\n\tdelete Delete a command by its index\n"@
}

/// The opening of the usage text, naming the program as it was invoked and
/// listing the subcommands; the option descriptions follow it.
pub fn help_brief(program: &str) -> (r: String)
    ensures
        r@ == "Usage: "@ + program@ + subcommands_text(),
{
    let mut r = String::from_str("Usage: ");
    r.append(program);
    r.append(
        " <subcommand> [options]\n\nSubcommands:\n\tadd    Add a new command\n\tlist   List all registered commands\n\trun    Run a command by its index\n\tdelete Delete a command by its index\n",
    );
    r
}

} // verus!
