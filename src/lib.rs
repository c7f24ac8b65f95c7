//! A personal command-snippet manager: an ordered store of shell commands,
//! each with a category and a note, addressed by 1-based position.
//!
//! The library holds the rules of the store and of the subcommands; reading
//! and writing the store file, spawning processes and printing are left to
//! the program around it.

pub mod data;
pub mod text;
pub mod commands;
pub mod cli;

pub use cli::{choose_action, help_brief, Action};
pub use commands::{
    add_command,
    delete_command,
    deletion_notice,
    list_commands,
    parse_index,
    row_text,
    run_command,
    IndexError,
    MissingFields,
    RunPlan,
};
pub use data::{load_entries, Entry, StoreError, StoreRead};
pub use text::{pad_right, split_words};
