use oboegaki::{
    choose_action, deletion_notice, help_brief, pad_right, parse_index, row_text, run_command,
    split_words, Action, Entry, IndexError, RunPlan,
};

fn entry(command: &str, category: &str, note: &str) -> Entry {
    Entry { command: command.to_string(), category: category.to_string(), note: note.to_string() }
}

fn two() -> Vec<Entry> {
    vec![entry("echo hi", "demo", "one"), entry("  ls\t-l   /tmp ", "fs", "two")]
}

fn some(s: &str) -> Option<String> {
    Some(s.to_string())
}

#[test]
fn run_outside_the_store_runs_nothing() {
    let entries = two();
    assert_eq!(run_command(&entries, 99), RunPlan::InvalidIndex);
    assert_eq!(run_command(&entries, 0), RunPlan::InvalidIndex);
    assert_eq!(run_command(&entries, 3), RunPlan::InvalidIndex);
    assert_eq!(run_command(&Vec::new(), 1), RunPlan::InvalidIndex);
}

#[test]
fn run_splits_the_command_into_program_and_arguments() {
    let entries = two();
    assert_eq!(
        run_command(&entries, 1),
        RunPlan::Spawn {
            command: "echo hi".to_string(),
            program: "echo".to_string(),
            args: vec!["hi".to_string()],
        }
    );
    assert_eq!(
        run_command(&entries, 2),
        RunPlan::Spawn {
            command: "  ls\t-l   /tmp ".to_string(),
            program: "ls".to_string(),
            args: vec!["-l".to_string(), "/tmp".to_string()],
        }
    );
}

#[test]
fn run_of_a_blank_command_spawns_nothing() {
    let entries = vec![entry(" \t ", "x", "y")];
    assert_eq!(run_command(&entries, 1), RunPlan::Empty { command: " \t ".to_string() });
}

#[test]
fn split_words_drops_all_white_space() {
    assert_eq!(split_words("a  b\tc\nd"), vec!["a", "b", "c", "d"]);
    assert_eq!(split_words("   "), Vec::<String>::new());
    assert_eq!(split_words(""), Vec::<String>::new());
    assert_eq!(split_words("x\u{3000}y"), vec!["x", "y"]);
    assert_eq!(split_words("single"), vec!["single"]);
}

#[test]
fn parse_index_reads_decimal_numbers() {
    assert_eq!(parse_index(some("3")), Ok(3));
    assert_eq!(parse_index(some("+3")), Ok(3));
    assert_eq!(parse_index(some("007")), Ok(7));
    assert_eq!(parse_index(some("0")), Ok(0));
    assert_eq!(parse_index(some("18446744073709551615")), Ok(usize::MAX));
}

#[test]
fn parse_index_rejects_what_is_not_a_number() {
    assert_eq!(parse_index(None), Err(IndexError::Missing));
    for bad in ["", "abc", "-1", "+", " 3", "3 ", "1_0", "18446744073709551616"] {
        assert_eq!(parse_index(some(bad)), Err(IndexError::Unparsable(bad.to_string())));
    }
}

#[test]
fn index_error_messages() {
    assert_eq!(IndexError::Missing.message(), "Index not provided");
    assert_eq!(
        IndexError::Unparsable("x1".to_string()).message(),
        "Failed to parse index: not a non-negative integer: x1"
    );
}

#[test]
fn row_pads_fields_and_keeps_long_ones_whole() {
    let e = entry("x", "averyveryverylongcategory", "");
    assert_eq!(row_text(12, &e), "12    averyveryverylongcategory x                              ");
}

#[test]
fn pad_right_fills_with_spaces() {
    assert_eq!(pad_right("ab", 5), "ab   ");
    assert_eq!(pad_right("abcdef", 3), "abcdef");
    assert_eq!(pad_right("", 0), "");
}

#[test]
fn deletion_notice_shows_the_removed_entry() {
    let e = entry("pwd", "b", "second");
    assert_eq!(
        deletion_notice(2, &e),
        "Command deleted: 2     b          pwd                            second"
    );
}

#[test]
fn choose_action_by_subcommand() {
    assert_eq!(choose_action(some("add"), false), Action::Add);
    assert_eq!(choose_action(some("list"), false), Action::List);
    assert_eq!(choose_action(some("run"), false), Action::Run);
    assert_eq!(choose_action(some("delete"), false), Action::Delete);
    assert_eq!(choose_action(some("copy"), false), Action::Unknown("copy".to_string()));
    assert_eq!(choose_action(None, false), Action::Help);
    assert_eq!(choose_action(some("add"), true), Action::Help);
}

#[test]
fn help_brief_names_the_program() {
    let text = help_brief("oboegaki");
    assert!(text.starts_with("Usage: oboegaki <subcommand> [options]\n\nSubcommands:\n"));
    assert!(text.ends_with("\tdelete Delete a command by its index\n"));
}
