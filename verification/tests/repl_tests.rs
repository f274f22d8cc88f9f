use file_manager_cli::find::find_matching;
use file_manager_cli::repl::{
    parse_line, tokenize, usage_message, Command, CommandKind, ParseOutcome,
};
use file_manager_cli::text::str_eq;

#[test]
fn tokenize_splits_on_whitespace() {
    assert_eq!(tokenize("  a  b\tc "), vec!["a", "b", "c"]);
    assert_eq!(tokenize("one"), vec!["one"]);
    assert!(tokenize("").is_empty());
    assert!(tokenize(" \t ").is_empty());
}

#[test]
fn str_eq_compares_contents() {
    assert!(str_eq("abc", "abc"));
    assert!(!str_eq("abc", "abd"));
    assert!(!str_eq("abc", "ab"));
}

#[test]
fn parse_blank_line_is_empty() {
    assert!(matches!(parse_line(""), ParseOutcome::Empty));
    assert!(matches!(parse_line("   "), ParseOutcome::Empty));
}

#[test]
fn parse_exit_alone_exits() {
    assert!(matches!(parse_line("exit"), ParseOutcome::Exit));
    assert!(matches!(parse_line("  exit  "), ParseOutcome::Exit));
}

#[test]
fn parse_exit_with_arguments_is_unknown() {
    match parse_line("exit now") {
        ParseOutcome::Unknown(w) => assert_eq!(w, "exit"),
        _ => panic!("expected an unknown-command outcome"),
    }
}

#[test]
fn parse_well_formed_commands() {
    assert!(matches!(
        parse_line("list mydir"),
        ParseOutcome::Run(Command::List(d)) if d == "mydir"
    ));
    assert!(matches!(
        parse_line("delete old.txt"),
        ParseOutcome::Run(Command::Delete(f)) if f == "old.txt"
    ));
    assert!(matches!(
        parse_line("rename a.txt b.txt"),
        ParseOutcome::Run(Command::Rename(a, b)) if a == "a.txt" && b == "b.txt"
    ));
    assert!(matches!(
        parse_line("move src dst"),
        ParseOutcome::Run(Command::Move(a, b)) if a == "src" && b == "dst"
    ));
    assert!(matches!(
        parse_line("copy src dst"),
        ParseOutcome::Run(Command::Copy(a, b)) if a == "src" && b == "dst"
    ));
    assert!(matches!(
        parse_line("mkdir newdir"),
        ParseOutcome::Run(Command::Mkdir(d)) if d == "newdir"
    ));
    assert!(matches!(
        parse_line("organize-by-type ."),
        ParseOutcome::Run(Command::OrganizeByType(d)) if d == "."
    ));
    assert!(matches!(
        parse_line("organize-by-date ."),
        ParseOutcome::Run(Command::OrganizeByDate(d)) if d == "."
    ));
    assert!(matches!(
        parse_line("find *.txt"),
        ParseOutcome::Run(Command::Find(p)) if p == "*.txt"
    ));
    assert!(matches!(
        parse_line("stats ."),
        ParseOutcome::Run(Command::Stats(d)) if d == "."
    ));
}

#[test]
fn parse_rename_missing_argument_gives_usage() {
    assert!(matches!(
        parse_line("rename onlyonearg"),
        ParseOutcome::Usage(CommandKind::Rename)
    ));
    assert_eq!(
        usage_message(CommandKind::Rename),
        "Usage: rename <old_name> <new_name>"
    );
}

#[test]
fn parse_missing_arguments_give_usage() {
    assert!(matches!(parse_line("list"), ParseOutcome::Usage(CommandKind::List)));
    assert!(matches!(parse_line("delete"), ParseOutcome::Usage(CommandKind::Delete)));
    assert!(matches!(parse_line("move onearg"), ParseOutcome::Usage(CommandKind::Move)));
    assert!(matches!(parse_line("copy"), ParseOutcome::Usage(CommandKind::Copy)));
    assert!(matches!(parse_line("mkdir"), ParseOutcome::Usage(CommandKind::Mkdir)));
    assert!(matches!(
        parse_line("organize-by-type"),
        ParseOutcome::Usage(CommandKind::OrganizeByType)
    ));
    assert!(matches!(
        parse_line("organize-by-date"),
        ParseOutcome::Usage(CommandKind::OrganizeByDate)
    ));
    assert!(matches!(parse_line("find"), ParseOutcome::Usage(CommandKind::Find)));
    assert!(matches!(parse_line("stats"), ParseOutcome::Usage(CommandKind::Stats)));
}

#[test]
fn parse_unknown_command_reports_word() {
    match parse_line("frobnicate everything") {
        ParseOutcome::Unknown(w) => assert_eq!(w, "frobnicate"),
        _ => panic!("expected an unknown-command outcome"),
    }
}

#[test]
fn usage_messages_name_each_command() {
    assert_eq!(usage_message(CommandKind::List), "Usage: list <directory>");
    assert_eq!(usage_message(CommandKind::Delete), "Usage: delete <file>");
    assert_eq!(usage_message(CommandKind::Move), "Usage: move <source> <destination>");
    assert_eq!(usage_message(CommandKind::Copy), "Usage: copy <source> <destination>");
    assert_eq!(usage_message(CommandKind::Mkdir), "Usage: mkdir <directory>");
    assert_eq!(
        usage_message(CommandKind::OrganizeByType),
        "Usage: organize-by-type <directory>"
    );
    assert_eq!(
        usage_message(CommandKind::OrganizeByDate),
        "Usage: organize-by-date <directory>"
    );
    assert_eq!(usage_message(CommandKind::Find), "Usage: find <pattern>");
    assert_eq!(usage_message(CommandKind::Stats), "Usage: stats <directory>");
}

#[test]
fn find_matches_exactly_the_matching_names() {
    let names = vec!["a.txt".to_string(), "b.log".to_string(), "c.txt".to_string()];
    let found = find_matching("*.txt", &names).unwrap();
    assert_eq!(found, vec!["a.txt".to_string(), "c.txt".to_string()]);
}

#[test]
fn find_with_question_mark_pattern() {
    let names = vec!["cat".to_string(), "cart".to_string(), "cut".to_string()];
    let found = find_matching("c?t", &names).unwrap();
    assert_eq!(found, vec!["cat".to_string(), "cut".to_string()]);
}

#[test]
fn find_with_malformed_pattern_fails() {
    let names = vec!["a.txt".to_string()];
    assert!(find_matching("a[", &names).is_none());
}
