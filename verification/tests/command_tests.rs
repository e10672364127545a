use todo_notes::command::{Command, confirmation_message, parse_command, usage_message};

#[test]
fn recognized_tokens_parse() {
    assert!(matches!(parse_command("add"), Some(Command::Add)));
    assert!(matches!(parse_command("mark"), Some(Command::Mark)));
    assert!(matches!(parse_command("del"), Some(Command::Del)));
}

#[test]
fn unrecognized_tokens_parse_to_none() {
    assert!(parse_command("").is_none());
    assert!(parse_command("delete").is_none());
    assert!(parse_command("Add").is_none());
    assert!(parse_command("add ").is_none());
    assert!(parse_command("list").is_none());
}

#[test]
fn confirmation_lines_are_fixed() {
    assert_eq!(confirmation_message(Command::Add), "Your task was saved!");
    assert_eq!(confirmation_message(Command::Mark), "Task marked as completed!");
    assert_eq!(confirmation_message(Command::Del), "Task deleted successfully!");
}

#[test]
fn usage_line_names_the_choices() {
    assert_eq!(usage_message(), "Please pass one argument from [\"mark\", \"add\", \"del\"].");
}
