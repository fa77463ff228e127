use openmicc::repl::{
    react_to_line, LineReaction, ReplCommand, ReplCommandDiscriminants, ReplParseError, ReplStep,
};
use openmicc::user_session::ClientMessage;

fn parsed(line: &str) -> Option<Result<ReplCommand, ReplParseError>> {
    ReplCommand::parse(line)
}

fn is_cmd(res: Option<Result<ReplCommand, ReplParseError>>, expected: &str) -> bool {
    match res {
        Some(Ok(ReplCommand::Exit)) => expected == "exit",
        Some(Ok(ReplCommand::List)) => expected == "list",
        Some(Ok(ReplCommand::SignUp { name })) => expected == format!("signup {}", name),
        _ => false,
    }
}

fn err_of(res: Option<Result<ReplCommand, ReplParseError>>) -> Option<ReplParseError> {
    match res {
        Some(Err(e)) => Some(e),
        _ => None,
    }
}

#[test]
fn repl_parse_commands() {
    assert!(is_cmd(parsed("exit"), "exit"));
    assert!(is_cmd(parsed("list"), "list"));
    assert!(is_cmd(parsed("signup alice"), "signup alice"));
    assert!(is_cmd(parsed("   signup\t bob  \n"), "signup bob"));
}

#[test]
fn repl_parse_blank_lines() {
    assert!(parsed("").is_none());
    assert!(parsed("   \t\n").is_none());
    assert!(parsed("\u{3000}\u{a0}").is_none());
}

#[test]
fn repl_parse_errors() {
    assert_eq!(err_of(parsed("hello")), Some(ReplParseError::UnknownCommand));
    assert_eq!(err_of(parsed("Exit")), Some(ReplParseError::UnknownCommand));
    assert_eq!(err_of(parsed("exit now")), Some(ReplParseError::ExitTakesNoArgs));
    assert_eq!(err_of(parsed("list all")), Some(ReplParseError::ListTakesNoArgs));
    assert_eq!(err_of(parsed("signup")), Some(ReplParseError::SignUpRequiresName));
    assert_eq!(err_of(parsed("signup a b")), Some(ReplParseError::SignUpTooManyArgs));
}

#[test]
fn repl_parse_unicode_whitespace_separates_words() {
    assert!(is_cmd(parsed("signup\u{2003}carol"), "signup carol"));
    assert!(is_cmd(parsed("signup\u{85}dave\u{205f}"), "signup dave"));
}

#[test]
fn repl_help_message() {
    assert_eq!(
        ReplCommand::help_message(),
        "valid commands:\n- exit\n- signup\n- list\n"
    );
}

#[test]
fn repl_kinds() {
    let names: Vec<&str> = ReplCommandDiscriminants::all().iter().map(|k| k.name()).collect();
    assert_eq!(names, vec!["exit", "signup", "list"]);
    assert_eq!(ReplCommandDiscriminants::from_word("signup"), Ok(ReplCommandDiscriminants::SignUp));
    assert_eq!(ReplCommandDiscriminants::from_word("SignUp"), Err(ReplParseError::UnknownCommand));
}

#[test]
fn repl_steps() {
    match ReplCommand::Exit.into_step::<()>() {
        ReplStep::Break => {}
        _ => panic!("exit must stop"),
    }
    match ReplCommand::List.into_step::<()>() {
        ReplStep::Send(ClientMessage::GetList) => {}
        _ => panic!("list must ask for the list"),
    }
    match (ReplCommand::SignUp { name: "erin".to_string() }).into_step::<()>() {
        ReplStep::Send(ClientMessage::SignMeUp(text)) => assert_eq!(text.as_str(), "erin"),
        _ => panic!("signup must sign up"),
    }
}

#[test]
fn repl_command_text_parses_back() {
    for line in ["exit", "list", "signup frank", "signup 名前"] {
        assert!(is_cmd(parsed(line), line));
    }
}

#[test]
fn repl_line_reactions() {
    assert!(matches!(react_to_line::<()>("  "), LineReaction::Ignore));
    assert!(matches!(react_to_line::<()>("exit"), LineReaction::Stop));
    assert!(matches!(react_to_line::<()>("list"), LineReaction::Send(ClientMessage::GetList)));
    assert!(matches!(react_to_line::<()>("dance"), LineReaction::Invalid(ReplParseError::UnknownCommand)));
    match react_to_line::<()>("signup gina") {
        LineReaction::Send(ClientMessage::SignMeUp(t)) => assert_eq!(t.as_str(), "gina"),
        _ => panic!("signup must sign up"),
    }
}
