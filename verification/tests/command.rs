use rdbg::{Command, Error, parse_command};

#[test]
fn full_command_word_is_recognized() {
    assert!(matches!(parse_command("continue"), Ok(Command::Continue)));
}

#[test]
fn unambiguous_prefixes_are_recognized() {
    assert!(matches!(parse_command("c"), Ok(Command::Continue)));
    assert!(matches!(parse_command("con"), Ok(Command::Continue)));
    assert!(matches!(parse_command("cont"), Ok(Command::Continue)));
}

#[test]
fn trailing_arguments_are_ignored() {
    assert!(matches!(parse_command("c now"), Ok(Command::Continue)));
    assert!(matches!(parse_command("continue 1 2"), Ok(Command::Continue)));
}

#[test]
fn empty_input_is_rejected_with_empty_token() {
    match parse_command("") {
        Err(Error::Command(token)) => assert_eq!(token, Vec::<u8>::new()),
        other => panic!("expected a command error, got {:?}", other),
    }
}

#[test]
fn leading_space_yields_empty_token() {
    match parse_command(" continue") {
        Err(Error::Command(token)) => assert_eq!(token, Vec::<u8>::new()),
        other => panic!("expected a command error, got {:?}", other),
    }
}

#[test]
fn unknown_token_is_rejected_and_carried() {
    match parse_command("bogus") {
        Err(Error::Command(token)) => assert_eq!(token, b"bogus".to_vec()),
        other => panic!("expected a command error, got {:?}", other),
    }
}

#[test]
fn overlong_token_is_not_a_prefix() {
    match parse_command("continues") {
        Err(Error::Command(token)) => assert_eq!(token, b"continues".to_vec()),
        other => panic!("expected a command error, got {:?}", other),
    }
}

#[test]
fn mismatched_token_is_rejected() {
    assert!(parse_command("cox").is_err());
    assert!(parse_command("continux").is_err());
}
