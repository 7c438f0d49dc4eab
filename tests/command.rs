use dorc::{parse_command, CommandError, Commands};

#[test]
fn parses_each_verb() {
    assert_eq!(parse_command("switch foo\n"), Ok(Commands::Switch("foo".to_string())));
    assert_eq!(parse_command("load foo\n"), Ok(Commands::Load("foo".to_string())));
    assert_eq!(parse_command("reload foo"), Ok(Commands::Reload("foo".to_string())));
}

#[test]
fn trims_the_argument() {
    assert_eq!(parse_command("load   bar  \r\n"), Ok(Commands::Load("bar".to_string())));
    assert_eq!(parse_command("  switch foo"), Ok(Commands::Switch("foo".to_string())));
}

#[test]
fn more_than_one_argument_is_an_error() {
    assert_eq!(
        parse_command("switch foo bar\n"),
        Err(CommandError::WrongArgumentCount("switch".to_string()))
    );
    assert_eq!(
        parse_command("load a\tb"),
        Err(CommandError::WrongArgumentCount("load".to_string()))
    );
}

#[test]
fn missing_argument_is_an_error() {
    assert_eq!(
        parse_command("reload\n"),
        Err(CommandError::WrongArgumentCount("reload".to_string()))
    );
    assert_eq!(
        parse_command("switch   \n"),
        Err(CommandError::WrongArgumentCount("switch".to_string()))
    );
}

#[test]
fn unknown_verb_is_an_error() {
    assert_eq!(
        parse_command("restart foo\n"),
        Err(CommandError::InvalidCommand("restart".to_string()))
    );
    assert_eq!(parse_command("\n"), Err(CommandError::InvalidCommand(String::new())));
    assert_eq!(
        parse_command("Switch foo"),
        Err(CommandError::InvalidCommand("Switch".to_string()))
    );
}
