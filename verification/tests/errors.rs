use discord_bot::errors::{on_error, on_handler_outcome, Failure, Reaction};
use discord_bot::logging::{Level, LogLine};

#[test]
fn failed_setup_stops_the_bot() {
    let reaction = on_error(Failure::Setup { error: "Io(NotFound)".to_string() });
    assert_eq!(
        reaction,
        Reaction::Abort { message: "Failed to start bot: Io(NotFound)".to_string() }
    );
}

#[test]
fn failed_command_is_logged() {
    let reaction = on_error(Failure::Command {
        command: "ping".to_string(),
        error: "Http(Timeout)".to_string(),
    });
    let expected = LogLine {
        level: Level::Error,
        text: "Error in command `ping`: Http(Timeout)".to_string(),
    };
    assert_eq!(reaction, Reaction::Log { line: expected });
}

#[test]
fn failed_command_with_empty_texts_is_logged() {
    let reaction = on_error(Failure::Command { command: String::new(), error: String::new() });
    let expected = LogLine { level: Level::Error, text: "Error in command ``: ".to_string() };
    assert_eq!(reaction, Reaction::Log { line: expected });
}

#[test]
fn other_failures_are_deferred() {
    assert_eq!(on_error(Failure::Other), Reaction::Defer);
}

#[test]
fn successful_default_handling_logs_nothing() {
    assert_eq!(on_handler_outcome(Ok(())), None);
}

#[test]
fn failed_default_handling_is_logged() {
    let expected = LogLine {
        level: Level::Error,
        text: "Error while handling error: connection closed".to_string(),
    };
    assert_eq!(on_handler_outcome(Err("connection closed".to_string())), Some(expected));
}
