use discord_bot::config::{
    gateway_intents, BotConfig, ALL_INTENTS, DIRECT_MESSAGES, GUILD_MEMBERS, GUILD_MESSAGES,
    GUILD_PRESENCES, MESSAGE_CONTENT, PREFIX, TOKEN_VARIABLE,
};
use discord_bot::logging::{Level, LogLine};
use discord_bot::startup::{load_config, StartupError, EXIT_FAILURE};
use poise::serenity_prelude::GatewayIntents;

#[test]
fn missing_token_is_fatal() {
    let outcome = load_config(Ok(()), Err("NotPresent".to_string()));
    let error = outcome.unwrap_err();
    assert_eq!(error, StartupError::Token { detail: "NotPresent".to_string() });
    assert_ne!(error.exit_status(), 0);
    assert_eq!(error.exit_status(), 1);
    let line = error.log_line();
    assert_eq!(line.level, Level::Error);
    assert_eq!(line.text, "Discord Token needed in .env file : NotPresent");
}

#[test]
fn missing_env_file_is_fatal() {
    let outcome = load_config(Err("Io(NotFound)".to_string()), Ok("abc".to_string()));
    let error = outcome.unwrap_err();
    assert_eq!(error, StartupError::EnvFile { detail: "Io(NotFound)".to_string() });
    assert_eq!(error.exit_status(), 1);
    let expected = LogLine {
        level: Level::Error,
        text: "Error while loading .env file : Io(NotFound)".to_string(),
    };
    assert_eq!(error.log_line(), expected);
}

#[test]
fn env_file_failure_comes_first() {
    let outcome = load_config(Err("first".to_string()), Err("second".to_string()));
    assert_eq!(outcome, Err(StartupError::EnvFile { detail: "first".to_string() }));
}

#[test]
fn client_failure_is_fatal() {
    let error = StartupError::Client { detail: "InvalidToken".to_string() };
    assert_eq!(error.exit_status(), EXIT_FAILURE);
    let expected = LogLine {
        level: Level::Error,
        text: "Error while creating client : InvalidToken".to_string(),
    };
    assert_eq!(error.log_line(), expected);
}

#[test]
fn token_at_hand_gives_the_configuration() {
    let outcome = load_config(Ok(()), Ok("abc.def".to_string()));
    let expected = BotConfig {
        token: "abc.def".to_string(),
        prefix: "!".to_string(),
        intents: 0x331_fefd,
    };
    assert_eq!(outcome, Ok(expected));
}

#[test]
fn empty_token_is_still_a_token() {
    let config = load_config(Ok(()), Ok(String::new())).unwrap();
    assert_eq!(config.token, "");
    assert_eq!(config, BotConfig::new(String::new()));
}

#[test]
fn configuration_names_are_fixed() {
    assert_eq!(TOKEN_VARIABLE, "DISCORD_TOKEN");
    assert_eq!(PREFIX, "!");
    assert_eq!(EXIT_FAILURE, 1);
}

#[test]
fn intents_are_non_privileged_plus_message_content() {
    let intents = gateway_intents();
    assert_eq!(intents, 0x331_fefd);
    assert_eq!(intents, (ALL_INTENTS & !(GUILD_MEMBERS | GUILD_PRESENCES)) | MESSAGE_CONTENT);
    assert_eq!(intents & GUILD_MESSAGES, GUILD_MESSAGES);
    assert_eq!(intents & DIRECT_MESSAGES, DIRECT_MESSAGES);
    assert_eq!(intents & MESSAGE_CONTENT, MESSAGE_CONTENT);
    assert_eq!(intents & GUILD_MEMBERS, 0);
    assert_eq!(intents & GUILD_PRESENCES, 0);
}

#[test]
fn intents_agree_with_the_gateway_library() {
    let expected = GatewayIntents::non_privileged() | GatewayIntents::MESSAGE_CONTENT;
    assert_eq!(gateway_intents(), expected.bits());
    assert_eq!(GatewayIntents::from_bits(gateway_intents()), Some(expected));
    assert_eq!(ALL_INTENTS, GatewayIntents::all().bits());
    assert_eq!(GUILD_MEMBERS, GatewayIntents::GUILD_MEMBERS.bits());
    assert_eq!(GUILD_PRESENCES, GatewayIntents::GUILD_PRESENCES.bits());
    assert_eq!(GUILD_MESSAGES, GatewayIntents::GUILD_MESSAGES.bits());
    assert_eq!(DIRECT_MESSAGES, GatewayIntents::DIRECT_MESSAGES.bits());
    assert_eq!(MESSAGE_CONTENT, GatewayIntents::MESSAGE_CONTENT.bits());
}
