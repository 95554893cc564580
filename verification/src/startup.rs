//! The start-up policy: when the bot may connect, and how it gives up when
//! it may not.

use vstd::prelude::*;
use crate::config::{config_for, BotConfig, BotConfigView};
use crate::logging::{Level, LogLine, LogLineView};

verus! {

/// The status the process exits with when start-up is abandoned.
pub const EXIT_FAILURE: i32 = 1;

/// Why start-up was abandoned. Each variant carries the rendered cause.
#[derive(Clone, Debug, PartialEq, Eq)]
pub enum StartupError {
    /// The environment file could not be loaded.
    EnvFile { detail: String },
    /// The credential is not set.
    Token { detail: String },
    /// The gateway client could not be constructed.
    Client { detail: String },
}

/// Mathematical model of a [`StartupError`].
pub enum StartupErrorView {
    EnvFile { detail: Seq<char> },
    Token { detail: Seq<char> },
    Client { detail: Seq<char> },
}

impl View for StartupError {
    type V = StartupErrorView;

    open spec fn view(&self) -> StartupErrorView {
        match self {
            StartupError::EnvFile { detail } => StartupErrorView::EnvFile { detail: detail@ },
            StartupError::Token { detail } => StartupErrorView::Token { detail: detail@ },
            StartupError::Client { detail } => StartupErrorView::Client { detail: detail@ },
        }
    }
}

/// The text logged for a start-up error.
pub open spec fn startup_message(error: StartupErrorView) -> Seq<char> {
    match error {
        StartupErrorView::EnvFile { detail } => "Error while loading .env file : "@ + detail,
        StartupErrorView::Token { detail } => "Discord Token needed in .env file : "@ + detail,
        StartupErrorView::Client { detail } => "Error while creating client : "@ + detail,
    }
}

impl StartupError {
    /// The status the process exits with on this error: never zero.
    pub fn exit_status(&self) -> (status: i32)
        ensures
            status == EXIT_FAILURE,
            status != 0,
    {
        EXIT_FAILURE
    }

    /// The line to log before the process exits: an error that names what
    /// is missing, followed by the cause.
    pub fn log_line(&self) -> (line: LogLine)
        ensures
            line@ == (LogLineView { level: Level::Error, text: startup_message(self@) }),
    {
        let text = match self {
            StartupError::EnvFile { detail } => "Error while loading .env file : ".to_owned()
                .concat(detail.as_str()),
            StartupError::Token { detail } => "Discord Token needed in .env file : ".to_owned()
                .concat(detail.as_str()),
            StartupError::Client { detail } => "Error while creating client : ".to_owned()
                .concat(detail.as_str()),
        };
        LogLine::error(text)
    }
}

/// How start-up ends, given how loading the environment file went and what
/// reading the credential gave: the first failure is the error, and only
/// with both at hand is there a configuration to connect with.
pub open spec fn startup_outcome(
    env_file: Result<(), Seq<char>>,
    token: Result<Seq<char>, Seq<char>>,
) -> Result<BotConfigView, StartupErrorView> {
    match env_file {
        Err(detail) => Err(StartupErrorView::EnvFile { detail }),
        Ok(_) => match token {
            Err(detail) => Err(StartupErrorView::Token { detail }),
            Ok(token) => Ok(config_for(token)),
        },
    }
}

/// The characters of the outcome of loading the environment file.
pub open spec fn env_file_view(env_file: Result<(), String>) -> Result<(), Seq<char>> {
    match env_file {
        Ok(_) => Ok(()),
        Err(detail) => Err(detail@),
    }
}

/// The characters of the outcome of reading the credential.
pub open spec fn token_view(token: Result<String, String>) -> Result<Seq<char>, Seq<char>> {
    match token {
        Ok(token) => Ok(token@),
        Err(detail) => Err(detail@),
    }
}

/// The model of what [`load_config`] returns.
pub open spec fn outcome_view(
    outcome: Result<BotConfig, StartupError>,
) -> Result<BotConfigView, StartupErrorView> {
    match outcome {
        Ok(config) => Ok(config@),
        Err(error) => Err(error@),
    }
}

/// Decides whether the bot may connect.
///
/// `env_file` says how loading the environment file went and `token` what
/// reading the credential gave, each with the rendered cause on failure.
/// The result is the configuration to connect with, or the error to log
/// and exit on.
pub fn load_config(env_file: Result<(), String>, token: Result<String, String>) -> (outcome:
    Result<BotConfig, StartupError>)
    ensures
        outcome_view(outcome) == startup_outcome(env_file_view(env_file), token_view(token)),
{
    match env_file {
        Err(detail) => Err(StartupError::EnvFile { detail }),
        Ok(_) => match token {
            Err(detail) => Err(StartupError::Token { detail }),
            Ok(token) => Ok(BotConfig::new(token)),
        },
    }
}

/// Without a credential start-up never yields a configuration, so nothing
/// can connect; and every start-up error exits with a non-zero status and
/// logs a message that is not empty.
pub proof fn no_connection_without_token(
    env_file: Result<(), Seq<char>>,
    cause: Seq<char>,
    error: StartupErrorView,
)
    ensures
        startup_outcome(env_file, Err(cause)) is Err,
        EXIT_FAILURE != 0,
        startup_message(error).len() > 0,
{
    reveal_strlit("Error while loading .env file : ");
    reveal_strlit("Discord Token needed in .env file : ");
    reveal_strlit("Error while creating client : ");
}

} // verus!
