//! The error policy: what the bot does when the command framework reports
//! a failure.

use vstd::prelude::*;
use crate::logging::{line_view, Level, LogLine, LogLineView};

verus! {

/// A failure reported by the command framework, reduced to what the policy
/// reads.
#[derive(Clone, Debug, PartialEq, Eq)]
pub enum Failure {
    /// Setting up the bot's data failed; `error` is the rendered cause.
    Setup { error: String },
    /// The handler of the command named `command` returned an error;
    /// `error` is the rendered cause.
    Command { command: String, error: String },
    /// Anything else the framework reports.
    Other,
}

/// Mathematical model of a [`Failure`].
pub enum FailureView {
    Setup { error: Seq<char> },
    Command { command: Seq<char>, error: Seq<char> },
    Other,
}

impl View for Failure {
    type V = FailureView;

    open spec fn view(&self) -> FailureView {
        match self {
            Failure::Setup { error } => FailureView::Setup { error: error@ },
            Failure::Command { command, error } => FailureView::Command {
                command: command@,
                error: error@,
            },
            Failure::Other => FailureView::Other,
        }
    }
}

/// What the host program has to do about a [`Failure`].
#[derive(Clone, Debug, PartialEq, Eq)]
pub enum Reaction {
    /// Stop the bot, giving `message` as the reason.
    Abort { message: String },
    /// Write `line` to the log and keep running.
    Log { line: LogLine },
    /// Hand the failure to the framework's own error handler.
    Defer,
}

/// Mathematical model of a [`Reaction`].
pub enum ReactionView {
    Abort { message: Seq<char> },
    Log { line: LogLineView },
    Defer,
}

impl View for Reaction {
    type V = ReactionView;

    open spec fn view(&self) -> ReactionView {
        match self {
            Reaction::Abort { message } => ReactionView::Abort { message: message@ },
            Reaction::Log { line } => ReactionView::Log { line: line@ },
            Reaction::Defer => ReactionView::Defer,
        }
    }
}

/// The reason given when the bot's data could not be set up.
pub open spec fn setup_failure_message(error: Seq<char>) -> Seq<char> {
    "Failed to start bot: "@ + error
}

/// The log text for a command whose handler failed.
pub open spec fn command_failure_message(command: Seq<char>, error: Seq<char>) -> Seq<char> {
    "Error in command `"@ + command + "`: "@ + error
}

/// The log text for a failure of the framework's own error handler.
pub open spec fn handler_failure_message(error: Seq<char>) -> Seq<char> {
    "Error while handling error: "@ + error
}

/// The error policy as a function: a failed set-up stops the bot, a failed
/// command is logged as an error and the bot keeps running, everything else
/// is left to the framework.
pub open spec fn reaction_to(failure: FailureView) -> ReactionView {
    match failure {
        FailureView::Setup { error } => ReactionView::Abort {
            message: setup_failure_message(error),
        },
        FailureView::Command { command, error } => ReactionView::Log {
            line: LogLineView {
                level: Level::Error,
                text: command_failure_message(command, error),
            },
        },
        FailureView::Other => ReactionView::Defer,
    }
}

/// Decides what to do about a failure the framework reported.
pub fn on_error(failure: Failure) -> (reaction: Reaction)
    ensures
        reaction@ == reaction_to(failure@),
{
    match failure {
        Failure::Setup { error } => {
            let message = "Failed to start bot: ".to_owned().concat(error.as_str());
            Reaction::Abort { message }
        },
        Failure::Command { command, error } => {
            let text = "Error in command `".to_owned()
                .concat(command.as_str())
                .concat("`: ")
                .concat(error.as_str());
            Reaction::Log { line: LogLine::error(text) }
        },
        Failure::Other => Reaction::Defer,
    }
}

/// The line to log once the framework's own error handler has run on a
/// deferred failure: none if it succeeded, one error line if it failed with
/// the rendered cause.
pub open spec fn handler_outcome_line(outcome: Result<(), Seq<char>>) -> Option<LogLineView> {
    match outcome {
        Ok(_) => None,
        Err(error) => Some(
            LogLineView { level: Level::Error, text: handler_failure_message(error) },
        ),
    }
}

/// The characters of how the framework's own error handler went.
pub open spec fn handler_outcome_view(outcome: Result<(), String>) -> Result<(), Seq<char>> {
    match outcome {
        Ok(_) => Ok(()),
        Err(error) => Err(error@),
    }
}

/// Decides what to log after the framework's own error handler has run on a
/// deferred failure; `outcome` carries the rendered cause if it failed.
pub fn on_handler_outcome(outcome: Result<(), String>) -> (line: Option<LogLine>)
    ensures
        line_view(line) == handler_outcome_line(handler_outcome_view(outcome)),
{
    match outcome {
        Ok(_) => None,
        Err(error) => {
            let text = "Error while handling error: ".to_owned().concat(error.as_str());
            Some(LogLine::error(text))
        },
    }
}

} // verus!
