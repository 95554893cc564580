//! Log lines: what the bot asks its host program to write to the log.

use vstd::prelude::*;

verus! {

/// Severity of a log line.
#[derive(Clone, Copy, Debug, PartialEq, Eq, Structural)]
pub enum Level {
    /// Something failed.
    Error,
    /// Something worth noting happened.
    Info,
}

/// One line for the log, with its severity.
#[derive(Clone, Debug, PartialEq, Eq)]
pub struct LogLine {
    pub level: Level,
    pub text: String,
}

/// Mathematical model of a [`LogLine`].
pub struct LogLineView {
    pub level: Level,
    pub text: Seq<char>,
}

impl View for LogLine {
    type V = LogLineView;

    open spec fn view(&self) -> LogLineView {
        LogLineView { level: self.level, text: self.text@ }
    }
}

/// The model of a line that may be absent.
pub open spec fn line_view(line: Option<LogLine>) -> Option<LogLineView> {
    match line {
        Some(line) => Some(line@),
        None => None,
    }
}

impl LogLine {
    /// A line of severity [`Level::Error`].
    pub fn error(text: String) -> (line: LogLine)
        ensures
            line@ == (LogLineView { level: Level::Error, text: text@ }),
    {
        LogLine { level: Level::Error, text }
    }

    /// A line of severity [`Level::Info`].
    pub fn info(text: String) -> (line: LogLine)
        ensures
            line@ == (LogLineView { level: Level::Info, text: text@ }),
    {
        LogLine { level: Level::Info, text }
    }
}

} // verus!
