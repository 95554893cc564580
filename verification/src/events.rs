//! The event policy: which gateway events the bot logs.

use vstd::prelude::*;
use crate::logging::{line_view, Level, LogLine, LogLineView};

verus! {

/// Name of the event the gateway sends once a session is established.
pub open spec fn ready() -> Seq<char> {
    "ready"@
}

/// The line that records an established session.
pub open spec fn connected_line() -> LogLineView {
    LogLineView { level: Level::Info, text: "Bot connected"@ }
}

/// The line logged for the event named `name`, if any: an established
/// session is recorded, every other event passes in silence.
pub open spec fn event_line(name: Seq<char>) -> Option<LogLineView> {
    if name == ready() {
        Some(connected_line())
    } else {
        None
    }
}

/// Decides what to log for the gateway event named `name`.
pub fn on_event(name: &str) -> (line: Option<LogLine>)
    ensures
        line_view(line) == event_line(name@),
{
    if name.to_owned() == "ready".to_owned() {
        Some(LogLine::info("Bot connected".to_owned()))
    } else {
        None
    }
}

/// The lines logged over a session that receives `events` in this order.
pub open spec fn session_log(events: Seq<Seq<char>>) -> Seq<LogLineView>
    decreases events.len(),
{
    if events.len() == 0 {
        Seq::empty()
    } else {
        let earlier = session_log(events.drop_last());
        match event_line(events.last()) {
            Some(line) => earlier.push(line),
            None => earlier,
        }
    }
}

/// Over any stream of gateway events the log gains exactly one line for
/// each established session, each of them the "connected" line, and none
/// for any other event.
pub proof fn one_line_per_connection(events: Seq<Seq<char>>)
    ensures
        session_log(events).len() == events.filter(|name: Seq<char>| name == ready()).len(),
        forall|i: int|
            0 <= i < session_log(events).len() ==> session_log(events)[i] == connected_line(),
    decreases events.len(),
{
    reveal(Seq::filter);
    if events.len() > 0 {
        one_line_per_connection(events.drop_last());
    }
}

} // verus!
