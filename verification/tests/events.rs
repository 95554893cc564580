use discord_bot::events::on_event;
use discord_bot::logging::{Level, LogLine};

#[test]
fn ready_event_logs_the_connection() {
    let expected = LogLine { level: Level::Info, text: "Bot connected".to_string() };
    assert_eq!(on_event("ready"), Some(expected));
}

#[test]
fn message_event_logs_nothing() {
    assert_eq!(on_event("message"), None);
}

#[test]
fn other_events_log_nothing() {
    assert_eq!(on_event(""), None);
    assert_eq!(on_event("Ready"), None);
    assert_eq!(on_event("ready "), None);
    assert_eq!(on_event("cache_ready"), None);
    assert_eq!(on_event("shards_ready"), None);
    assert_eq!(on_event("resume"), None);
}

#[test]
fn a_session_logs_one_line_per_connection() {
    let events = ["ready", "message", "message", "typing_start", "ready", "message"];
    let lines: Vec<LogLine> = events.iter().filter_map(|name| on_event(name)).collect();
    assert_eq!(lines.len(), 2);
    for line in lines {
        assert_eq!(line.level, Level::Info);
        assert_eq!(line.text, "Bot connected");
    }
}

#[test]
fn log_line_constructors_set_the_level() {
    assert_eq!(
        LogLine::error("a".to_string()),
        LogLine { level: Level::Error, text: "a".to_string() }
    );
    assert_eq!(
        LogLine::info("b".to_string()),
        LogLine { level: Level::Info, text: "b".to_string() }
    );
}
