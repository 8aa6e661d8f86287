//! Events read from the supervised server's output.

use crate::duration::Duration;
use crate::server_log::scanners::{
    backup_done_of, backup_start_of, joined_of, lag_spike_of, left_of, scan_backup_start,
    scan_backup_stop, scan_lag_spike, scan_line, scan_server_start, scan_server_stop,
    scan_user_login, scan_user_logout, scanned, server_start_of, server_stop_of, LineParts,
    ScannedLine,
};
use crate::text::str_eq;
use vstd::prelude::*;

pub mod scanners;
pub mod shapes;

verus! {

/// What one line of the server's output can tell the supervisor.
#[derive(Debug, Eq, PartialEq)]
pub enum FromServerLog {
    ServerStarted,
    ServerStopping,
    ServerError { exception: String, sender: String },
    LagSpike { length: Duration, ticks: usize },
    BackupStarted,
    BackupFinished { time: Duration },
    UserLogin { name: String },
    UserLogout { name: String },
    ChatMessage { name: String, message: String },
}

/// The mathematical content of a `FromServerLog`: texts as character
/// sequences, spans of time in milliseconds.
pub ghost enum LogEvent {
    ServerStarted,
    ServerStopping,
    ServerError { exception: Seq<char>, sender: Seq<char> },
    LagSpike { length: int, ticks: usize },
    BackupStarted,
    BackupFinished { time: int },
    UserLogin { name: Seq<char> },
    UserLogout { name: Seq<char> },
    ChatMessage { name: Seq<char>, message: Seq<char> },
}

impl View for FromServerLog {
    type V = LogEvent;

    open spec fn view(&self) -> LogEvent {
        match *self {
            FromServerLog::ServerStarted => LogEvent::ServerStarted,
            FromServerLog::ServerStopping => LogEvent::ServerStopping,
            FromServerLog::ServerError { exception, sender } => LogEvent::ServerError {
                exception: exception@,
                sender: sender@,
            },
            FromServerLog::LagSpike { length, ticks } => LogEvent::LagSpike {
                length: length@,
                ticks,
            },
            FromServerLog::BackupStarted => LogEvent::BackupStarted,
            FromServerLog::BackupFinished { time } => LogEvent::BackupFinished { time: time@ },
            FromServerLog::UserLogin { name } => LogEvent::UserLogin { name: name@ },
            FromServerLog::UserLogout { name } => LogEvent::UserLogout { name: name@ },
            FromServerLog::ChatMessage { name, message } => LogEvent::ChatMessage {
                name: name@,
                message: message@,
            },
        }
    }
}

/// How grave a log line is, from the least to the most.
#[derive(Clone, Copy, Debug, PartialEq, Eq, Structural)]
pub enum Level {
    Trace,
    Debug,
    Info,
    Warn,
    Error,
}

/// The severity that a level token stands for. `FATAL` counts as an error;
/// a token that is none of the six known ones is of the least severity.
pub open spec fn level_for(token: Seq<char>) -> Level {
    if token == "INFO"@ {
        Level::Info
    } else if token == "WARN"@ {
        Level::Warn
    } else if token == "ERROR"@ || token == "FATAL"@ {
        Level::Error
    } else if token == "DEBUG"@ {
        Level::Debug
    } else {
        Level::Trace
    }
}

/// Reads a level token.
pub fn level_of(token: &str) -> (r: Level)
    ensures
        r == level_for(token@),
{
    if str_eq(token, "INFO") {
        Level::Info
    } else if str_eq(token, "WARN") {
        Level::Warn
    } else if str_eq(token, "ERROR") || str_eq(token, "FATAL") {
        Level::Error
    } else if str_eq(token, "DEBUG") {
        Level::Debug
    } else {
        Level::Trace
    }
}

/// The event that a scanned line stands for, if any.
///
/// A chat line is a chat message whatever it says. Any other line is held
/// against the message matchers in a fixed order (started, stopping, lag
/// spike, backup started, backup finished, joined, left) and the first that
/// accepts it decides. A line that none accepts is an error event if its
/// level is `Error`, and no event otherwise.
pub open spec fn event_for(parts: LineParts) -> Option<LogEvent> {
    let h = parts.sender_handle;
    let m = parts.message;
    if parts.is_chat_msg {
        Some(LogEvent::ChatMessage { name: h, message: m })
    } else if server_start_of(h, m) is Ok {
        Some(LogEvent::ServerStarted)
    } else if server_stop_of(h, m) is Ok {
        Some(LogEvent::ServerStopping)
    } else if lag_spike_of(h, m) is Ok {
        Some(LogEvent::LagSpike { length: lag_spike_of(h, m)->Ok_0.0, ticks: lag_spike_of(h, m)->Ok_0.1 })
    } else if backup_start_of(h, m) is Ok {
        Some(LogEvent::BackupStarted)
    } else if backup_done_of(h, m) is Ok {
        Some(LogEvent::BackupFinished { time: backup_done_of(h, m)->Ok_0 })
    } else if joined_of(h, m) is Ok {
        Some(LogEvent::UserLogin { name: joined_of(h, m)->Ok_0 })
    } else if left_of(h, m) is Ok {
        Some(LogEvent::UserLogout { name: left_of(h, m)->Ok_0 })
    } else if level_for(parts.level) == Level::Error {
        Some(LogEvent::ServerError { exception: m, sender: h })
    } else {
        None
    }
}

/// The event that a raw line stands for, if any: none for a line that the
/// grammar does not recognise.
pub open spec fn event_of(line: Seq<char>) -> Option<LogEvent> {
    match scanned(line) {
        Some(parts) => event_for(parts),
        None => None,
    }
}

/// Turns a scanned line into the event it stands for.
pub fn classify(line: &ScannedLine) -> (r: Option<FromServerLog>)
    ensures
        match event_for(line@) {
            Some(e) => r is Some && r->0@ == e,
            None => r is None,
        },
{
    let sender = line.sender_handle.as_str();
    let message = line.message.as_str();
    if line.is_chat_msg {
        return Some(
            FromServerLog::ChatMessage {
                name: line.sender_handle.clone(),
                message: line.message.clone(),
            },
        );
    }
    if let Ok(e) = scan_server_start(sender, message) {
        return Some(e);
    }
    if let Ok(e) = scan_server_stop(sender, message) {
        return Some(e);
    }
    if let Ok((e, _)) = scan_lag_spike(sender, message) {
        return Some(e);
    }
    if let Ok(e) = scan_backup_start(sender, message) {
        return Some(e);
    }
    if let Ok((e, _)) = scan_backup_stop(sender, message) {
        return Some(e);
    }
    if let Ok((e, _)) = scan_user_login(sender, message) {
        return Some(e);
    }
    if let Ok((e, _)) = scan_user_logout(sender, message) {
        return Some(e);
    }
    match level_of(line.level.as_str()) {
        Level::Error => Some(
            FromServerLog::ServerError {
                exception: line.message.clone(),
                sender: line.sender_handle.clone(),
            },
        ),
        _ => None,
    }
}

/// Turns a raw line of server output into the event it stands for.
pub fn event_of_line(line: &str) -> (r: Option<FromServerLog>)
    ensures
        match event_of(line@) {
            Some(e) => r is Some && r->0@ == e,
            None => r is None,
        },
{
    match scan_line(line) {
        Ok(parts) => classify(&parts),
        Err(_) => None,
    }
}

/// What the supervisor writes to its own log for a line of server output.
#[derive(Clone, Copy, Debug, PartialEq, Eq, Structural)]
pub enum Echo {
    /// The line gave a chat or status event, which is logged as such.
    Event,
    /// A plain line, written `entries` times at `level`.
    Plain { level: Level, entries: u8 },
    /// An unrecognised line, surfaced as a raw trace.
    RawTrace,
    /// An unrecognised line, passed over.
    Skipped,
}

/// What is written for a raw line. An unrecognised line is surfaced exactly
/// when the console is enabled. A recognised line that is neither chat nor
/// accepted by a matcher is written once if it is a warning or an error, and
/// once more if the console is enabled.
pub open spec fn echo_of(line: Seq<char>, console_enabled: bool) -> Echo {
    match scanned(line) {
        None => if console_enabled {
            Echo::RawTrace
        } else {
            Echo::Skipped
        },
        Some(parts) => {
            let level = level_for(parts.level);
            let grave: int = if level == Level::Warn || level == Level::Error {
                1
            } else {
                0
            };
            let console: int = if console_enabled {
                1
            } else {
                0
            };
            match event_for(parts) {
                Some(LogEvent::ServerError { .. }) | None => Echo::Plain {
                    level,
                    entries: (grave + console) as u8,
                },
                Some(_) => Echo::Event,
            }
        },
    }
}

/// What a line of server output leads to: the line taken apart, if the
/// grammar recognises it, the event to hand on, if any, and what to write to
/// the log.
pub struct LineReport {
    pub line: Option<ScannedLine>,
    pub event: Option<FromServerLog>,
    pub echo: Echo,
}

/// Reads one line of server output.
pub fn interpret_line(line: &str, console_enabled: bool) -> (r: LineReport)
    ensures
        r.echo == echo_of(line@, console_enabled),
        match scanned(line@) {
            Some(parts) => r.line is Some && r.line->0@ == parts,
            None => r.line is None,
        },
        match event_of(line@) {
            Some(e) => r.event is Some && r.event->0@ == e,
            None => r.event is None,
        },
{
    match scan_line(line) {
        Err(_) => LineReport {
            line: None,
            event: None,
            echo: if console_enabled {
                Echo::RawTrace
            } else {
                Echo::Skipped
            },
        },
        Ok(parts) => {
            let event = classify(&parts);
            let level = level_of(parts.level.as_str());
            let grave: u8 = match level {
                Level::Warn | Level::Error => 1,
                _ => 0,
            };
            let console: u8 = if console_enabled {
                1
            } else {
                0
            };
            let echo = match &event {
                Some(FromServerLog::ServerError { .. }) | None => Echo::Plain {
                    level,
                    entries: grave + console,
                },
                Some(_) => Echo::Event,
            };
            LineReport { line: Some(parts), event, echo }
        },
    }
}

} // verus!
