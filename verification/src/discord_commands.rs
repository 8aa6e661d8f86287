//! Operator commands as they arrive from the chat channel.

use crate::text::{has_at, lit_at, range_is, slice_text, to_chars};
use vstd::prelude::*;

verus! {

/// What the chat side hands to the supervisor: an operator's command, or
/// news of the connection itself.
#[derive(Debug, Eq, PartialEq)]
pub enum FromDiscord {
    ReconnectEvent,
    ErrorEvent,
    StartServerEvent,
    StopServerEvent,
    KillServerEvent,
    ShutdownServerEvent(u8, u8),
    CancelShutdownEvent,
    BackupEvent,
    OpCommandEvent(String),
    StatusQueryEvent,
    HelpEvent,
    UnknownCommand,
    NoCommand,
}

/// The mathematical content of a `FromDiscord`.
pub ghost enum Command {
    Reconnect,
    Error,
    Start,
    Stop,
    Kill,
    Shutdown(u8, u8),
    Cancel,
    Backup,
    Op(Seq<char>),
    Status,
    Help,
    Unknown,
    Empty,
}

impl View for FromDiscord {
    type V = Command;

    open spec fn view(&self) -> Command {
        match *self {
            FromDiscord::ReconnectEvent => Command::Reconnect,
            FromDiscord::ErrorEvent => Command::Error,
            FromDiscord::StartServerEvent => Command::Start,
            FromDiscord::StopServerEvent => Command::Stop,
            FromDiscord::KillServerEvent => Command::Kill,
            FromDiscord::ShutdownServerEvent(h, m) => Command::Shutdown(h, m),
            FromDiscord::CancelShutdownEvent => Command::Cancel,
            FromDiscord::BackupEvent => Command::Backup,
            FromDiscord::OpCommandEvent(user) => Command::Op(user@),
            FromDiscord::StatusQueryEvent => Command::Status,
            FromDiscord::HelpEvent => Command::Help,
            FromDiscord::UnknownCommand => Command::Unknown,
            FromDiscord::NoCommand => Command::Empty,
        }
    }
}

/// What every command starts with.
pub open spec fn prefix() -> Seq<char> {
    "mc!"@
}

/// Whether `c` parts two words of a command.
pub open spec fn is_space(c: char) -> bool {
    c == ' ' || c == '\t' || c == '\n' || c == '\x0C' || c == '\r'
}

/// The first position at or after `from` that holds no blank, or the length
/// of `s`.
pub open spec fn word_start(s: Seq<char>, from: int) -> int
    decreases s.len() - from,
{
    if from < 0 || from >= s.len() {
        s.len() as int
    } else if !is_space(s[from]) {
        from
    } else {
        word_start(s, from + 1)
    }
}

/// The first position at or after `from` that holds a blank, or the length
/// of `s`.
pub open spec fn word_end(s: Seq<char>, from: int) -> int
    decreases s.len() - from,
{
    if from < 0 || from >= s.len() {
        s.len() as int
    } else if is_space(s[from]) {
        from
    } else {
        word_end(s, from + 1)
    }
}

/// The first word of `s` at or after `from`; empty if there is none.
pub open spec fn word_at(s: Seq<char>, from: int) -> Seq<char> {
    s.subrange(word_start(s, from), word_end(s, word_start(s, from)))
}

/// The command that a first word and the word after it stand for.
pub open spec fn command_for(word: Seq<char>, argument: Seq<char>) -> Command {
    if word.len() == 0 {
        Command::Empty
    } else if word == "start"@ {
        Command::Start
    } else if word == "stop"@ {
        Command::Stop
    } else if word == "kill"@ {
        Command::Kill
    } else if word == "shutdown"@ {
        Command::Shutdown(0, 0)
    } else if word == "cancel"@ {
        Command::Cancel
    } else if word == "backup"@ {
        Command::Backup
    } else if word == "op"@ {
        Command::Op(argument)
    } else if word == "status"@ {
        Command::Status
    } else if word == "help"@ {
        Command::Help
    } else {
        Command::Unknown
    }
}

/// What a chat message asks of the supervisor: nothing unless it starts with
/// the prefix; else the command named by the first word behind the prefix,
/// with the second word as its argument.
pub open spec fn parsed(content: Seq<char>) -> Option<Command> {
    let p = prefix().len() as int;
    if !lit_at(content, 0, prefix()) {
        None
    } else {
        Some(
            command_for(word_at(content, p), word_at(content, word_end(content, word_start(content, p)))),
        )
    }
}

/// Position of the first character at or after `from` that is no blank.
fn find_word_start(v: &Vec<char>, from: usize) -> (r: usize)
    requires
        from <= v.len(),
    ensures
        r == word_start(v@, from as int),
        from <= r <= v.len(),
{
    let mut i: usize = from;
    while i < v.len()
        invariant
            from <= i <= v.len(),
            word_start(v@, from as int) == word_start(v@, i as int),
        decreases v.len() - i,
    {
        let c = v[i];
        if !(c == ' ' || c == '\t' || c == '\n' || c == '\x0C' || c == '\r') {
            return i;
        }
        i = i + 1;
    }
    i
}

/// Position of the first blank at or after `from`.
fn find_word_end(v: &Vec<char>, from: usize) -> (r: usize)
    requires
        from <= v.len(),
    ensures
        r == word_end(v@, from as int),
        from <= r <= v.len(),
{
    let mut i: usize = from;
    while i < v.len()
        invariant
            from <= i <= v.len(),
            word_end(v@, from as int) == word_end(v@, i as int),
        decreases v.len() - i,
    {
        let c = v[i];
        if c == ' ' || c == '\t' || c == '\n' || c == '\x0C' || c == '\r' {
            return i;
        }
        i = i + 1;
    }
    i
}

/// Reads a chat message as a command.
pub fn parse_command(content: &str) -> (r: Option<FromDiscord>)
    ensures
        match parsed(content@) {
            Some(c) => r is Some && r->0@ == c,
            None => r is None,
        },
{
    let v = to_chars(content);
    let lead = to_chars("mc!");
    if !has_at(&v, 0, &lead) {
        return None;
    }
    let a = find_word_start(&v, lead.len());
    let b = find_word_end(&v, a);
    let c = find_word_start(&v, b);
    let d = find_word_end(&v, c);
    let event = if a == b {
        FromDiscord::NoCommand
    } else if range_is(&v, a, b, "start") {
        FromDiscord::StartServerEvent
    } else if range_is(&v, a, b, "stop") {
        FromDiscord::StopServerEvent
    } else if range_is(&v, a, b, "kill") {
        FromDiscord::KillServerEvent
    } else if range_is(&v, a, b, "shutdown") {
        FromDiscord::ShutdownServerEvent(0, 0)
    } else if range_is(&v, a, b, "cancel") {
        FromDiscord::CancelShutdownEvent
    } else if range_is(&v, a, b, "backup") {
        FromDiscord::BackupEvent
    } else if range_is(&v, a, b, "op") {
        FromDiscord::OpCommandEvent(slice_text(content, c, d))
    } else if range_is(&v, a, b, "status") {
        FromDiscord::StatusQueryEvent
    } else if range_is(&v, a, b, "help") {
        FromDiscord::HelpEvent
    } else {
        FromDiscord::UnknownCommand
    };
    Some(event)
}

/// What a message seen on the chat side asks of the supervisor. Only a
/// message that someone else wrote, in the channel the supervisor listens
/// on, can be a command.
pub open spec fn accepted(
    author: u64,
    own_id: u64,
    channel: u64,
    bot_channel: u64,
    content: Seq<char>,
) -> Option<Command> {
    if author == own_id || channel != bot_channel {
        None
    } else {
        parsed(content)
    }
}

/// Reads a message seen on the chat side as a command, if it is one.
pub fn command_of_message(
    author: u64,
    own_id: u64,
    channel: u64,
    bot_channel: u64,
    content: &str,
) -> (r: Option<FromDiscord>)
    ensures
        match accepted(author, own_id, channel, bot_channel, content@) {
            Some(c) => r is Some && r->0@ == c,
            None => r is None,
        },
{
    if author == own_id || channel != bot_channel {
        None
    } else {
        parse_command(content)
    }
}

/// How receiving from the chat side can fail.
#[derive(Clone, Copy, Debug, PartialEq, Eq, Structural)]
pub enum ReceiveFailure {
    /// The connection broke down.
    WebSocket,
    /// The other side closed the connection.
    Closed,
    /// Anything else; the listener goes on.
    Other,
}

/// What a failure to receive is reported as, if it ends the listener.
pub open spec fn failure_event(failure: ReceiveFailure) -> Option<Command> {
    match failure {
        ReceiveFailure::WebSocket => Some(Command::Reconnect),
        ReceiveFailure::Closed => Some(Command::Error),
        ReceiveFailure::Other => None,
    }
}

/// Decides what to report of a failure to receive. The listener ends
/// exactly when there is something to report.
pub fn event_of_failure(failure: ReceiveFailure) -> (r: Option<FromDiscord>)
    ensures
        match failure_event(failure) {
            Some(c) => r is Some && r->0@ == c,
            None => r is None,
        },
{
    match failure {
        ReceiveFailure::WebSocket => Some(FromDiscord::ReconnectEvent),
        ReceiveFailure::Closed => Some(FromDiscord::ErrorEvent),
        ReceiveFailure::Other => None,
    }
}

} // verus!
