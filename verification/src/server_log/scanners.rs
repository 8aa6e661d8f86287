//! The log-line grammar: an ordered list of line shapes, tried from the most
//! specific to the most general, and the matchers for the few messages that
//! carry meaning for the supervisor.

use crate::duration::{in_range, Duration, MAX_SECONDS};
use crate::server_log::{FromServerLog, LogEvent};
use crate::text::{
    after, char_at, count_of, find, find_char, has_at, is_at, line_chars, lit_at, parse_count,
    parse_signed, range_is, rest_of_line, signed_of, skip_past, slice_text, str_eq, to_chars,
};
use vstd::prelude::*;

verus! {

/// One line of server output, taken apart.
#[derive(Debug, Default, Eq, PartialEq)]
pub struct ScannedLine {
    pub time_str: String,
    pub sender_thread: String,
    pub level: String,
    pub sender_handle: String,
    pub is_chat_msg: bool,
    pub message: String,
}

/// The mathematical content of a `ScannedLine`.
pub ghost struct LineParts {
    pub time_str: Seq<char>,
    pub sender_thread: Seq<char>,
    pub level: Seq<char>,
    pub sender_handle: Seq<char>,
    pub is_chat_msg: bool,
    pub message: Seq<char>,
}

impl View for ScannedLine {
    type V = LineParts;

    open spec fn view(&self) -> LineParts {
        LineParts {
            time_str: self.time_str@,
            sender_thread: self.sender_thread@,
            level: self.level@,
            sender_handle: self.sender_handle@,
            is_chat_msg: self.is_chat_msg,
            message: self.message@,
        }
    }
}

/// Why a text was not recognised.
#[derive(Clone, Copy, Debug, PartialEq, Eq, Structural)]
pub enum ScanError {
    /// The line came from another sender than the matcher is keyed on.
    WrongSender,
    /// The sender fits, the fixed message does not.
    WrongMessage,
    /// The text departs from the fixed parts of the template.
    Mismatch,
    /// A field that should hold a number holds something else.
    Parse,
    /// The numbers read do not fit into a duration.
    OutOfRange,
}

/// What is said of a text that was not recognised.
pub open spec fn error_text(error: ScanError) -> Seq<char> {
    match error {
        ScanError::WrongSender => "Not the right username"@,
        ScanError::WrongMessage => "Not the right message"@,
        ScanError::Mismatch => "The text does not match the pattern"@,
        ScanError::Parse => "A number could not be read"@,
        ScanError::OutOfRange => "The duration is out of range"@,
    }
}

impl ScanError {
    /// The error in words.
    pub fn message(&self) -> (r: String)
        ensures
            r@ == error_text(*self),
    {
        let text: &str = match self {
            ScanError::WrongSender => "Not the right username",
            ScanError::WrongMessage => "Not the right message",
            ScanError::Mismatch => "The text does not match the pattern",
            ScanError::Parse => "A number could not be read",
            ScanError::OutOfRange => "The duration is out of range",
        };
        text.to_owned()
    }
}

// ---------------------------------------------------------------------------
// The line header: `[time] [thread/level] [tag]: `
// ---------------------------------------------------------------------------

/// End of the time field of a line `s`.
pub open spec fn time_end(s: Seq<char>) -> int {
    find(s, 1, ']')
}

/// Start of the thread field.
pub open spec fn thread_start(s: Seq<char>) -> int {
    after(s, 1, ']') + 2
}

/// End of the thread field.
pub open spec fn thread_end(s: Seq<char>) -> int {
    find(s, thread_start(s), '/')
}

/// Start of the level field.
pub open spec fn level_start(s: Seq<char>) -> int {
    after(s, thread_start(s), '/')
}

/// End of the level field.
pub open spec fn level_end(s: Seq<char>) -> int {
    find(s, level_start(s), ']')
}

/// Start of the tag field.
pub open spec fn tag_start(s: Seq<char>) -> int {
    after(s, level_start(s), ']') + 2
}

/// End of the tag field.
pub open spec fn tag_end(s: Seq<char>) -> int {
    find(s, tag_start(s), ']')
}

/// Start of what follows the header.
pub open spec fn body_start(s: Seq<char>) -> int {
    after(s, tag_start(s), ']') + 2
}

/// The line `s` opens with a header `[time] [thread/level] [tag]: `. Each
/// bracketed field runs up to its first closing delimiter.
pub open spec fn header_ok(s: Seq<char>) -> bool {
    &&& is_at(s, 0, '[')
    &&& is_at(s, thread_start(s) - 2, ' ')
    &&& is_at(s, thread_start(s) - 1, '[')
    &&& is_at(s, tag_start(s) - 2, ' ')
    &&& is_at(s, tag_start(s) - 1, '[')
    &&& is_at(s, body_start(s) - 2, ':')
    &&& is_at(s, body_start(s) - 1, ' ')
}

/// Positions of the header's fields.
struct HeaderSpans {
    time_end: usize,
    thread_start: usize,
    thread_end: usize,
    level_start: usize,
    level_end: usize,
    tag_start: usize,
    tag_end: usize,
    body_start: usize,
}

/// Reads the header of the line `v`, which ends in a line feed.
fn scan_header(v: &Vec<char>) -> (r: Option<HeaderSpans>)
    ensures
        r is Some <==> header_ok(v@),
        r matches Some(h) ==> {
            &&& h.time_end == time_end(v@)
            &&& h.thread_start == thread_start(v@)
            &&& h.thread_end == thread_end(v@)
            &&& h.level_start == level_start(v@)
            &&& h.level_end == level_end(v@)
            &&& h.tag_start == tag_start(v@)
            &&& h.tag_end == tag_end(v@)
            &&& h.body_start == body_start(v@)
            &&& 1 <= h.time_end < h.thread_start <= h.thread_end < h.level_start
            &&& h.level_start <= h.level_end < h.tag_start <= h.tag_end < h.body_start
                <= v.len()
        },
{
    if !char_at(v, 0, '[') {
        return None;
    }
    let time_end = find_char(v, 1, ']');
    let past_time = skip_past(v, 1, ']');
    if !(char_at(v, past_time, ' ') && char_at(v, past_time + 1, '[')) {
        return None;
    }
    let thread_start = past_time + 2;
    let thread_end = find_char(v, thread_start, '/');
    let level_start = skip_past(v, thread_start, '/');
    let level_end = find_char(v, level_start, ']');
    let past_level = skip_past(v, level_start, ']');
    if !(char_at(v, past_level, ' ') && char_at(v, past_level + 1, '[')) {
        return None;
    }
    let tag_start = past_level + 2;
    let tag_end = find_char(v, tag_start, ']');
    let past_tag = skip_past(v, tag_start, ']');
    if !(char_at(v, past_tag, ':') && char_at(v, past_tag + 1, ' ')) {
        return None;
    }
    Some(
        HeaderSpans {
            time_end,
            thread_start,
            thread_end,
            level_start,
            level_end,
            tag_start,
            tag_end,
            body_start: past_tag + 2,
        },
    )
}

// ---------------------------------------------------------------------------
// What follows the header
// ---------------------------------------------------------------------------

/// At `b` a name stands between `open` and `close`, followed by a blank.
pub open spec fn bracket_ok(s: Seq<char>, b: int, open: char, close: char) -> bool {
    is_at(s, b, open) && is_at(s, after(s, b + 1, close), ' ')
}

/// At `b` a name stands in square brackets, followed by a colon and a blank.
pub open spec fn tagged_ok(s: Seq<char>, b: int) -> bool {
    &&& is_at(s, b, '[')
    &&& is_at(s, after(s, b + 1, ']'), ':')
    &&& is_at(s, after(s, b + 1, ']') + 1, ' ')
}

/// The name that stands in brackets at `b`, up to the first `close`.
pub open spec fn bracket_name(s: Seq<char>, b: int, close: char) -> Seq<char> {
    s.subrange(b + 1, find(s, b + 1, close))
}

/// Whether a name in square brackets is one of the identities the server
/// itself speaks under.
pub open spec fn is_system_identity(name: Seq<char>) -> bool {
    name == "Server"@ || name == "Rcon"@
}

/// What the line grammar makes of `line`. The shapes are tried in this order
/// and the first that fits decides:
///
/// 1. `<name> text`, a chat message;
/// 2. `[name] text`, a chat message if the name is a system identity;
/// 3. `[name]: text`, a log line under the inner name;
/// 4. anything else, a log line under the header's tag.
///
/// A line without a header is not recognised.
pub open spec fn scanned(line: Seq<char>) -> Option<LineParts> {
    let s = line.push('\n');
    let b = body_start(s);
    if !header_ok(s) {
        None
    } else if bracket_ok(s, b, '<', '>') {
        Some(
            LineParts {
                time_str: s.subrange(1, time_end(s)),
                sender_thread: s.subrange(thread_start(s), thread_end(s)),
                level: s.subrange(level_start(s), level_end(s)),
                sender_handle: bracket_name(s, b, '>'),
                is_chat_msg: true,
                message: rest_of_line(s, after(s, b + 1, '>') + 1),
            },
        )
    } else if bracket_ok(s, b, '[', ']') {
        Some(
            LineParts {
                time_str: s.subrange(1, time_end(s)),
                sender_thread: s.subrange(thread_start(s), thread_end(s)),
                level: s.subrange(level_start(s), level_end(s)),
                sender_handle: bracket_name(s, b, ']'),
                is_chat_msg: is_system_identity(bracket_name(s, b, ']')),
                message: rest_of_line(s, after(s, b + 1, ']') + 1),
            },
        )
    } else if tagged_ok(s, b) {
        Some(
            LineParts {
                time_str: s.subrange(1, time_end(s)),
                sender_thread: s.subrange(thread_start(s), thread_end(s)),
                level: s.subrange(level_start(s), level_end(s)),
                sender_handle: bracket_name(s, b, ']'),
                is_chat_msg: false,
                message: rest_of_line(s, after(s, b + 1, ']') + 2),
            },
        )
    } else {
        Some(
            LineParts {
                time_str: s.subrange(1, time_end(s)),
                sender_thread: s.subrange(thread_start(s), thread_end(s)),
                level: s.subrange(level_start(s), level_end(s)),
                sender_handle: s.subrange(tag_start(s), tag_end(s)),
                is_chat_msg: false,
                message: rest_of_line(s, b),
            },
        )
    }
}

/// A piece of a line that ends in a line feed is a piece of the line itself,
/// as long as it stops before that line feed.
proof fn lemma_piece(line: Seq<char>, from: int, to: int)
    requires
        0 <= from <= to <= line.len(),
    ensures
        line.push('\n').subrange(from, to) == line.subrange(from, to),
{
    assert(line.push('\n').subrange(from, to) =~= line.subrange(from, to));
}

/// The piece `from..to` of a line that is held with a line feed at its end,
/// read from `line` itself.
fn piece(line: &str, from: usize, to: usize) -> (r: String)
    requires
        from <= to <= line@.len(),
    ensures
        r@ == line@.push('\n').subrange(from as int, to as int),
{
    proof {
        lemma_piece(line@, from as int, to as int);
    }
    slice_text(line, from, to)
}

/// The rest of the line from `from`, read from `line` itself.
fn rest(line: &str, v: &Vec<char>, from: usize) -> (r: String)
    requires
        v@ == line@.push('\n'),
        from <= v.len(),
    ensures
        r@ == rest_of_line(v@, from as int),
{
    let e = find_char(v, from, '\n');
    if e == v.len() {
        // The line feed at the end is found at the latest.
        assert(v@[v.len() - 1] == '\n');
        assert(from == v.len());
        assert(v@.subrange(from as int, e as int) =~= Seq::<char>::empty());
        return String::new();
    }
    piece(line, from, e)
}

/// Takes one line of server output apart.
///
/// The result is `Ok` exactly for the lines that open with a header; which
/// of the four shapes decides is stated by `scanned`.
pub fn scan_line(line: &str) -> (r: Result<ScannedLine, ScanError>)
    ensures
        match scanned(line@) {
            Some(parts) => r is Ok && r->Ok_0@ == parts,
            None => r is Err && r->Err_0 == ScanError::Mismatch,
        },
{
    let v = line_chars(line);
    let h = match scan_header(&v) {
        Some(h) => h,
        None => {
            return Err(ScanError::Mismatch);
        },
    };
    let b = h.body_start;
    let time_str = piece(line, 1, h.time_end);
    let sender_thread = piece(line, h.thread_start, h.thread_end);
    let level = piece(line, h.level_start, h.level_end);
    if char_at(&v, b, '<') {
        let name_end = find_char(&v, b + 1, '>');
        let q = skip_past(&v, b + 1, '>');
        if char_at(&v, q, ' ') {
            let sender_handle = piece(line, b + 1, name_end);
            let message = rest(line, &v, q + 1);
            return Ok(
                ScannedLine {
                    time_str,
                    sender_thread,
                    level,
                    sender_handle,
                    is_chat_msg: true,
                    message,
                },
            );
        }
    }
    if char_at(&v, b, '[') {
        let name_end = find_char(&v, b + 1, ']');
        let q = skip_past(&v, b + 1, ']');
        if char_at(&v, q, ' ') {
            let is_chat_msg = range_is(&v, b + 1, name_end, "Server") || range_is(
                &v,
                b + 1,
                name_end,
                "Rcon",
            );
            let sender_handle = piece(line, b + 1, name_end);
            let message = rest(line, &v, q + 1);
            return Ok(
                ScannedLine { time_str, sender_thread, level, sender_handle, is_chat_msg, message },
            );
        }
        if char_at(&v, q, ':') && char_at(&v, q + 1, ' ') {
            let sender_handle = piece(line, b + 1, name_end);
            let message = rest(line, &v, q + 2);
            return Ok(
                ScannedLine {
                    time_str,
                    sender_thread,
                    level,
                    sender_handle,
                    is_chat_msg: false,
                    message,
                },
            );
        }
    }
    let sender_handle = piece(line, h.tag_start, h.tag_end);
    let message = rest(line, &v, b);
    Ok(ScannedLine { time_str, sender_thread, level, sender_handle, is_chat_msg: false, message })
}

// ---------------------------------------------------------------------------
// Matchers for single messages, each keyed on a sender and a template
// ---------------------------------------------------------------------------

/// What a matcher keyed on one sender and one fixed message says of a line.
pub open spec fn keyed(
    sender: Seq<char>,
    message: Seq<char>,
    want_sender: Seq<char>,
    want_message: Seq<char>,
) -> Result<(), ScanError> {
    if sender != want_sender {
        Err(ScanError::WrongSender)
    } else if message != want_message {
        Err(ScanError::WrongMessage)
    } else {
        Ok(())
    }
}

/// Checks a line against one sender and one fixed message.
fn scan_keyed(sender: &str, message: &str, want_sender: &str, want_message: &str) -> (r: Result<
    (),
    ScanError,
>)
    ensures
        r == keyed(sender@, message@, want_sender@, want_message@),
{
    if !str_eq(sender, want_sender) {
        Err(ScanError::WrongSender)
    } else if !str_eq(message, want_message) {
        Err(ScanError::WrongMessage)
    } else {
        Ok(())
    }
}

/// The announcement that the server has come up.
pub open spec fn server_start_of(sender: Seq<char>, message: Seq<char>) -> Result<(), ScanError> {
    keyed(sender, message, "mcjtylib_ng"@, "RFTools: server is starting"@)
}

/// The announcement that the server is going down. The server says so twice,
/// under two tags and in two wordings; either is accepted.
pub open spec fn server_stop_of(sender: Seq<char>, message: Seq<char>) -> Result<(), ScanError> {
    if sender == "minecraft/DedicatedServer"@ {
        keyed(sender, message, "minecraft/DedicatedServer"@, "Stopping the server"@)
    } else {
        keyed(sender, message, "net.minecraft.server.MinecraftServer"@, "Stopping server"@)
    }
}

/// The announcement that a backup has begun.
pub open spec fn backup_start_of(sender: Seq<char>, message: Seq<char>) -> Result<(), ScanError> {
    keyed(sender, message, "minecraft/DedicatedServer"@, "Server Backup started!"@)
}

/// Recognises the line that announces the server as started.
pub fn scan_server_start(sender: &str, message: &str) -> (r: Result<FromServerLog, ScanError>)
    ensures
        match server_start_of(sender@, message@) {
            Ok(_) => r is Ok && r->Ok_0@ == LogEvent::ServerStarted,
            Err(e) => r is Err && r->Err_0 == e,
        },
{
    match scan_keyed(sender, message, "mcjtylib_ng", "RFTools: server is starting") {
        Ok(_) => Ok(FromServerLog::ServerStarted),
        Err(e) => Err(e),
    }
}

/// Recognises the lines that announce the server as stopping.
pub fn scan_server_stop(sender: &str, message: &str) -> (r: Result<FromServerLog, ScanError>)
    ensures
        match server_stop_of(sender@, message@) {
            Ok(_) => r is Ok && r->Ok_0@ == LogEvent::ServerStopping,
            Err(e) => r is Err && r->Err_0 == e,
        },
{
    let found = if str_eq(sender, "minecraft/DedicatedServer") {
        scan_keyed(sender, message, "minecraft/DedicatedServer", "Stopping the server")
    } else {
        scan_keyed(sender, message, "net.minecraft.server.MinecraftServer", "Stopping server")
    };
    match found {
        Ok(_) => Ok(FromServerLog::ServerStopping),
        Err(e) => Err(e),
    }
}

/// Recognises the line that announces a backup as started.
pub fn scan_backup_start(sender: &str, message: &str) -> (r: Result<FromServerLog, ScanError>)
    ensures
        match backup_start_of(sender@, message@) {
            Ok(_) => r is Ok && r->Ok_0@ == LogEvent::BackupStarted,
            Err(e) => r is Err && r->Err_0 == e,
        },
{
    match scan_keyed(sender, message, "minecraft/DedicatedServer", "Server Backup started!") {
        Ok(_) => Ok(FromServerLog::BackupStarted),
        Err(e) => Err(e),
    }
}

/// The name in front of `tail` in a message `name tail`: the name runs up to
/// the first blank, and `tail`, which ends the line, follows it directly.
pub open spec fn named(message: Seq<char>, tail: Seq<char>) -> Option<Seq<char>> {
    let m = message.push('\n');
    if find(m, 0, ' ') < m.len() && lit_at(m, after(m, 0, ' '), tail) {
        Some(m.subrange(0, find(m, 0, ' ')))
    } else {
        None
    }
}

/// Reads the name in front of `tail`.
fn scan_named(message: &str, tail: &str) -> (r: Option<String>)
    ensures
        match named(message@, tail@) {
            Some(name) => r is Some && r->0@ == name,
            None => r is None,
        },
{
    let v = line_chars(message);
    let e = find_char(&v, 0, ' ');
    if e == v.len() {
        return None;
    }
    let t = to_chars(tail);
    if !has_at(&v, e + 1, &t) {
        return None;
    }
    Some(piece(message, 0, e))
}

/// What the line that reports a player as joined tells: the player's name.
pub open spec fn joined_of(sender: Seq<char>, message: Seq<char>) -> Result<Seq<char>, ScanError> {
    if sender != "minecraft/DedicatedServer"@ {
        Err(ScanError::WrongSender)
    } else {
        match named(message, "joined the game\n"@) {
            Some(name) => Ok(name),
            None => Err(ScanError::Mismatch),
        }
    }
}

/// What the line that reports a player as gone tells: the player's name.
pub open spec fn left_of(sender: Seq<char>, message: Seq<char>) -> Result<Seq<char>, ScanError> {
    if sender != "minecraft/DedicatedServer"@ {
        Err(ScanError::WrongSender)
    } else {
        match named(message, "left the game\n"@) {
            Some(name) => Ok(name),
            None => Err(ScanError::Mismatch),
        }
    }
}

/// Recognises `name joined the game` and hands out the event and the name.
pub fn scan_user_login(sender: &str, message: &str) -> (r: Result<
    (FromServerLog, String),
    ScanError,
>)
    ensures
        match joined_of(sender@, message@) {
            Ok(name) => r is Ok && r->Ok_0.0@ == (LogEvent::UserLogin { name }) && r->Ok_0.1@
                == name,
            Err(e) => r is Err && r->Err_0 == e,
        },
{
    if !str_eq(sender, "minecraft/DedicatedServer") {
        return Err(ScanError::WrongSender);
    }
    match scan_named(message, "joined the game\n") {
        Some(name) => Ok((FromServerLog::UserLogin { name: name.clone() }, name)),
        None => Err(ScanError::Mismatch),
    }
}

/// Recognises `name left the game` and hands out the event and the name.
pub fn scan_user_logout(sender: &str, message: &str) -> (r: Result<
    (FromServerLog, String),
    ScanError,
>)
    ensures
        match left_of(sender@, message@) {
            Ok(name) => r is Ok && r->Ok_0.0@ == (LogEvent::UserLogout { name }) && r->Ok_0.1@
                == name,
            Err(e) => r is Err && r->Err_0 == e,
        },
{
    if !str_eq(sender, "minecraft/DedicatedServer") {
        return Err(ScanError::WrongSender);
    }
    match scan_named(message, "left the game\n") {
        Some(name) => Ok((FromServerLog::UserLogout { name: name.clone() }, name)),
        None => Err(ScanError::Mismatch),
    }
}

/// A number field of a message: it starts at `from` and runs up to the first
/// `stop`.
pub open spec fn field(m: Seq<char>, from: int, stop: char) -> Seq<char> {
    m.subrange(from, find(m, from, stop))
}

/// The template of the overload warning, up to the first number.
pub open spec fn lag_head() -> Seq<char> {
    "Can't keep up! Did the system time change, or is the server overloaded? Running "@
}

/// The template of the overload warning between its two numbers, without the
/// `m` that ends the first.
pub open spec fn lag_middle() -> Seq<char> {
    "s behind, skipping "@
}

/// The template of the overload warning behind the second number and its
/// blank.
pub open spec fn lag_tail() -> Seq<char> {
    "tick(s)\n"@
}

/// What the overload warning tells: by how many milliseconds the server is
/// behind and how many ticks it skips.
///
/// The parts are read in order and the first that fails decides the error:
/// the fixed text, the milliseconds (a signed number that ends at the first
/// `m`), the fixed text, the ticks (a count that ends at the first blank),
/// the fixed text. A number of milliseconds that no duration holds is out of
/// range.
pub open spec fn lag_spike_of(sender: Seq<char>, message: Seq<char>) -> Result<
    (int, usize),
    ScanError,
> {
    let m = message.push('\n');
    let p = lag_head().len() as int;
    let q = after(m, p, 'm');
    let t = q + lag_middle().len();
    if sender != "minecraft/MinecraftServer"@ {
        Err(ScanError::WrongSender)
    } else if !lit_at(m, 0, lag_head()) {
        Err(ScanError::Mismatch)
    } else if signed_of(field(m, p, 'm')) is None {
        Err(ScanError::Parse)
    } else if !lit_at(m, q, lag_middle()) {
        Err(ScanError::Mismatch)
    } else if count_of(field(m, t, ' ')) is None {
        Err(ScanError::Parse)
    } else if !lit_at(m, after(m, t, ' '), lag_tail()) {
        Err(ScanError::Mismatch)
    } else if !in_range(signed_of(field(m, p, 'm'))->0 as int) {
        Err(ScanError::OutOfRange)
    } else {
        Ok((signed_of(field(m, p, 'm'))->0 as int, count_of(field(m, t, ' '))->0))
    }
}

/// Recognises the overload warning and hands out the event and the lag.
pub fn scan_lag_spike(sender: &str, message: &str) -> (r: Result<
    (FromServerLog, Duration),
    ScanError,
>)
    ensures
        match lag_spike_of(sender@, message@) {
            Ok((length, ticks)) => r is Ok && r->Ok_0.0@ == (LogEvent::LagSpike { length, ticks })
                && r->Ok_0.1@ == length,
            Err(e) => r is Err && r->Err_0 == e,
        },
{
    if !str_eq(sender, "minecraft/MinecraftServer") {
        return Err(ScanError::WrongSender);
    }
    let v = line_chars(message);
    let head = to_chars(
        "Can't keep up! Did the system time change, or is the server overloaded? Running ",
    );
    if !has_at(&v, 0, &head) {
        return Err(ScanError::Mismatch);
    }
    let p = head.len();
    let num_end = find_char(&v, p, 'm');
    let num = match parse_signed(&v, p, num_end) {
        Some(n) => n,
        None => {
            return Err(ScanError::Parse);
        },
    };
    let q = skip_past(&v, p, 'm');
    let middle = to_chars("s behind, skipping ");
    if !has_at(&v, q, &middle) {
        return Err(ScanError::Mismatch);
    }
    let t = q + middle.len();
    let ticks_end = find_char(&v, t, ' ');
    let ticks = match parse_count(&v, t, ticks_end) {
        Some(n) => n,
        None => {
            return Err(ScanError::Parse);
        },
    };
    let u = skip_past(&v, t, ' ');
    let tail = to_chars("tick(s)\n");
    if !has_at(&v, u, &tail) {
        return Err(ScanError::Mismatch);
    }
    match Duration::try_milliseconds(num) {
        Some(length) => Ok((FromServerLog::LagSpike { length, ticks }, length)),
        None => Err(ScanError::OutOfRange),
    }
}

/// The template of the backup report, up to the minutes.
pub open spec fn backup_head() -> Seq<char> {
    "Server backup done in "@
}

/// The span of `mins` minutes and `secs` seconds in milliseconds, where each
/// of the two and their sum can be held by a duration.
pub open spec fn span_of(mins: int, secs: int) -> Option<int> {
    if -MAX_SECONDS <= mins * 60 <= MAX_SECONDS && -MAX_SECONDS <= secs <= MAX_SECONDS && in_range(
        mins * 60_000 + secs * 1000,
    ) {
        Some(mins * 60_000 + secs * 1000)
    } else {
        None
    }
}

/// What the backup report `Server backup done in MM:SS! (size)` tells: how
/// long the backup took, in milliseconds.
///
/// The parts are read in order and the first that fails decides the error:
/// the fixed text, the minutes (a signed number that ends at the first `:`),
/// the seconds (one that ends at the first `!`), a blank and an opening
/// bracket, the size up to the first closing bracket, the end of the line.
pub open spec fn backup_done_of(sender: Seq<char>, message: Seq<char>) -> Result<int, ScanError> {
    let m = message.push('\n');
    let p = backup_head().len() as int;
    let q = after(m, p, ':');
    let t = after(m, q, '!');
    let mins = signed_of(field(m, p, ':'));
    let secs = signed_of(field(m, q, '!'));
    if sender != "minecraft/DedicatedServer"@ {
        Err(ScanError::WrongSender)
    } else if !lit_at(m, 0, backup_head()) {
        Err(ScanError::Mismatch)
    } else if mins is None || secs is None {
        Err(ScanError::Parse)
    } else if !(is_at(m, t, ' ') && is_at(m, t + 1, '(') && is_at(m, after(m, t + 2, ')'), '\n')) {
        Err(ScanError::Mismatch)
    } else {
        match span_of(mins->0 as int, secs->0 as int) {
            Some(ms) => Ok(ms),
            None => Err(ScanError::OutOfRange),
        }
    }
}

/// The span of `mins` minutes and `secs` seconds.
pub fn span(mins: i64, secs: i64) -> (r: Option<Duration>)
    ensures
        match span_of(mins as int, secs as int) {
            Some(ms) => r is Some && r->0@ == ms,
            None => r is None,
        },
{
    let m = match Duration::try_minutes(mins) {
        Some(m) => m,
        None => {
            return None;
        },
    };
    let s = match Duration::try_seconds(secs) {
        Some(s) => s,
        None => {
            return None;
        },
    };
    m.checked_add(s)
}

/// Recognises the backup report and hands out the event and the time taken.
pub fn scan_backup_stop(sender: &str, message: &str) -> (r: Result<
    (FromServerLog, Duration),
    ScanError,
>)
    ensures
        match backup_done_of(sender@, message@) {
            Ok(ms) => r is Ok && r->Ok_0.0@ == (LogEvent::BackupFinished { time: ms }) && r->Ok_0.1@
                == ms,
            Err(e) => r is Err && r->Err_0 == e,
        },
{
    if !str_eq(sender, "minecraft/DedicatedServer") {
        return Err(ScanError::WrongSender);
    }
    let v = line_chars(message);
    let head = to_chars("Server backup done in ");
    if !has_at(&v, 0, &head) {
        return Err(ScanError::Mismatch);
    }
    let p = head.len();
    let mins_end = find_char(&v, p, ':');
    let mins = parse_signed(&v, p, mins_end);
    let q = skip_past(&v, p, ':');
    let secs_end = find_char(&v, q, '!');
    let secs = parse_signed(&v, q, secs_end);
    let t = skip_past(&v, q, '!');
    let (mins, secs) = match (mins, secs) {
        (Some(a), Some(b)) => (a, b),
        _ => {
            return Err(ScanError::Parse);
        },
    };
    if !(char_at(&v, t, ' ') && char_at(&v, t + 1, '(')) {
        return Err(ScanError::Mismatch);
    }
    let u = skip_past(&v, t + 2, ')');
    if !char_at(&v, u, '\n') {
        return Err(ScanError::Mismatch);
    }
    match span(mins, secs) {
        Some(time) => Ok((FromServerLog::BackupFinished { time }, time)),
        None => Err(ScanError::OutOfRange),
    }
}

} // verus!
