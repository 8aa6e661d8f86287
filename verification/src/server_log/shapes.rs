//! The shapes of a log line written out from their parts, and the proofs
//! that the grammar reads each of them back into the same parts.

use crate::server_log::scanners::{
    backup_done_of, backup_head, field, joined_of, lag_head, lag_middle, lag_spike_of, lag_tail,
    left_of, named, span_of, body_start, bracket_name, bracket_ok, header_ok, is_system_identity, level_end, level_start,
    scanned, tag_end, tag_start, tagged_ok, thread_end, thread_start, time_end, LineParts,
};
use crate::duration::in_range;
use crate::server_log::{event_of, LogEvent};
use crate::text::{
    after, decimal_text, find, is_at, lemma_count_reads_back, lemma_decimal_has_no_stop,
    lemma_signed_reads_back, lit_at, rest_of_line,
};
use vstd::prelude::*;

verus! {

/// The character `c` occurs nowhere in `x`.
pub open spec fn free_of(x: Seq<char>, c: char) -> bool {
    forall|i: int| 0 <= i < x.len() ==> x[i] != c
}

/// The header of a line: `[time] [thread/level] [tag]: `.
pub open spec fn header_text(
    time: Seq<char>,
    thread: Seq<char>,
    level: Seq<char>,
    tag: Seq<char>,
) -> Seq<char> {
    seq!['['] + time + seq![']', ' ', '['] + thread + seq!['/'] + level + seq![']', ' ', '[']
        + tag + seq![']', ':', ' ']
}

/// A name between `open` and `close`, then `gap`, then a text.
pub open spec fn bracketed_text(
    open: char,
    name: Seq<char>,
    close: char,
    gap: Seq<char>,
    text: Seq<char>,
) -> Seq<char> {
    seq![open] + name + seq![close] + gap + text
}

/// Where `c` first stands at `at` from `from` on, that is where `find`
/// stops.
pub proof fn lemma_find_at(s: Seq<char>, from: int, c: char, at: int)
    requires
        0 <= from <= at < s.len(),
        s[at] == c,
        forall|j: int| from <= j < at ==> s[j] != c,
    ensures
        find(s, from, c) == at,
        after(s, from, c) == at + 1,
    decreases at - from,
{
    if from < at {
        lemma_find_at(s, from + 1, c, at);
    }
}

/// A line that starts with a header made of parts that hold none of their
/// own delimiters is read as having that header: each field comes back as
/// it went in, and what follows the header starts right behind it.
#[verifier::rlimit(40)]
pub proof fn lemma_header_reads_back(
    time: Seq<char>,
    thread: Seq<char>,
    level: Seq<char>,
    tag: Seq<char>,
    body: Seq<char>,
)
    requires
        free_of(time, ']'),
        free_of(thread, '/'),
        free_of(level, ']'),
        free_of(tag, ']'),
    ensures
        ({
            let s = (header_text(time, thread, level, tag) + body).push('\n');
            &&& header_ok(s)
            &&& s.subrange(1, time_end(s)) == time
            &&& s.subrange(thread_start(s), thread_end(s)) == thread
            &&& s.subrange(level_start(s), level_end(s)) == level
            &&& s.subrange(tag_start(s), tag_end(s)) == tag
            &&& body_start(s) == header_text(time, thread, level, tag).len()
            &&& s.subrange(body_start(s), s.len() - 1) == body
        }),
{
    let h = header_text(time, thread, level, tag);
    let s = (h + body).push('\n');
    let a = time.len() as int;
    let b = thread.len() as int;
    let c = level.len() as int;
    let d = tag.len() as int;
    assert(h.len() == 11 + a + b + c + d);
    assert(s[0] == '[');
    assert forall|j: int| 1 <= j < 1 + a implies s[j] == time[j - 1] by {}
    assert(s[1 + a] == ']');
    assert(s[2 + a] == ' ');
    assert(s[3 + a] == '[');
    assert forall|j: int| 4 + a <= j < 4 + a + b implies s[j] == thread[j - 4 - a] by {}
    assert(s[4 + a + b] == '/');
    assert forall|j: int| 5 + a + b <= j < 5 + a + b + c implies s[j] == level[j - 5 - a - b] by {}
    assert(s[5 + a + b + c] == ']');
    assert(s[6 + a + b + c] == ' ');
    assert(s[7 + a + b + c] == '[');
    assert forall|j: int| 8 + a + b + c <= j < 8 + a + b + c + d implies s[j] == tag[j - 8 - a
        - b - c] by {}
    assert(s[8 + a + b + c + d] == ']');
    assert(s[9 + a + b + c + d] == ':');
    assert(s[10 + a + b + c + d] == ' ');
    lemma_find_at(s, 1, ']', 1 + a);
    lemma_find_at(s, 4 + a, '/', 4 + a + b);
    lemma_find_at(s, 5 + a + b, ']', 5 + a + b + c);
    lemma_find_at(s, 8 + a + b + c, ']', 8 + a + b + c + d);
    assert(s.subrange(1, 1 + a) =~= time);
    assert(s.subrange(4 + a, 4 + a + b) =~= thread);
    assert(s.subrange(5 + a + b, 5 + a + b + c) =~= level);
    assert(s.subrange(8 + a + b + c, 8 + a + b + c + d) =~= tag);
    assert(s.subrange(11 + a + b + c + d, s.len() - 1) =~= body);
}

/// In a line `s` whose text from `b` on is a name in brackets, a gap and a
/// text, the name is found between the brackets, the gap behind it, and the
/// text from there to the end of the line.
proof fn lemma_bracket_reads(
    s: Seq<char>,
    b: int,
    open: char,
    name: Seq<char>,
    close: char,
    gap: Seq<char>,
    text: Seq<char>,
)
    requires
        0 <= b < s.len(),
        s.subrange(b, s.len() - 1) == bracketed_text(open, name, close, gap, text),
        s.last() == '\n',
        free_of(name, close),
        free_of(text, '\n'),
    ensures
        is_at(s, b, open),
        after(s, b + 1, close) == b + 2 + name.len(),
        bracket_name(s, b, close) == name,
        forall|j: int| 0 <= j < gap.len() ==> is_at(s, b + 2 + name.len() + j, gap[j]),
        rest_of_line(s, b + 2 + name.len() + gap.len()) == text,
{
    let body = bracketed_text(open, name, close, gap, text);
    let n = name.len() as int;
    let g = gap.len() as int;
    let t = text.len() as int;
    assert(body.len() == n + g + t + 2);
    assert(s.len() == b + body.len() + 1);
    assert forall|j: int| 0 <= j < body.len() implies s[b + j] == body[j] by {
        assert(s.subrange(b, s.len() - 1)[j] == s[b + j]);
    }
    assert(body[0] == open);
    assert forall|j: int| b + 1 <= j < b + 1 + n implies s[j] == name[j - b - 1] by {
        assert(s[b + (j - b)] == body[j - b]);
    }
    assert(body[1 + n] == close);
    assert(s[b + (1 + n)] == close);
    assert forall|j: int| 0 <= j < g implies is_at(s, b + 2 + n + j, gap[j]) by {
        assert(s[b + (2 + n + j)] == body[2 + n + j]);
    }
    assert forall|j: int| b + 2 + n + g <= j < b + 2 + n + g + t implies s[j] == text[j - b - 2
        - n - g] by {
        assert(s[b + (j - b)] == body[j - b]);
    }
    lemma_find_at(s, b + 1, close, b + 1 + n);
    lemma_find_at(s, b + 2 + n + g, '\n', s.len() - 1);
    assert(bracket_name(s, b, close) =~= name);
    assert(rest_of_line(s, b + 2 + n + g) =~= text);
}

/// A chat line reads back: the header's fields, the name between the angle
/// brackets as the sender, the text as the message, marked as chat.
pub proof fn lemma_chat_line_reads_back(
    time: Seq<char>,
    thread: Seq<char>,
    level: Seq<char>,
    tag: Seq<char>,
    name: Seq<char>,
    text: Seq<char>,
)
    requires
        free_of(time, ']'),
        free_of(thread, '/'),
        free_of(level, ']'),
        free_of(tag, ']'),
        free_of(name, '>'),
        free_of(text, '\n'),
    ensures
        scanned(
            header_text(time, thread, level, tag) + bracketed_text('<', name, '>', seq![' '], text),
        ) == Some(
            LineParts {
                time_str: time,
                sender_thread: thread,
                level,
                sender_handle: name,
                is_chat_msg: true,
                message: text,
            },
        ),
{
    let gap = seq![' '];
    let body = bracketed_text('<', name, '>', gap, text);
    lemma_header_reads_back(time, thread, level, tag, body);
    let s = (header_text(time, thread, level, tag) + body).push('\n');
    let b = body_start(s);
    lemma_bracket_reads(s, b, '<', name, '>', gap, text);
    assert(is_at(s, b + 2 + name.len() + 0, gap[0]));
    assert(bracket_ok(s, b, '<', '>'));
}

/// A chat line gives a chat event with the name between the angle brackets
/// as the sender and the text behind them as the message, whatever the
/// header says.
pub proof fn lemma_chat_line_is_chat(
    time: Seq<char>,
    thread: Seq<char>,
    level: Seq<char>,
    tag: Seq<char>,
    name: Seq<char>,
    text: Seq<char>,
)
    requires
        free_of(time, ']'),
        free_of(thread, '/'),
        free_of(level, ']'),
        free_of(tag, ']'),
        free_of(name, '>'),
        free_of(text, '\n'),
    ensures
        event_of(
            header_text(time, thread, level, tag) + bracketed_text('<', name, '>', seq![' '], text),
        ) == Some(LogEvent::ChatMessage { name, message: text }),
{
    lemma_chat_line_reads_back(time, thread, level, tag, name, text);
}

/// A line whose text opens with a name in square brackets and a blank reads
/// back with that name as the sender; it is chat exactly if the name is a
/// system identity.
pub proof fn lemma_console_line_reads_back(
    time: Seq<char>,
    thread: Seq<char>,
    level: Seq<char>,
    tag: Seq<char>,
    name: Seq<char>,
    text: Seq<char>,
)
    requires
        free_of(time, ']'),
        free_of(thread, '/'),
        free_of(level, ']'),
        free_of(tag, ']'),
        free_of(name, ']'),
        free_of(text, '\n'),
    ensures
        scanned(
            header_text(time, thread, level, tag) + bracketed_text('[', name, ']', seq![' '], text),
        ) == Some(
            LineParts {
                time_str: time,
                sender_thread: thread,
                level,
                sender_handle: name,
                is_chat_msg: is_system_identity(name),
                message: text,
            },
        ),
{
    let gap = seq![' '];
    let body = bracketed_text('[', name, ']', gap, text);
    lemma_header_reads_back(time, thread, level, tag, body);
    let s = (header_text(time, thread, level, tag) + body).push('\n');
    let b = body_start(s);
    lemma_bracket_reads(s, b, '[', name, ']', gap, text);
    assert(is_at(s, b + 2 + name.len() + 0, gap[0]));
    assert(!bracket_ok(s, b, '<', '>'));
    assert(bracket_ok(s, b, '[', ']'));
}

/// A line whose text opens with a name in square brackets, a colon and a
/// blank reads back with that name as the sender, and is never chat.
pub proof fn lemma_tagged_line_reads_back(
    time: Seq<char>,
    thread: Seq<char>,
    level: Seq<char>,
    tag: Seq<char>,
    name: Seq<char>,
    text: Seq<char>,
)
    requires
        free_of(time, ']'),
        free_of(thread, '/'),
        free_of(level, ']'),
        free_of(tag, ']'),
        free_of(name, ']'),
        free_of(text, '\n'),
    ensures
        scanned(
            header_text(time, thread, level, tag) + bracketed_text(
                '[',
                name,
                ']',
                seq![':', ' '],
                text,
            ),
        ) == Some(
            LineParts {
                time_str: time,
                sender_thread: thread,
                level,
                sender_handle: name,
                is_chat_msg: false,
                message: text,
            },
        ),
{
    let gap = seq![':', ' '];
    let body = bracketed_text('[', name, ']', gap, text);
    lemma_header_reads_back(time, thread, level, tag, body);
    let s = (header_text(time, thread, level, tag) + body).push('\n');
    let b = body_start(s);
    lemma_bracket_reads(s, b, '[', name, ']', gap, text);
    assert(is_at(s, b + 2 + name.len() + 0, gap[0]));
    assert(is_at(s, b + 2 + name.len() + 1, gap[1]));
    assert(!bracket_ok(s, b, '<', '>'));
    assert(!bracket_ok(s, b, '[', ']'));
    assert(tagged_ok(s, b));
}

/// A line whose text opens with neither kind of bracket reads back under
/// the header's tag, with the whole text as the message, and is never chat.
pub proof fn lemma_plain_line_reads_back(
    time: Seq<char>,
    thread: Seq<char>,
    level: Seq<char>,
    tag: Seq<char>,
    text: Seq<char>,
)
    requires
        free_of(time, ']'),
        free_of(thread, '/'),
        free_of(level, ']'),
        free_of(tag, ']'),
        free_of(text, '\n'),
        text.len() > 0 ==> text[0] != '<' && text[0] != '[',
    ensures
        scanned(header_text(time, thread, level, tag) + text) == Some(
            LineParts {
                time_str: time,
                sender_thread: thread,
                level,
                sender_handle: tag,
                is_chat_msg: false,
                message: text,
            },
        ),
{
    lemma_header_reads_back(time, thread, level, tag, text);
    let s = (header_text(time, thread, level, tag) + text).push('\n');
    let b = body_start(s);
    let t = text.len() as int;
    assert(s.len() == b + t + 1);
    assert forall|j: int| b <= j < b + t implies s[j] == text[j - b] by {
        assert(s.subrange(b, s.len() - 1)[j - b] == s[j]);
    }
    assert(s[b + t] == '\n');
    lemma_find_at(s, b, '\n', b + t);
    assert(!is_at(s, b, '<'));
    assert(!is_at(s, b, '['));
    assert(rest_of_line(s, b) =~= text);
}

/// A text that does not open with a square bracket is no header, so no
/// line: the grammar recognises nothing in it.
pub proof fn lemma_no_bracket_no_line(line: Seq<char>)
    requires
        line.len() == 0 || line[0] != '[',
    ensures
        scanned(line) is None,
{
    let s = line.push('\n');
    assert(!is_at(s, 0, '['));
}

/// The report of a backup that took `mins` minutes and `secs` seconds.
pub open spec fn backup_report(mins: int, secs: int, size: Seq<char>) -> Seq<char> {
    backup_head() + decimal_text(mins) + seq![':'] + decimal_text(secs) + seq!['!', ' ', '(']
        + size + seq![')']
}

/// A backup report reads back as the time it was written with, whatever
/// it says of the size.
#[verifier::rlimit(40)]
pub proof fn lemma_backup_report_reads_back(mins: i64, secs: i64, size: Seq<char>)
    requires
        free_of(size, ')'),
        span_of(mins as int, secs as int) is Some,
    ensures
        backup_done_of("minecraft/DedicatedServer"@, backup_report(mins as int, secs as int, size))
            == Ok::<int, crate::server_log::scanners::ScanError>(mins * 60_000 + secs * 1000),
{
    let message = backup_report(mins as int, secs as int, size);
    let m = message.push('\n');
    let head = backup_head();
    let a = decimal_text(mins as int);
    let b = decimal_text(secs as int);
    let p = head.len() as int;
    let q = p + a.len() + 1;
    let t = q + b.len() + 1;
    lemma_signed_reads_back(mins);
    lemma_signed_reads_back(secs);
    lemma_decimal_has_no_stop(mins as int, ':');
    lemma_decimal_has_no_stop(secs as int, '!');
    assert(m.len() == t + 2 + size.len() + 2);
    assert(m.subrange(0, p) =~= head);
    assert forall|j: int| p <= j < p + a.len() implies m[j] == a[j - p] by {}
    assert(m[q - 1] == ':');
    assert forall|j: int| q <= j < q + b.len() implies m[j] == b[j - q] by {}
    assert(m[t - 1] == '!');
    assert(m[t] == ' ');
    assert(m[t + 1] == '(');
    assert forall|j: int| t + 2 <= j < t + 2 + size.len() implies m[j] == size[j - t - 2] by {}
    assert(m[t + 2 + size.len()] == ')');
    assert(m[t + 3 + size.len()] == '\n');
    lemma_find_at(m, p, ':', q - 1);
    lemma_find_at(m, q, '!', t - 1);
    lemma_find_at(m, t + 2, ')', t + 2 + size.len());
    assert(field(m, p, ':') =~= a);
    assert(field(m, q, '!') =~= b);
}

/// The warning of a lag of `ms` milliseconds that cost `ticks` ticks.
pub open spec fn lag_warning(ms: int, ticks: int) -> Seq<char> {
    lag_head() + decimal_text(ms) + seq!['m'] + lag_middle() + decimal_text(ticks) + seq![' ']
        + lag_tail().drop_last()
}

/// A lag warning reads back as the numbers it was written with.
#[verifier::rlimit(40)]
pub proof fn lemma_lag_warning_reads_back(ms: i64, ticks: usize)
    requires
        in_range(ms as int),
    ensures
        lag_spike_of("minecraft/MinecraftServer"@, lag_warning(ms as int, ticks as int)) == Ok::<
            (int, usize),
            crate::server_log::scanners::ScanError,
        >((ms as int, ticks)),
{
    reveal_strlit("tick(s)\n");
    let message = lag_warning(ms as int, ticks as int);
    let m = message.push('\n');
    let head = lag_head();
    let middle = lag_middle();
    let tail = lag_tail();
    let a = decimal_text(ms as int);
    let b = decimal_text(ticks as int);
    let p = head.len() as int;
    let q = p + a.len() + 1;
    let t = q + middle.len();
    let u = t + b.len() + 1;
    lemma_signed_reads_back(ms);
    lemma_count_reads_back(ticks);
    lemma_decimal_has_no_stop(ms as int, 'm');
    lemma_decimal_has_no_stop(ticks as int, ' ');
    assert(tail.len() == 8);
    assert(tail.last() == '\n');
    assert(m.len() == u + tail.len());
    assert(m.subrange(0, p) =~= head);
    assert forall|j: int| p <= j < p + a.len() implies m[j] == a[j - p] by {}
    assert(m[q - 1] == 'm');
    assert(m.subrange(q, t) =~= middle);
    assert forall|j: int| t <= j < t + b.len() implies m[j] == b[j - t] by {}
    assert(m[u - 1] == ' ');
    assert(m.subrange(u, u + tail.len()) =~= tail);
    lemma_find_at(m, p, 'm', q - 1);
    lemma_find_at(m, t, ' ', u - 1);
    assert(field(m, p, 'm') =~= a);
    assert(field(m, t, ' ') =~= b);
}

/// The news that the player `name` has joined, and the news that the player
/// has left, read back as that name.
#[verifier::rlimit(40)]
pub proof fn lemma_player_news_reads_back(name: Seq<char>)
    requires
        free_of(name, ' '),
    ensures
        joined_of(
            "minecraft/DedicatedServer"@,
            name + seq![' '] + "joined the game\n"@.drop_last(),
        ) == Ok::<Seq<char>, crate::server_log::scanners::ScanError>(name),
        left_of("minecraft/DedicatedServer"@, name + seq![' '] + "left the game\n"@.drop_last())
            == Ok::<Seq<char>, crate::server_log::scanners::ScanError>(name),
{
    reveal_strlit("joined the game\n");
    reveal_strlit("left the game\n");
    let n = name.len() as int;
    let joined = "joined the game\n"@;
    let m = (name + seq![' '] + joined.drop_last()).push('\n');
    assert(joined.last() == '\n');
    assert forall|j: int| 0 <= j < n implies m[j] == name[j] by {}
    assert(m[n] == ' ');
    lemma_find_at(m, 0, ' ', n);
    assert(m.subrange(n + 1, n + 1 + joined.len()) =~= joined);
    assert(m.subrange(0, n) =~= name);
    assert(named(name + seq![' '] + joined.drop_last(), joined) == Some(name));
    let left = "left the game\n"@;
    let k = (name + seq![' '] + left.drop_last()).push('\n');
    assert(left.last() == '\n');
    assert forall|j: int| 0 <= j < n implies k[j] == name[j] by {}
    assert(k[n] == ' ');
    lemma_find_at(k, 0, ' ', n);
    assert(k.subrange(n + 1, n + 1 + left.len()) =~= left);
    assert(k.subrange(0, n) =~= name);
    assert(named(name + seq![' '] + left.drop_last(), left) == Some(name));
}

} // verus!
