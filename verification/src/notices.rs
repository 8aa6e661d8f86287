//! The texts that go out to the operator and to the server.

use crate::duration::div_towards_zero;
use crate::lifecycle::{Launch, Reply};
use crate::server_log::LogEvent;
use crate::text::{decimal_text, push_decimal};
use vstd::prelude::*;

verus! {

/// The list of commands shown on request.
pub open spec fn help_text() -> Seq<char> {
    "Commands:\n    `mc!start` - Starts the server\n    `mc!stop` - Stops the server\n    `mc!kill` - Stops the server without waiting 5 mins\n    `mc!cancel` - Cancels server stop\n    `mc!shutdown [hh:mm]` - Schedules a shutdown in CEST\n    `mc!backup` - Starts a backup on the server (pls no spam)\n    `mc!op` - Ops a user if an accident happens - all ops are logged\n    `mc!status` - Displays server status\n    `mc!help` - Displays this message"@
}

/// The answer after `user` was made an operator.
pub open spec fn opped_text(user: Seq<char>) -> Seq<char> {
    "Opped user "@ + user
        + ". All ops are logged.\nDon't forget to de-op yourself after you're done!"@
}

/// The text of an answer. `user` is the player that an `Opped` answer speaks
/// of; no other answer looks at it.
pub open spec fn text_of(reply: Reply, user: Seq<char>) -> Seq<char> {
    match reply {
        Reply::AlreadyRunning => "Server already running"@,
        Reply::AlreadyStarting => "Server already starting"@,
        Reply::StartingNow => "Server starting now, ETA 3 minutes"@,
        Reply::NotRunningYet => "Server's not running (yet)"@,
        Reply::AlreadyStopping => "Server's already stopping"@,
        Reply::StopScheduled => "Server will be stopped in 5 minutes, type `mc!cancel` to cancel"@,
        Reply::StoppingNow => "Server is stopping now"@,
        Reply::Unimplemented => "Unimplemented, to be added later"@,
        Reply::CancelFailed => "Error while cancelling shutdown"@,
        Reply::Cancelled => "Shutdown cancelled"@,
        Reply::NotCancellable => "Shutdown cannot be cancelled"@,
        Reply::NotRunning => "Server's not running"@,
        Reply::NoShutdown => "No shutdown in progress"@,
        Reply::Stopping => "Server's stopping"@,
        Reply::BackupStarted => "Backup started."@,
        Reply::MissingUser => "Must provide a username to op"@,
        Reply::Opped => opped_text(user),
        Reply::StatusOffline => "Server is offline."@,
        Reply::StatusUnknown => "Server is probably offline, but worth a try."@,
        Reply::StatusStarting => "Server is starting, check back in a few mins."@,
        Reply::StatusRunning => "Server is running."@,
        Reply::StatusStopping => "Server is stopping."@,
        Reply::Help => help_text(),
        Reply::UnknownCommand => "Unknown command, try `mc!help` if you're stuck"@,
        Reply::StoppedEarly => "Server stopped before time."@,
        Reply::Stopped => "Server stopped."@,
        Reply::Died => "Server died for some reason, mc!start to restart"@,
    }
}

/// Writes out an answer.
pub fn reply_text(reply: Reply, user: &str) -> (r: String)
    ensures
        r@ == text_of(reply, user@),
{
    let fixed: &str = match reply {
        Reply::AlreadyRunning => "Server already running",
        Reply::AlreadyStarting => "Server already starting",
        Reply::StartingNow => "Server starting now, ETA 3 minutes",
        Reply::NotRunningYet => "Server's not running (yet)",
        Reply::AlreadyStopping => "Server's already stopping",
        Reply::StopScheduled => "Server will be stopped in 5 minutes, type `mc!cancel` to cancel",
        Reply::StoppingNow => "Server is stopping now",
        Reply::Unimplemented => "Unimplemented, to be added later",
        Reply::CancelFailed => "Error while cancelling shutdown",
        Reply::Cancelled => "Shutdown cancelled",
        Reply::NotCancellable => "Shutdown cannot be cancelled",
        Reply::NotRunning => "Server's not running",
        Reply::NoShutdown => "No shutdown in progress",
        Reply::Stopping => "Server's stopping",
        Reply::BackupStarted => "Backup started.",
        Reply::MissingUser => "Must provide a username to op",
        Reply::Opped => {
            let mut text = String::new();
            text.append("Opped user ");
            text.append(user);
            text.append(
                ". All ops are logged.\nDon't forget to de-op yourself after you're done!",
            );
            assert(text@ =~= opped_text(user@));
            return text;
        },
        Reply::StatusOffline => "Server is offline.",
        Reply::StatusUnknown => "Server is probably offline, but worth a try.",
        Reply::StatusStarting => "Server is starting, check back in a few mins.",
        Reply::StatusRunning => "Server is running.",
        Reply::StatusStopping => "Server is stopping.",
        Reply::Help => "Commands:\n    `mc!start` - Starts the server\n    `mc!stop` - Stops the server\n    `mc!kill` - Stops the server without waiting 5 mins\n    `mc!cancel` - Cancels server stop\n    `mc!shutdown [hh:mm]` - Schedules a shutdown in CEST\n    `mc!backup` - Starts a backup on the server (pls no spam)\n    `mc!op` - Ops a user if an accident happens - all ops are logged\n    `mc!status` - Displays server status\n    `mc!help` - Displays this message",
        Reply::UnknownCommand => "Unknown command, try `mc!help` if you're stuck",
        Reply::StoppedEarly => "Server stopped before time.",
        Reply::Stopped => "Server stopped.",
        Reply::Died => "Server died for some reason, mc!start to restart",
    };
    fixed.to_owned()
}

/// The news that the server runs, `secs` seconds after it was spawned.
pub open spec fn started_text(secs: int) -> Seq<char> {
    "Server's now running, startup: "@ + decimal_text(secs) + "s"@
}

/// The news that the server is stopping.
pub open spec fn stopping_text() -> Seq<char> {
    "Server is now stopping..."@
}

/// The report of an error that `sender` logged.
pub open spec fn exception_text(sender: Seq<char>, exception: Seq<char>) -> Seq<char> {
    "Server encountered an exception:```md\n"@ + sender + ": "@ + exception + "```"@
}

/// The report of a lag spike of `ms` milliseconds that cost `ticks` ticks.
pub open spec fn lag_text(ms: int, ticks: int) -> Seq<char> {
    "Lag spike - "@ + decimal_text(ms) + "ms, skipped "@ + decimal_text(ticks)
        + " ticks\nIf the problem persists, restart the server"@
}

/// The name under which the server's own news is relayed as chat.
pub open spec fn server_name() -> Seq<char> {
    "Server"@
}

/// The chat line that an event is relayed as: name and message. Events that
/// are not relayed as chat have none.
pub open spec fn relayed(event: LogEvent) -> Option<(Seq<char>, Seq<char>)> {
    match event {
        LogEvent::BackupStarted => Some((server_name(), "*Backup started*"@)),
        LogEvent::BackupFinished { time } => Some(
            (
                server_name(),
                "*Backup finished - "@ + decimal_text(div_towards_zero(time, 1000)) + "s*"@,
            ),
        ),
        LogEvent::UserLogin { name } => Some((server_name(), "*"@ + name + " joined the game*"@)),
        LogEvent::UserLogout { name } => Some((server_name(), "*"@ + name + " left the game*"@)),
        LogEvent::ChatMessage { name, message } => Some((name, message)),
        _ => None,
    }
}

/// Writes the news that the server runs.
pub fn started_notice(secs: i64) -> (r: String)
    ensures
        r@ == started_text(secs as int),
{
    let mut text = String::new();
    text.append("Server's now running, startup: ");
    push_decimal(&mut text, secs as i128);
    text.append("s");
    assert(text@ =~= started_text(secs as int));
    text
}

/// Writes the report of an error.
pub fn exception_notice(sender: &str, exception: &str) -> (r: String)
    ensures
        r@ == exception_text(sender@, exception@),
{
    let mut text = String::new();
    text.append("Server encountered an exception:```md\n");
    text.append(sender);
    text.append(": ");
    text.append(exception);
    text.append("```");
    assert(text@ =~= exception_text(sender@, exception@));
    text
}

/// Writes the report of a lag spike.
pub fn lag_notice(ms: i64, ticks: usize) -> (r: String)
    ensures
        r@ == lag_text(ms as int, ticks as int),
{
    let mut text = String::new();
    text.append("Lag spike - ");
    push_decimal(&mut text, ms as i128);
    text.append("ms, skipped ");
    push_decimal(&mut text, ticks as i128);
    text.append(" ticks\nIf the problem persists, restart the server");
    assert(text@ =~= lag_text(ms as int, ticks as int));
    text
}

/// Writes the chat message that tells of a finished backup.
pub fn backup_finished_message(secs: i64) -> (r: String)
    ensures
        r@ == "*Backup finished - "@ + decimal_text(secs as int) + "s*"@,
{
    let mut text = String::new();
    text.append("*Backup finished - ");
    push_decimal(&mut text, secs as i128);
    text.append("s*");
    assert(text@ =~= "*Backup finished - "@ + decimal_text(secs as int) + "s*"@);
    text
}

/// Writes the chat message that tells of a player who came or went; `what`
/// is the rest of the sentence behind the name.
pub fn player_message(name: &str, what: &str) -> (r: String)
    ensures
        r@ == "*"@ + name@ + what@,
{
    let mut text = String::new();
    text.append("*");
    text.append(name);
    text.append(what);
    assert(text@ =~= "*"@ + name@ + what@);
    text
}

/// The arguments that tell the remote command tool what to do for `launch`,
/// behind those that say where the server is and how to log in. The server
/// itself is no remote command and has none.
///
/// A graceful stop waits a minute after each of five warnings and then
/// shuts down. Making a player an operator does that and nothing else.
pub open spec fn remote_arguments_for(launch: Launch, user: Seq<char>) -> Seq<Seq<char>> {
    match launch {
        Launch::Server => Seq::empty(),
        Launch::GracefulStop => Seq::empty().push("-w"@).push("60"@).push(
            "say Shutting down in 5 minutes"@,
        ).push("say Shutting down in 4 minutes"@).push("say Shutting down in 3 minutes"@).push(
            "say Shutting down in 2 minutes"@,
        ).push("say Shutting down in 1 minute"@).push("shutdown"@),
        Launch::ImmediateStop => Seq::empty().push("shutdown"@),
        Launch::CancelNotice => Seq::empty().push("say Shutdown cancelled"@),
        Launch::Backup => Seq::empty().push("backup start"@),
        Launch::Op => Seq::empty().push("op "@ + user),
    }
}

/// The texts that a list of strings holds.
pub open spec fn texts(v: Seq<String>) -> Seq<Seq<char>> {
    Seq::new(v.len(), |i: int| v[i]@)
}

/// Lists the arguments for the remote command tool.
pub fn remote_arguments(launch: Launch, user: &str) -> (r: Vec<String>)
    ensures
        texts(r@) == remote_arguments_for(launch, user@),
{
    let mut args: Vec<String> = Vec::new();
    match launch {
        Launch::Server => {},
        Launch::GracefulStop => {
            args.push("-w".to_owned());
            args.push("60".to_owned());
            args.push("say Shutting down in 5 minutes".to_owned());
            args.push("say Shutting down in 4 minutes".to_owned());
            args.push("say Shutting down in 3 minutes".to_owned());
            args.push("say Shutting down in 2 minutes".to_owned());
            args.push("say Shutting down in 1 minute".to_owned());
            args.push("shutdown".to_owned());
        },
        Launch::ImmediateStop => {
            args.push("shutdown".to_owned());
        },
        Launch::CancelNotice => {
            args.push("say Shutdown cancelled".to_owned());
        },
        Launch::Backup => {
            args.push("backup start".to_owned());
        },
        Launch::Op => {
            let mut op = String::new();
            op.append("op ");
            op.append(user);
            assert(op@ =~= "op "@ + user@);
            args.push(op);
        },
    }
    assert(texts(args@) =~= remote_arguments_for(launch, user@));
    args
}

/// The arguments that the server is started with: the bounds of its memory,
/// the fixed settings of the virtual machine, and the server's own file.
pub open spec fn server_arguments_for(min_ram: Seq<char>, max_ram: Seq<char>, server_path: Seq<char>) -> Seq<
    Seq<char>,
> {
    Seq::empty().push("-Xms"@ + min_ram).push("-Xmx"@ + max_ram).push("-d64"@).push("-server"@).push(
        "-XX:+AggressiveOpts"@,
    ).push("-XX:+UseConcMarkSweepGC"@).push("-XX:+UnlockExperimentalVMOptions"@).push(
        "-XX:+UseParNewGC"@,
    ).push("-XX:+ExplicitGCInvokesConcurrent"@).push("-XX:+UseFastAccessorMethods"@).push(
        "-XX:+OptimizeStringConcat"@,
    ).push("-XX:+UseAdaptiveGCBoundary"@).push("-jar"@).push(server_path).push("nogui"@)
}

/// Lists the arguments that the server is started with.
pub fn server_arguments(min_ram: &str, max_ram: &str, server_path: &str) -> (r: Vec<String>)
    ensures
        texts(r@) == server_arguments_for(min_ram@, max_ram@, server_path@),
{
    let mut args: Vec<String> = Vec::new();
    let mut low = String::new();
    low.append("-Xms");
    low.append(min_ram);
    assert(low@ =~= "-Xms"@ + min_ram@);
    let mut high = String::new();
    high.append("-Xmx");
    high.append(max_ram);
    assert(high@ =~= "-Xmx"@ + max_ram@);
    args.push(low);
    args.push(high);
    args.push("-d64".to_owned());
    args.push("-server".to_owned());
    args.push("-XX:+AggressiveOpts".to_owned());
    args.push("-XX:+UseConcMarkSweepGC".to_owned());
    args.push("-XX:+UnlockExperimentalVMOptions".to_owned());
    args.push("-XX:+UseParNewGC".to_owned());
    args.push("-XX:+ExplicitGCInvokesConcurrent".to_owned());
    args.push("-XX:+UseFastAccessorMethods".to_owned());
    args.push("-XX:+OptimizeStringConcat".to_owned());
    args.push("-XX:+UseAdaptiveGCBoundary".to_owned());
    args.push("-jar".to_owned());
    args.push(server_path.to_owned());
    args.push("nogui".to_owned());
    assert(texts(args@) =~= server_arguments_for(min_ram@, max_ram@, server_path@));
    args
}

} // verus!
