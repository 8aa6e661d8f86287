//! The lifecycle of the supervised server as a state machine.
//!
//! The machine decides and never acts. For every command it returns a `Plan`;
//! the program around it carries the plan out (spawning or killing a
//! process) and, once a spawn has succeeded, commits it with `launched`. A
//! spawn that fails commits nothing, so the status stays what it was.
//! Processes are known to the machine by the handles the program gives them.

use crate::chat_relay::{is_due, submitted, Batch, ChatRelayBatcher, ErrorThrottle, Quiet};
use crate::discord_commands::{Command, FromDiscord};
use crate::duration::div_towards_zero;
use crate::notices::{
    backup_finished_message, exception_notice, exception_text, lag_notice, lag_text,
    player_message, relayed, started_notice, started_text, stopping_text,
};
use crate::server_log::{FromServerLog, LogEvent};
use vstd::prelude::*;

verus! {

/// What the supervisor believes the server to be doing.
#[allow(inconsistent_fields)]
#[derive(Clone, Copy, Debug, PartialEq, Eq)]
pub enum ServerStatus {
    /// Nothing reliable is known.
    Unknown,
    /// The server is known not to run.
    Offline,
    /// The server was spawned at `start_time` and has not reported in yet.
    Starting { server: u32, start_time: i64 },
    /// The server runs and takes commands.
    Running { server: u32 },
    /// A shutdown is under way. `rcon` is the process that carries out a
    /// shutdown asked for here; `server` is kept to see the server exit.
    Stopping { server: Option<u32>, rcon: Option<u32> },
}

/// A process that the supervisor asks the program to spawn.
#[derive(Clone, Copy, Debug, PartialEq, Eq, Structural)]
pub enum Launch {
    /// The server itself.
    Server,
    /// The remote command that warns the players and then shuts down.
    GracefulStop,
    /// The remote command that shuts down at once.
    ImmediateStop,
    /// The remote command that tells the players of a cancelled shutdown.
    CancelNotice,
    /// The remote command that starts a backup.
    Backup,
    /// The remote command that makes a player an operator.
    Op,
}

/// An answer to the operator whose text is fixed.
#[derive(Clone, Copy, Debug, PartialEq, Eq, Structural)]
pub enum Reply {
    AlreadyRunning,
    AlreadyStarting,
    StartingNow,
    NotRunningYet,
    AlreadyStopping,
    StopScheduled,
    StoppingNow,
    Unimplemented,
    CancelFailed,
    Cancelled,
    NotCancellable,
    NotRunning,
    NoShutdown,
    Stopping,
    BackupStarted,
    MissingUser,
    Opped,
    StatusOffline,
    StatusUnknown,
    StatusStarting,
    StatusRunning,
    StatusStopping,
    Help,
    UnknownCommand,
    StoppedEarly,
    Stopped,
    Died,
}

/// What is to be done about a command. Every plan but `Reconnect` and
/// `GiveUp` ends in exactly one answer to the operator.
#[derive(Clone, Copy, Debug, PartialEq, Eq)]
pub enum Plan {
    /// Answer; nothing else happens.
    Answer(Reply),
    /// Spawn the process; if that succeeds, commit it with `launched`.
    Spawn(Launch),
    /// Kill the process `kill`, answer with `cancel_reply`, then go on as
    /// for `Spawn(launch)`.
    KillThenSpawn { kill: u32, launch: Launch },
    /// The command source broke down: set it up anew.
    Reconnect,
    /// The command source is closed for good: stop supervising.
    GiveUp,
}

/// The answer to a status query.
pub open spec fn status_reply(status: ServerStatus) -> Reply {
    match status {
        ServerStatus::Offline => Reply::StatusOffline,
        ServerStatus::Unknown => Reply::StatusUnknown,
        ServerStatus::Starting { .. } => Reply::StatusStarting,
        ServerStatus::Running { .. } => Reply::StatusRunning,
        ServerStatus::Stopping { .. } => Reply::StatusStopping,
    }
}

/// What a command that needs a running server meets with: the answer that
/// turns it down, or nothing if it may go ahead.
pub open spec fn refusal(status: ServerStatus, when_stopping: Reply) -> Option<Reply> {
    match status {
        ServerStatus::Offline | ServerStatus::Starting { .. } => Some(Reply::NotRunningYet),
        ServerStatus::Stopping { .. } => Some(when_stopping),
        _ => None,
    }
}

/// What is to be done about `command` while the server is in `status`.
pub open spec fn planned(status: ServerStatus, command: Command) -> Plan {
    match command {
        Command::Start => match status {
            ServerStatus::Running { .. } | ServerStatus::Stopping { .. } => Plan::Answer(
                Reply::AlreadyRunning,
            ),
            ServerStatus::Starting { .. } => Plan::Answer(Reply::AlreadyStarting),
            _ => Plan::Spawn(Launch::Server),
        },
        Command::Stop => match refusal(status, Reply::AlreadyStopping) {
            Some(reply) => Plan::Answer(reply),
            None => Plan::Spawn(Launch::GracefulStop),
        },
        Command::Kill => match refusal(status, Reply::AlreadyStopping) {
            Some(reply) => Plan::Answer(reply),
            None => Plan::Spawn(Launch::ImmediateStop),
        },
        Command::Shutdown(_, _) => Plan::Answer(Reply::Unimplemented),
        Command::Cancel => match status {
            ServerStatus::Stopping { rcon: Some(rcon), .. } => Plan::KillThenSpawn {
                kill: rcon,
                launch: Launch::CancelNotice,
            },
            ServerStatus::Stopping { rcon: None, .. } => Plan::Answer(Reply::NotCancellable),
            ServerStatus::Offline => Plan::Answer(Reply::NotRunning),
            _ => Plan::Answer(Reply::NoShutdown),
        },
        Command::Backup => match refusal(status, Reply::Stopping) {
            Some(reply) => Plan::Answer(reply),
            None => Plan::Spawn(Launch::Backup),
        },
        Command::Op(user) => if user.len() == 0 {
            Plan::Answer(Reply::MissingUser)
        } else {
            match refusal(status, Reply::Stopping) {
                Some(reply) => Plan::Answer(reply),
                None => Plan::Spawn(Launch::Op),
            }
        },
        Command::Status => Plan::Answer(status_reply(status)),
        Command::Help => Plan::Answer(Reply::Help),
        Command::Unknown | Command::Empty => Plan::Answer(Reply::UnknownCommand),
        Command::Reconnect => Plan::Reconnect,
        Command::Error => Plan::GiveUp,
    }
}

/// The server's handle, where the status holds one of a running server.
pub open spec fn running_server(status: ServerStatus) -> Option<u32> {
    match status {
        ServerStatus::Running { server } => Some(server),
        _ => None,
    }
}

/// The status and the answer after `launch` was spawned at `now` and got
/// the handle `handle`.
pub open spec fn launched_to(status: ServerStatus, launch: Launch, handle: u32, now: i64) -> (
    ServerStatus,
    Option<Reply>,
) {
    match launch {
        Launch::Server => (
            ServerStatus::Starting { server: handle, start_time: now },
            Some(Reply::StartingNow),
        ),
        Launch::GracefulStop => (
            ServerStatus::Stopping { server: running_server(status), rcon: Some(handle) },
            Some(Reply::StopScheduled),
        ),
        Launch::ImmediateStop => (
            ServerStatus::Stopping { server: running_server(status), rcon: Some(handle) },
            Some(Reply::StoppingNow),
        ),
        Launch::CancelNotice => (
            match status {
                ServerStatus::Stopping { server: Some(server), .. } => ServerStatus::Running {
                    server,
                },
                _ => ServerStatus::Unknown,
            },
            None,
        ),
        Launch::Backup => (status, Some(Reply::BackupStarted)),
        Launch::Op => (status, Some(Reply::Opped)),
    }
}

/// The answer once the process that carried out a shutdown was asked to
/// end, by whether that went well.
pub open spec fn cancel_reply_for(killed: bool) -> Reply {
    if killed {
        Reply::Cancelled
    } else {
        Reply::CancelFailed
    }
}

/// What a look at the processes leads to.
#[derive(Clone, Copy, Debug, PartialEq, Eq)]
pub struct PollOutcome {
    /// The status after the look.
    pub status: ServerStatus,
    /// A process to kill, if any.
    pub kill: Option<u32>,
    /// What to tell the operator, if anything.
    pub reply: Option<Reply>,
}

/// What a look at the processes leads to. `server_exited` and `rcon_exited`
/// say whether the process behind the handle of that name in `status` has
/// ended; where the status holds no such handle they count for nothing.
///
/// A running server that has ended is offline, and the operator is told that
/// it died. While stopping, a server that has ended is offline too; if the
/// process that carries out the shutdown is still there, it is killed and
/// the operator is told that the server stopped early.
pub open spec fn polled(status: ServerStatus, server_exited: bool, rcon_exited: bool) -> PollOutcome {
    match status {
        ServerStatus::Stopping { server: Some(_), rcon } => if !server_exited {
            PollOutcome { status, kill: None, reply: None }
        } else if rcon is Some && !rcon_exited {
            PollOutcome { status: ServerStatus::Offline, kill: rcon, reply: Some(Reply::StoppedEarly) }
        } else {
            PollOutcome { status: ServerStatus::Offline, kill: None, reply: Some(Reply::Stopped) }
        },
        ServerStatus::Running { .. } => if server_exited {
            PollOutcome { status: ServerStatus::Offline, kill: None, reply: Some(Reply::Died) }
        } else {
            PollOutcome { status, kill: None, reply: None }
        },
        _ => PollOutcome { status, kill: None, reply: None },
    }
}

/// The status after the server's output told of `event`. That the server
/// has started is believed only of one that was starting; from any other
/// status it leaves nothing known. That it is stopping moves a running
/// server to stopping. No other event changes the status.
pub open spec fn after_log(status: ServerStatus, event: LogEvent) -> ServerStatus {
    match event {
        LogEvent::ServerStarted => match status {
            ServerStatus::Starting { server, .. } => ServerStatus::Running { server },
            _ => ServerStatus::Unknown,
        },
        LogEvent::ServerStopping => match status {
            ServerStatus::Running { server } => ServerStatus::Stopping {
                server: Some(server),
                rcon: None,
            },
            _ => status,
        },
        _ => status,
    }
}

/// The status after the server's output was lost: what was known of a
/// server that may run can no longer be trusted.
pub open spec fn after_log_lost(status: ServerStatus) -> ServerStatus {
    match status {
        ServerStatus::Unknown | ServerStatus::Offline => status,
        _ => ServerStatus::Unknown,
    }
}

impl ServerStatus {
    /// The status before anything is known.
    pub fn initial() -> (r: ServerStatus)
        ensures
            r == ServerStatus::Unknown,
    {
        ServerStatus::Unknown
    }

    /// The handle of the server process to look at when polling.
    pub fn server_handle(&self) -> (r: Option<u32>)
        ensures
            r == match *self {
                ServerStatus::Running { server } => Some(server),
                ServerStatus::Stopping { server, .. } => server,
                _ => None,
            },
    {
        match *self {
            ServerStatus::Running { server } => Some(server),
            ServerStatus::Stopping { server, .. } => server,
            _ => None,
        }
    }

    /// The handle of the shutdown process to look at when polling.
    pub fn rcon_handle(&self) -> (r: Option<u32>)
        ensures
            r == match *self {
                ServerStatus::Stopping { rcon, .. } => rcon,
                _ => None,
            },
    {
        match *self {
            ServerStatus::Stopping { rcon, .. } => rcon,
            _ => None,
        }
    }
}

/// The answer to a status query.
pub fn status_query(status: &ServerStatus) -> (r: Reply)
    ensures
        r == status_reply(*status),
{
    match status {
        ServerStatus::Offline => Reply::StatusOffline,
        ServerStatus::Unknown => Reply::StatusUnknown,
        ServerStatus::Starting { .. } => Reply::StatusStarting,
        ServerStatus::Running { .. } => Reply::StatusRunning,
        ServerStatus::Stopping { .. } => Reply::StatusStopping,
    }
}

/// Turns down a command that needs a running server, or lets it pass.
fn refuse(status: &ServerStatus, when_stopping: Reply) -> (r: Option<Reply>)
    ensures
        r == refusal(*status, when_stopping),
{
    match status {
        ServerStatus::Offline | ServerStatus::Starting { .. } => Some(Reply::NotRunningYet),
        ServerStatus::Stopping { .. } => Some(when_stopping),
        _ => None,
    }
}

/// Decides what is to be done about a command. The status itself is not
/// touched: it changes only when a spawn is committed.
pub fn plan_command(status: &ServerStatus, command: &FromDiscord) -> (r: Plan)
    ensures
        r == planned(*status, command@),
{
    match command {
        FromDiscord::StartServerEvent => match status {
            ServerStatus::Running { .. } | ServerStatus::Stopping { .. } => Plan::Answer(
                Reply::AlreadyRunning,
            ),
            ServerStatus::Starting { .. } => Plan::Answer(Reply::AlreadyStarting),
            _ => Plan::Spawn(Launch::Server),
        },
        FromDiscord::StopServerEvent => match refuse(status, Reply::AlreadyStopping) {
            Some(reply) => Plan::Answer(reply),
            None => Plan::Spawn(Launch::GracefulStop),
        },
        FromDiscord::KillServerEvent => match refuse(status, Reply::AlreadyStopping) {
            Some(reply) => Plan::Answer(reply),
            None => Plan::Spawn(Launch::ImmediateStop),
        },
        FromDiscord::ShutdownServerEvent(_, _) => Plan::Answer(Reply::Unimplemented),
        FromDiscord::CancelShutdownEvent => match status {
            ServerStatus::Stopping { rcon: Some(rcon), .. } => Plan::KillThenSpawn {
                kill: *rcon,
                launch: Launch::CancelNotice,
            },
            ServerStatus::Stopping { rcon: None, .. } => Plan::Answer(Reply::NotCancellable),
            ServerStatus::Offline => Plan::Answer(Reply::NotRunning),
            _ => Plan::Answer(Reply::NoShutdown),
        },
        FromDiscord::BackupEvent => match refuse(status, Reply::Stopping) {
            Some(reply) => Plan::Answer(reply),
            None => Plan::Spawn(Launch::Backup),
        },
        FromDiscord::OpCommandEvent(user) => {
            if user.as_str().is_empty() {
                Plan::Answer(Reply::MissingUser)
            } else {
                match refuse(status, Reply::Stopping) {
                    Some(reply) => Plan::Answer(reply),
                    None => Plan::Spawn(Launch::Op),
                }
            }
        },
        FromDiscord::StatusQueryEvent => Plan::Answer(status_query(status)),
        FromDiscord::HelpEvent => Plan::Answer(Reply::Help),
        FromDiscord::UnknownCommand | FromDiscord::NoCommand => Plan::Answer(
            Reply::UnknownCommand,
        ),
        FromDiscord::ReconnectEvent => Plan::Reconnect,
        FromDiscord::ErrorEvent => Plan::GiveUp,
    }
}

/// Commits a spawn that succeeded: the status that follows and the answer
/// to give, if one is still owed.
pub fn launched(status: ServerStatus, launch: Launch, handle: u32, now: i64) -> (r: (
    ServerStatus,
    Option<Reply>,
))
    ensures
        r == launched_to(status, launch, handle, now),
{
    match launch {
        Launch::Server => (
            ServerStatus::Starting { server: handle, start_time: now },
            Some(Reply::StartingNow),
        ),
        Launch::GracefulStop => {
            let server = match status {
                ServerStatus::Running { server } => Some(server),
                _ => None,
            };
            (ServerStatus::Stopping { server, rcon: Some(handle) }, Some(Reply::StopScheduled))
        },
        Launch::ImmediateStop => {
            let server = match status {
                ServerStatus::Running { server } => Some(server),
                _ => None,
            };
            (ServerStatus::Stopping { server, rcon: Some(handle) }, Some(Reply::StoppingNow))
        },
        Launch::CancelNotice => (
            match status {
                ServerStatus::Stopping { server: Some(server), .. } => ServerStatus::Running {
                    server,
                },
                _ => ServerStatus::Unknown,
            },
            None,
        ),
        Launch::Backup => (status, Some(Reply::BackupStarted)),
        Launch::Op => (status, Some(Reply::Opped)),
    }
}

/// The answer once the shutdown process was asked to end.
pub fn cancel_reply(killed: bool) -> (r: Reply)
    ensures
        r == cancel_reply_for(killed),
{
    if killed {
        Reply::Cancelled
    } else {
        Reply::CancelFailed
    }
}

/// Takes in what a look at the processes has shown. This comes first in
/// every round, before any new event is handled, so that a server that has
/// died is never taken for a live one.
pub fn poll(status: ServerStatus, server_exited: bool, rcon_exited: bool) -> (r: PollOutcome)
    ensures
        r == polled(status, server_exited, rcon_exited),
{
    match status {
        ServerStatus::Stopping { server: Some(_), rcon } => {
            if !server_exited {
                PollOutcome { status, kill: None, reply: None }
            } else if rcon.is_some() && !rcon_exited {
                PollOutcome {
                    status: ServerStatus::Offline,
                    kill: rcon,
                    reply: Some(Reply::StoppedEarly),
                }
            } else {
                PollOutcome {
                    status: ServerStatus::Offline,
                    kill: None,
                    reply: Some(Reply::Stopped),
                }
            }
        },
        ServerStatus::Running { .. } => {
            if server_exited {
                PollOutcome {
                    status: ServerStatus::Offline,
                    kill: None,
                    reply: Some(Reply::Died),
                }
            } else {
                PollOutcome { status, kill: None, reply: None }
            }
        },
        _ => PollOutcome { status, kill: None, reply: None },
    }
}

/// One round of the supervisor in which a command arrived: first the look
/// at the processes, then the plan for the command, made from the status
/// that the look has left.
pub fn plan_round(
    status: ServerStatus,
    server_exited: bool,
    rcon_exited: bool,
    command: &FromDiscord,
) -> (r: (PollOutcome, Plan))
    ensures
        r.0 == polled(status, server_exited, rcon_exited),
        r.1 == planned(polled(status, server_exited, rcon_exited).status, command@),
{
    let outcome = poll(status, server_exited, rcon_exited);
    let plan = plan_command(&outcome.status, command);
    (outcome, plan)
}

/// Takes in the loss of the server's output.
pub fn log_source_lost(status: ServerStatus) -> (r: ServerStatus)
    ensures
        r == after_log_lost(status),
{
    match status {
        ServerStatus::Unknown | ServerStatus::Offline => status,
        _ => ServerStatus::Unknown,
    }
}

/// What an event from the server's output leads to.
pub struct LogOutcome {
    /// The status after the event.
    pub status: ServerStatus,
    /// What to send to the chat channel, if anything.
    pub notice: Option<String>,
    /// The event does not fit the status it met: worth a warning.
    pub inconsistent: bool,
}

/// The mathematical content of what an event leads to: the status, the text
/// to send, and the throttle and the batcher as the event leaves them.
pub ghost struct LogStep {
    pub status: ServerStatus,
    pub notice: Option<Seq<char>>,
    pub inconsistent: bool,
    pub quiet: Quiet,
    pub batch: Batch,
}

/// Whether an event does not fit the status it meets: the news of a start
/// from a server that was not starting.
pub open spec fn is_inconsistent(status: ServerStatus, event: LogEvent) -> bool {
    event is ServerStarted && !(status is Starting)
}

/// Whether errors of the server are reported in this status.
pub open spec fn reports_errors(status: ServerStatus) -> bool {
    status is Running || status is Stopping
}

/// What the event `event`, arriving at `now`, leads to.
///
/// - The start of a server that was starting is announced with the seconds
///   it took; a start out of any other status is not announced and marked
///   as inconsistent.
/// - That the server is stopping is always announced.
/// - An error is reported only of a server that runs or stops, and only if
///   the throttle lets it pass, which then counts from `now`.
/// - A lag spike is always reported.
/// - Everything else is chat and goes through the batcher.
pub open spec fn log_step(
    status: ServerStatus,
    event: LogEvent,
    now: int,
    quiet: Quiet,
    batch: Batch,
) -> LogStep {
    let next = after_log(status, event);
    match event {
        LogEvent::ServerStarted => LogStep {
            status: next,
            inconsistent: is_inconsistent(status, event),
            notice: match status {
                ServerStatus::Starting { start_time, .. } => Some(
                    started_text(div_towards_zero(now - start_time, 1000)),
                ),
                _ => None,
            },
            quiet,
            batch,
        },
        LogEvent::ServerStopping => LogStep {
            status: next,
            inconsistent: false,
            notice: Some(stopping_text()),
            quiet,
            batch,
        },
        LogEvent::ServerError { exception, sender } => if reports_errors(status) && is_due(
            quiet,
            now,
        ) {
            LogStep {
                status: next,
                inconsistent: false,
                notice: Some(exception_text(sender, exception)),
                quiet: Quiet { last_report: now, min_interval: quiet.min_interval },
                batch,
            }
        } else {
            LogStep { status: next, inconsistent: false, notice: None, quiet, batch }
        },
        LogEvent::LagSpike { length, ticks } => LogStep {
            status: next,
            inconsistent: false,
            notice: Some(lag_text(length, ticks as int)),
            quiet,
            batch,
        },
        _ => {
            let line = relayed(event)->0;
            LogStep {
                status: next,
                inconsistent: false,
                notice: submitted(batch, now, line.0, line.1).1,
                quiet,
                batch: submitted(batch, now, line.0, line.1).0,
            }
        },
    }
}

/// Takes in one event from the server's output at time `now`.
pub fn on_log_event(
    status: ServerStatus,
    event: FromServerLog,
    now: i64,
    errors: &mut ErrorThrottle,
    chat: &mut ChatRelayBatcher,
) -> (r: LogOutcome)
    ensures
        ({
            let step = log_step(status, event@, now as int, old(errors)@, old(chat)@);
            &&& r.status == step.status
            &&& r.inconsistent == step.inconsistent
            &&& match step.notice {
                Some(text) => r.notice is Some && r.notice->0@ == text,
                None => r.notice is None,
            }
            &&& final(errors)@ == step.quiet
            &&& final(chat)@ == step.batch
        }),
{
    match event {
        FromServerLog::ServerStarted => match status {
            ServerStatus::Starting { server, start_time } => {
                let elapsed: i128 = now as i128 - start_time as i128;
                let secs: i128 = if elapsed >= 0 {
                    elapsed / 1000
                } else {
                    -((-elapsed) / 1000)
                };
                LogOutcome {
                    status: ServerStatus::Running { server },
                    notice: Some(started_notice(secs as i64)),
                    inconsistent: false,
                }
            },
            _ => LogOutcome { status: ServerStatus::Unknown, notice: None, inconsistent: true },
        },
        FromServerLog::ServerStopping => {
            let next = match status {
                ServerStatus::Running { server } => ServerStatus::Stopping {
                    server: Some(server),
                    rcon: None,
                },
                _ => status,
            };
            LogOutcome {
                status: next,
                notice: Some("Server is now stopping...".to_owned()),
                inconsistent: false,
            }
        },
        FromServerLog::ServerError { exception, sender } => {
            let concerned = match status {
                ServerStatus::Running { .. } | ServerStatus::Stopping { .. } => true,
                _ => false,
            };
            if concerned && errors.admit_report(now) {
                LogOutcome {
                    status,
                    notice: Some(exception_notice(sender.as_str(), exception.as_str())),
                    inconsistent: false,
                }
            } else {
                LogOutcome { status, notice: None, inconsistent: false }
            }
        },
        FromServerLog::LagSpike { length, ticks } => LogOutcome {
            status,
            notice: Some(lag_notice(length.num_milliseconds(), ticks)),
            inconsistent: false,
        },
        FromServerLog::BackupStarted => {
            let notice = chat.submit(now, "Server".to_owned(), "*Backup started*".to_owned());
            LogOutcome { status, notice, inconsistent: false }
        },
        FromServerLog::BackupFinished { time } => {
            let message = backup_finished_message(time.num_seconds());
            let notice = chat.submit(now, "Server".to_owned(), message);
            LogOutcome { status, notice, inconsistent: false }
        },
        FromServerLog::UserLogin { name } => {
            let message = player_message(name.as_str(), " joined the game*");
            let notice = chat.submit(now, "Server".to_owned(), message);
            LogOutcome { status, notice, inconsistent: false }
        },
        FromServerLog::UserLogout { name } => {
            let message = player_message(name.as_str(), " left the game*");
            let notice = chat.submit(now, "Server".to_owned(), message);
            LogOutcome { status, notice, inconsistent: false }
        },
        FromServerLog::ChatMessage { name, message } => {
            let notice = chat.submit(now, name, message);
            LogOutcome { status, notice, inconsistent: false }
        },
    }
}

// ---------------------------------------------------------------------------
// Laws of the machine
// ---------------------------------------------------------------------------

/// The status after `command` was planned and carried out, every spawn it
/// asked for having succeeded with the handle `handle` at time `now`.
pub open spec fn after_command(status: ServerStatus, command: Command, handle: u32, now: i64) -> ServerStatus {
    match planned(status, command) {
        Plan::Spawn(launch) => launched_to(status, launch, handle, now).0,
        Plan::KillThenSpawn { launch, .. } => launched_to(status, launch, handle, now).0,
        _ => status,
    }
}

/// How many servers are spawned for `command` in `status`: one or none.
pub open spec fn server_spawns(status: ServerStatus, command: Command) -> nat {
    if planned(status, command) == Plan::Spawn(Launch::Server) {
        1
    } else {
        0
    }
}

/// The status after as many start commands in a row as `spawns` is long,
/// and the number of servers spawned for them. The entry for a command
/// holds the handle and the time that a spawn for it would get.
pub open spec fn after_starts(status: ServerStatus, spawns: Seq<(u32, i64)>) -> (ServerStatus, nat)
    decreases spawns.len(),
{
    if spawns.len() == 0 {
        (status, 0)
    } else {
        let before = after_starts(status, spawns.drop_last());
        (
            after_command(before.0, Command::Start, spawns.last().0, spawns.last().1),
            before.1 + server_spawns(before.0, Command::Start),
        )
    }
}

/// However often a start is asked for while the server is offline or
/// nothing is known of it, exactly one server is spawned, for the first
/// request, and the status is `Starting` with that server. Every later
/// request is answered that the server is already starting.
pub proof fn lemma_start_spawns_once(status: ServerStatus, spawns: Seq<(u32, i64)>)
    requires
        status is Offline || status is Unknown,
        spawns.len() >= 1,
    ensures
        after_starts(status, spawns) == (
            ServerStatus::Starting { server: spawns[0].0, start_time: spawns[0].1 },
            1nat,
        ),
        planned(after_starts(status, spawns).0, Command::Start) == Plan::Answer(
            Reply::AlreadyStarting,
        ),
    decreases spawns.len(),
{
    if spawns.len() == 1 {
        assert(spawns.drop_last().len() == 0);
        assert(after_starts(status, spawns.drop_last()) == (status, 0nat));
    } else {
        lemma_start_spawns_once(status, spawns.drop_last());
        assert(spawns.drop_last()[0] == spawns[0]);
    }
}

/// A status query is answered with the answer that belongs to the status,
/// one for each kind of status, and leaves the status as it was.
pub proof fn lemma_status_query_is_idle(status: ServerStatus, handle: u32, now: i64)
    ensures
        planned(status, Command::Status) == Plan::Answer(status_reply(status)),
        after_command(status, Command::Status, handle, now) == status,
        status is Offline ==> status_reply(status) == Reply::StatusOffline,
        status is Unknown ==> status_reply(status) == Reply::StatusUnknown,
        status is Starting ==> status_reply(status) == Reply::StatusStarting,
        status is Running ==> status_reply(status) == Reply::StatusRunning,
        status is Stopping ==> status_reply(status) == Reply::StatusStopping,
{
}

/// The status after as many status queries in a row as `n` says.
pub open spec fn after_queries(status: ServerStatus, n: nat) -> ServerStatus
    decreases n,
{
    if n == 0 {
        status
    } else {
        after_command(after_queries(status, (n - 1) as nat), Command::Status, 0, 0)
    }
}

/// However often the status is asked for, it stays what it was, and the
/// answer stays the one that belongs to it.
pub proof fn lemma_status_queries_change_nothing(status: ServerStatus, n: nat)
    ensures
        after_queries(status, n) == status,
        planned(after_queries(status, n), Command::Status) == Plan::Answer(status_reply(status)),
    decreases n,
{
    if n > 0 {
        lemma_status_queries_change_nothing(status, (n - 1) as nat);
    }
}

/// A running server that is found to have ended is offline from then on;
/// the operator is told once that it died, and nothing is killed. Looking
/// again changes nothing and tells nothing.
pub proof fn lemma_dead_server_goes_offline(server: u32, rcon_exited: bool, again: bool)
    ensures
        polled(ServerStatus::Running { server }, true, rcon_exited) == (PollOutcome {
            status: ServerStatus::Offline,
            kill: None,
            reply: Some(Reply::Died),
        }),
        polled(ServerStatus::Offline, again, rcon_exited) == (PollOutcome {
            status: ServerStatus::Offline,
            kill: None,
            reply: None,
        }),
{
}

/// No command is met with silence: whatever the status, every command of
/// an operator is either answered at once, or answered when its spawn is
/// committed, or, for a cancellation, answered by how the kill went and not
/// again at the commit.
pub proof fn lemma_every_command_is_answered(
    status: ServerStatus,
    command: Command,
    handle: u32,
    now: i64,
)
    requires
        !(command is Reconnect),
        !(command is Error),
    ensures
        match planned(status, command) {
            Plan::Answer(_) => true,
            Plan::Spawn(launch) => launched_to(status, launch, handle, now).1 is Some,
            Plan::KillThenSpawn { launch, .. } => launched_to(status, launch, handle, now).1
                is None,
            Plan::Reconnect | Plan::GiveUp => false,
        },
{
}

/// A command that arrives in the round in which a running server is found
/// dead is planned for an offline server: a stop is turned down, a start
/// spawns.
pub proof fn lemma_dead_server_is_not_taken_for_alive(server: u32, rcon_exited: bool)
    ensures
        planned(
            polled(ServerStatus::Running { server }, true, rcon_exited).status,
            Command::Stop,
        ) == Plan::Answer(Reply::NotRunningYet),
        planned(
            polled(ServerStatus::Running { server }, true, rcon_exited).status,
            Command::Start,
        ) == Plan::Spawn(Launch::Server),
{
}

/// Cancelling a shutdown that this supervisor started, with the server's
/// handle still at hand: the shutdown process is to be killed, the notice
/// of the cancellation is to be spawned, and once that is done the server
/// counts as running again under the handle it had.
pub proof fn lemma_cancel_returns_to_running(server: u32, rcon: u32, handle: u32, now: i64)
    ensures
        planned(
            ServerStatus::Stopping { server: Some(server), rcon: Some(rcon) },
            Command::Cancel,
        ) == (Plan::KillThenSpawn { kill: rcon, launch: Launch::CancelNotice }),
        launched_to(
            ServerStatus::Stopping { server: Some(server), rcon: Some(rcon) },
            Launch::CancelNotice,
            handle,
            now,
        ) == (ServerStatus::Running { server }, None::<Reply>),
        after_command(
            ServerStatus::Stopping { server: Some(server), rcon: Some(rcon) },
            Command::Cancel,
            handle,
            now,
        ) == (ServerStatus::Running { server }),
{
}

} // verus!
