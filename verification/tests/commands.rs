use server_maintainer::discord_commands::{
    command_of_message, event_of_failure, parse_command, FromDiscord, ReceiveFailure,
};
use server_maintainer::lifecycle::{Launch, Reply};
use server_maintainer::notices::{
    backup_finished_message, exception_notice, lag_notice, player_message, remote_arguments,
    reply_text, server_arguments, started_notice,
};

#[test]
fn messages_without_the_prefix_are_no_commands() {
    assert_eq!(parse_command("start"), None);
    assert_eq!(parse_command(""), None);
    assert_eq!(parse_command("mc"), None);
    assert_eq!(parse_command(" mc!start"), None);
    assert_eq!(parse_command("MC!start"), None);
}

#[test]
fn each_command_word() {
    assert_eq!(parse_command("mc!start"), Some(FromDiscord::StartServerEvent));
    assert_eq!(parse_command("mc!stop"), Some(FromDiscord::StopServerEvent));
    assert_eq!(parse_command("mc!kill"), Some(FromDiscord::KillServerEvent));
    assert_eq!(parse_command("mc!shutdown 12:30"), Some(FromDiscord::ShutdownServerEvent(0, 0)));
    assert_eq!(parse_command("mc!cancel"), Some(FromDiscord::CancelShutdownEvent));
    assert_eq!(parse_command("mc!backup"), Some(FromDiscord::BackupEvent));
    assert_eq!(parse_command("mc!status"), Some(FromDiscord::StatusQueryEvent));
    assert_eq!(parse_command("mc!help"), Some(FromDiscord::HelpEvent));
}

#[test]
fn op_takes_one_argument() {
    assert_eq!(
        parse_command("mc!op Kistepsi"),
        Some(FromDiscord::OpCommandEvent("Kistepsi".to_string()))
    );
    assert_eq!(
        parse_command("mc!op \t Kistepsi  and more"),
        Some(FromDiscord::OpCommandEvent("Kistepsi".to_string()))
    );
    assert_eq!(parse_command("mc!op"), Some(FromDiscord::OpCommandEvent(String::new())));
    assert_eq!(parse_command("mc!op   "), Some(FromDiscord::OpCommandEvent(String::new())));
    assert_eq!(
        parse_command("mc!op \u{e1}rv\u{ed}zt\u{171}r\u{151}"),
        Some(FromDiscord::OpCommandEvent("\u{e1}rv\u{ed}zt\u{171}r\u{151}".to_string()))
    );
}

#[test]
fn unknown_and_empty_commands() {
    assert_eq!(parse_command("mc!"), Some(FromDiscord::NoCommand));
    assert_eq!(parse_command("mc!  \n\t"), Some(FromDiscord::NoCommand));
    assert_eq!(parse_command("mc!dance"), Some(FromDiscord::UnknownCommand));
    assert_eq!(parse_command("mc!starting"), Some(FromDiscord::UnknownCommand));
    assert_eq!(parse_command("mc!Start"), Some(FromDiscord::UnknownCommand));
    assert_eq!(parse_command("mc! start"), Some(FromDiscord::StartServerEvent));
    assert_eq!(parse_command("mc!\u{a0}start"), Some(FromDiscord::UnknownCommand));
}

#[test]
fn status_answers() {
    assert_eq!(reply_text(Reply::StatusOffline, ""), "Server is offline.");
    assert_eq!(reply_text(Reply::StatusUnknown, ""), "Server is probably offline, but worth a try.");
    assert_eq!(
        reply_text(Reply::StatusStarting, ""),
        "Server is starting, check back in a few mins."
    );
    assert_eq!(reply_text(Reply::StatusRunning, ""), "Server is running.");
    assert_eq!(reply_text(Reply::StatusStopping, ""), "Server is stopping.");
}

#[test]
fn fixed_answers() {
    assert_eq!(reply_text(Reply::AlreadyRunning, ""), "Server already running");
    assert_eq!(reply_text(Reply::AlreadyStarting, ""), "Server already starting");
    assert_eq!(reply_text(Reply::StartingNow, ""), "Server starting now, ETA 3 minutes");
    assert_eq!(reply_text(Reply::NotRunningYet, ""), "Server's not running (yet)");
    assert_eq!(reply_text(Reply::AlreadyStopping, ""), "Server's already stopping");
    assert_eq!(
        reply_text(Reply::StopScheduled, ""),
        "Server will be stopped in 5 minutes, type `mc!cancel` to cancel"
    );
    assert_eq!(reply_text(Reply::StoppingNow, ""), "Server is stopping now");
    assert_eq!(reply_text(Reply::Unimplemented, ""), "Unimplemented, to be added later");
    assert_eq!(reply_text(Reply::CancelFailed, ""), "Error while cancelling shutdown");
    assert_eq!(reply_text(Reply::Cancelled, ""), "Shutdown cancelled");
    assert_eq!(reply_text(Reply::NotCancellable, ""), "Shutdown cannot be cancelled");
    assert_eq!(reply_text(Reply::NotRunning, ""), "Server's not running");
    assert_eq!(reply_text(Reply::NoShutdown, ""), "No shutdown in progress");
    assert_eq!(reply_text(Reply::Stopping, ""), "Server's stopping");
    assert_eq!(reply_text(Reply::BackupStarted, ""), "Backup started.");
    assert_eq!(reply_text(Reply::MissingUser, ""), "Must provide a username to op");
    assert_eq!(
        reply_text(Reply::UnknownCommand, "x"),
        "Unknown command, try `mc!help` if you're stuck"
    );
    assert_eq!(reply_text(Reply::StoppedEarly, ""), "Server stopped before time.");
    assert_eq!(reply_text(Reply::Stopped, ""), "Server stopped.");
    assert_eq!(reply_text(Reply::Died, ""), "Server died for some reason, mc!start to restart");
}

#[test]
fn answers_with_a_name() {
    assert_eq!(
        reply_text(Reply::Opped, "Kistepsi"),
        "Opped user Kistepsi. All ops are logged.\nDon't forget to de-op yourself after you're done!"
    );
}

#[test]
fn help_lists_every_command() {
    let help = reply_text(Reply::Help, "");
    let lines: Vec<&str> = help.lines().collect();
    assert_eq!(lines.len(), 10);
    assert_eq!(lines[0], "Commands:");
    assert_eq!(lines[1], "    `mc!start` - Starts the server");
    assert_eq!(lines[9], "    `mc!help` - Displays this message");
}

#[test]
fn notices_with_numbers() {
    assert_eq!(started_notice(95), "Server's now running, startup: 95s");
    assert_eq!(started_notice(0), "Server's now running, startup: 0s");
    assert_eq!(started_notice(-7), "Server's now running, startup: -7s");
    assert_eq!(
        started_notice(i64::MIN),
        "Server's now running, startup: -9223372036854775808s"
    );
    assert_eq!(
        started_notice(i64::MAX),
        "Server's now running, startup: 9223372036854775807s"
    );
    assert_eq!(
        lag_notice(5125, 102),
        "Lag spike - 5125ms, skipped 102 ticks\nIf the problem persists, restart the server"
    );
    assert_eq!(
        lag_notice(-10, usize::MAX),
        format!(
            "Lag spike - -10ms, skipped {} ticks\nIf the problem persists, restart the server",
            usize::MAX
        )
    );
    assert_eq!(backup_finished_message(10), "*Backup finished - 10s*");
    assert_eq!(backup_finished_message(1000), "*Backup finished - 1000s*");
}

#[test]
fn notices_with_text() {
    assert_eq!(
        exception_notice("FML", "java.lang.NullPointerException"),
        "Server encountered an exception:```md\nFML: java.lang.NullPointerException```"
    );
    assert_eq!(player_message("Kistepsi", " joined the game*"), "*Kistepsi joined the game*");
    assert_eq!(player_message("Kistepsi", " left the game*"), "*Kistepsi left the game*");
}

#[test]
fn arguments_for_the_remote_tool() {
    assert_eq!(remote_arguments(Launch::Server, "x"), Vec::<String>::new());
    assert_eq!(
        remote_arguments(Launch::GracefulStop, ""),
        vec![
            "-w",
            "60",
            "say Shutting down in 5 minutes",
            "say Shutting down in 4 minutes",
            "say Shutting down in 3 minutes",
            "say Shutting down in 2 minutes",
            "say Shutting down in 1 minute",
            "shutdown",
        ]
    );
    assert_eq!(remote_arguments(Launch::ImmediateStop, ""), vec!["shutdown"]);
    assert_eq!(remote_arguments(Launch::CancelNotice, ""), vec!["say Shutdown cancelled"]);
    assert_eq!(remote_arguments(Launch::Backup, ""), vec!["backup start"]);
    assert_eq!(remote_arguments(Launch::Op, "Kistepsi"), vec!["op Kistepsi"]);
}

#[test]
fn only_others_in_the_right_channel_give_commands() {
    assert_eq!(command_of_message(1, 2, 10, 10, "mc!start"), Some(FromDiscord::StartServerEvent));
    assert_eq!(command_of_message(2, 2, 10, 10, "mc!start"), None);
    assert_eq!(command_of_message(1, 2, 11, 10, "mc!start"), None);
    assert_eq!(command_of_message(1, 2, 10, 10, "start"), None);
    assert_eq!(command_of_message(1, 2, 10, 10, "mc!"), Some(FromDiscord::NoCommand));
}

#[test]
fn failures_to_receive() {
    assert_eq!(event_of_failure(ReceiveFailure::WebSocket), Some(FromDiscord::ReconnectEvent));
    assert_eq!(event_of_failure(ReceiveFailure::Closed), Some(FromDiscord::ErrorEvent));
    assert_eq!(event_of_failure(ReceiveFailure::Other), None);
}

#[test]
fn arguments_for_the_server() {
    assert_eq!(
        server_arguments("2G", "6G", "forge.jar"),
        vec![
            "-Xms2G",
            "-Xmx6G",
            "-d64",
            "-server",
            "-XX:+AggressiveOpts",
            "-XX:+UseConcMarkSweepGC",
            "-XX:+UnlockExperimentalVMOptions",
            "-XX:+UseParNewGC",
            "-XX:+ExplicitGCInvokesConcurrent",
            "-XX:+UseFastAccessorMethods",
            "-XX:+OptimizeStringConcat",
            "-XX:+UseAdaptiveGCBoundary",
            "-jar",
            "forge.jar",
            "nogui",
        ]
    );
}
