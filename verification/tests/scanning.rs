use server_maintainer::duration::Duration;
use server_maintainer::server_log::scanners::{
    scan_backup_start, scan_backup_stop, scan_lag_spike, scan_line, scan_server_start,
    scan_server_stop, scan_user_login, scan_user_logout, span, ScanError, ScannedLine,
};
use server_maintainer::server_log::{
    classify, event_of_line, interpret_line, level_of, Echo, FromServerLog, Level,
};
use server_maintainer::text::{parse_count, parse_signed, to_chars};

fn signed(text: &str) -> Option<i64> {
    let v = to_chars(text);
    parse_signed(&v, 0, v.len())
}

fn count(text: &str) -> Option<usize> {
    let v = to_chars(text);
    parse_count(&v, 0, v.len())
}

#[test]
fn signed_numbers_as_the_standard_parser_reads_them() {
    for text in [
        "0", "00", "10", "-0", "+7", "-7", "007", "9223372036854775807", "9223372036854775808",
        "-9223372036854775808", "-9223372036854775809", "", "+", "-", "--1", "+-1", "1 ", " 1",
        "1a", "a", "99999999999999999999999999999999999999999", "1.5", "\u{663}",
    ] {
        assert_eq!(signed(text), text.parse::<i64>().ok(), "{:?}", text);
    }
}

#[test]
fn counts_as_the_standard_parser_reads_them() {
    for text in [
        "0", "102", "+102", "-1", "-0", "", "+", "18446744073709551615",
        "18446744073709551616", "340282366920938463463374607431768211456", "12x", "0x10",
    ] {
        assert_eq!(count(text), text.parse::<usize>().ok(), "{:?}", text);
    }
}

#[test]
fn to_chars_keeps_every_character() {
    assert_eq!(to_chars("a\u{151}\u{1F600}z"), vec!['a', '\u{151}', '\u{1F600}', 'z']);
    assert_eq!(to_chars(""), Vec::<char>::new());
}

#[test]
fn lines_without_a_header_are_not_recognised() {
    for line in [
        "",
        "java.lang.NullPointerException",
        "\tat net.minecraft.server.MinecraftServer.run(MinecraftServer.java:1)",
        "[21:07:11]",
        "[21:07:11] [Server thread/INFO]",
        "[21:07:11] [Server thread/INFO] [minecraft/DedicatedServer]",
        "[21:07:11] [Server thread/INFO] [minecraft/DedicatedServer]:",
        "[21:07:11] [Server thread INFO] [minecraft/DedicatedServer]: x",
        "[21:07:11][Server thread/INFO] [minecraft/DedicatedServer]: x",
        " [21:07:11] [Server thread/INFO] [minecraft/DedicatedServer]: x",
    ] {
        assert_eq!(scan_line(line), Err(ScanError::Mismatch), "{:?}", line);
    }
}

#[test]
fn line_with_an_empty_message() {
    let result = scan_line("[21:07:11] [Server thread/INFO] [minecraft/DedicatedServer]: ");
    assert_eq!(
        result,
        Ok(ScannedLine {
            time_str: "21:07:11".to_string(),
            sender_thread: "Server thread".to_string(),
            level: "INFO".to_string(),
            sender_handle: "minecraft/DedicatedServer".to_string(),
            is_chat_msg: false,
            message: String::new(),
        })
    );
}

#[test]
fn chat_from_the_remote_console() {
    let result =
        scan_line("[21:31:06] [RCON Listener #1/INFO] [minecraft/DedicatedServer]: [Rcon] hello");
    let line = result.unwrap();
    assert!(line.is_chat_msg);
    assert_eq!(line.sender_handle, "Rcon");
    assert_eq!(line.sender_thread, "RCON Listener #1");
    assert_eq!(line.message, "hello");
}

#[test]
fn chat_line_that_is_cut_short_falls_back() {
    let line = scan_line("[21:07:11] [Server thread/INFO] [minecraft/DedicatedServer]: <Kistepsi")
        .unwrap();
    assert!(!line.is_chat_msg);
    assert_eq!(line.sender_handle, "minecraft/DedicatedServer");
    assert_eq!(line.message, "<Kistepsi");
    let line = scan_line("[21:07:11] [Server thread/INFO] [minecraft/DedicatedServer]: <Kistepsi>")
        .unwrap();
    assert!(!line.is_chat_msg);
    assert_eq!(line.message, "<Kistepsi>");
    let line =
        scan_line("[21:07:11] [Server thread/INFO] [minecraft/DedicatedServer]: <Kistepsi> ")
            .unwrap();
    assert!(line.is_chat_msg);
    assert_eq!(line.message, "");
}

#[test]
fn chat_with_letters_beyond_ascii() {
    let line = scan_line(
        "[21:07:11] [Server thread/INFO] [minecraft/DedicatedServer]: <\u{c1}rp\u{e1}d> j\u{f3} \u{e9}jt \u{1F600}",
    )
    .unwrap();
    assert!(line.is_chat_msg);
    assert_eq!(line.sender_handle, "\u{c1}rp\u{e1}d");
    assert_eq!(line.message, "j\u{f3} \u{e9}jt \u{1F600}");
}

#[test]
fn a_line_ends_at_its_first_line_feed() {
    let line =
        scan_line("[1] [t/WARN] [tag]: first\nsecond").unwrap();
    assert_eq!(line.message, "first");
    assert_eq!(line.time_str, "1");
    assert_eq!(line.level, "WARN");
}

#[test]
fn matcher_errors() {
    assert_eq!(scan_server_start("x", "RFTools: server is starting"), Err(ScanError::WrongSender));
    assert_eq!(scan_server_start("mcjtylib_ng", "x"), Err(ScanError::WrongMessage));
    assert_eq!(
        scan_server_stop("minecraft/DedicatedServer", "Stopping the server"),
        Ok(FromServerLog::ServerStopping)
    );
    assert_eq!(
        scan_server_stop("minecraft/DedicatedServer", "Stopping server"),
        Err(ScanError::WrongMessage)
    );
    assert_eq!(
        scan_server_stop("net.minecraft.server.MinecraftServer", "Stopping the server"),
        Err(ScanError::WrongMessage)
    );
    assert_eq!(scan_server_stop("x", "Stopping server"), Err(ScanError::WrongSender));
    assert_eq!(scan_backup_start("x", "Server Backup started!"), Err(ScanError::WrongSender));
    assert_eq!(
        scan_backup_start("minecraft/DedicatedServer", "Server backup started!"),
        Err(ScanError::WrongMessage)
    );
}

#[test]
fn backup_report_edges() {
    let sender = "minecraft/DedicatedServer";
    let zero = scan_backup_stop(sender, "Server backup done in 00:00! (0B)").unwrap();
    assert_eq!(zero.1, Duration::zero());
    assert_eq!(zero.0, FromServerLog::BackupFinished { time: Duration::seconds(0) });
    let long = scan_backup_stop(sender, "Server backup done in 12:34! (1.2GB)").unwrap();
    assert_eq!(long.1.num_seconds(), 754);
    assert_eq!(long.1, Duration::milliseconds(754_000));
    let negative = scan_backup_stop(sender, "Server backup done in 1:-30! ()").unwrap();
    assert_eq!(negative.1, Duration::seconds(30));
    assert_eq!(
        scan_backup_stop("x", "Server backup done in 00:10! (1)"),
        Err(ScanError::WrongSender)
    );
    assert_eq!(scan_backup_stop(sender, "Server Backup started!"), Err(ScanError::Mismatch));
    assert_eq!(scan_backup_stop(sender, "Server backup done in a:10! (1)"), Err(ScanError::Parse));
    assert_eq!(scan_backup_stop(sender, "Server backup done in 00:! (1)"), Err(ScanError::Parse));
    assert_eq!(scan_backup_stop(sender, "Server backup done in 0010! (1)"), Err(ScanError::Parse));
    assert_eq!(scan_backup_stop(sender, "Server backup done in 00:10!(1)"), Err(ScanError::Mismatch));
    assert_eq!(scan_backup_stop(sender, "Server backup done in 00:10! (1"), Err(ScanError::Mismatch));
    assert_eq!(
        scan_backup_stop(sender, "Server backup done in 00:10! (1) and more"),
        Err(ScanError::Mismatch)
    );
    assert_eq!(
        scan_backup_stop(sender, "Server backup done in 9223372036854775807:00! (1)"),
        Err(ScanError::OutOfRange)
    );
    assert_eq!(
        scan_backup_stop(sender, "Server backup done in 0:9223372036854775807! (1)"),
        Err(ScanError::OutOfRange)
    );
}

#[test]
fn lag_spike_edges() {
    let sender = "minecraft/MinecraftServer";
    let head = "Can't keep up! Did the system time change, or is the server overloaded? Running ";
    assert_eq!(
        scan_lag_spike("x", &format!("{}1ms behind, skipping 1 tick(s)", head)),
        Err(ScanError::WrongSender)
    );
    assert_eq!(scan_lag_spike(sender, "Can't keep up!"), Err(ScanError::Mismatch));
    assert_eq!(
        scan_lag_spike(sender, &format!("{}xms behind, skipping 1 tick(s)", head)),
        Err(ScanError::Parse)
    );
    assert_eq!(
        scan_lag_spike(sender, &format!("{}1ms ahead, skipping 1 tick(s)", head)),
        Err(ScanError::Mismatch)
    );
    assert_eq!(
        scan_lag_spike(sender, &format!("{}1ms behind, skipping -1 tick(s)", head)),
        Err(ScanError::Parse)
    );
    assert_eq!(
        scan_lag_spike(sender, &format!("{}1ms behind, skipping 1 ticks", head)),
        Err(ScanError::Mismatch)
    );
    assert_eq!(
        scan_lag_spike(
            sender,
            &format!("{}-9223372036854775808ms behind, skipping 1 tick(s)", head)
        ),
        Err(ScanError::OutOfRange)
    );
    let back = scan_lag_spike(sender, &format!("{}-5ms behind, skipping 0 tick(s)", head)).unwrap();
    assert_eq!(back.0, FromServerLog::LagSpike { length: Duration::milliseconds(-5), ticks: 0 });
}

#[test]
fn names_of_players() {
    let sender = "minecraft/DedicatedServer";
    assert_eq!(scan_user_login("x", "a joined the game"), Err(ScanError::WrongSender));
    assert_eq!(scan_user_login(sender, "a left the game"), Err(ScanError::Mismatch));
    assert_eq!(scan_user_login(sender, "joined"), Err(ScanError::Mismatch));
    assert_eq!(scan_user_login(sender, "a b joined the game"), Err(ScanError::Mismatch));
    assert_eq!(scan_user_login(sender, "a joined the game!"), Err(ScanError::Mismatch));
    assert_eq!(
        scan_user_login(sender, " joined the game"),
        Ok((FromServerLog::UserLogin { name: String::new() }, String::new()))
    );
    assert_eq!(scan_user_logout(sender, "a joined the game"), Err(ScanError::Mismatch));
    assert_eq!(scan_user_logout("x", "a left the game"), Err(ScanError::WrongSender));
}

#[test]
fn spans_of_minutes_and_seconds() {
    assert_eq!(span(0, 10), Some(Duration::seconds(10)));
    assert_eq!(span(2, 3), Some(Duration::milliseconds(123_000)));
    assert_eq!(span(-1, 60), Some(Duration::zero()));
    assert_eq!(span(i64::MAX, 0), None);
    assert_eq!(span(0, i64::MIN), None);
    assert_eq!(span(153_722_867_280_912, 55), Some(Duration::seconds(9_223_372_036_854_775)));
    assert_eq!(span(153_722_867_280_912, 56), None);
    assert_eq!(span(153_722_867_280_913, 0), None);
}

#[test]
fn durations_agree_with_chrono() {
    for s in [0i64, 1, -1, 10, 754, 9_223_372_036_854_775, -9_223_372_036_854_775] {
        let ours = Duration::seconds(s);
        let theirs = chrono::Duration::seconds(s);
        assert_eq!(ours.num_milliseconds(), theirs.num_milliseconds());
        assert_eq!(ours.num_seconds(), theirs.num_seconds());
    }
    for m in [0i64, 1, -1, 59, 153_722_867_280_912, -153_722_867_280_912] {
        assert_eq!(
            Duration::minutes(m).num_milliseconds(),
            chrono::Duration::minutes(m).num_milliseconds()
        );
    }
    for ms in [0i64, 999, 1000, 1001, -999, -1000, -1001, i64::MAX, -i64::MAX] {
        let ours = Duration::milliseconds(ms);
        let theirs = chrono::Duration::milliseconds(ms);
        assert_eq!(ours.num_milliseconds(), theirs.num_milliseconds());
        assert_eq!(ours.num_seconds(), theirs.num_seconds());
    }
    assert_eq!(Duration::try_milliseconds(i64::MIN), None);
    assert!(chrono::Duration::try_milliseconds(i64::MIN).is_none());
    assert_eq!(Duration::try_seconds(9_223_372_036_854_776), None);
    assert!(chrono::Duration::try_seconds(9_223_372_036_854_776).is_none());
    assert_eq!(Duration::try_minutes(153_722_867_280_913), None);
    assert!(chrono::Duration::try_minutes(153_722_867_280_913).is_none());
    assert_eq!(
        Duration::milliseconds(i64::MAX).checked_add(Duration::milliseconds(1)),
        None
    );
    assert_eq!(
        Duration::milliseconds(5).checked_add(Duration::milliseconds(-7)),
        Some(Duration::milliseconds(-2))
    );
}

#[test]
fn level_tokens() {
    assert_eq!(level_of("INFO"), Level::Info);
    assert_eq!(level_of("WARN"), Level::Warn);
    assert_eq!(level_of("ERROR"), Level::Error);
    assert_eq!(level_of("FATAL"), Level::Error);
    assert_eq!(level_of("DEBUG"), Level::Debug);
    assert_eq!(level_of("TRACE"), Level::Trace);
    assert_eq!(level_of("info"), Level::Trace);
    assert_eq!(level_of(""), Level::Trace);
}

fn log_line(level: &str, tag: &str, message: &str) -> String {
    format!("[21:07:11] [Server thread/{}] [{}]: {}", level, tag, message)
}

#[test]
fn events_of_lines() {
    assert_eq!(
        event_of_line("[21:07:11] [Server thread/INFO] [minecraft/DedicatedServer]: <Kistepsi> nem"),
        Some(FromServerLog::ChatMessage { name: "Kistepsi".to_string(), message: "nem".to_string() })
    );
    assert_eq!(
        event_of_line(&log_line("INFO", "mcjtylib_ng", "RFTools: server is starting")),
        Some(FromServerLog::ServerStarted)
    );
    assert_eq!(
        event_of_line(&log_line("INFO", "minecraft/DedicatedServer", "Stopping the server")),
        Some(FromServerLog::ServerStopping)
    );
    assert_eq!(
        event_of_line(&log_line("INFO", "net.minecraft.server.MinecraftServer", "Stopping server")),
        Some(FromServerLog::ServerStopping)
    );
    assert_eq!(
        event_of_line(&log_line(
            "WARN",
            "minecraft/MinecraftServer",
            "Can't keep up! Did the system time change, or is the server overloaded? Running 5125ms behind, skipping 102 tick(s)"
        )),
        Some(FromServerLog::LagSpike { length: Duration::milliseconds(5125), ticks: 102 })
    );
    assert_eq!(
        event_of_line(&log_line("INFO", "minecraft/DedicatedServer", "Server Backup started!")),
        Some(FromServerLog::BackupStarted)
    );
    assert_eq!(
        event_of_line(&log_line(
            "INFO",
            "minecraft/DedicatedServer",
            "Server backup done in 00:10! (202.8MB | 1.2GB)"
        )),
        Some(FromServerLog::BackupFinished { time: Duration::seconds(10) })
    );
    assert_eq!(
        event_of_line(&log_line("INFO", "minecraft/DedicatedServer", "Davidminer_MC joined the game")),
        Some(FromServerLog::UserLogin { name: "Davidminer_MC".to_string() })
    );
    assert_eq!(
        event_of_line(&log_line("INFO", "minecraft/DedicatedServer", "Kistepsi left the game")),
        Some(FromServerLog::UserLogout { name: "Kistepsi".to_string() })
    );
    assert_eq!(
        event_of_line(&log_line("ERROR", "FML", "something broke")),
        Some(FromServerLog::ServerError {
            exception: "something broke".to_string(),
            sender: "FML".to_string()
        })
    );
    assert_eq!(
        event_of_line(&log_line("FATAL", "FML", "something broke")),
        Some(FromServerLog::ServerError {
            exception: "something broke".to_string(),
            sender: "FML".to_string()
        })
    );
    assert_eq!(event_of_line(&log_line("WARN", "FML", "something odd")), None);
    assert_eq!(event_of_line(&log_line("INFO", "FML", "szmarci07iq fell from a high place")), None);
    assert_eq!(event_of_line("java.lang.NullPointerException"), None);
}

#[test]
fn chat_wins_over_the_matchers() {
    let line = ScannedLine {
        time_str: String::new(),
        sender_thread: String::new(),
        level: "ERROR".to_string(),
        sender_handle: "mcjtylib_ng".to_string(),
        is_chat_msg: true,
        message: "RFTools: server is starting".to_string(),
    };
    assert_eq!(
        classify(&line),
        Some(FromServerLog::ChatMessage {
            name: "mcjtylib_ng".to_string(),
            message: "RFTools: server is starting".to_string()
        })
    );
}

#[test]
fn what_is_written_for_a_line() {
    let trace = "\tat java.lang.Thread.run(Thread.java:748)";
    assert_eq!(interpret_line(trace, true).echo, Echo::RawTrace);
    assert_eq!(interpret_line(trace, false).echo, Echo::Skipped);
    assert_eq!(interpret_line(trace, true).event, None);

    let plain = log_line("INFO", "FML", "loading");
    assert_eq!(interpret_line(&plain, false).echo, Echo::Plain { level: Level::Info, entries: 0 });
    assert_eq!(interpret_line(&plain, true).echo, Echo::Plain { level: Level::Info, entries: 1 });
    let warn = log_line("WARN", "FML", "odd");
    assert_eq!(interpret_line(&warn, false).echo, Echo::Plain { level: Level::Warn, entries: 1 });
    assert_eq!(interpret_line(&warn, true).echo, Echo::Plain { level: Level::Warn, entries: 2 });
    let error = log_line("ERROR", "FML", "broke");
    let report = interpret_line(&error, true);
    assert_eq!(report.echo, Echo::Plain { level: Level::Error, entries: 2 });
    assert_eq!(
        report.event,
        Some(FromServerLog::ServerError { exception: "broke".to_string(), sender: "FML".to_string() })
    );
    let joined = log_line("INFO", "minecraft/DedicatedServer", "a joined the game");
    assert_eq!(interpret_line(&joined, true).echo, Echo::Event);
}

#[test]
fn scan_errors_in_words() {
    assert_eq!(ScanError::WrongSender.message(), "Not the right username");
    assert_eq!(ScanError::WrongMessage.message(), "Not the right message");
    assert_eq!(ScanError::Mismatch.message(), "The text does not match the pattern");
    assert_eq!(ScanError::Parse.message(), "A number could not be read");
    assert_eq!(ScanError::OutOfRange.message(), "The duration is out of range");
}
