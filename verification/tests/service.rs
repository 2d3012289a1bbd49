use opencode_pty::error::Error;
use opencode_pty::ghostty::{Effects, Format};
use opencode_pty::protocol::AttachmentRole;
use opencode_pty::service::actor::ActorMessage;
use opencode_pty::service::inbox::{Fetch, Inbox};
use opencode_pty::service::model::{child_environment, initial_info};
use opencode_pty::service::process::{
    foreground_process, group_pids, parse_stat, parents_of, process_depth, process_info,
    ProcessInfo,
};
use opencode_pty::service::registry::{default_shell, validate_size, ID_LIMIT};
use opencode_pty::service::rows::{
    format_terminal, make_checkpoint, make_snapshot, row_count, RowReader, RowStep, MAX_ROWS_BYTES,
};
use opencode_pty::service::worker::{
    queue_write, read_step, CloseRequest, QueueOutcome, ReadOutcome, Reader, ReaderStep, WaitStep,
    Waiter,
};
use opencode_pty::service::{
    CreateTerminal, ReplayBuffer, TerminalLifecycle, TerminalService,
};
use std::collections::HashMap;
use std::path::PathBuf;

fn request() -> CreateTerminal {
    CreateTerminal {
        program: "/bin/sh".to_string(),
        args: vec!["-c".to_string(), "true".to_string()],
        cwd: PathBuf::from("/"),
        title: "test".to_string(),
        group_id: "group".to_string(),
        env: HashMap::new(),
        cols: 80,
        rows: 24,
    }
}

#[test]
fn replay_reports_truncation_and_offsets() {
    let mut replay = ReplayBuffer::new(5);
    replay.append(b"abc");
    replay.append(b"defg");
    assert_eq!(replay.head, 2);
    assert_eq!(replay.tail, 7);

    let value = replay.read_from(0).unwrap();
    assert!(value.truncated);
    assert_eq!(value.available_offset, 2);
    assert_eq!(value.bytes, b"cdefg");

    let value = replay.read_from(5).unwrap();
    assert!(!value.truncated);
    assert_eq!(value.bytes, b"fg");
}

#[test]
fn replay_without_capacity_keeps_only_the_offsets() {
    let mut replay = ReplayBuffer::new(0);
    assert_eq!(replay.append(b"abc"), (0, 3));
    assert_eq!(replay.append(b""), (3, 3));
    let value = replay.read_from(0).unwrap();
    assert!(value.truncated && value.bytes.is_empty());
    assert_eq!((value.available_offset, value.end_offset), (3, 3));
    assert_eq!(
        replay.read_from(4).unwrap_err().message(),
        "requested offset 4 is beyond tail 3"
    );
}

#[test]
fn output_is_batched_without_reordering_other_messages() {
    let mut inbox = Inbox::new();
    assert!(matches!(inbox.want(false), Fetch::Wait));
    assert!(matches!(
        inbox.receive(Some(ActorMessage::Output(b"abc".to_vec()))),
        Fetch::WaitBriefly
    ));
    assert!(matches!(
        inbox.gather(Some(ActorMessage::Output(b"def".to_vec()))),
        Fetch::WaitBriefly
    ));
    assert!(matches!(
        inbox.gather(Some(ActorMessage::ReaderEof)),
        Fetch::Take(ActorMessage::Output(bytes)) if bytes == b"abcdef"
    ));
    assert!(matches!(inbox.want(false), Fetch::Take(ActorMessage::ReaderEof)));
    assert!(matches!(inbox.want(false), Fetch::Wait));
}

#[test]
fn batches_end_when_full_late_or_stopped() {
    let mut inbox = Inbox::new();
    assert!(matches!(
        inbox.receive(Some(ActorMessage::Output(vec![1; 8192]))),
        Fetch::Take(ActorMessage::Output(bytes)) if bytes.len() == 8192
    ));
    assert!(matches!(
        inbox.receive(Some(ActorMessage::Output(vec![1; 8191]))),
        Fetch::WaitBriefly
    ));
    assert!(matches!(
        inbox.gather(Some(ActorMessage::Output(vec![2; 2]))),
        Fetch::Take(ActorMessage::Output(bytes)) if bytes.len() == 8193
    ));
    assert!(matches!(
        inbox.receive(Some(ActorMessage::Output(vec![1; 3]))),
        Fetch::WaitBriefly
    ));
    assert!(matches!(
        inbox.gather(None),
        Fetch::Take(ActorMessage::Output(bytes)) if bytes == [1, 1, 1]
    ));
    assert!(matches!(inbox.want(true), Fetch::Disconnected));
    assert!(matches!(inbox.receive(None), Fetch::Disconnected));
}

/// Reads rows the way an emulator that holds them would give them.
fn format_rows(screen: &[&str], visible: u16, rows: Option<u16>) -> Result<Vec<String>, String> {
    let rows = row_count(rows, visible).map_err(|e| e.message())?;
    let mut reader = RowReader::new(rows, screen.len()).map_err(|e| e.message())?;
    loop {
        match reader.next().map_err(|e| e.message())? {
            RowStep::Done => return Ok(reader.lines),
            RowStep::Read { y, room } => {
                let row = screen[y as usize].as_bytes();
                let row = if row.len() > room { Err(Error::OutOfSpace) } else { Ok(row.to_vec()) };
                reader.take(row).map_err(|e| e.message())?;
            }
        }
    }
}

#[test]
fn rows_include_live_height_and_preserve_blank_rows() {
    let screen = ["", "", "", "", ""];
    assert_eq!(format_rows(&screen, 5, None).unwrap(), ["", "", "", "", ""]);
    let screen = ["one", "", "  three", "", ""];
    assert_eq!(format_rows(&screen, 5, None).unwrap(), ["one", "", "  three", "", ""]);
    assert_eq!(format_rows(&screen, 5, Some(2)).unwrap(), ["", ""]);
    assert_eq!(
        format_rows(&screen, 5, Some(u16::MAX)).unwrap(),
        ["one", "", "  three", "", ""]
    );
}

#[test]
fn rows_include_history_only_when_requested() {
    let screen = ["one", "two", "three", "four", "five"];
    assert_eq!(format_rows(&screen, 3, None).unwrap(), ["three", "four", "five"]);
    assert_eq!(format_rows(&screen, 3, Some(2)).unwrap(), ["four", "five"]);
    assert_eq!(format_rows(&screen, 3, Some(4)).unwrap(), ["two", "three", "four", "five"]);
    assert_eq!(
        format_rows(&screen, 3, Some(u16::MAX)).unwrap(),
        ["one", "two", "three", "four", "five"]
    );
}

#[test]
fn rows_keep_physical_wraps_and_unicode_graphemes() {
    let screen = ["abcd", "efgh", "ij"];
    assert_eq!(format_rows(&screen, 3, None).unwrap(), ["abcd", "efgh", "ij"]);
    assert_eq!(format_rows(&screen, 3, Some(2)).unwrap(), ["efgh", "ij"]);
    let screen = ["a\u{301}\u{754c}b", "c", ""];
    assert_eq!(format_rows(&screen, 3, None).unwrap(), ["a\u{301}\u{754c}b", "c", ""]);
}

#[test]
fn rows_reject_zero_and_bound_escaped_payload_by_bytes() {
    let screen = ["", "", ""];
    assert!(format_rows(&screen, 3, Some(0)).unwrap_err().contains("positive"));
    for (character, rows) in [("x", 1100), ("\"", 600)] {
        let line = character.repeat(1000);
        let screen = vec![line.as_str(); rows];
        assert!(format_rows(&screen, rows as u16, None).unwrap_err().contains("byte limit"));
        assert_eq!(
            format_rows(&screen, rows as u16, Some(1)).unwrap(),
            [character.repeat(1000)]
        );
    }
    let screen = vec![""; usize::from(u16::MAX)];
    assert!(format_rows(&screen, u16::MAX, None).unwrap_err().contains("byte limit"));
    assert_eq!(format_rows(&screen, u16::MAX, Some(1)).unwrap(), [""]);
}

#[test]
fn rows_are_charged_as_json_strings() {
    let mut reader = RowReader::new(2, 2).unwrap_or_else(|e| panic!("{}", e.message()));
    let base = 2 + 2 * (std::mem::size_of::<String>() + 1);
    assert_eq!(reader.bytes, base);
    let row = "a\"\\\n\u{1}\u{7f}é";
    reader.take(Ok(row.as_bytes().to_vec())).unwrap();
    assert_eq!(reader.bytes, base + serde_json::to_vec(row).unwrap().len());
    let before = reader.bytes;
    assert!(reader.take(Ok(vec![0xff])).unwrap_err().message().contains("invalid utf-8"));
    assert_eq!(
        reader.take(Err(Error::OutOfSpace)).unwrap_err().message(),
        "rows exceed 1048576 byte limit or formatting failed: Ghostty output buffer is too small"
    );
    assert_eq!(
        reader.take(Ok(vec![b'x'; MAX_ROWS_BYTES])).unwrap_err().message(),
        "rows exceed 1048576 byte limit"
    );
    assert_eq!(reader.bytes, before);
    assert_eq!(reader.lines, [row]);
}

#[test]
fn rows_beyond_the_emulators_reach_are_refused() {
    let Ok(reader) = RowReader::new(1, u32::MAX as usize + 2) else {
        panic!("reader");
    };
    let Err(e) = reader.next() else {
        panic!("refused");
    };
    assert!(e.message().starts_with("terminal row index exceeds u32"));
}

#[test]
fn checkpoints_end_with_the_way_of_the_cursor() {
    assert_eq!(format_terminal(b"text", Format::Vt, 4, 2), "text\x1b[3;5H");
    assert_eq!(format_terminal(b"text", Format::Plain, 4, 2), "text");
    assert_eq!(format_terminal(&[b'a', 0xff], Format::Plain, 0, 0), "a\u{fffd}");
    assert_eq!(make_checkpoint(Ok(b"x".to_vec()), Ok(0), Ok(0)).unwrap(), b"x\x1b[1;1H");
    let Ok(screen) = make_snapshot(Ok(b"p".to_vec()), Ok(b"v".to_vec()), Ok(1), Ok(2)) else {
        panic!("screen");
    };
    assert_eq!(screen.text, "p");
    assert_eq!(screen.checkpoint, b"v\x1b[3;2H");
    assert_eq!((screen.cursor_x, screen.cursor_y), (1, 2));
    let Err(e) = make_snapshot(Err(Error::NoValue), Err(Error::OutOfMemory), Ok(1), Ok(2)) else {
        panic!("refused");
    };
    assert!(matches!(e, Error::NoValue));
    let e = make_checkpoint(Ok(Vec::new()), Err(Error::NoValue), Err(Error::OutOfMemory));
    assert!(matches!(e, Err(Error::OutOfMemory)));
}

#[test]
fn forwarding_replies_drains_once_and_reports_writer_failure() {
    let mut effects = Effects::new();
    effects.write_pty(b"\x1b[0n");
    effects.write_pty(b"\x1b[1;1R");
    let mut queued = Vec::new();
    for bytes in effects.take_writes() {
        queue_write(QueueOutcome::Queued).unwrap();
        queued.push(bytes);
    }
    assert_eq!(queued, [b"\x1b[0n".to_vec(), b"\x1b[1;1R".to_vec()]);
    assert!(effects.take_writes().is_empty());

    effects.write_pty(b"\x1b[0n");
    for _ in effects.take_writes() {
        assert_eq!(
            queue_write(QueueOutcome::Closed).unwrap_err().message(),
            "terminal writer stopped"
        );
    }
    assert!(effects.take_writes().is_empty());
    assert_eq!(
        queue_write(QueueOutcome::Stopping).unwrap_err().message(),
        "terminal is stopping"
    );
}

#[test]
fn readers_pass_on_output_its_end_and_failures() {
    assert!(matches!(
        read_step(ReadOutcome::Bytes(b"x".to_vec())),
        ReaderStep::Pass { message: ActorMessage::Output(bytes), last: false } if bytes == b"x"
    ));
    assert!(matches!(
        read_step(ReadOutcome::Bytes(Vec::new())),
        ReaderStep::Pass { message: ActorMessage::ReaderEof, last: true }
    ));
    assert!(matches!(
        read_step(ReadOutcome::HungUp),
        ReaderStep::Pass { message: ActorMessage::ReaderEof, last: true }
    ));
    assert!(matches!(read_step(ReadOutcome::Interrupted), ReaderStep::Retry));
    assert!(matches!(
        read_step(ReadOutcome::Failed("why".to_string())),
        ReaderStep::Pass { message: ActorMessage::ReaderFailed(text), last: true } if text == "why"
    ));
}

#[test]
fn readers_end_or_drain_when_nobody_listens() {
    let mut unix = Reader::new();
    assert!(unix.sends(false));
    assert!(!unix.sent(false, true, true));
    assert!(unix.sent(false, false, true));
    let mut windows = Reader::new();
    assert!(!windows.sent(false, false, false));
    assert!(!windows.sends(false));
    assert!(!windows.sent(false, false, false));
    assert!(windows.sends(true));
    assert!(windows.sent(true, true, false));
}

#[test]
fn waiters_report_a_child_once() {
    let mut waiter = Waiter::new();
    assert!(!waiter.look(false));
    assert_eq!(waiter.requested(CloseRequest::Timeout), WaitStep::Again);
    assert!(waiter.look(true));
    assert!(!waiter.look(true));
    assert_eq!(waiter.requested(CloseRequest::Master), WaitStep::Close);
    let mut waiter = Waiter::new();
    assert_eq!(waiter.requested(CloseRequest::Master), WaitStep::KillCloseReport);
    let mut waiter = Waiter::new();
    assert_eq!(waiter.requested(CloseRequest::Disconnected), WaitStep::Report);
    assert_eq!(waiter.requested(CloseRequest::Disconnected), WaitStep::Done);
}

fn process(pid: i32, ppid: i32, pgrp: i32, name: &str) -> ProcessInfo {
    process_info(pid, ppid, pgrp, name)
}

#[test]
fn foreground_process_tracks_deepest_tty_attached_job() {
    let processes = vec![
        process(10, 1, 10, "sh\n"),
        process(20, 10, 30, "tail\n"),
        process(30, 10, 30, "sleep\n"),
        process(40, 30, 30, "helper\n"),
    ];
    assert_eq!(group_pids(&processes, 30), [20, 30, 40]);
    let found = |attached: Option<Vec<i32>>| foreground_process(&processes, 30, &attached);
    assert_eq!(found(None).as_deref(), Some("helper"));
    assert_eq!(found(Some(vec![20, 30])).as_deref(), Some("sleep"));
    assert_eq!(found(Some(vec![20])).as_deref(), Some("tail"));
    assert_eq!(found(Some(Vec::new())).as_deref(), Some("helper"));
    assert_eq!(found(Some(vec![10])).as_deref(), Some("helper"));
    assert_eq!(foreground_process(&processes, 99, &None), None);
}

#[test]
fn depths_count_different_ancestors() {
    let processes =
        vec![process(2, 1, 0, "a"), process(3, 2, 0, "b"), process(5, 6, 0, "c"), process(6, 5, 0, "d")];
    let parents = parents_of(&processes);
    assert_eq!(process_depth(3, &parents), 3);
    assert_eq!(process_depth(2, &parents), 2);
    assert_eq!(process_depth(1, &parents), 1);
    assert_eq!(process_depth(5, &parents), 2);
    assert_eq!(process_depth(0, &parents), 0);
    assert_eq!(process_depth(-1, &parents), 0);
}

#[test]
fn status_lines_are_read_behind_the_last_bracket() {
    assert_eq!(parse_stat("7 (sleep) S 3 9 9 0"), Some((3, 9)));
    assert_eq!(parse_stat("7 (a) b) c) S -3 9"), Some((-3, 9)));
    assert_eq!(parse_stat("7 (sleep) S 3"), None);
    assert_eq!(parse_stat("7 (sleep)S 3 9"), None);
    assert_eq!(parse_stat("7 (sleep) S x 9"), None);
    assert_eq!(parse_stat(""), None);
}

#[test]
fn terminals_are_kept_apart_by_their_numbers() {
    let mut service: TerminalService<&str> = TerminalService::new(64 * 1024);
    assert!(service.list().is_empty());
    service.insert(9, "alpha");
    service.insert(4, "beta");
    assert_eq!(service.list(), [4, 9]);
    assert_eq!(service.terminate(9).unwrap(), "alpha");
    assert_eq!(service.terminate(9).unwrap_err().message(), "terminal 9 not found");
    assert_eq!(service.list(), [4]);
    service.insert(7, "gamma");
    assert!(matches!(service.get(7), Ok(&"gamma")));
    assert_eq!(service.shutdown(), ["beta", "gamma"]);
    assert_eq!(service.replay_capacity, 64 * 1024);
    assert!(service.list().is_empty());
}

#[test]
fn numbers_of_terminals_are_exact_in_json_and_fresh() {
    let mut service: TerminalService<()> = TerminalService::default();
    assert_eq!(service.replay_capacity, 2 * 1024 * 1024);
    assert_eq!(service.create_with(&request(), ID_LIMIT).unwrap(), None);
    assert_eq!(service.create_with(&request(), ID_LIMIT + 5).unwrap(), Some(5));
    assert_eq!(service.create_with(&request(), u64::MAX).unwrap(), Some(ID_LIMIT - 1));
    service.insert(5, ());
    assert_eq!(service.create_with(&request(), 5).unwrap(), None);
    let mut bad = request();
    bad.cols = 0;
    assert!(service.create_with(&bad, 6).is_err() && service.create(&bad).is_err());
    let mut drawn = Vec::new();
    for _ in 0..8 {
        let id = service.create(&request()).unwrap().unwrap();
        assert!(0 < id && id < ID_LIMIT);
        drawn.push(id);
    }
    drawn.dedup();
    assert!(drawn.len() > 1);
}

#[test]
fn requests_are_checked_before_they_reach_a_terminal() {
    let mut service: TerminalService<u8> = TerminalService::default();
    service.insert(3, 1);
    let words = |result: Result<(&u8, ActorMessage), Error>| match result {
        Ok(_) => panic!("accepted"),
        Err(e) => e.message(),
    };
    assert_eq!(words(service.write(3, vec![0; 1_048_577])), "input exceeds 1048576 byte limit");
    assert!(service.write(3, vec![0; 1_048_576]).is_ok());
    assert_eq!(words(service.write(4, Vec::new())), "terminal 4 not found");
    assert_eq!(words(service.resize(4, 0, 1)), "terminal dimensions must be positive");
    assert_eq!(words(service.resize(4, 1, 1)), "terminal 4 not found");
    let id = || "a".to_string();
    assert_eq!(words(service.control(3, id(), 1, 0)), "terminal dimensions must be positive");
    assert_eq!(
        words(service.input(3, id(), 1, 1, vec![0; 1_048_577])),
        "input exceeds 1048576 byte limit"
    );
    assert_eq!(words(service.snapshot(4)), "terminal 4 not found");
    assert_eq!(words(service.read_rows(4, None)), "terminal 4 not found");
    assert_eq!(words(service.replay(4, 0)), "terminal 4 not found");
    assert!(service.attach(4, 0, id(), AttachmentRole::Observer, false).is_err());
    let Ok((handle, message)) = service.input(3, id(), 8, 9, vec![7]) else {
        panic!("accepted");
    };
    assert_eq!(*handle, 1);
    assert!(matches!(
        message,
        ActorMessage::Control { attachment_id, cols: 8, rows: 9, bytes: Some(bytes) }
            if attachment_id == "a" && bytes == [7]
    ));
}

#[test]
fn terminals_are_checked_before_they_are_made() {
    assert!(request().validate().is_ok());
    let mut bad = request();
    bad.program = " \t".to_string();
    assert_eq!(bad.validate().unwrap_err().message(), "terminal program cannot be empty");
    bad.rows = 0;
    assert_eq!(bad.validate().unwrap_err().message(), "terminal dimensions must be positive");
    assert!(validate_size(1, 1).is_ok());
    assert!(validate_size(0, 1).is_err());
}

#[test]
fn new_terminals_run_their_command() {
    let info = initial_info(5, Some(77), request());
    assert_eq!(info.command, ["/bin/sh", "-c", "true"]);
    assert_eq!((info.id, info.pid, info.cols, info.rows), (5, Some(77), 80, 24));
    assert_eq!(info.lifecycle, TerminalLifecycle::Running);
    assert_eq!((info.output_head, info.output_tail), (0, 0));
    let env = child_environment(vec![("TERM".to_string(), "dumb".to_string())]);
    assert_eq!(env[1], ("TERM".to_string(), "xterm-256color".to_string()));
    assert_eq!(env[2], ("COLORTERM".to_string(), "truecolor".to_string()));
    assert_eq!(env.len(), 3);
}

#[test]
fn shells_have_names_and_groups() {
    assert_eq!(default_shell(Some("/bin/zsh".to_string()), true), "/bin/zsh");
    assert_eq!(default_shell(None, true), "cmd.exe");
    assert_eq!(default_shell(None, false), "/bin/sh");
    let shell = CreateTerminal::shell(
        "/bin/zsh".to_string(),
        Some("zsh".to_string()),
        PathBuf::from("/tmp"),
        "/tmp",
    );
    assert_eq!((shell.title.as_str(), shell.group_id.as_str()), ("zsh", "local:/tmp"));
    assert_eq!((shell.cols, shell.rows), (100, 30));
    assert!(shell.args.is_empty() && shell.env.is_empty());
    let nameless = CreateTerminal::shell("/".to_string(), None, PathBuf::new(), "");
    assert_eq!(nameless.title, "shell");
}
