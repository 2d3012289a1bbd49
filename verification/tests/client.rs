use opencode_pty::client::command::{
    first_terminal, is_state_report, loses_active, optional_id, parse_id, parse_line,
    require_active, run_cli, CliCommand, PlayCommand,
};
use opencode_pty::client::{
    start_step, stop_step, watch_id, watch_id_with, watch_step, ClientError, StartStep, StopStep,
    TerminalClient, WatchStep,
};
use opencode_pty::daemon::server::{dispatch, respond, Call, Outcome};
use opencode_pty::daemon::Registration;
use opencode_pty::error::Error;
use opencode_pty::protocol::{AttachmentRole, Request, Response, SubscriptionEvent};
use opencode_pty::service::{
    CreateTerminal, RawReplay, TerminalInfo, TerminalLifecycle, TerminalSnapshot,
};
use std::collections::HashMap;
use std::path::PathBuf;

fn registration() -> Registration {
    Registration {
        instance_id: "instance".to_string(),
        pid: 42,
        protocol: 7,
        socket: PathBuf::from("/tmp/socket"),
        token: "token".to_string(),
    }
}

fn client() -> TerminalClient {
    TerminalClient { registration: registration() }
}

fn info(id: u64) -> TerminalInfo {
    TerminalInfo {
        id,
        pid: Some(9),
        title: "title".to_string(),
        foreground_process: None,
        group_id: "group".to_string(),
        command: vec!["sh".to_string()],
        cwd: PathBuf::from("/"),
        cols: 80,
        rows: 24,
        lifecycle: TerminalLifecycle::Running,
        output_head: 0,
        output_tail: 5,
    }
}

fn words(error: ClientError) -> String {
    match error {
        ClientError::Error(e) => e.message(),
        ClientError::Unexpected(response) => format!("unexpected {response:?}"),
    }
}

fn play(line: &str, active: Option<u64>) -> PlayCommand {
    parse_line(line, active).unwrap_or_else(|e| panic!("{}", e.message()))
}

fn refusal(line: &str, active: Option<u64>) -> String {
    match parse_line(line, active) {
        Ok(_) => panic!("accepted"),
        Err(e) => e.message(),
    }
}

fn cli(args: &[&str]) -> Result<CliCommand, String> {
    let args: Vec<String> = args.iter().map(|arg| arg.to_string()).collect();
    run_cli(&args).map_err(|e| e.message())
}

#[test]
fn daemons_are_discovered_and_confirmed() {
    let mut other = registration();
    other.protocol = 6;
    let Err(e) = TerminalClient::discover(other) else {
        panic!("refused");
    };
    assert_eq!(e.message(), "opencode-pty protocol mismatch: service=6, client=7");
    let Ok(client) = TerminalClient::discover(registration()) else {
        panic!("discovered");
    };
    assert!(matches!(client.ping().request, Request::Ping));
    let pong = |id: &str, pid, protocol| Response::Pong {
        instance_id: id.to_string(),
        pid,
        protocol,
    };
    assert!(client.confirm(pong("instance", 42, 7)).is_ok());
    for response in
        [pong("other", 42, 7), pong("instance", 41, 7), pong("instance", 42, 6), Response::Done]
    {
        assert_eq!(
            client.confirm(response).unwrap_err().message(),
            "opencode-pty registration did not match the running service"
        );
    }
    let refused = Response::Error { message: "authentication failed".to_string() };
    assert_eq!(client.confirm(refused).unwrap_err().message(), "authentication failed");
}

#[test]
fn started_daemons_are_waited_for() {
    assert!(matches!(start_step(false, None, None, 42), StartStep::Sleep));
    assert!(matches!(start_step(false, None, Some(registration()), 41), StartStep::Sleep));
    assert!(matches!(
        start_step(false, None, Some(registration()), 42),
        StartStep::Connect(found) if found.pid == 42
    ));
    assert!(matches!(
        start_step(true, None, Some(registration()), 42),
        StartStep::GiveUp(e) if e.message() == "opencode-pty did not become ready"
    ));
    assert!(matches!(
        start_step(false, Some("exit status: 1".to_string()), Some(registration()), 42),
        StartStep::GiveUp(e) if e.message()
            == "opencode-pty daemon exited before ownership acquisition: exit status: 1"
    ));
    let own = client().own();
    assert_eq!(own.token, "token");
    assert!(matches!(
        own.request,
        Request::Own { instance_id, ticket: None } if instance_id == "instance"
    ));
    assert!(TerminalClient::owned(Response::Owned).is_ok());
    assert!(matches!(
        TerminalClient::owned(Response::Error { message: "x".to_string() }),
        Err(ClientError::Unexpected(_))
    ));
}

#[test]
fn stopped_daemons_are_waited_for() {
    assert_eq!(stop_step(false, true), StopStep::Sleep);
    assert_eq!(stop_step(false, false), StopStep::Stopped);
    assert_eq!(stop_step(true, true), StopStep::GiveUp);
    assert_eq!(stop_step(true, false), StopStep::GiveUp);
}

#[test]
fn input_arrives_at_the_daemon() {
    let data = vec![0, 10, 255, 128];
    let envelope = client().write_for(3, Some("a".to_string()), data.clone());
    assert!(matches!(
        &envelope.request,
        Request::Write { data_base64, .. } if data_base64 == "AAr/gA=="
    ));
    let Ok(Call::Write { id: 3, attachment_id, bytes }) =
        dispatch(envelope.request, &registration())
    else {
        panic!("write");
    };
    assert_eq!(attachment_id.as_deref(), Some("a"));
    assert_eq!(bytes, data);
    let envelope = client().input(3, "a".to_string(), 80, 24, data.clone());
    let Ok(Call::Input { id: 3, cols: 80, rows: 24, bytes, .. }) =
        dispatch(envelope.request, &registration())
    else {
        panic!("input");
    };
    assert_eq!(bytes, data);
}

#[test]
fn replays_and_snapshots_arrive_at_the_client() {
    let replay = RawReplay {
        requested_offset: 1,
        available_offset: 2,
        end_offset: 4,
        truncated: true,
        bytes: vec![0, 255],
    };
    let remote = TerminalClient::replayed(respond(Ok(Outcome::Replay(replay)))).unwrap();
    assert_eq!(remote.bytes, [0, 255]);
    assert_eq!((remote.requested_offset, remote.available_offset, remote.end_offset), (1, 2, 4));
    assert!(remote.truncated);
    let snapshot = TerminalSnapshot {
        info: info(3),
        text: "text".to_string(),
        checkpoint: vec![27],
        cursor_x: 1,
        cursor_y: 2,
    };
    let remote = TerminalClient::pictured(respond(Ok(Outcome::Snapshot(snapshot)))).unwrap();
    assert_eq!((remote.text.as_str(), remote.checkpoint.as_slice()), ("text", [27].as_slice()));
    assert_eq!((remote.cursor_x, remote.cursor_y), (1, 2));
}

#[test]
fn requests_say_what_is_asked() {
    let client = client();
    assert!(matches!(client.list().request, Request::List));
    assert!(matches!(client.shutdown().request, Request::Shutdown));
    assert!(matches!(client.snapshot(1).request, Request::Snapshot { id: 1 }));
    assert!(matches!(client.replay(1, 2).request, Request::Replay { id: 1, offset: 2 }));
    assert!(matches!(
        client.read_rows(1, None).request,
        Request::ReadRows { id: 1, rows: None }
    ));
    assert!(matches!(client.terminate(1).request, Request::Terminate { id: 1 }));
    assert!(matches!(
        client.resize(1, 2, 3).request,
        Request::Resize { id: 1, attachment_id: None, cols: 2, rows: 3 }
    ));
    assert!(matches!(
        client.control(1, "a".to_string(), 2, 3).request,
        Request::Control { id: 1, cols: 2, rows: 3, .. }
    ));
    assert!(matches!(
        client.write(1, b"x".to_vec()).request,
        Request::Write { id: 1, attachment_id: None, data_base64 } if data_base64 == "eA=="
    ));
    assert!(matches!(
        client.subscribe(1, 2, "a".to_string(), AttachmentRole::Controller, true).request,
        Request::Subscribe { id: 1, offset: 2, role: AttachmentRole::Controller, takeover: true, .. }
    ));
    let create = client.create(CreateTerminal {
        program: "p".to_string(),
        args: vec!["q".to_string()],
        cwd: PathBuf::from("/"),
        title: "t".to_string(),
        group_id: "g".to_string(),
        env: HashMap::from([("K".to_string(), "V".to_string())]),
        cols: 1,
        rows: 2,
    });
    assert!(matches!(
        create.request,
        Request::Create { program, args, env, cols: 1, rows: 2, .. }
            if program == "p" && args == ["q"] && env["K"] == "V"
    ));
}

#[test]
fn answers_are_taken_or_refused() {
    assert!(TerminalClient::expect_ok(Response::Done).is_ok());
    let refused = || Response::Error { message: "terminal 3 not found".to_string() };
    assert_eq!(
        words(TerminalClient::expect_ok(refused()).unwrap_err()),
        "terminal 3 not found"
    );
    assert!(words(TerminalClient::expect_ok(Response::Owned).unwrap_err()).contains("Owned"));
    assert_eq!(
        TerminalClient::created(Response::Created { terminal: info(7) }).unwrap().id,
        7
    );
    assert!(TerminalClient::created(refused()).is_err());
    let terminals = vec![info(7), info(8)];
    assert_eq!(TerminalClient::listed(Response::Terminals { terminals }).unwrap().len(), 2);
    assert!(TerminalClient::listed(refused()).is_err());
    let rows = Response::Rows {
        terminal: info(7),
        lines: vec!["a".to_string()],
        cursor_x: 1,
        cursor_y: 2,
    };
    assert_eq!(TerminalClient::rows(rows).unwrap().lines, ["a"]);
    assert!(TerminalClient::rows(Response::Done).is_err());
    let bad = Response::Snapshot {
        terminal: info(7),
        text: String::new(),
        checkpoint_base64: "!".to_string(),
        cursor_x: 0,
        cursor_y: 0,
    };
    assert!(words(TerminalClient::pictured(bad).unwrap_err())
        .starts_with("invalid checkpoint base64: "));
    let bad = Response::Replay {
        requested_offset: 0,
        available_offset: 0,
        end_offset: 0,
        truncated: false,
        data_base64: "=".to_string(),
    };
    assert!(words(TerminalClient::replayed(bad).unwrap_err())
        .starts_with("invalid replay base64: "));
    let attached = |text: &str| Response::Attached {
        terminal: info(7),
        role: AttachmentRole::Observer,
        generation: 3,
        requested_offset: 0,
        available_offset: 0,
        end_offset: 1,
        truncated: false,
        replay_base64: text.to_string(),
    };
    let subscription = TerminalClient::subscribed(attached("eA==")).unwrap();
    assert_eq!(subscription.replay.bytes, b"x");
    assert_eq!(subscription.generation, 3);
    assert!(words(TerminalClient::subscribed(attached("?")).unwrap_err())
        .starts_with("invalid subscription replay base64: "));
    assert_eq!(
        words(TerminalClient::subscribed(refused()).unwrap_err()),
        "terminal 3 not found"
    );
}

#[test]
fn watched_terminals_are_followed_until_their_end() {
    assert_eq!(watch_id_with(7, 0xab), "watch-7-00000000000000ab");
    assert!(watch_id(7).starts_with("watch-7-"));
    assert_eq!(watch_id(7).len(), 24);
    let output = SubscriptionEvent::Output { start: 0, end: 7, bytes: b"watched".to_vec() };
    assert!(matches!(watch_step(output), Ok(WatchStep::Show(bytes)) if bytes == b"watched"));
    let response = |response| watch_step(SubscriptionEvent::Response(Box::new(response)));
    assert!(matches!(
        response(Response::Exited { exit_code: Some(0), final_offset: 7 }),
        Ok(WatchStep::Ended(Some(0)))
    ));
    assert!(matches!(
        response(Response::TitleChanged { title: "t".to_string() }),
        Ok(WatchStep::Ignore)
    ));
    assert!(matches!(
        response(Response::Resized {
            cols: 1,
            rows: 2,
            generation: 3,
            checkpoint_base64: String::new(),
        }),
        Ok(WatchStep::Resized { cols: 1, rows: 2 })
    ));
    assert!(matches!(
        response(Response::Error { message: "m".to_string() }),
        Err(ClientError::Error(Error::Failed { message })) if message == "m"
    ));
    assert!(matches!(response(Response::Done), Err(ClientError::Unexpected(_))));
}

#[test]
fn the_program_is_started_for_something() {
    assert!(matches!(cli(&[]), Ok(CliCommand::Play)));
    assert!(matches!(cli(&["play"]), Ok(CliCommand::Play)));
    assert!(matches!(cli(&["daemon"]), Ok(CliCommand::Daemon)));
    assert_eq!(cli(&["daemon", "x"]).err().unwrap(), "usage: opencode-pty daemon");
    assert!(matches!(cli(&["fixture"]), Ok(CliCommand::Fixture)));
    assert!(matches!(cli(&["status"]), Ok(CliCommand::Status)));
    assert!(matches!(cli(&["stop"]), Ok(CliCommand::Stop)));
    assert!(matches!(cli(&["list"]), Ok(CliCommand::List)));
    assert!(matches!(cli(&["watch", "1"]), Ok(CliCommand::Watch(1))));
    assert_eq!(cli(&["watch"]).err().unwrap(), "usage: opencode-pty watch TERMINAL_ID");
    assert_eq!(
        cli(&["watch", "one"]).err().unwrap(),
        "expected terminal ID: invalid digit found in string"
    );
    for flag in ["version", "--version", "-V"] {
        assert!(matches!(cli(&[flag]), Ok(CliCommand::Version)));
    }
    for flag in ["help", "--help", "-h"] {
        assert!(matches!(cli(&[flag]), Ok(CliCommand::Help)));
    }
    assert!(matches!(cli(&["what"]), Ok(CliCommand::Unknown(word)) if word == "what"));
}

#[test]
fn playground_lines_are_commands() {
    assert!(matches!(play(" \n", None), PlayCommand::Empty));
    assert!(matches!(play("new\n", None), PlayCommand::NewShell));
    let line = "new /bin/sh -c \"printf watched; sleep 2; printf followed\"\n";
    assert!(matches!(
        play(line, None),
        PlayCommand::New(list)
            if list == ["/bin/sh", "-c", "printf watched; sleep 2; printf followed"]
    ));
    assert_eq!(refusal("new 'x", None), "missing closing quote");
    assert!(matches!(play("list\n", None), PlayCommand::List));
    assert!(matches!(play("use  7\n", None), PlayCommand::Use(7)));
    assert_eq!(
        refusal("use", None),
        "expected terminal ID: cannot parse integer from empty string"
    );
    assert!(matches!(
        play("send a  b\n", Some(3)),
        PlayCommand::Send { id: 3, bytes } if bytes == b"a  b"
    ));
    assert!(matches!(
        play("run ls\r\n", Some(3)),
        PlayCommand::Run { id: 3, bytes } if bytes == b"ls\r"
    ));
    assert_eq!(refusal("run ls", None), "no active terminal; use `new` or `use ID`");
    assert_eq!(refusal("send x", None), "no active terminal; use `new` or `use ID`");
    assert!(matches!(play("screen", Some(3)), PlayCommand::Screen(3)));
    assert!(matches!(play("screen 4", Some(3)), PlayCommand::Screen(4)));
    assert!(matches!(play("replay", Some(3)), PlayCommand::Replay { id: 3, offset: 0 }));
    assert!(matches!(play("replay 1 9", None), PlayCommand::Replay { id: 1, offset: 9 }));
    assert_eq!(refusal("replay", None), "no active terminal");
    assert_eq!(refusal("replay x", Some(3)), "invalid digit found in string");
    assert_eq!(refusal("replay 1 x", Some(3)), "invalid digit found in string");
    assert!(matches!(
        play("resize 72 20", Some(3)),
        PlayCommand::Resize { id: 3, cols: 72, rows: 20 }
    ));
    assert_eq!(refusal("resize", Some(3)), "usage: resize COLS ROWS");
    assert_eq!(refusal("resize 72", Some(3)), "usage: resize COLS ROWS");
    assert_eq!(refusal("resize 65536 1", Some(3)), "number too large to fit in target type");
    assert_eq!(refusal("resize 1 1", None), "no active terminal; use `new` or `use ID`");
    assert!(matches!(play("wait", None), PlayCommand::Wait { millis: 250, id: None }));
    assert!(matches!(play("wait 50", Some(3)), PlayCommand::Wait { millis: 50, id: Some(3) }));
    assert_eq!(refusal("wait soon", None), "invalid digit found in string");
    assert!(matches!(play("kill", Some(3)), PlayCommand::Kill(3)));
    assert_eq!(refusal("kill", None), "no active terminal; use `new` or `use ID`");
    assert!(matches!(play("demo", None), PlayCommand::Demo));
    assert!(matches!(play("help", None), PlayCommand::Help));
    assert!(matches!(play("quit", None), PlayCommand::Quit));
    assert!(matches!(play("exit", None), PlayCommand::Quit));
    assert!(matches!(play("dance now", None), PlayCommand::Unknown(word) if word == "dance"));
}

#[test]
fn terminals_are_chosen() {
    assert_eq!(parse_id(" 12 ").unwrap(), 12);
    assert_eq!(require_active(Some(1)).unwrap(), 1);
    assert!(require_active(None).is_err());
    assert_eq!(optional_id("", Some(4)).unwrap(), 4);
    assert_eq!(optional_id(" 5", None).unwrap(), 5);
    assert_eq!(first_terminal(&vec![info(7), info(8)]), Some(7));
    assert_eq!(first_terminal(&Vec::new()), None);
    assert!(loses_active(Some(7), 7));
    assert!(!loses_active(Some(8), 7));
    assert!(!loses_active(None, 7));
}

#[test]
fn playground_terminals_are_what_was_typed() {
    let list = vec!["sh".to_string(), "-c".to_string(), "true".to_string()];
    let made = CreateTerminal::playground(&list, PathBuf::from("/w"), "/w");
    assert_eq!((made.program.as_str(), made.title.as_str()), ("sh", "sh"));
    assert_eq!(made.args, ["-c", "true"]);
    assert_eq!(made.group_id, "playground:/w");
    assert_eq!((made.cols, made.rows), (100, 30));
    let demo = CreateTerminal::demo("me".to_string(), PathBuf::from("/w"), "/w");
    assert_eq!(demo.title, "query-fixture");
    assert_eq!(demo.args, ["fixture"]);
}

#[test]
fn state_reports_are_recognised() {
    assert!(is_state_report(b"\x1b[0n"));
    assert!(!is_state_report(b"\x1b[3n"));
    assert!(!is_state_report(b""));
}
