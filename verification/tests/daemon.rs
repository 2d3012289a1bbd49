use opencode_pty::daemon::server::{
    attached_response, dispatch, respond, stream_step, Call, Outcome, StreamSignal, StreamStep,
};
use opencode_pty::daemon::{
    check_registration_size, check_runtime_dir, ensure_private_directory, id_text, lock_path,
    owns_registration, random_id, read_registration, register, register_as, register_pipe,
    register_with, registration_path,
    service_dir, socket_directory, socket_path, temporary_path, windows_service_dir,
    DirectoryFacts, Environment, Registration, RegistrationFile, LOCK_FILE, REGISTRATION_FILE,
};
use opencode_pty::error::Error;
use opencode_pty::protocol::{AttachmentRole, Request, Response};
use opencode_pty::service::{
    RawReplay, StreamEvent, TerminalInfo, TerminalLifecycle, TerminalRows, TerminalSnapshot,
};
use opencode_pty::transport::{
    check_kind, check_owner, check_private, endpoint_name, finish_response, pipe_name,
    private_descriptor, rename_layout, wait_millis, wide_path, Access,
};
use std::path::PathBuf;

fn registration() -> Registration {
    Registration {
        instance_id: "instance".to_string(),
        pid: 42,
        protocol: 7,
        socket: PathBuf::from("/tmp/socket"),
        token: "token".to_string(),
    }
}

fn info() -> TerminalInfo {
    TerminalInfo {
        id: 3,
        pid: Some(9),
        title: "title".to_string(),
        foreground_process: None,
        group_id: "group".to_string(),
        command: vec!["sh".to_string()],
        cwd: PathBuf::from("/"),
        cols: 80,
        rows: 24,
        lifecycle: TerminalLifecycle::Running,
        output_head: 0,
        output_tail: 5,
    }
}

fn environment(runtime: Option<&str>, xdg: Option<&str>, temp: &str) -> Environment {
    Environment {
        runtime_dir: runtime.map(|path| path.as_bytes().to_vec()),
        xdg_runtime_dir: xdg.map(|path| path.as_bytes().to_vec()),
        temp_dir: temp.as_bytes().to_vec(),
        uid: 1000,
    }
}

fn words(result: Result<(), Error>) -> String {
    result.unwrap_err().message()
}

fn wide(text: &str) -> Vec<u16> {
    text.encode_utf16().collect()
}

#[test]
fn socket_paths_are_short_and_runtime_specific() {
    let base = "/tmp/opencode-pty-socket-test";
    let first = format!("{base}/{}/database-a", "a".repeat(120));
    let second = format!("{base}/{}/database-b", "b".repeat(120));
    let first_socket = PathBuf::from(socket_path(first.as_bytes(), u32::MAX));
    let second_socket = PathBuf::from(socket_path(second.as_bytes(), u32::MAX));

    assert_ne!(first_socket, second_socket);
    assert!(first_socket.as_os_str().len() < 104);
    assert_eq!(first_socket.parent(), second_socket.parent());
    assert_eq!(first_socket.parent().unwrap().to_str().unwrap(), socket_directory(u32::MAX));
}

#[test]
fn sockets_are_named_by_a_digest() {
    assert_eq!(
        socket_path(b"abc", 1000),
        "/tmp/opencode-pty-1000/ba7816bf8f01cfea414140de5dae2223.sock"
    );
}

#[test]
fn files_are_where_the_environment_says() {
    let told = environment(Some("/run/x"), Some("/run/user/1000"), "/tmp");
    assert_eq!(service_dir(&told), b"/run/x");
    assert_eq!(registration_path(&told), b"/run/x/service.json");
    assert_eq!(lock_path(&told), b"/run/x/service.lock");
    let user = environment(None, Some("/run/user/1000/"), "/tmp");
    assert_eq!(service_dir(&user), b"/run/user/1000/opencode-pty");
    let temporary = environment(None, None, "/tmp");
    assert_eq!(service_dir(&temporary), b"/tmp/opencode-pty-1000");
    assert_eq!(service_dir(&environment(None, Some(""), "/tmp")), b"opencode-pty");
    for (directory, name) in [("/a", "b"), ("/a/", "b"), ("", "b")] {
        let path = environment(Some(directory), None, "");
        let joined = PathBuf::from(directory).join(REGISTRATION_FILE);
        assert_eq!(registration_path(&path), joined.to_str().unwrap().as_bytes());
        assert_ne!(name, LOCK_FILE);
    }
    assert_eq!(
        temporary_path(&b"/run".to_vec(), &registration()),
        b"/run/service.instance.tmp"
    );
}

#[test]
fn registrations_are_new_and_private() {
    assert_eq!(id_text(0xff), format!("{:032x}", 0xff));
    assert_eq!(random_id().len(), 32);
    assert_ne!(random_id(), random_id());
    let registered = register(PathBuf::from("/s"), 5);
    assert_eq!((registered.pid, registered.protocol), (5, 7));
    assert_eq!(registered.socket, PathBuf::from("/s"));
    assert_ne!(registered.instance_id, registered.token);
    assert_eq!(registered.token.len(), 32);
    let given = register_with(PathBuf::from("/s"), 5, 0xab, 0xcd);
    assert_eq!(given.instance_id, "000000000000000000000000000000ab");
    assert_eq!(given.token, "000000000000000000000000000000cd");
    assert_eq!((given.pid, given.protocol), (5, 7));
    let (instance, pipe) = register_pipe();
    assert_eq!(register_as(PathBuf::from("/s"), 5, 0xab).instance_id, given.instance_id);
    assert_eq!(pipe, format!(r"\\.\pipe\opencode-pty-{instance:032x}"));
    assert!(endpoint_name(wide(&pipe)).is_ok());
    assert_eq!(pipe, pipe_name(&id_text(instance)));
}

#[test]
fn registrations_are_read_or_refused() {
    let read = read_registration(RegistrationFile::Registered(registration())).unwrap();
    assert_eq!(read.token, "token");
    let e = read_registration(RegistrationFile::Unavailable("no file".to_string())).unwrap_err();
    assert_eq!(e.message(), "opencode-pty registration is unavailable: no file");
    let e = read_registration(RegistrationFile::Invalid("EOF".to_string())).unwrap_err();
    assert_eq!(e.message(), "invalid opencode-pty registration: EOF");
    assert!(check_registration_size(16 * 1024).is_ok());
    assert_eq!(words(check_registration_size(16 * 1024 + 1)), "PTY registration is too large");
    let mut other = registration();
    other.instance_id = "other".to_string();
    assert!(owns_registration(&Some(registration()), &registration()));
    assert!(!owns_registration(&Some(other), &registration()));
    assert!(!owns_registration(&None, &registration()));
}

#[test]
fn socket_directories_are_private() {
    let facts = |is_dir, is_symlink, owner| DirectoryFacts { is_dir, is_symlink, owner };
    assert!(ensure_private_directory(&facts(true, false, 7), 7, "/d").is_ok());
    for (is_dir, is_symlink) in [(false, false), (true, true)] {
        assert_eq!(
            words(ensure_private_directory(&facts(is_dir, is_symlink, 8), 7, "/d")),
            "PTY socket directory is not a real directory: /d"
        );
    }
    assert_eq!(
        words(ensure_private_directory(&facts(true, false, 8), 7, "/d")),
        "PTY socket directory /d is owned by uid 8, expected 7"
    );
}

#[test]
fn windows_directories_are_chosen_and_absolute() {
    let path = |text: &str| Some(PathBuf::from(text));
    assert_eq!(windows_service_dir(path("r"), path("l")).unwrap(), (PathBuf::from("r"), false));
    assert_eq!(windows_service_dir(None, path("l")).unwrap(), (PathBuf::from("l"), true));
    assert_eq!(
        windows_service_dir(None, None).unwrap_err().message(),
        "LOCALAPPDATA is unavailable; set OPENCODE_PTY_RUNTIME_DIR"
    );
    assert!(check_runtime_dir(true).is_ok());
    assert_eq!(words(check_runtime_dir(false)), "PTY runtime directory must be an absolute path");
}

#[test]
fn remote_and_non_pipe_endpoints_are_rejected() {
    for endpoint in [
        r"\\remote\pipe\opencode-pty-test",
        r"C:\tmp\pipe",
        r"\\.\pipe\opencode-pty-test\nested",
        r"\\.\pipe\opencode-pty-",
        r"\\.\pipe\opencode-pty-a/b",
        "\\\\.\\pipe\\opencode-pty-a\0b",
    ] {
        let e = endpoint_name(wide(endpoint)).unwrap_err();
        assert_eq!(e.message(), "expected a local opencode-pty named-pipe endpoint");
    }
    let mut expected = wide(r"\\.\pipe\opencode-pty-test");
    expected.push(0);
    assert_eq!(endpoint_name(wide(r"\\.\pipe\opencode-pty-test")).unwrap(), expected);
}

#[test]
fn storage_is_checked() {
    assert_eq!(wide_path(wide("a")).unwrap(), [97, 0]);
    assert_eq!(
        wide_path(wide("a\0b")).unwrap_err().message(),
        "PTY storage path contains NUL"
    );
    assert!(check_kind(false, true, true).is_ok());
    assert_eq!(words(check_kind(true, true, true)), "PTY storage must not be a reparse point");
    assert_eq!(words(check_kind(false, true, false)), "unexpected PTY storage file type");
    assert!(check_owner(true).is_ok());
    assert_eq!(words(check_owner(false)), "PTY storage is not owned by the current user");
    let access = |present, protected, grants, first| Access { present, protected, grants, first };
    assert!(check_private(&access(true, true, 1, Some((0, true)))).is_ok());
    for (given, expected) in [
        (access(false, true, 1, None), "unprotected PTY storage DACL"),
        (access(true, false, 1, None), "unprotected PTY storage DACL"),
        (access(true, true, 2, Some((0, true))), "PTY storage must grant only the current user"),
        (access(true, true, 1, None), "PTY storage must grant only the current user"),
        (access(true, true, 1, Some((1, true))), "unexpected PTY storage ACE"),
        (access(true, true, 1, Some((0, false))), "PTY storage grants another principal"),
    ] {
        assert_eq!(words(check_private(&given)), expected);
    }
    assert_eq!(private_descriptor("S-1"), "O:S-1D:P(A;;GA;;;S-1)\0");
}

#[test]
fn pipes_wait_and_finish() {
    assert_eq!(wait_millis(None), u32::MAX);
    assert_eq!(wait_millis(Some(2000)), 2000);
    assert_eq!(wait_millis(Some(u128::MAX)), u32::MAX - 1);
    assert!(finish_response(0).is_ok());
    assert_eq!(words(finish_response(1)), "unexpected data after request");
}

#[test]
fn renames_are_laid_out() {
    let layout = rename_layout(24, 5, 8).unwrap();
    assert_eq!((layout.name_bytes, layout.bytes, layout.words), (10, 34, 5));
    let layout = rename_layout(24, 4, 8).unwrap();
    assert_eq!(layout.words, 4);
    assert_eq!(
        rename_layout(24, 1 << 31, 8).unwrap_err().message(),
        "out of range integral type conversion attempted"
    );
    assert_eq!(
        rename_layout(usize::MAX, 1, 8).unwrap_err().message(),
        "registration rename buffer overflow"
    );
    assert!(rename_layout(1 << 32, 1, 8).is_err());
}

#[test]
fn requests_are_dispatched() {
    let registration = registration();
    let call = |request: Request| dispatch(request, &registration).unwrap_or_else(|e| {
        panic!("{}", e.message())
    });
    assert!(matches!(
        call(Request::Ping),
        Call::Reply(Response::Pong { instance_id, pid: 42, protocol: 7 }) if instance_id == "instance"
    ));
    assert!(matches!(call(Request::List), Call::List));
    assert!(matches!(call(Request::Shutdown), Call::Reply(Response::Done)));
    assert!(matches!(
        call(Request::PrepareHandoff),
        Call::Reply(Response::Error { message }) if message == "handoff requires the owner connection"
    ));
    assert!(matches!(
        call(Request::Write { id: 3, attachment_id: None, data_base64: "aGVsbG8=".to_string() }),
        Call::Write { id: 3, attachment_id: None, bytes } if bytes == b"hello"
    ));
    assert!(matches!(
        call(Request::Input {
            id: 3,
            attachment_id: "a".to_string(),
            cols: 1,
            rows: 2,
            data_base64: "/w==".to_string(),
        }),
        Call::Input { id: 3, cols: 1, rows: 2, bytes, .. } if bytes == [255]
    ));
    assert!(matches!(
        call(Request::ReadRows { id: 3, rows: Some(4) }),
        Call::ReadRows { id: 3, rows: Some(4) }
    ));
    assert!(matches!(call(Request::Terminate { id: 8 }), Call::Terminate { id: 8 }));
}

#[test]
fn bad_base64_is_refused_for_a_reason() {
    for (text, reason) in [
        ("a!==", "Invalid symbol 33, offset 1."),
        ("a", "Invalid input length: 1"),
        ("/x==", "Invalid last symbol 120, offset 1."),
        ("/w", "Invalid padding"),
    ] {
        let request =
            Request::Write { id: 1, attachment_id: None, data_base64: text.to_string() };
        let Err(e) = dispatch(request, &registration()) else {
            panic!("refused");
        };
        assert_eq!(e.message(), format!("invalid input base64: {reason}"));
    }
}

#[test]
fn outcomes_are_answered() {
    let response = respond(Err(Error::TerminalNotFound { id: 3 }));
    assert!(matches!(response, Response::Error { message } if message == "terminal 3 not found"));
    assert!(matches!(respond(Ok(Outcome::Done)), Response::Done));
    assert!(matches!(
        respond(Ok(Outcome::Created(info()))),
        Response::Created { terminal } if terminal.id == 3
    ));
    assert!(matches!(
        respond(Ok(Outcome::Terminals(vec![info()]))),
        Response::Terminals { terminals } if terminals.len() == 1
    ));
    let snapshot = TerminalSnapshot {
        info: info(),
        text: "text".to_string(),
        checkpoint: b"hello".to_vec(),
        cursor_x: 1,
        cursor_y: 2,
    };
    assert!(matches!(
        respond(Ok(Outcome::Snapshot(snapshot))),
        Response::Snapshot { checkpoint_base64, cursor_x: 1, cursor_y: 2, .. }
            if checkpoint_base64 == "aGVsbG8="
    ));
    let rows =
        TerminalRows { terminal: info(), lines: vec!["a".to_string()], cursor_x: 1, cursor_y: 2 };
    assert!(matches!(
        respond(Ok(Outcome::Rows(rows))),
        Response::Rows { lines, cursor_x: 1, cursor_y: 2, .. } if lines == ["a"]
    ));
    let replay = RawReplay {
        requested_offset: 0,
        available_offset: 2,
        end_offset: 3,
        truncated: true,
        bytes: vec![255],
    };
    assert!(matches!(
        respond(Ok(Outcome::Replay(replay.clone()))),
        Response::Replay {
            requested_offset: 0,
            available_offset: 2,
            end_offset: 3,
            truncated: true,
            data_base64,
        } if data_base64 == "/w=="
    ));
    assert!(matches!(
        attached_response(info(), AttachmentRole::Observer, 4, replay),
        Response::Attached { role: AttachmentRole::Observer, generation: 4, replay_base64, .. }
            if replay_base64 == "/w=="
    ));
}

#[test]
fn watchers_are_told_until_the_end() {
    assert!(matches!(stream_step(StreamSignal::Stopping), StreamStep::Stop));
    assert!(matches!(stream_step(StreamSignal::Disconnected), StreamStep::Stop));
    assert!(matches!(stream_step(StreamSignal::Closed), StreamStep::Stop));
    assert!(matches!(stream_step(StreamSignal::Timeout), StreamStep::Wait));
    let step = |event| stream_step(StreamSignal::Event(event));
    assert!(matches!(
        step(StreamEvent::Output { start: 1, end: 2, bytes: vec![7] }),
        StreamStep::Output { start: 1, end: 2, bytes } if bytes == [7]
    ));
    assert!(matches!(
        step(StreamEvent::Exited { exit_code: Some(0), final_offset: 123 }),
        StreamStep::Tell {
            response: Response::Exited { exit_code: Some(0), final_offset: 123 },
            last: true,
        }
    ));
    assert!(matches!(
        step(StreamEvent::Resized { cols: 1, rows: 2, generation: 3, checkpoint: vec![255] }),
        StreamStep::Tell {
            response: Response::Resized { cols: 1, rows: 2, generation: 3, checkpoint_base64 },
            last: false,
        } if checkpoint_base64 == "/w=="
    ));
    assert!(matches!(
        step(StreamEvent::ControllerChanged { attachment_id: None, generation: 3 }),
        StreamStep::Tell {
            response: Response::ControllerChanged { attachment_id: None, generation: 3 },
            last: false,
        }
    ));
    assert!(matches!(
        step(StreamEvent::TitleChanged { title: "t".to_string() }),
        StreamStep::Tell { response: Response::TitleChanged { title }, last: false } if title == "t"
    ));
    assert!(matches!(
        step(StreamEvent::ForegroundProcessChanged { process: None }),
        StreamStep::Tell {
            response: Response::ForegroundProcessChanged { process: None },
            last: false,
        }
    ));
}
