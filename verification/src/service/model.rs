//! The values that describe a terminal and what happens to it.
use crate::text::{copy_opt, copy_texts, opt_text, owned, texts};
use std::collections::HashMap;
use std::path::PathBuf;
use vstd::prelude::*;

verus! {

/// Opaque: a path in the form of the operating system.
#[verifier::external_type_specification]
#[verifier::external_body]
pub struct ExPathBuf(std::path::PathBuf);

/// `PathBuf::clone` gives a duplicate of the path.
pub assume_specification[ <std::path::PathBuf as Clone>::clone ](path: &PathBuf) -> (r: PathBuf)
    ensures
        r == *path,
;

pub const DEFAULT_COLS: u16 = 100;

pub const DEFAULT_ROWS: u16 = 30;

/// How many bytes of output a terminal keeps for replay.
pub const REPLAY_CAPACITY: usize = 2_097_152;

/// How many messages wait for a terminal.
pub const ACTOR_QUEUE_CAPACITY: usize = 128;

/// How many pieces of input wait for a child.
pub const WRITER_QUEUE_CAPACITY: usize = 128;

/// How many events wait for an attachment.
pub const SUBSCRIBER_QUEUE_CAPACITY: usize = 1024;

/// How much input one request may carry.
pub const MAX_INPUT_BYTES: usize = 1_048_576;

/// Numbers of terminals, which JSON clients can hold exactly.
pub type TerminalId = u64;

/// Whether the child of a terminal is alive.
#[derive(Debug, PartialEq, Eq)]
pub enum TerminalLifecycle {
    Running,
    Exited { exit_code: Option<u32> },
    Failed { message: String },
}

/// A `TerminalLifecycle` as a mathematical value.
pub enum LifecycleView {
    Running,
    Exited { exit_code: Option<u32> },
    Failed { message: Seq<char> },
}

/// What is known of a terminal.
#[derive(Debug)]
pub struct TerminalInfo {
    pub id: TerminalId,
    pub pid: Option<u32>,
    pub title: String,
    pub foreground_process: Option<String>,
    pub group_id: String,
    pub command: Vec<String>,
    pub cwd: PathBuf,
    pub cols: u16,
    pub rows: u16,
    pub lifecycle: TerminalLifecycle,
    pub output_head: u64,
    pub output_tail: u64,
}

/// A `TerminalInfo` as a mathematical value.
#[verifier::ext_equal]
pub struct InfoView {
    pub id: TerminalId,
    pub pid: Option<u32>,
    pub title: Seq<char>,
    pub foreground_process: Option<Seq<char>>,
    pub group_id: Seq<char>,
    pub command: Seq<Seq<char>>,
    pub cwd: PathBuf,
    pub cols: u16,
    pub rows: u16,
    pub lifecycle: LifecycleView,
    pub output_head: u64,
    pub output_tail: u64,
}

/// What a terminal shows at one moment.
#[derive(Debug)]
pub struct TerminalSnapshot {
    pub info: TerminalInfo,
    pub text: String,
    pub checkpoint: Vec<u8>,
    pub cursor_x: u16,
    pub cursor_y: u16,
}

/// A `TerminalSnapshot` as a mathematical value.
#[verifier::ext_equal]
pub struct SnapshotView {
    pub info: InfoView,
    pub text: Seq<char>,
    pub checkpoint: Seq<u8>,
    pub cursor_x: u16,
    pub cursor_y: u16,
}

/// The last rows of a terminal, one line each.
#[derive(Debug)]
pub struct TerminalRows {
    pub terminal: TerminalInfo,
    pub lines: Vec<String>,
    pub cursor_x: u16,
    pub cursor_y: u16,
}

/// A `TerminalRows` as a mathematical value.
#[verifier::ext_equal]
pub struct RowsView {
    pub terminal: InfoView,
    pub lines: Seq<Seq<char>>,
    pub cursor_x: u16,
    pub cursor_y: u16,
}

/// Output of a terminal, again, from some offset up to now.
#[derive(Debug)]
pub struct RawReplay {
    pub requested_offset: u64,
    pub available_offset: u64,
    pub end_offset: u64,
    pub truncated: bool,
    pub bytes: Vec<u8>,
}

/// A `RawReplay` as a mathematical value.
#[verifier::ext_equal]
pub struct RawReplayView {
    pub requested_offset: u64,
    pub available_offset: u64,
    pub end_offset: u64,
    pub truncated: bool,
    pub bytes: Seq<u8>,
}

/// What the attachments of a terminal are told.
#[derive(Debug)]
pub enum StreamEvent {
    Output { start: u64, end: u64, bytes: Vec<u8> },
    Resized { cols: u16, rows: u16, generation: u64, checkpoint: Vec<u8> },
    Exited { exit_code: Option<u32>, final_offset: u64 },
    ControllerChanged { attachment_id: Option<String>, generation: u64 },
    TitleChanged { title: String },
    ForegroundProcessChanged { process: Option<String> },
}

/// A `StreamEvent` as a mathematical value.
pub enum StreamEventView {
    Output { start: u64, end: u64, bytes: Seq<u8> },
    Resized { cols: u16, rows: u16, generation: u64, checkpoint: Seq<u8> },
    Exited { exit_code: Option<u32>, final_offset: u64 },
    ControllerChanged { attachment_id: Option<Seq<char>>, generation: u64 },
    TitleChanged { title: Seq<char> },
    ForegroundProcessChanged { process: Option<Seq<char>> },
}

/// What a new terminal is to be.
#[derive(Debug)]
pub struct CreateTerminal {
    pub program: String,
    pub args: Vec<String>,
    pub cwd: PathBuf,
    pub title: String,
    pub group_id: String,
    pub env: HashMap<String, String>,
    pub cols: u16,
    pub rows: u16,
}

impl View for TerminalLifecycle {
    type V = LifecycleView;

    open spec fn view(&self) -> LifecycleView {
        match self {
            TerminalLifecycle::Running => LifecycleView::Running,
            TerminalLifecycle::Exited { exit_code } => LifecycleView::Exited {
                exit_code: *exit_code,
            },
            TerminalLifecycle::Failed { message } => LifecycleView::Failed { message: message@ },
        }
    }
}

impl View for TerminalInfo {
    type V = InfoView;

    open spec fn view(&self) -> InfoView {
        InfoView {
            id: self.id,
            pid: self.pid,
            title: self.title@,
            foreground_process: opt_text(self.foreground_process),
            group_id: self.group_id@,
            command: texts(self.command@),
            cwd: self.cwd,
            cols: self.cols,
            rows: self.rows,
            lifecycle: self.lifecycle@,
            output_head: self.output_head,
            output_tail: self.output_tail,
        }
    }
}

impl View for TerminalSnapshot {
    type V = SnapshotView;

    open spec fn view(&self) -> SnapshotView {
        SnapshotView {
            info: self.info@,
            text: self.text@,
            checkpoint: self.checkpoint@,
            cursor_x: self.cursor_x,
            cursor_y: self.cursor_y,
        }
    }
}

impl View for TerminalRows {
    type V = RowsView;

    open spec fn view(&self) -> RowsView {
        RowsView {
            terminal: self.terminal@,
            lines: texts(self.lines@),
            cursor_x: self.cursor_x,
            cursor_y: self.cursor_y,
        }
    }
}

impl View for RawReplay {
    type V = RawReplayView;

    open spec fn view(&self) -> RawReplayView {
        RawReplayView {
            requested_offset: self.requested_offset,
            available_offset: self.available_offset,
            end_offset: self.end_offset,
            truncated: self.truncated,
            bytes: self.bytes@,
        }
    }
}

impl View for StreamEvent {
    type V = StreamEventView;

    open spec fn view(&self) -> StreamEventView {
        match self {
            StreamEvent::Output { start, end, bytes } => StreamEventView::Output {
                start: *start,
                end: *end,
                bytes: bytes@,
            },
            StreamEvent::Resized { cols, rows, generation, checkpoint } => {
                StreamEventView::Resized {
                    cols: *cols,
                    rows: *rows,
                    generation: *generation,
                    checkpoint: checkpoint@,
                }
            },
            StreamEvent::Exited { exit_code, final_offset } => StreamEventView::Exited {
                exit_code: *exit_code,
                final_offset: *final_offset,
            },
            StreamEvent::ControllerChanged { attachment_id, generation } => {
                StreamEventView::ControllerChanged {
                    attachment_id: opt_text(*attachment_id),
                    generation: *generation,
                }
            },
            StreamEvent::TitleChanged { title } => StreamEventView::TitleChanged { title: title@ },
            StreamEvent::ForegroundProcessChanged { process } => {
                StreamEventView::ForegroundProcessChanged { process: opt_text(*process) }
            },
        }
    }
}

/// A copy of some bytes.
pub fn copy_bytes(bytes: &Vec<u8>) -> (r: Vec<u8>)
    ensures
        r@ == bytes@,
{
    let mut r: Vec<u8> = Vec::new();
    r.extend_from_slice(bytes.as_slice());
    assert(r@ =~= bytes@);
    r
}

impl Clone for TerminalLifecycle {
    fn clone(&self) -> (r: Self)
        ensures
            r@ == self@,
    {
        match self {
            TerminalLifecycle::Running => TerminalLifecycle::Running,
            TerminalLifecycle::Exited { exit_code } => TerminalLifecycle::Exited {
                exit_code: *exit_code,
            },
            TerminalLifecycle::Failed { message } => TerminalLifecycle::Failed {
                message: message.clone(),
            },
        }
    }
}

impl Clone for TerminalInfo {
    fn clone(&self) -> (r: Self)
        ensures
            r@ == self@,
    {
        TerminalInfo {
            id: self.id,
            pid: self.pid,
            title: self.title.clone(),
            foreground_process: copy_opt(&self.foreground_process),
            group_id: self.group_id.clone(),
            command: copy_texts(&self.command),
            cwd: self.cwd.clone(),
            cols: self.cols,
            rows: self.rows,
            lifecycle: self.lifecycle.clone(),
            output_head: self.output_head,
            output_tail: self.output_tail,
        }
    }
}

impl Clone for RawReplay {
    fn clone(&self) -> (r: Self)
        ensures
            r@ == self@,
    {
        RawReplay {
            requested_offset: self.requested_offset,
            available_offset: self.available_offset,
            end_offset: self.end_offset,
            truncated: self.truncated,
            bytes: copy_bytes(&self.bytes),
        }
    }
}

impl Clone for StreamEvent {
    fn clone(&self) -> (r: Self)
        ensures
            r@ == self@,
    {
        match self {
            StreamEvent::Output { start, end, bytes } => StreamEvent::Output {
                start: *start,
                end: *end,
                bytes: copy_bytes(bytes),
            },
            StreamEvent::Resized { cols, rows, generation, checkpoint } => StreamEvent::Resized {
                cols: *cols,
                rows: *rows,
                generation: *generation,
                checkpoint: copy_bytes(checkpoint),
            },
            StreamEvent::Exited { exit_code, final_offset } => StreamEvent::Exited {
                exit_code: *exit_code,
                final_offset: *final_offset,
            },
            StreamEvent::ControllerChanged { attachment_id, generation } => {
                StreamEvent::ControllerChanged {
                    attachment_id: copy_opt(attachment_id),
                    generation: *generation,
                }
            },
            StreamEvent::TitleChanged { title } => StreamEvent::TitleChanged {
                title: title.clone(),
            },
            StreamEvent::ForegroundProcessChanged { process } => {
                StreamEvent::ForegroundProcessChanged { process: copy_opt(process) }
            },
        }
    }
}

impl Clone for TerminalSnapshot {
    fn clone(&self) -> (r: Self)
        ensures
            r@ == self@,
    {
        TerminalSnapshot {
            info: self.info.clone(),
            text: self.text.clone(),
            checkpoint: copy_bytes(&self.checkpoint),
            cursor_x: self.cursor_x,
            cursor_y: self.cursor_y,
        }
    }
}

impl Clone for TerminalRows {
    fn clone(&self) -> (r: Self)
        ensures
            r@ == self@,
    {
        TerminalRows {
            terminal: self.terminal.clone(),
            lines: copy_texts(&self.lines),
            cursor_x: self.cursor_x,
            cursor_y: self.cursor_y,
        }
    }
}

/// The words of a command line: the program, then its arguments.
pub open spec fn command_line(program: Seq<char>, args: Seq<Seq<char>>) -> Seq<Seq<char>> {
    seq![program] + args
}

/// What is known of a terminal whose child has just been started.
pub fn initial_info(id: TerminalId, pid: Option<u32>, request: CreateTerminal) -> (r: TerminalInfo)
    ensures
        r@ == (InfoView {
            id,
            pid,
            title: request.title@,
            foreground_process: None,
            group_id: request.group_id@,
            command: command_line(request.program@, texts(request.args@)),
            cwd: request.cwd,
            cols: request.cols,
            rows: request.rows,
            lifecycle: LifecycleView::Running,
            output_head: 0,
            output_tail: 0,
        }),
{
    let mut command: Vec<String> = Vec::new();
    let ghost program = request.program@;
    command.push(request.program);
    let mut args = request.args;
    let ghost given = args@;
    command.append(&mut args);
    assert(texts(command@) =~= command_line(program, texts(given)));
    TerminalInfo {
        id,
        pid,
        title: request.title,
        foreground_process: None,
        group_id: request.group_id,
        command,
        cwd: request.cwd,
        cols: request.cols,
        rows: request.rows,
        lifecycle: TerminalLifecycle::Running,
        output_head: 0,
        output_tail: 0,
    }
}

/// The environment that a child is given on top of its parent's, in the order in which it is
/// set: what was asked for, then the kind of terminal, which a request cannot change.
pub fn child_environment(mut env: Vec<(String, String)>) -> (r: Vec<(String, String)>)
    ensures
        r@.len() == env@.len() + 2,
        r@.take(env@.len() as int) == env@,
        r@[env@.len() as int].0@ == "TERM"@,
        r@[env@.len() as int].1@ == "xterm-256color"@,
        r@[env@.len() as int + 1].0@ == "COLORTERM"@,
        r@[env@.len() as int + 1].1@ == "truecolor"@,
{
    let ghost given = env@;
    env.push((owned("TERM"), owned("xterm-256color")));
    env.push((owned("COLORTERM"), owned("truecolor")));
    assert(env@.take(given.len() as int) =~= given);
    env
}

/// The words of a command line are the program and then its arguments.
pub proof fn law_program_comes_first(program: Seq<char>, args: Seq<Seq<char>>)
    ensures
        command_line(program, args).len() == 1 + args.len(),
        command_line(program, args)[0] == program,
        command_line(program, args).skip(1) == args,
{
    assert(command_line(program, args).skip(1) =~= args);
}

/// What is said of a terminal in contracts is what its fields hold.
pub proof fn law_info_shows_its_fields(info: TerminalInfo, i: int)
    ensures
        info@.id == info.id,
        info@.pid == info.pid,
        info@.title == info.title@,
        info@.foreground_process is Some <==> info.foreground_process is Some,
        info.foreground_process matches Some(name) ==> info@.foreground_process == Some(name@),
        info@.group_id == info.group_id@,
        info@.command.len() == info.command@.len(),
        0 <= i < info.command@.len() ==> info@.command[i] == info.command@[i]@,
        info@.cwd == info.cwd,
        info@.cols == info.cols,
        info@.rows == info.rows,
        info@.output_head == info.output_head,
        info@.output_tail == info.output_tail,
        info.lifecycle is Running <==> info@.lifecycle is Running,
        info.lifecycle matches TerminalLifecycle::Exited { exit_code } ==> info@.lifecycle == (
        LifecycleView::Exited { exit_code }),
        info.lifecycle matches TerminalLifecycle::Failed { message } ==> info@.lifecycle == (
        LifecycleView::Failed { message: message@ }),
{
}

/// What is said in contracts of a snapshot, of rows and of a replay is what their fields hold.
pub proof fn law_pictures_show_their_fields(
    snapshot: TerminalSnapshot,
    rows: TerminalRows,
    replay: RawReplay,
    i: int,
)
    ensures
        snapshot@.info == snapshot.info@,
        snapshot@.text == snapshot.text@,
        snapshot@.checkpoint == snapshot.checkpoint@,
        snapshot@.cursor_x == snapshot.cursor_x,
        snapshot@.cursor_y == snapshot.cursor_y,
        rows@.terminal == rows.terminal@,
        rows@.lines.len() == rows.lines@.len(),
        0 <= i < rows.lines@.len() ==> rows@.lines[i] == rows.lines@[i]@,
        rows@.cursor_x == rows.cursor_x,
        rows@.cursor_y == rows.cursor_y,
        replay@.requested_offset == replay.requested_offset,
        replay@.available_offset == replay.available_offset,
        replay@.end_offset == replay.end_offset,
        replay@.truncated == replay.truncated,
        replay@.bytes == replay.bytes@,
{
}

/// What is said of an event in contracts is what it holds.
pub proof fn law_events_show_their_fields(event: StreamEvent)
    ensures
        match (event, event@) {
            (
                StreamEvent::Output { start, end, bytes },
                StreamEventView::Output { start: s, end: e, bytes: b },
            ) => s == start && e == end && b == bytes@,
            (
                StreamEvent::Resized { cols, rows, generation, checkpoint },
                StreamEventView::Resized { cols: c, rows: r, generation: g, checkpoint: p },
            ) => c == cols && r == rows && g == generation && p == checkpoint@,
            (
                StreamEvent::Exited { exit_code, final_offset },
                StreamEventView::Exited { exit_code: c, final_offset: o },
            ) => c == exit_code && o == final_offset,
            (
                StreamEvent::ControllerChanged { attachment_id, generation },
                StreamEventView::ControllerChanged { attachment_id: a, generation: g },
            ) => a == opt_text(attachment_id) && g == generation,
            (
                StreamEvent::TitleChanged { title },
                StreamEventView::TitleChanged { title: t },
            ) => t == title@,
            (
                StreamEvent::ForegroundProcessChanged { process },
                StreamEventView::ForegroundProcessChanged { process: p },
            ) => p == opt_text(process),
            _ => false,
        },
{
}

} // verus!
