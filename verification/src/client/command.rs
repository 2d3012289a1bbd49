//! What is typed at a client.
use crate::encoding::{shell_line, split_shell_line, text_bytes};
use crate::error::Error;
use crate::service::model::{CreateTerminal, TerminalId, TerminalInfo};
use crate::text::{
    first_white, head_of, is_blank, is_white, joined, owned, parse_unsigned, same, split_once_white, split_words, tail_of, texts,
    trim, trim_end, trimmed, trimmed_end, unsigned_value, words, NumberError,
};
use std::collections::HashMap;
use std::path::PathBuf;
use vstd::prelude::*;
use vstd::utf8::encode_utf8;

verus! {

/// How long `wait` waits if nothing else is asked for, in milliseconds.
pub const DEFAULT_WAIT_MILLIS: u64 = 250;

/// What the program is started for.
pub enum CliCommand {
    Daemon,
    Fixture,
    Play,
    Status,
    Stop,
    List,
    Watch(TerminalId),
    Version,
    Help,
    Unknown(String),
}

/// A `CliCommand` as a mathematical value.
pub enum CliView {
    Daemon,
    Fixture,
    Play,
    Status,
    Stop,
    List,
    Watch(TerminalId),
    Version,
    Help,
    Unknown(Seq<char>),
}

/// What a line at the playground asks for.
#[allow(inconsistent_fields)]
pub enum PlayCommand {
    /// Nothing.
    Empty,
    /// A terminal for the shell.
    NewShell,
    /// A terminal for a command line.
    New(Vec<String>),
    List,
    Use(TerminalId),
    Send { id: TerminalId, bytes: Vec<u8> },
    Run { id: TerminalId, bytes: Vec<u8> },
    Screen(TerminalId),
    Replay { id: TerminalId, offset: u64 },
    Resize { id: TerminalId, cols: u16, rows: u16 },
    /// Wait, then show the terminal, if there is one.
    Wait { millis: u64, id: Option<TerminalId> },
    Kill(TerminalId),
    Demo,
    Help,
    Quit,
    Unknown(String),
}

/// A `PlayCommand` as a mathematical value.
#[allow(inconsistent_fields)]
pub enum PlayView {
    Empty,
    NewShell,
    New(Seq<Seq<char>>),
    List,
    Use(TerminalId),
    Send { id: TerminalId, bytes: Seq<u8> },
    Run { id: TerminalId, bytes: Seq<u8> },
    Screen(TerminalId),
    Replay { id: TerminalId, offset: u64 },
    Resize { id: TerminalId, cols: u16, rows: u16 },
    Wait { millis: u64, id: Option<TerminalId> },
    Kill(TerminalId),
    Demo,
    Help,
    Quit,
    Unknown(Seq<char>),
}

impl View for CliCommand {
    type V = CliView;

    open spec fn view(&self) -> CliView {
        match self {
            CliCommand::Daemon => CliView::Daemon,
            CliCommand::Fixture => CliView::Fixture,
            CliCommand::Play => CliView::Play,
            CliCommand::Status => CliView::Status,
            CliCommand::Stop => CliView::Stop,
            CliCommand::List => CliView::List,
            CliCommand::Watch(id) => CliView::Watch(*id),
            CliCommand::Version => CliView::Version,
            CliCommand::Help => CliView::Help,
            CliCommand::Unknown(command) => CliView::Unknown(command@),
        }
    }
}

impl View for PlayCommand {
    type V = PlayView;

    open spec fn view(&self) -> PlayView {
        match self {
            PlayCommand::Empty => PlayView::Empty,
            PlayCommand::NewShell => PlayView::NewShell,
            PlayCommand::New(words) => PlayView::New(texts(words@)),
            PlayCommand::List => PlayView::List,
            PlayCommand::Use(id) => PlayView::Use(*id),
            PlayCommand::Send { id, bytes } => PlayView::Send { id: *id, bytes: bytes@ },
            PlayCommand::Run { id, bytes } => PlayView::Run { id: *id, bytes: bytes@ },
            PlayCommand::Screen(id) => PlayView::Screen(*id),
            PlayCommand::Replay { id, offset } => PlayView::Replay { id: *id, offset: *offset },
            PlayCommand::Resize { id, cols, rows } => PlayView::Resize {
                id: *id,
                cols: *cols,
                rows: *rows,
            },
            PlayCommand::Wait { millis, id } => PlayView::Wait { millis: *millis, id: *id },
            PlayCommand::Kill(id) => PlayView::Kill(*id),
            PlayCommand::Demo => PlayView::Demo,
            PlayCommand::Help => PlayView::Help,
            PlayCommand::Quit => PlayView::Quit,
            PlayCommand::Unknown(command) => PlayView::Unknown(command@),
        }
    }
}

/// The number of a terminal that a text is.
pub open spec fn id_value(text: Seq<char>) -> Result<u64, Error> {
    match unsigned_value(text, u64::MAX as int) {
        Ok(n) => Ok(n as u64),
        Err(number) => Err(Error::ExpectedTerminalId { number }),
    }
}

/// The number that a text is.
pub open spec fn number_value(text: Seq<char>, max: int) -> Result<int, Error> {
    match unsigned_value(text, max) {
        Ok(n) => Ok(n),
        Err(number) => Err(Error::NotANumber { number }),
    }
}

/// The active terminal.
pub open spec fn active_value(active: Option<u64>) -> Result<u64, Error> {
    match active {
        Some(id) => Ok(id),
        None => Err(Error::NoActiveTerminal),
    }
}

/// The terminal that a text names, or else the active one.
pub open spec fn optional_value(text: Seq<char>, active: Option<u64>) -> Result<u64, Error> {
    if trimmed(text).len() == 0 {
        active_value(active)
    } else {
        id_value(trimmed(text))
    }
}

/// What the program is started for, by the words behind its name.
pub open spec fn cli_value(args: Seq<Seq<char>>) -> Result<CliView, Error> {
    if args.len() == 0 || args[0] == "play"@ {
        Ok(CliView::Play)
    } else if args[0] == "daemon"@ {
        if args.len() > 1 {
            Err(Error::UsageDaemon)
        } else {
            Ok(CliView::Daemon)
        }
    } else if args[0] == "fixture"@ {
        Ok(CliView::Fixture)
    } else if args[0] == "status"@ {
        Ok(CliView::Status)
    } else if args[0] == "stop"@ {
        Ok(CliView::Stop)
    } else if args[0] == "list"@ {
        Ok(CliView::List)
    } else if args[0] == "watch"@ {
        if args.len() == 1 {
            Err(Error::UsageWatch)
        } else {
            match id_value(args[1]) {
                Ok(id) => Ok(CliView::Watch(id)),
                Err(e) => Err(e),
            }
        }
    } else if args[0] == "version"@ || args[0] == "--version"@ || args[0] == "-V"@ {
        Ok(CliView::Version)
    } else if args[0] == "help"@ || args[0] == "--help"@ || args[0] == "-h"@ {
        Ok(CliView::Help)
    } else {
        Ok(CliView::Unknown(args[0]))
    }
}

/// What `new` asks for: the words of a command line, unless a quote stays open.
pub open spec fn new_value(line: Option<Seq<Seq<char>>>) -> Result<PlayView, Error> {
    match line {
        None => Err(Error::UnclosedQuote),
        Some(words) => if words.len() == 0 {
            Ok(PlayView::NewShell)
        } else {
            Ok(PlayView::New(words))
        },
    }
}

/// What `replay` asks for: a terminal, or else the active one, and an offset, or else 0.
pub open spec fn replay_value(list: Seq<Seq<char>>, active: Option<u64>) -> Result<
    PlayView,
    Error,
> {
    let id: Result<u64, Error> = if list.len() > 0 {
        match number_value(list[0], u64::MAX as int) {
            Ok(n) => Ok(n as u64),
            Err(e) => Err(e),
        }
    } else {
        match active {
            Some(id) => Ok(id),
            None => Err(Error::NoTerminal),
        }
    };
    match id {
        Err(e) => Err(e),
        Ok(id) => if list.len() > 1 {
            match number_value(list[1], u64::MAX as int) {
                Ok(n) => Ok(PlayView::Replay { id, offset: n as u64 }),
                Err(e) => Err(e),
            }
        } else {
            Ok(PlayView::Replay { id, offset: 0 })
        },
    }
}

/// What `resize` asks for.
pub open spec fn resize_value(list: Seq<Seq<char>>, active: Option<u64>) -> Result<
    PlayView,
    Error,
> {
    if list.len() == 0 {
        Err(Error::UsageResize)
    } else {
        match number_value(list[0], u16::MAX as int) {
            Err(e) => Err(e),
            Ok(cols) => if list.len() == 1 {
                Err(Error::UsageResize)
            } else {
                match (number_value(list[1], u16::MAX as int), active_value(active)) {
                    (Err(e), _) => Err(e),
                    (Ok(_), Err(e)) => Err(e),
                    (Ok(rows), Ok(id)) => Ok(
                        PlayView::Resize { id, cols: cols as u16, rows: rows as u16 },
                    ),
                }
            },
        }
    }
}

/// What a command at the playground and the text behind it ask for.
pub open spec fn play_value(command: Seq<char>, rest: Seq<char>, active: Option<u64>) -> Result<
    PlayView,
    Error,
> {
    if command == "new"@ {
        new_value(shell_line(rest))
    } else if command == "list"@ {
        Ok(PlayView::List)
    } else if command == "use"@ {
        match id_value(trimmed(rest)) {
            Ok(id) => Ok(PlayView::Use(id)),
            Err(e) => Err(e),
        }
    } else if command == "send"@ {
        match active_value(active) {
            Ok(id) => Ok(PlayView::Send { id, bytes: encode_utf8(rest) }),
            Err(e) => Err(e),
        }
    } else if command == "run"@ {
        match active_value(active) {
            Ok(id) => Ok(PlayView::Run { id, bytes: encode_utf8(rest).push(0x0d) }),
            Err(e) => Err(e),
        }
    } else if command == "screen"@ {
        match optional_value(rest, active) {
            Ok(id) => Ok(PlayView::Screen(id)),
            Err(e) => Err(e),
        }
    } else if command == "replay"@ {
        replay_value(words(rest), active)
    } else if command == "resize"@ {
        resize_value(words(rest), active)
    } else if command == "wait"@ {
        if trimmed(rest).len() == 0 {
            Ok(PlayView::Wait { millis: 250, id: active })
        } else {
            match number_value(trimmed(rest), u64::MAX as int) {
                Ok(n) => Ok(PlayView::Wait { millis: n as u64, id: active }),
                Err(e) => Err(e),
            }
        }
    } else if command == "kill"@ {
        match optional_value(rest, active) {
            Ok(id) => Ok(PlayView::Kill(id)),
            Err(e) => Err(e),
        }
    } else if command == "demo"@ {
        Ok(PlayView::Demo)
    } else if command == "help"@ {
        Ok(PlayView::Help)
    } else if command == "quit"@ || command == "exit"@ {
        Ok(PlayView::Quit)
    } else {
        Ok(PlayView::Unknown(command))
    }
}

/// What a line at the playground asks for: nothing, or what its first word and the rest do.
pub open spec fn line_value(line: Seq<char>, active: Option<u64>) -> Result<PlayView, Error> {
    let text = trimmed_end(line);
    if text.len() == 0 {
        Ok(PlayView::Empty)
    } else {
        play_value(head_of(text), tail_of(text), active)
    }
}

/// The parsed command, as a mathematical value.
pub open spec fn play_result(r: Result<PlayCommand, Error>) -> Result<PlayView, Error> {
    match r {
        Ok(command) => Ok(command@),
        Err(e) => Err(e),
    }
}

/// The number of a terminal that a text is.
pub fn parse_id(value: &str) -> (r: Result<TerminalId, Error>)
    ensures
        r == id_value(trimmed(value@)),
{
    let text = trim(value);
    parse_terminal_id(text.as_str())
}

fn parse_terminal_id(text: &str) -> (r: Result<TerminalId, Error>)
    ensures
        r == id_value(text@),
{
    match parse_unsigned(text, u64::MAX) {
        Ok(id) => Ok(id),
        Err(number) => Err(Error::ExpectedTerminalId { number }),
    }
}

fn parse_number(text: &str, max: u64) -> (r: Result<u64, Error>)
    ensures
        match number_value(text@, max as int) {
            Ok(n) => r == Ok::<u64, Error>(n as u64) && 0 <= n <= max,
            Err(e) => r == Err::<u64, Error>(e),
        },
{
    match parse_unsigned(text, max) {
        Ok(n) => Ok(n),
        Err(number) => Err(Error::NotANumber { number }),
    }
}

/// The active terminal.
pub fn require_active(active: Option<TerminalId>) -> (r: Result<TerminalId, Error>)
    ensures
        r == active_value(active),
{
    match active {
        Some(id) => Ok(id),
        None => Err(Error::NoActiveTerminal),
    }
}

/// The terminal that a text names, or else the active one.
pub fn optional_id(value: &str, active: Option<TerminalId>) -> (r: Result<TerminalId, Error>)
    ensures
        r == optional_value(value@, active),
{
    let text = trim(value);
    if text.as_str().is_empty() {
        require_active(active)
    } else {
        parse_terminal_id(text.as_str())
    }
}

/// What the program is started for, by the words behind its name.
pub fn run_cli(args: &Vec<String>) -> (r: Result<CliCommand, Error>)
    ensures
        match r {
            Ok(command) => cli_value(texts(args@)) == Ok::<CliView, Error>(command@),
            Err(e) => cli_value(texts(args@)) == Err::<CliView, Error>(e),
        },
{
    let ghost list = texts(args@);
    assert(list.len() == args@.len());
    if args.len() == 0 {
        return Ok(CliCommand::Play);
    }
    let command = args[0].as_str();
    assert(list[0] == command@);
    if same(command, "play") {
        Ok(CliCommand::Play)
    } else if same(command, "daemon") {
        if args.len() > 1 {
            Err(Error::UsageDaemon)
        } else {
            Ok(CliCommand::Daemon)
        }
    } else if same(command, "fixture") {
        Ok(CliCommand::Fixture)
    } else if same(command, "status") {
        Ok(CliCommand::Status)
    } else if same(command, "stop") {
        Ok(CliCommand::Stop)
    } else if same(command, "list") {
        Ok(CliCommand::List)
    } else if same(command, "watch") {
        if args.len() == 1 {
            return Err(Error::UsageWatch);
        }
        assert(list[1] == args@[1]@);
        match parse_terminal_id(args[1].as_str()) {
            Ok(id) => Ok(CliCommand::Watch(id)),
            Err(e) => Err(e),
        }
    } else if same(command, "version") || same(command, "--version") || same(command, "-V") {
        Ok(CliCommand::Version)
    } else if same(command, "help") || same(command, "--help") || same(command, "-h") {
        Ok(CliCommand::Help)
    } else {
        Ok(CliCommand::Unknown(owned(command)))
    }
}

/// What `new` asks for, by the words of a command line, unless a quote stayed open.
pub fn parse_new(line: Option<Vec<String>>) -> (r: Result<PlayCommand, Error>)
    ensures
        play_result(r) == new_value(
            match line {
                Some(list) => Some(texts(list@)),
                None => None,
            },
        ),
{
    match line {
        None => Err(Error::UnclosedQuote),
        Some(list) => {
            assert(texts(list@).len() == list@.len());
            if list.len() == 0 {
                Ok(PlayCommand::NewShell)
            } else {
                Ok(PlayCommand::New(list))
            }
        },
    }
}

fn parse_replay(rest: &str, active: Option<TerminalId>) -> (r: Result<PlayCommand, Error>)
    ensures
        play_result(r) == replay_value(words(rest@), active),
{
    let list = split_words(rest);
    let ghost view = texts(list@);
    assert(view.len() == list@.len());
    let id: u64 = if list.len() > 0 {
        assert(view[0] == list@[0]@);
        match parse_number(list[0].as_str(), u64::MAX) {
            Ok(id) => id,
            Err(e) => {
                return Err(e);
            },
        }
    } else {
        match active {
            Some(id) => id,
            None => {
                return Err(Error::NoTerminal);
            },
        }
    };
    if list.len() > 1 {
        assert(view[1] == list@[1]@);
        match parse_number(list[1].as_str(), u64::MAX) {
            Ok(offset) => Ok(PlayCommand::Replay { id, offset }),
            Err(e) => Err(e),
        }
    } else {
        Ok(PlayCommand::Replay { id, offset: 0 })
    }
}

fn parse_resize(rest: &str, active: Option<TerminalId>) -> (r: Result<PlayCommand, Error>)
    ensures
        play_result(r) == resize_value(words(rest@), active),
{
    let list = split_words(rest);
    let ghost view = texts(list@);
    assert(view.len() == list@.len());
    if list.len() == 0 {
        return Err(Error::UsageResize);
    }
    assert(view[0] == list@[0]@);
    let cols: u64 = match parse_number(list[0].as_str(), u16::MAX as u64) {
        Ok(n) => n,
        Err(e) => {
            return Err(e);
        },
    };
    if list.len() == 1 {
        return Err(Error::UsageResize);
    }
    assert(view[1] == list@[1]@);
    let rows: u64 = match parse_number(list[1].as_str(), u16::MAX as u64) {
        Ok(n) => n,
        Err(e) => {
            return Err(e);
        },
    };
    match require_active(active) {
        Ok(id) => Ok(PlayCommand::Resize { id, cols: cols as u16, rows: rows as u16 }),
        Err(e) => Err(e),
    }
}

fn parse_wait(rest: &str, active: Option<TerminalId>) -> (r: Result<PlayCommand, Error>)
    ensures
        play_result(r) == if trimmed(rest@).len() == 0 {
            Ok::<PlayView, Error>(PlayView::Wait { millis: 250, id: active })
        } else {
            match number_value(trimmed(rest@), u64::MAX as int) {
                Ok(n) => Ok(PlayView::Wait { millis: n as u64, id: active }),
                Err(e) => Err(e),
            }
        },
{
    let text = trim(rest);
    if text.as_str().is_empty() {
        return Ok(PlayCommand::Wait { millis: DEFAULT_WAIT_MILLIS, id: active });
    }
    match parse_number(text.as_str(), u64::MAX) {
        Ok(millis) => Ok(PlayCommand::Wait { millis, id: active }),
        Err(e) => Err(e),
    }
}

/// What a command at the playground and the text behind it ask for.
pub fn parse_command(command: &str, rest: &str, active: Option<TerminalId>) -> (r: Result<
    PlayCommand,
    Error,
>)
    ensures
        play_result(r) == play_value(command@, rest@, active),
{
    if same(command, "new") {
        parse_new(split_shell_line(rest))
    } else if same(command, "list") {
        Ok(PlayCommand::List)
    } else if same(command, "use") {
        match parse_id(rest) {
            Ok(id) => Ok(PlayCommand::Use(id)),
            Err(e) => Err(e),
        }
    } else if same(command, "send") {
        match require_active(active) {
            Ok(id) => Ok(PlayCommand::Send { id, bytes: text_bytes(rest) }),
            Err(e) => Err(e),
        }
    } else if same(command, "run") {
        match require_active(active) {
            Ok(id) => {
                let mut bytes = text_bytes(rest);
                bytes.push(0x0d);
                Ok(PlayCommand::Run { id, bytes })
            },
            Err(e) => Err(e),
        }
    } else if same(command, "screen") {
        match optional_id(rest, active) {
            Ok(id) => Ok(PlayCommand::Screen(id)),
            Err(e) => Err(e),
        }
    } else if same(command, "replay") {
        parse_replay(rest, active)
    } else if same(command, "resize") {
        parse_resize(rest, active)
    } else if same(command, "wait") {
        parse_wait(rest, active)
    } else if same(command, "kill") {
        match optional_id(rest, active) {
            Ok(id) => Ok(PlayCommand::Kill(id)),
            Err(e) => Err(e),
        }
    } else if same(command, "demo") {
        Ok(PlayCommand::Demo)
    } else if same(command, "help") {
        Ok(PlayCommand::Help)
    } else if same(command, "quit") || same(command, "exit") {
        Ok(PlayCommand::Quit)
    } else {
        Ok(PlayCommand::Unknown(owned(command)))
    }
}

/// What a line at the playground asks for.
pub fn parse_line(line: &str, active: Option<TerminalId>) -> (r: Result<PlayCommand, Error>)
    ensures
        play_result(r) == line_value(line@, active),
{
    let text = trim_end(line);
    if text.as_str().is_empty() {
        return Ok(PlayCommand::Empty);
    }
    let (command, rest) = split_once_white(text.as_str());
    parse_command(command.as_str(), rest.as_str(), active)
}

/// The first of the listed terminals.
pub fn first_terminal(terminals: &Vec<TerminalInfo>) -> (r: Option<TerminalId>)
    ensures
        r == if terminals@.len() == 0 {
            None::<u64>
        } else {
            Some(terminals@[0].id)
        },
{
    if terminals.len() == 0 {
        None
    } else {
        Some(terminals[0].id)
    }
}

/// Whether another terminal becomes the active one because this one was ended.
pub fn loses_active(active: Option<TerminalId>, ended: TerminalId) -> (r: bool)
    ensures
        r == (active == Some(ended)),
{
    match active {
        Some(id) => id == ended,
        None => false,
    }
}

/// Whether a terminal has answered the question for its state as it should.
pub fn is_state_report(answer: &[u8]) -> (r: bool)
    ensures
        r == (answer@ == seq![0x1bu8, 0x5b, 0x30, 0x6e]),
{
    let r = answer.len() == 4 && answer[0] == 0x1b && answer[1] == 0x5b && answer[2] == 0x30
        && answer[3] == 0x6e;
    assert(r ==> answer@ =~= seq![0x1bu8, 0x5b, 0x30, 0x6e]);
    r
}

impl CreateTerminal {
    /// A terminal of the playground for a command line.
    pub fn playground(list: &Vec<String>, cwd: PathBuf, cwd_text: &str) -> (r: Self)
        requires
            list@.len() > 0,
        ensures
            r.program@ == list@[0]@,
            r.title@ == list@[0]@,
            texts(r.args@) == texts(list@).skip(1),
            r.cwd == cwd,
            r.group_id@ == "playground:"@ + cwd_text@,
            r.env@ == Map::<String, String>::empty(),
            r.cols == 100,
            r.rows == 30,
    {
        let mut args: Vec<String> = Vec::new();
        let mut i: usize = 1;
        while i < list.len()
            invariant
                1 <= i <= list@.len(),
                args@.len() == i - 1,
                forall|j: int| 0 <= j < i - 1 ==> (#[trigger] args@[j])@ == list@[j + 1]@,
            decreases list@.len() - i,
        {
            args.push(list[i].clone());
            i += 1;
        }
        assert(texts(args@) =~= texts(list@).skip(1));
        CreateTerminal {
            program: list[0].clone(),
            args,
            cwd,
            title: list[0].clone(),
            group_id: joined(owned("playground:"), cwd_text),
            env: HashMap::new(),
            cols: 100,
            rows: 30,
        }
    }

    /// A terminal that shows how questions to the terminal are answered.
    pub fn demo(program: String, cwd: PathBuf, cwd_text: &str) -> (r: Self)
        ensures
            r.program == program,
            r.title@ == "query-fixture"@,
            texts(r.args@) == seq!["fixture"@],
            r.cwd == cwd,
            r.group_id@ == "playground:"@ + cwd_text@,
            r.env@ == Map::<String, String>::empty(),
            r.cols == 100,
            r.rows == 30,
    {
        let mut args: Vec<String> = Vec::new();
        args.push(owned("fixture"));
        assert(texts(args@) =~= seq!["fixture"@]);
        CreateTerminal {
            program,
            args,
            cwd,
            title: owned("query-fixture"),
            group_id: joined(owned("playground:"), cwd_text),
            env: HashMap::new(),
            cols: 100,
            rows: 30,
        }
    }
}

/// The words for commands differ.
proof fn lemma_commands_differ()
    ensures
        "new"@.len() == 3 && "new"@[0] == 'n',
        "use"@.len() == 3 && "use"@[0] == 'u',
        "run"@.len() == 3 && "run"@[0] == 'r',
        "list"@.len() == 4 && "list"@[0] == 'l',
        "send"@.len() == 4 && "send"@[0] == 's',
        "wait"@.len() == 4 && "wait"@[0] == 'w',
        "kill"@.len() == 4 && "kill"@[0] == 'k',
        "demo"@.len() == 4 && "demo"@[0] == 'd',
        "help"@.len() == 4 && "help"@[0] == 'h',
        "quit"@.len() == 4 && "quit"@[0] == 'q',
        "exit"@.len() == 4 && "exit"@[0] == 'e',
        "screen"@.len() == 6 && "screen"@[0] == 's' && "screen"@[2] == 'r',
        "replay"@.len() == 6 && "replay"@[0] == 'r' && "replay"@[2] == 'p',
        "resize"@.len() == 6 && "resize"@[0] == 'r' && "resize"@[2] == 's',
{
    reveal_strlit("new");
    reveal_strlit("use");
    reveal_strlit("run");
    reveal_strlit("list");
    reveal_strlit("send");
    reveal_strlit("wait");
    reveal_strlit("kill");
    reveal_strlit("demo");
    reveal_strlit("help");
    reveal_strlit("quit");
    reveal_strlit("exit");
    reveal_strlit("screen");
    reveal_strlit("replay");
    reveal_strlit("resize");
}

/// Commands for the active terminal go to it, and are refused without one. What stands behind `send`
/// is sent as it is, and what stands behind `run` with a carriage return.
pub proof fn law_active_terminal_is_used(rest: Seq<char>, active: Option<u64>)
    ensures
        match active {
            Some(id) => {
                &&& play_value("send"@, rest, active) == Ok::<PlayView, Error>(
                    PlayView::Send { id, bytes: encode_utf8(rest) },
                )
                &&& play_value("run"@, rest, active) == Ok::<PlayView, Error>(
                    PlayView::Run { id, bytes: encode_utf8(rest).push(13) },
                )
                &&& trimmed(rest).len() == 0 ==> play_value("screen"@, rest, active) == Ok::<
                    PlayView,
                    Error,
                >(PlayView::Screen(id))
                &&& trimmed(rest).len() == 0 ==> play_value("kill"@, rest, active) == Ok::<
                    PlayView,
                    Error,
                >(PlayView::Kill(id))
            },
            None => {
                &&& play_value("send"@, rest, active) matches Err(e) && e@
                    == "no active terminal; use `new` or `use ID`"@
                &&& play_value("run"@, rest, active) matches Err(e) && e@
                    == "no active terminal; use `new` or `use ID`"@
                &&& trimmed(rest).len() == 0 ==> (play_value("screen"@, rest, active) matches Err(e)
                    && e@ == "no active terminal; use `new` or `use ID`"@)
                &&& trimmed(rest).len() == 0 ==> (play_value("kill"@, rest, active) matches Err(e)
                    && e@ == "no active terminal; use `new` or `use ID`"@)
            },
        },
{
    lemma_commands_differ();
}

/// A terminal that is named by its number is used, whichever is the active one; anything that is
/// not a number is refused.
pub proof fn law_named_terminal_is_used(rest: Seq<char>, active: Option<u64>, n: u64)
    requires
        trimmed(rest).len() > 0,
    ensures
        unsigned_value(trimmed(rest), u64::MAX as int) == Ok::<int, NumberError>(n as int) ==> {
            &&& play_value("use"@, rest, active) == Ok::<PlayView, Error>(PlayView::Use(n))
            &&& play_value("screen"@, rest, active) == Ok::<PlayView, Error>(PlayView::Screen(n))
            &&& play_value("kill"@, rest, active) == Ok::<PlayView, Error>(PlayView::Kill(n))
        },
        unsigned_value(trimmed(rest), u64::MAX as int) matches Err(fault) ==> {
            &&& play_value("use"@, rest, active) matches Err(e) && e@ == "expected terminal ID: "@
                + fault.text()
            &&& play_value("screen"@, rest, active) matches Err(e) && e@
                == "expected terminal ID: "@ + fault.text()
            &&& play_value("kill"@, rest, active) matches Err(e) && e@ == "expected terminal ID: "@
                + fault.text()
        },
{
    lemma_commands_differ();
}

/// `resize` brings the active terminal to the columns and rows that it names, in this order.
pub proof fn law_resize_names_columns_first(
    rest: Seq<char>,
    active: Option<u64>,
    cols: u16,
    rows: u16,
)
    ensures
        words(rest).len() < 2 ==> play_value("resize"@, rest, active) is Err,
        words(rest).len() == 0 ==> (play_value("resize"@, rest, active) matches Err(e) && e@
            == "usage: resize COLS ROWS"@),
        words(rest).len() >= 2 && unsigned_value(words(rest)[0], 65535) == Ok::<int, NumberError>(
            cols as int,
        ) && unsigned_value(words(rest)[1], 65535) == Ok::<int, NumberError>(rows as int) ==> {
            match active {
                Some(id) => play_value("resize"@, rest, active) == Ok::<PlayView, Error>(
                    PlayView::Resize { id, cols, rows },
                ),
                None => play_value("resize"@, rest, active) is Err,
            }
        },
        words(rest).len() >= 2 && (unsigned_value(words(rest)[0], 65535) is Err || unsigned_value(
            words(rest)[1],
            65535,
        ) is Err) ==> play_value("resize"@, rest, active) is Err,
{
    lemma_commands_differ();
}

/// `replay` names a terminal and an offset; what is left out is the active terminal and the
/// beginning.
pub proof fn law_replay_names_a_terminal_first(
    rest: Seq<char>,
    active: Option<u64>,
    id: u64,
    offset: u64,
)
    ensures
        words(rest).len() == 0 ==> match active {
            Some(a) => play_value("replay"@, rest, active) == Ok::<PlayView, Error>(
                PlayView::Replay { id: a, offset: 0 },
            ),
            None => play_value("replay"@, rest, active) matches Err(e) && e@
                == "no active terminal"@,
        },
        words(rest).len() == 1 && unsigned_value(words(rest)[0], u64::MAX as int) == Ok::<
            int,
            NumberError,
        >(id as int) ==> play_value("replay"@, rest, active) == Ok::<PlayView, Error>(
            PlayView::Replay { id, offset: 0 },
        ),
        words(rest).len() >= 2 && unsigned_value(words(rest)[0], u64::MAX as int) == Ok::<
            int,
            NumberError,
        >(id as int) && unsigned_value(words(rest)[1], u64::MAX as int) == Ok::<int, NumberError>(
            offset as int,
        ) ==> play_value("replay"@, rest, active) == Ok::<PlayView, Error>(
            PlayView::Replay { id, offset },
        ),
        words(rest).len() >= 1 && unsigned_value(words(rest)[0], u64::MAX as int) is Err
            ==> play_value("replay"@, rest, active) is Err,
        words(rest).len() >= 2 && unsigned_value(words(rest)[1], u64::MAX as int) is Err
            ==> play_value("replay"@, rest, active) is Err,
{
    lemma_commands_differ();
}

/// `wait` waits for as many milliseconds as it names, or a quarter of a second, then for the active
/// terminal.
pub proof fn law_wait_names_milliseconds(rest: Seq<char>, active: Option<u64>, millis: u64)
    ensures
        trimmed(rest).len() == 0 ==> play_value("wait"@, rest, active) == Ok::<PlayView, Error>(
            PlayView::Wait { millis: 250, id: active },
        ),
        trimmed(rest).len() > 0 && unsigned_value(trimmed(rest), u64::MAX as int) == Ok::<
            int,
            NumberError,
        >(millis as int) ==> play_value("wait"@, rest, active) == Ok::<PlayView, Error>(
            PlayView::Wait { millis, id: active },
        ),
        trimmed(rest).len() > 0 && unsigned_value(trimmed(rest), u64::MAX as int) is Err
            ==> play_value("wait"@, rest, active) is Err,
{
    lemma_commands_differ();
}

/// `new` takes the words of a command line as a shell would, and without any a shell.
pub proof fn law_new_takes_a_command_line(rest: Seq<char>, active: Option<u64>)
    ensures
        match shell_line(rest) {
            None => play_value("new"@, rest, active) matches Err(e) && e@
                == "missing closing quote"@,
            Some(list) => play_value("new"@, rest, active) == Ok::<PlayView, Error>(
                if list.len() == 0 {
                    PlayView::NewShell
                } else {
                    PlayView::New(list)
                },
            ),
        },
{
    lemma_commands_differ();
}

/// The other commands stand alone, and anything else is unknown.
pub proof fn law_plain_commands(rest: Seq<char>, active: Option<u64>, other: Seq<char>)
    ensures
        play_value("list"@, rest, active) == Ok::<PlayView, Error>(PlayView::List),
        play_value("demo"@, rest, active) == Ok::<PlayView, Error>(PlayView::Demo),
        play_value("help"@, rest, active) == Ok::<PlayView, Error>(PlayView::Help),
        play_value("quit"@, rest, active) == Ok::<PlayView, Error>(PlayView::Quit),
        play_value("exit"@, rest, active) == Ok::<PlayView, Error>(PlayView::Quit),
        play_value(other, rest, active) == Ok::<PlayView, Error>(PlayView::Unknown(other)) || other
            == "new"@ || other == "list"@ || other == "use"@ || other == "send"@ || other == "run"@
            || other == "screen"@ || other == "replay"@ || other == "resize"@ || other == "wait"@
            || other == "kill"@ || other == "demo"@ || other == "help"@ || other == "quit"@ || other
            == "exit"@,
{
    lemma_commands_differ();
}

/// A line is a command and, behind white space, what belongs to it; white space at the end of the
/// line does not count.
pub proof fn law_line_is_a_command_and_its_rest(
    command: Seq<char>,
    gap: char,
    rest: Seq<char>,
    end: Seq<char>,
    active: Option<u64>,
)
    requires
        command.len() > 0,
        forall|i: int| 0 <= i < command.len() ==> !is_white(#[trigger] command[i]),
        is_white(gap),
        rest.len() > 0,
        !is_white(rest.last()),
        is_blank(end),
    ensures
        line_value(command.push(gap) + rest + end, active) == play_value(command, rest, active),
        line_value(command + end, active) == play_value(command, Seq::empty(), active),
        line_value(end, active) == Ok::<PlayView, Error>(PlayView::Empty),
{
    let text = command.push(gap) + rest;
    lemma_trimmed_behind(text, end);
    lemma_trimmed_behind(command, end);
    lemma_trimmed_behind(Seq::empty(), end);
    assert(Seq::<char>::empty() + end =~= end);
    lemma_first_white(command, gap, rest);
    assert(head_of(text) =~= command);
    assert(tail_of(text) =~= rest);
    lemma_no_white(command);
    assert(head_of(command) =~= command);
}

/// White space behind a text that does not end in any is what trimming takes away.
proof fn lemma_trimmed_behind(text: Seq<char>, end: Seq<char>)
    requires
        text.len() == 0 || !is_white(text.last()),
        is_blank(end),
    ensures
        trimmed_end(text + end) == text,
    decreases end.len(),
{
    if end.len() == 0 {
        assert(text + end =~= text);
    } else {
        assert((text + end).drop_last() =~= text + end.drop_last());
        assert(is_white(end[end.len() - 1]));
        assert(is_blank(end.drop_last()));
        lemma_trimmed_behind(text, end.drop_last());
    }
}

proof fn lemma_no_white(command: Seq<char>)
    requires
        forall|i: int| 0 <= i < command.len() ==> !is_white(#[trigger] command[i]),
    ensures
        first_white(command) == command.len(),
    decreases command.len(),
{
    if command.len() > 0 {
        assert(!is_white(command[0]));
        assert forall|i: int| 0 <= i < command.skip(1).len() implies !is_white(
            #[trigger] command.skip(1)[i],
        ) by {
            assert(command.skip(1)[i] == command[i + 1]);
        }
        lemma_no_white(command.skip(1));
    }
}

proof fn lemma_first_white(command: Seq<char>, gap: char, rest: Seq<char>)
    requires
        forall|i: int| 0 <= i < command.len() ==> !is_white(#[trigger] command[i]),
        is_white(gap),
    ensures
        first_white(command.push(gap) + rest) == command.len(),
    decreases command.len(),
{
    let text = command.push(gap) + rest;
    if command.len() == 0 {
        assert(text[0] == gap);
    } else {
        assert(text[0] == command[0]);
        assert(text.skip(1) =~= command.skip(1).push(gap) + rest);
        assert forall|i: int| 0 <= i < command.skip(1).len() implies !is_white(
            #[trigger] command.skip(1)[i],
        ) by {
            assert(command.skip(1)[i] == command[i + 1]);
        }
        lemma_first_white(command.skip(1), gap, rest);
    }
}

/// The program is started for what its first word says, the playground without any. Only `daemon`
/// takes no further word, and only `watch` needs one.
pub proof fn law_program_is_started_for_its_first_word(args: Seq<Seq<char>>, n: u64)
    ensures
        args.len() == 0 ==> cli_value(args) == Ok::<CliView, Error>(CliView::Play),
        args.len() > 0 ==> {
            &&& args[0] == "play"@ ==> cli_value(args) == Ok::<CliView, Error>(CliView::Play)
            &&& args[0] == "daemon"@ && args.len() == 1 ==> cli_value(args) == Ok::<CliView, Error>(
                CliView::Daemon,
            )
            &&& args[0] == "daemon"@ && args.len() > 1 ==> (cli_value(args) matches Err(e) && e@
                == "usage: opencode-pty daemon"@)
            &&& args[0] == "fixture"@ ==> cli_value(args) == Ok::<CliView, Error>(CliView::Fixture)
            &&& args[0] == "status"@ ==> cli_value(args) == Ok::<CliView, Error>(CliView::Status)
            &&& args[0] == "stop"@ ==> cli_value(args) == Ok::<CliView, Error>(CliView::Stop)
            &&& args[0] == "list"@ ==> cli_value(args) == Ok::<CliView, Error>(CliView::List)
            &&& args[0] == "watch"@ && args.len() == 1 ==> (cli_value(args) matches Err(e) && e@
                == "usage: opencode-pty watch TERMINAL_ID"@)
            &&& args[0] == "watch"@ && args.len() > 1 && unsigned_value(args[1], u64::MAX as int)
                == Ok::<int, NumberError>(n as int) ==> cli_value(args) == Ok::<CliView, Error>(
                CliView::Watch(n),
            )
            &&& args[0] == "watch"@ && args.len() > 1 ==> (unsigned_value(args[1], u64::MAX as int)
                matches Err(fault) ==> (cli_value(args) matches Err(e) && e@
                == "expected terminal ID: "@ + fault.text()))
            &&& args[0] == "version"@ || args[0] == "--version"@ || args[0] == "-V"@ ==> cli_value(
                args,
            ) == Ok::<CliView, Error>(CliView::Version)
            &&& args[0] == "help"@ || args[0] == "--help"@ || args[0] == "-h"@ ==> cli_value(args)
                == Ok::<CliView, Error>(CliView::Help)
            &&& args[0].len() > 9 ==> cli_value(args) == Ok::<CliView, Error>(
                CliView::Unknown(args[0]),
            )
        },
{
    reveal_strlit("play");
    reveal_strlit("daemon");
    reveal_strlit("fixture");
    reveal_strlit("status");
    reveal_strlit("stop");
    reveal_strlit("list");
    reveal_strlit("watch");
    reveal_strlit("version");
    reveal_strlit("--version");
    reveal_strlit("-V");
    reveal_strlit("help");
    reveal_strlit("--help");
    reveal_strlit("-h");
    assert("play"@.len() == 4 && "play"@[0] == 'p');
    assert("daemon"@.len() == 6 && "daemon"@[0] == 'd');
    assert("fixture"@.len() == 7 && "fixture"@[0] == 'f');
    assert("status"@.len() == 6 && "status"@[0] == 's');
    assert("stop"@.len() == 4 && "stop"@[0] == 's');
    assert("list"@.len() == 4 && "list"@[0] == 'l');
    assert("watch"@.len() == 5);
    assert("version"@.len() == 7 && "version"@[0] == 'v');
    assert("--version"@.len() == 9);
    assert("-V"@.len() == 2 && "-V"@[1] == 'V');
    assert("help"@.len() == 4 && "help"@[0] == 'h');
    assert("--help"@.len() == 6 && "--help"@[0] == '-');
    assert("-h"@.len() == 2 && "-h"@[1] == 'h');
}

/// What is said of a command in contracts is what it holds.
pub proof fn law_commands_show_their_fields(command: PlayCommand, cli: CliCommand)
    ensures
        match (command, command@) {
            (PlayCommand::Empty, PlayView::Empty) => true,
            (PlayCommand::NewShell, PlayView::NewShell) => true,
            (PlayCommand::New(list), PlayView::New(v)) => v == texts(list@),
            (PlayCommand::List, PlayView::List) => true,
            (PlayCommand::Use(id), PlayView::Use(i)) => i == id,
            (PlayCommand::Send { id, bytes }, PlayView::Send { id: i, bytes: b }) => i == id && b
                == bytes@,
            (PlayCommand::Run { id, bytes }, PlayView::Run { id: i, bytes: b }) => i == id && b
                == bytes@,
            (PlayCommand::Screen(id), PlayView::Screen(i)) => i == id,
            (PlayCommand::Replay { id, offset }, PlayView::Replay { id: i, offset: o }) => i == id
                && o == offset,
            (
                PlayCommand::Resize { id, cols, rows },
                PlayView::Resize { id: i, cols: c, rows: r },
            ) => i == id && c == cols && r == rows,
            (PlayCommand::Wait { millis, id }, PlayView::Wait { millis: m, id: i }) => i == id && m
                == millis,
            (PlayCommand::Kill(id), PlayView::Kill(i)) => i == id,
            (PlayCommand::Demo, PlayView::Demo) => true,
            (PlayCommand::Help, PlayView::Help) => true,
            (PlayCommand::Quit, PlayView::Quit) => true,
            (PlayCommand::Unknown(word), PlayView::Unknown(w)) => w == word@,
            _ => false,
        },
        match (cli, cli@) {
            (CliCommand::Daemon, CliView::Daemon) => true,
            (CliCommand::Fixture, CliView::Fixture) => true,
            (CliCommand::Play, CliView::Play) => true,
            (CliCommand::Status, CliView::Status) => true,
            (CliCommand::Stop, CliView::Stop) => true,
            (CliCommand::List, CliView::List) => true,
            (CliCommand::Watch(id), CliView::Watch(i)) => i == id,
            (CliCommand::Version, CliView::Version) => true,
            (CliCommand::Help, CliView::Help) => true,
            (CliCommand::Unknown(word), CliView::Unknown(w)) => w == word@,
            _ => false,
        },
{
}

/// What is not a number is refused in the words for it, and so is what is missing: a size, or a
/// terminal to give it to. The columns are looked at before the rows, and both before the terminal.
pub proof fn law_bad_numbers_are_told(rest: Seq<char>, active: Option<u64>)
    ensures
        trimmed(rest).len() > 0 && unsigned_value(trimmed(rest), u64::MAX as int) is Err ==> (
        play_value("wait"@, rest, active) matches Err(e) && e@ == (unsigned_value(
            trimmed(rest),
            u64::MAX as int,
        )->Err_0).text()),
        words(rest).len() >= 1 && unsigned_value(words(rest)[0], u64::MAX as int) is Err ==> (
        play_value("replay"@, rest, active) matches Err(e) && e@ == (unsigned_value(
            words(rest)[0],
            u64::MAX as int,
        )->Err_0).text()),
        words(rest).len() >= 2 && unsigned_value(words(rest)[0], u64::MAX as int) is Ok
            && unsigned_value(words(rest)[1], u64::MAX as int) is Err ==> (play_value(
            "replay"@,
            rest,
            active,
        ) matches Err(e) && e@ == (unsigned_value(words(rest)[1], u64::MAX as int)->Err_0).text()),
        words(rest).len() >= 1 && unsigned_value(words(rest)[0], 65535) is Err ==> (play_value(
            "resize"@,
            rest,
            active,
        ) matches Err(e) && e@ == (unsigned_value(words(rest)[0], 65535)->Err_0).text()),
        words(rest).len() == 1 && unsigned_value(words(rest)[0], 65535) is Ok ==> (play_value(
            "resize"@,
            rest,
            active,
        ) matches Err(e) && e@ == "usage: resize COLS ROWS"@),
        words(rest).len() >= 2 && unsigned_value(words(rest)[0], 65535) is Ok && unsigned_value(
            words(rest)[1],
            65535,
        ) is Err ==> (play_value("resize"@, rest, active) matches Err(e) && e@ == (unsigned_value(
            words(rest)[1],
            65535,
        )->Err_0).text()),
        words(rest).len() >= 2 && unsigned_value(words(rest)[0], 65535) is Ok && unsigned_value(
            words(rest)[1],
            65535,
        ) is Ok && active is None ==> (play_value("resize"@, rest, active) matches Err(e) && e@
            == "no active terminal; use `new` or `use ID`"@),
        play_value("use"@, rest, active) is Ok <==> unsigned_value(trimmed(rest), u64::MAX as int)
            is Ok,
{
    lemma_commands_differ();
}

} // verus!
