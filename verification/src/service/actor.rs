//! How a terminal reacts: a state machine that is told what happened and says what to do.
//!
//! One message is handled at a time. Whatever only the outside can do (feeding the emulator,
//! resizing the pseudoterminal, delivering events, answering) comes out as an `Action`; its
//! outcome goes back in as an `Event`.
use super::model::{
    InfoView, LifecycleView, RawReplay, RawReplayView, RowsView, SnapshotView, StreamEvent,
    StreamEventView, TerminalInfo, TerminalRows, TerminalSnapshot,
};
use super::replay::{ReplayBuffer, ReplayView};
use super::roster::{Recipient, Roster, RosterView};
use crate::error::Error;
use crate::protocol::AttachmentRole;
use crate::text::{opt_text, texts};
use vstd::prelude::*;

pub mod exchange;
pub mod history;
pub mod laws;
pub mod machine;
pub mod operations;

verus! {

/// What a terminal is asked or told.
#[allow(inconsistent_fields)]
pub enum ActorMessage {
    Output(Vec<u8>),
    ReaderEof,
    ReaderFailed(String),
    WriterFailed(String),
    ChildExited(Result<Option<u32>, String>),
    RefreshForegroundProcess,
    Write { attachment_id: Option<String>, bytes: Vec<u8> },
    Resize { attachment_id: Option<String>, cols: u16, rows: u16 },
    Control { attachment_id: String, cols: u16, rows: u16, bytes: Option<Vec<u8>> },
    Snapshot,
    ReadRows { rows: Option<u16> },
    Replay { offset: u64 },
    Attach { offset: u64, attachment_id: String, role: AttachmentRole, takeover: bool },
    Detach { attachment_id: String },
}

/// An `ActorMessage` as a mathematical value.
#[allow(inconsistent_fields)]
pub enum MessageView {
    Output(Seq<u8>),
    ReaderEof,
    ReaderFailed(Seq<char>),
    WriterFailed(Seq<char>),
    ChildExited(Result<Option<u32>, Seq<char>>),
    RefreshForegroundProcess,
    Write { attachment_id: Option<Seq<char>>, bytes: Seq<u8> },
    Resize { attachment_id: Option<Seq<char>>, cols: u16, rows: u16 },
    Control { attachment_id: Seq<char>, cols: u16, rows: u16, bytes: Option<Seq<u8>> },
    Snapshot,
    ReadRows { rows: Option<u16> },
    Replay { offset: u64 },
    Attach { offset: u64, attachment_id: Seq<char>, role: AttachmentRole, takeover: bool },
    Detach { attachment_id: Seq<char> },
}

/// What the emulator shows.
pub struct Screen {
    pub text: String,
    pub checkpoint: Vec<u8>,
    pub cursor_x: u16,
    pub cursor_y: u16,
}

/// The last rows that the emulator holds.
pub struct ScreenRows {
    pub lines: Vec<String>,
    pub cursor_x: u16,
    pub cursor_y: u16,
}

/// What happened.
pub enum Event {
    /// The next message.
    Message(ActorMessage),
    /// There will be no further message.
    Disconnected,
    /// The action was carried out, or failed.
    Done(Result<(), Error>),
    /// The event was offered to its recipients. Those in `failed` did not take it. `gone` are
    /// those whose guard does not exist any more. Nobody is judged while the terminal stops.
    Delivered { failed: Vec<String>, gone: Vec<String>, stopping: bool },
    /// The title that the child has set since it was last asked for.
    Title(Option<String>),
    /// The process in the foreground.
    Foreground(Option<String>),
    /// The emulator was resized, and what it then had to say was passed on to the child.
    Resized { forwarded: Result<(), Error>, resized: Result<(), Error> },
    /// The bytes that restore the screen.
    Checkpoint(Result<Vec<u8>, Error>),
    /// What the emulator shows.
    Screen(Result<Screen, Error>),
    /// The last rows that the emulator holds.
    Rows(Result<ScreenRows, Error>),
    /// The attachments whose guard does not exist any more.
    Gone(Vec<String>),
}

/// An `Event` as a mathematical value.
#[allow(inconsistent_fields)]
pub enum EventView {
    Message(MessageView),
    Disconnected,
    Done(Result<(), Seq<char>>),
    Delivered { failed: Set<Seq<char>>, gone: Set<Seq<char>>, stopping: bool },
    Title(Option<Seq<char>>),
    Foreground(Option<Seq<char>>),
    Resized { forwarded: Result<(), Seq<char>>, resized: Result<(), Seq<char>> },
    Checkpoint(Result<Seq<u8>, Seq<char>>),
    Screen(Result<(Seq<char>, Seq<u8>, u16, u16), Seq<char>>),
    Rows(Result<(Seq<Seq<char>>, u16, u16), Seq<char>>),
    Gone(Set<Seq<char>>),
}

/// What somebody who attached is told.
pub struct Attached {
    pub generation: u64,
    pub replay: RawReplay,
}

/// The answer to a request.
pub enum Reply {
    Done(Result<(), Error>),
    Snapshot(Result<TerminalSnapshot, Error>),
    Rows(Result<TerminalRows, Error>),
    Replay(Result<RawReplay, Error>),
    Attached(Result<Attached, Error>),
}

/// A `Reply` as a mathematical value.
pub enum ReplyView {
    Done(Result<(), Seq<char>>),
    Snapshot(Result<SnapshotView, Seq<char>>),
    Rows(Result<RowsView, Seq<char>>),
    Replay(Result<RawReplayView, Seq<char>>),
    Attached(Result<(u64, RawReplayView), Seq<char>>),
}

/// What is to be done.
pub enum Action {
    /// Wait for the next message.
    Receive,
    /// Find out which process is in the foreground.
    QueryForeground,
    /// Feed the emulator, and pass on to the child what it then has to say.
    Feed(Vec<u8>),
    /// Offer the event to everybody who is attached.
    Broadcast { event: StreamEvent, recipients: Vec<Recipient> },
    /// Ask the emulator for a title that the child has set.
    TakeTitle,
    /// Resize the pseudoterminal.
    ResizePty { cols: u16, rows: u16 },
    /// Resize the emulator, and pass on to the child what it then has to say.
    ResizeTerminal { cols: u16, rows: u16 },
    /// Ask the emulator for the bytes that restore the screen.
    Checkpoint,
    /// Queue input for the child.
    QueueWrite(Vec<u8>),
    /// Ask the emulator for what it shows.
    Picture,
    /// Ask the emulator for its last rows.
    ReadRows(Option<u16>),
    /// Open a queue for an attachment, in place of an earlier one of that name.
    OpenQueue(String),
    /// Put an event in the queue that was opened last.
    Send(StreamEvent),
    /// Find out which attachments are gone.
    QueryGone,
    /// Close the pseudoterminal behind its child.
    CloseMaster,
    /// Answer the request.
    Reply(Reply),
    /// Stop.
    Stop(Result<(), Error>),
}

/// An `Action` as a mathematical value; who receives a broadcast is said apart.
pub enum ActionView {
    Receive,
    QueryForeground,
    Feed(Seq<u8>),
    Broadcast(StreamEventView),
    TakeTitle,
    ResizePty { cols: u16, rows: u16 },
    ResizeTerminal { cols: u16, rows: u16 },
    Checkpoint,
    QueueWrite(Seq<u8>),
    Picture,
    ReadRows(Option<u16>),
    OpenQueue(Seq<char>),
    Send(StreamEventView),
    QueryGone,
    CloseMaster,
    Reply(ReplyView),
    Stop(Result<(), Seq<char>>),
}

/// What follows a broadcast.
pub enum Then {
    /// Ask for the title.
    Title,
    /// The message has been dealt with.
    Next,
    /// Bring the terminal to this size, then go on with the input.
    Size { cols: u16, rows: u16, input: Option<Vec<u8>> },
    /// Queue the input, if any, and answer.
    Input(Option<Vec<u8>>),
    /// Answer the one who attached.
    Attached(RawReplay),
}

/// A `Then` as a mathematical value.
pub enum ThenView {
    Title,
    Next,
    Size { cols: u16, rows: u16, input: Option<Seq<u8>> },
    Input(Option<Seq<u8>>),
    Attached(RawReplayView),
}

/// What the actor waits for, and what it needs once that comes.
pub enum Stage {
    Ready,
    Querying,
    Feeding { start: u64, end: u64, bytes: Vec<u8> },
    Telling(Then),
    Titling,
    SizingPty { cols: u16, rows: u16, input: Option<Vec<u8>> },
    SizingTerminal { cols: u16, rows: u16, input: Option<Vec<u8>> },
    Checkpointing { cols: u16, rows: u16, input: Option<Vec<u8>> },
    Writing,
    Picturing,
    ReadingRows,
    Opening { role: AttachmentRole, replay: RawReplay },
    Sending(RawReplay),
    Detaching(String),
    Closing,
    Replying,
    Stopped,
}

/// A `Stage` as a mathematical value.
pub enum StageView {
    Ready,
    Querying,
    Feeding { start: u64, end: u64, bytes: Seq<u8> },
    Telling(ThenView),
    Titling,
    SizingPty { cols: u16, rows: u16, input: Option<Seq<u8>> },
    SizingTerminal { cols: u16, rows: u16, input: Option<Seq<u8>> },
    Checkpointing { cols: u16, rows: u16, input: Option<Seq<u8>> },
    Writing,
    Picturing,
    ReadingRows,
    Opening { role: AttachmentRole, replay: RawReplayView },
    Sending(RawReplayView),
    Detaching(Seq<char>),
    Closing,
    Replying,
    Stopped,
}

/// A terminal.
pub struct Actor {
    pub info: TerminalInfo,
    pub replay: ReplayBuffer,
    pub roster: Roster,
    /// How the child ended, until that has been published.
    pub child_exit: Option<Result<Option<u32>, String>>,
    pub reader_eof: bool,
    /// The published end: the exit code and the offset behind the last output.
    pub final_exit: Option<(Option<u32>, u64)>,
    /// Whether the pseudoterminal keeps its output open until it is closed behind the child.
    pub conpty: bool,
    /// Whether the pseudoterminal is open.
    pub master_open: bool,
    pub stage: Stage,
}

/// An `Actor` as a mathematical value.
#[verifier::ext_equal]
pub struct ActorView {
    pub info: InfoView,
    pub replay: ReplayView,
    pub roster: RosterView,
    pub child_exit: Option<Result<Option<u32>, Seq<char>>>,
    pub reader_eof: bool,
    pub final_exit: Option<(Option<u32>, u64)>,
    pub conpty: bool,
    pub master_open: bool,
    pub stage: StageView,
}

pub open spec fn opt_bytes(bytes: Option<Vec<u8>>) -> Option<Seq<u8>> {
    match bytes {
        Some(bytes) => Some(bytes@),
        None => None,
    }
}

/// An outcome with the error as its words.
pub open spec fn outcome(r: Result<(), Error>) -> Result<(), Seq<char>> {
    match r {
        Ok(_) => Ok(()),
        Err(e) => Err(e@),
    }
}

pub open spec fn exit_view(r: Result<Option<u32>, String>) -> Result<Option<u32>, Seq<char>> {
    match r {
        Ok(code) => Ok(code),
        Err(message) => Err(message@),
    }
}

impl View for ActorMessage {
    type V = MessageView;

    open spec fn view(&self) -> MessageView {
        match self {
            ActorMessage::Output(bytes) => MessageView::Output(bytes@),
            ActorMessage::ReaderEof => MessageView::ReaderEof,
            ActorMessage::ReaderFailed(message) => MessageView::ReaderFailed(message@),
            ActorMessage::WriterFailed(message) => MessageView::WriterFailed(message@),
            ActorMessage::ChildExited(result) => MessageView::ChildExited(exit_view(*result)),
            ActorMessage::RefreshForegroundProcess => MessageView::RefreshForegroundProcess,
            ActorMessage::Write { attachment_id, bytes } => MessageView::Write {
                attachment_id: opt_text(*attachment_id),
                bytes: bytes@,
            },
            ActorMessage::Resize { attachment_id, cols, rows } => MessageView::Resize {
                attachment_id: opt_text(*attachment_id),
                cols: *cols,
                rows: *rows,
            },
            ActorMessage::Control { attachment_id, cols, rows, bytes } => MessageView::Control {
                attachment_id: attachment_id@,
                cols: *cols,
                rows: *rows,
                bytes: opt_bytes(*bytes),
            },
            ActorMessage::Snapshot => MessageView::Snapshot,
            ActorMessage::ReadRows { rows } => MessageView::ReadRows { rows: *rows },
            ActorMessage::Replay { offset } => MessageView::Replay { offset: *offset },
            ActorMessage::Attach { offset, attachment_id, role, takeover } => MessageView::Attach {
                offset: *offset,
                attachment_id: attachment_id@,
                role: *role,
                takeover: *takeover,
            },
            ActorMessage::Detach { attachment_id } => MessageView::Detach {
                attachment_id: attachment_id@,
            },
        }
    }
}

impl View for Event {
    type V = EventView;

    open spec fn view(&self) -> EventView {
        match self {
            Event::Message(message) => EventView::Message(message@),
            Event::Disconnected => EventView::Disconnected,
            Event::Done(result) => EventView::Done(outcome(*result)),
            Event::Delivered { failed, gone, stopping } => EventView::Delivered {
                failed: texts(failed@).to_set(),
                gone: texts(gone@).to_set(),
                stopping: *stopping,
            },
            Event::Title(title) => EventView::Title(opt_text(*title)),
            Event::Foreground(process) => EventView::Foreground(opt_text(*process)),
            Event::Resized { forwarded, resized } => EventView::Resized {
                forwarded: outcome(*forwarded),
                resized: outcome(*resized),
            },
            Event::Checkpoint(result) => EventView::Checkpoint(
                match result {
                    Ok(bytes) => Ok(bytes@),
                    Err(e) => Err(e@),
                },
            ),
            Event::Screen(result) => EventView::Screen(
                match result {
                    Ok(s) => Ok((s.text@, s.checkpoint@, s.cursor_x, s.cursor_y)),
                    Err(e) => Err(e@),
                },
            ),
            Event::Rows(result) => EventView::Rows(
                match result {
                    Ok(s) => Ok((texts(s.lines@), s.cursor_x, s.cursor_y)),
                    Err(e) => Err(e@),
                },
            ),
            Event::Gone(gone) => EventView::Gone(texts(gone@).to_set()),
        }
    }
}

impl View for Reply {
    type V = ReplyView;

    open spec fn view(&self) -> ReplyView {
        match self {
            Reply::Done(r) => ReplyView::Done(outcome(*r)),
            Reply::Snapshot(r) => ReplyView::Snapshot(
                match r {
                    Ok(v) => Ok(v@),
                    Err(e) => Err(e@),
                },
            ),
            Reply::Rows(r) => ReplyView::Rows(
                match r {
                    Ok(v) => Ok(v@),
                    Err(e) => Err(e@),
                },
            ),
            Reply::Replay(r) => ReplyView::Replay(
                match r {
                    Ok(v) => Ok(v@),
                    Err(e) => Err(e@),
                },
            ),
            Reply::Attached(r) => ReplyView::Attached(
                match r {
                    Ok(v) => Ok((v.generation, v.replay@)),
                    Err(e) => Err(e@),
                },
            ),
        }
    }
}

impl View for Action {
    type V = ActionView;

    open spec fn view(&self) -> ActionView {
        match self {
            Action::Receive => ActionView::Receive,
            Action::QueryForeground => ActionView::QueryForeground,
            Action::Feed(bytes) => ActionView::Feed(bytes@),
            Action::Broadcast { event, recipients } => ActionView::Broadcast(event@),
            Action::TakeTitle => ActionView::TakeTitle,
            Action::ResizePty { cols, rows } => ActionView::ResizePty { cols: *cols, rows: *rows },
            Action::ResizeTerminal { cols, rows } => ActionView::ResizeTerminal {
                cols: *cols,
                rows: *rows,
            },
            Action::Checkpoint => ActionView::Checkpoint,
            Action::QueueWrite(bytes) => ActionView::QueueWrite(bytes@),
            Action::Picture => ActionView::Picture,
            Action::ReadRows(rows) => ActionView::ReadRows(*rows),
            Action::OpenQueue(id) => ActionView::OpenQueue(id@),
            Action::Send(event) => ActionView::Send(event@),
            Action::QueryGone => ActionView::QueryGone,
            Action::CloseMaster => ActionView::CloseMaster,
            Action::Reply(reply) => ActionView::Reply(reply@),
            Action::Stop(result) => ActionView::Stop(outcome(*result)),
        }
    }
}

impl View for Then {
    type V = ThenView;

    open spec fn view(&self) -> ThenView {
        match self {
            Then::Title => ThenView::Title,
            Then::Next => ThenView::Next,
            Then::Size { cols, rows, input } => ThenView::Size {
                cols: *cols,
                rows: *rows,
                input: opt_bytes(*input),
            },
            Then::Input(input) => ThenView::Input(opt_bytes(*input)),
            Then::Attached(replay) => ThenView::Attached(replay@),
        }
    }
}

impl View for Stage {
    type V = StageView;

    open spec fn view(&self) -> StageView {
        match self {
            Stage::Ready => StageView::Ready,
            Stage::Querying => StageView::Querying,
            Stage::Feeding { start, end, bytes } => StageView::Feeding {
                start: *start,
                end: *end,
                bytes: bytes@,
            },
            Stage::Telling(then) => StageView::Telling(then@),
            Stage::Titling => StageView::Titling,
            Stage::SizingPty { cols, rows, input } => StageView::SizingPty {
                cols: *cols,
                rows: *rows,
                input: opt_bytes(*input),
            },
            Stage::SizingTerminal { cols, rows, input } => StageView::SizingTerminal {
                cols: *cols,
                rows: *rows,
                input: opt_bytes(*input),
            },
            Stage::Checkpointing { cols, rows, input } => StageView::Checkpointing {
                cols: *cols,
                rows: *rows,
                input: opt_bytes(*input),
            },
            Stage::Writing => StageView::Writing,
            Stage::Picturing => StageView::Picturing,
            Stage::ReadingRows => StageView::ReadingRows,
            Stage::Opening { role, replay } => StageView::Opening { role: *role, replay: replay@ },
            Stage::Sending(replay) => StageView::Sending(replay@),
            Stage::Detaching(id) => StageView::Detaching(id@),
            Stage::Closing => StageView::Closing,
            Stage::Replying => StageView::Replying,
            Stage::Stopped => StageView::Stopped,
        }
    }
}

impl View for Actor {
    type V = ActorView;

    open spec fn view(&self) -> ActorView {
        ActorView {
            info: self.info@,
            replay: self.replay@,
            roster: self.roster@,
            child_exit: match self.child_exit {
                Some(r) => Some(exit_view(r)),
                None => None,
            },
            reader_eof: self.reader_eof,
            final_exit: self.final_exit,
            conpty: self.conpty,
            master_open: self.master_open,
            stage: self.stage@,
        }
    }
}

/// The recipients of a broadcast are the attachments, each once; only one in the role of the
/// controller is waited for.
pub open spec fn reaches(roster: RosterView, recipients: Seq<Recipient>) -> bool {
    &&& forall|i: int|
        0 <= i < recipients.len() ==> {
            &&& roster.seats.contains_key((#[trigger] recipients[i]).attachment_id@)
            &&& recipients[i].wait == (roster.seats[recipients[i].attachment_id@].role
                == AttachmentRole::Controller)
        }
    &&& forall|i: int, j: int|
        0 <= i < j < recipients.len() ==> (#[trigger] recipients[i]).attachment_id@ != (
        #[trigger] recipients[j]).attachment_id@
    &&& forall|id: Seq<char>| #[trigger]
        roster.seats.contains_key(id) ==> exists|i: int|
            0 <= i < recipients.len() && (#[trigger] recipients[i]).attachment_id@ == id
}

impl ActorView {
    /// Stops.
    pub open spec fn stop(self, result: Result<(), Seq<char>>) -> (ActorView, ActionView) {
        (ActorView { stage: StageView::Stopped, ..self }, ActionView::Stop(result))
    }

    /// Answers.
    pub open spec fn answer(self, reply: ReplyView) -> (ActorView, ActionView) {
        (ActorView { stage: StageView::Replying, ..self }, ActionView::Reply(reply))
    }

    /// Refuses with the words of an error.
    pub open spec fn refuse(self, error: Seq<char>) -> (ActorView, ActionView) {
        self.answer(ReplyView::Done(Err(error)))
    }

    /// Tells everybody who is attached.
    pub open spec fn tell(self, event: StreamEventView, then: ThenView) -> (ActorView, ActionView) {
        (ActorView { stage: StageView::Telling(then), ..self }, ActionView::Broadcast(event))
    }

    /// Tells everybody who is in control.
    pub open spec fn tell_controller(self, then: ThenView) -> (ActorView, ActionView) {
        self.tell(
            StreamEventView::ControllerChanged {
                attachment_id: self.roster.controller,
                generation: self.roster.generation,
            },
            then,
        )
    }

    /// The end of the terminal is due: the child is gone and so is all its output, and that has
    /// not been published yet.
    pub open spec fn ends(self) -> bool {
        self.reader_eof && self.final_exit is None && self.child_exit is Some
    }

    /// Publishes the end of the terminal if it is due, else waits for the next message.
    pub open spec fn finish(self) -> (ActorView, ActionView) {
        if self.ends() {
            let exit_code = match self.child_exit->0 {
                Ok(code) => code,
                Err(_) => None,
            };
            let ended = ActorView {
                info: InfoView {
                    lifecycle: match self.child_exit->0 {
                        Ok(exit_code) => LifecycleView::Exited { exit_code },
                        Err(message) => LifecycleView::Failed { message },
                    },
                    ..self.info
                },
                child_exit: None,
                final_exit: Some((exit_code, self.replay.tail)),
                ..self
            };
            ended.tell(
                StreamEventView::Exited { exit_code, final_offset: self.replay.tail },
                ThenView::Next,
            )
        } else {
            (ActorView { stage: StageView::Ready, ..self }, ActionView::Receive)
        }
    }

    /// Brings the terminal to a size, then goes on with the input.
    pub open spec fn size(self, cols: u16, rows: u16, input: Option<Seq<u8>>) -> (
        ActorView,
        ActionView,
    ) {
        if self.master_open {
            (
                ActorView { stage: StageView::SizingPty { cols, rows, input }, ..self },
                ActionView::ResizePty { cols, rows },
            )
        } else {
            self.refuse(Error::ChildExited@)
        }
    }

    /// Queues the input, if any, else answers.
    pub open spec fn put(self, input: Option<Seq<u8>>) -> (ActorView, ActionView) {
        match input {
            None => self.answer(ReplyView::Done(Ok(()))),
            Some(bytes) => if self.conpty && !self.master_open {
                self.refuse(Error::ChildExited@)
            } else {
                (ActorView { stage: StageView::Writing, ..self }, ActionView::QueueWrite(bytes))
            },
        }
    }

    /// Answers the one who attached; if the terminal has ended it is told so first.
    pub open spec fn welcome(self, replay: RawReplayView) -> (ActorView, ActionView) {
        match self.final_exit {
            Some((exit_code, final_offset)) => (
                ActorView { stage: StageView::Sending(replay), ..self },
                ActionView::Send(StreamEventView::Exited { exit_code, final_offset }),
            ),
            None => self.answer(ReplyView::Attached(Ok((self.roster.generation, replay)))),
        }
    }

    /// Goes on after a broadcast.
    pub open spec fn resume(self, then: ThenView) -> (ActorView, ActionView) {
        match then {
            ThenView::Title => (
                ActorView { stage: StageView::Titling, ..self },
                ActionView::TakeTitle,
            ),
            ThenView::Next => self.finish(),
            ThenView::Size { cols, rows, input } => if self.info.cols != cols || self.info.rows
                != rows {
                self.size(cols, rows, input)
            } else {
                self.put(input)
            },
            ThenView::Input(input) => self.put(input),
            ThenView::Attached(replay) => self.welcome(replay),
        }
    }

    /// Takes a message.
    pub open spec fn receive(self, message: MessageView) -> (ActorView, ActionView) {
        match message {
            MessageView::Output(bytes) => {
                let replay = self.replay.appended(bytes);
                (
                    ActorView {
                        replay,
                        stage: StageView::Feeding {
                            start: self.replay.tail,
                            end: replay.tail,
                            bytes,
                        },
                        ..self
                    },
                    ActionView::Feed(bytes),
                )
            },
            MessageView::ReaderEof => (ActorView { reader_eof: true, ..self }).finish(),
            MessageView::ReaderFailed(message) => self.failed(message).finish(),
            MessageView::WriterFailed(message) => self.failed(message).finish(),
            MessageView::ChildExited(result) => {
                let left = ActorView { child_exit: Some(result), ..self };
                if self.conpty && self.master_open {
                    (ActorView { stage: StageView::Closing, ..left }, ActionView::CloseMaster)
                } else {
                    left.finish()
                }
            },
            MessageView::RefreshForegroundProcess => if self.master_open {
                (
                    ActorView { stage: StageView::Querying, ..self },
                    ActionView::QueryForeground,
                )
            } else {
                self.answer(ReplyView::Done(Ok(())))
            },
            MessageView::Write { attachment_id, bytes } => if self.roster.authorizes(
                attachment_id,
            ) {
                self.put(Some(bytes))
            } else {
                self.refuse(unauthorized(attachment_id))
            },
            MessageView::Resize { attachment_id, cols, rows } => if self.roster.authorizes(
                attachment_id,
            ) {
                self.size(cols, rows, None)
            } else {
                self.refuse(unauthorized(attachment_id))
            },
            MessageView::Control { attachment_id, cols, rows, bytes } => {
                if !self.roster.seats.contains_key(attachment_id) {
                    self.refuse(
                        "attachment "@ + attachment_id + " is not subscribed"@,
                    )
                } else if self.roster.controller != Some(attachment_id) {
                    (ActorView { roster: self.roster.taken(attachment_id), ..self }).tell_controller(
                        ThenView::Size { cols, rows, input: bytes },
                    )
                } else {
                    self.resume(ThenView::Size { cols, rows, input: bytes })
                }
            },
            MessageView::Snapshot => (
                ActorView { stage: StageView::Picturing, ..self },
                ActionView::Picture,
            ),
            MessageView::ReadRows { rows } => (
                ActorView { stage: StageView::ReadingRows, ..self },
                ActionView::ReadRows(rows),
            ),
            MessageView::Replay { offset } => self.answer(
                ReplyView::Replay(self.replayed(offset)),
            ),
            MessageView::Attach { offset, attachment_id, role, takeover } => {
                if role == AttachmentRole::Controller && !self.roster.admits_controller(
                    attachment_id,
                    takeover,
                ) {
                    self.answer(
                        ReplyView::Attached(
                            Err(
                                "terminal already has controller "@
                                    + self.roster.controller->0,
                            ),
                        ),
                    )
                } else {
                    let roster = if role == AttachmentRole::Controller {
                        self.roster.reserved(attachment_id)
                    } else {
                        self.roster
                    };
                    match self.replayed(offset) {
                        Err(error) => (ActorView { roster, ..self }).answer(
                            ReplyView::Attached(Err(error)),
                        ),
                        Ok(replay) => (
                            ActorView {
                                roster: roster.admitted(attachment_id, role),
                                stage: StageView::Opening { role, replay },
                                ..self
                            },
                            ActionView::OpenQueue(attachment_id),
                        ),
                    }
                }
            },
            MessageView::Detach { attachment_id } => (
                ActorView { stage: StageView::Detaching(attachment_id), ..self },
                ActionView::QueryGone,
            ),
        }
    }

    /// A worker of the terminal failed; a published end stays.
    pub open spec fn failed(self, message: Seq<char>) -> ActorView {
        if self.final_exit is None {
            ActorView {
                info: InfoView { lifecycle: LifecycleView::Failed { message }, ..self.info },
                ..self
            }
        } else {
            self
        }
    }

    /// The output from an offset on, or the words why there is none.
    pub open spec fn replayed(self, offset: u64) -> Result<RawReplayView, Seq<char>> {
        if offset > self.replay.tail {
            Err((Error::BeyondTail { requested: offset, tail: self.replay.tail })@)
        } else {
            Ok(self.replay.from_offset(offset))
        }
    }

    /// Goes on after the action at hand was carried out.
    pub open spec fn done(self, result: Result<(), Seq<char>>) -> (ActorView, ActionView) {
        match self.stage {
            StageView::Feeding { start, end, bytes } => match result {
                Err(e) => self.stop(Err(e)),
                Ok(_) => (ActorView {
                    info: InfoView {
                        output_head: self.replay.head,
                        output_tail: self.replay.tail,
                        ..self.info
                    },
                    ..self
                }).tell(StreamEventView::Output { start, end, bytes }, ThenView::Title),
            },
            StageView::SizingPty { cols, rows, input } => match result {
                Err(e) => self.refuse(e),
                Ok(_) => (
                    ActorView { stage: StageView::SizingTerminal { cols, rows, input }, ..self },
                    ActionView::ResizeTerminal { cols, rows },
                ),
            },
            StageView::Writing => self.answer(ReplyView::Done(result)),
            StageView::Opening { role, replay } => if role == AttachmentRole::Controller {
                self.tell_controller(ThenView::Attached(replay))
            } else {
                self.welcome(replay)
            },
            StageView::Sending(replay) => self.answer(
                ReplyView::Attached(Ok((self.roster.generation, replay))),
            ),
            StageView::Closing => match result {
                Err(e) => self.stop(Err(e)),
                Ok(_) => (ActorView { master_open: false, ..self }).finish(),
            },
            _ => self.finish(),
        }
    }

    /// Goes on after the emulator was resized: what it had to say comes first, then whether it
    /// could be resized.
    pub open spec fn resized(
        self,
        forwarded: Result<(), Seq<char>>,
        resized: Result<(), Seq<char>>,
    ) -> (ActorView, ActionView) {
        match (self.stage, forwarded, resized) {
            (_, Err(e), _) => self.refuse(e),
            (_, Ok(_), Err(e)) => self.refuse(e),
            (StageView::SizingTerminal { cols, rows, input }, Ok(_), Ok(_)) => (
                ActorView {
                    info: InfoView { cols, rows, ..self.info },
                    stage: StageView::Checkpointing { cols, rows, input },
                    ..self
                },
                ActionView::Checkpoint,
            ),
            _ => self.finish(),
        }
    }

    /// Goes on with the bytes that restore the resized screen.
    pub open spec fn checkpointed(self, result: Result<Seq<u8>, Seq<char>>) -> (
        ActorView,
        ActionView,
    ) {
        match (self.stage, result) {
            (_, Err(e)) => self.refuse(e),
            (StageView::Checkpointing { cols, rows, input }, Ok(checkpoint)) => self.tell(
                StreamEventView::Resized {
                    cols,
                    rows,
                    generation: self.roster.generation,
                    checkpoint,
                },
                ThenView::Input(input),
            ),
            _ => self.finish(),
        }
    }

    /// Goes on with a title that the child may have set.
    pub open spec fn titled(self, title: Option<Seq<char>>) -> (ActorView, ActionView) {
        match title {
            Some(title) => if title != self.info.title {
                (ActorView { info: InfoView { title, ..self.info }, ..self }).tell(
                    StreamEventView::TitleChanged { title },
                    ThenView::Next,
                )
            } else {
                self.finish()
            },
            None => self.finish(),
        }
    }

    /// Goes on with the process in the foreground.
    pub open spec fn watched(self, process: Option<Seq<char>>) -> (ActorView, ActionView) {
        if process != self.info.foreground_process {
            (ActorView {
                info: InfoView { foreground_process: process, ..self.info },
                ..self
            }).tell(StreamEventView::ForegroundProcessChanged { process }, ThenView::Input(None))
        } else {
            self.answer(ReplyView::Done(Ok(())))
        }
    }

    /// The actor waits for this kind of event.
    pub open spec fn expects(self, event: EventView) -> bool {
        match event {
            EventView::Message(_) => self.stage is Ready,
            EventView::Disconnected => self.stage is Ready,
            EventView::Done(_) => {
                ||| self.stage is Feeding
                ||| self.stage is SizingPty
                ||| self.stage is Writing
                ||| self.stage is Opening
                ||| self.stage is Sending
                ||| self.stage is Closing
                ||| self.stage is Replying
            },
            EventView::Delivered { .. } => self.stage is Telling,
            EventView::Title(_) => self.stage is Titling,
            EventView::Foreground(_) => self.stage is Querying,
            EventView::Resized { .. } => self.stage is SizingTerminal,
            EventView::Checkpoint(_) => self.stage is Checkpointing,
            EventView::Screen(_) => self.stage is Picturing,
            EventView::Rows(_) => self.stage is ReadingRows,
            EventView::Gone(_) => self.stage is Detaching,
        }
    }

    /// The actor, told of an event that it waits for, becomes `after` and asks for `action`.
    /// Only who gains control after a loss is left open.
    pub open spec fn steps(self, event: EventView, after: ActorView, action: ActionView) -> bool {
        &&& self.expects(event)
        &&& match event {
            EventView::Message(message) => (after, action) == self.receive(message),
            EventView::Disconnected => (after, action) == self.stop(Ok(())),
            EventView::Done(result) => (after, action) == self.done(result),
            EventView::Delivered { failed, gone, stopping } => self.delivers(
                failed,
                gone,
                stopping,
                after,
                action,
            ),
            EventView::Title(title) => (after, action) == self.titled(title),
            EventView::Foreground(process) => (after, action) == self.watched(process),
            EventView::Resized { forwarded, resized } => (after, action) == self.resized(
                forwarded,
                resized,
            ),
            EventView::Checkpoint(result) => (after, action) == self.checkpointed(result),
            EventView::Screen(result) => (after, action) == self.pictured(result),
            EventView::Rows(result) => (after, action) == self.listed(result),
            EventView::Gone(gone) => self.detaches(gone, after, action),
        }
    }

    /// Answers with what the emulator shows.
    pub open spec fn pictured(
        self,
        result: Result<(Seq<char>, Seq<u8>, u16, u16), Seq<char>>,
    ) -> (ActorView, ActionView) {
        self.answer(
            ReplyView::Snapshot(
                match result {
                    Ok((text, checkpoint, cursor_x, cursor_y)) => Ok(
                        SnapshotView { info: self.info, text, checkpoint, cursor_x, cursor_y },
                    ),
                    Err(e) => Err(e),
                },
            ),
        )
    }

    /// Answers with the last rows that the emulator holds.
    pub open spec fn listed(self, result: Result<(Seq<Seq<char>>, u16, u16), Seq<char>>) -> (
        ActorView,
        ActionView,
    ) {
        self.answer(
            ReplyView::Rows(
                match result {
                    Ok((lines, cursor_x, cursor_y)) => Ok(
                        RowsView { terminal: self.info, lines, cursor_x, cursor_y },
                    ),
                    Err(e) => Err(e),
                },
            ),
        )
    }

    /// Goes on after an event was offered: the attachments that did not take it are removed, and
    /// a change of control that this causes is told before anything else. A terminal that stops
    /// judges nobody.
    pub open spec fn delivers(
        self,
        failed: Set<Seq<char>>,
        gone: Set<Seq<char>>,
        stopping: bool,
        after: ActorView,
        action: ActionView,
    ) -> bool {
        let then = self.stage->Telling_0;
        let settled = ActorView { roster: after.roster, ..self };
        if stopping {
            (after, action) == self.resume(then)
        } else {
            &&& self.roster.settles(failed, gone, after.roster)
            &&& (after, action) == if self.roster.loses_controller(failed) {
                settled.tell_controller(then)
            } else {
                settled.resume(then)
            }
        }
    }

    /// Removes an attachment, if it is gone, and tells a change of control that this causes.
    pub open spec fn detaches(
        self,
        gone: Set<Seq<char>>,
        after: ActorView,
        action: ActionView,
    ) -> bool {
        let id = self.stage->Detaching_0;
        let settled = ActorView { roster: after.roster, ..self };
        if self.roster.seats.contains_key(id) && gone.contains(id) {
            &&& self.roster.settles(set![id], gone, after.roster)
            &&& (after, action) == if self.roster.controller == Some(id) {
                settled.tell_controller(ThenView::Next)
            } else {
                settled.finish()
            }
        } else {
            (after, action) == self.finish()
        }
    }

    /// Nothing has happened yet: the actor waits for its first message, nothing was produced, and
    /// neither the end of the child nor the end of its output is known.
    pub open spec fn is_fresh(self) -> bool {
        &&& self.valid()
        &&& self.stage is Ready
        &&& self.replay.records(Seq::empty())
        &&& !self.reader_eof
        &&& self.child_exit is None
        &&& self.final_exit is None
    }

    /// What holds of an actor at all times: it keeps its attachments and its replay in order,
    /// and what it says of its output is so.
    pub open spec fn valid(self) -> bool {
        &&& self.roster.valid()
        &&& self.replay.valid()
        &&& !(self.stage is Feeding || self.stage is Stopped) ==> {
            &&& self.info.output_head == self.replay.head
            &&& self.info.output_tail == self.replay.tail
        }
        &&& match self.final_exit {
            Some((exit_code, final_offset)) => {
                &&& self.reader_eof
                &&& final_offset <= self.replay.tail
                &&& match self.info.lifecycle {
                    LifecycleView::Running => false,
                    LifecycleView::Exited { exit_code: code } => code == exit_code,
                    LifecycleView::Failed { .. } => exit_code is None,
                }
            },
            None => true,
        }
    }
}

/// The words with which input in the name of `attachment_id` is refused.
pub open spec fn unauthorized(attachment_id: Option<Seq<char>>) -> Seq<char> {
    match attachment_id {
        None => Error::RequiresController@,
        Some(id) => "attachment "@ + id + " is not the terminal controller"@,
    }
}

impl Action {
    /// A broadcast reaches exactly the attachments of the roster.
    pub open spec fn goes_to(self, roster: RosterView) -> bool {
        match self {
            Action::Broadcast { event, recipients } => reaches(roster, recipients@),
            _ => true,
        }
    }
}

impl Actor {
    pub open spec fn wf(self) -> bool {
        &&& self.parts_wf()
        &&& self@.valid()
    }

    pub open spec fn parts_wf(self) -> bool {
        &&& self.roster.wf()
        &&& self.replay.wf()
    }
}

/// What is said of an actor in contracts is what its fields hold.
pub proof fn law_actor_shows_its_fields(actor: Actor)
    ensures
        actor@.info == actor.info@,
        actor@.replay == actor.replay@,
        actor@.roster == actor.roster@,
        actor@.reader_eof == actor.reader_eof,
        actor@.final_exit == actor.final_exit,
        actor@.conpty == actor.conpty,
        actor@.master_open == actor.master_open,
        actor@.child_exit is Some <==> actor.child_exit is Some,
        actor.child_exit matches Some(Ok(code)) ==> actor@.child_exit == Some(
            Ok::<Option<u32>, Seq<char>>(code),
        ),
        actor.child_exit matches Some(Err(message)) ==> actor@.child_exit == Some(
            Err::<Option<u32>, Seq<char>>(message@),
        ),
        actor.stage is Ready <==> actor@.stage is Ready,
        actor.stage is Stopped <==> actor@.stage is Stopped,
{
}

/// What is said of a message in contracts is what it holds.
pub proof fn law_messages_show_their_fields(message: ActorMessage)
    ensures
        match (message, message@) {
            (ActorMessage::Output(bytes), MessageView::Output(b)) => b == bytes@,
            (ActorMessage::ReaderEof, MessageView::ReaderEof) => true,
            (ActorMessage::ReaderFailed(text), MessageView::ReaderFailed(t)) => t == text@,
            (ActorMessage::WriterFailed(text), MessageView::WriterFailed(t)) => t == text@,
            (ActorMessage::ChildExited(Ok(code)), MessageView::ChildExited(Ok(c))) => c == code,
            (ActorMessage::ChildExited(Err(text)), MessageView::ChildExited(Err(t))) => t == text@,
            (
                ActorMessage::RefreshForegroundProcess,
                MessageView::RefreshForegroundProcess,
            ) => true,
            (
                ActorMessage::Write { attachment_id, bytes },
                MessageView::Write { attachment_id: a, bytes: b },
            ) => a == opt_text(attachment_id) && b == bytes@,
            (
                ActorMessage::Resize { attachment_id, cols, rows },
                MessageView::Resize { attachment_id: a, cols: c, rows: r },
            ) => a == opt_text(attachment_id) && c == cols && r == rows,
            (
                ActorMessage::Control { attachment_id, cols, rows, bytes },
                MessageView::Control { attachment_id: a, cols: c, rows: r, bytes: b },
            ) => {
                &&& a == attachment_id@ && c == cols && r == rows
                &&& b is Some <==> bytes is Some
                &&& bytes matches Some(input) ==> b == Some(input@)
            },
            (ActorMessage::Snapshot, MessageView::Snapshot) => true,
            (ActorMessage::ReadRows { rows }, MessageView::ReadRows { rows: r }) => r == rows,
            (ActorMessage::Replay { offset }, MessageView::Replay { offset: o }) => o == offset,
            (
                ActorMessage::Attach { offset, attachment_id, role, takeover },
                MessageView::Attach { offset: o, attachment_id: a, role: r, takeover: t },
            ) => o == offset && a == attachment_id@ && r == role && t == takeover,
            (
                ActorMessage::Detach { attachment_id },
                MessageView::Detach { attachment_id: a },
            ) => a == attachment_id@,
            _ => false,
        },
{
}

/// What is said in contracts of what is to be done is what is to be done.
pub proof fn law_actions_show_their_fields(action: Action)
    ensures
        match (action, action@) {
            (Action::Receive, ActionView::Receive) => true,
            (Action::QueryForeground, ActionView::QueryForeground) => true,
            (Action::Feed(bytes), ActionView::Feed(b)) => b == bytes@,
            (Action::Broadcast { event, recipients }, ActionView::Broadcast(e)) => e == event@,
            (Action::TakeTitle, ActionView::TakeTitle) => true,
            (
                Action::ResizePty { cols, rows },
                ActionView::ResizePty { cols: c, rows: r },
            ) => c == cols && r == rows,
            (
                Action::ResizeTerminal { cols, rows },
                ActionView::ResizeTerminal { cols: c, rows: r },
            ) => c == cols && r == rows,
            (Action::Checkpoint, ActionView::Checkpoint) => true,
            (Action::QueueWrite(bytes), ActionView::QueueWrite(b)) => b == bytes@,
            (Action::Picture, ActionView::Picture) => true,
            (Action::ReadRows(rows), ActionView::ReadRows(r)) => r == rows,
            (Action::OpenQueue(id), ActionView::OpenQueue(i)) => i == id@,
            (Action::Send(event), ActionView::Send(e)) => e == event@,
            (Action::QueryGone, ActionView::QueryGone) => true,
            (Action::CloseMaster, ActionView::CloseMaster) => true,
            (Action::Reply(reply), ActionView::Reply(r)) => r == reply@,
            (Action::Stop(Ok(_)), ActionView::Stop(Ok(_))) => true,
            (Action::Stop(Err(e)), ActionView::Stop(Err(w))) => w == e@,
            _ => false,
        },
{
}

/// What is said of an answer in contracts is what it holds.
pub proof fn law_answers_show_their_fields(reply: Reply)
    ensures
        match (reply, reply@) {
            (Reply::Done(Ok(_)), ReplyView::Done(Ok(_))) => true,
            (Reply::Done(Err(e)), ReplyView::Done(Err(w))) => w == e@,
            (Reply::Snapshot(Ok(v)), ReplyView::Snapshot(Ok(s))) => s == v@,
            (Reply::Snapshot(Err(e)), ReplyView::Snapshot(Err(w))) => w == e@,
            (Reply::Rows(Ok(v)), ReplyView::Rows(Ok(s))) => s == v@,
            (Reply::Rows(Err(e)), ReplyView::Rows(Err(w))) => w == e@,
            (Reply::Replay(Ok(v)), ReplyView::Replay(Ok(s))) => s == v@,
            (Reply::Replay(Err(e)), ReplyView::Replay(Err(w))) => w == e@,
            (Reply::Attached(Ok(v)), ReplyView::Attached(Ok((g, s)))) => g == v.generation && s
                == v.replay@,
            (Reply::Attached(Err(e)), ReplyView::Attached(Err(w))) => w == e@,
            _ => false,
        },
{
}

/// What is said in contracts of what happened is what happened.
pub proof fn law_happenings_show_their_fields(event: Event, id: Seq<char>)
    ensures
        match (event, event@) {
            (Event::Message(message), EventView::Message(m)) => m == message@,
            (Event::Disconnected, EventView::Disconnected) => true,
            (Event::Done(Ok(_)), EventView::Done(Ok(_))) => true,
            (Event::Done(Err(e)), EventView::Done(Err(w))) => w == e@,
            (
                Event::Delivered { failed, gone, stopping },
                EventView::Delivered { failed: f, gone: g, stopping: s },
            ) => s == stopping && (f.contains(id) <==> texts(failed@).contains(id)) && (g.contains(
                id,
            ) <==> texts(gone@).contains(id)),
            (Event::Title(title), EventView::Title(t)) => t == opt_text(title),
            (Event::Foreground(process), EventView::Foreground(p)) => p == opt_text(process),
            (
                Event::Resized { forwarded, resized },
                EventView::Resized { forwarded: f, resized: r },
            ) => {
                &&& f is Ok <==> forwarded is Ok
                &&& r is Ok <==> resized is Ok
                &&& forwarded matches Err(e) ==> f == Err::<(), Seq<char>>(e@)
                &&& resized matches Err(e) ==> r == Err::<(), Seq<char>>(e@)
            },
            (Event::Checkpoint(Ok(bytes)), EventView::Checkpoint(Ok(b))) => b == bytes@,
            (Event::Checkpoint(Err(e)), EventView::Checkpoint(Err(w))) => w == e@,
            (Event::Screen(Ok(s)), EventView::Screen(Ok((text, checkpoint, x, y)))) => text
                == s.text@ && checkpoint == s.checkpoint@ && x == s.cursor_x && y == s.cursor_y,
            (Event::Screen(Err(e)), EventView::Screen(Err(w))) => w == e@,
            (Event::Rows(Ok(s)), EventView::Rows(Ok((lines, x, y)))) => lines == texts(s.lines@)
                && x == s.cursor_x && y == s.cursor_y,
            (Event::Rows(Err(e)), EventView::Rows(Err(w))) => w == e@,
            (Event::Gone(gone), EventView::Gone(g)) => g.contains(id) <==> texts(gone@).contains(
                id,
            ),
            _ => false,
        },
{
}

} // verus!
