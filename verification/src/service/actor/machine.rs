//! The state machine of a terminal, step by step.
use super::laws::law_actor_stays_valid;
use super::{
    opt_bytes, outcome, Action, Actor, ActorMessage, ActorView, Attached, Event, MessageView, Reply,
    Screen, ScreenRows, Stage, StageView, Then,
};
use crate::error::Error;
use crate::protocol::AttachmentRole;
use crate::service::model::{
    copy_bytes, RawReplay, StreamEvent, TerminalInfo, TerminalLifecycle, TerminalRows,
    TerminalSnapshot,
};
use crate::service::replay::{ReplayBuffer, ReplayView};
use crate::service::roster::{Roster, RosterView};
use crate::text::{copy_opt, opt_text, same, same_opt, texts};
use vstd::prelude::*;

verus! {

impl Actor {
    /// A terminal whose child has just been started, ready for its first message.
    pub fn new(info: TerminalInfo, replay_capacity: usize, conpty: bool) -> (r: Self)
        requires
            info.output_head == 0,
            info.output_tail == 0,
        ensures
            r.wf(),
            r@.is_fresh(),
            r@ == (ActorView {
                info: info@,
                replay: ReplayView {
                    bytes: Seq::empty(),
                    capacity: replay_capacity as nat,
                    head: 0,
                    tail: 0,
                },
                roster: RosterView { seats: Map::empty(), controller: None, generation: 0 },
                child_exit: None,
                reader_eof: false,
                final_exit: None,
                conpty,
                master_open: true,
                stage: StageView::Ready,
            }),
    {
        Actor {
            info,
            replay: ReplayBuffer::new(replay_capacity),
            roster: Roster::new(),
            child_exit: None,
            reader_eof: false,
            final_exit: None,
            conpty,
            master_open: true,
            stage: Stage::Ready,
        }
    }

    fn stop(&mut self, result: Result<(), Error>) -> (action: Action)
        requires
            old(self).parts_wf(),
        ensures
            final(self).parts_wf(),
            (final(self)@, action@) == old(self)@.stop(outcome(result)),
            action.goes_to(final(self)@.roster),
    {
        self.stage = Stage::Stopped;
        Action::Stop(result)
    }

    fn answer(&mut self, reply: Reply) -> (action: Action)
        requires
            old(self).parts_wf(),
        ensures
            final(self).parts_wf(),
            (final(self)@, action@) == old(self)@.answer(reply@),
            action.goes_to(final(self)@.roster),
    {
        self.stage = Stage::Replying;
        Action::Reply(reply)
    }

    fn refuse(&mut self, error: Error) -> (action: Action)
        requires
            old(self).parts_wf(),
        ensures
            final(self).parts_wf(),
            (final(self)@, action@) == old(self)@.refuse(error@),
            action.goes_to(final(self)@.roster),
    {
        self.answer(Reply::Done(Err(error)))
    }

    fn tell(&mut self, event: StreamEvent, then: Then) -> (action: Action)
        requires
            old(self).parts_wf(),
        ensures
            final(self).parts_wf(),
            (final(self)@, action@) == old(self)@.tell(event@, then@),
            action.goes_to(final(self)@.roster),
    {
        let recipients = self.roster.recipients();
        self.stage = Stage::Telling(then);
        Action::Broadcast { event, recipients }
    }

    fn tell_controller(&mut self, then: Then) -> (action: Action)
        requires
            old(self).parts_wf(),
        ensures
            final(self).parts_wf(),
            (final(self)@, action@) == old(self)@.tell_controller(then@),
            action.goes_to(final(self)@.roster),
    {
        let attachment_id = copy_opt(&self.roster.controller);
        let generation: u64 = self.roster.generation;
        self.tell(StreamEvent::ControllerChanged { attachment_id, generation }, then)
    }

    fn finish(&mut self) -> (action: Action)
        requires
            old(self).parts_wf(),
        ensures
            final(self).parts_wf(),
            (final(self)@, action@) == old(self)@.finish(),
            action.goes_to(final(self)@.roster),
    {
        if self.reader_eof && self.final_exit.is_none() {
            let mut exit: Option<Result<Option<u32>, String>> = None;
            std::mem::swap(&mut exit, &mut self.child_exit);
            match exit {
                Some(result) => {
                    let exit_code: Option<u32> = match &result {
                        Ok(code) => *code,
                        Err(_) => None,
                    };
                    self.info.lifecycle = match result {
                        Ok(exit_code) => TerminalLifecycle::Exited { exit_code },
                        Err(message) => TerminalLifecycle::Failed { message },
                    };
                    let final_offset: u64 = self.replay.tail;
                    self.final_exit = Some((exit_code, final_offset));
                    return self.tell(StreamEvent::Exited { exit_code, final_offset }, Then::Next);
                },
                None => {},
            }
        }
        self.stage = Stage::Ready;
        Action::Receive
    }

    fn size(&mut self, cols: u16, rows: u16, input: Option<Vec<u8>>) -> (action: Action)
        requires
            old(self).parts_wf(),
        ensures
            final(self).parts_wf(),
            (final(self)@, action@) == old(self)@.size(cols, rows, opt_bytes(input)),
            action.goes_to(final(self)@.roster),
    {
        if self.master_open {
            self.stage = Stage::SizingPty { cols, rows, input };
            Action::ResizePty { cols, rows }
        } else {
            self.refuse(Error::ChildExited)
        }
    }

    fn put(&mut self, input: Option<Vec<u8>>) -> (action: Action)
        requires
            old(self).parts_wf(),
        ensures
            final(self).parts_wf(),
            (final(self)@, action@) == old(self)@.put(opt_bytes(input)),
            action.goes_to(final(self)@.roster),
    {
        match input {
            None => self.answer(Reply::Done(Ok(()))),
            Some(bytes) => if self.conpty && !self.master_open {
                self.refuse(Error::ChildExited)
            } else {
                self.stage = Stage::Writing;
                Action::QueueWrite(bytes)
            },
        }
    }

    fn welcome(&mut self, replay: RawReplay) -> (action: Action)
        requires
            old(self).parts_wf(),
        ensures
            final(self).parts_wf(),
            (final(self)@, action@) == old(self)@.welcome(replay@),
            action.goes_to(final(self)@.roster),
    {
        match self.final_exit {
            Some((exit_code, final_offset)) => {
                self.stage = Stage::Sending(replay);
                Action::Send(StreamEvent::Exited { exit_code, final_offset })
            },
            None => {
                let generation: u64 = self.roster.generation;
                self.answer(Reply::Attached(Ok(Attached { generation, replay })))
            },
        }
    }

    fn resume(&mut self, then: Then) -> (action: Action)
        requires
            old(self).parts_wf(),
        ensures
            final(self).parts_wf(),
            (final(self)@, action@) == old(self)@.resume(then@),
            action.goes_to(final(self)@.roster),
    {
        match then {
            Then::Title => {
                self.stage = Stage::Titling;
                Action::TakeTitle
            },
            Then::Next => self.finish(),
            Then::Size { cols, rows, input } => if self.info.cols != cols || self.info.rows != rows {
                self.size(cols, rows, input)
            } else {
                self.put(input)
            },
            Then::Input(input) => self.put(input),
            Then::Attached(replay) => self.welcome(replay),
        }
    }

    fn fail(&mut self, message: String)
        requires
            old(self).parts_wf(),
        ensures
            final(self).parts_wf(),
            final(self)@ == old(self)@.failed(message@),
    {
        if self.final_exit.is_none() {
            self.info.lifecycle = TerminalLifecycle::Failed { message };
        }
    }

    /// Takes control for somebody who is attached, then brings the terminal to a size.
    fn control(
        &mut self,
        attachment_id: String,
        cols: u16,
        rows: u16,
        bytes: Option<Vec<u8>>,
    ) -> (action: Action)
        requires
            old(self).parts_wf(),
        ensures
            final(self).parts_wf(),
            (final(self)@, action@) == old(self)@.receive(
                MessageView::Control {
                    attachment_id: attachment_id@,
                    cols,
                    rows,
                    bytes: opt_bytes(bytes),
                },
            ),
            action.goes_to(final(self)@.roster),
    {
        if !self.roster.is_subscribed(attachment_id.as_str()) {
            return self.refuse(Error::NotSubscribed { attachment_id });
        }
        let then = Then::Size { cols, rows, input: bytes };
        if !self.roster.is_controller(attachment_id.as_str()) {
            self.roster.take_control(&attachment_id);
            self.tell_controller(then)
        } else {
            self.resume(then)
        }
    }

    /// Attaches somebody, as far as the actor can by itself.
    fn attach(
        &mut self,
        offset: u64,
        attachment_id: String,
        role: AttachmentRole,
        takeover: bool,
    ) -> (action: Action)
        requires
            old(self).parts_wf(),
        ensures
            final(self).parts_wf(),
            (final(self)@, action@) == old(self)@.receive(
                MessageView::Attach { offset, attachment_id: attachment_id@, role, takeover },
            ),
            action.goes_to(final(self)@.roster),
    {
        if role == AttachmentRole::Controller {
            match self.roster.reserve_control(&attachment_id, takeover) {
                Ok(_) => {},
                Err(e) => {
                    return self.answer(Reply::Attached(Err(e)));
                },
            }
        }
        match self.replay.read_from(offset) {
            Err(e) => self.answer(Reply::Attached(Err(e))),
            Ok(replay) => {
                self.roster.enroll(&attachment_id, role);
                self.stage = Stage::Opening { role, replay };
                Action::OpenQueue(attachment_id)
            },
        }
    }

    fn receive(&mut self, message: ActorMessage) -> (action: Action)
        requires
            old(self).parts_wf(),
        ensures
            final(self).parts_wf(),
            (final(self)@, action@) == old(self)@.receive(message@),
            action.goes_to(final(self)@.roster),
    {
        match message {
            ActorMessage::Output(bytes) => {
                let (start, end) = self.replay.append(bytes.as_slice());
                let fed = copy_bytes(&bytes);
                self.stage = Stage::Feeding { start, end, bytes };
                Action::Feed(fed)
            },
            ActorMessage::ReaderEof => {
                self.reader_eof = true;
                self.finish()
            },
            ActorMessage::ReaderFailed(message) => {
                self.fail(message);
                self.finish()
            },
            ActorMessage::WriterFailed(message) => {
                self.fail(message);
                self.finish()
            },
            ActorMessage::ChildExited(result) => {
                self.child_exit = Some(result);
                if self.conpty && self.master_open {
                    self.stage = Stage::Closing;
                    Action::CloseMaster
                } else {
                    self.finish()
                }
            },
            ActorMessage::RefreshForegroundProcess => if self.master_open {
                self.stage = Stage::Querying;
                Action::QueryForeground
            } else {
                self.answer(Reply::Done(Ok(())))
            },
            ActorMessage::Write { attachment_id, bytes } => {
                match self.roster.authorize_controller(&attachment_id) {
                    Ok(_) => self.put(Some(bytes)),
                    Err(e) => self.refuse(e),
                }
            },
            ActorMessage::Resize { attachment_id, cols, rows } => {
                match self.roster.authorize_controller(&attachment_id) {
                    Ok(_) => self.size(cols, rows, None),
                    Err(e) => self.refuse(e),
                }
            },
            ActorMessage::Control { attachment_id, cols, rows, bytes } => self.control(
                attachment_id,
                cols,
                rows,
                bytes,
            ),
            ActorMessage::Snapshot => {
                self.stage = Stage::Picturing;
                Action::Picture
            },
            ActorMessage::ReadRows { rows } => {
                self.stage = Stage::ReadingRows;
                Action::ReadRows(rows)
            },
            ActorMessage::Replay { offset } => {
                let result = self.replay.read_from(offset);
                self.answer(Reply::Replay(result))
            },
            ActorMessage::Attach { offset, attachment_id, role, takeover } => self.attach(
                offset,
                attachment_id,
                role,
                takeover,
            ),
            ActorMessage::Detach { attachment_id } => {
                self.stage = Stage::Detaching(attachment_id);
                Action::QueryGone
            },
        }
    }

    /// Whether the actor waits for this kind of event.
    pub fn awaits(&self, event: &Event) -> (r: bool)
        ensures
            r == self@.expects(event@),
    {
        match (&self.stage, event) {
            (Stage::Ready, Event::Message(_)) => true,
            (Stage::Ready, Event::Disconnected) => true,
            (Stage::Feeding { .. }, Event::Done(_)) => true,
            (Stage::SizingPty { .. }, Event::Done(_)) => true,
            (Stage::Writing, Event::Done(_)) => true,
            (Stage::Opening { .. }, Event::Done(_)) => true,
            (Stage::Sending(_), Event::Done(_)) => true,
            (Stage::Closing, Event::Done(_)) => true,
            (Stage::Replying, Event::Done(_)) => true,
            (Stage::Telling(_), Event::Delivered { .. }) => true,
            (Stage::Titling, Event::Title(_)) => true,
            (Stage::Querying, Event::Foreground(_)) => true,
            (Stage::SizingTerminal { .. }, Event::Resized { .. }) => true,
            (Stage::Checkpointing { .. }, Event::Checkpoint(_)) => true,
            (Stage::Picturing, Event::Screen(_)) => true,
            (Stage::ReadingRows, Event::Rows(_)) => true,
            (Stage::Detaching(_), Event::Gone(_)) => true,
            _ => false,
        }
    }

    /// Goes on after the action of `stage` was carried out.
    fn done(&mut self, stage: Stage, result: Result<(), Error>) -> (action: Action)
        requires
            old(self).parts_wf(),
        ensures
            final(self).parts_wf(),
            (final(self)@, action@) == (ActorView { stage: stage@, ..old(self)@ }).done(
                outcome(result),
            ),
            action.goes_to(final(self)@.roster),
    {
        match stage {
            Stage::Feeding { start, end, bytes } => match result {
                Err(e) => self.stop(Err(e)),
                Ok(_) => {
                    self.info.output_head = self.replay.head;
                    self.info.output_tail = self.replay.tail;
                    self.tell(StreamEvent::Output { start, end, bytes }, Then::Title)
                },
            },
            Stage::SizingPty { cols, rows, input } => match result {
                Err(e) => self.refuse(e),
                Ok(_) => {
                    self.stage = Stage::SizingTerminal { cols, rows, input };
                    Action::ResizeTerminal { cols, rows }
                },
            },
            Stage::Writing => self.answer(Reply::Done(result)),
            Stage::Opening { role, replay } => if role == AttachmentRole::Controller {
                self.tell_controller(Then::Attached(replay))
            } else {
                self.welcome(replay)
            },
            Stage::Sending(replay) => {
                let generation: u64 = self.roster.generation;
                self.answer(Reply::Attached(Ok(Attached { generation, replay })))
            },
            Stage::Closing => match result {
                Err(e) => self.stop(Err(e)),
                Ok(_) => {
                    self.master_open = false;
                    self.finish()
                },
            },
            _ => self.finish(),
        }
    }

    /// Goes on after the emulator was resized in `stage`.
    fn resized(
        &mut self,
        stage: Stage,
        forwarded: Result<(), Error>,
        resized: Result<(), Error>,
    ) -> (action: Action)
        requires
            old(self).parts_wf(),
        ensures
            final(self).parts_wf(),
            (final(self)@, action@) == (ActorView { stage: stage@, ..old(self)@ }).resized(
                outcome(forwarded),
                outcome(resized),
            ),
            action.goes_to(final(self)@.roster),
    {
        match forwarded {
            Err(e) => {
                return self.refuse(e);
            },
            Ok(_) => {},
        }
        match resized {
            Err(e) => {
                return self.refuse(e);
            },
            Ok(_) => {},
        }
        match stage {
            Stage::SizingTerminal { cols, rows, input } => {
                self.info.cols = cols;
                self.info.rows = rows;
                self.stage = Stage::Checkpointing { cols, rows, input };
                Action::Checkpoint
            },
            _ => self.finish(),
        }
    }

    /// Goes on with the bytes that restore the screen resized in `stage`.
    fn checkpointed(&mut self, stage: Stage, result: Result<Vec<u8>, Error>) -> (action: Action)
        requires
            old(self).parts_wf(),
        ensures
            final(self).parts_wf(),
            (final(self)@, action@) == (ActorView { stage: stage@, ..old(self)@ }).checkpointed(
                match result {
                    Ok(bytes) => Ok(bytes@),
                    Err(e) => Err(e@),
                },
            ),
            action.goes_to(final(self)@.roster),
    {
        match result {
            Err(e) => self.refuse(e),
            Ok(checkpoint) => match stage {
                Stage::Checkpointing { cols, rows, input } => {
                    let generation: u64 = self.roster.generation;
                    self.tell(
                        StreamEvent::Resized { cols, rows, generation, checkpoint },
                        Then::Input(input),
                    )
                },
                _ => self.finish(),
            },
        }
    }

    fn titled(&mut self, title: Option<String>) -> (action: Action)
        requires
            old(self).parts_wf(),
        ensures
            final(self).parts_wf(),
            (final(self)@, action@) == old(self)@.titled(opt_text(title)),
            action.goes_to(final(self)@.roster),
    {
        match title {
            Some(title) => if !same(title.as_str(), self.info.title.as_str()) {
                self.info.title = title.clone();
                self.tell(StreamEvent::TitleChanged { title }, Then::Next)
            } else {
                self.finish()
            },
            None => self.finish(),
        }
    }

    fn watched(&mut self, process: Option<String>) -> (action: Action)
        requires
            old(self).parts_wf(),
        ensures
            final(self).parts_wf(),
            (final(self)@, action@) == old(self)@.watched(opt_text(process)),
            action.goes_to(final(self)@.roster),
    {
        if !same_opt(&process, &self.info.foreground_process) {
            self.info.foreground_process = copy_opt(&process);
            self.tell(StreamEvent::ForegroundProcessChanged { process }, Then::Input(None))
        } else {
            self.answer(Reply::Done(Ok(())))
        }
    }

    fn delivered(
        &mut self,
        then: Then,
        failed: Vec<String>,
        gone: Vec<String>,
        stopping: bool,
    ) -> (action: Action)
        requires
            old(self).parts_wf(),
        ensures
            final(self).parts_wf(),
            (ActorView { stage: StageView::Telling(then@), ..old(self)@ }).delivers(
                texts(failed@).to_set(),
                texts(gone@).to_set(),
                stopping,
                final(self)@,
                action@,
            ),
            action.goes_to(final(self)@.roster),
    {
        if !stopping && self.roster.settle(&failed, &gone) {
            self.tell_controller(then)
        } else {
            self.resume(then)
        }
    }

    fn detached(&mut self, id: String, gone: Vec<String>) -> (action: Action)
        requires
            old(self).parts_wf(),
        ensures
            final(self).parts_wf(),
            (ActorView { stage: StageView::Detaching(id@), ..old(self)@ }).detaches(
                texts(gone@).to_set(),
                final(self)@,
                action@,
            ),
            action.goes_to(final(self)@.roster),
    {
        if self.roster.detach(&id, &gone) {
            self.tell_controller(Then::Next)
        } else {
            self.finish()
        }
    }

    fn pictured(&mut self, result: Result<Screen, Error>) -> (action: Action)
        requires
            old(self).parts_wf(),
        ensures
            final(self).parts_wf(),
            (final(self)@, action@) == old(self)@.pictured(
                match result {
                    Ok(s) => Ok((s.text@, s.checkpoint@, s.cursor_x, s.cursor_y)),
                    Err(e) => Err(e@),
                },
            ),
            action.goes_to(final(self)@.roster),
    {
        let reply = match result {
            Ok(screen) => Ok(
                TerminalSnapshot {
                    info: self.info.clone(),
                    text: screen.text,
                    checkpoint: screen.checkpoint,
                    cursor_x: screen.cursor_x,
                    cursor_y: screen.cursor_y,
                },
            ),
            Err(e) => Err(e),
        };
        self.answer(Reply::Snapshot(reply))
    }

    fn listed(&mut self, result: Result<ScreenRows, Error>) -> (action: Action)
        requires
            old(self).parts_wf(),
        ensures
            final(self).parts_wf(),
            (final(self)@, action@) == old(self)@.listed(
                match result {
                    Ok(s) => Ok((texts(s.lines@), s.cursor_x, s.cursor_y)),
                    Err(e) => Err(e@),
                },
            ),
            action.goes_to(final(self)@.roster),
    {
        let reply = match result {
            Ok(screen) => Ok(
                TerminalRows {
                    terminal: self.info.clone(),
                    lines: screen.lines,
                    cursor_x: screen.cursor_x,
                    cursor_y: screen.cursor_y,
                },
            ),
            Err(e) => Err(e),
        };
        self.answer(Reply::Rows(reply))
    }

    /// Goes on with an event that `stage`, which the actor was in, waits for.
    #[verifier::spinoff_prover]
    fn proceed(&mut self, stage: Stage, event: Event) -> (action: Action)
        requires
            old(self).parts_wf(),
            (ActorView { stage: stage@, ..old(self)@ }).expects(event@),
            old(self).stage is Ready,
        ensures
            final(self).parts_wf(),
            (ActorView { stage: stage@, ..old(self)@ }).steps(event@, final(self)@, action@),
            action.goes_to(final(self)@.roster),
    {
        match event {
            Event::Message(message) => self.receive(message),
            Event::Disconnected => self.stop(Ok(())),
            Event::Done(result) => self.done(stage, result),
            Event::Delivered { failed, gone, stopping } => match stage {
                Stage::Telling(then) => self.delivered(then, failed, gone, stopping),
                _ => self.finish(),
            },
            Event::Title(title) => self.titled(title),
            Event::Foreground(process) => self.watched(process),
            Event::Resized { forwarded, resized } => self.resized(stage, forwarded, resized),
            Event::Checkpoint(result) => self.checkpointed(stage, result),
            Event::Screen(result) => self.pictured(result),
            Event::Rows(result) => self.listed(result),
            Event::Gone(gone) => match stage {
                Stage::Detaching(id) => self.detached(id, gone),
                _ => self.finish(),
            },
        }
    }

    /// Tells the actor what happened, and learns what to do. An event that the actor does not
    /// wait for changes nothing and comes back.
    #[verifier::spinoff_prover]
    pub fn step(&mut self, event: Event) -> (r: Result<Action, Event>)
        requires
            old(self).wf(),
        ensures
            final(self).wf(),
            match r {
                Ok(action) => {
                    &&& old(self)@.steps(event@, final(self)@, action@)
                    &&& action.goes_to(final(self)@.roster)
                },
                Err(back) => {
                    &&& !old(self)@.expects(event@)
                    &&& back == event
                    &&& *final(self) == *old(self)
                },
            },
    {
        if !self.awaits(&event) {
            return Err(event);
        }
        let ghost told = event@;
        let mut stage = Stage::Ready;
        std::mem::swap(&mut stage, &mut self.stage);
        let action = self.proceed(stage, event);
        proof {
            law_actor_stays_valid(old(self)@, told, self@, action@);
        }
        Ok(action)
    }
}

} // verus!
