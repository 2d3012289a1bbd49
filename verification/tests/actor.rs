use opencode_pty::error::Error;
use opencode_pty::protocol::AttachmentRole;
use opencode_pty::service::actor::{
    Action, Actor, ActorMessage, Attached, Event, Reply, Screen, ScreenRows,
};
use opencode_pty::service::delivery::{Attempt, Delivery};
use opencode_pty::service::{StreamEvent, TerminalInfo, TerminalLifecycle};
use std::path::PathBuf;

fn test_info() -> TerminalInfo {
    TerminalInfo {
        id: 1,
        pid: None,
        title: "test".into(),
        foreground_process: None,
        group_id: "test".into(),
        command: vec![],
        cwd: PathBuf::new(),
        cols: 80,
        rows: 24,
        lifecycle: TerminalLifecycle::Running,
        output_head: 0,
        output_tail: 0,
    }
}

/// The queue of one attachment.
struct Queue {
    id: String,
    events: Vec<StreamEvent>,
    capacity: usize,
    /// Nobody reads the queue any more.
    closed: bool,
    /// The guard of the attachment is dropped.
    gone: bool,
}

/// Everything that a terminal needs from outside, kept in memory.
struct World {
    actor: Actor,
    queues: Vec<Queue>,
    /// The position of the queue of each attached name.
    current: Vec<(String, usize)>,
    screen: String,
    title: Option<String>,
    process: Option<String>,
    writes: Vec<Vec<u8>>,
    writer_stopped: bool,
    close_fails: bool,
    stopping: bool,
    stopped: Option<Result<(), Error>>,
}

impl World {
    fn new(capacity: usize, conpty: bool) -> Self {
        World {
            actor: Actor::new(test_info(), capacity, conpty),
            queues: Vec::new(),
            current: Vec::new(),
            screen: String::new(),
            title: None,
            process: None,
            writes: Vec::new(),
            writer_stopped: false,
            close_fails: false,
            stopping: false,
            stopped: None,
        }
    }

    fn queue(&self, id: &str) -> usize {
        self.current.iter().rev().find(|(name, _)| name == id).unwrap().1
    }

    fn gone(&self) -> Vec<String> {
        let mut gone = Vec::new();
        for (id, _) in &self.current {
            if self.queues[self.queue(id)].gone && !gone.contains(id) {
                gone.push(id.clone());
            }
        }
        gone
    }

    fn written(&mut self, bytes: Vec<u8>) -> Result<(), Error> {
        if self.writer_stopped {
            return Err(Error::WriterStopped);
        }
        self.writes.push(bytes);
        Ok(())
    }

    /// Handles a message to its end; returns the answer, if one is given.
    fn send(&mut self, message: ActorMessage) -> Option<Reply> {
        let mut reply = None;
        let mut event = Event::Message(message);
        loop {
            let action = match self.actor.step(event) {
                Ok(action) => action,
                Err(_) => panic!("the actor does not wait for this"),
            };
            event = match action {
                Action::Receive => return reply,
                Action::Stop(result) => {
                    self.stopped = Some(result);
                    return reply;
                }
                Action::QueryForeground => Event::Foreground(self.process.clone()),
                Action::Feed(bytes) => {
                    self.screen.push_str(&String::from_utf8_lossy(&bytes));
                    Event::Done(Ok(()))
                }
                Action::Broadcast { event, recipients } => {
                    let mut delivery = Delivery::new();
                    for recipient in recipients {
                        let at = self.queue(&recipient.attachment_id);
                        let stopping = self.stopping;
                        let queue = &mut self.queues[at];
                        let full = queue.events.len() >= queue.capacity;
                        let attempt = if queue.gone {
                            Attempt::Gone
                        } else if queue.closed {
                            Attempt::Refused
                        } else if full && recipient.wait && stopping {
                            Attempt::Stopping
                        } else if full && !recipient.wait {
                            Attempt::Refused
                        } else {
                            queue.events.push(event.clone());
                            Attempt::Sent
                        };
                        if !delivery.record(recipient, attempt) {
                            break;
                        }
                    }
                    delivery.outcome(self.gone(), self.stopping)
                }
                Action::TakeTitle => Event::Title(self.title.take()),
                Action::ResizePty { .. } => Event::Done(Ok(())),
                Action::ResizeTerminal { .. } => {
                    Event::Resized { forwarded: Ok(()), resized: Ok(()) }
                }
                Action::Checkpoint => Event::Checkpoint(Ok(self.screen.clone().into_bytes())),
                Action::QueueWrite(bytes) => Event::Done(self.written(bytes)),
                Action::Picture => Event::Screen(Ok(Screen {
                    text: self.screen.clone(),
                    checkpoint: self.screen.clone().into_bytes(),
                    cursor_x: 0,
                    cursor_y: 0,
                })),
                Action::ReadRows(rows) => Event::Rows(Ok(ScreenRows {
                    lines: vec![format!("{rows:?}")],
                    cursor_x: 3,
                    cursor_y: 4,
                })),
                Action::OpenQueue(id) => {
                    self.queues.push(Queue {
                        id: id.clone(),
                        events: Vec::new(),
                        capacity: 1024,
                        closed: false,
                        gone: false,
                    });
                    self.current.push((id, self.queues.len() - 1));
                    Event::Done(Ok(()))
                }
                Action::Send(event) => {
                    self.queues.last_mut().unwrap().events.push(event);
                    Event::Done(Ok(()))
                }
                Action::QueryGone => Event::Gone(self.gone()),
                Action::CloseMaster => Event::Done(if self.close_fails {
                    Err(Error::CloseWorkerStopped)
                } else {
                    Ok(())
                }),
                Action::Reply(given) => {
                    assert!(reply.is_none());
                    reply = Some(given);
                    Event::Done(Ok(()))
                }
            };
        }
    }

    fn ask(&mut self, message: ActorMessage) -> Result<(), String> {
        match self.send(message) {
            Some(Reply::Done(result)) => result.map_err(|e| e.message()),
            _ => panic!("answered"),
        }
    }

    fn attach(
        &mut self,
        offset: u64,
        id: &str,
        role: AttachmentRole,
        takeover: bool,
    ) -> Result<Attached, String> {
        match self.send(ActorMessage::Attach {
            offset,
            attachment_id: id.to_string(),
            role,
            takeover,
        }) {
            Some(Reply::Attached(result)) => result.map_err(|e| e.message()),
            _ => panic!("answered"),
        }
    }

    fn detach(&mut self, id: &str) {
        assert!(self.send(ActorMessage::Detach { attachment_id: id.to_string() }).is_none());
    }

    fn output(&mut self, bytes: &[u8]) {
        assert!(self.send(ActorMessage::Output(bytes.to_vec())).is_none());
    }

    fn write(&mut self, id: Option<&str>, bytes: &[u8]) -> Result<(), String> {
        self.ask(ActorMessage::Write {
            attachment_id: id.map(str::to_string),
            bytes: bytes.to_vec(),
        })
    }

    fn resize(&mut self, id: Option<&str>, cols: u16, rows: u16) -> Result<(), String> {
        self.ask(ActorMessage::Resize { attachment_id: id.map(str::to_string), cols, rows })
    }

    fn control(&mut self, id: &str, cols: u16, rows: u16) -> Result<(), String> {
        self.ask(ActorMessage::Control { attachment_id: id.to_string(), cols, rows, bytes: None })
    }

    fn input(&mut self, id: &str, cols: u16, rows: u16, bytes: &[u8]) -> Result<(), String> {
        self.ask(ActorMessage::Control {
            attachment_id: id.to_string(),
            cols,
            rows,
            bytes: Some(bytes.to_vec()),
        })
    }

    fn snapshot(&mut self) -> opencode_pty::service::TerminalSnapshot {
        match self.send(ActorMessage::Snapshot) {
            Some(Reply::Snapshot(Ok(snapshot))) => snapshot,
            _ => panic!("snapshot"),
        }
    }

    fn is_attached(&self, id: &str) -> bool {
        self.actor.roster.is_subscribed(id)
    }

    fn controller(&self) -> Option<&str> {
        self.actor.roster.controller.as_deref()
    }
}

const CONTROLLER: AttachmentRole = AttachmentRole::Controller;
const OBSERVER: AttachmentRole = AttachmentRole::Observer;

#[test]
fn child_exit_and_reader_eof_are_distinct_actor_signals() {
    for eof_first in [false, true] {
        let mut world = World::new(4096, false);
        world.send(if eof_first {
            ActorMessage::ReaderEof
        } else {
            ActorMessage::ChildExited(Ok(Some(23)))
        });
        let snapshot = world.snapshot();
        assert_eq!(snapshot.info.lifecycle, TerminalLifecycle::Running);
        if !eof_first {
            world.output(b"final");
        }
        world.send(if eof_first {
            ActorMessage::ChildExited(Ok(Some(23)))
        } else {
            ActorMessage::ReaderEof
        });
        let snapshot = world.snapshot();
        assert_eq!(
            snapshot.info.lifecycle,
            TerminalLifecycle::Exited { exit_code: Some(23) }
        );
        if !eof_first {
            assert_eq!(snapshot.text, "final");
        }
        world.send(ActorMessage::WriterFailed("late broken pipe".into()));
        let after_write_error = world.snapshot();
        assert_eq!(after_write_error.info.lifecycle, snapshot.info.lifecycle);
    }
}

#[test]
fn late_attachments_receive_final_exit_after_replay_and_control() {
    let mut world = World::new(4096, false);
    for message in [
        ActorMessage::Output(b"final".to_vec()),
        ActorMessage::ChildExited(Ok(Some(23))),
        ActorMessage::ReaderEof,
    ] {
        world.send(message);
    }
    for role in [OBSERVER, CONTROLLER] {
        let attached = world.attach(2, "late", role, false).unwrap();
        let at = world.queue("late");
        let mut events = std::mem::take(&mut world.queues[at].events);
        world.queues[at].gone = true;
        world.detach("late");
        assert_eq!(attached.replay.bytes, b"nal");
        assert_eq!((attached.replay.available_offset, attached.replay.end_offset), (2, 5));
        if role == CONTROLLER {
            assert!(matches!(events.remove(0), StreamEvent::ControllerChanged { .. }));
        }
        assert!(matches!(
            events.as_slice(),
            [StreamEvent::Exited { exit_code: Some(23), final_offset: 5 }]
        ));
    }
}

#[test]
fn failed_close_handoff_retains_master_ownership() {
    let mut world = World::new(16, true);
    world.close_fails = true;
    world.send(ActorMessage::ChildExited(Ok(Some(0))));
    let Some(Err(e)) = &world.stopped else {
        panic!("stopped");
    };
    assert_eq!(e.message(), "terminal close worker stopped");
    assert!(world.actor.master_open);
}

#[test]
fn attachment_drop_unblocks_controller_send_with_a_receiver_clone() {
    let mut world = World::new(16, false);
    world.attach(0, "controller", CONTROLLER, false).unwrap();
    let at = world.queue("controller");
    world.queues[at].capacity = 1;
    world.queues[at].gone = true;
    world.title = Some("blocked".to_string());
    world.output(b"x");
    assert!(!world.is_attached("controller"));
    assert!(world.controller().is_none());
    assert_eq!(world.queues[at].events.len(), 1);
    world.detach("controller");
    assert!(world.controller().is_none());
}

#[test]
fn stale_detach_does_not_remove_a_live_replacement() {
    let mut world = World::new(4096, false);
    world.attach(0, "shared", CONTROLLER, false).unwrap();
    let old = world.queue("shared");
    world.attach(0, "shared", CONTROLLER, false).unwrap();
    let current = world.queue("shared");
    assert_ne!(old, current);
    world.queues[old].gone = true;
    world.detach("shared");
    let replacement = world.control("shared", 80, 24);
    world.queues[current].gone = true;
    world.detach("shared");
    let detached = world.control("shared", 80, 24);
    assert!(replacement.is_ok());
    assert_eq!(detached.unwrap_err(), "attachment shared is not subscribed");
}

#[test]
fn broadcast_removes_failed_observers_before_promoting() {
    let mut world = World::new(16, false);
    world.attach(0, "a", CONTROLLER, false).unwrap();
    world.attach(0, "b", OBSERVER, false).unwrap();
    for id in ["a", "b"] {
        let at = world.queue(id);
        world.queues[at].capacity = 0;
    }
    let first = world.queue("a");
    world.queues[first].closed = true;
    assert_eq!(world.actor.roster.generation, 1);
    world.output(b"next");
    assert!(!world.is_attached("a") && !world.is_attached("b"));
    assert!(world.controller().is_none());
    assert_eq!(world.actor.roster.generation, 2);
}

#[test]
fn shutdown_interrupts_controller_backpressure() {
    let mut world = World::new(16, false);
    world.attach(0, "controller", CONTROLLER, false).unwrap();
    let at = world.queue("controller");
    world.queues[at].capacity = 1;
    world.stopping = true;
    world.output(b"!");
    assert_eq!(world.queues[at].events.len(), 1);
    assert_eq!(world.controller(), Some("controller"));
}

#[test]
fn controller_backpressures_instead_of_disconnecting() {
    let mut world = World::new(16, false);
    world.attach(0, "controller", CONTROLLER, false).unwrap();
    let at = world.queue("controller");
    world.queues[at].capacity = 1;
    world.queues[at].events.clear();
    world.output(b"a");
    world.output(b"b");
    assert!(matches!(
        world.queues[at].events.as_slice(),
        [StreamEvent::Output { start: 0, .. }, StreamEvent::Output { start: 1, .. }]
    ));
    assert!(world.is_attached("controller"));
}

#[test]
fn slow_observer_is_disconnected() {
    let mut world = World::new(16, false);
    world.attach(0, "observer", OBSERVER, false).unwrap();
    let at = world.queue("observer");
    world.queues[at].capacity = 1;
    world.output(b"a");
    world.output(b"b");
    assert!(!world.is_attached("observer"));
}

#[test]
fn hidden_terminal_output_uses_bounded_replay() {
    let mut world = World::new(32, false);
    world.output(b"0123456789abcdefghijklmnopqrstuvwxyz");
    assert!(world.actor.info.output_tail >= 36);
    let Some(Reply::Replay(Ok(replay))) = world.send(ActorMessage::Replay { offset: 0 }) else {
        panic!("replay");
    };
    assert!(replay.truncated);
    assert_eq!(replay.bytes.len(), 32);
    assert_eq!(replay.end_offset - replay.available_offset, 32);
    assert_eq!(replay.bytes, b"456789abcdefghijklmnopqrstuvwxyz");
    assert_eq!(world.actor.info.output_head, 4);
}

#[test]
fn title_changes_update_metadata_and_notify_subscribers() {
    let mut world = World::new(64 * 1024, false);
    world.attach(0, "observer", OBSERVER, false).unwrap();
    world.title = Some("dynamic-title".to_string());
    world.output(b"\x1b]2;dynamic-title\x07");
    let at = world.queue("observer");
    assert!(matches!(
        world.queues[at].events.as_slice(),
        [StreamEvent::Output { .. }, StreamEvent::TitleChanged { title }]
            if title == "dynamic-title"
    ));
    assert_eq!(world.actor.info.title, "dynamic-title");
    world.title = Some("dynamic-title".to_string());
    world.output(b"again");
    assert_eq!(world.queues[at].events.len(), 3);
}

#[test]
fn foreground_process_changes_are_told_once() {
    let mut world = World::new(16, false);
    world.attach(0, "observer", OBSERVER, false).unwrap();
    world.process = Some("sleep".to_string());
    world.ask(ActorMessage::RefreshForegroundProcess).unwrap();
    world.ask(ActorMessage::RefreshForegroundProcess).unwrap();
    assert_eq!(world.actor.info.foreground_process.as_deref(), Some("sleep"));
    let at = world.queue("observer");
    assert!(matches!(
        world.queues[at].events.as_slice(),
        [StreamEvent::ForegroundProcessChanged { process: Some(process) }] if process == "sleep"
    ));
}

#[test]
fn controller_switches_without_disconnecting_observers() {
    let mut world = World::new(64 * 1024, false);
    let controller = world.attach(0, "controller-a", CONTROLLER, false).unwrap();
    world.attach(0, "observer", OBSERVER, false).unwrap();
    assert_eq!(
        world.attach(0, "controller-b", CONTROLLER, false).err().unwrap(),
        "terminal already has controller controller-a"
    );
    assert_eq!(
        world.write(Some("observer"), b"not allowed").unwrap_err(),
        "attachment observer is not the terminal controller"
    );
    assert_eq!(
        world.write(None, b"not allowed").unwrap_err(),
        "terminal input requires the active controller attachment"
    );
    assert!(world.resize(None, 90, 25).is_err());
    world.resize(Some("controller-a"), 90, 25).unwrap();
    assert_eq!((world.actor.info.cols, world.actor.info.rows), (90, 25));

    world.output(b"streamed\n");
    for id in ["controller-a", "observer"] {
        let at = world.queue(id);
        assert!(world.queues[at].events.iter().any(|event| matches!(
            event,
            StreamEvent::Output { bytes, .. } if bytes == b"streamed\n"
        )));
    }

    let takeover = world.attach(0, "controller-b", CONTROLLER, true).unwrap();
    assert!(takeover.generation > controller.generation);
    assert!(world.write(Some("controller-a"), b"not allowed").is_err());
    world.input("controller-a", 91, 26, b"reclaimed\n").unwrap();
    assert!(world.write(Some("controller-b"), b"not allowed").is_err());
    world.control("observer", 92, 27).unwrap();
    world.control("controller-b", 93, 28).unwrap();
    let at = world.queue("controller-b");
    world.queues[at].gone = true;
    world.detach("controller-b");
    world.write(Some("observer"), b"fallback\n").unwrap();
    assert_eq!(world.writes, [b"reclaimed\n".to_vec(), b"fallback\n".to_vec()]);
    assert_eq!(world.queues.iter().filter(|queue| queue.id == "observer").count(), 1);
}

#[test]
fn interaction_promotes_then_resizes_then_writes() {
    let mut world = World::new(16, false);
    world.attach(0, "a", CONTROLLER, false).unwrap();
    world.attach(0, "b", OBSERVER, false).unwrap();
    world.input("b", 100, 40, b"x").unwrap();
    let at = world.queue("b");
    assert!(matches!(
        world.queues[at].events.as_slice(),
        [
            StreamEvent::ControllerChanged { attachment_id: Some(id), generation: 2 },
            StreamEvent::Resized { cols: 100, rows: 40, generation: 2, .. },
        ] if id == "b"
    ));
    assert_eq!(world.writes, [b"x".to_vec()]);
    world.input("b", 100, 40, b"y").unwrap();
    assert_eq!(world.queues[at].events.len(), 2);
}

#[test]
fn normal_exit_follows_final_output_and_preserves_exit_code() {
    let mut world = World::new(4096, false);
    let attached = world.attach(0, "exit-observer", OBSERVER, false).unwrap();
    let mut bytes = attached.replay.bytes;
    let mut offset = attached.replay.end_offset;
    world.output(b"\r\nFINAL_OUTPUT_BEFORE_EXIT\r\n");
    world.send(ActorMessage::ChildExited(Ok(Some(23))));
    world.output(b"drained");
    world.send(ActorMessage::ReaderEof);
    let at = world.queue("exit-observer");
    let mut exited = 0;
    for event in std::mem::take(&mut world.queues[at].events) {
        assert_eq!(exited, 0);
        match event {
            StreamEvent::Output { start, end, bytes: output } => {
                assert_eq!(start, offset);
                assert_eq!(end - start, output.len() as u64);
                bytes.extend(output);
                offset = end;
            }
            StreamEvent::Exited { exit_code, final_offset } => {
                assert_eq!(exit_code, Some(23));
                assert_eq!(final_offset, offset);
                exited += 1;
            }
            _ => {}
        }
    }
    assert_eq!(exited, 1);
    let Some(Reply::Replay(Ok(replay))) = world.send(ActorMessage::Replay { offset: 0 }) else {
        panic!("replay");
    };
    assert_eq!(replay.bytes, bytes);
    assert_eq!(
        world.snapshot().info.lifecycle,
        TerminalLifecycle::Exited { exit_code: Some(23) }
    );
    assert_eq!(world.actor.info.output_tail, offset);
}

#[test]
fn a_closed_console_takes_neither_size_nor_input() {
    let mut world = World::new(4096, true);
    world.send(ActorMessage::ChildExited(Ok(Some(259))));
    world.send(ActorMessage::ReaderEof);
    assert_eq!(world.resize(None, 100, 40).unwrap_err(), "terminal child has exited");
    assert_eq!(world.write(None, b"late input").unwrap_err(), "terminal child has exited");
    world.ask(ActorMessage::RefreshForegroundProcess).unwrap();
    assert_eq!(
        world.snapshot().info.lifecycle,
        TerminalLifecycle::Exited { exit_code: Some(259) }
    );
}

#[test]
fn failures_of_workers_are_recorded() {
    let mut world = World::new(16, false);
    world.send(ActorMessage::ReaderFailed("gone".to_string()));
    assert_eq!(
        world.snapshot().info.lifecycle,
        TerminalLifecycle::Failed { message: "gone".to_string() }
    );
    let mut world = World::new(16, false);
    world.send(ActorMessage::ReaderEof);
    world.send(ActorMessage::ChildExited(Err("no child".to_string())));
    assert_eq!(
        world.snapshot().info.lifecycle,
        TerminalLifecycle::Failed { message: "no child".to_string() }
    );
    assert_eq!(world.actor.final_exit, Some((None, 0)));
    let mut world = World::new(16, false);
    world.writer_stopped = true;
    assert_eq!(world.write(None, b"x").unwrap_err(), "terminal writer stopped");
}

#[test]
fn attaching_beyond_the_end_is_refused_but_keeps_control() {
    let mut world = World::new(16, false);
    assert_eq!(
        world.attach(5, "early", CONTROLLER, false).err().unwrap(),
        "requested offset 5 is beyond tail 0"
    );
    assert!(!world.is_attached("early"));
    assert_eq!(world.controller(), Some("early"));
    assert_eq!(world.actor.roster.generation, 1);
}

#[test]
fn rows_come_with_the_metadata() {
    let mut world = World::new(16, false);
    let Some(Reply::Rows(Ok(rows))) = world.send(ActorMessage::ReadRows { rows: Some(2) }) else {
        panic!("rows");
    };
    assert_eq!(rows.lines, ["Some(2)"]);
    assert_eq!((rows.cursor_x, rows.cursor_y), (3, 4));
    assert_eq!(rows.terminal.title, "test");
}

#[test]
fn unexpected_events_come_back() {
    let mut world = World::new(16, false);
    assert!(matches!(world.actor.step(Event::Title(None)), Err(Event::Title(None))));
    assert!(matches!(world.actor.step(Event::Disconnected), Ok(Action::Stop(Ok(())))));
    assert!(matches!(world.actor.step(Event::Disconnected), Err(Event::Disconnected)));
}
