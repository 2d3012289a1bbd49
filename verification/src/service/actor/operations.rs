//! What a terminal makes of each thing that happens to it.
use super::{
    Action, ActionView, ActorView, EventView, MessageView, ReplyView, StageView, ThenView,
};
use crate::protocol::AttachmentRole;
use crate::service::model::{InfoView, LifecycleView, StreamEventView};
use crate::service::roster::{RosterView, Seat};
use vstd::prelude::*;

verus! {

/// What went wrong outside, if anything did: what the emulator had to say comes before whether it
/// could be resized.
pub open spec fn fault(event: EventView) -> Option<Seq<char>> {
    match event {
        EventView::Done(Err(e)) => Some(e),
        EventView::Resized { forwarded: Err(e), resized } => Some(e),
        EventView::Resized { forwarded: Ok(_), resized: Err(e) } => Some(e),
        EventView::Checkpoint(Err(e)) => Some(e),
        _ => None,
    }
}

/// `g` comes after `generation`, unless there is nothing after it.
pub open spec fn is_next(generation: u64, g: u64) -> bool {
    g == generation + 1 || (generation == u64::MAX && g == u64::MAX)
}

/// The stage in which the outcome of an action is waited for.
spec fn stage_fits(stage: StageView, action: ActionView) -> bool {
    match action {
        ActionView::Receive => stage is Ready,
        ActionView::QueryForeground => stage is Querying,
        ActionView::Feed(_) => stage is Feeding,
        ActionView::Broadcast(_) => stage is Telling,
        ActionView::TakeTitle => stage is Titling,
        ActionView::ResizePty { .. } => stage is SizingPty,
        ActionView::ResizeTerminal { .. } => stage is SizingTerminal,
        ActionView::Checkpoint => stage is Checkpointing,
        ActionView::QueueWrite(_) => stage is Writing,
        ActionView::Picture => stage is Picturing,
        ActionView::ReadRows(_) => stage is ReadingRows,
        ActionView::OpenQueue(_) => stage is Opening,
        ActionView::Send(_) => stage is Sending,
        ActionView::QueryGone => stage is Detaching,
        ActionView::CloseMaster => stage is Closing,
        ActionView::Reply(_) => stage is Replying,
        ActionView::Stop(_) => stage is Stopped,
    }
}

#[verifier::spinoff_prover]
proof fn lemma_stage_fits(
    before: ActorView,
    event: EventView,
    after: ActorView,
    action: ActionView,
)
    requires
        before.steps(event, after, action),
    ensures
        stage_fits(after.stage, action),
{
}

/// The kind of event that is the outcome of an action.
pub open spec fn is_outcome(action: ActionView, event: EventView) -> bool {
    match action {
        ActionView::Receive => event is Message || event is Disconnected,
        ActionView::QueryForeground => event is Foreground,
        ActionView::Broadcast(_) => event is Delivered,
        ActionView::TakeTitle => event is Title,
        ActionView::ResizeTerminal { .. } => event is Resized,
        ActionView::Checkpoint => event is Checkpoint,
        ActionView::Picture => event is Screen,
        ActionView::ReadRows(_) => event is Rows,
        ActionView::QueryGone => event is Gone,
        ActionView::Stop(_) => false,
        _ => event is Done,
    }
}

proof fn lemma_outcome_is_expected(after: ActorView, action: ActionView, event: EventView)
    requires
        stage_fits(after.stage, action),
    ensures
        after.expects(event) <==> is_outcome(action, event),
{
}

/// After every step the actor waits for the outcome of what it asked for, whatever that is, and
/// for nothing else. After it has stopped it waits for nothing.
pub proof fn law_every_action_has_its_event(
    before: ActorView,
    event: EventView,
    after: ActorView,
    action: ActionView,
    next: EventView,
)
    requires
        before.steps(event, after, action),
    ensures
        after.expects(next) <==> is_outcome(action, next),
{
    lemma_stage_fits(before, event, after, action);
    lemma_outcome_is_expected(after, action, next);
}

/// A broadcast is offered to every attachment, to each once and to nobody else, and only one that
/// has the role of the controller is waited for.
pub proof fn law_broadcast_reaches_everybody(action: Action, roster: RosterView, id: Seq<char>)
    requires
        action.goes_to(roster),
        action is Broadcast,
    ensures
        action matches Action::Broadcast { event, recipients } && {
            &&& roster.seats.contains_key(id) ==> exists|i: int|
                0 <= i < recipients@.len() && (#[trigger] recipients@[i]).attachment_id@ == id
                    && recipients@[i].wait == (roster.seats[id].role == AttachmentRole::Controller)
            &&& forall|i: int|
                0 <= i < recipients@.len() ==> roster.seats.contains_key(
                    (#[trigger] recipients@[i]).attachment_id@,
                )
            &&& forall|i: int, j: int|
                0 <= i < j < recipients@.len() ==> (#[trigger] recipients@[i]).attachment_id@ != (
                #[trigger] recipients@[j]).attachment_id@
        },
{
}

/// When the outside fails in the course of a command, the command is answered with that failure and
/// goes no further. When it fails while the emulator is fed or the console is closed, the terminal
/// stops with that failure.
pub proof fn law_faults_are_answered(
    before: ActorView,
    event: EventView,
    after: ActorView,
    action: ActionView,
    words: Seq<char>,
)
    requires
        before.steps(event, after, action),
        fault(event) == Some(words),
        !(before.stage is Opening || before.stage is Sending || before.stage is Replying),
    ensures
        before.stage is Feeding || before.stage is Closing ==> {
            &&& action == ActionView::Stop(Err(words))
            &&& after == (ActorView { stage: StageView::Stopped, ..before })
        },
        !(before.stage is Feeding || before.stage is Closing) ==> {
            &&& action == ActionView::Reply(ReplyView::Done(Err(words)))
            &&& after == (ActorView { stage: StageView::Replying, ..before })
        },
{
}

/// A command is refused only for a reason: the outside failed, somebody else is in control, nobody
/// of that name is attached, or the console is closed.
#[verifier::spinoff_prover]
pub proof fn law_refusals_have_a_cause(
    before: ActorView,
    event: EventView,
    after: ActorView,
    words: Seq<char>,
)
    requires
        before.steps(event, after, ActionView::Reply(ReplyView::Done(Err(words)))),
    ensures
        ({
            ||| fault(event) == Some(words)
            ||| !before.master_open && words == "terminal child has exited"@
            ||| match event {
                EventView::Message(MessageView::Write { attachment_id: None, .. }) => {
                    &&& before.roster.controller is Some
                    &&& words == "terminal input requires the active controller attachment"@
                },
                EventView::Message(MessageView::Resize { attachment_id: None, .. }) => {
                    &&& before.roster.controller is Some
                    &&& words == "terminal input requires the active controller attachment"@
                },
                EventView::Message(MessageView::Write { attachment_id: Some(id), .. }) => {
                    &&& before.roster.controller != Some(id)
                    &&& words == "attachment "@ + id + " is not the terminal controller"@
                },
                EventView::Message(MessageView::Resize { attachment_id: Some(id), .. }) => {
                    &&& before.roster.controller != Some(id)
                    &&& words == "attachment "@ + id + " is not the terminal controller"@
                },
                EventView::Message(MessageView::Control { attachment_id, .. }) => {
                    &&& !before.roster.seats.contains_key(attachment_id)
                    &&& words == "attachment "@ + attachment_id + " is not subscribed"@
                },
                _ => false,
            }
        }),
{
}

/// Input, a size and an interaction that nothing speaks against are begun at once; one that is not
/// entitled is refused and changes nothing.
#[verifier::spinoff_prover]
pub proof fn law_commands_are_begun(
    before: ActorView,
    message: MessageView,
    after: ActorView,
    action: ActionView,
)
    requires
        before.steps(EventView::Message(message), after, action),
        before.master_open,
    ensures
        match message {
            MessageView::Write { attachment_id, bytes } => if attachment_id
                == before.roster.controller {
                action == ActionView::QueueWrite(bytes)
            } else {
                action is Reply
            },
            MessageView::Resize { attachment_id, cols, rows } => if attachment_id
                == before.roster.controller {
                action == (ActionView::ResizePty { cols, rows })
            } else {
                action is Reply
            },
            MessageView::Control { attachment_id, cols, rows, bytes } => {
                if !before.roster.seats.contains_key(attachment_id) {
                    action is Reply
                } else if before.roster.controller != Some(attachment_id) {
                    action == ActionView::Broadcast(
                        StreamEventView::ControllerChanged {
                            attachment_id: Some(attachment_id),
                            generation: after.roster.generation,
                        },
                    )
                } else if before.info.cols != cols || before.info.rows != rows {
                    action == (ActionView::ResizePty { cols, rows })
                } else {
                    match bytes {
                        Some(input) => action == ActionView::QueueWrite(input),
                        None => action == ActionView::Reply(ReplyView::Done(Ok(()))),
                    }
                }
            },
            _ => true,
        },
        message is Write || message is Resize ==> after == (ActorView {
            stage: after.stage,
            ..before
        }),
        message is Control ==> after == (ActorView {
            stage: after.stage,
            roster: after.roster,
            ..before
        }),
        message matches MessageView::Control { attachment_id, .. } ==> {
            let changes = before.roster.seats.contains_key(attachment_id)
                && before.roster.controller != Some(attachment_id);
            if changes {
                &&& after.roster.controller == Some(attachment_id)
                &&& is_next(before.roster.generation, after.roster.generation)
                &&& after.roster.seats[attachment_id] == (Seat {
                    role: AttachmentRole::Controller,
                    last_control: after.roster.generation,
                })
            } else {
                after.roster == before.roster
            }
        },
{
}

/// A message for the size, input or control of a terminal whose console is closed is refused where
/// it would need the console.
pub proof fn law_closed_console_refuses(
    before: ActorView,
    attachment_id: Option<Seq<char>>,
    cols: u16,
    rows: u16,
    bytes: Seq<u8>,
    after: ActorView,
    action: ActionView,
    later: ActorView,
    next: ActionView,
)
    requires
        !before.master_open,
        attachment_id == before.roster.controller,
        before.steps(
            EventView::Message(MessageView::Resize { attachment_id, cols, rows }),
            after,
            action,
        ),
        before.steps(
            EventView::Message(MessageView::Write { attachment_id, bytes }),
            later,
            next,
        ),
    ensures
        action == ActionView::Reply(ReplyView::Done(Err("terminal child has exited"@))),
        before.conpty ==> next == ActionView::Reply(
            ReplyView::Done(Err("terminal child has exited"@)),
        ),
        !before.conpty ==> next == ActionView::QueueWrite(bytes),
{
}

/// Somebody who attaches takes a seat in the asked role, in place of an earlier one of that name.
/// A controller has control from then on, in a later generation unless it had control before, and
/// whoever had it becomes an observer; an observer changes nothing else. Everybody else stays.
pub proof fn law_attachment_takes_a_seat(
    before: ActorView,
    offset: u64,
    id: Seq<char>,
    role: AttachmentRole,
    takeover: bool,
    after: ActorView,
    action: ActionView,
    other: Seq<char>,
)
    requires
        before.steps(
            EventView::Message(MessageView::Attach { offset, attachment_id: id, role, takeover }),
            after,
            action,
        ),
        action is OpenQueue,
    ensures
        action == ActionView::OpenQueue(id),
        after.roster.seats.contains_key(id),
        after.roster.seats[id].role == role,
        after.roster.seats[id].last_control == if role == AttachmentRole::Controller {
            after.roster.generation
        } else {
            0
        },
        role == AttachmentRole::Observer ==> after.roster.controller == before.roster.controller
            && after.roster.generation == before.roster.generation,
        role == AttachmentRole::Controller ==> {
            &&& after.roster.controller == Some(id)
            &&& before.roster.controller == Some(id) ==> after.roster.generation
                == before.roster.generation
            &&& before.roster.controller != Some(id) ==> is_next(
                before.roster.generation,
                after.roster.generation,
            )
        },
        other != id ==> {
            &&& after.roster.seats.contains_key(other) <==> before.roster.seats.contains_key(other)
            &&& before.roster.seats.contains_key(other) ==> {
                &&& after.roster.seats[other].last_control
                    == before.roster.seats[other].last_control
                &&& after.roster.seats[other].role == if role == AttachmentRole::Controller
                    && before.roster.controller == Some(other) {
                    AttachmentRole::Observer
                } else {
                    before.roster.seats[other].role
                }
            }
        },
        after == (ActorView { stage: after.stage, roster: after.roster, ..before }),
{
}

/// The answer to somebody who attached names the generation of control at that time, and whoever
/// attached as the controller has everybody told so before.
#[verifier::spinoff_prover]
pub proof fn law_attachment_is_told_its_generation(
    before: ActorView,
    event: EventView,
    after: ActorView,
    action: ActionView,
)
    requires
        before.steps(event, after, action),
    ensures
        action matches ActionView::Reply(ReplyView::Attached(Ok((generation, replay))))
            ==> generation == after.roster.generation,
        before.stage matches StageView::Opening { role: AttachmentRole::Controller, replay }
            ==> action == ActionView::Broadcast(
            StreamEventView::ControllerChanged {
                attachment_id: before.roster.controller,
                generation: before.roster.generation,
            },
        ),
{
}

/// A change of control that is told is the one that took place.
#[verifier::spinoff_prover]
pub proof fn law_told_control_is_true(
    before: ActorView,
    event: EventView,
    after: ActorView,
    action: ActionView,
)
    requires
        before.steps(event, after, action),
    ensures
        action matches ActionView::Broadcast(
            StreamEventView::ControllerChanged { attachment_id, generation },
        ) ==> attachment_id == after.roster.controller && generation == after.roster.generation,
        after.roster.controller != before.roster.controller ==> action matches
            ActionView::Broadcast(StreamEventView::ControllerChanged { .. }) || event matches
            EventView::Message(MessageView::Attach { .. }),
        action matches ActionView::Broadcast(
            StreamEventView::Resized { cols, rows, generation, checkpoint },
        ) ==> generation == after.roster.generation,
{
}

/// Control is with `to`, or with nobody, after it was lost: the attachments that failed or are gone
/// have left, the others keep their seats, and control went to one of them that nobody gained it
/// later than.
pub open spec fn control_passed(
    before: RosterView,
    left: Set<Seq<char>>,
    gone: Set<Seq<char>>,
    after: RosterView,
) -> bool {
    &&& is_next(before.generation, after.generation)
    &&& forall|id: Seq<char>| #[trigger]
        after.seats.contains_key(id) <==> before.seats.contains_key(id) && !left.contains(id)
            && !gone.contains(id)
    &&& match after.controller {
        None => forall|id: Seq<char>| !(#[trigger] after.seats.contains_key(id)),
        Some(to) => {
            &&& after.seats.contains_key(to)
            &&& after.seats[to].role == AttachmentRole::Controller
            &&& after.seats[to].last_control == after.generation
            &&& forall|id: Seq<char>| #[trigger]
                after.seats.contains_key(id) ==> before.seats[id].last_control
                    <= before.seats[to].last_control
            &&& forall|id: Seq<char>| #[trigger]
                after.seats.contains_key(id) && id != to ==> after.seats[id] == before.seats[id]
        },
    }
}

/// Only those have left who failed; the others keep their seats, and control stays.
pub open spec fn only_left(before: RosterView, left: Set<Seq<char>>, after: RosterView) -> bool {
    &&& after.generation == before.generation
    &&& after.controller == before.controller
    &&& forall|id: Seq<char>| #[trigger]
        after.seats.contains_key(id) <==> before.seats.contains_key(id) && !left.contains(id)
    &&& forall|id: Seq<char>| #[trigger]
        after.seats.contains_key(id) ==> after.seats[id] == before.seats[id]
}

/// Whoever did not take an event leaves. If that is whoever was in control, control passes, which
/// is told before anything else happens; else the actor goes on with what it was about. While the
/// terminal stops nobody leaves.
#[verifier::spinoff_prover]
pub proof fn law_delivery_is_settled(
    before: ActorView,
    failed: Set<Seq<char>>,
    gone: Set<Seq<char>>,
    stopping: bool,
    after: ActorView,
    action: ActionView,
)
    requires
        before.steps(EventView::Delivered { failed, gone, stopping }, after, action),
    ensures
        stopping ==> after.roster == before.roster,
        !stopping && before.roster.controller is Some && failed.contains(
            before.roster.controller->0,
        ) ==> {
            &&& control_passed(before.roster, failed, gone, after.roster)
            &&& action == ActionView::Broadcast(
                StreamEventView::ControllerChanged {
                    attachment_id: after.roster.controller,
                    generation: after.roster.generation,
                },
            )
            &&& after == (ActorView { roster: after.roster, ..before })
        },
        !stopping && !(before.roster.controller is Some && failed.contains(
            before.roster.controller->0,
        )) ==> only_left(before.roster, failed, after.roster),
        before.stage == StageView::Telling(ThenView::Title) && (stopping
            || before.roster.controller is None || !failed.contains(before.roster.controller->0))
            ==> action == ActionView::TakeTitle,
{
}

/// A detachment takes exactly the attachment of that name away, if its guard is gone. If it was in
/// control, control passes, which everybody is told.
#[verifier::spinoff_prover]
pub proof fn law_detachment_is_settled(
    before: ActorView,
    id: Seq<char>,
    asking: ActorView,
    ask: ActionView,
    gone: Set<Seq<char>>,
    after: ActorView,
    action: ActionView,
)
    requires
        before.steps(EventView::Message(MessageView::Detach { attachment_id: id }), asking, ask),
        asking.steps(EventView::Gone(gone), after, action),
    ensures
        ask == ActionView::QueryGone,
        asking == (ActorView { stage: asking.stage, ..before }),
        !(before.roster.seats.contains_key(id) && gone.contains(id)) ==> after.roster
            == before.roster,
        before.roster.seats.contains_key(id) && gone.contains(id) ==> {
            if before.roster.controller == Some(id) {
                &&& control_passed(before.roster, set![id], gone, after.roster)
                &&& action == ActionView::Broadcast(
                    StreamEventView::ControllerChanged {
                        attachment_id: after.roster.controller,
                        generation: after.roster.generation,
                    },
                )
            } else {
                only_left(before.roster, set![id], after.roster)
            }
        },
{
}

/// After output, the emulator is asked for a title. One that differs from the known title becomes
/// it, and everybody is told; otherwise nothing is.
pub proof fn law_title_is_published(
    before: ActorView,
    title: Option<Seq<char>>,
    after: ActorView,
    action: ActionView,
)
    requires
        before.steps(EventView::Title(title), after, action),
    ensures
        match title {
            Some(text) => {
                &&& after.info.title == text
                &&& text != before.info.title ==> action == ActionView::Broadcast(
                    StreamEventView::TitleChanged { title: text },
                ) && after.info == (InfoView { title: text, ..before.info })
                &&& text == before.info.title ==> !(action matches ActionView::Broadcast(
                    StreamEventView::TitleChanged { .. },
                ))
            },
            None => after.info.title == before.info.title && !(action matches ActionView::Broadcast(
                StreamEventView::TitleChanged { .. },
            )),
        },
{
}

/// Asked to look again, the actor finds out which process is in the foreground, tells everybody if
/// it is another, and answers.
pub proof fn law_foreground_is_published(
    before: ActorView,
    asking: ActorView,
    ask: ActionView,
    process: Option<Seq<char>>,
    after: ActorView,
    action: ActionView,
    gone: Set<Seq<char>>,
    last: ActorView,
    answer: ActionView,
)
    requires
        before.steps(EventView::Message(MessageView::RefreshForegroundProcess), asking, ask),
        before.master_open,
        asking.steps(EventView::Foreground(process), after, action),
    ensures
        ask == ActionView::QueryForeground,
        after == (ActorView {
            info: InfoView { foreground_process: process, ..before.info },
            stage: after.stage,
            ..before
        }),
        process == before.info.foreground_process ==> action == ActionView::Reply(
            ReplyView::Done(Ok(())),
        ),
        process != before.info.foreground_process ==> {
            &&& action == ActionView::Broadcast(
                StreamEventView::ForegroundProcessChanged { process },
            )
            &&& after.steps(
                EventView::Delivered { failed: Set::empty(), gone, stopping: false },
                last,
                answer,
            ) ==> answer == ActionView::Reply(ReplyView::Done(Ok(())))
        },
{
}

/// Without a console there is nothing to find out.
pub proof fn law_foreground_needs_a_console(before: ActorView, after: ActorView, action: ActionView)
    requires
        before.steps(EventView::Message(MessageView::RefreshForegroundProcess), after, action),
        !before.master_open,
    ensures
        action == ActionView::Reply(ReplyView::Done(Ok(()))),
        after == (ActorView { stage: after.stage, ..before }),
{
}

/// The end that is published is that of the child: its exit code, or that it could not be waited
/// for, in which case the words why are kept.
#[verifier::spinoff_prover]
pub proof fn law_end_is_that_of_the_child(
    before: ActorView,
    event: EventView,
    after: ActorView,
    action: ActionView,
    exit_code: Option<u32>,
    final_offset: u64,
)
    requires
        before.steps(event, after, action),
        action == ActionView::Broadcast(StreamEventView::Exited { exit_code, final_offset }),
    ensures
        ({
            let end = match event {
                EventView::Message(MessageView::ChildExited(result)) => Some(result),
                _ => before.child_exit,
            };
            &&& end matches Some(Ok(code)) ==> exit_code == code && after.info.lifecycle == (
            LifecycleView::Exited { exit_code: code })
            &&& end matches Some(Err(message)) ==> exit_code is None && after.info.lifecycle == (
            LifecycleView::Failed { message })
            &&& end is Some
        }),
        after.final_exit == Some((exit_code, final_offset)),
        final_offset == before.replay.tail,
{
}

/// Once a message is dealt with and both the end of the child and the end of its output are known,
/// the end is published without waiting for anything else. What was known of either is kept until
/// then.
#[verifier::spinoff_prover]
pub proof fn law_end_is_published_in_time(
    before: ActorView,
    event: EventView,
    after: ActorView,
    action: ActionView,
)
    requires
        before.steps(event, after, action),
    ensures
        action is Receive ==> !(after.reader_eof && after.child_exit is Some && after.final_exit
            is None),
        event == EventView::Message(MessageView::ReaderEof) ==> after.reader_eof,
        event matches EventView::Message(MessageView::ChildExited(result)) ==> after.child_exit
            == Some(result) || after.final_exit is Some,
        before.child_exit is Some && after.child_exit is None ==> after.final_exit is Some
            && before.final_exit is None,
        after.child_exit is Some && after.child_exit != before.child_exit ==> event matches
            EventView::Message(MessageView::ChildExited(_)),
{
}

/// A worker that fails makes a running terminal a failed one, with the words of the failure. A
/// terminal whose end has been published stays as it is.
pub proof fn law_failures_are_recorded(
    before: ActorView,
    message: Seq<char>,
    writer: bool,
    after: ActorView,
    action: ActionView,
)
    requires
        before.steps(
            EventView::Message(
                if writer {
                    MessageView::WriterFailed(message)
                } else {
                    MessageView::ReaderFailed(message)
                },
            ),
            after,
            action,
        ),
    ensures
        before.final_exit is Some ==> after == before && action is Receive,
        before.final_exit is None && after.final_exit is None ==> after.info == (InfoView {
            lifecycle: LifecycleView::Failed { message },
            ..before.info
        }),
{
}

/// A console that keeps its output open is closed once its child has ended, and only then; it is
/// closed from then on. If it cannot be, the terminal stops and keeps it.
pub proof fn law_console_is_closed_behind_the_child(
    before: ActorView,
    result: Result<Option<u32>, Seq<char>>,
    closing: ActorView,
    close: ActionView,
    closed: Result<(), Seq<char>>,
    after: ActorView,
    action: ActionView,
)
    requires
        before.steps(EventView::Message(MessageView::ChildExited(result)), closing, close),
    ensures
        close is CloseMaster <==> before.conpty && before.master_open,
        closing.master_open == before.master_open,
        close is CloseMaster && closing.steps(EventView::Done(closed), after, action) ==> {
            &&& closed is Ok ==> !after.master_open && !(action is Stop)
            &&& closed matches Err(words) ==> after.master_open && action == ActionView::Stop(
                Err(words),
            )
        },
{
}

/// When there will be no further message, the terminal stops without a failure.
pub proof fn law_disconnection_stops(before: ActorView, after: ActorView, action: ActionView)
    requires
        before.steps(EventView::Disconnected, after, action),
    ensures
        action == ActionView::Stop(Ok(())),
        after == (ActorView { stage: StageView::Stopped, ..before }),
{
}

/// Output is fed to the emulator as it is, everybody is told of it with its offsets, and what is
/// known of the terminal says how far the output goes.
pub proof fn law_output_is_fed_and_told(
    before: ActorView,
    bytes: Seq<u8>,
    fed: ActorView,
    feed: ActionView,
    after: ActorView,
    action: ActionView,
)
    requires
        before.replay.valid(),
        before.replay.tail + bytes.len() <= u64::MAX,
        before.steps(EventView::Message(MessageView::Output(bytes)), fed, feed),
        fed.steps(EventView::Done(Ok(())), after, action),
    ensures
        feed == ActionView::Feed(bytes),
        action matches ActionView::Broadcast(StreamEventView::Output { start, end, bytes: b }) && {
            &&& start == before.replay.tail
            &&& end == start + bytes.len()
            &&& b == bytes
            &&& after.info == (InfoView {
                output_head: after.replay.head,
                output_tail: end,
                ..before.info
            })
            &&& after.replay.tail == end
        },
        after.replay.capacity == before.replay.capacity,
        after.roster == before.roster,
        after.stage == StageView::Telling(ThenView::Title),
{
}

/// An attachment that interacts without being in control gains it: it has the role of the
/// controller in a later generation, whoever had control becomes an observer and keeps its place,
/// and nobody else is touched.
pub proof fn law_interaction_takes_control(
    before: ActorView,
    id: Seq<char>,
    cols: u16,
    rows: u16,
    bytes: Option<Seq<u8>>,
    after: ActorView,
    action: ActionView,
    other: Seq<char>,
)
    requires
        before.steps(
            EventView::Message(MessageView::Control { attachment_id: id, cols, rows, bytes }),
            after,
            action,
        ),
        before.roster.seats.contains_key(id),
        before.roster.controller != Some(id),
        other != id,
    ensures
        after.roster.seats.contains_key(id),
        after.roster.seats.contains_key(other) <==> before.roster.seats.contains_key(other),
        before.roster.seats.contains_key(other) ==> {
            &&& after.roster.seats[other].last_control == before.roster.seats[other].last_control
            &&& after.roster.seats[other].role == if before.roster.controller == Some(other) {
                AttachmentRole::Observer
            } else {
                before.roster.seats[other].role
            }
        },
{
}

/// Each thing that is known of a terminal has changed only by what tells of it.
pub open spec fn changed_by(before: ActorView, event: EventView, after: ActorView) -> bool {
    &&& event is Title || after.info.title == before.info.title
    &&& event is Foreground || after.info.foreground_process == before.info.foreground_process
    &&& event is Resized || (after.info.cols == before.info.cols && after.info.rows
        == before.info.rows)
    &&& event is Done && before.stage is Feeding || (after.info.output_head
        == before.info.output_head && after.info.output_tail == before.info.output_tail)
    &&& event is Done && before.stage is Closing || after.master_open == before.master_open
    &&& event is Delivered || event is Gone || event is Message || after.roster == before.roster
    &&& event == EventView::Message(MessageView::ReaderEof) || after.reader_eof
        == before.reader_eof
    &&& after.conpty == before.conpty
    &&& event is Done && before.stage is Feeding || after.replay == before.replay || (event matches
        EventView::Message(MessageView::Output(_)))
}

#[verifier::spinoff_prover]
proof fn lemma_messages_change_little(
    before: ActorView,
    message: MessageView,
    after: ActorView,
    action: ActionView,
)
    requires
        before.steps(EventView::Message(message), after, action),
    ensures
        changed_by(before, EventView::Message(message), after),
        !(message is Attach) && !(message is Control) ==> after.roster == before.roster,
{
}

#[verifier::spinoff_prover]
proof fn lemma_deeds_change_little(
    before: ActorView,
    result: Result<(), Seq<char>>,
    after: ActorView,
    action: ActionView,
)
    requires
        before.steps(EventView::Done(result), after, action),
    ensures
        changed_by(before, EventView::Done(result), after),
{
}

#[verifier::spinoff_prover]
proof fn lemma_deliveries_change_little(
    before: ActorView,
    event: EventView,
    after: ActorView,
    action: ActionView,
)
    requires
        before.steps(event, after, action),
        event is Delivered || event is Gone,
    ensures
        changed_by(before, event, after),
{
}

#[verifier::spinoff_prover]
proof fn lemma_outcomes_change_little(
    before: ActorView,
    event: EventView,
    after: ActorView,
    action: ActionView,
)
    requires
        before.steps(event, after, action),
        !(event is Message) && !(event is Done) && !(event is Delivered) && !(event is Gone),
    ensures
        changed_by(before, event, after),
{
}

/// Each thing that is known of a terminal changes only by what tells of it: the title by a title,
/// the process in the foreground by looking for it, the size by resizing the emulator, the extent of
/// the output once it was fed, and who is attached by those who attach, interact or leave.
pub proof fn law_everything_else_stays(
    before: ActorView,
    event: EventView,
    after: ActorView,
    action: ActionView,
)
    requires
        before.steps(event, after, action),
    ensures
        changed_by(before, event, after),
        event matches EventView::Message(message) ==> message is Attach || message is Control
            || after.roster == before.roster,
{
    match event {
        EventView::Message(message) => {
            lemma_messages_change_little(before, message, after, action);
        },
        EventView::Done(result) => {
            lemma_deeds_change_little(before, result, after, action);
        },
        EventView::Delivered { .. } | EventView::Gone(_) => {
            lemma_deliveries_change_little(before, event, after, action);
        },
        _ => {
            lemma_outcomes_change_little(before, event, after, action);
        },
    }
}

/// A message that has been dealt with, and one that only notes something, is followed by the next
/// message, or by the end of the terminal if that is due. Nothing else changes.
#[verifier::spinoff_prover]
pub proof fn law_next_message_is_waited_for(
    before: ActorView,
    event: EventView,
    after: ActorView,
    action: ActionView,
)
    requires
        before.steps(event, after, action),
        ({
            ||| before.stage is Replying
            ||| event == EventView::Title(None)
            ||| event == EventView::Message(MessageView::ReaderEof)
            ||| before.stage == StageView::Telling(ThenView::Next) && (event matches
                EventView::Delivered { stopping: true, .. })
            ||| !before.conpty && (event matches EventView::Message(MessageView::ChildExited(_)))
        }),
    ensures
        ({
            let eof = before.reader_eof || event == EventView::Message(MessageView::ReaderEof);
            let exit = match event {
                EventView::Message(MessageView::ChildExited(result)) => Some(result),
                _ => before.child_exit,
            };
            if eof && exit is Some && before.final_exit is None {
                action matches ActionView::Broadcast(StreamEventView::Exited { .. })
            } else {
                &&& action is Receive
                &&& after == (ActorView {
                    stage: StageView::Ready,
                    reader_eof: eof,
                    child_exit: exit,
                    ..before
                })
            }
        }),
{
}

/// An attachment that is refused takes no seat. Where somebody else is in control it changes nothing
/// at all; from an offset behind the end, control is kept for whoever asked for it.
pub proof fn law_refused_attachment_takes_no_seat(
    before: ActorView,
    offset: u64,
    id: Seq<char>,
    role: AttachmentRole,
    takeover: bool,
    after: ActorView,
    action: ActionView,
    other: Seq<char>,
)
    requires
        before.steps(
            EventView::Message(MessageView::Attach { offset, attachment_id: id, role, takeover }),
            after,
            action,
        ),
        action is Reply,
    ensures
        after.roster.seats.contains_key(other) <==> before.roster.seats.contains_key(other),
        after == (ActorView { stage: StageView::Replying, roster: after.roster, ..before }),
        role == AttachmentRole::Observer || (before.roster.controller is Some
            && before.roster.controller != Some(id) && !takeover) ==> after.roster == before.roster,
        role == AttachmentRole::Controller && (before.roster.controller is None || takeover
            || before.roster.controller == Some(id)) ==> after.roster.controller == Some(id),
{
}

/// Everybody is told of a thing only when it happens: of output once it was fed, of a size once the
/// emulator gave a checkpoint, of a title and of a process in the foreground when it is another, of
/// control when it changes hands or somebody attaches with it, and of the end when it has not been
/// told.
#[verifier::spinoff_prover]
pub proof fn law_broadcasts_have_a_cause(
    before: ActorView,
    event: EventView,
    after: ActorView,
    told: StreamEventView,
)
    requires
        before.steps(event, after, ActionView::Broadcast(told)),
    ensures
        match told {
            StreamEventView::Output { start, end, bytes } => (event matches EventView::Done(Ok(_)))
                && before.stage == (StageView::Feeding { start, end, bytes }),
            StreamEventView::Resized { cols, rows, generation, checkpoint } => event
                == EventView::Checkpoint(Ok(checkpoint)),
            StreamEventView::Exited { .. } => before.final_exit is None,
            StreamEventView::ControllerChanged { .. } => after.roster != before.roster
                || before.stage matches StageView::Opening { role: AttachmentRole::Controller, .. },
            StreamEventView::TitleChanged { title } => event == EventView::Title(Some(title))
                && title != before.info.title,
            StreamEventView::ForegroundProcessChanged { process } => event == EventView::Foreground(
                process,
            ) && process != before.info.foreground_process,
        },
{
}

/// The end of a terminal is noted when it is published, and what becomes of a terminal changes only
/// then or when a worker fails.
#[verifier::spinoff_prover]
pub proof fn law_end_is_noted_when_published(
    before: ActorView,
    event: EventView,
    after: ActorView,
    action: ActionView,
)
    requires
        before.steps(event, after, action),
    ensures
        after.final_exit == before.final_exit || (action matches ActionView::Broadcast(
            StreamEventView::Exited { .. },
        )),
        after.info.lifecycle == before.info.lifecycle || (action matches ActionView::Broadcast(
            StreamEventView::Exited { .. },
        )) || (event matches EventView::Message(MessageView::ReaderFailed(_))) || (event matches
            EventView::Message(MessageView::WriterFailed(_))),
{
}

/// Input, a size and an interaction of somebody who is not entitled are refused for that, whatever
/// else could be said against them.
pub proof fn law_entitlement_comes_first(
    before: ActorView,
    message: MessageView,
    after: ActorView,
    action: ActionView,
)
    requires
        before.steps(EventView::Message(message), after, action),
        match message {
            MessageView::Write { attachment_id, .. } => attachment_id != before.roster.controller,
            MessageView::Resize { attachment_id, .. } => attachment_id != before.roster.controller,
            MessageView::Control { attachment_id, .. } => !before.roster.seats.contains_key(
                attachment_id,
            ),
            _ => false,
        },
    ensures
        after == (ActorView { stage: StageView::Replying, ..before }),
        action matches ActionView::Reply(ReplyView::Done(Err(words))) && words == match message {
            MessageView::Write { attachment_id: Some(id), .. } => "attachment "@ + id
                + " is not the terminal controller"@,
            MessageView::Resize { attachment_id: Some(id), .. } => "attachment "@ + id
                + " is not the terminal controller"@,
            MessageView::Control { attachment_id, .. } => "attachment "@ + attachment_id
                + " is not subscribed"@,
            _ => "terminal input requires the active controller attachment"@,
        },
{
}

/// A detachment that leaves control where it is needs nothing told: the next message is waited for,
/// or the end of the terminal is published if that is due.
#[verifier::spinoff_prover]
pub proof fn law_quiet_detachment_is_not_told(
    before: ActorView,
    gone: Set<Seq<char>>,
    after: ActorView,
    action: ActionView,
)
    requires
        before.steps(EventView::Gone(gone), after, action),
        after.roster.controller == before.roster.controller,
        after.roster.generation == before.roster.generation,
        before.roster.generation < u64::MAX,
    ensures
        action is Receive || (action matches ActionView::Broadcast(
            StreamEventView::Exited { .. },
        )),
        after.replay == before.replay,
        action is Receive ==> after == (ActorView {
            stage: StageView::Ready,
            roster: after.roster,
            ..before
        }),
{
}

} // verus!
