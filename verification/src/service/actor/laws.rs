//! What holds of a terminal whatever happens.
use super::{
    unauthorized, ActionView, ActorView, EventView, MessageView, ReplyView, StageView, ThenView,
};
use crate::protocol::AttachmentRole;
use crate::service::model::{InfoView, RawReplayView, StreamEventView};
use crate::service::replay::{law_replay_stays_valid, saturating_end};
use crate::service::roster::law_roster_stays_valid;
use vstd::prelude::*;

verus! {

/// What holds of an actor at all times still holds after a step.
#[verifier::spinoff_prover]
pub proof fn law_actor_stays_valid(
    before: ActorView,
    event: EventView,
    after: ActorView,
    action: ActionView,
)
    requires
        before.valid(),
        before.steps(event, after, action),
    ensures
        after.valid(),
{
    law_roster_stays_valid(before.roster);
    match event {
        EventView::Message(MessageView::Output(bytes)) => {
            law_replay_stays_valid(before.replay, bytes);
        },
        EventView::Message(MessageView::Attach { attachment_id, .. }) => {
            law_roster_stays_valid(before.roster.reserved(attachment_id));
        },
        _ => {},
    }
}

/// The final event of a terminal is published at most once and never changes, the count of
/// changes of control and the end of the output never go back, a closed pseudoterminal stays
/// closed, and a terminal keeps its identity. Output that was dropped stays dropped, until there
/// has been more of it than can be counted.
pub open spec fn evolves(before: ActorView, after: ActorView) -> bool {
    &&& before.final_exit is Some ==> {
        &&& after.final_exit == before.final_exit
        &&& after.info.lifecycle == before.info.lifecycle
    }
    &&& before.reader_eof ==> after.reader_eof
    &&& before.roster.generation <= after.roster.generation
    &&& before.replay.tail <= after.replay.tail
    &&& after.replay.tail < u64::MAX ==> before.replay.head <= after.replay.head
    &&& before.replay.capacity == after.replay.capacity
    &&& !before.master_open ==> !after.master_open
    &&& before.conpty == after.conpty
    &&& before.info.id == after.info.id
    &&& before.info.pid == after.info.pid
    &&& before.info.group_id == after.info.group_id
    &&& before.info.command == after.info.command
    &&& before.info.cwd == after.info.cwd
}

/// Every step of an actor evolves it.
#[verifier::spinoff_prover]
pub proof fn law_actor_evolves(
    before: ActorView,
    event: EventView,
    after: ActorView,
    action: ActionView,
)
    requires
        before.valid(),
        before.steps(event, after, action),
    ensures
        evolves(before, after),
{
    match event {
        EventView::Message(MessageView::Output(bytes)) => {
            law_replay_stays_valid(before.replay, bytes);
        },
        _ => {},
    }
}

/// What many steps do to an actor they do in the same direction as each of them.
pub proof fn law_evolution_adds_up(first: ActorView, second: ActorView, third: ActorView)
    requires
        evolves(first, second),
        evolves(second, third),
    ensures
        evolves(first, third),
{
}

/// How many answers are owed in a stage.
pub open spec fn owed(stage: StageView) -> nat {
    match stage {
        StageView::Ready => 0,
        StageView::Querying => 1,
        StageView::Feeding { .. } => 0,
        StageView::Telling(then) => match then {
            ThenView::Title => 0,
            ThenView::Next => 0,
            _ => 1,
        },
        StageView::Titling => 0,
        StageView::SizingPty { .. } => 1,
        StageView::SizingTerminal { .. } => 1,
        StageView::Checkpointing { .. } => 1,
        StageView::Writing => 1,
        StageView::Picturing => 1,
        StageView::ReadingRows => 1,
        StageView::Opening { .. } => 1,
        StageView::Sending(_) => 1,
        StageView::Detaching(_) => 0,
        StageView::Closing => 0,
        StageView::Replying => 0,
        StageView::Stopped => 0,
    }
}

/// How many answers an event asks for.
pub open spec fn asked(event: EventView) -> nat {
    match event {
        EventView::Message(message) => match message {
            MessageView::Output(_) => 0,
            MessageView::ReaderEof => 0,
            MessageView::ReaderFailed(_) => 0,
            MessageView::WriterFailed(_) => 0,
            MessageView::ChildExited(_) => 0,
            MessageView::Detach { .. } => 0,
            _ => 1,
        },
        _ => 0,
    }
}

/// How many answers an action gives.
pub open spec fn given(action: ActionView) -> nat {
    match action {
        ActionView::Reply(_) => 1,
        _ => 0,
    }
}

/// Every request is answered exactly once: what was owed and what is asked is given or owed,
/// and nothing is owed while the actor waits for a message or has stopped.
#[verifier::spinoff_prover]
pub proof fn law_every_request_is_answered_once(
    before: ActorView,
    event: EventView,
    after: ActorView,
    action: ActionView,
)
    requires
        before.steps(event, after, action),
    ensures
        owed(before.stage) + asked(event) == owed(after.stage) + given(action),
        action is Receive <==> after.stage is Ready,
        action is Stop <==> after.stage is Stopped,
        owed(StageView::Ready) == 0,
        owed(StageView::Stopped) == 0,
{
}

/// The end of a terminal is told when it is published, and only then: once both the end of the
/// child and the end of its output are known, with the offset behind the last output.
#[verifier::spinoff_prover]
pub proof fn law_end_is_told_once(
    before: ActorView,
    event: EventView,
    after: ActorView,
    action: ActionView,
)
    requires
        before.steps(event, after, action),
    ensures
        action matches ActionView::Broadcast(StreamEventView::Exited { exit_code, final_offset })
            ==> {
            &&& before.final_exit is None
            &&& after.final_exit == Some((exit_code, final_offset))
            &&& after.reader_eof
            &&& final_offset == after.replay.tail
        },
        before.final_exit is None && after.final_exit is Some ==> action matches ActionView::Broadcast(
            StreamEventView::Exited { exit_code, final_offset },
        ),
        after.stage is Ready ==> !after.ends(),
{
}

/// Output is told in order and without gaps: what is told begins at the end of the output
/// before it and holds exactly the new bytes, which the emulator was fed first.
pub proof fn law_output_is_told_in_order(
    before: ActorView,
    bytes: Seq<u8>,
    fed: ActorView,
    feed: ActionView,
    result: Result<(), Seq<char>>,
    after: ActorView,
    action: ActionView,
)
    requires
        before.steps(EventView::Message(MessageView::Output(bytes)), fed, feed),
        fed.steps(EventView::Done(result), after, action),
    ensures
        feed == ActionView::Feed(bytes),
        result is Ok ==> {
            &&& after.replay == before.replay.appended(bytes)
            &&& after.info.output_tail == after.replay.tail
            &&& action == ActionView::Broadcast(
                StreamEventView::Output {
                    start: before.replay.tail,
                    end: saturating_end(before.replay.tail, bytes.len()),
                    bytes,
                },
            )
        },
        result is Err ==> action == ActionView::Stop(Err(result->Err_0)),
{
}

/// Input and sizes are taken from whoever is in control, and from nobody in particular while
/// nobody is; anything else is refused and changes nothing but that an answer is due.
pub proof fn law_input_needs_control(
    before: ActorView,
    attachment_id: Option<Seq<char>>,
    message: MessageView,
    after: ActorView,
    action: ActionView,
)
    requires
        message matches MessageView::Write { attachment_id: a, .. } ==> a == attachment_id,
        message matches MessageView::Resize { attachment_id: a, .. } ==> a == attachment_id,
        message is Write || message is Resize,
        before.steps(EventView::Message(message), after, action),
    ensures
        after == (ActorView { stage: after.stage, ..before }),
        attachment_id == before.roster.controller && !before.conpty ==> (message matches
            MessageView::Write { bytes, .. } ==> action == ActionView::QueueWrite(bytes)),
        attachment_id == before.roster.controller && before.master_open ==> (message matches
            MessageView::Resize { cols, rows, .. } ==> action == (ActionView::ResizePty {
            cols,
            rows,
        })),
        attachment_id != before.roster.controller ==> action == ActionView::Reply(
            ReplyView::Done(Err(unauthorized(attachment_id))),
        ),
{
}

/// An attachment that interacts without being in control takes control first: everybody is told,
/// and only then the terminal is brought to the wanted size and the input is queued, before any
/// other message is looked at.
pub proof fn law_interaction_promotes(
    before: ActorView,
    attachment_id: Seq<char>,
    cols: u16,
    rows: u16,
    bytes: Option<Seq<u8>>,
    told: ActorView,
    tell: ActionView,
    gone: Set<Seq<char>>,
    after: ActorView,
    action: ActionView,
)
    requires
        before.roster.seats.contains_key(attachment_id),
        before.roster.controller != Some(attachment_id),
        before.steps(
            EventView::Message(MessageView::Control { attachment_id, cols, rows, bytes }),
            told,
            tell,
        ),
        told.steps(
            EventView::Delivered { failed: Set::empty(), gone, stopping: false },
            after,
            action,
        ),
    ensures
        told.roster == before.roster.taken(attachment_id),
        tell == ActionView::Broadcast(
            StreamEventView::ControllerChanged {
                attachment_id: Some(attachment_id),
                generation: told.roster.generation,
            },
        ),
        after.roster == told.roster,
        (before.info.cols != cols || before.info.rows != rows) && before.master_open ==> action == (
        ActionView::ResizePty { cols, rows }) && after.stage == (StageView::SizingPty {
            cols,
            rows,
            input: bytes,
        }),
        before.info.cols == cols && before.info.rows == rows && !before.conpty ==> (bytes matches
            Some(input) ==> action == ActionView::QueueWrite(input)),
{
    assert(told.roster.seats.remove_keys(Set::empty()) =~= told.roster.seats);
}

/// Nothing else is begun before a message has been dealt with.
pub proof fn law_messages_are_taken_one_by_one(
    before: ActorView,
    message: MessageView,
    after: ActorView,
    action: ActionView,
)
    requires
        before.steps(EventView::Message(message), after, action),
    ensures
        before.stage is Ready,
        !(action is Receive) ==> forall|other: MessageView|
            !(#[trigger] after.expects(EventView::Message(other))),
{
}

/// A terminal that has been resized tells everybody its new size and the bytes that restore the
/// screen before it takes anything else, such as further output.
pub proof fn law_resize_publishes_a_checkpoint(
    before: ActorView,
    cols: u16,
    rows: u16,
    input: Option<Seq<u8>>,
    resized: ActorView,
    ask: ActionView,
    checkpoint: Seq<u8>,
    after: ActorView,
    action: ActionView,
)
    requires
        before.stage == (StageView::SizingTerminal { cols, rows, input }),
        before.steps(EventView::Resized { forwarded: Ok(()), resized: Ok(()) }, resized, ask),
        resized.steps(EventView::Checkpoint(Ok(checkpoint)), after, action),
    ensures
        ask == ActionView::Checkpoint,
        action == ActionView::Broadcast(
            StreamEventView::Resized {
                cols,
                rows,
                generation: before.roster.generation,
                checkpoint,
            },
        ),
        after.info == (InfoView { cols, rows, ..before.info }),
        after.replay == before.replay,
{
}

/// Only output changes what is kept of it, so that the events to come continue the replay that
/// somebody was given who attached.
pub proof fn law_only_output_moves_the_end(
    before: ActorView,
    event: EventView,
    after: ActorView,
    action: ActionView,
)
    requires
        before.steps(event, after, action),
        !(event matches EventView::Message(MessageView::Output(_))),
    ensures
        after.replay == before.replay,
{
}

/// Nobody is dropped but those who did not take an event or are gone.
pub proof fn law_nobody_is_dropped_without_cause(
    before: ActorView,
    event: EventView,
    after: ActorView,
    action: ActionView,
    id: Seq<char>,
)
    requires
        before.steps(event, after, action),
        before.roster.seats.contains_key(id),
        !after.roster.seats.contains_key(id),
    ensures
        match event {
            EventView::Delivered { failed, gone, stopping } => !stopping && (failed.contains(id)
                || gone.contains(id)),
            EventView::Gone(gone) => gone.contains(id),
            _ => false,
        },
{
}

/// A detachment that was overtaken by a new attachment of the same name changes nothing.
pub proof fn law_live_replacement_stays(
    before: ActorView,
    gone: Set<Seq<char>>,
    after: ActorView,
    action: ActionView,
)
    requires
        before.steps(EventView::Gone(gone), after, action),
        before.stage matches StageView::Detaching(id) && !gone.contains(id),
    ensures
        after.roster == before.roster,
{
}

/// Somebody who attaches after the end of a terminal is told of it before being answered.
pub proof fn law_late_attachment_is_told_the_end(
    before: ActorView,
    replay: RawReplayView,
    exit_code: Option<u32>,
    final_offset: u64,
    result: Result<(), Seq<char>>,
    after: ActorView,
    action: ActionView,
)
    requires
        before.final_exit == Some((exit_code, final_offset)),
        before.stage == (StageView::Opening { role: AttachmentRole::Observer, replay }),
        before.steps(EventView::Done(result), after, action),
    ensures
        action == ActionView::Send(StreamEventView::Exited { exit_code, final_offset }),
        after.stage == StageView::Sending(replay),
        after == (ActorView { stage: after.stage, ..before }),
{
}

/// Somebody who attaches as the controller after the end of a terminal is first told, like
/// everybody, who is in control, then of the end, and only then answered. If control is lost again
/// meanwhile, that is told before the end.
pub proof fn law_late_controller_is_told_the_end(
    before: ActorView,
    replay: RawReplayView,
    exit_code: Option<u32>,
    final_offset: u64,
    opened: Result<(), Seq<char>>,
    telling: ActorView,
    tell: ActionView,
    failed: Set<Seq<char>>,
    gone: Set<Seq<char>>,
    stopping: bool,
    sending: ActorView,
    send: ActionView,
    sent: Result<(), Seq<char>>,
    after: ActorView,
    action: ActionView,
)
    requires
        before.final_exit == Some((exit_code, final_offset)),
        before.stage == (StageView::Opening { role: AttachmentRole::Controller, replay }),
        before.steps(EventView::Done(opened), telling, tell),
        telling.steps(EventView::Delivered { failed, gone, stopping }, sending, send),
    ensures
        tell == ActionView::Broadcast(
            StreamEventView::ControllerChanged {
                attachment_id: before.roster.controller,
                generation: before.roster.generation,
            },
        ),
        telling == (ActorView { stage: StageView::Telling(ThenView::Attached(replay)), ..before }),
        !stopping && before.roster.loses_controller(failed) ==> {
            &&& send == ActionView::Broadcast(
                StreamEventView::ControllerChanged {
                    attachment_id: sending.roster.controller,
                    generation: sending.roster.generation,
                },
            )
            &&& sending == (ActorView { stage: telling.stage, roster: sending.roster, ..before })
        },
        stopping || !before.roster.loses_controller(failed) ==> {
            &&& send == ActionView::Send(StreamEventView::Exited { exit_code, final_offset })
            &&& sending.stage == StageView::Sending(replay)
            &&& sending.steps(EventView::Done(sent), after, action) ==> action
                == ActionView::Reply(
                ReplyView::Attached(Ok((sending.roster.generation, replay))),
            )
        },
{
}

/// Reading a terminal changes nothing of it.
pub proof fn law_reading_changes_nothing(
    before: ActorView,
    event: EventView,
    after: ActorView,
    action: ActionView,
)
    requires
        before.steps(event, after, action),
        event is Screen || event is Rows || (event matches EventView::Message(message) && (
        message is Snapshot || message is ReadRows || message is Replay)),
    ensures
        after == (ActorView { stage: after.stage, ..before }),
{
}

/// Neither the end of the child nor the end of its output alone ends a terminal: the lifecycle
/// changes only when a worker fails or when both are known.
#[verifier::spinoff_prover]
pub proof fn law_exit_and_end_of_output_are_distinct(
    before: ActorView,
    event: EventView,
    after: ActorView,
    action: ActionView,
)
    requires
        before.steps(event, after, action),
        after.info.lifecycle != before.info.lifecycle,
    ensures
        ({
            ||| after.final_exit is Some && after.reader_eof && (before.child_exit is Some || event
                matches EventView::Message(MessageView::ChildExited(_)))
            ||| event matches EventView::Message(MessageView::ReaderFailed(_))
            ||| event matches EventView::Message(MessageView::WriterFailed(_))
        }),
{
}

/// Somebody who attaches is given a replay that ends where the events to come begin.
pub proof fn law_attachment_misses_nothing(
    before: ActorView,
    offset: u64,
    attachment_id: Seq<char>,
    role: AttachmentRole,
    takeover: bool,
    after: ActorView,
    action: ActionView,
)
    requires
        before.valid(),
        before.steps(
            EventView::Message(MessageView::Attach { offset, attachment_id, role, takeover }),
            after,
            action,
        ),
        action is OpenQueue,
    ensures
        action == ActionView::OpenQueue(attachment_id),
        after.roster.seats.contains_key(attachment_id),
        after.roster.seats[attachment_id].role == role,
        after.stage matches StageView::Opening { role: r, replay } && {
            &&& replay == before.replay.from_offset(offset)
            &&& replay.end_offset == after.replay.tail
        },
{
}

} // verus!
