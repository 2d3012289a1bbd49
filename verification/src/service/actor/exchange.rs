//! What a terminal does for a message, from taking it to answering it.
use super::history::{outcome_of, runs, Turn};
use super::{ActionView, ActorView, EventView, MessageView, ReplyView, StageView, ThenView};
use crate::protocol::AttachmentRole;
use crate::service::model::StreamEventView;
use crate::service::replay::{gives_back, law_replay_gives_back};
use crate::text::decimal;
use vstd::prelude::*;

verus! {

/// What an actor had the outside do, each kind of thing in order.
#[verifier::ext_equal]
pub struct Deeds {
    /// Input that was queued for the child.
    pub queued: Seq<Seq<u8>>,
    /// Sizes that the pseudoterminal was brought to, columns first.
    pub pty_sizes: Seq<(u16, u16)>,
    /// Sizes that the emulator was brought to, columns first.
    pub emulator_sizes: Seq<(u16, u16)>,
    /// Sizes that everybody was told of, columns first.
    pub told_sizes: Seq<(u16, u16)>,
    /// Attachments that a queue was opened for.
    pub opened: Seq<Seq<char>>,
    /// Events that were put in the queue opened last.
    pub sent: Seq<StreamEventView>,
    /// Answers.
    pub answers: Seq<ReplyView>,
}

/// Nothing done.
pub open spec fn nothing() -> Deeds {
    Deeds {
        queued: Seq::empty(),
        pty_sizes: Seq::empty(),
        emulator_sizes: Seq::empty(),
        told_sizes: Seq::empty(),
        opened: Seq::empty(),
        sent: Seq::empty(),
        answers: Seq::empty(),
    }
}

/// What has been done, and then an action.
pub open spec fn and_then_done(d: Deeds, action: ActionView) -> Deeds {
    match action {
        ActionView::QueueWrite(bytes) => Deeds { queued: d.queued.push(bytes), ..d },
        ActionView::ResizePty { cols, rows } => Deeds {
            pty_sizes: d.pty_sizes.push((cols, rows)),
            ..d
        },
        ActionView::ResizeTerminal { cols, rows } => Deeds {
            emulator_sizes: d.emulator_sizes.push((cols, rows)),
            ..d
        },
        ActionView::Broadcast(StreamEventView::Resized { cols, rows, generation, checkpoint }) => {
            Deeds { told_sizes: d.told_sizes.push((cols, rows)), ..d }
        },
        ActionView::OpenQueue(id) => Deeds { opened: d.opened.push(id), ..d },
        ActionView::Send(event) => Deeds { sent: d.sent.push(event), ..d },
        ActionView::Reply(reply) => Deeds { answers: d.answers.push(reply), ..d },
        _ => d,
    }
}

/// What was done in some steps.
pub open spec fn deeds(turns: Seq<Turn>) -> Deeds
    decreases turns.len(),
{
    if turns.len() == 0 {
        nothing()
    } else {
        and_then_done(deeds(turns.drop_last()), turns.last().action)
    }
}

/// The steps begin with a message and take no other.
pub open spec fn is_exchange(first: ActorView, message: MessageView, turns: Seq<Turn>) -> bool {
    &&& turns.len() > 0
    &&& runs(first, turns)
    &&& turns[0].event == EventView::Message(message)
    &&& forall|i: int| 0 < i < turns.len() ==> !((#[trigger] turns[i]).event is Message)
}

/// The size that a command asks for, if it needs any change: setting a size always does, and an
/// interaction does where the terminal has another size.
pub open spec fn wanted_size(cols: u16, rows: u16, message: MessageView) -> Seq<(u16, u16)> {
    match message {
        MessageView::Resize { attachment_id, cols: c, rows: r } => Seq::empty().push((c, r)),
        MessageView::Control { attachment_id, cols: c, rows: r, bytes } => if c == cols && r
            == rows {
            Seq::empty()
        } else {
            Seq::empty().push((c, r))
        },
        _ => Seq::empty(),
    }
}

/// The input that a command carries.
pub open spec fn wanted_input(message: MessageView) -> Seq<Seq<u8>> {
    match message {
        MessageView::Write { attachment_id, bytes } => Seq::empty().push(bytes),
        MessageView::Control { attachment_id, cols, rows, bytes: Some(bytes) } => {
            Seq::empty().push(bytes)
        },
        _ => Seq::empty(),
    }
}

spec fn one_or_none(input: Option<Seq<u8>>) -> Seq<Seq<u8>> {
    match input {
        Some(bytes) => Seq::empty().push(bytes),
        None => Seq::empty(),
    }
}

/// How far a command has been carried out.
spec fn command_holds(first: ActorView, message: MessageView, s: ActorView, d: Deeds) -> bool {
    let size = wanted_size(first.info.cols, first.info.rows, message);
    let input = wanted_input(message);
    let same = s.info.cols == first.info.cols && s.info.rows == first.info.rows;
    let sized = size.len() > 0 && s.info.cols == size[0].0 && s.info.rows == size[0].1;
    &&& d.opened == Seq::<Seq<char>>::empty()
    &&& d.sent == Seq::<StreamEventView>::empty()
    &&& match s.stage {
        StageView::Telling(ThenView::Size { cols, rows, input: i }) => {
            &&& d == nothing()
            &&& same
            &&& message matches MessageView::Control { cols: c, rows: r, bytes, .. } && c == cols
                && r == rows && bytes == i
        },
        StageView::SizingPty { cols, rows, input: i } => {
            &&& d == Deeds { pty_sizes: size, ..nothing() }
            &&& size == Seq::empty().push((cols, rows))
            &&& one_or_none(i) == input
            &&& same
        },
        StageView::SizingTerminal { cols, rows, input: i } => {
            &&& d == Deeds { pty_sizes: size, emulator_sizes: size, ..nothing() }
            &&& size == Seq::empty().push((cols, rows))
            &&& one_or_none(i) == input
            &&& same
        },
        StageView::Checkpointing { cols, rows, input: i } => {
            &&& d == Deeds { pty_sizes: size, emulator_sizes: size, ..nothing() }
            &&& size == Seq::empty().push((cols, rows))
            &&& one_or_none(i) == input
            &&& sized
        },
        StageView::Telling(ThenView::Input(i)) => {
            &&& d == Deeds {
                pty_sizes: size,
                emulator_sizes: size,
                told_sizes: size,
                ..nothing()
            }
            &&& one_or_none(i) == input
            &&& sized
        },
        StageView::Writing => {
            &&& d == Deeds {
                pty_sizes: size,
                emulator_sizes: size,
                told_sizes: size,
                queued: input,
                ..nothing()
            }
            &&& input.len() == 1
            &&& if size.len() > 0 {
                sized
            } else {
                same
            }
        },
        StageView::Replying => command_answered(first, message, s, d),
        StageView::Ready => command_answered(first, message, s, d),
        StageView::Telling(ThenView::Next) => command_answered(first, message, s, d),
        _ => false,
    }
}

/// What holds of a command that has been answered.
pub open spec fn command_answered(
    first: ActorView,
    message: MessageView,
    s: ActorView,
    d: Deeds,
) -> bool {
    let size = wanted_size(first.info.cols, first.info.rows, message);
    let input = wanted_input(message);
    let none = Seq::<(u16, u16)>::empty();
    &&& d.answers.len() == 1
    &&& d.answers[0] is Done
    &&& d.answers[0] == ReplyView::Done(Ok(())) ==> {
        &&& d.queued == input
        &&& d.pty_sizes == size
        &&& d.emulator_sizes == size
        &&& d.told_sizes == size
        &&& s.info.cols == if size.len() > 0 {
            size[0].0
        } else {
            first.info.cols
        }
        &&& s.info.rows == if size.len() > 0 {
            size[0].1
        } else {
            first.info.rows
        }
    }
    &&& d.queued == Seq::<Seq<u8>>::empty() || (d.queued == input && d.told_sizes == size
        && d.emulator_sizes == size && d.pty_sizes == size)
    &&& d.pty_sizes == size || d.pty_sizes == none
    &&& d.emulator_sizes == none || (d.emulator_sizes == size && d.pty_sizes == size)
    &&& d.told_sizes == none || (d.told_sizes == size && d.emulator_sizes == size)
}

#[verifier::spinoff_prover]
proof fn lemma_command_first(
    first: ActorView,
    message: MessageView,
    after: ActorView,
    action: ActionView,
)
    requires
        message is Write || message is Resize || message is Control,
        first.steps(EventView::Message(message), after, action),
    ensures
        command_holds(first, message, after, and_then_done(nothing(), action)),
{
}

#[verifier::spinoff_prover]
proof fn lemma_command_next(
    first: ActorView,
    message: MessageView,
    d: Deeds,
    before: ActorView,
    event: EventView,
    after: ActorView,
    action: ActionView,
)
    requires
        message is Write || message is Resize || message is Control,
        command_holds(first, message, before, d),
        before.steps(event, after, action),
        !(event is Message),
        !(after.stage is Stopped),
    ensures
        command_holds(first, message, after, and_then_done(d, action)),
{
}

proof fn lemma_command(first: ActorView, message: MessageView, turns: Seq<Turn>)
    requires
        message is Write || message is Resize || message is Control,
        is_exchange(first, message, turns),
        !(outcome_of(first, turns).stage is Stopped),
    ensures
        command_holds(first, message, outcome_of(first, turns), deeds(turns)),
    decreases turns.len(),
{
    let last = turns.last();
    let earlier = turns.drop_last();
    if turns.len() == 1 {
        assert(deeds(earlier) == nothing());
        lemma_command_first(first, message, last.after, last.action);
    } else {
        let before = outcome_of(first, earlier);
        assert(earlier[0] == turns[0]);
        assert forall|i: int| 0 < i < earlier.len() implies !((
        #[trigger] earlier[i]).event is Message) by {
            assert(earlier[i] == turns[i]);
        }
        assert(!(turns[turns.len() - 1].event is Message));
        if before.stage is Stopped {
            assert(!before.expects(last.event));
        }
        lemma_command(first, message, earlier);
        lemma_command_next(
            first,
            message,
            deeds(earlier),
            before,
            last.event,
            last.after,
            last.action,
        );
    }
}

/// Input, a size and an interaction are carried out as asked. One that is answered with success has
/// queued exactly the input that it carries, once and unchanged, and has brought the pseudoterminal,
/// the emulator and the metadata to the size that it asks for, which everybody was told, if there
/// was anything to change. It makes no difference who was in control before.
pub proof fn law_command_is_carried_out(first: ActorView, message: MessageView, turns: Seq<Turn>)
    requires
        message is Write || message is Resize || message is Control,
        is_exchange(first, message, turns),
        !(outcome_of(first, turns).stage is Stopped),
        deeds(turns).answers.len() > 0,
    ensures
        deeds(turns).answers.len() == 1,
        deeds(turns).answers[0] is Done,
        deeds(turns).answers[0] == ReplyView::Done(Ok(())) ==> {
            let d = deeds(turns);
            let s = outcome_of(first, turns).info;
            &&& message matches MessageView::Write { attachment_id, bytes } ==> {
                &&& d.queued.len() == 1 && d.queued[0] == bytes
                &&& d.pty_sizes.len() == 0 && d.emulator_sizes.len() == 0
                &&& s.cols == first.info.cols && s.rows == first.info.rows
            }
            &&& message matches MessageView::Resize { attachment_id, cols, rows } ==> {
                &&& d.queued.len() == 0
                &&& d.pty_sizes.len() == 1 && d.pty_sizes[0] == (cols, rows)
                &&& d.emulator_sizes.len() == 1 && d.emulator_sizes[0] == (cols, rows)
                &&& d.told_sizes.len() == 1 && d.told_sizes[0] == (cols, rows)
                &&& s.cols == cols && s.rows == rows
            }
            &&& message matches MessageView::Control { attachment_id, cols, rows, bytes } ==> {
                &&& bytes matches Some(input) ==> d.queued.len() == 1 && d.queued[0] == input
                &&& bytes is None ==> d.queued.len() == 0
                &&& s.cols == cols && s.rows == rows
                &&& cols == first.info.cols && rows == first.info.rows ==> d.pty_sizes.len() == 0
                    && d.emulator_sizes.len() == 0 && d.told_sizes.len() == 0
                &&& cols != first.info.cols || rows != first.info.rows ==> {
                    &&& d.pty_sizes.len() == 1 && d.pty_sizes[0] == (cols, rows)
                    &&& d.emulator_sizes.len() == 1 && d.emulator_sizes[0] == (cols, rows)
                    &&& d.told_sizes.len() == 1 && d.told_sizes[0] == (cols, rows)
                }
            }
        },
{
    lemma_command(first, message, turns);
}

/// At every point of a command the outside has been asked for no more than the command asks for,
/// and in this order: the pseudoterminal, the emulator with the same size, telling everybody that
/// size, and the input last.
pub proof fn law_command_keeps_its_order(first: ActorView, message: MessageView, turns: Seq<Turn>)
    requires
        message is Write || message is Resize || message is Control,
        is_exchange(first, message, turns),
        !(outcome_of(first, turns).stage is Stopped),
    ensures
        ({
            let d = deeds(turns);
            let (cols, rows) = (first.info.cols, first.info.rows);
            let size = wanted_size(cols, rows, message);
            &&& d.queued.len() <= 1 && d.pty_sizes.len() <= 1 && d.answers.len() <= 1
            &&& d.pty_sizes.len() > 0 ==> d.pty_sizes == size
            &&& d.emulator_sizes.len() > 0 ==> d.emulator_sizes == d.pty_sizes
            &&& d.told_sizes.len() > 0 ==> d.told_sizes == d.emulator_sizes && d.emulator_sizes
                == d.pty_sizes
            &&& d.queued.len() > 0 ==> d.queued == wanted_input(message) && d.told_sizes == size
                && d.emulator_sizes == size && d.pty_sizes == size
            &&& d.opened.len() == 0 && d.sent.len() == 0
        }),
{
    lemma_command(first, message, turns);
}

/// How far an attachment has been dealt with.
spec fn attach_holds(
    first: ActorView,
    offset: u64,
    id: Seq<char>,
    role: AttachmentRole,
    takeover: bool,
    s: ActorView,
    d: Deeds,
) -> bool {
    let queue = Seq::<Seq<char>>::empty().push(id);
    &&& s.replay == first.replay
    &&& d.queued.len() == 0 && d.pty_sizes.len() == 0 && d.emulator_sizes.len() == 0
    &&& match s.stage {
        StageView::Opening { role: r, replay } => {
            &&& r == role
            &&& gives_back(first.replay, offset, replay)
            &&& d == Deeds { opened: queue, ..nothing() }
            &&& s.final_exit == first.final_exit
            &&& is_admitted(first, id, role, takeover)
        },
        StageView::Telling(ThenView::Attached(replay)) => {
            &&& gives_back(first.replay, offset, replay)
            &&& d == Deeds { opened: queue, ..nothing() }
            &&& s.final_exit == first.final_exit
            &&& is_admitted(first, id, role, takeover)
        },
        StageView::Sending(replay) => {
            &&& gives_back(first.replay, offset, replay)
            &&& d.opened == queue
            &&& d.answers == Seq::<ReplyView>::empty()
            &&& end_sent(first, d.sent)
            &&& is_admitted(first, id, role, takeover)
        },
        StageView::Replying => attach_answered(first, offset, id, role, takeover, d),
        StageView::Ready => attach_answered(first, offset, id, role, takeover, d),
        StageView::Telling(ThenView::Next) => attach_answered(
            first,
            offset,
            id,
            role,
            takeover,
            d,
        ),
        _ => false,
    }
}

/// Nobody else is in control, or is to be displaced, or control is not asked for.
pub open spec fn is_admitted(
    first: ActorView,
    id: Seq<char>,
    role: AttachmentRole,
    takeover: bool,
) -> bool {
    role == AttachmentRole::Observer || takeover || first.roster.controller is None
        || first.roster.controller == Some(id)
}

/// The end of the terminal was sent, exactly if it had been published.
pub open spec fn end_sent(first: ActorView, sent: Seq<StreamEventView>) -> bool {
    match first.final_exit {
        None => sent.len() == 0,
        Some((exit_code, final_offset)) => sent.len() == 1 && sent[0] == (StreamEventView::Exited {
            exit_code,
            final_offset,
        }),
    }
}

/// What holds of an attachment that has been answered.
pub open spec fn attach_answered(
    first: ActorView,
    offset: u64,
    id: Seq<char>,
    role: AttachmentRole,
    takeover: bool,
    d: Deeds,
) -> bool {
    &&& d.answers.len() == 1
    &&& d.answers[0] matches ReplyView::Attached(answer) && match answer {
        Ok((generation, replay)) => {
            &&& is_admitted(first, id, role, takeover)
            &&& gives_back(first.replay, offset, replay)
            &&& d.opened.len() == 1 && d.opened[0] == id
            &&& end_sent(first, d.sent)
        },
        Err(words) => {
            &&& d.opened.len() == 0 && d.sent.len() == 0
            &&& if !is_admitted(first, id, role, takeover) {
                words == "terminal already has controller "@ + first.roster.controller->0
            } else {
                &&& offset > first.replay.tail
                &&& words == "requested offset "@ + decimal(offset as nat) + " is beyond tail "@
                    + decimal(first.replay.tail as nat)
            }
        },
    }
}

#[verifier::spinoff_prover]
proof fn lemma_attach_first(
    first: ActorView,
    offset: u64,
    id: Seq<char>,
    role: AttachmentRole,
    takeover: bool,
    after: ActorView,
    action: ActionView,
)
    requires
        first.replay.valid(),
        first.steps(
            EventView::Message(MessageView::Attach { offset, attachment_id: id, role, takeover }),
            after,
            action,
        ),
    ensures
        attach_holds(
            first,
            offset,
            id,
            role,
            takeover,
            after,
            and_then_done(nothing(), action),
        ),
{
    if offset <= first.replay.tail {
        law_replay_gives_back(first.replay, offset);
    }
}

#[verifier::spinoff_prover]
proof fn lemma_attach_next(
    first: ActorView,
    offset: u64,
    id: Seq<char>,
    role: AttachmentRole,
    takeover: bool,
    d: Deeds,
    before: ActorView,
    event: EventView,
    after: ActorView,
    action: ActionView,
)
    requires
        attach_holds(first, offset, id, role, takeover, before, d),
        before.steps(event, after, action),
        !(event is Message),
        !(after.stage is Stopped),
    ensures
        attach_holds(first, offset, id, role, takeover, after, and_then_done(d, action)),
{
}

/// Whatever happens on the way, a successful answer to somebody who attaches carries the replay of
/// the buffer as it was when the message was taken, from the asked offset on and complete, whether
/// the terminal still runs or has ended. A queue was opened for exactly that attachment; if the
/// terminal has ended, that was put in the queue. Refused is exactly an attachment as the
/// controller while somebody else is in control who is not to be displaced, and one from an offset
/// behind the end.
pub proof fn law_attachment_is_answered(
    first: ActorView,
    offset: u64,
    id: Seq<char>,
    role: AttachmentRole,
    takeover: bool,
    turns: Seq<Turn>,
)
    requires
        first.replay.valid(),
        is_exchange(
            first,
            MessageView::Attach { offset, attachment_id: id, role, takeover },
            turns,
        ),
        !(outcome_of(first, turns).stage is Stopped),
    ensures
        deeds(turns).answers.len() <= 1,
        deeds(turns).answers.len() == 1 ==> attach_answered(
            first,
            offset,
            id,
            role,
            takeover,
            deeds(turns),
        ),
        deeds(turns).queued.len() == 0,
        outcome_of(first, turns).replay == first.replay,
{
    lemma_attach(first, offset, id, role, takeover, turns);
}

proof fn lemma_attach(
    first: ActorView,
    offset: u64,
    id: Seq<char>,
    role: AttachmentRole,
    takeover: bool,
    turns: Seq<Turn>,
)
    requires
        first.replay.valid(),
        is_exchange(
            first,
            MessageView::Attach { offset, attachment_id: id, role, takeover },
            turns,
        ),
        !(outcome_of(first, turns).stage is Stopped),
    ensures
        attach_holds(first, offset, id, role, takeover, outcome_of(first, turns), deeds(turns)),
    decreases turns.len(),
{
    let last = turns.last();
    let earlier = turns.drop_last();
    if turns.len() == 1 {
        assert(deeds(earlier) == nothing());
        lemma_attach_first(first, offset, id, role, takeover, last.after, last.action);
    } else {
        let before = outcome_of(first, earlier);
        assert(earlier[0] == turns[0]);
        assert forall|i: int| 0 < i < earlier.len() implies !((
        #[trigger] earlier[i]).event is Message) by {
            assert(earlier[i] == turns[i]);
        }
        assert(!(turns[turns.len() - 1].event is Message));
        if before.stage is Stopped {
            assert(!before.expects(last.event));
        }
        lemma_attach(first, offset, id, role, takeover, earlier);
        lemma_attach_next(
            first,
            offset,
            id,
            role,
            takeover,
            deeds(earlier),
            before,
            last.event,
            last.after,
            last.action,
        );
    }
}

/// A replay is answered at once with what the buffer gives back from the asked offset on; an offset
/// behind the end is refused. Nothing changes.
pub proof fn law_replay_is_answered(
    before: ActorView,
    offset: u64,
    after: ActorView,
    action: ActionView,
)
    requires
        before.replay.valid(),
        before.steps(EventView::Message(MessageView::Replay { offset }), after, action),
    ensures
        action matches ActionView::Reply(ReplyView::Replay(answer)) && match answer {
            Ok(replay) => gives_back(before.replay, offset, replay),
            Err(words) => offset > before.replay.tail && words == "requested offset "@ + decimal(
                offset as nat,
            ) + " is beyond tail "@ + decimal(before.replay.tail as nat),
        },
        after == (ActorView { stage: StageView::Replying, ..before }),
{
    if offset <= before.replay.tail {
        law_replay_gives_back(before.replay, offset);
    }
}

/// The emulator is asked for as many rows as the message asks for, a number that is left out
/// included, and what it then gives is answered as it is, with what is known of the terminal.
pub proof fn law_rows_are_answered(
    before: ActorView,
    rows: Option<u16>,
    reading: ActorView,
    read: ActionView,
    given: Result<(Seq<Seq<char>>, u16, u16), Seq<char>>,
    after: ActorView,
    action: ActionView,
)
    requires
        before.steps(EventView::Message(MessageView::ReadRows { rows }), reading, read),
        reading.steps(EventView::Rows(given), after, action),
    ensures
        read == ActionView::ReadRows(rows),
        action matches ActionView::Reply(ReplyView::Rows(answer)) && match (given, answer) {
            (Ok((lines, cursor_x, cursor_y)), Ok(r)) => {
                &&& r.terminal == before.info
                &&& r.lines == lines
                &&& r.cursor_x == cursor_x
                &&& r.cursor_y == cursor_y
            },
            (Err(e), Err(words)) => words == e,
            _ => false,
        },
        after == (ActorView { stage: StageView::Replying, ..before }),
{
}

/// What the emulator shows is answered as it is, with what is known of the terminal.
pub proof fn law_snapshot_is_answered(
    before: ActorView,
    picturing: ActorView,
    picture: ActionView,
    given: Result<(Seq<char>, Seq<u8>, u16, u16), Seq<char>>,
    after: ActorView,
    action: ActionView,
)
    requires
        before.steps(EventView::Message(MessageView::Snapshot), picturing, picture),
        picturing.steps(EventView::Screen(given), after, action),
    ensures
        picture == ActionView::Picture,
        action matches ActionView::Reply(ReplyView::Snapshot(answer)) && match (given, answer) {
            (Ok((text, checkpoint, cursor_x, cursor_y)), Ok(r)) => {
                &&& r.info == before.info
                &&& r.text == text
                &&& r.checkpoint == checkpoint
                &&& r.cursor_x == cursor_x
                &&& r.cursor_y == cursor_y
            },
            (Err(e), Err(words)) => words == e,
            _ => false,
        },
        after == (ActorView { stage: StageView::Replying, ..before }),
{
}

} // verus!
