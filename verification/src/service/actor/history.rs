//! What holds of a terminal over any number of steps.
use super::laws::{
    asked, evolves, given, law_actor_evolves, law_actor_stays_valid, law_end_is_told_once,
    law_every_request_is_answered_once, law_evolution_adds_up, owed,
};
use super::{ActionView, ActorView, EventView, MessageView, StageView};
use crate::service::model::StreamEventView;
use crate::service::replay::{law_replay_reads_history, law_replay_records_history};
use vstd::prelude::*;

verus! {

/// One step: what the actor was told, what it became, and what it asked for.
pub struct Turn {
    pub event: EventView,
    pub after: ActorView,
    pub action: ActionView,
}

/// What an actor has become after some steps.
pub open spec fn outcome_of(first: ActorView, turns: Seq<Turn>) -> ActorView {
    if turns.len() == 0 {
        first
    } else {
        turns.last().after
    }
}

/// An actor can take these steps one after the other.
pub open spec fn runs(first: ActorView, turns: Seq<Turn>) -> bool
    decreases turns.len(),
{
    turns.len() > 0 ==> {
        let last = turns.last();
        &&& runs(first, turns.drop_last())
        &&& outcome_of(first, turns.drop_last()).steps(last.event, last.after, last.action)
    }
}

/// The output that the actor was told of, put together.
pub open spec fn produced(turns: Seq<Turn>) -> Seq<u8>
    decreases turns.len(),
{
    if turns.len() == 0 {
        Seq::empty()
    } else {
        let before = produced(turns.drop_last());
        match turns.last().event {
            EventView::Message(MessageView::Output(bytes)) => before + bytes,
            _ => before,
        }
    }
}

/// The output that the actor had the attachments told of, put together.
pub open spec fn told(turns: Seq<Turn>) -> Seq<u8>
    decreases turns.len(),
{
    if turns.len() == 0 {
        Seq::empty()
    } else {
        let before = told(turns.drop_last());
        match turns.last().action {
            ActionView::Broadcast(StreamEventView::Output { start, end, bytes }) => before + bytes,
            _ => before,
        }
    }
}

/// The output that the emulator is being fed and nobody has been told of yet.
pub open spec fn pending(stage: StageView) -> Seq<u8> {
    match stage {
        StageView::Feeding { start, end, bytes } => bytes,
        _ => Seq::empty(),
    }
}

/// How often the end of the terminal was told.
pub open spec fn ends_told(turns: Seq<Turn>) -> nat
    decreases turns.len(),
{
    if turns.len() == 0 {
        0
    } else {
        let before = ends_told(turns.drop_last());
        match turns.last().action {
            ActionView::Broadcast(StreamEventView::Exited { exit_code, final_offset }) => before
                + 1,
            _ => before,
        }
    }
}

/// The reader passes on no output behind its end.
pub open spec fn is_orderly(turns: Seq<Turn>) -> bool {
    forall|i: int, j: int|
        0 <= i < j < turns.len() && (#[trigger] turns[i]).event == EventView::Message(
            MessageView::ReaderEof,
        ) ==> !((#[trigger] turns[j]).event matches EventView::Message(MessageView::Output(_)))
}

/// How many answers were asked for.
pub open spec fn asked_in(turns: Seq<Turn>) -> nat
    decreases turns.len(),
{
    if turns.len() == 0 {
        0
    } else {
        asked_in(turns.drop_last()) + asked(turns.last().event)
    }
}

/// How many answers were given.
pub open spec fn given_in(turns: Seq<Turn>) -> nat
    decreases turns.len(),
{
    if turns.len() == 0 {
        0
    } else {
        given_in(turns.drop_last()) + given(turns.last().action)
    }
}

/// Output takes two steps: the emulator is fed, then everybody is told. Nothing else has to do
/// with output.
#[verifier::spinoff_prover]
proof fn lemma_output_step(
    before: ActorView,
    event: EventView,
    after: ActorView,
    action: ActionView,
)
    requires
        before.steps(event, after, action),
    ensures
        match event {
            EventView::Message(MessageView::Output(bytes)) => {
                &&& before.stage is Ready
                &&& after.replay == before.replay.appended(bytes)
                &&& after.stage == (StageView::Feeding {
                    start: before.replay.tail,
                    end: after.replay.tail,
                    bytes,
                })
                &&& action == ActionView::Feed(bytes)
            },
            _ => {
                &&& after.replay == before.replay
                &&& !(after.stage is Feeding)
                &&& match before.stage {
                    StageView::Feeding { start, end, bytes } => if after.stage is Stopped {
                        action is Stop
                    } else {
                        action == ActionView::Broadcast(
                            StreamEventView::Output { start, end, bytes },
                        )
                    },
                    _ => !(action matches ActionView::Broadcast(StreamEventView::Output { .. })),
                }
            },
        },
{
}

/// An actor stays valid and evolves over any number of steps.
pub proof fn law_history_evolves(first: ActorView, turns: Seq<Turn>)
    requires
        first.valid(),
        runs(first, turns),
    ensures
        outcome_of(first, turns).valid(),
        evolves(first, outcome_of(first, turns)),
    decreases turns.len(),
{
    if turns.len() > 0 {
        let last = turns.last();
        let before = outcome_of(first, turns.drop_last());
        law_history_evolves(first, turns.drop_last());
        law_actor_stays_valid(before, last.event, last.after, last.action);
        law_actor_evolves(before, last.event, last.after, last.action);
        law_evolution_adds_up(first, before, last.after);
    }
}

/// The replay holds the end of everything that was ever produced.
pub proof fn law_history_is_kept(first: ActorView, turns: Seq<Turn>, earlier: Seq<u8>)
    requires
        runs(first, turns),
        first.replay.records(earlier),
        earlier.len() + produced(turns).len() <= u64::MAX,
    ensures
        outcome_of(first, turns).replay.records(earlier + produced(turns)),
    decreases turns.len(),
{
    if turns.len() == 0 {
        assert(earlier + produced(turns) =~= earlier);
    } else {
        let last = turns.last();
        let before = outcome_of(first, turns.drop_last());
        law_history_is_kept(first, turns.drop_last(), earlier);
        lemma_output_step(before, last.event, last.after, last.action);
        match last.event {
            EventView::Message(MessageView::Output(bytes)) => {
                let known = earlier + produced(turns.drop_last());
                law_replay_records_history(before.replay, known, bytes);
                assert(known + bytes =~= earlier + produced(turns));
            },
            _ => {},
        }
    }
}

/// Until the actor stops, everything that was produced has been told in its order, but for what
/// the emulator is just being fed.
pub proof fn law_history_is_told(first: ActorView, turns: Seq<Turn>)
    requires
        runs(first, turns),
        !(first.stage is Feeding),
        !(outcome_of(first, turns).stage is Stopped),
    ensures
        told(turns) + pending(outcome_of(first, turns).stage) == produced(turns),
    decreases turns.len(),
{
    if turns.len() == 0 {
        assert(told(turns) + pending(first.stage) =~= produced(turns));
    } else {
        let last = turns.last();
        let before = outcome_of(first, turns.drop_last());
        if before.stage is Stopped {
            assert(!before.expects(last.event));
        }
        law_history_is_told(first, turns.drop_last());
        lemma_output_step(before, last.event, last.after, last.action);
        assert(told(turns) + pending(last.after.stage) =~= produced(turns));
    }
}

/// Replay and what is told afterwards fit together: somebody who is given a replay at one time, and
/// told of all output from then on, has all output from the replay's offset on, once and in order,
/// but for what the emulator is just being fed.
pub proof fn law_subscription_is_seamless(
    first: ActorView,
    turns: Seq<Turn>,
    earlier: Seq<u8>,
    offset: u64,
)
    requires
        runs(first, turns),
        !(first.stage is Feeding),
        !(outcome_of(first, turns).stage is Stopped),
        first.replay.records(earlier),
        offset <= first.replay.tail,
    ensures
        ({
            let replay = first.replay.from_offset(offset);
            let stage = outcome_of(first, turns).stage;
            replay.bytes + told(turns) + pending(stage) == (earlier + produced(turns)).skip(
                replay.available_offset as int,
            )
        }),
{
    let replay = first.replay.from_offset(offset);
    law_replay_reads_history(first.replay, earlier, offset);
    law_history_is_told(first, turns);
    let stage = outcome_of(first, turns).stage;
    assert(replay.bytes + told(turns) + pending(stage) =~= replay.bytes + (told(turns) + pending(
        stage,
    )));
    assert(replay.bytes + produced(turns) =~= (earlier + produced(turns)).skip(
        replay.available_offset as int,
    ));
}

/// What is told of output continues, byte for byte, what was told before: its offsets are those
/// of its bytes in everything that was ever produced.
pub proof fn law_told_offsets_are_exact(first: ActorView, turns: Seq<Turn>, earlier: Seq<u8>)
    requires
        runs(first, turns),
        !(first.stage is Feeding),
        first.replay.records(earlier),
        earlier.len() + produced(turns).len() <= u64::MAX,
        turns.len() > 0,
    ensures
        turns.last().action matches ActionView::Broadcast(
            StreamEventView::Output { start, end, bytes },
        ) ==> {
            &&& start == earlier.len() + told(turns.drop_last()).len()
            &&& end == start + bytes.len()
            &&& end == earlier.len() + produced(turns).len()
        },
{
    let last = turns.last();
    let before = outcome_of(first, turns.drop_last());
    lemma_output_step(before, last.event, last.after, last.action);
    lemma_feeding_offsets(first, turns.drop_last(), earlier);
    law_history_is_kept(first, turns.drop_last(), earlier);
    if before.stage is Feeding {
        law_history_is_told(first, turns.drop_last());
    }
}

/// While the emulator is being fed, the offsets of what it is fed are known.
proof fn lemma_feeding_offsets(first: ActorView, turns: Seq<Turn>, earlier: Seq<u8>)
    requires
        runs(first, turns),
        !(first.stage is Feeding),
        first.replay.records(earlier),
        earlier.len() + produced(turns).len() <= u64::MAX,
    ensures
        outcome_of(first, turns).stage matches StageView::Feeding { start, end, bytes } ==> {
            &&& start + bytes.len() == earlier.len() + produced(turns).len()
            &&& end == start + bytes.len()
        },
{
    if turns.len() > 0 {
        let last = turns.last();
        let before = outcome_of(first, turns.drop_last());
        lemma_output_step(before, last.event, last.after, last.action);
        law_history_is_kept(first, turns.drop_last(), earlier);
        law_history_is_kept(first, turns, earlier);
    }
}

/// Steps up to some point are steps too.
proof fn lemma_prefix(first: ActorView, turns: Seq<Turn>, n: int)
    requires
        runs(first, turns),
        0 <= n <= turns.len(),
    ensures
        runs(first, turns.take(n)),
        produced(turns.take(n)).len() <= produced(turns).len(),
    decreases turns.len(),
{
    if n == turns.len() {
        assert(turns.take(n) =~= turns);
    } else {
        assert(turns.drop_last().take(n) =~= turns.take(n));
        lemma_prefix(first, turns.drop_last(), n);
    }
}

/// Without output nothing is produced.
proof fn lemma_quiet(turns: Seq<Turn>, n: int)
    requires
        0 <= n <= turns.len(),
        forall|j: int|
            n <= j < turns.len() ==> !((#[trigger] turns[j]).event matches EventView::Message(
                MessageView::Output(_),
            )),
    ensures
        produced(turns) == produced(turns.take(n)),
    decreases turns.len(),
{
    if n == turns.len() {
        assert(turns.take(n) =~= turns);
    } else {
        let before = turns.drop_last();
        assert forall|j: int| n <= j < before.len() implies !(
        (#[trigger] before[j]).event matches EventView::Message(MessageView::Output(_))) by {
            assert(before[j] == turns[j]);
        }
        lemma_quiet(before, n);
        assert(before.take(n) =~= turns.take(n));
        assert(turns.last() == turns[turns.len() - 1]);
    }
}

/// The end of the output becomes known only by being told.
#[verifier::spinoff_prover]
proof fn lemma_end_of_output_step(
    before: ActorView,
    event: EventView,
    after: ActorView,
    action: ActionView,
)
    requires
        before.steps(event, after, action),
        !before.reader_eof,
        after.reader_eof,
    ensures
        event == EventView::Message(MessageView::ReaderEof),
{
}

proof fn lemma_end_of_output(first: ActorView, turns: Seq<Turn>) -> (i: int)
    requires
        runs(first, turns),
        !first.reader_eof,
        outcome_of(first, turns).reader_eof,
    ensures
        0 <= i < turns.len(),
        turns[i].event == EventView::Message(MessageView::ReaderEof),
    decreases turns.len(),
{
    let last = turns.last();
    let before = outcome_of(first, turns.drop_last());
    if before.reader_eof {
        let i = lemma_end_of_output(first, turns.drop_last());
        assert(turns.drop_last()[i] == turns[i]);
        i
    } else {
        lemma_end_of_output_step(before, last.event, last.after, last.action);
        turns.len() - 1
    }
}

/// The end of a terminal is told at most once in any run, and exactly when it has been published.
pub proof fn law_history_ends_once(first: ActorView, turns: Seq<Turn>)
    requires
        first.valid(),
        first.final_exit is None,
        runs(first, turns),
    ensures
        ends_told(turns) == if outcome_of(first, turns).final_exit is Some {
            1nat
        } else {
            0nat
        },
        ends_told(turns) <= 1,
    decreases turns.len(),
{
    if turns.len() > 0 {
        let last = turns.last();
        let before = outcome_of(first, turns.drop_last());
        law_history_ends_once(first, turns.drop_last());
        law_history_evolves(first, turns.drop_last());
        law_actor_evolves(before, last.event, last.after, last.action);
        law_end_is_told_once(before, last.event, last.after, last.action);
    }
}

/// In a run from the beginning, with a reader that passes on no output behind its end, the end of
/// the terminal is told after all output of the run, and with the length of that output.
pub proof fn law_end_follows_all_output(first: ActorView, turns: Seq<Turn>, k: int)
    requires
        first.is_fresh(),
        runs(first, turns),
        is_orderly(turns),
        produced(turns).len() <= u64::MAX,
        0 <= k < turns.len(),
        turns[k].action matches ActionView::Broadcast(StreamEventView::Exited { .. }),
    ensures
        ends_told(turns) == 1,
        told(turns.take(k)) == produced(turns),
        turns[k].action matches ActionView::Broadcast(
            StreamEventView::Exited { exit_code, final_offset },
        ) && final_offset == produced(turns).len(),
{
    let upto = turns.take(k + 1);
    lemma_prefix(first, turns, k + 1);
    lemma_prefix(first, turns, k);
    assert(upto.drop_last() =~= turns.take(k));
    assert(upto.last() == turns[k]);
    let last = turns[k];
    let before = outcome_of(first, turns.take(k));
    law_end_is_told_once(before, last.event, last.after, last.action);
    lemma_output_step(before, last.event, last.after, last.action);
    law_every_request_is_answered_once(before, last.event, last.after, last.action);
    law_history_is_told(first, upto);
    assert(told(upto) =~= told(turns.take(k)));
    assert(told(upto) + pending(last.after.stage) =~= told(upto));
    law_history_is_kept(first, upto, Seq::empty());
    let i = lemma_end_of_output(first, upto);
    assert(turns[i] == upto[i]);
    assert forall|j: int| k < j < turns.len() implies !((#[trigger] turns[j]).event matches
        EventView::Message(MessageView::Output(_))) by {
        assert(i < j);
        assert(turns[i].event == EventView::Message(MessageView::ReaderEof));
    }
    lemma_quiet(turns, k + 1);
    law_history_ends_once(first, turns);
    lemma_counts(turns, k);
}

/// An end that was told counts.
proof fn lemma_counts(turns: Seq<Turn>, k: int)
    requires
        0 <= k < turns.len(),
        turns[k].action matches ActionView::Broadcast(StreamEventView::Exited { .. }),
    ensures
        ends_told(turns) >= 1,
    decreases turns.len(),
{
    if k < turns.len() - 1 {
        assert(turns.drop_last()[k] == turns[k]);
        lemma_counts(turns.drop_last(), k);
    }
}

/// Every request has been answered, or its answer is still owed: none is lost or given twice.
pub proof fn law_answers_match_requests(first: ActorView, turns: Seq<Turn>)
    requires
        runs(first, turns),
    ensures
        owed(first.stage) + asked_in(turns) == owed(outcome_of(first, turns).stage) + given_in(
            turns,
        ),
    decreases turns.len(),
{
    if turns.len() > 0 {
        let last = turns.last();
        law_answers_match_requests(first, turns.drop_last());
        law_every_request_is_answered_once(
            outcome_of(first, turns.drop_last()),
            last.event,
            last.after,
            last.action,
        );
    }
}

} // verus!
