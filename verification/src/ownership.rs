//! Who owns the daemon: one connection at a time, which can hand it on by a ticket.
use crate::encoding::random_u128;
use crate::error::Error;
use crate::text::{hexadecimal, hexadecimal_text, opt_text, same};
use vstd::prelude::*;

verus! {

/// How long a new daemon waits for its first owner, in nanoseconds.
pub const ACQUIRE_TIMEOUT: u64 = 5_000_000_000;

/// How long a ticket is good for, in nanoseconds.
pub const HANDOFF_TIMEOUT: u64 = 120_000_000_000;

/// How long a ticket is good for, in milliseconds.
pub const HANDOFF_TIMEOUT_MILLIS: u64 = 120_000;

/// A point in time, in nanoseconds on a clock that never goes back.
#[derive(Clone, Copy, Debug, PartialEq, Eq, Structural)]
pub struct Instant {
    pub nanos: u64,
}

/// A ticket with which the next owner can take over.
#[derive(Debug)]
pub struct Handoff {
    pub ticket: String,
    /// When the ticket ceases to be good, in milliseconds of the calendar's clock.
    pub expires_at: u64,
    pub deadline: Instant,
}

/// A `Handoff` as a mathematical value.
#[verifier::ext_equal]
pub struct HandoffView {
    pub ticket: Seq<char>,
    pub expires_at: u64,
    pub deadline: Instant,
}

/// Where the ownership stands.
pub enum State {
    /// Nobody has owned the daemon yet, and nobody may from the deadline on.
    Starting(Instant),
    /// Somebody owns the daemon, and may have a ticket to hand on.
    Owned(Option<Handoff>),
    /// The owner has left behind a ticket.
    Waiting(Handoff),
    /// There will be no owner any more.
    Stopped,
}

/// A `State` as a mathematical value.
pub enum StateView {
    Starting(Instant),
    Owned(Option<HandoffView>),
    Waiting(HandoffView),
    Stopped,
}

/// The ownership of a daemon.
pub struct Ownership {
    pub state: State,
    /// Counts the owners.
    pub generation: u64,
}

/// An `Ownership` as a mathematical value.
#[verifier::ext_equal]
pub struct OwnershipView {
    pub state: StateView,
    pub generation: u64,
}

pub open spec fn opt_handoff(handoff: Option<Handoff>) -> Option<HandoffView> {
    match handoff {
        Some(handoff) => Some(handoff@),
        None => None,
    }
}

impl View for Handoff {
    type V = HandoffView;

    open spec fn view(&self) -> HandoffView {
        HandoffView {
            ticket: self.ticket@,
            expires_at: self.expires_at,
            deadline: self.deadline,
        }
    }
}

impl View for State {
    type V = StateView;

    open spec fn view(&self) -> StateView {
        match self {
            State::Starting(deadline) => StateView::Starting(*deadline),
            State::Owned(handoff) => StateView::Owned(opt_handoff(*handoff)),
            State::Waiting(handoff) => StateView::Waiting(handoff@),
            State::Stopped => StateView::Stopped,
        }
    }
}

impl View for Ownership {
    type V = OwnershipView;

    open spec fn view(&self) -> OwnershipView {
        OwnershipView { state: self.state@, generation: self.generation }
    }
}

impl Clone for Handoff {
    fn clone(&self) -> (r: Self)
        ensures
            r@ == self@,
    {
        Handoff {
            ticket: self.ticket.clone(),
            expires_at: self.expires_at,
            deadline: self.deadline,
        }
    }
}

impl OwnershipView {
    /// A new daemon.
    pub open spec fn initial(now: Instant) -> OwnershipView {
        OwnershipView {
            state: StateView::Starting(Instant { nanos: (now.nanos + ACQUIRE_TIMEOUT) as u64 }),
            generation: 0,
        }
    }

    /// At `now`, when what has run out is over.
    pub open spec fn ticked(self, now: Instant) -> OwnershipView {
        let state = match self.state {
            StateView::Starting(deadline) if now.nanos >= deadline.nanos => StateView::Stopped,
            StateView::Waiting(handoff) if now.nanos >= handoff.deadline.nanos => {
                StateView::Stopped
            },
            StateView::Owned(Some(handoff)) if now.nanos >= handoff.deadline.nanos => {
                StateView::Owned(None)
            },
            state => state,
        };
        OwnershipView { state, ..self }
    }

    /// Why the daemon cannot be claimed with this ticket, if it cannot.
    pub open spec fn obstacle(self, ticket: Option<Seq<char>>) -> Option<Error> {
        match self.state {
            StateView::Starting(_) => if ticket is None {
                None
            } else {
                Some(Error::InvalidTicket)
            },
            StateView::Owned(Some(handoff)) => if ticket == Some(handoff.ticket) {
                None
            } else {
                Some(Error::LiveOwner)
            },
            StateView::Owned(None) => Some(Error::LiveOwner),
            StateView::Waiting(handoff) => if ticket == Some(handoff.ticket) {
                None
            } else {
                Some(Error::InvalidTicket)
            },
            StateView::Stopped => Some(Error::OwnershipOver),
        }
    }

    /// Owned by somebody new.
    pub open spec fn succeeded(self) -> OwnershipView {
        OwnershipView {
            state: StateView::Owned(None),
            generation: (self.generation + 1) as u64,
        }
    }

    /// The owner of this generation is the owner now.
    pub open spec fn owned_by(self, generation: u64) -> bool {
        self.generation == generation && self.state is Owned
    }

    /// The owner of this generation would be given a new ticket.
    pub open spec fn issues(self, generation: u64) -> bool {
        self.generation == generation && self.state == StateView::Owned(None)
    }

    /// The ticket that is issued at `now`.
    pub open spec fn fresh(ticket: Seq<char>, now: Instant, unix_ms: u64) -> HandoffView {
        HandoffView {
            ticket,
            expires_at: (unix_ms + HANDOFF_TIMEOUT_MILLIS) as u64,
            deadline: Instant { nanos: (now.nanos + HANDOFF_TIMEOUT) as u64 },
        }
    }

    /// The connection of the owner of this generation has closed.
    pub open spec fn disconnected(self, generation: u64, now: Instant) -> OwnershipView {
        if !self.owned_by(generation) {
            self
        } else {
            OwnershipView {
                state: match self.ticked(now).state {
                    StateView::Owned(Some(handoff)) => StateView::Waiting(handoff),
                    _ => StateView::Stopped,
                },
                ..self
            }
        }
    }
}

/// The clocks leave room for a ticket that is issued at this time.
pub open spec fn can_issue(now: Instant, unix_ms: u64) -> bool {
    &&& now.nanos + HANDOFF_TIMEOUT <= u64::MAX
    &&& unix_ms + HANDOFF_TIMEOUT_MILLIS <= u64::MAX
}

impl Ownership {
    /// A daemon that waits for its first owner.
    pub fn new(now: Instant) -> (r: Self)
        requires
            now.nanos + ACQUIRE_TIMEOUT <= u64::MAX,
        ensures
            r@ == OwnershipView::initial(now),
    {
        Ownership {
            state: State::Starting(Instant { nanos: now.nanos + ACQUIRE_TIMEOUT }),
            generation: 0,
        }
    }

    /// Lets the time be `now`; returns whether the daemon is to stop.
    pub fn tick(&mut self, now: Instant) -> (stopped: bool)
        ensures
            final(self)@ == old(self)@.ticked(now),
            stopped == (final(self)@.state is Stopped),
    {
        match &self.state {
            State::Starting(deadline) => if now.nanos >= deadline.nanos {
                self.state = State::Stopped;
            },
            State::Waiting(handoff) => if now.nanos >= handoff.deadline.nanos {
                self.state = State::Stopped;
            },
            State::Owned(Some(handoff)) => if now.nanos >= handoff.deadline.nanos {
                self.state = State::Owned(None);
            },
            _ => {},
        }
        match &self.state {
            State::Stopped => true,
            _ => false,
        }
    }

    /// Makes somebody new the owner and returns the generation by which it is known: the first
    /// one without a ticket, a later one with the ticket of the one before.
    pub fn claim(&mut self, ticket: &Option<String>, now: Instant) -> (r: Result<u64, Error>)
        requires
            old(self)@.ticked(now).obstacle(opt_text(*ticket)) is None ==> old(self)@.generation
                < u64::MAX,
        ensures
            ({
                let before = old(self)@.ticked(now);
                match r {
                    Ok(generation) => {
                        &&& before.obstacle(opt_text(*ticket)) is None
                        &&& final(self)@ == before.succeeded()
                        &&& generation == final(self)@.generation
                    },
                    Err(e) => {
                        &&& before.obstacle(opt_text(*ticket)) == Some(e)
                        &&& final(self)@ == before
                    },
                }
            }),
    {
        self.tick(now);
        match &self.state {
            State::Starting(_) => if ticket.is_some() {
                return Err(Error::InvalidTicket);
            },
            State::Owned(Some(handoff)) => {
                let fits = match ticket {
                    Some(ticket) => same(ticket.as_str(), handoff.ticket.as_str()),
                    None => false,
                };
                if !fits {
                    return Err(Error::LiveOwner);
                }
            },
            State::Owned(None) => {
                return Err(Error::LiveOwner);
            },
            State::Waiting(handoff) => {
                let fits = match ticket {
                    Some(ticket) => same(ticket.as_str(), handoff.ticket.as_str()),
                    None => false,
                };
                if !fits {
                    return Err(Error::InvalidTicket);
                }
            },
            State::Stopped => {
                return Err(Error::OwnershipOver);
            },
        }
        self.generation = self.generation + 1;
        self.state = State::Owned(None);
        Ok(self.generation)
    }

    /// Whether the owner of this generation is the owner now.
    pub fn is_owner(&self, generation: u64) -> (r: bool)
        ensures
            r == self@.owned_by(generation),
    {
        self.generation == generation && match &self.state {
            State::Owned(_) => true,
            _ => false,
        }
    }

    /// Issues a ticket to the owner; one that is still good is given again as it is. `random`
    /// makes a new one unpredictable.
    pub fn prepare_with(
        &mut self,
        generation: u64,
        now: Instant,
        unix_ms: u64,
        random: u128,
    ) -> (r: Result<Handoff, Error>)
        requires
            old(self)@.ticked(now).issues(generation) ==> can_issue(now, unix_ms),
        ensures
            ({
                let before = old(self)@.ticked(now);
                match r {
                    Ok(handoff) => {
                        &&& before.owned_by(generation)
                        &&& before.issues(generation) ==> handoff@ == OwnershipView::fresh(
                            hexadecimal(random as nat, 32),
                            now,
                            unix_ms,
                        )
                        &&& !before.issues(generation) ==> before.state == StateView::Owned(
                            Some(handoff@),
                        )
                        &&& final(self)@ == (OwnershipView {
                            state: StateView::Owned(Some(handoff@)),
                            ..before
                        })
                    },
                    Err(e) => {
                        &&& !before.owned_by(generation)
                        &&& e == Error::NotOwner
                        &&& final(self)@ == before
                    },
                }
            }),
    {
        self.tick(now);
        if self.generation != generation {
            return Err(Error::NotOwner);
        }
        match &self.state {
            State::Owned(Some(handoff)) => Ok(handoff.clone()),
            State::Owned(None) => {
                let handoff = Handoff {
                    ticket: hexadecimal_text(random, 32),
                    expires_at: unix_ms + HANDOFF_TIMEOUT_MILLIS,
                    deadline: Instant { nanos: now.nanos + HANDOFF_TIMEOUT },
                };
                self.state = State::Owned(Some(handoff.clone()));
                Ok(handoff)
            },
            _ => Err(Error::NotOwner),
        }
    }

    /// Issues a ticket to the owner; one that is still good is given again as it is. A new
    /// ticket is drawn at random.
    pub fn prepare(&mut self, generation: u64, now: Instant, unix_ms: u64) -> (r: Result<
        Handoff,
        Error,
    >)
        requires
            old(self)@.ticked(now).issues(generation) ==> can_issue(now, unix_ms),
        ensures
            ({
                let before = old(self)@.ticked(now);
                match r {
                    Ok(handoff) => {
                        &&& before.owned_by(generation)
                        &&& before.issues(generation) ==> exists|random: u128|
                            handoff@ == OwnershipView::fresh(
                                #[trigger] hexadecimal(random as nat, 32),
                                now,
                                unix_ms,
                            )
                        &&& !before.issues(generation) ==> before.state == StateView::Owned(
                            Some(handoff@),
                        )
                        &&& final(self)@ == (OwnershipView {
                            state: StateView::Owned(Some(handoff@)),
                            ..before
                        })
                    },
                    Err(e) => {
                        &&& !before.owned_by(generation)
                        &&& e == Error::NotOwner
                        &&& final(self)@ == before
                    },
                }
            }),
    {
        let random: u128 = random_u128();
        self.prepare_with(generation, now, unix_ms, random)
    }

    /// The connection of the owner of this generation has closed. If it is the owner still, the
    /// daemon waits for whoever has the ticket, or stops.
    pub fn disconnect(&mut self, generation: u64, now: Instant)
        ensures
            final(self)@ == old(self)@.disconnected(generation, now),
    {
        if !self.is_owner(generation) {
            return;
        }
        self.tick(now);
        self.state = match &self.state {
            State::Owned(Some(handoff)) => State::Waiting(handoff.clone()),
            _ => State::Stopped,
        };
    }
}

/// Without the ticket nobody displaces a connected owner.
pub proof fn law_owner_is_exclusive(
    ownership: OwnershipView,
    ticket: Option<Seq<char>>,
    now: Instant,
)
    requires
        ownership.state is Owned,
        forall|handoff: HandoffView|
            ownership.state == StateView::Owned(Some(handoff)) ==> ticket != Some(handoff.ticket),
    ensures
        ownership.ticked(now).obstacle(ticket) == Some(Error::LiveOwner),
        ownership.ticked(now).owned_by(ownership.generation),
{
}

/// Whoever succeeds is the owner, the one before is fenced off, and its late disconnection
/// changes nothing.
pub proof fn law_successor_fences_the_old_owner(
    ownership: OwnershipView,
    old_generation: u64,
    now: Instant,
)
    requires
        ownership.generation < u64::MAX,
        old_generation <= ownership.generation,
    ensures
        ({
            let after = ownership.succeeded();
            &&& after.owned_by(after.generation)
            &&& !after.owned_by(old_generation)
            &&& !after.ticked(now).owned_by(old_generation)
            &&& after.disconnected(old_generation, now) == after
            &&& after.generation > ownership.generation
        }),
{
}

/// A ticket is good once: after it was used, no ticket at all claims the daemon until a new one
/// has been issued.
pub proof fn law_ticket_is_used_once(
    ownership: OwnershipView,
    ticket: Option<Seq<char>>,
    now: Instant,
)
    requires
        ownership.generation < u64::MAX,
    ensures
        ownership.succeeded().ticked(now).obstacle(ticket) == Some(Error::LiveOwner),
{
}

/// An owner that leaves without a good ticket stops the daemon. One that leaves a ticket makes
/// it wait for exactly that ticket, up to the ticket's own deadline.
pub proof fn law_disconnection_waits_or_stops(
    ownership: OwnershipView,
    now: Instant,
    later: Instant,
    ticket: Option<Seq<char>>,
)
    requires
        ownership.state is Owned,
    ensures
        ({
            let after = ownership.disconnected(ownership.generation, now);
            match ownership.state {
                StateView::Owned(Some(handoff)) => if now.nanos >= handoff.deadline.nanos {
                    after.state is Stopped
                } else {
                    &&& after.state == StateView::Waiting(handoff)
                    &&& later.nanos < handoff.deadline.nanos ==> (after.ticked(later).obstacle(
                        ticket,
                    ) is None <==> ticket == Some(handoff.ticket))
                    &&& later.nanos >= handoff.deadline.nanos ==> after.ticked(
                        later,
                    ).state is Stopped
                },
                _ => after.state is Stopped,
            }
        }),
{
}

/// The passing of time takes a ticket from a connected owner but never the daemon.
pub proof fn law_expiry_spares_a_connected_owner(ownership: OwnershipView, now: Instant)
    requires
        ownership.state is Owned,
    ensures
        ownership.ticked(now).owned_by(ownership.generation),
        ownership.state matches StateView::Owned(Some(handoff)) ==> ownership.ticked(now).state == (
        if now.nanos >= handoff.deadline.nanos {
            StateView::Owned(None)
        } else {
            ownership.state
        }),
{
}

/// A daemon that was never claimed can be claimed without a ticket up to its deadline, and stops
/// at the deadline.
pub proof fn law_acquisition_is_bounded(start: Instant, now: Instant)
    requires
        start.nanos + ACQUIRE_TIMEOUT <= u64::MAX,
    ensures
        ({
            let ticked = OwnershipView::initial(start).ticked(now);
            if now.nanos < start.nanos + ACQUIRE_TIMEOUT {
                ticked == OwnershipView::initial(start) && ticked.obstacle(None) is None
            } else {
                ticked.state is Stopped
            }
        }),
{
}

/// Once there is to be no owner any more, there is none: neither time nor a claim nor a closed
/// connection changes that.
pub proof fn law_stopped_is_final(
    ownership: OwnershipView,
    now: Instant,
    ticket: Option<Seq<char>>,
    generation: u64,
)
    requires
        ownership.state is Stopped,
    ensures
        ownership.ticked(now) == ownership,
        ownership.obstacle(ticket) == Some(Error::OwnershipOver),
        ownership.disconnected(generation, now) == ownership,
        !ownership.owned_by(generation),
{
}

/// A ticket does not last longer for being asked for again: until its deadline the same ticket
/// stays, whatever the time.
pub proof fn law_ticket_is_not_renewed(
    ownership: OwnershipView,
    ticket: Seq<char>,
    issued: Instant,
    unix_ms: u64,
    now: Instant,
)
    requires
        ownership.issues(ownership.generation),
        can_issue(issued, unix_ms),
        now.nanos < issued.nanos + HANDOFF_TIMEOUT,
    ensures
        ({
            let handoff = OwnershipView::fresh(ticket, issued, unix_ms);
            let after = OwnershipView { state: StateView::Owned(Some(handoff)), ..ownership };
            &&& after.ticked(now) == after
            &&& !after.ticked(now).issues(ownership.generation)
        }),
{
}

/// The daemon can be claimed exactly without a ticket before it has had an owner, and with the
/// ticket that its owner was given, as long as neither has run out. Whoever claims it otherwise is
/// told why not.
pub proof fn law_claims_are_decided(
    before: OwnershipView,
    ticket: Option<Seq<char>>,
    now: Instant,
)
    ensures
        ({
            let obstacle = before.ticked(now).obstacle(ticket);
            match before.state {
                StateView::Starting(deadline) => if now.nanos >= deadline.nanos {
                    obstacle == Some(Error::OwnershipOver)
                } else if ticket is None {
                    obstacle is None
                } else {
                    obstacle == Some(Error::InvalidTicket)
                },
                StateView::Owned(None) => obstacle == Some(Error::LiveOwner),
                StateView::Owned(Some(handoff)) => if now.nanos < handoff.deadline.nanos && ticket
                    == Some(handoff.ticket) {
                    obstacle is None
                } else {
                    obstacle == Some(Error::LiveOwner)
                },
                StateView::Waiting(handoff) => if now.nanos >= handoff.deadline.nanos {
                    obstacle == Some(Error::OwnershipOver)
                } else if ticket == Some(handoff.ticket) {
                    obstacle is None
                } else {
                    obstacle == Some(Error::InvalidTicket)
                },
                StateView::Stopped => obstacle == Some(Error::OwnershipOver),
            }
        }),
        before.ticked(now).generation == before.generation,
{
}

/// A refused claim is answered in these words.
pub proof fn law_claims_are_refused_in_words()
    ensures
        Error::LiveOwner@ == "daemon already has a live owner"@,
        Error::OwnershipOver@ == "daemon ownership deadline expired or daemon is stopping"@,
        Error::InvalidTicket@ == "invalid handoff ticket"@,
        Error::NotOwner@ == "handoff requires the owner connection"@,
{
}

/// A successful claim makes the next owner, who has no ticket to hand on yet.
pub proof fn law_claims_succeed_once(before: OwnershipView, generation: u64)
    requires
        before.generation < u64::MAX,
    ensures
        before.succeeded().generation == before.generation + 1,
        before.succeeded().state == StateView::Owned(None),
        before.succeeded().owned_by(generation) <==> generation == before.generation + 1,
{
}

/// A connection owns the daemon exactly while somebody does and it is the latest that claimed it.
pub proof fn law_owner_is_the_latest(before: OwnershipView, generation: u64)
    ensures
        before.owned_by(generation) <==> generation == before.generation && (before.state
            matches StateView::Owned(_)),
        before.issues(generation) <==> generation == before.generation && before.state
            == StateView::Owned(None),
{
}

/// A new ticket is good for two minutes, on the clock that never goes back and on the calendar.
pub proof fn law_ticket_lasts_two_minutes(ticket: Seq<char>, now: Instant, unix_ms: u64)
    requires
        can_issue(now, unix_ms),
    ensures
        ({
            let handoff = OwnershipView::fresh(ticket, now, unix_ms);
            &&& handoff.ticket == ticket
            &&& handoff.deadline.nanos == now.nanos + 120 * 1_000_000_000
            &&& handoff.expires_at == unix_ms + 120 * 1_000
        }),
{
}

/// There is room for a ticket up to two minutes before the end of either clock.
pub proof fn law_tickets_need_room(now: Instant, unix_ms: u64)
    ensures
        can_issue(now, unix_ms) <==> now.nanos + 120 * 1_000_000_000 <= u64::MAX && unix_ms + 120
            * 1_000 <= u64::MAX,
{
}

/// A new daemon waits five seconds for its first owner, and has had none.
pub proof fn law_new_daemon_waits_five_seconds(now: Instant)
    requires
        now.nanos + 5 * 1_000_000_000 <= u64::MAX,
    ensures
        ({
            let daemon = OwnershipView::initial(now);
            &&& daemon.generation == 0
            &&& daemon.state matches StateView::Starting(deadline) && deadline.nanos == now.nanos
                + 5 * 1_000_000_000
        }),
{
}

/// The connection of an owner that closes leaves the daemon to the ticket that it was given, if
/// that is still good, else to nobody. Any other connection leaves it as it is.
pub proof fn law_closed_connection_leaves_the_ticket(
    before: OwnershipView,
    generation: u64,
    now: Instant,
)
    ensures
        ({
            let after = before.disconnected(generation, now);
            &&& after.generation == before.generation
            &&& match before.state {
                StateView::Owned(handoff) => if generation != before.generation {
                    after == before
                } else {
                    match handoff {
                        Some(h) => if now.nanos < h.deadline.nanos {
                            after.state == StateView::Waiting(h)
                        } else {
                            after.state is Stopped
                        },
                        None => after.state is Stopped,
                    }
                },
                _ => after == before,
            }
        }),
{
}

/// The passing of time alone ends the wait for an owner and nothing else, and never gives a ticket.
pub proof fn law_time_only_ends_things(before: OwnershipView, now: Instant)
    ensures
        ({
            let after = before.ticked(now);
            match before.state {
                StateView::Starting(deadline) => after.state == if now.nanos < deadline.nanos {
                    before.state
                } else {
                    StateView::Stopped
                },
                StateView::Waiting(handoff) => after.state == if now.nanos
                    < handoff.deadline.nanos {
                    before.state
                } else {
                    StateView::Stopped
                },
                StateView::Owned(Some(handoff)) => after.state == if now.nanos
                    < handoff.deadline.nanos {
                    before.state
                } else {
                    StateView::Owned(None)
                },
                _ => after.state == before.state,
            }
        }),
{
}

/// What is said of an ownership in contracts is what it holds.
pub proof fn law_ownership_shows_its_fields(ownership: Ownership, handoff: Handoff)
    ensures
        ownership@.generation == ownership.generation,
        match (ownership.state, ownership@.state) {
            (State::Starting(deadline), StateView::Starting(d)) => d == deadline,
            (State::Owned(None), StateView::Owned(None)) => true,
            (State::Owned(Some(h)), StateView::Owned(Some(v))) => v == h@,
            (State::Waiting(h), StateView::Waiting(v)) => v == h@,
            (State::Stopped, StateView::Stopped) => true,
            _ => false,
        },
        handoff@.ticket == handoff.ticket@,
        handoff@.expires_at == handoff.expires_at,
        handoff@.deadline == handoff.deadline,
{
}

} // verus!
