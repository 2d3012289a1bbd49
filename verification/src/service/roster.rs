//! The attachments of a terminal, and which of them is in control.
use crate::error::Error;
use crate::protocol::AttachmentRole;
use crate::text::{copy_opt, opt_text, same, texts};
use vstd::prelude::*;

verus! {

/// One attachment.
pub struct Subscriber {
    pub attachment_id: String,
    pub role: AttachmentRole,
    /// The generation in which it last gained control, or 0.
    pub last_control: u64,
}

/// The attachments of a terminal.
pub struct Roster {
    pub subscribers: Vec<Subscriber>,
    /// Who is in control. This may name somebody who is not attached (any more).
    pub controller: Option<String>,
    /// Counts the changes of control.
    pub generation: u64,
}

/// Somebody who is to be told of an event.
pub struct Recipient {
    pub attachment_id: String,
    /// Whether to wait for room in its queue; otherwise it is dropped when there is none.
    pub wait: bool,
}

/// What is known of an attachment besides its name.
#[verifier::ext_equal]
pub struct Seat {
    pub role: AttachmentRole,
    pub last_control: u64,
}

/// A `Roster` as a mathematical value.
#[verifier::ext_equal]
pub struct RosterView {
    pub seats: Map<Seq<char>, Seat>,
    pub controller: Option<Seq<char>>,
    pub generation: u64,
}

/// The generation after `generation`; the last one is followed by itself.
pub open spec fn next_generation(generation: u64) -> u64 {
    if generation == u64::MAX {
        u64::MAX
    } else {
        (generation + 1) as u64
    }
}

/// The seats of a list of attachments; a later one replaces an earlier one of its name.
pub open spec fn seats_of(s: Seq<Subscriber>) -> Map<Seq<char>, Seat>
    decreases s.len(),
{
    if s.len() == 0 {
        Map::empty()
    } else {
        seats_of(s.drop_last()).insert(s.last().attachment_id@, s.last().seat())
    }
}

/// No two attachments have the same name.
pub open spec fn distinct(s: Seq<Subscriber>) -> bool {
    forall|i: int, j: int|
        0 <= i < j < s.len() ==> (#[trigger] s[i]).attachment_id@ != (
        #[trigger] s[j]).attachment_id@
}

/// The seat of `id` with the role of an observer, if there is such a seat.
pub open spec fn demoted(seats: Map<Seq<char>, Seat>, id: Seq<char>) -> Map<Seq<char>, Seat> {
    if seats.contains_key(id) {
        seats.insert(id, Seat { role: AttachmentRole::Observer, ..seats[id] })
    } else {
        seats
    }
}

/// Nobody gained control later than `id`.
pub open spec fn is_latest(seats: Map<Seq<char>, Seat>, id: Seq<char>) -> bool {
    &&& seats.contains_key(id)
    &&& forall|other: Seq<char>| #[trigger]
        seats.contains_key(other) ==> seats[other].last_control <= seats[id].last_control
}

impl Subscriber {
    pub open spec fn seat(self) -> Seat {
        Seat { role: self.role, last_control: self.last_control }
    }
}

impl RosterView {
    /// Only the attachment that is in control has the role of a controller, and nobody gained
    /// control in the future.
    pub open spec fn valid(self) -> bool {
        forall|id: Seq<char>| #[trigger]
            self.seats.contains_key(id) ==> {
                &&& self.seats[id].role == AttachmentRole::Controller ==> self.controller == Some(
                    id,
                )
                &&& self.seats[id].last_control <= self.generation
            }
    }

    /// Whether input in the name of `attachment_id` is accepted.
    pub open spec fn authorizes(self, attachment_id: Option<Seq<char>>) -> bool {
        self.controller == attachment_id
    }

    /// `id`, which is attached and not in control, takes control.
    pub open spec fn taken(self, id: Seq<char>) -> RosterView {
        let seats = match self.controller {
            Some(current) => demoted(self.seats, current),
            None => self.seats,
        };
        let generation = next_generation(self.generation);
        RosterView {
            seats: seats.insert(
                id,
                Seat { role: AttachmentRole::Controller, last_control: generation },
            ),
            controller: Some(id),
            generation,
        }
    }

    /// Whether `id` may attach as the controller.
    pub open spec fn admits_controller(self, id: Seq<char>, takeover: bool) -> bool {
        self.controller is None || self.controller == Some(id) || takeover
    }

    /// Control is reserved for `id`, which is about to attach.
    pub open spec fn reserved(self, id: Seq<char>) -> RosterView {
        if self.controller == Some(id) {
            self
        } else {
            RosterView {
                seats: match self.controller {
                    Some(current) => demoted(self.seats, current),
                    None => self.seats,
                },
                controller: Some(id),
                generation: next_generation(self.generation),
            }
        }
    }

    /// `id` is attached, in place of an earlier attachment of that name.
    pub open spec fn admitted(self, id: Seq<char>, role: AttachmentRole) -> RosterView {
        RosterView {
            seats: self.seats.insert(
                id,
                Seat {
                    role,
                    last_control: if role == AttachmentRole::Controller {
                        self.generation
                    } else {
                        0
                    },
                },
            ),
            ..self
        }
    }

    /// `after` is this roster once control has passed to one of the `live` attachments: to one
    /// that nobody gained control later than, or to nobody if there is none.
    pub open spec fn passes(self, live: Map<Seq<char>, Seat>, after: RosterView) -> bool {
        &&& after.generation == next_generation(self.generation)
        &&& match after.controller {
            None => live == Map::<Seq<char>, Seat>::empty() && after.seats == live,
            Some(id) => {
                &&& is_latest(live, id)
                &&& after.seats == live.insert(
                    id,
                    Seat { role: AttachmentRole::Controller, last_control: after.generation },
                )
            },
        }
    }

    /// `after` is this roster once the attachments `failed` have been removed. If that left
    /// nobody in control, the attachments `gone` are removed too, and control passes.
    pub open spec fn settles(
        self,
        failed: Set<Seq<char>>,
        gone: Set<Seq<char>>,
        after: RosterView,
    ) -> bool {
        let live = self.seats.remove_keys(failed);
        if self.loses_controller(failed) {
            self.passes(live.remove_keys(gone), after)
        } else {
            after == RosterView { seats: live, ..self }
        }
    }

    /// Whoever is in control is one of `failed`.
    pub open spec fn loses_controller(self, failed: Set<Seq<char>>) -> bool {
        self.controller is Some && failed.contains(self.controller->0)
    }
}

impl View for Roster {
    type V = RosterView;

    open spec fn view(&self) -> RosterView {
        RosterView {
            seats: seats_of(self.subscribers@),
            controller: opt_text(self.controller),
            generation: self.generation,
        }
    }
}

/// The seats of a list are those of its members.
proof fn lemma_seats(s: Seq<Subscriber>)
    requires
        distinct(s),
    ensures
        forall|i: int|
            0 <= i < s.len() ==> {
                &&& seats_of(s).contains_key((#[trigger] s[i]).attachment_id@)
                &&& seats_of(s)[s[i].attachment_id@] == s[i].seat()
            },
        forall|id: Seq<char>| #[trigger]
            seats_of(s).contains_key(id) ==> exists|i: int|
                0 <= i < s.len() && (#[trigger] s[i]).attachment_id@ == id,
    decreases s.len(),
{
    if s.len() > 0 {
        let t = s.drop_last();
        assert(forall|i: int| 0 <= i < t.len() ==> t[i] == s[i]);
        lemma_seats(t);
        assert forall|id: Seq<char>| #[trigger] seats_of(s).contains_key(id) implies exists|i: int|
            0 <= i < s.len() && (#[trigger] s[i]).attachment_id@ == id by {
            if id == s.last().attachment_id@ {
                assert(s[s.len() - 1].attachment_id@ == id);
            } else {
                let i = choose|i: int| 0 <= i < t.len() && (#[trigger] t[i]).attachment_id@ == id;
                assert(s[i].attachment_id@ == id);
            }
        }
    }
}

/// Giving one member another seat gives its name that seat.
proof fn lemma_seats_update(s: Seq<Subscriber>, i: int, x: Subscriber)
    requires
        distinct(s),
        0 <= i < s.len(),
        x.attachment_id@ == s[i].attachment_id@,
    ensures
        distinct(s.update(i, x)),
        seats_of(s.update(i, x)) == seats_of(s).insert(x.attachment_id@, x.seat()),
{
    let t = s.update(i, x);
    assert forall|a: int, b: int| 0 <= a < b < t.len() implies (#[trigger] t[a]).attachment_id@ != (
    #[trigger] t[b]).attachment_id@ by {
        assert(t[a].attachment_id@ == s[a].attachment_id@);
        assert(t[b].attachment_id@ == s[b].attachment_id@);
    }
    lemma_seats(s);
    lemma_seats(t);
    let want = seats_of(s).insert(x.attachment_id@, x.seat());
    assert forall|id: Seq<char>| seats_of(t).contains_key(id) <==> want.contains_key(id) by {
        if seats_of(t).contains_key(id) {
            let k = choose|k: int| 0 <= k < t.len() && (#[trigger] t[k]).attachment_id@ == id;
            assert(s[k].attachment_id@ == id);
        }
        if want.contains_key(id) {
            if id != x.attachment_id@ {
                let k = choose|k: int| 0 <= k < s.len() && (#[trigger] s[k]).attachment_id@ == id;
                assert(t[k].attachment_id@ == id);
            } else {
                assert(t[i].attachment_id@ == id);
            }
        }
    }
    assert forall|id: Seq<char>| seats_of(t).contains_key(id) implies seats_of(t)[id]
        == want[id] by {
        let k = choose|k: int| 0 <= k < t.len() && (#[trigger] t[k]).attachment_id@ == id;
        if k != i {
            assert(t[k] == s[k]);
            assert(s[k].attachment_id@ != s[i].attachment_id@) by {
                if k < i {
                } else {
                }
            }
            assert(seats_of(s)[s[k].attachment_id@] == s[k].seat());
        } else {
            assert(t[i] == x);
        }
    }
    assert(seats_of(t) =~= want);
}

/// Whether `id` is among `ids`.
pub fn is_among(ids: &Vec<String>, id: &str) -> (r: bool)
    ensures
        r == texts(ids@).to_set().contains(id@),
{
    let mut i: usize = 0;
    while i < ids.len()
        invariant
            i <= ids@.len(),
            forall|j: int| 0 <= j < i ==> (#[trigger] ids@[j])@ != id@,
        decreases ids@.len() - i,
    {
        if same(ids[i].as_str(), id) {
            assert(texts(ids@)[i as int] == id@);
            return true;
        }
        i += 1;
    }
    assert(!texts(ids@).contains(id@)) by {
        if texts(ids@).contains(id@) {
            let j = choose|j: int| 0 <= j < texts(ids@).len() && texts(ids@)[j] == id@;
            assert(ids@[j]@ == id@);
        }
    }
    false
}

impl Roster {
    pub open spec fn wf(self) -> bool {
        &&& distinct(self.subscribers@)
        &&& self@.valid()
    }

    /// Nobody is attached, and nobody has ever been in control.
    pub fn new() -> (r: Self)
        ensures
            r.wf(),
            r@ == (RosterView { seats: Map::empty(), controller: None, generation: 0 }),
    {
        let r = Roster { subscribers: Vec::new(), controller: None, generation: 0 };
        assert(r@.seats =~= Map::empty());
        r
    }

    /// Where in the list `id` stands.
    fn find(&self, id: &str) -> (r: Option<usize>)
        requires
            distinct(self.subscribers@),
        ensures
            match r {
                Some(i) => {
                    &&& i < self.subscribers@.len()
                    &&& self.subscribers@[i as int].attachment_id@ == id@
                    &&& self@.seats.contains_key(id@)
                    &&& self@.seats[id@] == self.subscribers@[i as int].seat()
                },
                None => {
                    &&& !self@.seats.contains_key(id@)
                    &&& forall|j: int|
                        0 <= j < self.subscribers@.len() ==> (
                        #[trigger] self.subscribers@[j]).attachment_id@ != id@
                },
            },
    {
        proof {
            lemma_seats(self.subscribers@);
        }
        let mut i: usize = 0;
        while i < self.subscribers.len()
            invariant
                i <= self.subscribers@.len(),
                forall|j: int|
                    0 <= j < i ==> (#[trigger] self.subscribers@[j]).attachment_id@ != id@,
                forall|j: int|
                    0 <= j < self.subscribers@.len() ==> {
                        &&& self@.seats.contains_key((#[trigger] self.subscribers@[j]).attachment_id@)
                        &&& self@.seats[self.subscribers@[j].attachment_id@]
                            == self.subscribers@[j].seat()
                    },
            decreases self.subscribers@.len() - i,
        {
            if same(self.subscribers[i].attachment_id.as_str(), id) {
                return Some(i);
            }
            i += 1;
        }
        None
    }

    /// Whether `id` is attached.
    pub fn is_subscribed(&self, id: &str) -> (r: bool)
        requires
            self.wf(),
        ensures
            r == self@.seats.contains_key(id@),
    {
        self.find(id).is_some()
    }

    /// Whether `id` is in control.
    pub fn is_controller(&self, id: &str) -> (r: bool)
        ensures
            r == (self@.controller == Some(id@)),
    {
        match &self.controller {
            Some(current) => same(current.as_str(), id),
            None => false,
        }
    }

    /// Whether input in the name of `attachment_id` is accepted: from whoever is in control,
    /// and from nobody in particular while nobody is.
    pub fn authorize_controller(&self, attachment_id: &Option<String>) -> (r: Result<(), Error>)
        ensures
            match r {
                Ok(_) => self@.authorizes(opt_text(*attachment_id)),
                Err(e) => {
                    &&& !self@.authorizes(opt_text(*attachment_id))
                    &&& match attachment_id {
                        None => e == Error::RequiresController,
                        Some(id) => e == (Error::NotController { attachment_id: *id }),
                    }
                },
            },
    {
        match attachment_id {
            None => if self.controller.is_none() {
                Ok(())
            } else {
                Err(Error::RequiresController)
            },
            Some(id) => if self.is_controller(id.as_str()) {
                Ok(())
            } else {
                Err(Error::NotController { attachment_id: id.clone() })
            },
        }
    }

    /// Gives `id` another seat, if it has one.
    fn set_seat(&mut self, id: &str, role: AttachmentRole, last_control: Option<u64>)
        requires
            distinct(old(self).subscribers@),
        ensures
            distinct(final(self).subscribers@),
            final(self)@ == (RosterView {
                seats: if old(self)@.seats.contains_key(id@) {
                    old(self)@.seats.insert(
                        id@,
                        Seat {
                            role,
                            last_control: match last_control {
                                Some(n) => n,
                                None => old(self)@.seats[id@].last_control,
                            },
                        },
                    )
                } else {
                    old(self)@.seats
                },
                ..old(self)@
            }),
    {
        match self.find(id) {
            Some(i) => {
                let ghost before = self.subscribers@;
                let kept = self.subscribers[i].attachment_id.clone();
                let since: u64 = match last_control {
                    Some(n) => n,
                    None => self.subscribers[i].last_control,
                };
                let changed = Subscriber { attachment_id: kept, role, last_control: since };
                proof {
                    lemma_seats_update(before, i as int, changed);
                }
                self.subscribers.set(i, changed);
            },
            None => {},
        }
    }

    /// Makes an observer of whoever is in control.
    fn demote(&mut self)
        requires
            distinct(old(self).subscribers@),
        ensures
            distinct(final(self).subscribers@),
            final(self)@ == (RosterView {
                seats: match old(self)@.controller {
                    Some(current) => demoted(old(self)@.seats, current),
                    None => old(self)@.seats,
                },
                ..old(self)@
            }),
    {
        match copy_opt(&self.controller) {
            Some(current) => self.set_seat(current.as_str(), AttachmentRole::Observer, None),
            None => {},
        }
    }

    fn advance(&mut self)
        ensures
            final(self).subscribers == old(self).subscribers,
            final(self).controller == old(self).controller,
            final(self).generation == next_generation(old(self).generation),
    {
        if self.generation < u64::MAX {
            self.generation = self.generation + 1;
        }
    }

    /// `id`, which is attached, takes control.
    pub fn take_control(&mut self, id: &String)
        requires
            old(self).wf(),
            old(self)@.seats.contains_key(id@),
            old(self)@.controller != Some(id@),
        ensures
            final(self).wf(),
            final(self)@ == old(self)@.taken(id@),
    {
        self.demote();
        self.advance();
        self.controller = Some(id.clone());
        let generation: u64 = self.generation;
        self.set_seat(id.as_str(), AttachmentRole::Controller, Some(generation));
    }

    /// Reserves control for `id`, which is about to attach, unless somebody else has it who is
    /// not to be displaced.
    pub fn reserve_control(&mut self, id: &String, takeover: bool) -> (r: Result<(), Error>)
        requires
            old(self).wf(),
        ensures
            final(self).wf(),
            match r {
                Ok(_) => {
                    &&& old(self)@.admits_controller(id@, takeover)
                    &&& final(self)@ == old(self)@.reserved(id@)
                },
                Err(e) => {
                    &&& !old(self)@.admits_controller(id@, takeover)
                    &&& final(self)@ == old(self)@
                    &&& e matches Error::HasController { current } && Some(current@) == old(
                        self,
                    )@.controller
                },
            },
    {
        if self.is_controller(id.as_str()) {
            return Ok(());
        }
        match copy_opt(&self.controller) {
            Some(current) => {
                if !takeover {
                    return Err(Error::HasController { current });
                }
            },
            None => {},
        }
        self.demote();
        self.advance();
        self.controller = Some(id.clone());
        Ok(())
    }

    /// Attaches `id`, in place of an earlier attachment of that name. A controller attaches
    /// once control has been reserved for it.
    pub fn enroll(&mut self, id: &String, role: AttachmentRole)
        requires
            old(self).wf(),
            role == AttachmentRole::Controller ==> old(self)@.controller == Some(id@),
        ensures
            final(self).wf(),
            final(self)@ == old(self)@.admitted(id@, role),
    {
        let since: u64 = if role == AttachmentRole::Controller {
            self.generation
        } else {
            0
        };
        if self.find(id.as_str()).is_some() {
            self.set_seat(id.as_str(), role, Some(since));
        } else {
            let ghost before = self.subscribers@;
            self.subscribers.push(
                Subscriber { attachment_id: id.clone(), role, last_control: since },
            );
            assert(self.subscribers@.drop_last() =~= before);
        }
    }

    /// Removes the attachments `ids`.
    fn remove_all(&mut self, ids: &Vec<String>)
        requires
            distinct(old(self).subscribers@),
        ensures
            distinct(final(self).subscribers@),
            final(self)@ == (RosterView {
                seats: old(self)@.seats.remove_keys(texts(ids@).to_set()),
                ..old(self)@
            }),
    {
        let ghost all = self.subscribers@;
        let ghost set = texts(ids@).to_set();
        let mut kept: Vec<Subscriber> = Vec::new();
        let mut i: usize = 0;
        assert(all.take(0) =~= Seq::empty());
        assert(seats_of(kept@) =~= seats_of(all.take(0)).remove_keys(set));
        while i < self.subscribers.len()
            invariant
                i <= all.len(),
                self.subscribers@ == all,
                *self == *old(self),
                distinct(all),
                set == texts(ids@).to_set(),
                distinct(kept@),
                seats_of(kept@) == seats_of(all.take(i as int)).remove_keys(set),
                forall|j: int|
                    0 <= j < kept@.len() ==> exists|k: int|
                        0 <= k < i && (#[trigger] all[k]).attachment_id@ == (
                        #[trigger] kept@[j]).attachment_id@,
            decreases all.len() - i,
        {
            let ghost before = kept@;
            proof {
                assert(all.take(i + 1).drop_last() =~= all.take(i as int));
                assert(all.take(i + 1).last() == all[i as int]);
            }
            if !is_among(ids, self.subscribers[i].attachment_id.as_str()) {
                let x = Subscriber {
                    attachment_id: self.subscribers[i].attachment_id.clone(),
                    role: self.subscribers[i].role,
                    last_control: self.subscribers[i].last_control,
                };
                kept.push(x);
                proof {
                    assert(kept@.drop_last() =~= before);
                    assert(seats_of(kept@) =~= seats_of(all.take(i + 1)).remove_keys(set));
                    assert forall|j: int| 0 <= j < kept@.len() implies exists|k: int|
                        0 <= k < i + 1 && (#[trigger] all[k]).attachment_id@ == (
                        #[trigger] kept@[j]).attachment_id@ by {
                        if j < before.len() {
                            assert(kept@[j] == before[j]);
                            let k = choose|k: int|
                                0 <= k < i && (#[trigger] all[k]).attachment_id@
                                    == before[j].attachment_id@;
                            assert(all[k].attachment_id@ == kept@[j].attachment_id@);
                        } else {
                            assert(all[i as int].attachment_id@ == kept@[j].attachment_id@);
                        }
                    }
                    assert forall|a: int, b: int| 0 <= a < b < kept@.len() implies (
                    #[trigger] kept@[a]).attachment_id@ != (#[trigger] kept@[b]).attachment_id@ by {
                        assert(kept@[a] == before[a]);
                        if b == before.len() {
                            let k = choose|k: int|
                                0 <= k < i && (#[trigger] all[k]).attachment_id@
                                    == before[a].attachment_id@;
                            assert(all[k].attachment_id@ != all[i as int].attachment_id@);
                        } else {
                            assert(kept@[b] == before[b]);
                        }
                    }
                }
            } else {
                assert(seats_of(kept@) =~= seats_of(all.take(i + 1)).remove_keys(set));
            }
            i += 1;
        }
        assert(all.take(i as int) =~= all);
        self.subscribers = kept;
    }

    /// Passes control to somebody who gained it last, if anybody is attached.
    fn promote_latest(&mut self)
        requires
            distinct(old(self).subscribers@),
        ensures
            distinct(final(self).subscribers@),
            final(self)@.generation == old(self)@.generation,
            match final(self)@.controller {
                None => old(self)@.seats == Map::<Seq<char>, Seat>::empty() && final(self)@.seats
                    == old(self)@.seats,
                Some(id) => {
                    &&& is_latest(old(self)@.seats, id)
                    &&& final(self)@.seats == old(self)@.seats.insert(
                        id,
                        Seat {
                            role: AttachmentRole::Controller,
                            last_control: old(self)@.generation,
                        },
                    )
                },
            },
    {
        if self.subscribers.len() == 0 {
            self.controller = None;
            assert(self@.seats =~= Map::empty());
            return;
        }
        let mut best: usize = 0;
        let mut i: usize = 1;
        while i < self.subscribers.len()
            invariant
                1 <= i <= self.subscribers@.len(),
                best < i,
                forall|j: int|
                    0 <= j < i ==> (#[trigger] self.subscribers@[j]).last_control
                        <= self.subscribers@[best as int].last_control,
            decreases self.subscribers@.len() - i,
        {
            if self.subscribers[i].last_control >= self.subscribers[best].last_control {
                best = i;
            }
            i += 1;
        }
        let id = self.subscribers[best].attachment_id.clone();
        proof {
            lemma_seats(self.subscribers@);
            assert forall|other: Seq<char>| #[trigger]
                self@.seats.contains_key(other) implies self@.seats[other].last_control
                <= self@.seats[id@].last_control by {
                let k = choose|k: int|
                    0 <= k < self.subscribers@.len() && (
                    #[trigger] self.subscribers@[k]).attachment_id@ == other;
                assert(self@.seats[other] == self.subscribers@[k].seat());
            }
        }
        let generation: u64 = self.generation;
        self.set_seat(id.as_str(), AttachmentRole::Controller, Some(generation));
        self.controller = Some(id);
    }

    /// Removes the attachments that an event could not be delivered to. If that leaves nobody
    /// in control, control passes to one that is not `gone` either; returns whether it did.
    pub fn settle(&mut self, failed: &Vec<String>, gone: &Vec<String>) -> (passed: bool)
        requires
            old(self).wf(),
        ensures
            final(self).wf(),
            old(self)@.settles(texts(failed@).to_set(), texts(gone@).to_set(), final(self)@),
            passed == old(self)@.loses_controller(texts(failed@).to_set()),
    {
        let lost = match &self.controller {
            Some(current) => is_among(failed, current.as_str()),
            None => false,
        };
        self.remove_all(failed);
        if lost {
            self.remove_all(gone);
            self.advance();
            self.promote_latest();
        }
        lost
    }

    /// Removes the attachment `id`, if there is one and its guard is `gone`: a newer attachment
    /// of the same name stays. If that leaves nobody in control, control passes; returns
    /// whether it did.
    pub fn detach(&mut self, id: &String, gone: &Vec<String>) -> (passed: bool)
        requires
            old(self).wf(),
        ensures
            final(self).wf(),
            ({
                let leaves = old(self)@.seats.contains_key(id@) && texts(gone@).to_set().contains(
                    id@,
                );
                &&& leaves ==> old(self)@.settles(set![id@], texts(gone@).to_set(), final(self)@)
                &&& !leaves ==> final(self)@ == old(self)@
                &&& passed == (leaves && old(self)@.controller == Some(id@))
            }),
    {
        if !self.is_subscribed(id.as_str()) || !is_among(gone, id.as_str()) {
            return false;
        }
        let mut leaving: Vec<String> = Vec::new();
        leaving.push(id.clone());
        proof {
            assert(texts(leaving@) =~= seq![id@]);
            assert(texts(leaving@).to_set() =~= set![id@]) by {
                assert(texts(leaving@)[0] == id@);
            }
        }
        self.settle(&leaving, gone)
    }

    /// Who is to be told of an event: everybody, waiting only for whoever is in control.
    pub fn recipients(&self) -> (r: Vec<Recipient>)
        requires
            self.wf(),
        ensures
            forall|i: int|
                0 <= i < r@.len() ==> {
                    &&& self@.seats.contains_key((#[trigger] r@[i]).attachment_id@)
                    &&& r@[i].wait == (self@.seats[r@[i].attachment_id@].role
                        == AttachmentRole::Controller)
                },
            forall|i: int, j: int|
                0 <= i < j < r@.len() ==> (#[trigger] r@[i]).attachment_id@ != (
                #[trigger] r@[j]).attachment_id@,
            forall|id: Seq<char>| #[trigger]
                self@.seats.contains_key(id) ==> exists|i: int|
                    0 <= i < r@.len() && (#[trigger] r@[i]).attachment_id@ == id,
    {
        let mut r: Vec<Recipient> = Vec::new();
        let mut i: usize = 0;
        while i < self.subscribers.len()
            invariant
                i <= self.subscribers@.len(),
                r@.len() == i,
                forall|j: int|
                    0 <= j < i ==> {
                        &&& (#[trigger] r@[j]).attachment_id@ == self.subscribers@[j].attachment_id@
                        &&& r@[j].wait == (self.subscribers@[j].role == AttachmentRole::Controller)
                    },
            decreases self.subscribers@.len() - i,
        {
            r.push(
                Recipient {
                    attachment_id: self.subscribers[i].attachment_id.clone(),
                    wait: self.subscribers[i].role == AttachmentRole::Controller,
                },
            );
            i += 1;
        }
        proof {
            lemma_seats(self.subscribers@);
            assert forall|i: int| 0 <= i < r@.len() implies {
                &&& self@.seats.contains_key((#[trigger] r@[i]).attachment_id@)
                &&& r@[i].wait == (self@.seats[r@[i].attachment_id@].role
                    == AttachmentRole::Controller)
            } by {
                assert(r@[i].attachment_id@ == self.subscribers@[i].attachment_id@);
            }
            assert forall|i: int, j: int| 0 <= i < j < r@.len() implies (
            #[trigger] r@[i]).attachment_id@ != (#[trigger] r@[j]).attachment_id@ by {
                assert(self.subscribers@[i].attachment_id@ != self.subscribers@[j].attachment_id@);
            }
            assert forall|id: Seq<char>| #[trigger]
                self@.seats.contains_key(id) implies exists|i: int|
                0 <= i < r@.len() && (#[trigger] r@[i]).attachment_id@ == id by {
                let k = choose|k: int|
                    0 <= k < self.subscribers@.len() && (
                    #[trigger] self.subscribers@[k]).attachment_id@ == id;
                assert(r@[k].attachment_id@ == id);
            }
        }
        r
    }
}

/// Whatever happens to a valid roster leaves it valid.
pub proof fn law_roster_stays_valid(roster: RosterView)
    requires
        roster.valid(),
    ensures
        forall|id: Seq<char>| (#[trigger] roster.taken(id)).valid(),
        forall|id: Seq<char>| (#[trigger] roster.reserved(id)).valid(),
        forall|id: Seq<char>, role: AttachmentRole|
            role == AttachmentRole::Controller ==> roster.controller == Some(id) ==> (
            #[trigger] roster.admitted(id, role)).valid(),
        forall|failed: Set<Seq<char>>, gone: Set<Seq<char>>, after: RosterView| #[trigger]
            roster.settles(failed, gone, after) ==> after.valid(),
{
}

/// At most one attachment has the role of the controller.
pub proof fn law_one_controller(roster: RosterView, a: Seq<char>, b: Seq<char>)
    requires
        roster.valid(),
        roster.seats.contains_key(a),
        roster.seats.contains_key(b),
        roster.seats[a].role == AttachmentRole::Controller,
        roster.seats[b].role == AttachmentRole::Controller,
    ensures
        a == b,
        roster.controller == Some(a),
{
}

/// Whoever takes control has it, in a later generation, and whoever had it is an observer; the
/// others keep their seats.
pub proof fn law_control_is_taken(roster: RosterView, id: Seq<char>)
    requires
        roster.valid(),
        roster.seats.contains_key(id),
        roster.controller != Some(id),
    ensures
        ({
            let after = roster.taken(id);
            &&& after.authorizes(Some(id))
            &&& forall|other: Option<Seq<char>>| other != Some(id) ==> !(
            #[trigger] after.authorizes(other))
            &&& after.seats[id].role == AttachmentRole::Controller
            &&& forall|other: Seq<char>| #[trigger]
                roster.seats.contains_key(other) && other != id ==> {
                    &&& after.seats.contains_key(other)
                    &&& after.seats[other].role == AttachmentRole::Observer
                    &&& after.seats[other].last_control == roster.seats[other].last_control
                }
            &&& after.seats.dom() == roster.seats.dom()
            &&& roster.generation < u64::MAX ==> after.generation == roster.generation + 1
        }),
{
    assert(roster.taken(id).seats.dom() =~= roster.seats.dom());
}

/// Attachments that failed are removed before control passes, so that none of them gains it,
/// and neither does one that is gone. Nobody else leaves, and the others keep their seats.
pub proof fn law_control_passes_to_the_living(
    roster: RosterView,
    failed: Set<Seq<char>>,
    gone: Set<Seq<char>>,
    after: RosterView,
)
    requires
        roster.valid(),
        roster.settles(failed, gone, after),
    ensures
        forall|id: Seq<char>| #[trigger] failed.contains(id) ==> !after.seats.contains_key(id),
        forall|id: Seq<char>| #[trigger]
            after.seats.contains_key(id) ==> roster.seats.contains_key(id),
        forall|id: Seq<char>| #[trigger]
            roster.seats.contains_key(id) && !failed.contains(id) && !gone.contains(id)
                ==> after.seats.contains_key(id),
        !roster.loses_controller(failed) ==> after.controller == roster.controller
            && after.generation == roster.generation,
        roster.loses_controller(failed) ==> {
            &&& after.controller matches Some(id) ==> {
                &&& after.seats.contains_key(id)
                &&& after.seats[id].role == AttachmentRole::Controller
                &&& !failed.contains(id)
                &&& !gone.contains(id)
                &&& forall|other: Seq<char>| #[trigger]
                    after.seats.contains_key(other) ==> roster.seats[other].last_control
                        <= roster.seats[id].last_control
            }
            &&& after.controller is None ==> forall|id: Seq<char>|
                !(#[trigger] after.seats.contains_key(id))
        },
{
}

/// What is said of attachments in contracts is what the list holds: each of them has the seat that
/// its entry gives, and nobody else has one.
pub proof fn law_roster_shows_its_list(roster: Roster, i: int, id: Seq<char>)
    requires
        roster.wf(),
    ensures
        roster@.generation == roster.generation,
        roster@.controller is Some <==> roster.controller is Some,
        roster.controller matches Some(name) ==> roster@.controller == Some(name@),
        0 <= i < roster.subscribers@.len() ==> {
            let entry = roster.subscribers@[i];
            &&& roster@.seats.contains_key(entry.attachment_id@)
            &&& roster@.seats[entry.attachment_id@].role == entry.role
            &&& roster@.seats[entry.attachment_id@].last_control == entry.last_control
        },
        roster@.seats.contains_key(id) ==> exists|j: int|
            0 <= j < roster.subscribers@.len() && (
            #[trigger] roster.subscribers@[j]).attachment_id@ == id,
{
    lemma_seats(roster.subscribers@);
}

/// Input is accepted from whoever is in control, and while nobody is, from nobody in particular.
pub proof fn law_input_is_accepted_from_control(roster: RosterView, id: Seq<char>)
    ensures
        roster.authorizes(Some(id)) <==> roster.controller == Some(id),
        roster.authorizes(None) <==> roster.controller is None,
        roster.loses_controller(set![id]) <==> roster.controller == Some(id),
{
}

/// Control may be asked for while nobody else has it, or by taking it over. It is then kept for
/// whoever asked, in the next generation, and whoever had it is an observer; nobody gains or loses
/// a seat.
pub proof fn law_control_is_reserved(
    roster: RosterView,
    id: Seq<char>,
    takeover: bool,
    other: Seq<char>,
)
    requires
        roster.valid(),
    ensures
        roster.admits_controller(id, true),
        roster.controller is None ==> roster.admits_controller(id, takeover),
        roster.controller == Some(id) ==> roster.admits_controller(id, takeover),
        roster.controller is Some && roster.controller != Some(id) ==> !roster.admits_controller(
            id,
            false,
        ),
        roster.controller == Some(id) ==> roster.reserved(id) == roster,
        roster.controller != Some(id) ==> {
            let after = roster.reserved(id);
            &&& after.controller == Some(id)
            &&& after.generation == if roster.generation < u64::MAX {
                roster.generation + 1
            } else {
                u64::MAX as int
            }
            &&& after.seats.contains_key(other) <==> roster.seats.contains_key(other)
            &&& roster.seats.contains_key(other) ==> {
                &&& after.seats[other].role == AttachmentRole::Observer
                &&& after.seats[other].last_control == roster.seats[other].last_control
            }
        },
{
}

/// Whoever attaches has a seat in the role that was asked for. A controller has control as of this
/// generation, an observer never had it; the others keep their seats.
pub proof fn law_attachment_has_its_seat(
    roster: RosterView,
    id: Seq<char>,
    role: AttachmentRole,
    other: Seq<char>,
)
    ensures
        ({
            let after = roster.admitted(id, role);
            &&& after.seats.contains_key(id)
            &&& after.seats[id].role == role
            &&& role == AttachmentRole::Controller ==> after.seats[id].last_control
                == roster.generation
            &&& role == AttachmentRole::Observer ==> after.seats[id].last_control == 0
            &&& after.controller == roster.controller
            &&& after.generation == roster.generation
            &&& other != id ==> {
                &&& after.seats.contains_key(other) <==> roster.seats.contains_key(other)
                &&& after.seats[other] == roster.seats[other]
            }
        }),
{
}

/// Control that was lost passes in the next generation, in which the new controller has gained it;
/// whoever neither failed nor gains control keeps the seat as it was.
pub proof fn law_control_passes_in_the_next_generation(
    roster: RosterView,
    failed: Set<Seq<char>>,
    gone: Set<Seq<char>>,
    after: RosterView,
    other: Seq<char>,
)
    requires
        roster.valid(),
        roster.settles(failed, gone, after),
    ensures
        roster.loses_controller(failed) ==> {
            &&& after.generation == if roster.generation < u64::MAX {
                roster.generation + 1
            } else {
                u64::MAX as int
            }
            &&& after.controller matches Some(id) ==> after.seats[id].last_control
                == after.generation
            &&& gone.contains(other) ==> !after.seats.contains_key(other)
        },
        !roster.loses_controller(failed) && roster.seats.contains_key(other) && !failed.contains(
            other,
        ) ==> after.seats.contains_key(other),
        after.seats.contains_key(other) && !(roster.loses_controller(failed) && after.controller
            == Some(other)) ==> after.seats[other] == roster.seats[other],
{
}

} // verus!
