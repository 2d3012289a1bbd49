//! The delivery of one event to the attachments of a terminal.
use super::actor::{Event, EventView};
use super::roster::Recipient;
use crate::text::texts;
use vstd::prelude::*;

verus! {

/// What became of an event that was offered to one recipient.
#[derive(Clone, Copy, Debug, PartialEq, Eq, Structural)]
pub enum Attempt {
    /// Its guard does not exist any more.
    Gone,
    /// Its queue is closed, or full and not waited for.
    Refused,
    /// It is in the queue.
    Sent,
    /// The terminal was told to stop while there was no room.
    Stopping,
}

/// How far an event has been delivered.
pub struct Delivery {
    pub failed: Vec<String>,
    pub stopping: bool,
}

impl Delivery {
    pub fn new() -> (r: Self)
        ensures
            texts(r.failed@) == Seq::<Seq<char>>::empty(),
            !r.stopping,
    {
        let r = Delivery { failed: Vec::new(), stopping: false };
        assert(texts(r.failed@) =~= Seq::<Seq<char>>::empty());
        r
    }

    /// Notes what became of the event at one recipient; returns whether to offer it to further
    /// ones.
    pub fn record(&mut self, recipient: Recipient, attempt: Attempt) -> (proceed: bool)
        ensures
            final(self).stopping == (old(self).stopping || attempt == Attempt::Stopping),
            texts(final(self).failed@) == if attempt == Attempt::Gone || attempt
                == Attempt::Refused {
                texts(old(self).failed@).push(recipient.attachment_id@)
            } else {
                texts(old(self).failed@)
            },
            proceed == !final(self).stopping,
    {
        match attempt {
            Attempt::Gone | Attempt::Refused => {
                let ghost before = texts(self.failed@);
                let ghost id = recipient.attachment_id@;
                self.failed.push(recipient.attachment_id);
                assert(texts(self.failed@) =~= before.push(id));
            },
            Attempt::Sent => {},
            Attempt::Stopping => {
                self.stopping = true;
            },
        }
        !self.stopping
    }

    /// The outcome. `gone` are the attachments whose guard does not exist any more; `stopping`
    /// tells whether the terminal has been told to stop meanwhile.
    pub fn outcome(self, gone: Vec<String>, stopping: bool) -> (r: Event)
        ensures
            r@ == (EventView::Delivered {
                failed: texts(self.failed@).to_set(),
                gone: texts(gone@).to_set(),
                stopping: self.stopping || stopping,
            }),
    {
        Event::Delivered { failed: self.failed, gone, stopping: self.stopping || stopping }
    }
}

} // verus!
