//! The order in which a terminal takes its messages: output that arrives in quick succession
//! is taken as one piece.
use super::actor::{ActorMessage, MessageView};
use vstd::prelude::*;

verus! {

/// No more output is waited for once this much has been gathered.
pub const OUTPUT_BATCH_BYTES: usize = 8_192;

/// How long further output is waited for, in milliseconds.
pub const OUTPUT_BATCH_DELAY_MILLIS: u64 = 1;

/// What has been received and not been taken yet.
pub struct Inbox {
    /// Output that is being gathered.
    pub batch: Option<Vec<u8>>,
    /// The message that ended the gathering.
    pub pending: Option<ActorMessage>,
}

/// An `Inbox` as a mathematical value.
#[verifier::ext_equal]
pub struct InboxView {
    pub batch: Option<Seq<u8>>,
    pub pending: Option<MessageView>,
}

/// Where the next message comes from.
pub enum Fetch {
    /// There will be none.
    Disconnected,
    /// Wait for one.
    Wait,
    /// Wait for one until the delay, counted from the beginning of the batch, is over.
    WaitBriefly,
    /// Here it is.
    Take(ActorMessage),
}

/// A `Fetch` as a mathematical value.
pub enum FetchView {
    Disconnected,
    Wait,
    WaitBriefly,
    Take(MessageView),
}

/// The smallest things that messages are made of.
pub enum Token {
    Byte(u8),
    Other(MessageView),
}

/// The tokens of some output.
pub open spec fn byte_tokens(bytes: Seq<u8>) -> Seq<Token> {
    bytes.map_values(|b: u8| Token::Byte(b))
}

/// The tokens of a message: the bytes of output, or else the message itself.
pub open spec fn tokens(message: MessageView) -> Seq<Token> {
    match message {
        MessageView::Output(bytes) => byte_tokens(bytes),
        _ => seq![Token::Other(message)],
    }
}

/// The tokens that are handed on.
pub open spec fn taken(fetch: FetchView) -> Seq<Token> {
    match fetch {
        FetchView::Take(message) => tokens(message),
        _ => Seq::empty(),
    }
}

impl View for Inbox {
    type V = InboxView;

    open spec fn view(&self) -> InboxView {
        InboxView {
            batch: match self.batch {
                Some(bytes) => Some(bytes@),
                None => None,
            },
            pending: match self.pending {
                Some(message) => Some(message@),
                None => None,
            },
        }
    }
}

impl View for Fetch {
    type V = FetchView;

    open spec fn view(&self) -> FetchView {
        match self {
            Fetch::Disconnected => FetchView::Disconnected,
            Fetch::Wait => FetchView::Wait,
            Fetch::WaitBriefly => FetchView::WaitBriefly,
            Fetch::Take(message) => FetchView::Take(message@),
        }
    }
}

impl InboxView {
    /// Nothing is held.
    pub open spec fn empty() -> InboxView {
        InboxView { batch: None, pending: None }
    }

    /// The tokens that are held, in order.
    pub open spec fn held(self) -> Seq<Token> {
        match (self.batch, self.pending) {
            (Some(bytes), Some(message)) => byte_tokens(bytes) + tokens(message),
            (Some(bytes), None) => byte_tokens(bytes),
            (None, Some(message)) => tokens(message),
            (None, None) => Seq::empty(),
        }
    }

    /// Output is being gathered, which then is short of a batch and ahead of nothing.
    pub open spec fn gathers(self) -> bool {
        self.batch is Some
    }

    pub open spec fn valid(self) -> bool {
        self.batch matches Some(bytes) ==> bytes.len() < OUTPUT_BATCH_BYTES && self.pending is None
    }

    /// Output goes on gathering until there is a batch; anything else is taken as it is.
    pub open spec fn accepted(self, message: MessageView) -> (InboxView, FetchView) {
        match message {
            MessageView::Output(bytes) => if bytes.len() < OUTPUT_BATCH_BYTES {
                (InboxView { batch: Some(bytes), pending: None }, FetchView::WaitBriefly)
            } else {
                (InboxView::empty(), FetchView::Take(message))
            },
            _ => (InboxView::empty(), FetchView::Take(message)),
        }
    }

    /// The next message is wanted.
    pub open spec fn wanted(self, stopping: bool) -> (InboxView, FetchView) {
        if stopping {
            (self, FetchView::Disconnected)
        } else {
            match self.pending {
                Some(message) => self.accepted(message),
                None => (self, FetchView::Wait),
            }
        }
    }

    /// A message came, or there will be none.
    pub open spec fn received(self, message: Option<MessageView>) -> (InboxView, FetchView) {
        match message {
            Some(message) => self.accepted(message),
            None => (self, FetchView::Disconnected),
        }
    }

    /// A message came while output was gathered, or none did in time.
    pub open spec fn gathered(self, message: Option<MessageView>) -> (InboxView, FetchView) {
        let bytes = self.batch->0;
        match message {
            Some(MessageView::Output(more)) => self.accepted(MessageView::Output(bytes + more)),
            _ => (
                InboxView { batch: None, pending: message },
                FetchView::Take(MessageView::Output(bytes)),
            ),
        }
    }
}

impl Inbox {
    pub open spec fn wf(self) -> bool {
        self@.valid()
    }

    pub fn new() -> (r: Self)
        ensures
            r.wf(),
            r@ == InboxView::empty(),
    {
        Inbox { batch: None, pending: None }
    }

    fn accept(&mut self, message: ActorMessage) -> (r: Fetch)
        ensures
            final(self).wf(),
            (final(self)@, r@) == old(self)@.accepted(message@),
    {
        self.pending = None;
        self.batch = None;
        match message {
            ActorMessage::Output(bytes) => if bytes.len() < OUTPUT_BATCH_BYTES {
                self.batch = Some(bytes);
                Fetch::WaitBriefly
            } else {
                Fetch::Take(ActorMessage::Output(bytes))
            },
            other => Fetch::Take(other),
        }
    }

    /// Asks for the next message. A terminal that stops takes none.
    pub fn want(&mut self, stopping: bool) -> (r: Fetch)
        requires
            old(self).wf(),
            !old(self)@.gathers(),
        ensures
            final(self).wf(),
            (final(self)@, r@) == old(self)@.wanted(stopping),
    {
        if stopping {
            return Fetch::Disconnected;
        }
        let mut pending: Option<ActorMessage> = None;
        std::mem::swap(&mut pending, &mut self.pending);
        match pending {
            Some(message) => self.accept(message),
            None => Fetch::Wait,
        }
    }

    /// Hands in the message that was waited for; `None` where there will be none.
    pub fn receive(&mut self, message: Option<ActorMessage>) -> (r: Fetch)
        requires
            old(self)@ == InboxView::empty(),
        ensures
            final(self).wf(),
            (final(self)@, r@) == old(self)@.received(
                match message {
                    Some(message) => Some(message@),
                    None => None,
                },
            ),
    {
        match message {
            Some(message) => self.accept(message),
            None => Fetch::Disconnected,
        }
    }

    /// Hands in what came while output was gathered; `None` where nothing did in time.
    pub fn gather(&mut self, message: Option<ActorMessage>) -> (r: Fetch)
        requires
            old(self).wf(),
            old(self)@.gathers(),
        ensures
            final(self).wf(),
            (final(self)@, r@) == old(self)@.gathered(
                match message {
                    Some(message) => Some(message@),
                    None => None,
                },
            ),
    {
        let mut batch: Option<Vec<u8>> = None;
        std::mem::swap(&mut batch, &mut self.batch);
        let mut bytes: Vec<u8> = match batch {
            Some(bytes) => bytes,
            None => Vec::new(),
        };
        match message {
            Some(ActorMessage::Output(more)) => {
                let ghost before = bytes@;
                let mut more = more;
                let ghost added = more@;
                bytes.append(&mut more);
                assert(bytes@ =~= before + added);
                self.accept(ActorMessage::Output(bytes))
            },
            other => {
                self.pending = other;
                Fetch::Take(ActorMessage::Output(bytes))
            },
        }
    }
}

/// Messages are taken in the order in which they came, and nothing is lost or made up: what is
/// taken and what is still held is what was held and what came. Only the cuts between pieces
/// of output change.
pub proof fn law_batching_keeps_the_order(
    before: InboxView,
    message: Option<MessageView>,
    stopping: bool,
)
    requires
        before.valid(),
    ensures
        !before.gathers() ==> {
            let (after, fetch) = before.wanted(stopping);
            taken(fetch) + after.held() == before.held()
        },
        before == InboxView::empty() ==> {
            let (after, fetch) = before.received(message);
            taken(fetch) + after.held() == before.held() + came(message)
        },
        before.gathers() ==> {
            let (after, fetch) = before.gathered(message);
            taken(fetch) + after.held() == before.held() + came(message)
        },
{
    if !before.gathers() {
        let (after, fetch) = before.wanted(stopping);
        assert(taken(fetch) + after.held() =~= before.held());
    }
    if before == InboxView::empty() {
        let (after, fetch) = before.received(message);
        assert(taken(fetch) + after.held() =~= before.held() + came(message));
    }
    if before.gathers() {
        let (after, fetch) = before.gathered(message);
        match message {
            Some(MessageView::Output(more)) => {
                assert(byte_tokens(before.batch->0 + more) =~= byte_tokens(before.batch->0)
                    + byte_tokens(more));
            },
            _ => {},
        }
        assert(taken(fetch) + after.held() =~= before.held() + came(message));
    }
}

/// The tokens that came.
pub open spec fn came(message: Option<MessageView>) -> Seq<Token> {
    match message {
        Some(message) => tokens(message),
        None => Seq::empty(),
    }
}

/// Output goes on being gathered while it is short of eight kibibytes, and is taken once there is
/// that much, or when nothing or something else comes; anything that is not output is taken at once.
pub proof fn law_batches_have_a_size(before: InboxView, bytes: Seq<u8>, other: MessageView)
    requires
        before.valid(),
        !(other is Output),
    ensures
        before == InboxView::empty() ==> {
            &&& bytes.len() < 8192 ==> before.received(Some(MessageView::Output(bytes))).1
                == FetchView::WaitBriefly
            &&& bytes.len() >= 8192 ==> before.received(Some(MessageView::Output(bytes))).1
                == FetchView::Take(MessageView::Output(bytes))
            &&& before.received(Some(other)).1 == FetchView::Take(other)
            &&& before.received(None).1 == FetchView::Disconnected
            &&& before.wanted(false).1 == FetchView::Wait
        },
        before.batch matches Some(held) ==> {
            let all = held + bytes;
            &&& all.len() < 8192 ==> before.gathered(Some(MessageView::Output(bytes))).1
                == FetchView::WaitBriefly
            &&& all.len() >= 8192 ==> before.gathered(Some(MessageView::Output(bytes))).1
                == FetchView::Take(MessageView::Output(all))
            &&& before.gathered(Some(other)).1 == FetchView::Take(MessageView::Output(held))
            &&& before.gathered(Some(other)).0.pending == Some(other)
            &&& before.gathered(None).1 == FetchView::Take(MessageView::Output(held))
            &&& before.gathered(None).0 == InboxView::empty()
        },
        before.wanted(true).1 == FetchView::Disconnected,
        before.wanted(true).0 == before,
        before.batch is None && before.pending == Some(other) ==> before.wanted(false).1
            == FetchView::Take(other),
{
}

/// What is said of an inbox in contracts is what it holds, and so is what is fetched.
pub proof fn law_inbox_shows_what_it_holds(inbox: Inbox, fetch: Fetch)
    ensures
        inbox@.batch is Some <==> inbox.batch is Some,
        inbox.batch matches Some(bytes) ==> inbox@.batch == Some(bytes@),
        inbox@.pending is Some <==> inbox.pending is Some,
        inbox.pending matches Some(message) ==> inbox@.pending == Some(message@),
        fetch is Disconnected <==> fetch@ is Disconnected,
        fetch is Wait <==> fetch@ is Wait,
        fetch is WaitBriefly <==> fetch@ is WaitBriefly,
        fetch matches Fetch::Take(message) ==> fetch@ == FetchView::Take(message@),
{
}

} // verus!
