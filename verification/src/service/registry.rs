//! The terminals of a service by their numbers, and what may be asked of them.
use super::actor::{ActorMessage, MessageView};
use super::model::{
    CreateTerminal, TerminalId, DEFAULT_COLS, DEFAULT_ROWS, MAX_INPUT_BYTES, REPLAY_CAPACITY,
};
use crate::encoding::random_u64;
use crate::error::Error;
use crate::protocol::AttachmentRole;
use crate::text::{blank, decimal, is_blank, joined, opt_text, owned};
use std::collections::HashMap;
use std::path::PathBuf;
use vstd::prelude::*;

verus! {

/// The numbers that JSON clients can hold exactly are below this one.
pub const ID_LIMIT: u64 = 0x20_0000_0000_0000;

/// The terminals of a service, each behind a handle by which it is reached.
pub struct TerminalService<H> {
    pub terminals: HashMap<u64, H>,
    pub replay_capacity: usize,
}

impl<H> View for TerminalService<H> {
    type V = Map<u64, H>;

    open spec fn view(&self) -> Map<u64, H> {
        self.terminals@
    }
}

/// The numbers `s` are the keys of `m`, in ascending order.
pub open spec fn sorted_keys<H>(m: Map<u64, H>, s: Seq<u64>) -> bool {
    &&& forall|i: int, j: int| 0 <= i < j < s.len() ==> s[i] < s[j]
    &&& forall|k: u64| s.contains(k) <==> #[trigger] m.contains_key(k)
}

/// The number that a random number stands for.
pub open spec fn drawn(random: u64) -> u64 {
    (random % ID_LIMIT) as u64
}

/// Whether a terminal can have this size.
pub fn validate_size(cols: u16, rows: u16) -> (r: Result<(), Error>)
    ensures
        match r {
            Ok(_) => cols > 0 && rows > 0,
            Err(e) => e == Error::ZeroSize && (cols == 0 || rows == 0),
        },
{
    if cols == 0 || rows == 0 {
        Err(Error::ZeroSize)
    } else {
        Ok(())
    }
}

/// The shell to start where nothing else is asked for.
pub fn default_shell(shell: Option<String>, windows: bool) -> (r: String)
    ensures
        r@ == match shell {
            Some(shell) => shell@,
            None => if windows {
                "cmd.exe"@
            } else {
                "/bin/sh"@
            },
        },
{
    match shell {
        Some(shell) => shell,
        None => if windows {
            owned("cmd.exe")
        } else {
            owned("/bin/sh")
        },
    }
}

impl CreateTerminal {
    /// A terminal for a shell. `name` is the name of the program's file, where it has one.
    pub fn shell(program: String, name: Option<String>, cwd: PathBuf, cwd_text: &str) -> (r: Self)
        ensures
            r.program == program,
            r.args@.len() == 0,
            r.cwd == cwd,
            r.title@ == match name {
                Some(name) => name@,
                None => "shell"@,
            },
            r.group_id@ == "local:"@ + cwd_text@,
            r.env@ == Map::<String, String>::empty(),
            r.cols == 100,
            r.rows == 30,
    {
        CreateTerminal {
            program,
            args: Vec::new(),
            cwd,
            title: match name {
                Some(name) => name,
                None => owned("shell"),
            },
            group_id: joined(owned("local:"), cwd_text),
            env: HashMap::new(),
            cols: DEFAULT_COLS,
            rows: DEFAULT_ROWS,
        }
    }

    /// Whether a terminal can be made of this.
    pub fn validate(&self) -> (r: Result<(), Error>)
        ensures
            match r {
                Ok(_) => self.cols > 0 && self.rows > 0 && !is_blank(self.program@),
                Err(e) => if self.cols == 0 || self.rows == 0 {
                    e == Error::ZeroSize
                } else {
                    e == Error::EmptyProgram && is_blank(self.program@)
                },
            },
    {
        match validate_size(self.cols, self.rows) {
            Ok(_) => {},
            Err(e) => {
                return Err(e);
            },
        }
        if blank(self.program.as_str()) {
            return Err(Error::EmptyProgram);
        }
        Ok(())
    }
}

impl<H> Default for TerminalService<H> {
    fn default() -> (r: Self)
        ensures
            r@ == Map::<u64, H>::empty(),
            r.replay_capacity == 2_097_152,
    {
        TerminalService::new(REPLAY_CAPACITY)
    }
}

impl<H> TerminalService<H> {
    /// A service without terminals.
    pub fn new(replay_capacity: usize) -> (r: Self)
        ensures
            r@ == Map::<u64, H>::empty(),
            r.replay_capacity == replay_capacity,
    {
        TerminalService { terminals: HashMap::new(), replay_capacity }
    }

    /// The number that a random number stands for, if a new terminal can have it.
    fn draw_with(&self, random: u64) -> (r: Option<TerminalId>)
        ensures
            match r {
                Some(id) => id == drawn(random) && id != 0 && !self@.contains_key(id),
                None => drawn(random) == 0 || self@.contains_key(drawn(random)),
            },
    {
        broadcast use vstd::std_specs::hash::group_hash_axioms;

        let id: u64 = random & 0x1f_ffff_ffff_ffff;
        assert(id == random % 0x20_0000_0000_0000) by (bit_vector)
            requires
                id == random & 0x1f_ffff_ffff_ffffu64,
        ;
        if id != 0 && !self.terminals.contains_key(&id) {
            Some(id)
        } else {
            None
        }
    }

    /// Checks what a new terminal is to be, and takes the number that a random number stands for.
    /// Where that is not one to be had, another is to be drawn.
    pub fn create_with(&self, request: &CreateTerminal, random: u64) -> (r: Result<
        Option<TerminalId>,
        Error,
    >)
        ensures
            match r {
                Ok(id) => {
                    &&& request.cols > 0 && request.rows > 0 && !is_blank(request.program@)
                    &&& id == if drawn(random) == 0 || self@.contains_key(drawn(random)) {
                        None
                    } else {
                        Some(drawn(random))
                    }
                },
                Err(e) => if request.cols == 0 || request.rows == 0 {
                    e == Error::ZeroSize
                } else {
                    e == Error::EmptyProgram && is_blank(request.program@)
                },
            },
    {
        match request.validate() {
            Ok(_) => Ok(self.draw_with(random)),
            Err(e) => Err(e),
        }
    }

    /// Checks what a new terminal is to be, and draws a number for it. Where that is not one to be
    /// had, another is to be drawn.
    pub fn create(&self, request: &CreateTerminal) -> (r: Result<Option<TerminalId>, Error>)
        ensures
            match r {
                Ok(drawn) => {
                    &&& request.cols > 0 && request.rows > 0 && !is_blank(request.program@)
                    &&& drawn matches Some(id) ==> 0 < id < ID_LIMIT && !self@.contains_key(id)
                },
                Err(e) => if request.cols == 0 || request.rows == 0 {
                    e == Error::ZeroSize
                } else {
                    e == Error::EmptyProgram && is_blank(request.program@)
                },
            },
    {
        let random: u64 = random_u64();
        self.create_with(request, random)
    }

    /// Adds a terminal.
    pub fn insert(&mut self, id: TerminalId, handle: H)
        ensures
            final(self)@ == old(self)@.insert(id, handle),
            final(self).replay_capacity == old(self).replay_capacity,
    {
        broadcast use vstd::std_specs::hash::group_hash_axioms;

        self.terminals.insert(id, handle);
    }

    /// The handle of a terminal.
    pub fn get(&self, id: TerminalId) -> (r: Result<&H, Error>)
        ensures
            match r {
                Ok(handle) => self@.contains_key(id) && *handle == self@[id],
                Err(e) => !self@.contains_key(id) && e == (Error::TerminalNotFound { id }),
            },
    {
        broadcast use vstd::std_specs::hash::group_hash_axioms;

        match self.terminals.get(&id) {
            Some(handle) => Ok(handle),
            None => Err(Error::TerminalNotFound { id }),
        }
    }

    /// Takes a terminal out of the service; its handle is there to shut it down.
    pub fn terminate(&mut self, id: TerminalId) -> (r: Result<H, Error>)
        ensures
            final(self).replay_capacity == old(self).replay_capacity,
            match r {
                Ok(handle) => {
                    &&& old(self)@.contains_key(id)
                    &&& handle == old(self)@[id]
                    &&& final(self)@ == old(self)@.remove(id)
                },
                Err(e) => {
                    &&& !old(self)@.contains_key(id)
                    &&& e == (Error::TerminalNotFound { id })
                    &&& final(self)@ == old(self)@
                },
            },
    {
        broadcast use vstd::std_specs::hash::group_hash_axioms;

        match self.terminals.remove(&id) {
            Some(handle) => Ok(handle),
            None => {
                assert(old(self)@.remove(id) =~= old(self)@);
                Err(Error::TerminalNotFound { id })
            },
        }
    }

    /// The numbers of the terminals in ascending order, which is the order of a list of them.
    pub fn list(&self) -> (r: Vec<TerminalId>)
        ensures
            sorted_keys(self@, r@),
    {
        broadcast use vstd::std_specs::hash::group_hash_axioms;

        let mut r: Vec<u64> = Vec::new();
        for key in it: self.terminals.keys()
            invariant
                it.seq().unref().to_set() == self@.dom(),
                forall|i: int, j: int| 0 <= i < j < r@.len() ==> r@[i] < r@[j],
                forall|k: u64| r@.contains(k) <==> it.seq().unref().take(it.index()).contains(k),
                it.index() == it.seq().len() ==> forall|k: u64|
                    r@.contains(k) <==> #[trigger] self@.contains_key(k),
        {
            let ghost before = r@;
            let ghost sofar = it.seq().unref().take(it.index());
            let id: u64 = *key;
            let mut at: usize = 0;
            while at < r.len() && r[at] < id
                invariant
                    at <= r@.len(),
                    forall|j: int| 0 <= j < at ==> r@[j] < id,
                decreases r@.len() - at,
            {
                at += 1;
            }
            let known: bool = at < r.len() && r[at] == id;
            if !known {
                r.insert(at, id);
            }
            proof {
                let next = it.seq().unref().take(it.index() + 1);
                assert(next =~= sofar.push(id));
                assert forall|k: u64| r@.contains(k) <==> next.contains(k) by {
                    lemma_insert_contains(before, at as int, id, k);
                    lemma_insert_contains(sofar, sofar.len() as int, id, k);
                    assert(sofar.insert(sofar.len() as int, id) =~= sofar.push(id));
                    if known {
                        assert(before[at as int] == id);
                    }
                }
                assert(it.index() + 1 == it.seq().len() ==> next =~= it.seq().unref());
                assert forall|k: u64|
                    it.index() + 1 == it.seq().len() implies (r@.contains(k)
                    <==> #[trigger] self@.contains_key(k)) by {
                    assert(next.to_set().contains(k) <==> next.contains(k));
                }
            }
        }
        r
    }

    /// Takes all terminals out of the service, in the order of their numbers.
    pub fn shutdown(&mut self) -> (r: Vec<H>)
        ensures
            final(self)@ == Map::<u64, H>::empty(),
            final(self).replay_capacity == old(self).replay_capacity,
            exists|ids: Seq<u64>| #[trigger]
                sorted_keys(old(self)@, ids) && r@ == ids.map_values(|id: u64| old(self)@[id]),
    {
        broadcast use vstd::std_specs::hash::group_hash_axioms;

        let ids = self.list();
        let ghost all = self@;
        let mut r: Vec<H> = Vec::new();
        let mut i: usize = 0;
        assert(ids@.skip(0) =~= ids@);
        while i < ids.len()
            invariant
                i <= ids@.len(),
                self.replay_capacity == old(self).replay_capacity,
                sorted_keys(all, ids@),
                r@.len() == i,
                forall|j: int| 0 <= j < i ==> #[trigger] r@[j] == all[ids@[j]],
                forall|k: u64| #[trigger]
                    self@.contains_key(k) <==> ids@.skip(i as int).contains(k),
                forall|k: u64| #[trigger] self@.contains_key(k) ==> self@[k] == all[k],
            decreases ids@.len() - i,
        {
            let id: u64 = ids[i];
            assert(ids@.skip(i as int)[0] == id);
            let ghost before = self@;
            match self.terminals.remove(&id) {
                Some(handle) => r.push(handle),
                None => {
                    assert(false);
                },
            }
            proof {
                assert forall|k: u64| #[trigger]
                    self@.contains_key(k) <==> ids@.skip(i + 1).contains(k) by {
                    let rest = ids@.skip(i as int);
                    let next = ids@.skip(i + 1);
                    if next.contains(k) {
                        let x = choose|x: int| 0 <= x < next.len() && next[x] == k;
                        assert(rest[x + 1] == k);
                        assert(ids@[i + 1 + x] == k);
                        assert(k != id);
                        assert(before.contains_key(k));
                    }
                    if self@.contains_key(k) {
                        assert(before.contains_key(k));
                        let x = choose|x: int| 0 <= x < rest.len() && rest[x] == k;
                        assert(x != 0);
                        assert(next[x - 1] == k);
                    }
                }
            }
            i += 1;
        }
        proof {
            assert(self@ =~= Map::<u64, H>::empty()) by {
                assert forall|k: u64| !self@.contains_key(k) by {
                    assert(ids@.skip(i as int).len() == 0);
                }
            }
            assert(r@ =~= ids@.map_values(|id: u64| all[id]));
        }
        r
    }

    /// Input for a terminal from nobody in particular.
    pub fn write(&self, id: TerminalId, bytes: Vec<u8>) -> (r: Result<(&H, ActorMessage), Error>)
        ensures
            match r {
                Ok((handle, message)) => {
                    &&& bytes@.len() <= MAX_INPUT_BYTES && self@.contains_key(id)
                    &&& *handle == self@[id]
                    &&& message@ == (MessageView::Write { attachment_id: None, bytes: bytes@ })
                },
                Err(e) => if bytes@.len() > MAX_INPUT_BYTES {
                    e == Error::InputTooLarge
                } else {
                    !self@.contains_key(id) && e == (Error::TerminalNotFound { id })
                },
            },
    {
        self.write_for(id, None, bytes)
    }

    /// Input for a terminal in the name of an attachment.
    pub fn write_for(&self, id: TerminalId, attachment_id: Option<String>, bytes: Vec<u8>) -> (r:
        Result<(&H, ActorMessage), Error>)
        ensures
            match r {
                Ok((handle, message)) => {
                    &&& bytes@.len() <= MAX_INPUT_BYTES && self@.contains_key(id)
                    &&& *handle == self@[id]
                    &&& message@ == (MessageView::Write {
                        attachment_id: opt_text(attachment_id),
                        bytes: bytes@,
                    })
                },
                Err(e) => if bytes@.len() > MAX_INPUT_BYTES {
                    e == Error::InputTooLarge
                } else {
                    !self@.contains_key(id) && e == (Error::TerminalNotFound { id })
                },
            },
    {
        if bytes.len() > MAX_INPUT_BYTES {
            return Err(Error::InputTooLarge);
        }
        match self.get(id) {
            Ok(handle) => Ok((handle, ActorMessage::Write { attachment_id, bytes })),
            Err(e) => Err(e),
        }
    }

    /// A size for a terminal from nobody in particular.
    pub fn resize(&self, id: TerminalId, cols: u16, rows: u16) -> (r: Result<
        (&H, ActorMessage),
        Error,
    >)
        ensures
            match r {
                Ok((handle, message)) => {
                    &&& cols > 0 && rows > 0 && self@.contains_key(id)
                    &&& *handle == self@[id]
                    &&& message@ == (MessageView::Resize { attachment_id: None, cols, rows })
                },
                Err(e) => if cols == 0 || rows == 0 {
                    e == Error::ZeroSize
                } else {
                    !self@.contains_key(id) && e == (Error::TerminalNotFound { id })
                },
            },
    {
        self.resize_for(id, None, cols, rows)
    }

    /// A size for a terminal in the name of an attachment.
    pub fn resize_for(
        &self,
        id: TerminalId,
        attachment_id: Option<String>,
        cols: u16,
        rows: u16,
    ) -> (r: Result<(&H, ActorMessage), Error>)
        ensures
            match r {
                Ok((handle, message)) => {
                    &&& cols > 0 && rows > 0 && self@.contains_key(id)
                    &&& *handle == self@[id]
                    &&& message@ == (MessageView::Resize {
                        attachment_id: opt_text(attachment_id),
                        cols,
                        rows,
                    })
                },
                Err(e) => if cols == 0 || rows == 0 {
                    e == Error::ZeroSize
                } else {
                    !self@.contains_key(id) && e == (Error::TerminalNotFound { id })
                },
            },
    {
        match validate_size(cols, rows) {
            Ok(_) => {},
            Err(e) => {
                return Err(e);
            },
        }
        match self.get(id) {
            Ok(handle) => Ok((handle, ActorMessage::Resize { attachment_id, cols, rows })),
            Err(e) => Err(e),
        }
    }

    /// Control of a terminal for an attachment, together with its size.
    pub fn control(&self, id: TerminalId, attachment_id: String, cols: u16, rows: u16) -> (r:
        Result<(&H, ActorMessage), Error>)
        ensures
            match r {
                Ok((handle, message)) => {
                    &&& cols > 0 && rows > 0 && self@.contains_key(id)
                    &&& *handle == self@[id]
                    &&& message@ == (MessageView::Control {
                        attachment_id: attachment_id@,
                        cols,
                        rows,
                        bytes: None,
                    })
                },
                Err(e) => if cols == 0 || rows == 0 {
                    e == Error::ZeroSize
                } else {
                    !self@.contains_key(id) && e == (Error::TerminalNotFound { id })
                },
            },
    {
        match validate_size(cols, rows) {
            Ok(_) => {},
            Err(e) => {
                return Err(e);
            },
        }
        match self.get(id) {
            Ok(handle) => Ok(
                (handle, ActorMessage::Control { attachment_id, cols, rows, bytes: None }),
            ),
            Err(e) => Err(e),
        }
    }

    /// Control of a terminal for an attachment, together with its size and its input.
    pub fn input(
        &self,
        id: TerminalId,
        attachment_id: String,
        cols: u16,
        rows: u16,
        bytes: Vec<u8>,
    ) -> (r: Result<(&H, ActorMessage), Error>)
        ensures
            match r {
                Ok((handle, message)) => {
                    &&& cols > 0 && rows > 0 && bytes@.len() <= MAX_INPUT_BYTES
                        && self@.contains_key(id)
                    &&& *handle == self@[id]
                    &&& message@ == (MessageView::Control {
                        attachment_id: attachment_id@,
                        cols,
                        rows,
                        bytes: Some(bytes@),
                    })
                },
                Err(e) => if cols == 0 || rows == 0 {
                    e == Error::ZeroSize
                } else if bytes@.len() > MAX_INPUT_BYTES {
                    e == Error::InputTooLarge
                } else {
                    !self@.contains_key(id) && e == (Error::TerminalNotFound { id })
                },
            },
    {
        match validate_size(cols, rows) {
            Ok(_) => {},
            Err(e) => {
                return Err(e);
            },
        }
        if bytes.len() > MAX_INPUT_BYTES {
            return Err(Error::InputTooLarge);
        }
        match self.get(id) {
            Ok(handle) => Ok(
                (handle, ActorMessage::Control { attachment_id, cols, rows, bytes: Some(bytes) }),
            ),
            Err(e) => Err(e),
        }
    }

    /// What a terminal shows.
    pub fn snapshot(&self, id: TerminalId) -> (r: Result<(&H, ActorMessage), Error>)
        ensures
            self.asks(id, MessageView::Snapshot, r),
    {
        match self.get(id) {
            Ok(handle) => Ok((handle, ActorMessage::Snapshot)),
            Err(e) => Err(e),
        }
    }

    /// The last rows of a terminal.
    pub fn read_rows(&self, id: TerminalId, rows: Option<u16>) -> (r: Result<
        (&H, ActorMessage),
        Error,
    >)
        ensures
            self.asks(id, MessageView::ReadRows { rows }, r),
    {
        match self.get(id) {
            Ok(handle) => Ok((handle, ActorMessage::ReadRows { rows })),
            Err(e) => Err(e),
        }
    }

    /// The output of a terminal from an offset on.
    pub fn replay(&self, id: TerminalId, offset: u64) -> (r: Result<(&H, ActorMessage), Error>)
        ensures
            self.asks(id, MessageView::Replay { offset }, r),
    {
        match self.get(id) {
            Ok(handle) => Ok((handle, ActorMessage::Replay { offset })),
            Err(e) => Err(e),
        }
    }

    /// An attachment to a terminal.
    pub fn attach(
        &self,
        id: TerminalId,
        offset: u64,
        attachment_id: String,
        role: AttachmentRole,
        takeover: bool,
    ) -> (r: Result<(&H, ActorMessage), Error>)
        ensures
            self.asks(
                id,
                MessageView::Attach { offset, attachment_id: attachment_id@, role, takeover },
                r,
            ),
    {
        match self.get(id) {
            Ok(handle) => Ok(
                (handle, ActorMessage::Attach { offset, attachment_id, role, takeover }),
            ),
            Err(e) => Err(e),
        }
    }

    /// The message goes to the terminal of this number, which must exist.
    pub open spec fn asks(
        self,
        id: TerminalId,
        wanted: MessageView,
        r: Result<(&H, ActorMessage), Error>,
    ) -> bool {
        match r {
            Ok((handle, message)) => {
                &&& self@.contains_key(id)
                &&& *handle == self@[id]
                &&& message@ == wanted
            },
            Err(e) => !self@.contains_key(id) && e == (Error::TerminalNotFound { id }),
        }
    }
}

/// What a sequence holds after an insertion.
proof fn lemma_insert_contains(s: Seq<u64>, at: int, x: u64, k: u64)
    requires
        0 <= at <= s.len(),
    ensures
        s.insert(at, x).contains(k) <==> s.contains(k) || k == x,
{
    let t = s.insert(at, x);
    assert(t[at] == x);
    if s.contains(k) {
        let i = choose|i: int| 0 <= i < s.len() && s[i] == k;
        if i < at {
            assert(t[i] == k);
        } else {
            assert(t[i + 1] == k);
        }
    }
    if t.contains(k) && k != x {
        let i = choose|i: int| 0 <= i < t.len() && t[i] == k;
        if i < at {
            assert(s[i] == k);
        } else {
            assert(s[i - 1] == k);
        }
    }
}

/// The number of a new terminal is the last 53 bits of the random number.
pub proof fn law_numbers_are_exact_in_json(random: u64)
    ensures
        drawn(random) < 9_007_199_254_740_992,
        random < 9_007_199_254_740_992 ==> drawn(random) == random,
        (random - drawn(random)) % 9_007_199_254_740_992 == 0,
{
}

/// A request for a terminal reaches the handle of exactly that terminal with exactly that message,
/// and is refused where there is no such terminal.
pub proof fn law_requests_reach_their_terminal<H>(
    service: TerminalService<H>,
    id: u64,
    wanted: MessageView,
    r: Result<(&H, ActorMessage), Error>,
)
    requires
        service.asks(id, wanted, r),
    ensures
        service@.contains_key(id) ==> (r matches Ok((handle, message)) && *handle == service@[id]
            && message@ == wanted),
        !service@.contains_key(id) ==> (r matches Err(e) && e@ == "terminal "@ + decimal(id as nat)
            + " not found"@),
{
}

/// A list holds every terminal once, in ascending order.
pub proof fn law_lists_are_ascending<H>(m: Map<u64, H>, s: Seq<u64>, i: int, j: int, k: u64)
    requires
        sorted_keys(m, s),
        0 <= i < j < s.len(),
    ensures
        s[i] < s[j],
        m.contains_key(s[i]),
        m.contains_key(k) ==> s.contains(k),
{
    assert(s.contains(s[i]));
}

} // verus!
