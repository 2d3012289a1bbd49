//! What the helpers of a terminal pass on to it: the reader of its output, the writer of its
//! input, and whoever waits for its child.
use super::actor::{ActorMessage, MessageView};
use crate::error::Error;
use vstd::prelude::*;

verus! {

/// What reading the output of a child came to.
pub enum ReadOutcome {
    /// Some bytes, or none at the end.
    Bytes(Vec<u8>),
    /// Nothing; reading was interrupted.
    Interrupted,
    /// The other end of the pseudoterminal is closed.
    HungUp,
    /// Reading failed for another reason.
    Failed(String),
}

/// What the reader does next.
pub enum ReaderStep {
    Retry,
    /// Pass on the message, and read on unless it is the last.
    Pass { message: ActorMessage, last: bool },
}

/// What queueing input for a child came to.
#[derive(Clone, Copy, Debug, PartialEq, Eq, Structural)]
pub enum QueueOutcome {
    Queued,
    Stopping,
    Closed,
}

/// What the reader does with what it has read. The output has ended where reading gives no bytes
/// or the pseudoterminal is hung up.
pub fn read_step(outcome: ReadOutcome) -> (r: ReaderStep)
    ensures
        match outcome {
            ReadOutcome::Bytes(bytes) => r matches ReaderStep::Pass { message, last } && {
                &&& last == (bytes@.len() == 0)
                &&& message@ == if bytes@.len() == 0 {
                    MessageView::ReaderEof
                } else {
                    MessageView::Output(bytes@)
                }
            },
            ReadOutcome::Interrupted => r is Retry,
            ReadOutcome::HungUp => r matches ReaderStep::Pass { message, last } && last && message@
                == MessageView::ReaderEof,
            ReadOutcome::Failed(text) => r matches ReaderStep::Pass { message, last } && last
                && message@ == MessageView::ReaderFailed(text@),
        },
{
    match outcome {
        ReadOutcome::Bytes(bytes) => if bytes.len() == 0 {
            ReaderStep::Pass { message: ActorMessage::ReaderEof, last: true }
        } else {
            ReaderStep::Pass { message: ActorMessage::Output(bytes), last: false }
        },
        ReadOutcome::Interrupted => ReaderStep::Retry,
        ReadOutcome::HungUp => ReaderStep::Pass { message: ActorMessage::ReaderEof, last: true },
        ReadOutcome::Failed(text) => ReaderStep::Pass {
            message: ActorMessage::ReaderFailed(text),
            last: true,
        },
    }
}

/// Reads the output of a child and passes it on.
pub struct Reader {
    /// Whether anybody takes what is passed on.
    pub forwarding: bool,
}

impl Reader {
    pub fn new() -> (r: Self)
        ensures
            r.forwarding,
    {
        Reader { forwarding: true }
    }

    /// Whether a message is passed on: the last one always is, any other as long as somebody takes
    /// them.
    pub fn sends(&self, last: bool) -> (r: bool)
        ensures
            r == (self.forwarding || last),
    {
        self.forwarding || last
    }

    /// Notes whether a message was taken, if it was passed on; returns whether reading ends. It
    /// ends with the last message, and on Unix when nobody takes them any more. Elsewhere a console
    /// may close only once its output has been read, so reading goes on.
    pub fn sent(&mut self, last: bool, taken: bool, unix: bool) -> (ends: bool)
        ensures
            final(self).forwarding == ((old(self).forwarding || last) && taken),
            ends == (last || (unix && !final(self).forwarding)),
    {
        self.forwarding = (self.forwarding || last) && taken;
        last || (unix && !self.forwarding)
    }
}

/// Whether input was queued for the child.
pub fn queue_write(outcome: QueueOutcome) -> (r: Result<(), Error>)
    ensures
        match outcome {
            QueueOutcome::Queued => r is Ok,
            QueueOutcome::Stopping => r == Err::<(), Error>(Error::TerminalStopping),
            QueueOutcome::Closed => r == Err::<(), Error>(Error::WriterStopped),
        },
{
    match outcome {
        QueueOutcome::Queued => Ok(()),
        QueueOutcome::Stopping => Err(Error::TerminalStopping),
        QueueOutcome::Closed => Err(Error::WriterStopped),
    }
}

/// What asking for the pseudoterminal that is to be closed came to.
#[derive(Clone, Copy, Debug, PartialEq, Eq, Structural)]
pub enum CloseRequest {
    /// Here it is.
    Master,
    /// Nobody will ever hand one over.
    Disconnected,
    /// Nobody has yet.
    Timeout,
}

/// What a waiter does next.
#[derive(Clone, Copy, Debug, PartialEq, Eq, Structural)]
pub enum WaitStep {
    /// Look at the child and at the requests again.
    Again,
    /// Kill the child, which may be alive, close the pseudoterminal, report how the child ended.
    KillCloseReport,
    /// Close the pseudoterminal.
    Close,
    /// Report how the child ended.
    Report,
    /// Nothing; it is done.
    Done,
}

/// Waits for a child and closes its pseudoterminal behind it.
pub struct Waiter {
    /// Whether it has been reported how the child ended.
    pub reported: bool,
}

impl Waiter {
    pub fn new() -> (r: Self)
        ensures
            !r.reported,
    {
        Waiter { reported: false }
    }

    /// Looks at the child; returns whether to report now how it ended.
    pub fn look(&mut self, ended: bool) -> (report: bool)
        ensures
            report == (ended && !old(self).reported),
            final(self).reported == (old(self).reported || ended),
    {
        let report: bool = ended && !self.reported;
        if ended {
            self.reported = true;
        }
        report
    }

    /// Looks at the requests. Every way to end has the child reported exactly once.
    pub fn requested(&mut self, request: CloseRequest) -> (r: WaitStep)
        ensures
            r == match request {
                CloseRequest::Timeout => WaitStep::Again,
                CloseRequest::Master => if old(self).reported {
                    WaitStep::Close
                } else {
                    WaitStep::KillCloseReport
                },
                CloseRequest::Disconnected => if old(self).reported {
                    WaitStep::Done
                } else {
                    WaitStep::Report
                },
            },
            final(self).reported == (old(self).reported || request != CloseRequest::Timeout),
    {
        let before: bool = self.reported;
        match request {
            CloseRequest::Timeout => WaitStep::Again,
            CloseRequest::Master => {
                self.reported = true;
                if before {
                    WaitStep::Close
                } else {
                    WaitStep::KillCloseReport
                }
            },
            CloseRequest::Disconnected => {
                self.reported = true;
                if before {
                    WaitStep::Done
                } else {
                    WaitStep::Report
                }
            },
        }
    }
}

} // verus!
