//! A client of the daemon: what it asks, and what it makes of the answers.
use crate::daemon::server::{answers_attachment, carries, dispatched, responded, Call, Outcome};
use crate::daemon::Registration;
use crate::encoding::{
    base64_bytes, decode_base64, encodable, encode_base64, random_u64,
};
use crate::error::{Base64Context, Base64Error, Error};
use crate::protocol::{
    AttachmentRole, Envelope, Request, Response, SubscriptionEvent, PROTOCOL_VERSION,
};
use crate::service::model::{
    CreateTerminal, RawReplay, TerminalId, TerminalInfo, TerminalRows, TerminalSnapshot,
};
use crate::text::{
    decimal, decimal_text, hexadecimal, hexadecimal_text, joined, owned, same,
};
use vstd::prelude::*;

pub mod command;

verus! {

/// What a terminal shows, as the daemon told it.
#[derive(Debug)]
pub struct RemoteSnapshot {
    pub terminal: TerminalInfo,
    pub text: String,
    pub checkpoint: Vec<u8>,
    pub cursor_x: u16,
    pub cursor_y: u16,
}

/// Output of a terminal, again, as the daemon told it.
#[derive(Debug)]
pub struct RemoteReplay {
    pub requested_offset: u64,
    pub available_offset: u64,
    pub end_offset: u64,
    pub truncated: bool,
    pub bytes: Vec<u8>,
}

/// An attachment to a terminal, as the daemon granted it.
#[derive(Debug)]
pub struct TerminalSubscription {
    pub terminal: TerminalInfo,
    pub role: AttachmentRole,
    pub generation: u64,
    pub replay: RemoteReplay,
}

/// Why a request did not come to what was asked.
#[derive(Debug)]
pub enum ClientError {
    Error(Error),
    /// The daemon answered something else.
    Unexpected(Box<Response>),
}

/// A client of a daemon.
pub struct TerminalClient {
    pub registration: Registration,
}

/// What is done while a started daemon is waited for.
pub enum StartStep {
    /// Connect to it.
    Connect(Registration),
    /// Look again in a while.
    Sleep,
    GiveUp(Error),
}

/// What is done while a daemon that was told to stop is waited for.
#[derive(Clone, Copy, Debug, PartialEq, Eq, Structural)]
pub enum StopStep {
    /// It is gone.
    Stopped,
    /// Look again in a while.
    Sleep,
    GiveUp,
}

/// What is done with what a watched terminal sends.
pub enum WatchStep {
    /// Show the output.
    Show(Vec<u8>),
    /// The terminal has ended.
    Ended(Option<u32>),
    /// The terminal has another size.
    Resized { cols: u16, rows: u16 },
    Ignore,
}

/// An answer that was not hoped for: an error is one, and anything else is unexpected.
pub open spec fn fails(response: Response, error: ClientError) -> bool {
    match response {
        Response::Error { message } => error == ClientError::Error(Error::Failed { message }),
        other => error matches ClientError::Unexpected(boxed) && *boxed == other,
    }
}

/// The text is not base64.
pub open spec fn bad_text(text: Seq<char>, context: Base64Context, error: ClientError) -> bool {
    error matches ClientError::Error(Error::InvalidBase64 { what, fault }) && what == context
        && base64_bytes(text) == Err::<Seq<u8>, Base64Error>(fault)
}

/// What a client makes of an answer that should tell what a terminal shows.
pub open spec fn reads_snapshot(
    response: Response,
    r: Result<RemoteSnapshot, ClientError>,
) -> bool {
    match response {
        Response::Snapshot { terminal, text, checkpoint_base64, cursor_x, cursor_y } => {
            match r {
                Ok(snapshot) => {
                    &&& base64_bytes(checkpoint_base64@) == Ok::<Seq<u8>, Base64Error>(
                        snapshot.checkpoint@,
                    )
                    &&& snapshot.terminal == terminal
                    &&& snapshot.text == text
                    &&& snapshot.cursor_x == cursor_x
                    &&& snapshot.cursor_y == cursor_y
                },
                Err(e) => bad_text(checkpoint_base64@, Base64Context::Checkpoint, e),
            }
        },
        other => r matches Err(e) && fails(other, e),
    }
}

/// What a client makes of an answer that should hold output.
pub open spec fn reads_replay(response: Response, r: Result<RemoteReplay, ClientError>) -> bool {
    match response {
        Response::Replay {
            requested_offset,
            available_offset,
            end_offset,
            truncated,
            data_base64,
        } => match r {
            Ok(replay) => {
                &&& base64_bytes(data_base64@) == Ok::<Seq<u8>, Base64Error>(replay.bytes@)
                &&& replay.requested_offset == requested_offset
                &&& replay.available_offset == available_offset
                &&& replay.end_offset == end_offset
                &&& replay.truncated == truncated
            },
            Err(e) => bad_text(data_base64@, Base64Context::Replay, e),
        },
        other => r matches Err(e) && fails(other, e),
    }
}

/// What a client makes of an answer that should grant an attachment.
pub open spec fn reads_attachment(
    response: Response,
    r: Result<TerminalSubscription, ClientError>,
) -> bool {
    match response {
        Response::Attached {
            terminal,
            role,
            generation,
            requested_offset,
            available_offset,
            end_offset,
            truncated,
            replay_base64,
        } => match r {
            Ok(subscription) => {
                &&& base64_bytes(replay_base64@) == Ok::<Seq<u8>, Base64Error>(
                    subscription.replay.bytes@,
                )
                &&& subscription.terminal == terminal
                &&& subscription.role == role
                &&& subscription.generation == generation
                &&& subscription.replay.requested_offset == requested_offset
                &&& subscription.replay.available_offset == available_offset
                &&& subscription.replay.end_offset == end_offset
                &&& subscription.replay.truncated == truncated
            },
            Err(e) => bad_text(replay_base64@, Base64Context::SubscriptionReplay, e),
        },
        other => r matches Err(e) && fails(other, e),
    }
}

fn unexpected(response: Response) -> (r: ClientError)
    ensures
        fails(response, r),
{
    match response {
        Response::Error { message } => ClientError::Error(Error::Failed { message }),
        other => ClientError::Unexpected(Box::new(other)),
    }
}

fn decode(text: &str, what: Base64Context) -> (r: Result<Vec<u8>, ClientError>)
    ensures
        match r {
            Ok(bytes) => base64_bytes(text@) == Ok::<Seq<u8>, Base64Error>(bytes@),
            Err(e) => bad_text(text@, what, e),
        },
{
    match decode_base64(text) {
        Ok(bytes) => Ok(bytes),
        Err(fault) => Err(ClientError::Error(Error::InvalidBase64 { what, fault })),
    }
}

/// What is done while a started daemon, a child of this process, is waited for.
pub fn start_step(
    expired: bool,
    exited: Option<String>,
    registration: Option<Registration>,
    child: u32,
) -> (r: StartStep)
    ensures
        if expired {
            r matches StartStep::GiveUp(e) && e == Error::NotReady
        } else {
            match (exited, registration) {
                (Some(status), _) => r matches StartStep::GiveUp(e) && e == (Error::DaemonExited {
                    status,
                }),
                (None, Some(found)) => if found.pid == child {
                    r == StartStep::Connect(found)
                } else {
                    r is Sleep
                },
                (None, None) => r is Sleep,
            }
        },
{
    if expired {
        return StartStep::GiveUp(Error::NotReady);
    }
    match exited {
        Some(status) => {
            return StartStep::GiveUp(Error::DaemonExited { status });
        },
        None => {},
    }
    match registration {
        Some(found) => if found.pid == child {
            StartStep::Connect(found)
        } else {
            StartStep::Sleep
        },
        None => StartStep::Sleep,
    }
}

/// What is done while a daemon that was told to stop is waited for.
pub fn stop_step(expired: bool, reachable: bool) -> (r: StopStep)
    ensures
        r == if expired {
            StopStep::GiveUp
        } else if reachable {
            StopStep::Sleep
        } else {
            StopStep::Stopped
        },
{
    if expired {
        StopStep::GiveUp
    } else if reachable {
        StopStep::Sleep
    } else {
        StopStep::Stopped
    }
}

/// The name under which somebody watches a terminal.
pub fn watch_id_with(pid: u32, random: u64) -> (r: String)
    ensures
        r@ == "watch-"@ + decimal(pid as nat) + "-"@ + hexadecimal(random as nat, 16),
{
    let r = joined(owned("watch-"), decimal_text(pid as u128).as_str());
    joined(joined(r, "-"), hexadecimal_text(random as u128, 16).as_str())
}

/// A name under which to watch a terminal, drawn at random.
pub fn watch_id(pid: u32) -> (r: String)
    ensures
        exists|random: u64|
            r@ == "watch-"@ + decimal(pid as nat) + "-"@ + #[trigger] hexadecimal(
                random as nat,
                16,
            ),
{
    let random: u64 = random_u64();
    watch_id_with(pid, random)
}

/// What is done with what a watched terminal sends.
pub fn watch_step(event: SubscriptionEvent) -> (r: Result<WatchStep, ClientError>)
    ensures
        match event {
            SubscriptionEvent::Output { start, end, bytes } => r matches Ok(WatchStep::Show(shown))
                && shown == bytes,
            SubscriptionEvent::Response(response) => match *response {
                Response::Exited { exit_code, final_offset } => r matches Ok(WatchStep::Ended(code))
                    && code == exit_code,
                Response::Resized { cols, rows, .. } => r matches Ok(
                    WatchStep::Resized { cols: c, rows: w },
                ) && c == cols && w == rows,
                Response::ControllerChanged { .. } => r matches Ok(WatchStep::Ignore),
                Response::TitleChanged { .. } => r matches Ok(WatchStep::Ignore),
                Response::ForegroundProcessChanged { .. } => r matches Ok(WatchStep::Ignore),
                other => r matches Err(e) && fails(other, e),
            },
        },
{
    match event {
        SubscriptionEvent::Output { start, end, bytes } => Ok(WatchStep::Show(bytes)),
        SubscriptionEvent::Response(response) => match *response {
            Response::Exited { exit_code, final_offset } => Ok(WatchStep::Ended(exit_code)),
            Response::Resized { cols, rows, generation, checkpoint_base64 } => Ok(
                WatchStep::Resized { cols, rows },
            ),
            Response::ControllerChanged { attachment_id, generation } => Ok(WatchStep::Ignore),
            Response::TitleChanged { title } => Ok(WatchStep::Ignore),
            Response::ForegroundProcessChanged { process } => Ok(WatchStep::Ignore),
            other => Err(unexpected(other)),
        },
    }
}

impl TerminalClient {
    /// The request with the token of the daemon.
    pub open spec fn asks(self, envelope: Envelope, request: Request) -> bool {
        envelope.token@ == self.registration.token@ && envelope.request == request
    }

    fn envelope(&self, request: Request) -> (r: Envelope)
        ensures
            self.asks(r, request),
    {
        Envelope { token: self.registration.token.clone(), request }
    }

    /// A client of a registered daemon, if both speak the same version of the protocol.
    pub fn discover(registration: Registration) -> (r: Result<Self, Error>)
        ensures
            match r {
                Ok(client) => client.registration == registration && registration.protocol
                    == PROTOCOL_VERSION,
                Err(e) => registration.protocol != PROTOCOL_VERSION && e
                    == (Error::ProtocolMismatch {
                    service: registration.protocol as u64,
                    client: PROTOCOL_VERSION as u64,
                }),
            },
    {
        if registration.protocol != PROTOCOL_VERSION {
            return Err(
                Error::ProtocolMismatch {
                    service: registration.protocol as u64,
                    client: PROTOCOL_VERSION as u64,
                },
            );
        }
        Ok(TerminalClient { registration })
    }

    /// Asks whether the daemon is there.
    pub fn ping(&self) -> (r: Envelope)
        ensures
            self.asks(r, Request::Ping),
    {
        self.envelope(Request::Ping)
    }

    /// Whether the daemon that answers is the registered one.
    pub fn confirm(&self, response: Response) -> (r: Result<(), Error>)
        ensures
            match response {
                Response::Error { message } => r == Err::<(), Error>(Error::Failed { message }),
                Response::Pong { instance_id, pid, protocol } => match r {
                    Ok(_) => instance_id@ == self.registration.instance_id@ && pid
                        == self.registration.pid && protocol == PROTOCOL_VERSION,
                    Err(e) => e == Error::RegistrationMismatch && (instance_id@
                        != self.registration.instance_id@ || pid != self.registration.pid
                        || protocol != PROTOCOL_VERSION),
                },
                _ => r == Err::<(), Error>(Error::RegistrationMismatch),
            },
    {
        match response {
            Response::Error { message } => Err(Error::Failed { message }),
            Response::Pong { instance_id, pid, protocol } => if same(
                instance_id.as_str(),
                self.registration.instance_id.as_str(),
            ) && pid == self.registration.pid && protocol == PROTOCOL_VERSION {
                Ok(())
            } else {
                Err(Error::RegistrationMismatch)
            },
            _ => Err(Error::RegistrationMismatch),
        }
    }

    /// Asks to own the daemon, as its first owner.
    pub fn own(&self) -> (r: Envelope)
        ensures
            r.token@ == self.registration.token@,
            r.request matches Request::Own { instance_id, ticket } && instance_id@
                == self.registration.instance_id@ && ticket is None,
    {
        self.envelope(
            Request::Own { instance_id: self.registration.instance_id.clone(), ticket: None },
        )
    }

    /// Whether the daemon is owned now. An error is as unexpected as anything else here.
    pub fn owned(response: Response) -> (r: Result<(), ClientError>)
        ensures
            match response {
                Response::Owned => r is Ok,
                other => r matches Err(ClientError::Unexpected(boxed)) && *boxed == other,
            },
    {
        match response {
            Response::Owned => Ok(()),
            other => Err(ClientError::Unexpected(Box::new(other))),
        }
    }

    /// Asks for a new terminal.
    pub fn create(&self, request: CreateTerminal) -> (r: Envelope)
        ensures
            self.asks(
                r,
                Request::Create {
                    program: request.program,
                    args: request.args,
                    cwd: request.cwd,
                    title: request.title,
                    group_id: request.group_id,
                    env: request.env,
                    cols: request.cols,
                    rows: request.rows,
                },
            ),
    {
        self.envelope(
            Request::Create {
                program: request.program,
                args: request.args,
                cwd: request.cwd,
                title: request.title,
                group_id: request.group_id,
                env: request.env,
                cols: request.cols,
                rows: request.rows,
            },
        )
    }

    /// The new terminal.
    pub fn created(response: Response) -> (r: Result<TerminalInfo, ClientError>)
        ensures
            match response {
                Response::Created { terminal } => r matches Ok(t) && t == terminal,
                other => r matches Err(e) && fails(other, e),
            },
    {
        match response {
            Response::Created { terminal } => Ok(terminal),
            other => Err(unexpected(other)),
        }
    }

    /// Asks for all terminals.
    pub fn list(&self) -> (r: Envelope)
        ensures
            self.asks(r, Request::List),
    {
        self.envelope(Request::List)
    }

    /// All terminals.
    pub fn listed(response: Response) -> (r: Result<Vec<TerminalInfo>, ClientError>)
        ensures
            match response {
                Response::Terminals { terminals } => r matches Ok(t) && t == terminals,
                other => r matches Err(e) && fails(other, e),
            },
    {
        match response {
            Response::Terminals { terminals } => Ok(terminals),
            other => Err(unexpected(other)),
        }
    }

    /// Sends input in nobody's name.
    pub fn write(&self, id: TerminalId, data: Vec<u8>) -> (r: Envelope)
        requires
            encodable(data@.len()),
        ensures
            r.token@ == self.registration.token@,
            r.request matches Request::Write { id: i, attachment_id, data_base64 } && i == id
                && attachment_id is None && carries(data_base64@, data@),
    {
        self.write_for(id, None, data)
    }

    /// Sends input in the name of an attachment.
    pub fn write_for(&self, id: TerminalId, attachment_id: Option<String>, data: Vec<u8>) -> (r:
        Envelope)
        requires
            encodable(data@.len()),
        ensures
            r.token@ == self.registration.token@,
            r.request matches Request::Write { id: i, attachment_id: a, data_base64 } && i == id
                && a == attachment_id && carries(data_base64@, data@),
    {
        self.envelope(
            Request::Write { id, attachment_id, data_base64: encode_base64(data.as_slice()) },
        )
    }

    /// Sets a size in nobody's name.
    pub fn resize(&self, id: TerminalId, cols: u16, rows: u16) -> (r: Envelope)
        ensures
            self.asks(r, Request::Resize { id, attachment_id: None, cols, rows }),
    {
        self.resize_for(id, None, cols, rows)
    }

    /// Sets a size in the name of an attachment.
    pub fn resize_for(
        &self,
        id: TerminalId,
        attachment_id: Option<String>,
        cols: u16,
        rows: u16,
    ) -> (r: Envelope)
        ensures
            self.asks(r, Request::Resize { id, attachment_id, cols, rows }),
    {
        self.envelope(Request::Resize { id, attachment_id, cols, rows })
    }

    /// Takes control for an attachment.
    pub fn control(&self, id: TerminalId, attachment_id: String, cols: u16, rows: u16) -> (r:
        Envelope)
        ensures
            self.asks(r, Request::Control { id, attachment_id, cols, rows }),
    {
        self.envelope(Request::Control { id, attachment_id, cols, rows })
    }

    /// Takes control for an attachment and sends its input.
    pub fn input(
        &self,
        id: TerminalId,
        attachment_id: String,
        cols: u16,
        rows: u16,
        data: Vec<u8>,
    ) -> (r: Envelope)
        requires
            encodable(data@.len()),
        ensures
            r.token@ == self.registration.token@,
            r.request matches Request::Input {
                id: i,
                attachment_id: a,
                cols: c,
                rows: w,
                data_base64,
            } && i == id && a == attachment_id && c == cols && w == rows && carries(
                data_base64@,
                data@,
            ),
    {
        self.envelope(
            Request::Input {
                id,
                attachment_id,
                cols,
                rows,
                data_base64: encode_base64(data.as_slice()),
            },
        )
    }

    /// Whether it has been done.
    pub fn expect_ok(response: Response) -> (r: Result<(), ClientError>)
        ensures
            match response {
                Response::Done => r is Ok,
                other => r matches Err(e) && fails(other, e),
            },
    {
        match response {
            Response::Done => Ok(()),
            other => Err(unexpected(other)),
        }
    }

    /// Asks what a terminal shows.
    pub fn snapshot(&self, id: TerminalId) -> (r: Envelope)
        ensures
            self.asks(r, Request::Snapshot { id }),
    {
        self.envelope(Request::Snapshot { id })
    }

    /// What a terminal shows.
    pub fn pictured(response: Response) -> (r: Result<RemoteSnapshot, ClientError>)
        ensures
            reads_snapshot(response, r),
    {
        match response {
            Response::Snapshot { terminal, text, checkpoint_base64, cursor_x, cursor_y } => {
                match decode(checkpoint_base64.as_str(), Base64Context::Checkpoint) {
                    Ok(checkpoint) => Ok(
                        RemoteSnapshot { terminal, text, checkpoint, cursor_x, cursor_y },
                    ),
                    Err(e) => Err(e),
                }
            },
            other => Err(unexpected(other)),
        }
    }

    /// Asks for the last rows of a terminal.
    pub fn read_rows(&self, id: TerminalId, rows: Option<u16>) -> (r: Envelope)
        ensures
            self.asks(r, Request::ReadRows { id, rows }),
    {
        self.envelope(Request::ReadRows { id, rows })
    }

    /// The last rows of a terminal.
    pub fn rows(response: Response) -> (r: Result<TerminalRows, ClientError>)
        ensures
            match response {
                Response::Rows { terminal, lines, cursor_x, cursor_y } => r matches Ok(rows) && rows
                    == (TerminalRows { terminal, lines, cursor_x, cursor_y }),
                other => r matches Err(e) && fails(other, e),
            },
    {
        match response {
            Response::Rows { terminal, lines, cursor_x, cursor_y } => Ok(
                TerminalRows { terminal, lines, cursor_x, cursor_y },
            ),
            other => Err(unexpected(other)),
        }
    }

    /// Asks for the output of a terminal from an offset on.
    pub fn replay(&self, id: TerminalId, offset: u64) -> (r: Envelope)
        ensures
            self.asks(r, Request::Replay { id, offset }),
    {
        self.envelope(Request::Replay { id, offset })
    }

    /// The output of a terminal from an offset on.
    pub fn replayed(response: Response) -> (r: Result<RemoteReplay, ClientError>)
        ensures
            reads_replay(response, r),
    {
        match response {
            Response::Replay {
                requested_offset,
                available_offset,
                end_offset,
                truncated,
                data_base64,
            } => match decode(data_base64.as_str(), Base64Context::Replay) {
                Ok(bytes) => Ok(
                    RemoteReplay {
                        requested_offset,
                        available_offset,
                        end_offset,
                        truncated,
                        bytes,
                    },
                ),
                Err(e) => Err(e),
            },
            other => Err(unexpected(other)),
        }
    }

    /// Ends a terminal.
    pub fn terminate(&self, id: TerminalId) -> (r: Envelope)
        ensures
            self.asks(r, Request::Terminate { id }),
    {
        self.envelope(Request::Terminate { id })
    }

    /// Asks to watch a terminal.
    pub fn subscribe(
        &self,
        id: TerminalId,
        offset: u64,
        attachment_id: String,
        role: AttachmentRole,
        takeover: bool,
    ) -> (r: Envelope)
        ensures
            self.asks(r, Request::Subscribe { id, offset, attachment_id, role, takeover }),
    {
        self.envelope(Request::Subscribe { id, offset, attachment_id, role, takeover })
    }

    /// The granted attachment.
    pub fn subscribed(response: Response) -> (r: Result<TerminalSubscription, ClientError>)
        ensures
            reads_attachment(response, r),
    {
        match response {
            Response::Attached {
                terminal,
                role,
                generation,
                requested_offset,
                available_offset,
                end_offset,
                truncated,
                replay_base64,
            } => match decode(replay_base64.as_str(), Base64Context::SubscriptionReplay) {
                Ok(bytes) => Ok(
                    TerminalSubscription {
                        terminal,
                        role,
                        generation,
                        replay: RemoteReplay {
                            requested_offset,
                            available_offset,
                            end_offset,
                            truncated,
                            bytes,
                        },
                    },
                ),
                Err(e) => Err(e),
            },
            other => Err(unexpected(other)),
        }
    }

    /// Stops the daemon.
    pub fn shutdown(&self) -> (r: Envelope)
        ensures
            self.asks(r, Request::Shutdown),
    {
        self.envelope(Request::Shutdown)
    }
}

/// Input that a client sends arrives at the daemon as it is.
pub proof fn law_input_arrives(
    request: Request,
    id: TerminalId,
    attachment_id: Option<String>,
    data: Seq<u8>,
    registration: Registration,
    r: Result<Call, Error>,
)
    requires
        request matches Request::Write { id: i, attachment_id: a, data_base64 } && i == id && a
            == attachment_id && carries(data_base64@, data),
        dispatched(request, registration, r),
    ensures
        r matches Ok(Call::Write { id: i, attachment_id: a, bytes }) && i == id && a
            == attachment_id && bytes@ == data,
{
}

/// Input that a client sends together with a size arrives at the daemon as it is.
pub proof fn law_sized_input_arrives(
    request: Request,
    id: TerminalId,
    attachment_id: String,
    cols: u16,
    rows: u16,
    data: Seq<u8>,
    registration: Registration,
    r: Result<Call, Error>,
)
    requires
        request matches Request::Input {
            id: i,
            attachment_id: a,
            cols: c,
            rows: w,
            data_base64,
        } && i == id && a == attachment_id && c == cols && w == rows && carries(data_base64@, data),
        dispatched(request, registration, r),
    ensures
        r matches Ok(Call::Input { id: i, attachment_id: a, cols: c, rows: w, bytes }) && i == id
            && a == attachment_id && c == cols && w == rows && bytes@ == data,
{
}

/// A replay that the daemon answers with arrives at the client as it is.
pub proof fn law_replay_arrives(
    replay: RawReplay,
    response: Response,
    r: Result<RemoteReplay, ClientError>,
)
    requires
        responded(Ok(Outcome::Replay(replay)), response),
        reads_replay(response, r),
    ensures
        r matches Ok(remote) && {
            &&& remote.requested_offset == replay.requested_offset
            &&& remote.available_offset == replay.available_offset
            &&& remote.end_offset == replay.end_offset
            &&& remote.truncated == replay.truncated
            &&& remote.bytes@ == replay.bytes@
        },
{
}

/// A snapshot that the daemon answers with arrives at the client as it is.
pub proof fn law_snapshot_arrives(
    snapshot: TerminalSnapshot,
    response: Response,
    r: Result<RemoteSnapshot, ClientError>,
)
    requires
        responded(Ok(Outcome::Snapshot(snapshot)), response),
        reads_snapshot(response, r),
    ensures
        r matches Ok(remote) && {
            &&& remote.terminal == snapshot.info
            &&& remote.text == snapshot.text
            &&& remote.checkpoint@ == snapshot.checkpoint@
            &&& remote.cursor_x == snapshot.cursor_x
            &&& remote.cursor_y == snapshot.cursor_y
        },
{
}

/// An attachment that the daemon grants arrives at the client as it is, with the replay that the
/// events to come continue.
pub proof fn law_attachment_arrives(
    terminal: TerminalInfo,
    role: AttachmentRole,
    generation: u64,
    replay: RawReplay,
    response: Response,
    r: Result<TerminalSubscription, ClientError>,
)
    requires
        answers_attachment(terminal, role, generation, replay, response),
        reads_attachment(response, r),
    ensures
        r matches Ok(subscription) && {
            &&& subscription.terminal == terminal
            &&& subscription.role == role
            &&& subscription.generation == generation
            &&& subscription.replay.requested_offset == replay.requested_offset
            &&& subscription.replay.available_offset == replay.available_offset
            &&& subscription.replay.end_offset == replay.end_offset
            &&& subscription.replay.truncated == replay.truncated
            &&& subscription.replay.bytes@ == replay.bytes@
        },
{
}

/// A request goes out as it was made, with the token of the registered daemon.
pub proof fn law_requests_go_out_as_made(
    client: TerminalClient,
    envelope: Envelope,
    request: Request,
)
    requires
        client.asks(envelope, request),
    ensures
        envelope.request == request,
        envelope.token@ == client.registration.token@,
{
}

/// An error that the daemon answers is shown in its words; any other answer that was not asked for
/// is unexpected, and kept.
pub proof fn law_other_answers_fail(response: Response, error: ClientError)
    requires
        fails(response, error),
    ensures
        response matches Response::Error { message } ==> (error matches ClientError::Error(e) && e@
            == message@),
        !(response is Error) ==> (error matches ClientError::Unexpected(boxed) && *boxed
            == response),
{
}

/// What a client makes of an answer: bytes are those that the text stands for, the rest is as it
/// was answered, and a text that stands for nothing is an error that says where it stood.
pub proof fn law_answers_are_read_as_they_are(
    response: Response,
    snapshot: Result<RemoteSnapshot, ClientError>,
    replay: Result<RemoteReplay, ClientError>,
    attachment: Result<TerminalSubscription, ClientError>,
)
    requires
        reads_snapshot(response, snapshot),
        reads_replay(response, replay),
        reads_attachment(response, attachment),
    ensures
        response matches Response::Snapshot {
            terminal,
            text,
            checkpoint_base64,
            cursor_x,
            cursor_y,
        } ==> match base64_bytes(checkpoint_base64@) {
            Ok(bytes) => snapshot matches Ok(s) && s.terminal == terminal && s.text == text
                && s.checkpoint@ == bytes && s.cursor_x == cursor_x && s.cursor_y == cursor_y,
            Err(fault) => snapshot matches Err(ClientError::Error(e)) && e@
                == "invalid checkpoint base64: "@ + fault.text(),
        },
        response matches Response::Replay {
            requested_offset,
            available_offset,
            end_offset,
            truncated,
            data_base64,
        } ==> match base64_bytes(data_base64@) {
            Ok(bytes) => replay matches Ok(s) && s.requested_offset == requested_offset
                && s.available_offset == available_offset && s.end_offset == end_offset
                && s.truncated == truncated && s.bytes@ == bytes,
            Err(fault) => replay matches Err(ClientError::Error(e)) && e@
                == "invalid replay base64: "@ + fault.text(),
        },
        response matches Response::Attached {
            terminal,
            role,
            generation,
            requested_offset,
            available_offset,
            end_offset,
            truncated,
            replay_base64,
        } ==> match base64_bytes(replay_base64@) {
            Ok(bytes) => attachment matches Ok(s) && s.terminal == terminal && s.role == role
                && s.generation == generation && s.replay.requested_offset == requested_offset
                && s.replay.available_offset == available_offset && s.replay.end_offset
                == end_offset && s.replay.truncated == truncated && s.replay.bytes@ == bytes,
            Err(fault) => attachment matches Err(ClientError::Error(e)) && e@
                == "invalid subscription replay base64: "@ + fault.text(),
        },
        !(response is Snapshot) ==> snapshot is Err,
        !(response is Replay) ==> replay is Err,
        !(response is Attached) ==> attachment is Err,
        response matches Response::Error { message } ==> (snapshot matches Err(
            ClientError::Error(a),
        ) && a@ == message@) && (replay matches Err(ClientError::Error(b)) && b@ == message@) && (
        attachment matches Err(ClientError::Error(c)) && c@ == message@),
{
    reveal_strlit("invalid ");
    reveal_strlit("checkpoint");
    reveal_strlit("replay");
    reveal_strlit("subscription replay");
    reveal_strlit(" base64: ");
    reveal_strlit("invalid checkpoint base64: ");
    reveal_strlit("invalid replay base64: ");
    reveal_strlit("invalid subscription replay base64: ");
    assert("invalid checkpoint base64: "@ =~= "invalid "@ + "checkpoint"@ + " base64: "@);
    assert("invalid replay base64: "@ =~= "invalid "@ + "replay"@ + " base64: "@);
    assert("invalid subscription replay base64: "@ =~= "invalid "@ + "subscription replay"@
        + " base64: "@);
}

} // verus!
