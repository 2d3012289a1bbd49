//! How the daemon answers: who is let in, what is done for whom, and what is sent back.
use super::Registration;
use crate::encoding::{
    base64_bytes, base64_text, decode_base64, encodable, encode_base64, random_u128,
};
use crate::error::{Base64Context, Base64Error, Error};
use crate::ownership::{can_issue, Instant, Ownership, OwnershipView, StateView};
use crate::protocol::{AttachmentRole, Envelope, Request, Response};
use crate::service::model::{
    CreateTerminal, RawReplay, StreamEvent, StreamEventView, TerminalId, TerminalInfo,
    TerminalRows, TerminalSnapshot,
};
use crate::text::{hexadecimal, law_hexadecimal_width, opt_text, same};
use vstd::prelude::*;

verus! {

/// What somebody asks for who wants to watch a terminal.
pub struct SubscriptionRequest {
    pub id: TerminalId,
    pub offset: u64,
    pub attachment_id: String,
    pub role: AttachmentRole,
    pub takeover: bool,
}

/// What becomes of a connection after its first request.
pub enum Route {
    /// It is refused.
    Refuse(Response),
    /// It owns the daemon.
    Own { generation: u64 },
    /// It watches a terminal.
    Subscribe(SubscriptionRequest),
    /// Its one request is served; then the daemon may have to stop.
    Serve { request: Request, stopping: bool },
}

/// What becomes of the connection of an owner after a request.
#[derive(Clone, Copy, Debug, PartialEq, Eq, Structural)]
pub enum OwnerNext {
    /// It goes on.
    Continue,
    /// The daemon stops.
    Shutdown,
    /// It is closed.
    Close,
}

/// What is to be done for a request.
#[allow(inconsistent_fields)]
pub enum Call {
    /// Nothing but this answer.
    Reply(Response),
    Create(CreateTerminal),
    List,
    Write { id: TerminalId, attachment_id: Option<String>, bytes: Vec<u8> },
    Resize { id: TerminalId, attachment_id: Option<String>, cols: u16, rows: u16 },
    Control { id: TerminalId, attachment_id: String, cols: u16, rows: u16 },
    Input { id: TerminalId, attachment_id: String, cols: u16, rows: u16, bytes: Vec<u8> },
    Snapshot { id: TerminalId },
    ReadRows { id: TerminalId, rows: Option<u16> },
    Replay { id: TerminalId, offset: u64 },
    Terminate { id: TerminalId },
}

/// What a request came to.
pub enum Outcome {
    Done,
    Created(TerminalInfo),
    Terminals(Vec<TerminalInfo>),
    Snapshot(TerminalSnapshot),
    Rows(TerminalRows),
    Replay(RawReplay),
}

/// What happens to somebody who watches a terminal.
pub enum StreamSignal {
    /// The daemon stops.
    Stopping,
    /// The client has left.
    Disconnected,
    /// The terminal has dropped the attachment.
    Closed,
    /// Nothing happens for a while.
    Timeout,
    Event(StreamEvent),
}

/// What is done for somebody who watches a terminal.
pub enum StreamStep {
    Stop,
    Wait,
    Output { start: u64, end: u64, bytes: Vec<u8> },
    /// The answer is sent, and it may be the last.
    Tell { response: Response, last: bool },
}

/// The answer is an error with these words.
pub open spec fn is_error(response: Response, words: Seq<char>) -> bool {
    response matches Response::Error { message } && message@ == words
}

/// The answer to an error.
pub fn error_response(error: &Error) -> (r: Response)
    ensures
        is_error(r, error@),
{
    Response::Error { message: error.message() }
}

/// Whether the daemon goes on: it stops when it is told to, or when nobody can own it any more.
pub fn keeps_running(shutdown: bool, ownership: &mut Ownership, now: Instant) -> (r: bool)
    ensures
        shutdown ==> !r && *final(ownership) == *old(ownership),
        !shutdown ==> {
            &&& final(ownership)@ == old(ownership)@.ticked(now)
            &&& r == !(final(ownership)@.state is Stopped)
        },
{
    if shutdown {
        false
    } else {
        !ownership.tick(now)
    }
}

/// What a claim of the daemon comes to.
pub open spec fn claimed(
    before: OwnershipView,
    stopping: bool,
    ours: bool,
    ticket: Option<Seq<char>>,
    now: Instant,
    after: OwnershipView,
    route: Route,
) -> bool {
    let ticked = before.ticked(now);
    if !ours {
        &&& route matches Route::Refuse(response) && is_error(response, Error::InstanceMismatch@)
        &&& after == before
    } else if stopping {
        &&& route matches Route::Refuse(response) && is_error(response, Error::DaemonStopping@)
        &&& after == before
    } else {
        match ticked.obstacle(ticket) {
            Some(e) => {
                &&& route matches Route::Refuse(response) && is_error(response, e@)
                &&& after == ticked
            },
            None => {
                &&& route matches Route::Own { generation } && generation == after.generation
                &&& after == ticked.succeeded()
            },
        }
    }
}

/// Decides what becomes of a connection after its first request. Without the token nothing does.
pub fn handle_connection(
    envelope: Envelope,
    registration: &Registration,
    stopping: bool,
    ownership: &mut Ownership,
    now: Instant,
) -> (r: Route)
    requires
        envelope.request matches Request::Own { instance_id, ticket } ==> (envelope.token@
            == registration.token@ && instance_id@ == registration.instance_id@ && !stopping && old(
            ownership,
        )@.ticked(now).obstacle(opt_text(ticket)) is None ==> old(ownership)@.generation
            < u64::MAX),
    ensures
        if envelope.token@ != registration.token@ {
            &&& r matches Route::Refuse(response) && is_error(
                response,
                Error::AuthenticationFailed@,
            )
            &&& final(ownership)@ == old(ownership)@
        } else {
            match envelope.request {
                Request::Own { instance_id, ticket } => claimed(
                    old(ownership)@,
                    stopping,
                    instance_id@ == registration.instance_id@,
                    opt_text(ticket),
                    now,
                    final(ownership)@,
                    r,
                ),
                Request::Subscribe { id, offset, attachment_id, role, takeover } => {
                    &&& r == Route::Subscribe(
                        SubscriptionRequest { id, offset, attachment_id, role, takeover },
                    )
                    &&& final(ownership)@ == old(ownership)@
                },
                request => {
                    &&& r == (Route::Serve { request, stopping: request is Shutdown })
                    &&& final(ownership)@ == old(ownership)@
                },
            }
        },
{
    if !same(envelope.token.as_str(), registration.token.as_str()) {
        return Route::Refuse(error_response(&Error::AuthenticationFailed));
    }
    match envelope.request {
        Request::Own { instance_id, ticket } => {
            if !same(instance_id.as_str(), registration.instance_id.as_str()) {
                return Route::Refuse(error_response(&Error::InstanceMismatch));
            }
            if stopping {
                return Route::Refuse(error_response(&Error::DaemonStopping));
            }
            match ownership.claim(&ticket, now) {
                Ok(generation) => Route::Own { generation },
                Err(e) => Route::Refuse(error_response(&e)),
            }
        },
        Request::Subscribe { id, offset, attachment_id, role, takeover } => Route::Subscribe(
            SubscriptionRequest { id, offset, attachment_id, role, takeover },
        ),
        Request::Shutdown => Route::Serve { request: Request::Shutdown, stopping: true },
        request => Route::Serve { request, stopping: false },
    }
}

/// What a request on the connection of the owner of a generation comes to, whatever ticket may be
/// drawn.
pub open spec fn owner_answered(
    request: Request,
    trusted: bool,
    generation: u64,
    now: Instant,
    unix_ms: u64,
    before: OwnershipView,
    after: OwnershipView,
    response: Response,
    next: OwnerNext,
) -> bool {
    if !trusted {
        &&& is_error(response, Error::AuthenticationFailed@)
        &&& next == OwnerNext::Continue
        &&& after == before
    } else if !(request is PrepareHandoff || request is Shutdown) {
        &&& is_error(response, Error::OwnerRequestsOnly@)
        &&& next == OwnerNext::Continue
        &&& after == before
    } else if !before.owned_by(generation) {
        &&& is_error(response, Error::OwnerSuperseded@)
        &&& next == OwnerNext::Close
        &&& after == before
    } else {
        match request {
            Request::PrepareHandoff => {
                &&& next == OwnerNext::Continue
                &&& after.generation == before.generation
                &&& after.state matches StateView::Owned(Some(handoff)) && {
                    &&& response matches Response::Handoff { ticket, expires_at } && ticket@
                        == handoff.ticket && expires_at == handoff.expires_at
                    &&& if before.ticked(now).issues(generation) {
                        exists|random: u128|
                            handoff == OwnershipView::fresh(
                                #[trigger] hexadecimal(random as nat, 32),
                                now,
                                unix_ms,
                            )
                    } else {
                        after == before.ticked(now)
                    }
                }
            },
            _ => {
                &&& response == Response::Done
                &&& next == OwnerNext::Shutdown
                &&& after == before
            },
        }
    }
}

/// Answers a request on the connection of the owner of a generation, which may hand on the daemon
/// or stop it. An owner that has been succeeded can do neither: it is told so, and its connection
/// is closed. Any other request is refused, and the connection goes on. `random` makes a new
/// ticket unpredictable.
pub fn owner_request_with(
    envelope: Envelope,
    registration: &Registration,
    ownership: &mut Ownership,
    generation: u64,
    now: Instant,
    unix_ms: u64,
    random: u128,
) -> (r: (Response, OwnerNext))
    requires
        envelope.token@ == registration.token@ && envelope.request is PrepareHandoff && old(
            ownership,
        )@.ticked(now).issues(generation) ==> can_issue(now, unix_ms),
    ensures
        owner_answered(
            envelope.request,
            envelope.token@ == registration.token@,
            generation,
            now,
            unix_ms,
            old(ownership)@,
            final(ownership)@,
            r.0,
            r.1,
        ),
        envelope.token@ == registration.token@ && old(ownership)@.owned_by(generation)
            && envelope.request is PrepareHandoff && old(ownership)@.ticked(now).issues(generation)
            ==> final(ownership)@.state == StateView::Owned(
            Some(OwnershipView::fresh(hexadecimal(random as nat, 32), now, unix_ms)),
        ),
{
    if !same(envelope.token.as_str(), registration.token.as_str()) {
        return (error_response(&Error::AuthenticationFailed), OwnerNext::Continue);
    }
    match envelope.request {
        Request::PrepareHandoff => {
            if !ownership.is_owner(generation) {
                return (error_response(&Error::OwnerSuperseded), OwnerNext::Close);
            }
            match ownership.prepare_with(generation, now, unix_ms, random) {
                Ok(handoff) => {
                    (
                        Response::Handoff {
                            ticket: handoff.ticket,
                            expires_at: handoff.expires_at,
                        },
                        OwnerNext::Continue,
                    )
                },
                Err(e) => (error_response(&e), OwnerNext::Continue),
            }
        },
        Request::Shutdown => {
            if !ownership.is_owner(generation) {
                return (error_response(&Error::OwnerSuperseded), OwnerNext::Close);
            }
            (Response::Done, OwnerNext::Shutdown)
        },
        _ => (error_response(&Error::OwnerRequestsOnly), OwnerNext::Continue),
    }
}

/// Answers a request on the connection of the owner of a generation. A new ticket is drawn at
/// random.
pub fn owner_request(
    envelope: Envelope,
    registration: &Registration,
    ownership: &mut Ownership,
    generation: u64,
    now: Instant,
    unix_ms: u64,
) -> (r: (Response, OwnerNext))
    requires
        envelope.token@ == registration.token@ && envelope.request is PrepareHandoff && old(
            ownership,
        )@.ticked(now).issues(generation) ==> can_issue(now, unix_ms),
    ensures
        owner_answered(
            envelope.request,
            envelope.token@ == registration.token@,
            generation,
            now,
            unix_ms,
            old(ownership)@,
            final(ownership)@,
            r.0,
            r.1,
        ),
{
    let random: u128 = random_u128();
    owner_request_with(envelope, registration, ownership, generation, now, unix_ms, random)
}

/// The text of input is not base64.
pub open spec fn bad_input(data_base64: Seq<char>, error: Error) -> bool {
    error matches Error::InvalidBase64 { what, fault } && what == Base64Context::Input
        && base64_bytes(data_base64) == Err::<Seq<u8>, Base64Error>(fault)
}

fn decode_input(data_base64: &str) -> (r: Result<Vec<u8>, Error>)
    ensures
        match r {
            Ok(bytes) => base64_bytes(data_base64@) == Ok::<Seq<u8>, Base64Error>(bytes@),
            Err(e) => bad_input(data_base64@, e),
        },
{
    match decode_base64(data_base64) {
        Ok(bytes) => Ok(bytes),
        Err(fault) => Err(Error::InvalidBase64 { what: Base64Context::Input, fault }),
    }
}

/// What is to be done for a request.
pub open spec fn dispatched(
    request: Request,
    registration: Registration,
    r: Result<Call, Error>,
) -> bool {
    match request {
        Request::Ping => r matches Ok(Call::Reply(Response::Pong { instance_id, pid, protocol }))
            && {
            &&& instance_id@ == registration.instance_id@
            &&& pid == registration.pid
            &&& protocol == registration.protocol
        },
        Request::Create { program, args, cwd, title, group_id, env, cols, rows } => r == Ok::<
            Call,
            Error,
        >(
            Call::Create(
                CreateTerminal { program, args, cwd, title, group_id, env, cols, rows },
            ),
        ),
        Request::List => r == Ok::<Call, Error>(Call::List),
        Request::Write { id, attachment_id, data_base64 } => match r {
            Ok(call) => call matches Call::Write { id: i, attachment_id: a, bytes } && {
                &&& i == id
                &&& a == attachment_id
                &&& base64_bytes(data_base64@) == Ok::<Seq<u8>, Base64Error>(bytes@)
            },
            Err(e) => bad_input(data_base64@, e),
        },
        Request::Resize { id, attachment_id, cols, rows } => r == Ok::<Call, Error>(
            Call::Resize { id, attachment_id, cols, rows },
        ),
        Request::Control { id, attachment_id, cols, rows } => r == Ok::<Call, Error>(
            Call::Control { id, attachment_id, cols, rows },
        ),
        Request::Input { id, attachment_id, cols, rows, data_base64 } => match r {
            Ok(call) => call matches Call::Input {
                id: i,
                attachment_id: a,
                cols: c,
                rows: w,
                bytes,
            } && {
                &&& i == id
                &&& a == attachment_id
                &&& c == cols
                &&& w == rows
                &&& base64_bytes(data_base64@) == Ok::<Seq<u8>, Base64Error>(bytes@)
            },
            Err(e) => bad_input(data_base64@, e),
        },
        Request::Snapshot { id } => r == Ok::<Call, Error>(Call::Snapshot { id }),
        Request::ReadRows { id, rows } => r == Ok::<Call, Error>(Call::ReadRows { id, rows }),
        Request::Replay { id, offset } => r == Ok::<Call, Error>(Call::Replay { id, offset }),
        Request::Terminate { id } => r == Ok::<Call, Error>(Call::Terminate { id }),
        Request::Shutdown => r == Ok::<Call, Error>(Call::Reply(Response::Done)),
        Request::PrepareHandoff => r matches Ok(Call::Reply(response)) && is_error(
            response,
            Error::NotOwner@,
        ),
        _ => true,
    }
}

/// Finds out what is to be done for a request. Claims and subscriptions are not served here.
pub fn dispatch(request: Request, registration: &Registration) -> (r: Result<Call, Error>)
    requires
        !(request is Subscribe),
        !(request is Own),
    ensures
        dispatched(request, *registration, r),
{
    match request {
        Request::Ping => Ok(
            Call::Reply(
                Response::Pong {
                    instance_id: registration.instance_id.clone(),
                    pid: registration.pid,
                    protocol: registration.protocol,
                },
            ),
        ),
        Request::Create { program, args, cwd, title, group_id, env, cols, rows } => Ok(
            Call::Create(CreateTerminal { program, args, cwd, title, group_id, env, cols, rows }),
        ),
        Request::List => Ok(Call::List),
        Request::Write { id, attachment_id, data_base64 } => {
            match decode_input(data_base64.as_str()) {
                Ok(bytes) => Ok(Call::Write { id, attachment_id, bytes }),
                Err(e) => Err(e),
            }
        },
        Request::Resize { id, attachment_id, cols, rows } => Ok(
            Call::Resize { id, attachment_id, cols, rows },
        ),
        Request::Control { id, attachment_id, cols, rows } => Ok(
            Call::Control { id, attachment_id, cols, rows },
        ),
        Request::Input { id, attachment_id, cols, rows, data_base64 } => {
            match decode_input(data_base64.as_str()) {
                Ok(bytes) => Ok(Call::Input { id, attachment_id, cols, rows, bytes }),
                Err(e) => Err(e),
            }
        },
        Request::Snapshot { id } => Ok(Call::Snapshot { id }),
        Request::ReadRows { id, rows } => Ok(Call::ReadRows { id, rows }),
        Request::Replay { id, offset } => Ok(Call::Replay { id, offset }),
        Request::Terminate { id } => Ok(Call::Terminate { id }),
        Request::Shutdown => Ok(Call::Reply(Response::Done)),
        Request::PrepareHandoff => Ok(Call::Reply(error_response(&Error::NotOwner))),
        Request::Subscribe { .. } => Ok(Call::Reply(Response::Done)),
        Request::Own { .. } => Ok(Call::Reply(Response::Done)),
    }
}

/// The text is the base64 of the bytes, and decodes to them.
pub open spec fn carries(text: Seq<char>, bytes: Seq<u8>) -> bool {
    text == base64_text(bytes) && base64_bytes(text) == Ok::<Seq<u8>, Base64Error>(bytes)
}

/// What a request came to can be sent.
pub open spec fn sendable(outcome: Result<Outcome, Error>) -> bool {
    match outcome {
        Ok(Outcome::Snapshot(snapshot)) => encodable(snapshot.checkpoint@.len()),
        Ok(Outcome::Replay(replay)) => encodable(replay.bytes@.len()),
        _ => true,
    }
}

/// The answer for what a request came to.
pub open spec fn responded(outcome: Result<Outcome, Error>, r: Response) -> bool {
    match outcome {
        Err(e) => is_error(r, e@),
        Ok(Outcome::Done) => r == Response::Done,
        Ok(Outcome::Created(terminal)) => r == (Response::Created { terminal }),
        Ok(Outcome::Terminals(terminals)) => r == (Response::Terminals { terminals }),
        Ok(Outcome::Snapshot(snapshot)) => r matches Response::Snapshot {
            terminal,
            text,
            checkpoint_base64,
            cursor_x,
            cursor_y,
        } && {
            &&& terminal == snapshot.info
            &&& text == snapshot.text
            &&& carries(checkpoint_base64@, snapshot.checkpoint@)
            &&& cursor_x == snapshot.cursor_x
            &&& cursor_y == snapshot.cursor_y
        },
        Ok(Outcome::Rows(rows)) => r == (Response::Rows {
            terminal: rows.terminal,
            lines: rows.lines,
            cursor_x: rows.cursor_x,
            cursor_y: rows.cursor_y,
        }),
        Ok(Outcome::Replay(replay)) => r matches Response::Replay {
            requested_offset,
            available_offset,
            end_offset,
            truncated,
            data_base64,
        } && {
            &&& requested_offset == replay.requested_offset
            &&& available_offset == replay.available_offset
            &&& end_offset == replay.end_offset
            &&& truncated == replay.truncated
            &&& carries(data_base64@, replay.bytes@)
        },
    }
}

/// The answer for what a request came to.
pub fn respond(outcome: Result<Outcome, Error>) -> (r: Response)
    requires
        sendable(outcome),
    ensures
        responded(outcome, r),
{
    match outcome {
        Err(e) => error_response(&e),
        Ok(Outcome::Done) => Response::Done,
        Ok(Outcome::Created(terminal)) => Response::Created { terminal },
        Ok(Outcome::Terminals(terminals)) => Response::Terminals { terminals },
        Ok(Outcome::Snapshot(snapshot)) => Response::Snapshot {
            terminal: snapshot.info,
            text: snapshot.text,
            checkpoint_base64: encode_base64(snapshot.checkpoint.as_slice()),
            cursor_x: snapshot.cursor_x,
            cursor_y: snapshot.cursor_y,
        },
        Ok(Outcome::Rows(rows)) => Response::Rows {
            terminal: rows.terminal,
            lines: rows.lines,
            cursor_x: rows.cursor_x,
            cursor_y: rows.cursor_y,
        },
        Ok(Outcome::Replay(replay)) => Response::Replay {
            requested_offset: replay.requested_offset,
            available_offset: replay.available_offset,
            end_offset: replay.end_offset,
            truncated: replay.truncated,
            data_base64: encode_base64(replay.bytes.as_slice()),
        },
    }
}

/// The first answer to somebody who watches a terminal.
pub open spec fn answers_attachment(
    terminal: TerminalInfo,
    role: AttachmentRole,
    generation: u64,
    replay: RawReplay,
    r: Response,
) -> bool {
    r matches Response::Attached {
        terminal: t,
        role: o,
        generation: g,
        requested_offset,
        available_offset,
        end_offset,
        truncated,
        replay_base64,
    } && {
        &&& t == terminal
        &&& o == role
        &&& g == generation
        &&& requested_offset == replay.requested_offset
        &&& available_offset == replay.available_offset
        &&& end_offset == replay.end_offset
        &&& truncated == replay.truncated
        &&& carries(replay_base64@, replay.bytes@)
    }
}

/// The first answer to somebody who watches a terminal.
pub fn attached_response(
    terminal: TerminalInfo,
    role: AttachmentRole,
    generation: u64,
    replay: RawReplay,
) -> (r: Response)
    requires
        encodable(replay.bytes@.len()),
    ensures
        answers_attachment(terminal, role, generation, replay, r),
{
    Response::Attached {
        terminal,
        role,
        generation,
        requested_offset: replay.requested_offset,
        available_offset: replay.available_offset,
        end_offset: replay.end_offset,
        truncated: replay.truncated,
        replay_base64: encode_base64(replay.bytes.as_slice()),
    }
}

/// What somebody who watches a terminal is told of an event: output as it is, anything else as an
/// answer that says the same. The end of the terminal is the last that is told.
pub open spec fn tells(event: StreamEventView, step: StreamStep) -> bool {
    match event {
        StreamEventView::Output { start, end, bytes } => step matches StreamStep::Output {
            start: s,
            end: e,
            bytes: b,
        } && s == start && e == end && b@ == bytes,
        StreamEventView::Resized { cols, rows, generation, checkpoint } => step matches
            StreamStep::Tell {
            response: Response::Resized { cols: c, rows: w, generation: g, checkpoint_base64 },
            last,
        } && c == cols && w == rows && g == generation && carries(checkpoint_base64@, checkpoint)
            && !last,
        StreamEventView::Exited { exit_code, final_offset } => step matches StreamStep::Tell {
            response: Response::Exited { exit_code: c, final_offset: f },
            last,
        } && c == exit_code && f == final_offset && last,
        StreamEventView::ControllerChanged { attachment_id, generation } => step matches
            StreamStep::Tell {
            response: Response::ControllerChanged { attachment_id: a, generation: g },
            last,
        } && opt_text(a) == attachment_id && g == generation && !last,
        StreamEventView::TitleChanged { title } => step matches StreamStep::Tell {
            response: Response::TitleChanged { title: t },
            last,
        } && t@ == title && !last,
        StreamEventView::ForegroundProcessChanged { process } => step matches StreamStep::Tell {
            response: Response::ForegroundProcessChanged { process: p },
            last,
        } && opt_text(p) == process && !last,
    }
}

/// Decides what is done for somebody who watches a terminal.
pub fn stream_step(signal: StreamSignal) -> (r: StreamStep)
    requires
        signal matches StreamSignal::Event(StreamEvent::Resized { checkpoint, .. }) ==> encodable(
            checkpoint@.len(),
        ),
    ensures
        match signal {
            StreamSignal::Stopping => r is Stop,
            StreamSignal::Disconnected => r is Stop,
            StreamSignal::Closed => r is Stop,
            StreamSignal::Timeout => r is Wait,
            StreamSignal::Event(event) => tells(event@, r),
        },
{
    match signal {
        StreamSignal::Stopping => StreamStep::Stop,
        StreamSignal::Disconnected => StreamStep::Stop,
        StreamSignal::Closed => StreamStep::Stop,
        StreamSignal::Timeout => StreamStep::Wait,
        StreamSignal::Event(event) => match event {
            StreamEvent::Output { start, end, bytes } => StreamStep::Output { start, end, bytes },
            StreamEvent::Resized { cols, rows, generation, checkpoint } => StreamStep::Tell {
                response: Response::Resized {
                    cols,
                    rows,
                    generation,
                    checkpoint_base64: encode_base64(checkpoint.as_slice()),
                },
                last: false,
            },
            StreamEvent::Exited { exit_code, final_offset } => StreamStep::Tell {
                response: Response::Exited { exit_code, final_offset },
                last: true,
            },
            StreamEvent::ControllerChanged { attachment_id, generation } => StreamStep::Tell {
                response: Response::ControllerChanged { attachment_id, generation },
                last: false,
            },
            StreamEvent::TitleChanged { title } => StreamStep::Tell {
                response: Response::TitleChanged { title },
                last: false,
            },
            StreamEvent::ForegroundProcessChanged { process } => StreamStep::Tell {
                response: Response::ForegroundProcessChanged { process },
                last: false,
            },
        },
    }
}

/// An owner that has been succeeded can neither hand on the daemon nor stop it, and is told so if
/// it tries; nothing that it asks changes the ownership.
pub proof fn law_superseded_owner_has_no_say(
    request: Request,
    generation: u64,
    now: Instant,
    unix_ms: u64,
    before: OwnershipView,
    after: OwnershipView,
    response: Response,
    next: OwnerNext,
)
    requires
        !before.owned_by(generation),
        owner_answered(request, true, generation, now, unix_ms, before, after, response, next),
    ensures
        request is PrepareHandoff || request is Shutdown ==> is_error(
            response,
            Error::OwnerSuperseded@,
        ) && next == OwnerNext::Close,
        next != OwnerNext::Shutdown,
        !(response is Handoff),
        after == before,
{
}

/// Of several claims with one ticket at most one succeeds: after a success, a claim with any
/// ticket is refused as long as the new owner is connected and has issued none.
pub proof fn law_ticket_has_one_winner(
    before: OwnershipView,
    ticket: Option<Seq<char>>,
    now: Instant,
    between: OwnershipView,
    first: Route,
    other: Option<Seq<char>>,
    later: Instant,
    after: OwnershipView,
    second: Route,
)
    requires
        before.generation < u64::MAX,
        claimed(before, false, true, ticket, now, between, first),
        first is Own,
        claimed(between, false, true, other, later, after, second),
    ensures
        second matches Route::Refuse(response) && is_error(response, Error::LiveOwner@),
        after == between,
{
}

/// A claim of the daemon succeeds exactly if it is meant for this daemon, which is not stopping, and
/// it comes without a ticket before there was an owner, or with the ticket of the owner, in time.
pub proof fn law_claims_are_routed(
    before: OwnershipView,
    stopping: bool,
    ours: bool,
    ticket: Option<Seq<char>>,
    now: Instant,
    after: OwnershipView,
    route: Route,
)
    requires
        before.generation < u64::MAX,
        claimed(before, stopping, ours, ticket, now, after, route),
    ensures
        ({
            let good = match before.state {
                StateView::Starting(deadline) => now.nanos < deadline.nanos && ticket is None,
                StateView::Owned(Some(handoff)) => now.nanos < handoff.deadline.nanos && ticket
                    == Some(handoff.ticket),
                StateView::Waiting(handoff) => now.nanos < handoff.deadline.nanos && ticket == Some(
                    handoff.ticket,
                ),
                _ => false,
            };
            if ours && !stopping && good {
                &&& route matches Route::Own { generation } && generation == before.generation + 1
                &&& after.generation == before.generation + 1
                &&& after.state == StateView::Owned(None)
            } else {
                &&& route matches Route::Refuse(Response::Error { message }) && {
                    &&& !ours ==> message@ == "daemon instance_id mismatch"@
                    &&& ours && stopping ==> message@ == "daemon is stopping"@
                    &&& ours && !stopping && before.state is Owned ==> message@
                        == "daemon already has a live owner"@
                    &&& ours && !stopping && before.state is Stopped ==> message@
                        == "daemon ownership deadline expired or daemon is stopping"@
                    &&& ours && !stopping ==> (before.state matches StateView::Starting(deadline)
                        ==> message@ == if now.nanos < deadline.nanos {
                        "invalid handoff ticket"@
                    } else {
                        "daemon ownership deadline expired or daemon is stopping"@
                    })
                    &&& ours && !stopping ==> (before.state matches StateView::Waiting(handoff)
                        ==> message@ == if now.nanos < handoff.deadline.nanos {
                        "invalid handoff ticket"@
                    } else {
                        "daemon ownership deadline expired or daemon is stopping"@
                    })
                }
                &&& after.generation == before.generation
                &&& !ours || stopping ==> after == before
                &&& before.state is Owned <==> after.state is Owned
            }
        }),
{
}

/// What is done on the connection of an owner for each request, in terms of who is the owner and
/// what ticket it has.
pub proof fn law_owner_is_served(
    request: Request,
    trusted: bool,
    generation: u64,
    now: Instant,
    unix_ms: u64,
    before: OwnershipView,
    after: OwnershipView,
    response: Response,
    next: OwnerNext,
)
    requires
        can_issue(now, unix_ms),
        owner_answered(request, trusted, generation, now, unix_ms, before, after, response, next),
    ensures
        after.generation == before.generation,
        !trusted ==> {
            &&& response matches Response::Error { message } && message@
                == "authentication failed"@
            &&& next == OwnerNext::Continue
            &&& after == before
        },
        trusted && !(request is PrepareHandoff) && !(request is Shutdown) ==> {
            &&& response matches Response::Error { message } && message@
                == "owner connection only accepts prepare_handoff or shutdown"@
            &&& next == OwnerNext::Continue
            &&& after == before
        },
        trusted && (request is PrepareHandoff || request is Shutdown) && !(generation
            == before.generation && before.state is Owned) ==> {
            &&& response matches Response::Error { message } && message@
                == "owner connection has been superseded"@
            &&& next == OwnerNext::Close
            &&& after == before
        },
        trusted && generation == before.generation && before.state is Owned && request is Shutdown
            ==> response == Response::Done && next == OwnerNext::Shutdown && after == before,
        trusted && generation == before.generation && request is PrepareHandoff ==> (before.state
            matches StateView::Owned(known) ==> {
            &&& next == OwnerNext::Continue
            &&& response matches Response::Handoff { ticket, expires_at } && {
                &&& after.state matches StateView::Owned(Some(given)) && given.ticket == ticket@
                    && given.expires_at == expires_at && if known is Some && now.nanos
                    < known->0.deadline.nanos {
                    given == known->0
                } else {
                    &&& ticket@.len() == 32
                    &&& expires_at == unix_ms + 120_000
                    &&& given.deadline.nanos == now.nanos + 120_000_000_000
                }
            }
        }),
{
    assert forall|random: u128| (#[trigger] hexadecimal(random as nat, 32)).len() == 32 by {
        law_hexadecimal_width(random as nat, 32);
    }
}

/// What is done for a request is what the request says: the same terminal, the same attachment, the
/// same size, the same rows, the same offset, and the bytes that its text stands for.
pub proof fn law_requests_are_done_as_asked(
    request: Request,
    registration: Registration,
    r: Result<Call, Error>,
)
    requires
        dispatched(request, registration, r),
        !(request is Subscribe),
        !(request is Own),
    ensures
        match request {
            Request::Ping => r matches Ok(Call::Reply(Response::Pong { instance_id, pid, protocol }))
                && instance_id@ == registration.instance_id@ && pid == registration.pid && protocol
                == registration.protocol,
            Request::Create { program, args, cwd, title, group_id, env, cols, rows } => r matches Ok(
                Call::Create(c),
            ) && c.program == program && c.args == args && c.cwd == cwd && c.title == title
                && c.group_id == group_id && c.env == env && c.cols == cols && c.rows == rows,
            Request::List => r matches Ok(Call::List),
            Request::Write { id, attachment_id, data_base64 } => match base64_bytes(data_base64@) {
                Ok(data) => r matches Ok(Call::Write { id: i, attachment_id: a, bytes }) && i == id
                    && a == attachment_id && bytes@ == data,
                Err(fault) => r matches Err(e) && e@ == "invalid input base64: "@ + fault.text(),
            },
            Request::Resize { id, attachment_id, cols, rows } => r matches Ok(
                Call::Resize { id: i, attachment_id: a, cols: c, rows: w },
            ) && i == id && a == attachment_id && c == cols && w == rows,
            Request::Control { id, attachment_id, cols, rows } => r matches Ok(
                Call::Control { id: i, attachment_id: a, cols: c, rows: w },
            ) && i == id && a == attachment_id && c == cols && w == rows,
            Request::Input { id, attachment_id, cols, rows, data_base64 } => match base64_bytes(
                data_base64@,
            ) {
                Ok(data) => r matches Ok(
                    Call::Input { id: i, attachment_id: a, cols: c, rows: w, bytes },
                ) && i == id && a == attachment_id && c == cols && w == rows && bytes@ == data,
                Err(fault) => r matches Err(e) && e@ == "invalid input base64: "@ + fault.text(),
            },
            Request::Snapshot { id } => r matches Ok(Call::Snapshot { id: i }) && i == id,
            Request::ReadRows { id, rows } => r matches Ok(Call::ReadRows { id: i, rows: n }) && i
                == id && n == rows,
            Request::Replay { id, offset } => r matches Ok(Call::Replay { id: i, offset: o }) && i
                == id && o == offset,
            Request::Terminate { id } => r matches Ok(Call::Terminate { id: i }) && i == id,
            Request::Shutdown => r matches Ok(Call::Reply(Response::Done)),
            Request::PrepareHandoff => r matches Ok(Call::Reply(Response::Error { message }))
                && message@ == "handoff requires the owner connection"@,
            _ => true,
        },
{
    reveal_strlit("invalid ");
    reveal_strlit("input");
    reveal_strlit(" base64: ");
    reveal_strlit("invalid input base64: ");
    assert("invalid input base64: "@ =~= "invalid "@ + "input"@ + " base64: "@);
}

/// What a request came to is answered as it is; bytes are answered as a text that stands for them,
/// and a failure in its words.
pub proof fn law_outcomes_are_answered_as_they_are(outcome: Result<Outcome, Error>, r: Response)
    requires
        responded(outcome, r),
    ensures
        match outcome {
            Err(e) => r matches Response::Error { message } && message@ == e@,
            Ok(Outcome::Done) => r is Done,
            Ok(Outcome::Created(info)) => r matches Response::Created { terminal } && terminal
                == info,
            Ok(Outcome::Terminals(list)) => r matches Response::Terminals { terminals } && terminals
                == list,
            Ok(Outcome::Snapshot(s)) => r matches Response::Snapshot {
                terminal,
                text,
                checkpoint_base64,
                cursor_x,
                cursor_y,
            } && terminal == s.info && text == s.text && cursor_x == s.cursor_x && cursor_y
                == s.cursor_y && base64_bytes(checkpoint_base64@) == Ok::<Seq<u8>, Base64Error>(
                s.checkpoint@,
            ) && checkpoint_base64@ == base64_text(s.checkpoint@),
            Ok(Outcome::Rows(s)) => r matches Response::Rows { terminal, lines, cursor_x, cursor_y }
                && terminal == s.terminal && lines == s.lines && cursor_x == s.cursor_x && cursor_y
                == s.cursor_y,
            Ok(Outcome::Replay(s)) => r matches Response::Replay {
                requested_offset,
                available_offset,
                end_offset,
                truncated,
                data_base64,
            } && requested_offset == s.requested_offset && available_offset == s.available_offset
                && end_offset == s.end_offset && truncated == s.truncated && base64_bytes(
                data_base64@,
            ) == Ok::<Seq<u8>, Base64Error>(s.bytes@) && data_base64@ == base64_text(s.bytes@),
        },
{
}

/// Somebody who was attached is told so as it is: the terminal, the role, the generation, and a
/// replay that stands between its own offsets.
pub proof fn law_attachments_are_answered_as_they_are(
    terminal: TerminalInfo,
    role: AttachmentRole,
    generation: u64,
    replay: RawReplay,
    r: Response,
)
    requires
        answers_attachment(terminal, role, generation, replay, r),
    ensures
        r matches Response::Attached {
            terminal: t,
            role: o,
            generation: g,
            requested_offset,
            available_offset,
            end_offset,
            truncated,
            replay_base64,
        } && t == terminal && o == role && g == generation && requested_offset
            == replay.requested_offset && available_offset == replay.available_offset && end_offset
            == replay.end_offset && truncated == replay.truncated && base64_bytes(replay_base64@)
            == Ok::<Seq<u8>, Base64Error>(replay.bytes@) && replay_base64@ == base64_text(
            replay.bytes@,
        ),
{
}

/// Whoever watches a terminal is sent every event as it is, and nothing but the end is the last.
pub proof fn law_events_are_sent_as_they_are(event: StreamEventView, step: StreamStep)
    requires
        tells(event, step),
    ensures
        step matches StreamStep::Tell { last, .. } ==> (last <==> event is Exited),
        event is Output <==> step is Output,
        !(step is Stop) && !(step is Wait),
        event matches StreamEventView::Output { start, end, bytes } ==> (step matches
            StreamStep::Output { start: s, end: e, bytes: b } && s == start && e == end && b@
            == bytes),
        event matches StreamEventView::Resized { cols, rows, generation, checkpoint } ==> (step
            matches StreamStep::Tell { response: Response::Resized {
            cols: c,
            rows: w,
            generation: g,
            checkpoint_base64,
        }, .. } && c == cols && w == rows && g == generation && base64_bytes(checkpoint_base64@)
            == Ok::<Seq<u8>, Base64Error>(checkpoint)),
        event matches StreamEventView::Exited { exit_code, final_offset } ==> (step matches
            StreamStep::Tell { response: Response::Exited { exit_code: c, final_offset: o }, .. }
            && c == exit_code && o == final_offset),
        event matches StreamEventView::ControllerChanged { attachment_id, generation } ==> (step
            matches StreamStep::Tell {
            response: Response::ControllerChanged { attachment_id: a, generation: g },
            ..
        } && opt_text(a) == attachment_id && g == generation),
        event matches StreamEventView::TitleChanged { title } ==> (step matches StreamStep::Tell {
            response: Response::TitleChanged { title: t },
            ..
        } && t@ == title),
        event matches StreamEventView::ForegroundProcessChanged { process } ==> (step matches
            StreamStep::Tell { response: Response::ForegroundProcessChanged { process: p }, .. }
            && opt_text(p) == process),
{
}

/// An error is answered in its words.
pub proof fn law_errors_are_answered_in_words(message: String, response: Response)
    ensures
        is_error(Response::Error { message }, message@),
        !(response is Error) ==> !is_error(response, message@),
        response matches Response::Error { message: words } ==> (is_error(response, message@)
            <==> words@ == message@),
{
}

} // verus!
