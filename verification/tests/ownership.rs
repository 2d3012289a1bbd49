use opencode_pty::daemon::server::{
    handle_connection, keeps_running, owner_request, owner_request_with, OwnerNext, Route,
};
use opencode_pty::daemon::Registration;
use opencode_pty::error::Error;
use opencode_pty::ownership::{Instant, Ownership, State, ACQUIRE_TIMEOUT};
use opencode_pty::protocol::{Envelope, Request, Response};
use std::path::PathBuf;

const MILLISECOND: u64 = 1_000_000;
const SECOND: u64 = 1_000_000_000;

fn start() -> Instant {
    Instant { nanos: 7 * SECOND }
}

fn after(now: Instant, nanos: u64) -> Instant {
    Instant { nanos: now.nanos + nanos }
}

fn before(now: Instant, nanos: u64) -> Instant {
    Instant { nanos: now.nanos - nanos }
}

fn ticket(text: &str) -> Option<String> {
    Some(text.to_string())
}

fn registration() -> Registration {
    Registration {
        instance_id: "instance".to_string(),
        pid: 1,
        protocol: 7,
        socket: PathBuf::from("/tmp/socket"),
        token: "token".to_string(),
    }
}

fn envelope(request: Request) -> Envelope {
    Envelope { token: "token".to_string(), request }
}

fn own(text: Option<&str>) -> Envelope {
    envelope(Request::Own {
        instance_id: "instance".to_string(),
        ticket: text.map(str::to_string),
    })
}

fn message(response: Response) -> String {
    match response {
        Response::Error { message } => message,
        other => panic!("no error: {other:?}"),
    }
}

#[test]
fn acquisition_is_exclusive_and_bounded() {
    let now = start();
    let mut owner = Ownership::new(now);
    assert!(owner.claim(&ticket("unexpected"), now).is_err());
    let generation = owner.claim(&None, now).unwrap();
    assert!(owner.claim(&None, now).is_err());
    owner.disconnect(generation, now);
    assert!(owner.tick(now));
    assert!(owner.claim(&None, now).is_err());

    let mut starting = Ownership::new(now);
    assert!(!starting.tick(before(after(now, ACQUIRE_TIMEOUT), MILLISECOND)));
    assert!(starting.claim(&None, after(now, ACQUIRE_TIMEOUT)).is_err());
    assert!(starting.tick(after(now, ACQUIRE_TIMEOUT)));
}

#[test]
fn handoff_is_nonrenewing_and_consumed_by_claim() {
    let now = start();
    let mut owner = Ownership::new(now);
    let generation = owner.claim(&None, now).unwrap();
    let handoff = owner.prepare(generation, now, 1000).unwrap();
    assert_eq!(handoff.expires_at, 121_000);
    let again = owner.prepare(generation, after(now, 60 * SECOND), 61_000).unwrap();
    assert_eq!(again.ticket, handoff.ticket);
    assert_eq!(again.expires_at, handoff.expires_at);
    assert_eq!(again.deadline, handoff.deadline);
    owner.disconnect(generation, now);
    assert!(owner.claim(&None, now).is_err());
    assert!(owner.claim(&ticket("wrong"), now).is_err());
    let successor = owner.claim(&ticket(&handoff.ticket), now).unwrap();
    assert!(owner.claim(&ticket(&handoff.ticket), now).is_err());
    owner.disconnect(successor, now);
    assert!(owner.tick(now));
}

#[test]
fn valid_ticket_replaces_live_owner_and_fences_old_connection() {
    let now = start();
    let mut owner = Ownership::new(now);
    let generation = owner.claim(&None, now).unwrap();
    let handoff = owner.prepare(generation, now, 1000).unwrap();
    assert!(owner.claim(&None, now).is_err());
    assert!(owner.claim(&ticket("wrong"), now).is_err());
    assert!(owner.is_owner(generation));

    let successor = owner.claim(&ticket(&handoff.ticket), now).unwrap();
    assert!(!owner.is_owner(generation));
    assert!(owner.is_owner(successor));
    assert!(owner.claim(&ticket(&handoff.ticket), now).is_err());
    assert!(owner.prepare(generation, now, 1000).is_err());
    owner.disconnect(generation, now);
    assert!(owner.is_owner(successor));
    assert!(!owner.tick(now));

    let next = owner.prepare(successor, now, 1000).unwrap();
    owner.disconnect(generation, now);
    assert!(owner.is_owner(successor));
    owner.disconnect(successor, now);
    owner.disconnect(generation, now);
    let last = owner.claim(&ticket(&next.ticket), now).unwrap();
    owner.disconnect(last, now);
    assert!(owner.tick(now));
}

#[test]
fn expiry_only_stops_a_disconnected_owner() {
    let now = start();
    let mut owner = Ownership::new(now);
    let generation = owner.claim(&None, now).unwrap();
    let handoff = owner.prepare(generation, now, 1000).unwrap();
    assert!(!owner.tick(handoff.deadline));
    assert!(matches!(owner.state, State::Owned(None)));
    assert!(owner.claim(&ticket(&handoff.ticket), handoff.deadline).is_err());
    assert!(owner.is_owner(generation));
    owner.disconnect(generation, handoff.deadline);
    assert!(owner.tick(handoff.deadline));

    let mut owner = Ownership::new(now);
    let generation = owner.claim(&None, now).unwrap();
    let handoff = owner.prepare(generation, now, 1000).unwrap();
    owner.disconnect(generation, now);
    assert!(!owner.tick(before(handoff.deadline, MILLISECOND)));
    assert!(owner.claim(&ticket(&handoff.ticket), handoff.deadline).is_err());
    assert!(owner.tick(handoff.deadline));
}

#[test]
fn tickets_are_32_hexadecimal_digits_of_the_drawn_number() {
    let now = start();
    let mut owner = Ownership::new(now);
    let generation = owner.claim(&None, now).unwrap();
    let handoff = owner.prepare_with(generation, now, 5, 0xabc).unwrap();
    assert_eq!(handoff.ticket, "00000000000000000000000000000abc");
    assert_eq!(handoff.expires_at, 120_005);
    assert_eq!(handoff.deadline, after(now, 120 * SECOND));

    let mut other = Ownership::new(now);
    let generation = other.claim(&None, now).unwrap();
    let drawn = other.prepare(generation, now, 5).unwrap();
    assert_eq!(drawn.ticket.len(), 32);
    assert!(drawn.ticket.chars().all(|c| c.is_ascii_hexdigit() && !c.is_ascii_uppercase()));
    assert_ne!(drawn.ticket, handoff.ticket);
}

#[test]
fn claims_are_refused_for_a_reason() {
    let now = start();
    let mut owner = Ownership::new(now);
    let e = owner.claim(&ticket("x"), now).unwrap_err();
    assert!(matches!(e, Error::InvalidTicket));
    assert_eq!(e.message(), "invalid handoff ticket");
    let generation = owner.claim(&None, now).unwrap();
    assert_eq!(generation, 1);
    assert_eq!(owner.claim(&None, now).unwrap_err().message(), "daemon already has a live owner");
    assert_eq!(
        owner.prepare(2, now, 0).unwrap_err().message(),
        "handoff requires the owner connection"
    );
    owner.disconnect(generation, now);
    assert_eq!(
        owner.claim(&None, now).unwrap_err().message(),
        "daemon ownership deadline expired or daemon is stopping"
    );
    assert_eq!(
        owner.prepare(generation, now, 0).unwrap_err().message(),
        "handoff requires the owner connection"
    );
}

#[test]
fn superseded_owner_cannot_prepare_handoff_or_shutdown() {
    for request in [Request::PrepareHandoff, Request::Shutdown] {
        let now = start();
        let registration = registration();
        let mut ownership = Ownership::new(now);
        let Route::Own { generation } =
            handle_connection(own(None), &registration, false, &mut ownership, now)
        else {
            panic!("owned");
        };
        let (response, next) = owner_request(
            envelope(Request::PrepareHandoff),
            &registration,
            &mut ownership,
            generation,
            now,
            1000,
        );
        assert_eq!(next, OwnerNext::Continue);
        let Response::Handoff { ticket, .. } = response else {
            panic!("handoff response");
        };
        let Route::Own { generation: successor } =
            handle_connection(own(Some(&ticket)), &registration, false, &mut ownership, now)
        else {
            panic!("successor");
        };
        let (response, next) =
            owner_request(envelope(request), &registration, &mut ownership, generation, now, 1000);
        assert_eq!(message(response), "owner connection has been superseded");
        assert_eq!(next, OwnerNext::Close);
        ownership.disconnect(generation, now);
        let (response, _) = owner_request(
            envelope(Request::PrepareHandoff),
            &registration,
            &mut ownership,
            successor,
            now,
            1000,
        );
        assert!(matches!(response, Response::Handoff { .. }));
        let (response, next) = owner_request(
            envelope(Request::Shutdown),
            &registration,
            &mut ownership,
            successor,
            now,
            1000,
        );
        assert!(matches!(response, Response::Done));
        assert_eq!(next, OwnerNext::Shutdown);
    }
}

#[test]
fn handoff_ticket_has_only_one_winner() {
    let now = start();
    let registration = registration();
    let mut ownership = Ownership::new(now);
    let Route::Own { generation } =
        handle_connection(own(None), &registration, false, &mut ownership, now)
    else {
        panic!("owned");
    };
    let (response, _) = owner_request(
        envelope(Request::PrepareHandoff),
        &registration,
        &mut ownership,
        generation,
        now,
        1000,
    );
    let Response::Handoff { ticket, .. } = response else {
        panic!("handoff response");
    };
    let first = handle_connection(own(Some(&ticket)), &registration, false, &mut ownership, now);
    let second = handle_connection(own(Some(&ticket)), &registration, false, &mut ownership, now);
    let Route::Own { generation: winner } = first else {
        panic!("winner");
    };
    assert!(matches!(second, Route::Refuse(Response::Error { .. })));
    ownership.disconnect(winner, now);
    assert!(!keeps_running(false, &mut ownership, now));
}

#[test]
fn unclaimed_daemon_times_out() {
    let now = start();
    let mut ownership = Ownership::new(now);
    assert!(keeps_running(false, &mut ownership, after(now, ACQUIRE_TIMEOUT - 1)));
    assert!(!keeps_running(false, &mut ownership, after(now, ACQUIRE_TIMEOUT)));
    let mut other = Ownership::new(now);
    assert!(!keeps_running(true, &mut other, now));
    assert!(matches!(other.state, State::Starting(_)));
}

#[test]
fn connections_are_refused_for_a_reason() {
    let now = start();
    let registration = registration();
    let mut ownership = Ownership::new(now);
    let refused = |route: Route| match route {
        Route::Refuse(response) => message(response),
        _ => panic!("not refused"),
    };
    let stranger = Envelope { token: "guess".to_string(), request: Request::Shutdown };
    assert_eq!(
        refused(handle_connection(stranger, &registration, false, &mut ownership, now)),
        "authentication failed"
    );
    let other = envelope(Request::Own { instance_id: "other".to_string(), ticket: None });
    assert_eq!(
        refused(handle_connection(other, &registration, false, &mut ownership, now)),
        "daemon instance_id mismatch"
    );
    assert_eq!(
        refused(handle_connection(own(None), &registration, true, &mut ownership, now)),
        "daemon is stopping"
    );
    assert_eq!(
        refused(handle_connection(own(Some("x")), &registration, false, &mut ownership, now)),
        "invalid handoff ticket"
    );
    let route =
        handle_connection(envelope(Request::Ping), &registration, false, &mut ownership, now);
    assert!(matches!(route, Route::Serve { request: Request::Ping, stopping: false }));
    let route =
        handle_connection(envelope(Request::Shutdown), &registration, false, &mut ownership, now);
    assert!(matches!(route, Route::Serve { request: Request::Shutdown, stopping: true }));
    assert!(matches!(ownership.state, State::Starting(_)));
}

#[test]
fn owner_connection_takes_only_its_own_requests() {
    let now = start();
    let registration = registration();
    let mut ownership = Ownership::new(now);
    let generation = ownership.claim(&None, now).unwrap();
    let (response, next) = owner_request(
        envelope(Request::List),
        &registration,
        &mut ownership,
        generation,
        now,
        0,
    );
    assert_eq!(message(response), "owner connection only accepts prepare_handoff or shutdown");
    assert_eq!(next, OwnerNext::Continue);
    let stranger = Envelope { token: "guess".to_string(), request: Request::Shutdown };
    let (response, next) =
        owner_request(stranger, &registration, &mut ownership, generation, now, 0);
    assert_eq!(message(response), "authentication failed");
    assert_eq!(next, OwnerNext::Continue);
    let (response, _) = owner_request_with(
        envelope(Request::PrepareHandoff),
        &registration,
        &mut ownership,
        generation,
        now,
        1000,
        0x10,
    );
    let Response::Handoff { ticket, expires_at } = response else {
        panic!("handoff response");
    };
    assert_eq!(ticket, "00000000000000000000000000000010");
    assert_eq!(expires_at, 121_000);
    // One that has been succeeded is refused the same requests in the same words.
    assert_eq!(ownership.claim(&Some(ticket), now).unwrap(), generation + 1);
    let (response, next) = owner_request(
        envelope(Request::List),
        &registration,
        &mut ownership,
        generation,
        now,
        0,
    );
    assert_eq!(message(response), "owner connection only accepts prepare_handoff or shutdown");
    assert_eq!(next, OwnerNext::Continue);
}
