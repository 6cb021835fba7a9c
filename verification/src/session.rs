//! The per-connection session state machine.
//!
//! A session owns one accepted client connection and decides, step by step,
//! what happens to it: negotiate a destination (or take the configured one),
//! dial it, answer the client, then forward bytes until either side is done.
//! The decisions live here as a pure transition function from state and event
//! to next state and action; the caller performs each action against the real
//! sockets and feeds the outcome back as the next event.
//!
//! States move `Start -> (Handshaking | Connecting) -> Connecting ->
//! (SendingGrant | SendingRejection) -> Forwarding -> Closed`, with `Failed`
//! absorbing every failure. All transitions are deterministic and none ever
//! returns to an earlier state: nothing is retried.

use vstd::prelude::*;

use crate::addr::SocketAddr;
use crate::addr::SocketAddrV4;
use crate::config::ProxyMode;
use crate::error::SessionError;
use crate::socks4::SOCKS4_CONNECT;
use crate::socks4::Socks4Request;
use crate::socks4::Socks4Response;

verus! {

/// Where a session stands.
#[derive(Clone, Copy, Debug, PartialEq, Eq)]
pub enum SessionState {
    /// Nothing has happened yet.
    Start,
    /// Waiting for the client's handshake request frame.
    Handshaking,
    /// Dialing the destination.
    Connecting { dest: SocketAddr },
    /// Writing the response that answers a successful dial; it must be fully
    /// written before forwarding starts.
    SendingGrant,
    /// Writing the rejection frame, best effort, before terminating with
    /// `error`.
    SendingRejection { error: SessionError },
    /// Forwarding payload bytes in both directions.
    Forwarding,
    /// The session ran to completion and released both sockets.
    Closed,
    /// The session terminated with a failure; both sockets are released.
    Failed { error: SessionError },
}

/// What the surrounding connection handler observed.
#[derive(Debug)]
pub enum SessionEvent {
    /// The session was handed its accepted connection.
    Started,
    /// Reading one handshake request frame finished, with the decoded
    /// request or the failure that ended it.
    RequestDecoded(Result<Socks4Request, SessionError>),
    /// The outbound dial finished.
    ConnectFinished { ok: bool },
    /// Writing a response frame finished.
    ResponseSent { ok: bool },
    /// Forwarding finished: one direction reached clean end-of-stream, or a
    /// direction faulted.
    RelayFinished { clean_eof: bool },
}

/// What the surrounding connection handler must do next.
#[derive(Clone, Copy, Debug, PartialEq, Eq)]
pub enum SessionAction {
    /// Read one handshake request frame from the client.
    AwaitRequest,
    /// Open an outbound connection to `dest`.
    Dial { dest: SocketAddr },
    /// Write `response` to the client, fully and flushed; report whether
    /// that succeeded.
    SendGrant { response: Socks4Response },
    /// Write `response` — always the canonical rejection frame — to the
    /// client, best effort; report completion either way.
    SendRejection { response: Socks4Response },
    /// Forward bytes both ways until one direction finishes.
    StartRelay,
    /// Close both sockets and finish.
    Shutdown,
}

/// Which events a state can observe. Terminal states accept none.
pub open spec fn accepts(state: SessionState, event: SessionEvent) -> bool {
    match (state, event) {
        (SessionState::Start, SessionEvent::Started) => true,
        (SessionState::Handshaking, SessionEvent::RequestDecoded(_)) => true,
        (SessionState::Connecting { .. }, SessionEvent::ConnectFinished { .. }) => true,
        (SessionState::SendingGrant, SessionEvent::ResponseSent { .. }) => true,
        (SessionState::SendingRejection { .. }, SessionEvent::ResponseSent { .. }) => true,
        (SessionState::Forwarding, SessionEvent::RelayFinished { .. }) => true,
        _ => false,
    }
}

/// The response answering a successful dial to `dest`: the destination
/// echoed as granted when it is IPv4, the canonical rejection frame when the
/// frame cannot spell the address.
pub open spec fn spec_grant_response(dest: SocketAddr) -> Socks4Response {
    match dest {
        SocketAddr::V4(v4) => Socks4Response::spec_success(v4),
        SocketAddr::V6(_) => Socks4Response::spec_failure(),
    }
}

/// The whole transition table: given the configured mode, the state a
/// session stands in and the event it observed, the state it moves to and
/// the action to perform next.
pub open spec fn spec_step(mode: ProxyMode, state: SessionState, event: SessionEvent) -> (
    SessionState,
    SessionAction,
) {
    match (state, event) {
        (SessionState::Start, SessionEvent::Started) => match mode {
            ProxyMode::Direct(dest) => (
                SessionState::Connecting { dest },
                SessionAction::Dial { dest },
            ),
            ProxyMode::Socks4 => (SessionState::Handshaking, SessionAction::AwaitRequest),
        },
        (SessionState::Handshaking, SessionEvent::RequestDecoded(outcome)) => match outcome {
            Ok(req) => {
                if req.command == SOCKS4_CONNECT {
                    let dest = SocketAddr::V4(
                        SocketAddrV4 { ip: req.dst_ip, port: req.dst_port },
                    );
                    (SessionState::Connecting { dest }, SessionAction::Dial { dest })
                } else {
                    // BIND decodes but is never serviced: reject, then
                    // terminate.
                    (
                        SessionState::SendingRejection {
                            error: SessionError::UnsupportedCommand,
                        },
                        SessionAction::SendRejection {
                            response: Socks4Response::spec_failure(),
                        },
                    )
                }
            },
            Err(e) => (SessionState::Failed { error: e }, SessionAction::Shutdown),
        },
        (SessionState::Connecting { dest }, SessionEvent::ConnectFinished { ok }) => {
            if ok {
                match mode {
                    ProxyMode::Socks4 => (
                        SessionState::SendingGrant,
                        SessionAction::SendGrant { response: spec_grant_response(dest) },
                    ),
                    ProxyMode::Direct(_) => (SessionState::Forwarding, SessionAction::StartRelay),
                }
            } else {
                match mode {
                    ProxyMode::Socks4 => (
                        SessionState::SendingRejection { error: SessionError::ConnectFailure },
                        SessionAction::SendRejection {
                            response: Socks4Response::spec_failure(),
                        },
                    ),
                    ProxyMode::Direct(_) => (
                        SessionState::Failed { error: SessionError::ConnectFailure },
                        SessionAction::Shutdown,
                    ),
                }
            }
        },
        (SessionState::SendingGrant, SessionEvent::ResponseSent { ok }) => {
            if ok {
                (SessionState::Forwarding, SessionAction::StartRelay)
            } else {
                (SessionState::Failed { error: SessionError::IoError }, SessionAction::Shutdown)
            }
        },
        // A failed write of the rejection frame is swallowed: the session
        // terminates with the failure it was already reporting.
        (SessionState::SendingRejection { error }, SessionEvent::ResponseSent { .. }) => (
            SessionState::Failed { error },
            SessionAction::Shutdown,
        ),
        (SessionState::Forwarding, SessionEvent::RelayFinished { .. }) => (
            SessionState::Closed,
            SessionAction::Shutdown,
        ),
        _ => arbitrary(),
    }
}

/// Perform one transition of the session state machine.
pub fn step(mode: ProxyMode, state: SessionState, event: SessionEvent) -> (r: (
    SessionState,
    SessionAction,
))
    requires
        accepts(state, event),
    ensures
        r == spec_step(mode, state, event),
{
    match (state, event) {
        (SessionState::Start, SessionEvent::Started) => match mode {
            ProxyMode::Direct(dest) => (
                SessionState::Connecting { dest },
                SessionAction::Dial { dest },
            ),
            ProxyMode::Socks4 => (SessionState::Handshaking, SessionAction::AwaitRequest),
        },
        (SessionState::Handshaking, SessionEvent::RequestDecoded(outcome)) => match outcome {
            Ok(req) => {
                if req.command == SOCKS4_CONNECT {
                    let dest = SocketAddr::V4(SocketAddrV4::new(req.dst_ip, req.dst_port));
                    (SessionState::Connecting { dest }, SessionAction::Dial { dest })
                } else {
                    (
                        SessionState::SendingRejection {
                            error: SessionError::UnsupportedCommand,
                        },
                        SessionAction::SendRejection { response: Socks4Response::failure() },
                    )
                }
            },
            Err(e) => (SessionState::Failed { error: e }, SessionAction::Shutdown),
        },
        (SessionState::Connecting { dest }, SessionEvent::ConnectFinished { ok }) => {
            if ok {
                match mode {
                    ProxyMode::Socks4 => {
                        let response = match dest {
                            SocketAddr::V4(v4) => Socks4Response::success(v4),
                            SocketAddr::V6(_) => Socks4Response::failure(),
                        };
                        (SessionState::SendingGrant, SessionAction::SendGrant { response })
                    },
                    ProxyMode::Direct(_) => (SessionState::Forwarding, SessionAction::StartRelay),
                }
            } else {
                match mode {
                    ProxyMode::Socks4 => (
                        SessionState::SendingRejection { error: SessionError::ConnectFailure },
                        SessionAction::SendRejection { response: Socks4Response::failure() },
                    ),
                    ProxyMode::Direct(_) => (
                        SessionState::Failed { error: SessionError::ConnectFailure },
                        SessionAction::Shutdown,
                    ),
                }
            }
        },
        (SessionState::SendingGrant, SessionEvent::ResponseSent { ok }) => {
            if ok {
                (SessionState::Forwarding, SessionAction::StartRelay)
            } else {
                (SessionState::Failed { error: SessionError::IoError }, SessionAction::Shutdown)
            }
        },
        (SessionState::SendingRejection { error }, SessionEvent::ResponseSent { .. }) => (
            SessionState::Failed { error },
            SessionAction::Shutdown,
        ),
        (SessionState::Forwarding, SessionEvent::RelayFinished { .. }) => (
            SessionState::Closed,
            SessionAction::Shutdown,
        ),
        _ => unreached(),
    }
}

/// How far along its life a state is. Every transition strictly advances
/// the phase, so no state is ever revisited.
pub open spec fn phase(state: SessionState) -> int {
    match state {
        SessionState::Start => 0,
        SessionState::Handshaking => 1,
        SessionState::Connecting { .. } => 2,
        SessionState::SendingGrant => 3,
        SessionState::SendingRejection { .. } => 3,
        SessionState::Forwarding => 4,
        SessionState::Closed => 5,
        SessionState::Failed { .. } => 5,
    }
}

/// Every transition strictly advances the session's phase: the machine has
/// no rollback, no loop and no retry.
pub proof fn lemma_phase_advances(mode: ProxyMode, state: SessionState, event: SessionEvent)
    requires
        accepts(state, event),
    ensures
        phase(spec_step(mode, state, event).0) > phase(state),
{
}

/// The transition hands a response frame — grant or rejection — to the
/// client.
pub open spec fn sends_response(mode: ProxyMode, state: SessionState, event: SessionEvent) -> bool {
    ||| spec_step(mode, state, event).1 is SendGrant
    ||| spec_step(mode, state, event).1 is SendRejection
}

/// A whole run of one session: the states it passed through and the events
/// that drove it, starting at `Start`, each state accepting its event and
/// each successor produced by the transition table.
pub open spec fn is_run(mode: ProxyMode, states: Seq<SessionState>, events: Seq<SessionEvent>) -> bool {
    &&& states.len() == events.len() + 1
    &&& states[0] == SessionState::Start
    &&& forall|i: int|
        0 <= i < events.len() ==> accepts(states[i], #[trigger] events[i]) && states[i + 1]
            == spec_step(mode, states[i], events[i]).0
}

/// Along any run the phase never falls back.
pub proof fn lemma_phase_monotonic_on_run(
    mode: ProxyMode,
    states: Seq<SessionState>,
    events: Seq<SessionEvent>,
    i: int,
    j: int,
)
    requires
        is_run(mode, states, events),
        0 <= i <= j <= events.len(),
    ensures
        phase(states[j]) >= phase(states[i]),
    decreases j - i,
{
    if i < j {
        lemma_phase_monotonic_on_run(mode, states, events, i, j - 1);
        lemma_phase_advances(mode, states[j - 1], events[j - 1]);
    }
}

/// A response frame is handed to the client only while the session is still
/// negotiating: before the sending phase, never during or after forwarding.
pub proof fn lemma_send_only_while_negotiating(
    mode: ProxyMode,
    state: SessionState,
    event: SessionEvent,
)
    requires
        accepts(state, event),
        sends_response(mode, state, event),
    ensures
        phase(state) < 3,
        phase(spec_step(mode, state, event).0) == 3,
{
}

/// On any run of one session, at most one transition hands a response frame
/// to the client: whichever transition sends first, no later one sends
/// again.
pub proof fn lemma_response_sent_at_most_once(
    mode: ProxyMode,
    states: Seq<SessionState>,
    events: Seq<SessionEvent>,
    i: int,
    j: int,
)
    requires
        is_run(mode, states, events),
        0 <= i < j < events.len(),
        sends_response(mode, states[i], events[i]),
    ensures
        !sends_response(mode, states[j], events[j]),
{
    lemma_send_only_while_negotiating(mode, states[i], events[i]);
    lemma_phase_monotonic_on_run(mode, states, events, i + 1, j);
    if sends_response(mode, states[j], events[j]) {
        lemma_send_only_while_negotiating(mode, states[j], events[j]);
    }
}

/// Once forwarding has started, no later transition of the run hands the
/// client a response frame: every response precedes every payload byte.
pub proof fn lemma_no_response_after_relay(
    mode: ProxyMode,
    states: Seq<SessionState>,
    events: Seq<SessionEvent>,
    i: int,
    j: int,
)
    requires
        is_run(mode, states, events),
        0 <= i < j < events.len(),
        spec_step(mode, states[i], events[i]).1 is StartRelay,
    ensures
        !sends_response(mode, states[j], events[j]),
{
    assert(phase(states[i + 1]) == 4);
    lemma_phase_monotonic_on_run(mode, states, events, i + 1, j);
    if sends_response(mode, states[j], events[j]) {
        lemma_send_only_while_negotiating(mode, states[j], events[j]);
    }
}

/// In negotiated mode, a run reaches forwarding only through a transition
/// that handed the client a response. With `lemma_response_sent_at_most_once`
/// this makes the response exactly one per forwarding session, and with
/// `lemma_no_response_after_relay` it precedes every payload byte.
pub proof fn lemma_forwarding_implies_response_sent(
    states: Seq<SessionState>,
    events: Seq<SessionEvent>,
    k: int,
)
    requires
        is_run(ProxyMode::Socks4, states, events),
        0 <= k <= events.len(),
        states[k] is Forwarding,
    ensures
        exists|i: int|
            0 <= i < k && #[trigger] sends_response(ProxyMode::Socks4, states[i], events[i]),
{
    // Start is not Forwarding, so some transition entered it; in negotiated
    // mode the only arm of the table that yields Forwarding leaves
    // SendingGrant.
    assert(k >= 1);
    assert(states[k] == spec_step(ProxyMode::Socks4, states[k - 1], events[k - 1]).0);
    assert(states[k - 1] is SendingGrant);
    // SendingGrant in turn is entered only by the transition whose action is
    // the grant frame itself.
    assert(k - 1 >= 1);
    assert(states[k - 1] == spec_step(ProxyMode::Socks4, states[k - 2], events[k - 2]).0);
    assert(spec_step(ProxyMode::Socks4, states[k - 2], events[k - 2]).1 is SendGrant);
    assert(sends_response(ProxyMode::Socks4, states[k - 2], events[k - 2]));
}

/// In negotiated mode, whatever destination was being dialed, a failed dial
/// moves the session to sending the client the rejection frame, and the
/// session then only terminates: the dial is never retried.
pub proof fn lemma_connect_failure_sends_rejection(dest: SocketAddr)
    ensures
        spec_step(
            ProxyMode::Socks4,
            SessionState::Connecting { dest },
            SessionEvent::ConnectFinished { ok: false },
        ) == (
            SessionState::SendingRejection { error: SessionError::ConnectFailure },
            SessionAction::SendRejection { response: Socks4Response::spec_failure() },
        ),
{
}

/// Once the rejection frame has been handed off, every following transition
/// terminates the session with the failure it was reporting — whether or not
/// the frame could be written — and performs no dial, no read and no relay.
pub proof fn lemma_rejection_terminates(mode: ProxyMode, error: SessionError, event: SessionEvent)
    requires
        accepts(SessionState::SendingRejection { error }, event),
    ensures
        spec_step(mode, SessionState::SendingRejection { error }, event) == (
            SessionState::Failed { error },
            SessionAction::Shutdown,
        ),
{
}

/// `Closed` and `Failed` absorb: they accept no further event, so a
/// terminated session never acts again.
pub proof fn lemma_terminal_states_absorb(state: SessionState, event: SessionEvent)
    requires
        state is Closed || state is Failed,
    ensures
        !accepts(state, event),
{
}

/// However forwarding ends — clean end-of-stream on either direction, or a
/// fault in either direction — the session completes: it moves to `Closed`
/// and shuts both sockets down.
pub proof fn lemma_relay_finish_closes(mode: ProxyMode, clean_eof: bool)
    ensures
        spec_step(mode, SessionState::Forwarding, SessionEvent::RelayFinished { clean_eof }) == (
            SessionState::Closed,
            SessionAction::Shutdown,
        ),
{
}

/// In negotiated mode, forwarding starts only off a fully delivered
/// response: the one transition into `Forwarding` is the successful send of
/// the grant frame, so a response reaches the client before any payload byte
/// does.
pub proof fn lemma_response_precedes_relay(state: SessionState, event: SessionEvent)
    requires
        accepts(state, event),
    ensures
        (spec_step(ProxyMode::Socks4, state, event).1 is StartRelay) ==> (state is SendingGrant
            && event == (SessionEvent::ResponseSent { ok: true })),
{
}

/// A granted response is offered for sending only on the one transition
/// that learns the outbound connection succeeded, and only in negotiated
/// mode: the client is never told "granted" before the destination is
/// connected.
pub proof fn lemma_grant_only_after_connect(
    mode: ProxyMode,
    state: SessionState,
    event: SessionEvent,
)
    requires
        accepts(state, event),
    ensures
        (spec_step(mode, state, event).1 matches SessionAction::SendGrant { response }
            && response.status == crate::socks4::SOCKS4_REQUEST_GRANTED) ==> (state
            is Connecting && event == (SessionEvent::ConnectFinished { ok: true }) && mode
            is Socks4),
{
}

} // verus!
