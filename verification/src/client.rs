//! The client: one run of the probe, from binding a socket to the two
//! conclusions.
//!
//! A run is strictly sequential. [`start`] and [`step`] take it from event to
//! event; the caller performs each [`ClientAction`] on its one socket and
//! reports what came of it. The two waits are the only places where nothing
//! arriving is an answer and not a failure.

use vstd::prelude::*;
use crate::endpoint::{address_bytes, Endpoint, IpAddress};
use crate::event::Event;
use crate::protocol::{decode, encode, lemma_parse_message_wire, message_wire, parse_message, Message};
use crate::protocol::HELLO_MESSAGE;

verus! {

/// Seconds the client waits for each of the two probes.
pub const PROBE_TIMEOUT_SECS: u64 = 2;

/// What the client is started with.
#[derive(Clone, Copy, Debug, PartialEq, Eq)]
pub struct ClientConfig {
    /// The endpoint the client binds its socket to.
    pub local: Endpoint,
    /// The first server.
    pub server1: Endpoint,
}

/// Which probes arrived before their waits ran out.
#[derive(Clone, Copy, Debug, PartialEq, Eq, Structural)]
pub struct ProbeOutcome {
    /// The first server's probe from its second port arrived.
    pub alternate: bool,
    /// The second server's probe arrived.
    pub secondary: bool,
}

/// What the alternate probe says of the router.
#[derive(Clone, Copy, Debug, PartialEq, Eq, Structural)]
pub enum PrimaryConclusion {
    /// A host the client has written to got through from another port.
    AddressRestrictedCone,
    /// Nothing got through but from the very endpoint the client wrote to.
    PortRestrictedCone,
}

/// What the secondary probe says of the router.
#[derive(Clone, Copy, Debug, PartialEq, Eq, Structural)]
pub enum SecondaryConclusion {
    /// A host the client never wrote to got through.
    FullCone,
    /// The router is address-restricted, or the second server was not there:
    /// the run cannot tell.
    Inconclusive,
}

/// The two conclusions of a run, side by side. They are drawn apart and may
/// contradict one another.
#[derive(Clone, Copy, Debug, PartialEq, Eq, Structural)]
pub struct Classification {
    pub primary: PrimaryConclusion,
    pub secondary: SecondaryConclusion,
}

/// Where a run stands.
#[derive(Clone, Copy, Debug, PartialEq, Eq)]
pub enum ClientState {
    /// The socket is being bound.
    Unbound,
    /// The socket is bound and is being connected to the first server.
    Bound,
    /// The socket is connected and the hello was handed to the transport.
    ConnectedToServer1,
    /// The hello left whole; the reflection is awaited, without a limit.
    AwaitingReflection,
    /// The reflection named `mapping`; the socket is being unconnected.
    Reflected { mapping: Endpoint },
    /// The socket hears any sender; the alternate probe is awaited.
    AwaitingAlternateProbe { mapping: Endpoint },
    /// The secondary probe is awaited.
    AwaitingSecondaryProbe { mapping: Endpoint, alternate: bool },
    /// The run is over.
    Classified { mapping: Endpoint, outcome: ProbeOutcome },
    /// The run was given up.
    Failed,
}

/// Why a run was given up.
#[derive(Clone, Copy, Debug, PartialEq, Eq, Structural)]
pub enum ClientError {
    /// The socket could not be bound.
    BindFailed,
    /// The socket could not be connected to the first server.
    ConnectFailed,
    /// The transport refused the hello.
    HelloSendFailed,
    /// The transport took only part of the hello.
    HelloShortSend,
    /// The receive of the reflection failed.
    ReflectionReceiveFailed,
    /// What came in place of the reflection is not an endpoint.
    BadReflection,
    /// The socket could not be unconnected.
    DisconnectFailed,
    /// The receive of the alternate probe failed.
    AlternateReceiveFailed,
    /// What came in place of the alternate probe is something else.
    BadAlternateProbe,
    /// The receive of the secondary probe failed.
    SecondaryReceiveFailed,
    /// What came in place of the secondary probe is something else.
    BadSecondaryProbe,
    /// The event answers nothing that was asked.
    OutOfSequence,
}

/// What the caller is to do next.
#[derive(Debug, PartialEq, Eq)]
pub enum ClientAction {
    /// Bind the socket to `local`.
    Bind { local: Endpoint },
    /// Make `peer` the socket's only peer.
    Connect { peer: Endpoint },
    /// Send `payload` to the socket's peer.
    Send { payload: Vec<u8> },
    /// Receive one datagram, however long it takes.
    Receive,
    /// Connect the socket to `peer`, the unspecified address, so that it
    /// hears any sender again.
    Disconnect { peer: Endpoint },
    /// Receive one datagram from any sender, or give up after `timeout_secs`
    /// seconds.
    AwaitDatagram { timeout_secs: u64 },
    /// The run is over: this is what arrived, and what it says of the router.
    Report { outcome: ProbeOutcome, classification: Classification },
    /// The run ends here.
    Abort(ClientError),
}

/// [`ClientAction`] with its payload as a sequence.
pub enum ClientActionView {
    Bind { local: Endpoint },
    Connect { peer: Endpoint },
    Send { payload: Seq<u8> },
    Receive,
    Disconnect { peer: Endpoint },
    AwaitDatagram { timeout_secs: u64 },
    Report { outcome: ProbeOutcome, classification: Classification },
    Abort(ClientError),
}

impl View for ClientAction {
    type V = ClientActionView;

    open spec fn view(&self) -> ClientActionView {
        match *self {
            ClientAction::Bind { local } => ClientActionView::Bind { local },
            ClientAction::Connect { peer } => ClientActionView::Connect { peer },
            ClientAction::Send { payload } => ClientActionView::Send { payload: payload@ },
            ClientAction::Receive => ClientActionView::Receive,
            ClientAction::Disconnect { peer } => ClientActionView::Disconnect { peer },
            ClientAction::AwaitDatagram { timeout_secs } => ClientActionView::AwaitDatagram { timeout_secs },
            ClientAction::Report { outcome, classification } => ClientActionView::Report {
                outcome,
                classification,
            },
            ClientAction::Abort(e) => ClientActionView::Abort(e),
        }
    }
}

/// Whether `e` is the unspecified endpoint of the family of `base`: every
/// address byte zero, port zero.
pub open spec fn is_unspecified_like(base: Endpoint, e: Endpoint) -> bool {
    &&& e.ip is V4 <==> base.ip is V4
    &&& forall|i: int| 0 <= i < address_bytes(e.ip).len() ==> address_bytes(e.ip)[i] == 0
    &&& e.port == 0
}

/// The unspecified endpoint of the family of `base`.
pub open spec fn unspecified_like(base: Endpoint) -> Endpoint {
    match base.ip {
        IpAddress::V4(_) => Endpoint { ip: IpAddress::V4([0u8, 0u8, 0u8, 0u8]), port: 0 },
        IpAddress::V6(_) => Endpoint {
            ip: IpAddress::V6(
                [0u8, 0u8, 0u8, 0u8, 0u8, 0u8, 0u8, 0u8, 0u8, 0u8, 0u8, 0u8, 0u8, 0u8, 0u8, 0u8],
            ),
            port: 0,
        },
    }
}

/// There is one unspecified endpoint to a family, and [`unspecified_like`]
/// gives it.
pub proof fn lemma_unspecified_unique(base: Endpoint, e: Endpoint)
    ensures
        is_unspecified_like(base, e) <==> e == unspecified_like(base),
{
    let u = unspecified_like(base);
    if is_unspecified_like(base, e) {
        match (e.ip, u.ip) {
            (IpAddress::V4(x), IpAddress::V4(y)) => {
                assert forall|i: int| 0 <= i < 4 implies x[i] == y[i] by {
                    assert(address_bytes(e.ip)[i] == 0);
                }
                assert(x =~= y);
            },
            (IpAddress::V6(x), IpAddress::V6(y)) => {
                assert forall|i: int| 0 <= i < 16 implies x[i] == y[i] by {
                    assert(address_bytes(e.ip)[i] == 0);
                }
                assert(x =~= y);
            },
            _ => {},
        }
    }
}

/// What the alternate probe, arrived or not, says of the router.
pub open spec fn primary_conclusion(alternate: bool) -> PrimaryConclusion {
    if alternate {
        PrimaryConclusion::AddressRestrictedCone
    } else {
        PrimaryConclusion::PortRestrictedCone
    }
}

/// What the secondary probe, arrived or not, says of the router.
pub open spec fn secondary_conclusion(secondary: bool) -> SecondaryConclusion {
    if secondary {
        SecondaryConclusion::FullCone
    } else {
        SecondaryConclusion::Inconclusive
    }
}

/// The two conclusions that `outcome` supports, each drawn from its own
/// probe.
pub open spec fn classification_of(outcome: ProbeOutcome) -> Classification {
    Classification {
        primary: primary_conclusion(outcome.alternate),
        secondary: secondary_conclusion(outcome.secondary),
    }
}

/// The state and action that end a run with `outcome`.
pub open spec fn client_classified(mapping: Endpoint, outcome: ProbeOutcome) -> (ClientState, ClientActionView) {
    (
        ClientState::Classified { mapping, outcome },
        ClientActionView::Report { outcome, classification: classification_of(outcome) },
    )
}

/// The outcome of giving a run up for `error`.
pub open spec fn client_failed(error: ClientError) -> (ClientState, ClientActionView) {
    (ClientState::Failed, ClientActionView::Abort(error))
}

/// The state and action a run begins with.
pub open spec fn client_first(config: ClientConfig) -> (ClientState, ClientActionView) {
    (ClientState::Unbound, ClientActionView::Bind { local: config.local })
}

/// The client's rule: the state and action that follow `event` in `state`.
pub open spec fn client_next(config: ClientConfig, state: ClientState, event: Event) -> (
    ClientState,
    ClientActionView,
) {
    match state {
        ClientState::Unbound => match event {
            Event::Bound => (ClientState::Bound, ClientActionView::Connect { peer: config.server1 }),
            Event::BindFailed => client_failed(ClientError::BindFailed),
            _ => client_failed(ClientError::OutOfSequence),
        },
        ClientState::Bound => match event {
            Event::Connected => (
                ClientState::ConnectedToServer1,
                ClientActionView::Send { payload: message_wire(Message::Hello) },
            ),
            Event::ConnectFailed => client_failed(ClientError::ConnectFailed),
            _ => client_failed(ClientError::OutOfSequence),
        },
        ClientState::ConnectedToServer1 => match event {
            Event::Sent { bytes } => if bytes == message_wire(Message::Hello).len() {
                (ClientState::AwaitingReflection, ClientActionView::Receive)
            } else {
                client_failed(ClientError::HelloShortSend)
            },
            Event::SendFailed => client_failed(ClientError::HelloSendFailed),
            _ => client_failed(ClientError::OutOfSequence),
        },
        ClientState::AwaitingReflection => match event {
            Event::Datagram { source, payload } => match parse_message(payload@) {
                Some(Message::AddressReflection(mapping)) => (
                    ClientState::Reflected { mapping },
                    ClientActionView::Disconnect { peer: unspecified_like(config.server1) },
                ),
                _ => client_failed(ClientError::BadReflection),
            },
            Event::ReceiveFailed => client_failed(ClientError::ReflectionReceiveFailed),
            _ => client_failed(ClientError::OutOfSequence),
        },
        ClientState::Reflected { mapping } => match event {
            Event::Connected => (
                ClientState::AwaitingAlternateProbe { mapping },
                ClientActionView::AwaitDatagram { timeout_secs: PROBE_TIMEOUT_SECS },
            ),
            Event::ConnectFailed => client_failed(ClientError::DisconnectFailed),
            _ => client_failed(ClientError::OutOfSequence),
        },
        ClientState::AwaitingAlternateProbe { mapping } => match event {
            Event::Datagram { source, payload } => if parse_message(payload@) == Some(
                Message::AlternatePortProbe,
            ) {
                (
                    ClientState::AwaitingSecondaryProbe { mapping, alternate: true },
                    ClientActionView::AwaitDatagram { timeout_secs: PROBE_TIMEOUT_SECS },
                )
            } else {
                client_failed(ClientError::BadAlternateProbe)
            },
            Event::TimedOut => (
                ClientState::AwaitingSecondaryProbe { mapping, alternate: false },
                ClientActionView::AwaitDatagram { timeout_secs: PROBE_TIMEOUT_SECS },
            ),
            Event::ReceiveFailed => client_failed(ClientError::AlternateReceiveFailed),
            _ => client_failed(ClientError::OutOfSequence),
        },
        ClientState::AwaitingSecondaryProbe { mapping, alternate } => match event {
            Event::Datagram { source, payload } => if parse_message(payload@) == Some(
                Message::SecondaryProbe,
            ) {
                client_classified(mapping, ProbeOutcome { alternate, secondary: true })
            } else {
                client_failed(ClientError::BadSecondaryProbe)
            },
            Event::TimedOut => client_classified(mapping, ProbeOutcome { alternate, secondary: false }),
            Event::ReceiveFailed => client_failed(ClientError::SecondaryReceiveFailed),
            _ => client_failed(ClientError::OutOfSequence),
        },
        ClientState::Classified { mapping, outcome } => (state, ClientActionView::Abort(ClientError::OutOfSequence)),
        ClientState::Failed => client_failed(ClientError::OutOfSequence),
    }
}

/// The state a run is in after `events`, one after the other, from `state`.
pub open spec fn client_run(config: ClientConfig, state: ClientState, events: Seq<Event>) -> ClientState
    decreases events.len(),
{
    if events.len() == 0 {
        state
    } else {
        client_run(config, client_next(config, state, events[0]).0, events.subrange(1, events.len() as int))
    }
}

/// The events a run in `state` can still take before it is over.
pub open spec fn client_events_left(state: ClientState) -> nat {
    match state {
        ClientState::Unbound => 7,
        ClientState::Bound => 6,
        ClientState::ConnectedToServer1 => 5,
        ClientState::AwaitingReflection => 4,
        ClientState::Reflected { .. } => 3,
        ClientState::AwaitingAlternateProbe { .. } => 2,
        ClientState::AwaitingSecondaryProbe { .. } => 1,
        ClientState::Classified { .. } => 0,
        ClientState::Failed => 0,
    }
}

/// A run never goes back and never stays: every event takes it one state on
/// or ends it, and a run that is over stays as it is. The caller is told
/// that the run is over, by a report or an abort, exactly when it is.
pub proof fn lemma_client_advances(config: ClientConfig, state: ClientState, event: Event)
    ensures
        ({
            let next = client_next(config, state, event);
            &&& client_events_left(state) > 0 ==> (next.0 == ClientState::Failed || client_events_left(next.0)
                == client_events_left(state) - 1)
            &&& client_events_left(state) == 0 ==> next.0 == state
            &&& client_events_left(next.0) == 0 <==> (next.1 is Report || next.1 is Abort)
            &&& next.1 is Report <==> client_events_left(state) > 0 && next.0 is Classified
        }),
{
}

/// Bytes that spell no message are never acted on: whatever the run was
/// waiting for, the datagram that carries them ends it.
pub proof fn lemma_client_rejects_malformed(config: ClientConfig, state: ClientState, event: Event)
    requires
        event matches Event::Datagram { payload, .. } && parse_message(payload@) is None,
    ensures
        client_next(config, state, event).1 is Abort,
{
}

/// Once unconnected, the client hears whoever sends. After the reflection it
/// asks to be connected to the unspecified address; from there on the two
/// probes are taken from any two senders, and the run ends with the
/// reflected mapping and both probes on record.
pub proof fn lemma_probes_accepted_from_any_sender(
    config: ClientConfig,
    mapping: Endpoint,
    reflection: Event,
    first: Event,
    second: Event,
)
    requires
        reflection matches Event::Datagram { payload, .. } && payload@ == message_wire(Message::AddressReflection(mapping)),
        first matches Event::Datagram { payload, .. } && payload@ == message_wire(Message::AlternatePortProbe),
        second matches Event::Datagram { payload, .. } && payload@ == message_wire(Message::SecondaryProbe),
    ensures
        client_next(config, ClientState::AwaitingReflection, reflection).1 == (ClientActionView::Disconnect {
            peer: unspecified_like(config.server1),
        }),
        client_run(config, ClientState::AwaitingReflection, seq![reflection, Event::Connected, first, second])
            == (ClientState::Classified {
            mapping,
            outcome: ProbeOutcome { alternate: true, secondary: true },
        }),
{
    lemma_parse_message_wire(Message::AddressReflection(mapping));
    lemma_parse_message_wire(Message::AlternatePortProbe);
    lemma_parse_message_wire(Message::SecondaryProbe);
    let events = seq![reflection, Event::Connected, first, second];
    let s0 = ClientState::AwaitingReflection;
    let s1 = client_next(config, s0, events[0]).0;
    let s2 = client_next(config, s1, events[1]).0;
    let s3 = client_next(config, s2, events[2]).0;
    let s4 = client_next(config, s3, events[3]).0;
    let e1 = events.subrange(1, 4);
    let e2 = e1.subrange(1, 3);
    let e3 = e2.subrange(1, 2);
    let e4 = e3.subrange(1, 1);
    assert(client_run(config, s4, e4) == s4);
    assert(client_run(config, s3, e3) == s4);
    assert(client_run(config, s2, e2) == s4);
    assert(client_run(config, s1, e1) == s4);
    assert(client_run(config, s0, events) == s4);
}

/// A wait that runs out is an answer: from either wait, silence takes the
/// run on, and no failure comes of it.
pub proof fn lemma_timeouts_are_answers(config: ClientConfig, mapping: Endpoint, alternate: bool)
    ensures
        client_next(config, ClientState::AwaitingAlternateProbe { mapping }, Event::TimedOut).0
            == (ClientState::AwaitingSecondaryProbe { mapping, alternate: false }),
        client_next(config, ClientState::AwaitingSecondaryProbe { mapping, alternate }, Event::TimedOut)
            == client_classified(mapping, ProbeOutcome { alternate, secondary: false }),
{
}

/// The unspecified endpoint of the family of `base`: the peer to connect a
/// socket to so that it hears any sender again.
pub fn get_unspec_sock_addr(base: &Endpoint) -> (e: Endpoint)
    ensures
        e == unspecified_like(*base),
        is_unspecified_like(*base, e),
{
    let e = match base.ip {
        IpAddress::V4(_) => Endpoint { ip: IpAddress::V4([0, 0, 0, 0]), port: 0 },
        IpAddress::V6(_) => Endpoint { ip: IpAddress::V6([0, 0, 0, 0, 0, 0, 0, 0, 0, 0, 0, 0, 0, 0, 0, 0]), port: 0 },
    };
    proof {
        lemma_unspecified_unique(*base, e);
    }
    e
}

/// What the alternate probe, arrived or not, says of the router.
pub fn conclude_primary(alternate: bool) -> (c: PrimaryConclusion)
    ensures
        c == primary_conclusion(alternate),
{
    if alternate {
        PrimaryConclusion::AddressRestrictedCone
    } else {
        PrimaryConclusion::PortRestrictedCone
    }
}

/// What the secondary probe, arrived or not, says of the router.
pub fn conclude_secondary(secondary: bool) -> (c: SecondaryConclusion)
    ensures
        c == secondary_conclusion(secondary),
{
    if secondary {
        SecondaryConclusion::FullCone
    } else {
        SecondaryConclusion::Inconclusive
    }
}

/// The two conclusions that `outcome` supports. Neither is weighed against
/// the other.
pub fn classify(outcome: ProbeOutcome) -> (c: Classification)
    ensures
        c == classification_of(outcome),
{
    Classification {
        primary: conclude_primary(outcome.alternate),
        secondary: conclude_secondary(outcome.secondary),
    }
}

/// Begins a run.
pub fn start(config: &ClientConfig) -> (r: (ClientState, ClientAction))
    ensures
        (r.0, r.1@) == client_first(*config),
{
    (ClientState::Unbound, ClientAction::Bind { local: config.local })
}

/// Takes a run one event further.
pub fn step(config: &ClientConfig, state: ClientState, event: Event) -> (r: (ClientState, ClientAction))
    ensures
        (r.0, r.1@) == client_next(*config, state, event),
{
    match state {
        ClientState::Unbound => match event {
            Event::Bound => (ClientState::Bound, ClientAction::Connect { peer: config.server1 }),
            Event::BindFailed => (ClientState::Failed, ClientAction::Abort(ClientError::BindFailed)),
            _ => (ClientState::Failed, ClientAction::Abort(ClientError::OutOfSequence)),
        },
        ClientState::Bound => match event {
            Event::Connected => (
                ClientState::ConnectedToServer1,
                ClientAction::Send { payload: encode(&Message::Hello) },
            ),
            Event::ConnectFailed => (ClientState::Failed, ClientAction::Abort(ClientError::ConnectFailed)),
            _ => (ClientState::Failed, ClientAction::Abort(ClientError::OutOfSequence)),
        },
        ClientState::ConnectedToServer1 => match event {
            Event::Sent { bytes } => if bytes == HELLO_MESSAGE.len() {
                (ClientState::AwaitingReflection, ClientAction::Receive)
            } else {
                (ClientState::Failed, ClientAction::Abort(ClientError::HelloShortSend))
            },
            Event::SendFailed => (ClientState::Failed, ClientAction::Abort(ClientError::HelloSendFailed)),
            _ => (ClientState::Failed, ClientAction::Abort(ClientError::OutOfSequence)),
        },
        ClientState::AwaitingReflection => match event {
            Event::Datagram { source, payload } => match decode(payload.as_slice()) {
                Ok(Message::AddressReflection(mapping)) => (
                    ClientState::Reflected { mapping },
                    ClientAction::Disconnect { peer: get_unspec_sock_addr(&config.server1) },
                ),
                _ => (ClientState::Failed, ClientAction::Abort(ClientError::BadReflection)),
            },
            Event::ReceiveFailed => (
                ClientState::Failed,
                ClientAction::Abort(ClientError::ReflectionReceiveFailed),
            ),
            _ => (ClientState::Failed, ClientAction::Abort(ClientError::OutOfSequence)),
        },
        ClientState::Reflected { mapping } => match event {
            Event::Connected => (
                ClientState::AwaitingAlternateProbe { mapping },
                ClientAction::AwaitDatagram { timeout_secs: PROBE_TIMEOUT_SECS },
            ),
            Event::ConnectFailed => (ClientState::Failed, ClientAction::Abort(ClientError::DisconnectFailed)),
            _ => (ClientState::Failed, ClientAction::Abort(ClientError::OutOfSequence)),
        },
        ClientState::AwaitingAlternateProbe { mapping } => match event {
            Event::Datagram { source, payload } => match decode(payload.as_slice()) {
                Ok(Message::AlternatePortProbe) => (
                    ClientState::AwaitingSecondaryProbe { mapping, alternate: true },
                    ClientAction::AwaitDatagram { timeout_secs: PROBE_TIMEOUT_SECS },
                ),
                _ => (ClientState::Failed, ClientAction::Abort(ClientError::BadAlternateProbe)),
            },
            Event::TimedOut => (
                ClientState::AwaitingSecondaryProbe { mapping, alternate: false },
                ClientAction::AwaitDatagram { timeout_secs: PROBE_TIMEOUT_SECS },
            ),
            Event::ReceiveFailed => (
                ClientState::Failed,
                ClientAction::Abort(ClientError::AlternateReceiveFailed),
            ),
            _ => (ClientState::Failed, ClientAction::Abort(ClientError::OutOfSequence)),
        },
        ClientState::AwaitingSecondaryProbe { mapping, alternate } => match event {
            Event::Datagram { source, payload } => match decode(payload.as_slice()) {
                Ok(Message::SecondaryProbe) => {
                    let outcome = ProbeOutcome { alternate, secondary: true };
                    (
                        ClientState::Classified { mapping, outcome },
                        ClientAction::Report { outcome, classification: classify(outcome) },
                    )
                },
                _ => (ClientState::Failed, ClientAction::Abort(ClientError::BadSecondaryProbe)),
            },
            Event::TimedOut => {
                let outcome = ProbeOutcome { alternate, secondary: false };
                (
                    ClientState::Classified { mapping, outcome },
                    ClientAction::Report { outcome, classification: classify(outcome) },
                )
            },
            Event::ReceiveFailed => (
                ClientState::Failed,
                ClientAction::Abort(ClientError::SecondaryReceiveFailed),
            ),
            _ => (ClientState::Failed, ClientAction::Abort(ClientError::OutOfSequence)),
        },
        ClientState::Classified { .. } => (state, ClientAction::Abort(ClientError::OutOfSequence)),
        ClientState::Failed => (ClientState::Failed, ClientAction::Abort(ClientError::OutOfSequence)),
    }
}

} // verus!
