//! The first server: it tells a client how its address looks from outside,
//! probes the client from a second port, and passes the address on to the
//! second server where one is configured.
//!
//! One hello is one unit of work, and units share nothing but the listening
//! socket. [`step`] takes a unit from event to event; the caller performs each
//! [`Server1Action`] and reports what came of it. The second socket is bound
//! for one send and released after it.

use vstd::prelude::*;
use crate::endpoint::{encode_endpoint, endpoint_wire, lemma_parse_wire, parse_endpoint, wire_len, Endpoint};
use crate::event::Event;
use crate::port::{gen_not_equal_port, is_alternate_port, next_port};
use crate::protocol::{decode, encode, lemma_parse_message_wire, message_wire, parse_message, Message};
use crate::protocol::NEW_SERVER1_MESSAGE;
use crate::server2::{server2_next, Server2ActionView, Server2State};

verus! {

/// What the first server is started with.
#[derive(Clone, Copy, Debug, PartialEq, Eq)]
pub struct Server1Config {
    /// The endpoint the server listens on.
    pub listening: Endpoint,
    /// The second server, where there is one.
    pub secondary: Option<Endpoint>,
}

/// Where a unit of work stands.
#[derive(Clone, Copy, Debug, PartialEq, Eq)]
pub enum Server1State {
    /// Nothing was read yet.
    AwaitingHello,
    /// The reflection was handed to the transport.
    ReflectionInFlight { client: Endpoint },
    /// The second socket is being bound on `local`.
    AlternateBinding { client: Endpoint, local: Endpoint },
    /// The probe was handed to the transport.
    ProbeInFlight { client: Endpoint },
    /// The client's address is on its way to the second server.
    ForwardInFlight { client: Endpoint },
    /// All that was to be sent left whole.
    Done,
    /// The unit was given up.
    Failed,
}

/// Why a unit of work was given up.
#[derive(Clone, Copy, Debug, PartialEq, Eq, Structural)]
pub enum Server1Error {
    /// The datagram is not a hello.
    BadHello,
    /// The transport refused the reflection.
    ReflectionSendFailed,
    /// The transport took only part of the reflection.
    ReflectionShortSend,
    /// The second socket could not be bound.
    AlternateBindFailed,
    /// The transport refused the probe.
    ProbeSendFailed,
    /// The transport took only part of the probe.
    ProbeShortSend,
    /// The transport refused the address meant for the second server.
    ForwardSendFailed,
    /// The transport took only part of the address meant for the second
    /// server.
    ForwardShortSend,
    /// The event answers nothing that was asked.
    OutOfSequence,
}

/// What the caller is to do next.
#[derive(Debug, PartialEq, Eq)]
pub enum Server1Action {
    /// Send `payload` to `to` from the listening socket.
    Reflect { to: Endpoint, payload: Vec<u8> },
    /// Bind a second socket on `local`.
    BindAlternate { local: Endpoint },
    /// Send `payload` to `to` from the second socket, the one bound on
    /// `from`, then release it.
    Probe { from: Endpoint, to: Endpoint, payload: Vec<u8> },
    /// Send `payload` to `to` from the listening socket.
    Forward { to: Endpoint, payload: Vec<u8> },
    /// The unit is complete.
    Finish,
    /// The unit ends here; the listening loop goes on.
    Abort(Server1Error),
}

/// [`Server1Action`] with its payloads as sequences.
pub enum Server1ActionView {
    Reflect { to: Endpoint, payload: Seq<u8> },
    BindAlternate { local: Endpoint },
    Probe { from: Endpoint, to: Endpoint, payload: Seq<u8> },
    Forward { to: Endpoint, payload: Seq<u8> },
    Finish,
    Abort(Server1Error),
}

impl View for Server1Action {
    type V = Server1ActionView;

    open spec fn view(&self) -> Server1ActionView {
        match *self {
            Server1Action::Reflect { to, payload } => Server1ActionView::Reflect { to, payload: payload@ },
            Server1Action::BindAlternate { local } => Server1ActionView::BindAlternate { local },
            Server1Action::Probe { from, to, payload } => Server1ActionView::Probe {
                from,
                to,
                payload: payload@,
            },
            Server1Action::Forward { to, payload } => Server1ActionView::Forward { to, payload: payload@ },
            Server1Action::Finish => Server1ActionView::Finish,
            Server1Action::Abort(e) => Server1ActionView::Abort(e),
        }
    }
}

/// The outcome of giving a unit up for `error`.
pub open spec fn server1_failed(error: Server1Error) -> (Server1State, Server1ActionView) {
    (Server1State::Failed, Server1ActionView::Abort(error))
}

/// The endpoint of the second socket: the listening address with
/// `alternate_port` for its port.
pub open spec fn alternate_endpoint(config: Server1Config, alternate_port: u16) -> Endpoint {
    Endpoint { ip: config.listening.ip, port: alternate_port }
}

/// Whether `local` can be the endpoint of the second socket: it has the
/// listening address and a port that can carry the probe.
pub open spec fn is_alternate_endpoint(config: Server1Config, local: Endpoint) -> bool {
    local.ip == config.listening.ip && is_alternate_port(config.listening.port, local.port)
}

/// What holds of every state that a unit of work passes through: where a
/// second socket is being bound, it is bound on an alternate endpoint.
pub open spec fn server1_state_valid(config: Server1Config, state: Server1State) -> bool {
    state matches Server1State::AlternateBinding { local, .. } ==> is_alternate_endpoint(config, local)
}

/// The first server's rule: the state and action that follow `event` in
/// `state`, where `alternate_port` is the port that the second socket is to
/// take.
pub open spec fn server1_next(
    config: Server1Config,
    state: Server1State,
    event: Event,
    alternate_port: u16,
) -> (Server1State, Server1ActionView) {
    match state {
        Server1State::AwaitingHello => match event {
            Event::Datagram { source, payload } => if parse_message(payload@) == Some(Message::Hello) {
                (
                    Server1State::ReflectionInFlight { client: source },
                    Server1ActionView::Reflect {
                        to: source,
                        payload: message_wire(Message::AddressReflection(source)),
                    },
                )
            } else {
                server1_failed(Server1Error::BadHello)
            },
            _ => server1_failed(Server1Error::OutOfSequence),
        },
        Server1State::ReflectionInFlight { client } => match event {
            Event::Sent { bytes } => if bytes == message_wire(Message::AddressReflection(client)).len() {
                (
                    Server1State::AlternateBinding { client, local: alternate_endpoint(config, alternate_port) },
                    Server1ActionView::BindAlternate { local: alternate_endpoint(config, alternate_port) },
                )
            } else {
                server1_failed(Server1Error::ReflectionShortSend)
            },
            Event::SendFailed => server1_failed(Server1Error::ReflectionSendFailed),
            _ => server1_failed(Server1Error::OutOfSequence),
        },
        Server1State::AlternateBinding { client, local } => match event {
            Event::Bound => (
                Server1State::ProbeInFlight { client },
                Server1ActionView::Probe { from: local, to: client, payload: message_wire(Message::AlternatePortProbe) },
            ),
            Event::BindFailed => server1_failed(Server1Error::AlternateBindFailed),
            _ => server1_failed(Server1Error::OutOfSequence),
        },
        Server1State::ProbeInFlight { client } => match event {
            Event::Sent { bytes } => if bytes == message_wire(Message::AlternatePortProbe).len() {
                match config.secondary {
                    Some(second) => (
                        Server1State::ForwardInFlight { client },
                        Server1ActionView::Forward { to: second, payload: endpoint_wire(client) },
                    ),
                    None => (Server1State::Done, Server1ActionView::Finish),
                }
            } else {
                server1_failed(Server1Error::ProbeShortSend)
            },
            Event::SendFailed => server1_failed(Server1Error::ProbeSendFailed),
            _ => server1_failed(Server1Error::OutOfSequence),
        },
        Server1State::ForwardInFlight { client } => match event {
            Event::Sent { bytes } => if bytes == endpoint_wire(client).len() {
                (Server1State::Done, Server1ActionView::Finish)
            } else {
                server1_failed(Server1Error::ForwardShortSend)
            },
            Event::SendFailed => server1_failed(Server1Error::ForwardSendFailed),
            _ => server1_failed(Server1Error::OutOfSequence),
        },
        Server1State::Done => (Server1State::Done, Server1ActionView::Abort(Server1Error::OutOfSequence)),
        Server1State::Failed => server1_failed(Server1Error::OutOfSequence),
    }
}

/// The events a unit of work in `state` can still take before it is over.
pub open spec fn server1_events_left(state: Server1State) -> nat {
    match state {
        Server1State::AwaitingHello => 5,
        Server1State::ReflectionInFlight { .. } => 4,
        Server1State::AlternateBinding { .. } => 3,
        Server1State::ProbeInFlight { .. } => 2,
        Server1State::ForwardInFlight { .. } => 1,
        Server1State::Done => 0,
        Server1State::Failed => 0,
    }
}

/// A unit of work never goes back and never stays: every event takes it on
/// or ends it, and a unit that is over stays as it is. The caller is told
/// that the unit is over, by a finish or an abort, exactly when it is. No
/// unit outlives five events, so none holds anything between datagrams.
pub proof fn lemma_server1_advances(
    config: Server1Config,
    state: Server1State,
    event: Event,
    alternate_port: u16,
)
    ensures
        ({
            let next = server1_next(config, state, event, alternate_port);
            &&& server1_events_left(state) > 0 ==> server1_events_left(next.0) < server1_events_left(state)
            &&& server1_events_left(state) == 0 ==> next.0 == state
            &&& server1_events_left(next.0) == 0 <==> (next.1 is Finish || next.1 is Abort)
            &&& next.1 is Finish <==> server1_events_left(state) > 0 && next.0 == Server1State::Done
        }),
{
}

/// Bytes that spell no message are never acted on: the datagram that carries
/// them ends the unit, and nothing is sent for it.
pub proof fn lemma_server1_rejects_malformed(
    config: Server1Config,
    state: Server1State,
    event: Event,
    alternate_port: u16,
)
    requires
        event matches Event::Datagram { payload, .. } && parse_message(payload@) is None,
    ensures
        server1_next(config, state, event, alternate_port).1 is Abort,
{
}

/// The reflection names the sender: whoever a hello is seen to come from,
/// the reply goes to that endpoint and reads back as that endpoint, address
/// and port unchanged.
pub proof fn lemma_reflection_names_source(config: Server1Config, event: Event, alternate_port: u16)
    requires
        event matches Event::Datagram { payload, .. } && payload@ == message_wire(Message::Hello),
    ensures
        ({
            let source = event->Datagram_source;
            let next = server1_next(config, Server1State::AwaitingHello, event, alternate_port);
            &&& next.0 == Server1State::ReflectionInFlight { client: source }
            &&& next.1 matches Server1ActionView::Reflect { to, payload }
            &&& to == source
            &&& parse_message(payload) == Some(Message::AddressReflection(source))
            &&& parse_endpoint(payload) == Some(source)
        }),
{
    let source = event->Datagram_source;
    lemma_parse_message_wire(Message::Hello);
    lemma_parse_message_wire(Message::AddressReflection(source));
    lemma_parse_wire(source);
}

/// The probe never leaves from the listening port. A unit of work begins in
/// a valid state and every event keeps it in one, whatever port was picked
/// among those that can carry the probe; and from a valid state a bind is
/// asked for, and the probe is sent from, the listening address and another
/// port.
pub proof fn lemma_alternate_port_differs(
    config: Server1Config,
    state: Server1State,
    event: Event,
    alternate_port: u16,
)
    requires
        server1_state_valid(config, state),
        is_alternate_port(config.listening.port, alternate_port),
    ensures
        server1_state_valid(config, Server1State::AwaitingHello),
        server1_state_valid(config, server1_next(config, state, event, alternate_port).0),
        server1_next(config, state, event, alternate_port).1 matches Server1ActionView::BindAlternate { local }
            ==> local.ip == config.listening.ip && local.port != config.listening.port,
        server1_next(config, state, event, alternate_port).1 matches Server1ActionView::Probe { from, .. }
            ==> from.ip == config.listening.ip && from.port != config.listening.port,
{
}

/// What is forwarded reaches the client: the bytes that go to the second
/// server are those of the reflection, and the second server, reading them,
/// probes the client.
pub proof fn lemma_forward_reaches_client(
    config: Server1Config,
    client: Endpoint,
    alternate_port: u16,
    forwarded: Event,
)
    requires
        config.secondary is Some,
        forwarded matches Event::Datagram { payload, .. } && payload@ == endpoint_wire(client),
    ensures
        server1_next(
            config,
            Server1State::ProbeInFlight { client },
            Event::Sent { bytes: message_wire(Message::AlternatePortProbe).len() as usize },
            alternate_port,
        ).1 == (Server1ActionView::Forward {
            to: config.secondary->Some_0,
            payload: message_wire(Message::AddressReflection(client)),
        }),
        server2_next(Server2State::AwaitingAddress, forwarded) == (
            Server2State::ProbeInFlight,
            Server2ActionView::Probe { to: client, payload: message_wire(Message::SecondaryProbe) },
        ),
{
    lemma_parse_wire(client);
}

/// The state in which a unit of work begins.
pub fn start() -> (state: Server1State)
    ensures
        state == Server1State::AwaitingHello,
        forall|config: Server1Config| server1_state_valid(config, state),
{
    Server1State::AwaitingHello
}

/// Takes a unit of work one event further, with `alternate_port` as the port
/// of the second socket.
pub fn decide(config: &Server1Config, state: Server1State, event: Event, alternate_port: u16) -> (r: (
    Server1State,
    Server1Action,
))
    requires
        is_alternate_port(config.listening.port, alternate_port),
    ensures
        (r.0, r.1@) == server1_next(*config, state, event, alternate_port),
        server1_state_valid(*config, state) ==> server1_state_valid(*config, r.0),
{
    match state {
        Server1State::AwaitingHello => match event {
            Event::Datagram { source, payload } => match decode(payload.as_slice()) {
                Ok(Message::Hello) => (
                    Server1State::ReflectionInFlight { client: source },
                    Server1Action::Reflect { to: source, payload: encode(&Message::AddressReflection(source)) },
                ),
                _ => (Server1State::Failed, Server1Action::Abort(Server1Error::BadHello)),
            },
            _ => (Server1State::Failed, Server1Action::Abort(Server1Error::OutOfSequence)),
        },
        Server1State::ReflectionInFlight { client } => match event {
            Event::Sent { bytes } => if bytes == wire_len(&client) {
                let local = Endpoint { ip: config.listening.ip, port: alternate_port };
                (Server1State::AlternateBinding { client, local }, Server1Action::BindAlternate { local })
            } else {
                (Server1State::Failed, Server1Action::Abort(Server1Error::ReflectionShortSend))
            },
            Event::SendFailed => (
                Server1State::Failed,
                Server1Action::Abort(Server1Error::ReflectionSendFailed),
            ),
            _ => (Server1State::Failed, Server1Action::Abort(Server1Error::OutOfSequence)),
        },
        Server1State::AlternateBinding { client, local } => match event {
            Event::Bound => (
                Server1State::ProbeInFlight { client },
                Server1Action::Probe { from: local, to: client, payload: encode(&Message::AlternatePortProbe) },
            ),
            Event::BindFailed => (
                Server1State::Failed,
                Server1Action::Abort(Server1Error::AlternateBindFailed),
            ),
            _ => (Server1State::Failed, Server1Action::Abort(Server1Error::OutOfSequence)),
        },
        Server1State::ProbeInFlight { client } => match event {
            Event::Sent { bytes } => if bytes == NEW_SERVER1_MESSAGE.len() {
                match config.secondary {
                    Some(second) => (
                        Server1State::ForwardInFlight { client },
                        Server1Action::Forward { to: second, payload: encode_endpoint(&client) },
                    ),
                    None => (Server1State::Done, Server1Action::Finish),
                }
            } else {
                (Server1State::Failed, Server1Action::Abort(Server1Error::ProbeShortSend))
            },
            Event::SendFailed => (Server1State::Failed, Server1Action::Abort(Server1Error::ProbeSendFailed)),
            _ => (Server1State::Failed, Server1Action::Abort(Server1Error::OutOfSequence)),
        },
        Server1State::ForwardInFlight { client } => match event {
            Event::Sent { bytes } => if bytes == wire_len(&client) {
                (Server1State::Done, Server1Action::Finish)
            } else {
                (Server1State::Failed, Server1Action::Abort(Server1Error::ForwardShortSend))
            },
            Event::SendFailed => (
                Server1State::Failed,
                Server1Action::Abort(Server1Error::ForwardSendFailed),
            ),
            _ => (Server1State::Failed, Server1Action::Abort(Server1Error::OutOfSequence)),
        },
        Server1State::Done => (Server1State::Done, Server1Action::Abort(Server1Error::OutOfSequence)),
        Server1State::Failed => (Server1State::Failed, Server1Action::Abort(Server1Error::OutOfSequence)),
    }
}

/// Takes a unit of work one event further. Where the second socket is to be
/// bound, its port is drawn by [`gen_not_equal_port`]: the outcome is that of
/// [`decide`] for some port that can carry the probe. From a state that this
/// function or [`start`] gave, the bind is never asked for on the listening
/// port and the probe never leaves from it.
pub fn step(config: &Server1Config, state: Server1State, event: Event) -> (r: (Server1State, Server1Action))
    ensures
        exists|port: u16| #[trigger]
            is_alternate_port(config.listening.port, port) && (r.0, r.1@) == server1_next(
                *config,
                state,
                event,
                port,
            ),
        server1_state_valid(*config, state) ==> server1_state_valid(*config, r.0),
        r.1@ matches Server1ActionView::BindAlternate { local } ==> is_alternate_endpoint(*config, local),
        server1_state_valid(*config, state) ==> (r.1@ matches Server1ActionView::Probe { from, .. }
            ==> is_alternate_endpoint(*config, from)),
{
    match state {
        Server1State::ReflectionInFlight { .. } => {
            let port = gen_not_equal_port(config.listening.port);
            decide(config, state, event, port)
        },
        _ => {
            // No socket is bound from here: any port that could be will do.
            let port = next_port(config.listening.port);
            decide(config, state, event, port)
        },
    }
}

} // verus!
