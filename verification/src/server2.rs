//! The second server: told a client's address, it probes that address.
//!
//! One datagram is one unit of work. [`step`] takes the unit from event to
//! event; the caller performs each [`Server2Action`] on the listening socket
//! and reports what came of it. Whoever can reach the server can make it
//! probe: the sender of the address is not examined.

use vstd::prelude::*;
use crate::endpoint::{decode_endpoint, endpoint_wire, lemma_parse_wire, parse_endpoint, Endpoint};
use crate::event::Event;
use crate::protocol::{encode, message_wire, Message, SERVER2_MESSAGE};

verus! {

/// Where a unit of work stands.
#[derive(Clone, Copy, Debug, PartialEq, Eq, Structural)]
pub enum Server2State {
    /// Nothing was read yet.
    AwaitingAddress,
    /// The probe was handed to the transport.
    ProbeInFlight,
    /// The probe left whole.
    Done,
    /// The unit was given up.
    Failed,
}

/// Why a unit of work was given up.
#[derive(Clone, Copy, Debug, PartialEq, Eq, Structural)]
pub enum Server2Error {
    /// The datagram is not the wire form of an endpoint.
    BadAddress,
    /// The transport refused the probe.
    SendFailed,
    /// The transport took only part of the probe.
    ShortSend,
    /// The event answers nothing that was asked.
    OutOfSequence,
}

/// What the caller is to do next.
#[derive(Debug, PartialEq, Eq)]
pub enum Server2Action {
    /// Send `payload` to `to` from the listening socket.
    Probe { to: Endpoint, payload: Vec<u8> },
    /// The unit is complete.
    Finish,
    /// The unit ends here; the listening loop goes on.
    Abort(Server2Error),
}

/// [`Server2Action`] with its payload as a sequence.
pub enum Server2ActionView {
    Probe { to: Endpoint, payload: Seq<u8> },
    Finish,
    Abort(Server2Error),
}

impl View for Server2Action {
    type V = Server2ActionView;

    open spec fn view(&self) -> Server2ActionView {
        match *self {
            Server2Action::Probe { to, payload } => Server2ActionView::Probe { to, payload: payload@ },
            Server2Action::Finish => Server2ActionView::Finish,
            Server2Action::Abort(e) => Server2ActionView::Abort(e),
        }
    }
}

/// The second server's rule: the state and action that follow `event` in
/// `state`.
pub open spec fn server2_next(state: Server2State, event: Event) -> (Server2State, Server2ActionView) {
    match state {
        Server2State::AwaitingAddress => match event {
            Event::Datagram { source, payload } => match parse_endpoint(payload@) {
                Some(client) => (
                    Server2State::ProbeInFlight,
                    Server2ActionView::Probe { to: client, payload: message_wire(Message::SecondaryProbe) },
                ),
                None => (Server2State::Failed, Server2ActionView::Abort(Server2Error::BadAddress)),
            },
            _ => (Server2State::Failed, Server2ActionView::Abort(Server2Error::OutOfSequence)),
        },
        Server2State::ProbeInFlight => match event {
            Event::Sent { bytes } => if bytes == message_wire(Message::SecondaryProbe).len() {
                (Server2State::Done, Server2ActionView::Finish)
            } else {
                (Server2State::Failed, Server2ActionView::Abort(Server2Error::ShortSend))
            },
            Event::SendFailed => (Server2State::Failed, Server2ActionView::Abort(Server2Error::SendFailed)),
            _ => (Server2State::Failed, Server2ActionView::Abort(Server2Error::OutOfSequence)),
        },
        Server2State::Done => (Server2State::Done, Server2ActionView::Abort(Server2Error::OutOfSequence)),
        Server2State::Failed => (Server2State::Failed, Server2ActionView::Abort(Server2Error::OutOfSequence)),
    }
}

/// The events a unit of work in `state` can still take before it is over.
pub open spec fn server2_events_left(state: Server2State) -> nat {
    match state {
        Server2State::AwaitingAddress => 2,
        Server2State::ProbeInFlight => 1,
        Server2State::Done => 0,
        Server2State::Failed => 0,
    }
}

/// A unit of work never goes back and never stays: every event takes it on
/// or ends it, and a unit that is over stays as it is. The caller is told
/// that the unit is over, by a finish or an abort, exactly when it is.
pub proof fn lemma_server2_advances(state: Server2State, event: Event)
    ensures
        ({
            let next = server2_next(state, event);
            &&& server2_events_left(state) > 0 ==> server2_events_left(next.0) < server2_events_left(state)
            &&& server2_events_left(state) == 0 ==> next.0 == state
            &&& server2_events_left(next.0) == 0 <==> (next.1 is Finish || next.1 is Abort)
            &&& next.1 is Finish <==> server2_events_left(state) > 0 && next.0 == Server2State::Done
        }),
{
}

/// Bytes that are not the wire form of an endpoint are never acted on: the
/// datagram that carries them ends the unit, and no probe is sent for it.
pub proof fn lemma_server2_rejects_malformed(state: Server2State, event: Event)
    requires
        event matches Event::Datagram { payload, .. } && parse_endpoint(payload@) is None,
    ensures
        server2_next(state, event).1 is Abort,
{
}

/// The probe goes where the datagram says: to the endpoint that the bytes
/// are the wire form of, whoever sent them.
pub proof fn lemma_probe_goes_to_decoded_address(client: Endpoint, event: Event)
    requires
        event matches Event::Datagram { payload, .. } && payload@ == endpoint_wire(client),
    ensures
        server2_next(Server2State::AwaitingAddress, event) == (
            Server2State::ProbeInFlight,
            Server2ActionView::Probe { to: client, payload: message_wire(Message::SecondaryProbe) },
        ),
{
    lemma_parse_wire(client);
}

/// The state in which a unit of work begins.
pub fn start() -> (state: Server2State)
    ensures
        state == Server2State::AwaitingAddress,
{
    Server2State::AwaitingAddress
}

/// Takes a unit of work one event further.
pub fn step(state: Server2State, event: Event) -> (r: (Server2State, Server2Action))
    ensures
        (r.0, r.1@) == server2_next(state, event),
{
    match state {
        Server2State::AwaitingAddress => match event {
            Event::Datagram { source, payload } => match decode_endpoint(payload.as_slice()) {
                Ok(client) => (
                    Server2State::ProbeInFlight,
                    Server2Action::Probe { to: client, payload: encode(&Message::SecondaryProbe) },
                ),
                Err(_) => (Server2State::Failed, Server2Action::Abort(Server2Error::BadAddress)),
            },
            _ => (Server2State::Failed, Server2Action::Abort(Server2Error::OutOfSequence)),
        },
        Server2State::ProbeInFlight => match event {
            Event::Sent { bytes } => if bytes == SERVER2_MESSAGE.len() {
                (Server2State::Done, Server2Action::Finish)
            } else {
                (Server2State::Failed, Server2Action::Abort(Server2Error::ShortSend))
            },
            Event::SendFailed => (Server2State::Failed, Server2Action::Abort(Server2Error::SendFailed)),
            _ => (Server2State::Failed, Server2Action::Abort(Server2Error::OutOfSequence)),
        },
        Server2State::Done => (Server2State::Done, Server2Action::Abort(Server2Error::OutOfSequence)),
        Server2State::Failed => (Server2State::Failed, Server2Action::Abort(Server2Error::OutOfSequence)),
    }
}

} // verus!
