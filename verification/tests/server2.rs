use nat_type_rs::endpoint::{encode_endpoint, Endpoint, IpAddress};
use nat_type_rs::event::Event;
use nat_type_rs::server2::{start, step, Server2Action, Server2Error, Server2State};

fn client() -> Endpoint {
    Endpoint { ip: IpAddress::V4([203, 0, 113, 50]), port: 41000 }
}

fn server1() -> Endpoint {
    Endpoint { ip: IpAddress::V4([198, 51, 100, 1]), port: 3478 }
}

fn forwarded() -> Event {
    Event::Datagram { source: server1(), payload: encode_endpoint(&client()) }
}

#[test]
fn server2_starts_awaiting_an_address() {
    assert_eq!(start(), Server2State::AwaitingAddress);
}

#[test]
fn server2_probes_the_forwarded_address() {
    let (state, action) = step(start(), forwarded());
    assert_eq!(state, Server2State::ProbeInFlight);
    assert_eq!(action, Server2Action::Probe { to: client(), payload: b"server2".to_vec() });
    let (state, action) = step(state, Event::Sent { bytes: 7 });
    assert_eq!(state, Server2State::Done);
    assert_eq!(action, Server2Action::Finish);
}

#[test]
fn server2_probes_a_v6_address() {
    let target = Endpoint { ip: IpAddress::V6([0x20, 1, 0x0d, 0xb8, 0, 0, 0, 0, 0, 0, 0, 0, 0, 0, 0, 9]), port: 9 };
    let (state, action) = step(start(), Event::Datagram { source: server1(), payload: encode_endpoint(&target) });
    assert_eq!(state, Server2State::ProbeInFlight);
    assert_eq!(action, Server2Action::Probe { to: target, payload: b"server2".to_vec() });
}

#[test]
fn server2_does_not_ask_who_forwards() {
    let stranger = Endpoint { ip: IpAddress::V4([192, 0, 2, 99]), port: 5 };
    let (_, from_server1) = step(start(), forwarded());
    let (_, from_stranger) =
        step(start(), Event::Datagram { source: stranger, payload: encode_endpoint(&client()) });
    assert_eq!(from_server1, from_stranger);
}

#[test]
fn server2_rejects_what_is_not_an_address() {
    for payload in [b"hello".to_vec(), b"server2".to_vec(), Vec::new(), vec![0; 9], vec![0; 11]] {
        let (state, action) = step(start(), Event::Datagram { source: server1(), payload });
        assert_eq!(state, Server2State::Failed);
        assert_eq!(action, Server2Action::Abort(Server2Error::BadAddress));
    }
}

#[test]
fn server2_rejects_an_address_with_trailing_bytes() {
    let mut payload = encode_endpoint(&client());
    payload.push(0);
    let (state, action) = step(start(), Event::Datagram { source: server1(), payload });
    assert_eq!(state, Server2State::Failed);
    assert_eq!(action, Server2Action::Abort(Server2Error::BadAddress));
}

#[test]
fn server2_short_send_is_fatal_to_the_unit() {
    for bytes in [0usize, 1, 6, 8, 100] {
        let (state, _) = step(start(), forwarded());
        let (state, action) = step(state, Event::Sent { bytes });
        assert_eq!(state, Server2State::Failed);
        assert_eq!(action, Server2Action::Abort(Server2Error::ShortSend));
    }
}

#[test]
fn server2_send_failure_is_fatal_to_the_unit() {
    let (state, _) = step(start(), forwarded());
    let (state, action) = step(state, Event::SendFailed);
    assert_eq!(state, Server2State::Failed);
    assert_eq!(action, Server2Action::Abort(Server2Error::SendFailed));
}

#[test]
fn server2_refuses_events_out_of_sequence() {
    for event in [Event::Bound, Event::Sent { bytes: 7 }, Event::TimedOut, Event::SendFailed] {
        let (state, action) = step(start(), event);
        assert_eq!(state, Server2State::Failed);
        assert_eq!(action, Server2Action::Abort(Server2Error::OutOfSequence));
    }
    let (state, _) = step(start(), forwarded());
    let (state, action) = step(state, forwarded());
    assert_eq!(state, Server2State::Failed);
    assert_eq!(action, Server2Action::Abort(Server2Error::OutOfSequence));
}

#[test]
fn server2_finished_units_stay_finished() {
    let (state, action) = step(Server2State::Done, forwarded());
    assert_eq!(state, Server2State::Done);
    assert_eq!(action, Server2Action::Abort(Server2Error::OutOfSequence));
    let (state, action) = step(Server2State::Failed, Event::Sent { bytes: 7 });
    assert_eq!(state, Server2State::Failed);
    assert_eq!(action, Server2Action::Abort(Server2Error::OutOfSequence));
}
