use nat_type_rs::endpoint::{decode_endpoint, encode_endpoint, Endpoint, IpAddress};
use nat_type_rs::event::Event;
use nat_type_rs::protocol::{decode, Message};
use nat_type_rs::server1::{decide, start, step, Server1Action, Server1Config, Server1Error, Server1State};

fn listening() -> Endpoint {
    Endpoint { ip: IpAddress::V4([198, 51, 100, 1]), port: 3478 }
}

fn second() -> Endpoint {
    Endpoint { ip: IpAddress::V4([198, 51, 100, 2]), port: 3479 }
}

fn client() -> Endpoint {
    Endpoint { ip: IpAddress::V4([203, 0, 113, 50]), port: 41000 }
}

fn client6() -> Endpoint {
    Endpoint { ip: IpAddress::V6([0x20, 1, 0x0d, 0xb8, 0, 0, 0, 0, 0, 0, 0, 0, 0, 0, 0, 0x50]), port: 41000 }
}

fn alone() -> Server1Config {
    Server1Config { listening: listening(), secondary: None }
}

fn paired() -> Server1Config {
    Server1Config { listening: listening(), secondary: Some(second()) }
}

fn second_socket() -> Endpoint {
    Endpoint { ip: IpAddress::V4([198, 51, 100, 1]), port: 47811 }
}

fn hello_from(source: Endpoint) -> Event {
    Event::Datagram { source, payload: b"hello".to_vec() }
}

#[test]
fn server1_starts_awaiting_a_hello() {
    assert_eq!(start(), Server1State::AwaitingHello);
}

#[test]
fn server1_reflects_the_source_of_a_hello() {
    let (state, action) = step(&alone(), start(), hello_from(client()));
    assert_eq!(state, Server1State::ReflectionInFlight { client: client() });
    assert_eq!(
        action,
        Server1Action::Reflect { to: client(), payload: vec![0, 0, 0, 0, 203, 0, 113, 50, 0x28, 0xa0] }
    );
}

#[test]
fn server1_reflection_decodes_to_the_source() {
    for source in [client(), client6(), listening(), Endpoint { ip: IpAddress::V4([0, 0, 0, 0]), port: 0 }] {
        let (_, action) = step(&paired(), start(), hello_from(source));
        match action {
            Server1Action::Reflect { to, payload } => {
                assert_eq!(to, source);
                assert_eq!(decode_endpoint(&payload), Ok(source));
                assert_eq!(decode(&payload), Ok(Message::AddressReflection(source)));
            }
            other => panic!("no reflection: {:?}", other),
        }
    }
}

#[test]
fn server1_rejects_what_is_not_a_hello() {
    let payloads =
        [b"hello!".to_vec(), b"hell".to_vec(), b"HELLO".to_vec(), b"server2".to_vec(), Vec::new(), encode_endpoint(&client())];
    for payload in payloads {
        let (state, action) = step(&alone(), start(), Event::Datagram { source: client(), payload });
        assert_eq!(state, Server1State::Failed);
        assert_eq!(action, Server1Action::Abort(Server1Error::BadHello));
    }
}

#[test]
fn server1_binds_another_port_of_the_listening_address() {
    for _ in 0..500 {
        let state = Server1State::ReflectionInFlight { client: client() };
        let (state, action) = step(&alone(), state, Event::Sent { bytes: 10 });
        match action {
            Server1Action::BindAlternate { local } => {
                assert_eq!(state, Server1State::AlternateBinding { client: client(), local });
                assert_eq!(local.ip, listening().ip);
                assert_ne!(local.port, listening().port);
                assert!(local.port >= 1024);
            }
            other => panic!("no bind: {:?}", other),
        }
    }
}

#[test]
fn server1_alternate_port_differs_for_every_listening_port() {
    for port in [0u16, 1023, 1024, 1025, 30000, 65535] {
        let config = Server1Config { listening: Endpoint { ip: listening().ip, port }, secondary: None };
        for _ in 0..200 {
            let state = Server1State::ReflectionInFlight { client: client() };
            match step(&config, state, Event::Sent { bytes: 10 }).1 {
                Server1Action::BindAlternate { local } => {
                    assert_ne!(local.port, port);
                    assert!(local.port >= 1024);
                }
                other => panic!("no bind: {:?}", other),
            }
        }
    }
}

#[test]
fn server1_decide_binds_the_port_it_is_given() {
    let state = Server1State::ReflectionInFlight { client: client() };
    let (state, action) = decide(&alone(), state, Event::Sent { bytes: 10 }, 50123);
    let local = Endpoint { ip: listening().ip, port: 50123 };
    assert_eq!(state, Server1State::AlternateBinding { client: client(), local });
    assert_eq!(action, Server1Action::BindAlternate { local });
}

#[test]
fn server1_expects_the_whole_reflection_to_leave() {
    for bytes in [0usize, 9, 11, 22] {
        let state = Server1State::ReflectionInFlight { client: client() };
        let (state, action) = step(&alone(), state, Event::Sent { bytes });
        assert_eq!(state, Server1State::Failed);
        assert_eq!(action, Server1Action::Abort(Server1Error::ReflectionShortSend));
    }
    let state = Server1State::ReflectionInFlight { client: client6() };
    let (state, _) = decide(&alone(), state, Event::Sent { bytes: 22 }, 50123);
    assert_eq!(
        state,
        Server1State::AlternateBinding { client: client6(), local: Endpoint { ip: listening().ip, port: 50123 } }
    );
    let state = Server1State::ReflectionInFlight { client: client6() };
    let (_, action) = decide(&alone(), state, Event::Sent { bytes: 10 }, 50123);
    assert_eq!(action, Server1Action::Abort(Server1Error::ReflectionShortSend));
}

#[test]
fn server1_reflection_send_failure_is_fatal_to_the_unit() {
    let state = Server1State::ReflectionInFlight { client: client() };
    let (state, action) = step(&alone(), state, Event::SendFailed);
    assert_eq!(state, Server1State::Failed);
    assert_eq!(action, Server1Action::Abort(Server1Error::ReflectionSendFailed));
}

#[test]
fn server1_probes_from_the_second_socket() {
    let state = Server1State::AlternateBinding { client: client(), local: second_socket() };
    let (state, action) = step(&alone(), state, Event::Bound);
    assert_eq!(state, Server1State::ProbeInFlight { client: client() });
    assert_eq!(
        action,
        Server1Action::Probe { from: second_socket(), to: client(), payload: b"new_server1".to_vec() }
    );
}

#[test]
fn server1_bind_failure_is_fatal_to_the_unit() {
    let state = Server1State::AlternateBinding { client: client(), local: second_socket() };
    let (state, action) = step(&alone(), state, Event::BindFailed);
    assert_eq!(state, Server1State::Failed);
    assert_eq!(action, Server1Action::Abort(Server1Error::AlternateBindFailed));
}

#[test]
fn server1_without_a_second_server_finishes_after_the_probe() {
    let state = Server1State::ProbeInFlight { client: client() };
    let (state, action) = step(&alone(), state, Event::Sent { bytes: 11 });
    assert_eq!(state, Server1State::Done);
    assert_eq!(action, Server1Action::Finish);
}

#[test]
fn server1_forwards_the_reflected_bytes() {
    let (_, reflected) = step(&paired(), start(), hello_from(client()));
    let state = Server1State::ProbeInFlight { client: client() };
    let (state, action) = step(&paired(), state, Event::Sent { bytes: 11 });
    assert_eq!(state, Server1State::ForwardInFlight { client: client() });
    assert_eq!(action, Server1Action::Forward { to: second(), payload: encode_endpoint(&client()) });
    match (reflected, action) {
        (Server1Action::Reflect { payload: a, .. }, Server1Action::Forward { payload: b, .. }) => assert_eq!(a, b),
        other => panic!("unexpected: {:?}", other),
    }
    let (state, action) = step(&paired(), state, Event::Sent { bytes: 10 });
    assert_eq!(state, Server1State::Done);
    assert_eq!(action, Server1Action::Finish);
}

#[test]
fn server1_probe_failures_are_fatal_to_the_unit() {
    let state = Server1State::ProbeInFlight { client: client() };
    let (_, action) = step(&paired(), state, Event::Sent { bytes: 10 });
    assert_eq!(action, Server1Action::Abort(Server1Error::ProbeShortSend));
    let (state, action) = step(&paired(), state, Event::SendFailed);
    assert_eq!(state, Server1State::Failed);
    assert_eq!(action, Server1Action::Abort(Server1Error::ProbeSendFailed));
}

#[test]
fn server1_forward_failures_are_fatal_to_the_unit() {
    let state = Server1State::ForwardInFlight { client: client() };
    let (_, action) = step(&paired(), state, Event::Sent { bytes: 9 });
    assert_eq!(action, Server1Action::Abort(Server1Error::ForwardShortSend));
    let (state, action) = step(&paired(), state, Event::SendFailed);
    assert_eq!(state, Server1State::Failed);
    assert_eq!(action, Server1Action::Abort(Server1Error::ForwardSendFailed));
}

#[test]
fn server1_refuses_events_out_of_sequence() {
    let cases = [
        (Server1State::AwaitingHello, Event::Sent { bytes: 5 }),
        (Server1State::AwaitingHello, Event::Bound),
        (Server1State::ReflectionInFlight { client: client() }, Event::Bound),
        (Server1State::ReflectionInFlight { client: client() }, hello_from(client())),
        (Server1State::AlternateBinding { client: client(), local: second_socket() }, Event::Sent { bytes: 11 }),
        (Server1State::ProbeInFlight { client: client() }, Event::BindFailed),
        (Server1State::ForwardInFlight { client: client() }, Event::TimedOut),
        (Server1State::Failed, hello_from(client())),
    ];
    for (state, event) in cases {
        let (state, action) = step(&paired(), state, event);
        assert_eq!(state, Server1State::Failed);
        assert_eq!(action, Server1Action::Abort(Server1Error::OutOfSequence));
    }
    let (state, action) = step(&paired(), Server1State::Done, hello_from(client()));
    assert_eq!(state, Server1State::Done);
    assert_eq!(action, Server1Action::Abort(Server1Error::OutOfSequence));
}

#[test]
fn server1_whole_unit_with_a_second_server() {
    let config = paired();
    let (state, action) = step(&config, start(), hello_from(client6()));
    assert!(matches!(action, Server1Action::Reflect { .. }));
    let (state, action) = step(&config, state, Event::Sent { bytes: 22 });
    let local = match action {
        Server1Action::BindAlternate { local } => local,
        other => panic!("no bind: {:?}", other),
    };
    assert_ne!(local.port, listening().port);
    let (state, action) = step(&config, state, Event::Bound);
    assert_eq!(
        action,
        Server1Action::Probe { from: local, to: client6(), payload: b"new_server1".to_vec() }
    );
    let (state, action) = step(&config, state, Event::Sent { bytes: 11 });
    assert_eq!(action, Server1Action::Forward { to: second(), payload: encode_endpoint(&client6()) });
    let (state, action) = step(&config, state, Event::Sent { bytes: 22 });
    assert_eq!(action, Server1Action::Finish);
    assert_eq!(state, Server1State::Done);
}
