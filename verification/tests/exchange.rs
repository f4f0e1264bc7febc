use nat_type_rs::client::{ClientAction, ClientConfig, ClientState, ProbeOutcome};
use nat_type_rs::endpoint::{Endpoint, IpAddress};
use nat_type_rs::event::Event;
use nat_type_rs::server1::{Server1Action, Server1Config, Server1State};
use nat_type_rs::server2::{Server2Action, Server2State};

// The three roles wired to one another with no network in between. The
// router in front of the client is a pair of switches: whether it lets the
// first server's second port through, and whether it lets the second server
// through.

struct Router {
    passes_alternate: bool,
    passes_secondary: bool,
}

fn at(a: u8, b: u8, c: u8, d: u8, port: u16) -> Endpoint {
    Endpoint { ip: IpAddress::V4([a, b, c, d]), port }
}

/// Runs one unit of work of the first server. Gives the datagrams it sent,
/// each with the endpoint it left from and the endpoint it was for.
fn run_server1(config: &Server1Config, source: Endpoint, payload: Vec<u8>) -> Vec<(Endpoint, Endpoint, Vec<u8>)> {
    let mut sent = Vec::new();
    let mut alternate = None;
    let mut state = nat_type_rs::server1::start();
    let mut event = Event::Datagram { source, payload };
    loop {
        let (next, action) = nat_type_rs::server1::step(config, state, event);
        state = next;
        event = match action {
            Server1Action::Reflect { to, payload } | Server1Action::Forward { to, payload } => {
                let bytes = payload.len();
                sent.push((config.listening, to, payload));
                Event::Sent { bytes }
            }
            Server1Action::BindAlternate { local } => {
                assert_ne!(local.port, config.listening.port);
                alternate = Some(local);
                Event::Bound
            }
            Server1Action::Probe { from, to, payload } => {
                assert_eq!(alternate.take(), Some(from));
                let bytes = payload.len();
                sent.push((from, to, payload));
                Event::Sent { bytes }
            }
            Server1Action::Finish => {
                assert_eq!(state, Server1State::Done);
                return sent;
            }
            Server1Action::Abort(error) => panic!("first server gave up: {:?}", error),
        };
    }
}

/// Runs one unit of work of the second server. Gives the probe it sent.
fn run_server2(payload: Vec<u8>, source: Endpoint) -> (Endpoint, Vec<u8>) {
    let (state, action) = nat_type_rs::server2::step(nat_type_rs::server2::start(), Event::Datagram { source, payload });
    let (to, probe) = match action {
        Server2Action::Probe { to, payload } => (to, payload),
        other => panic!("second server sent no probe: {:?}", other),
    };
    let (state, action) = nat_type_rs::server2::step(state, Event::Sent { bytes: probe.len() });
    assert_eq!(state, Server2State::Done);
    assert_eq!(action, Server2Action::Finish);
    (to, probe)
}

fn run(router: Router, with_second_server: bool) -> ProbeOutcome {
    let public = at(203, 0, 113, 50, 41000);
    let first = at(198, 51, 100, 1, 3478);
    let second = at(198, 51, 100, 2, 3479);
    let client = ClientConfig { local: at(192, 168, 1, 20, 50000), server1: first };
    let server1 = Server1Config { listening: first, secondary: if with_second_server { Some(second) } else { None } };

    let mut inbox: Vec<(Endpoint, Vec<u8>)> = Vec::new();
    let (mut state, mut action) = nat_type_rs::client::start(&client);
    loop {
        let event = match action {
            ClientAction::Bind { local } => {
                assert_eq!(local, client.local);
                Event::Bound
            }
            ClientAction::Connect { peer } => {
                assert_eq!(peer, first);
                Event::Connected
            }
            ClientAction::Disconnect { peer } => {
                assert_eq!(peer, at(0, 0, 0, 0, 0));
                Event::Connected
            }
            ClientAction::Send { payload } => {
                let bytes = payload.len();
                for (from, to, datagram) in run_server1(&server1, public, payload) {
                    if to == second {
                        let (target, probe) = run_server2(datagram, from);
                        assert_eq!(target, public);
                        if router.passes_secondary {
                            inbox.push((second, probe));
                        }
                    } else {
                        assert_eq!(to, public);
                        if from == first || router.passes_alternate {
                            inbox.push((from, datagram));
                        }
                    }
                }
                Event::Sent { bytes }
            }
            ClientAction::Receive => {
                let (source, payload) = inbox.remove(0);
                assert_eq!(source, first);
                Event::Datagram { source, payload }
            }
            ClientAction::AwaitDatagram { timeout_secs } => {
                assert_eq!(timeout_secs, 2);
                let alternate_wait = matches!(state, ClientState::AwaitingAlternateProbe { .. });
                let due = inbox.iter().position(|(source, _)| (*source == second) != alternate_wait);
                match due {
                    Some(i) => {
                        let (source, payload) = inbox.remove(i);
                        Event::Datagram { source, payload }
                    }
                    None => Event::TimedOut,
                }
            }
            ClientAction::Report { outcome, classification } => {
                assert_eq!(state, ClientState::Classified { mapping: public, outcome });
                assert_eq!(classification, nat_type_rs::client::classify(outcome));
                return outcome;
            }
            ClientAction::Abort(error) => panic!("client gave up: {:?}", error),
        };
        let next = nat_type_rs::client::step(&client, state, event);
        state = next.0;
        action = next.1;
    }
}

#[test]
fn open_router_lets_both_probes_in() {
    let outcome = run(Router { passes_alternate: true, passes_secondary: true }, true);
    assert_eq!(outcome, ProbeOutcome { alternate: true, secondary: true });
}

#[test]
fn address_restricted_router_lets_the_alternate_probe_in() {
    let outcome = run(Router { passes_alternate: true, passes_secondary: false }, true);
    assert_eq!(outcome, ProbeOutcome { alternate: true, secondary: false });
}

#[test]
fn port_restricted_router_lets_no_probe_in() {
    let outcome = run(Router { passes_alternate: false, passes_secondary: false }, true);
    assert_eq!(outcome, ProbeOutcome { alternate: false, secondary: false });
}

#[test]
fn lost_alternate_probe_with_secondary_probe() {
    let outcome = run(Router { passes_alternate: false, passes_secondary: true }, true);
    assert_eq!(outcome, ProbeOutcome { alternate: false, secondary: true });
}

#[test]
fn no_second_server_looks_like_a_closed_router() {
    let outcome = run(Router { passes_alternate: true, passes_secondary: true }, false);
    assert_eq!(outcome, ProbeOutcome { alternate: true, secondary: false });
}
