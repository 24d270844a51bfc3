use lobby_registry::address::PublicAddress;
use lobby_registry::ident::LobbyId;
use lobby_registry::lobby::{CreateLobby, Lobby};
use lobby_registry::probe::{is_reachable, ProbeOutcome};
use lobby_registry::query::{QueryAction, QueryEvent};
use lobby_registry::registration::{
    RegistrationAction, RegistrationEvent, RegistrationSession, RegistrationState,
};
use lobby_registry::registry::Registry;
use lobby_registry::session::{SessionEnd, SessionError};
use lobby_registry::wire::RegistrationFrame;

fn request_at(address: &str, port: u16) -> CreateLobby {
    CreateLobby {
        public_ip_address: address.to_string(),
        port,
        max_seats: 10,
        players_count: 0,
        lobby_name: "arena".to_string(),
    }
}

fn record_at(id: u128, address: &str, port: u16) -> Lobby {
    Lobby::create(LobbyId(id), &request_at(address, port)).unwrap()
}

/// The payloads of these tests: `create <address> <port>`.
fn decode_payload(payload: &[u8]) -> Option<CreateLobby> {
    let text = std::str::from_utf8(payload).ok()?;
    let mut words = text.split(' ');
    if words.next()? != "create" {
        return None;
    }
    let address = words.next()?;
    let port: u16 = words.next()?.parse().ok()?;
    Some(request_at(address, port))
}

/// What the peer and the network do to one session.
struct Script {
    id: u128,
    frames: Vec<Vec<u8>>,
    reachable: Vec<PublicAddress>,
    fail_write_at: Option<usize>,
    fail_read: bool,
}

fn script(id: u128, frames: &[&[u8]], reachable: &[PublicAddress]) -> Script {
    Script {
        id,
        frames: frames.iter().map(|f| f.to_vec()).collect(),
        reachable: reachable.to_vec(),
        fail_write_at: None,
        fail_read: false,
    }
}

/// Carries one request of the session out and delivers the outcome. Returns
/// false once the session has stopped.
fn advance(
    session: &mut Option<RegistrationSession>,
    script: &mut Script,
    writes: &mut usize,
    registry: &mut Registry,
) -> bool {
    let current = session.take().unwrap();
    let action = current.outstanding();
    let event = match action {
        RegistrationAction::Provision => RegistrationEvent::Provisioned(LobbyId(script.id)),
        RegistrationAction::SendAck => {
            *writes += 1;
            if script.fail_write_at == Some(*writes) {
                RegistrationEvent::WriteFailed
            } else {
                RegistrationEvent::Sent
            }
        }
        RegistrationAction::Receive => {
            if !script.frames.is_empty() {
                RegistrationEvent::Frame(script.frames.remove(0))
            } else if script.fail_read {
                RegistrationEvent::ReadFailed
            } else {
                RegistrationEvent::PeerClosed
            }
        }
        RegistrationAction::Decode(payload) => RegistrationEvent::Decoded(decode_payload(&payload)),
        RegistrationAction::Probe(address) => {
            if script.reachable.contains(&address) {
                RegistrationEvent::Probed(ProbeOutcome::Datagram(48))
            } else {
                RegistrationEvent::Probed(ProbeOutcome::Silence)
            }
        }
        RegistrationAction::Publish(_) | RegistrationAction::Withdraw(_) => {
            assert!(action.writes_registry());
            action.perform(registry);
            RegistrationEvent::Performed
        }
        RegistrationAction::Stop => {
            *session = Some(current);
            return false;
        }
    };
    *session = Some(current.step(event));
    true
}

fn run_to_end(script: &mut Script, registry: &mut Registry) -> RegistrationSession {
    let mut session = Some(RegistrationSession::accept());
    let mut writes = 0;
    while advance(&mut session, script, &mut writes, registry) {}
    session.unwrap()
}

fn run_until_published(script: &mut Script, registry: &mut Registry) -> RegistrationSession {
    let mut session = Some(RegistrationSession::accept());
    let mut writes = 0;
    while session.as_ref().unwrap().state() != RegistrationState::Published
        || matches!(session.as_ref().unwrap(), RegistrationSession::Publishing(_))
    {
        assert!(advance(&mut session, script, &mut writes, registry));
    }
    session.unwrap()
}

fn listed(registry: &Registry) -> Vec<LobbyId> {
    let mut ids = match QueryAction::ListIds.consult(registry) {
        Some(QueryEvent::Ids(ids)) => ids,
        other => panic!("{other:?}"),
    };
    ids.sort_by_key(|id| id.0);
    ids
}

const HOST_A: PublicAddress = PublicAddress { octets: [203, 0, 113, 1], port: 5000 };
const HOST_B: PublicAddress = PublicAddress { octets: [203, 0, 113, 2], port: 5001 };

#[test]
fn session_is_connected_until_it_has_an_identifier() {
    let session = RegistrationSession::accept();
    assert_eq!(session.state(), RegistrationState::Connected);
    assert_eq!(session.id(), None);
    assert_eq!(session.end(), None);
    assert_eq!(session.outstanding(), RegistrationAction::Provision);
    let session = session.step(RegistrationEvent::Provisioned(LobbyId(11)));
    assert_eq!(session, RegistrationSession::Acknowledging(LobbyId(11)));
    assert_eq!(session.state(), RegistrationState::Registering);
    assert_eq!(session.id(), Some(LobbyId(11)));
    assert_eq!(session.outstanding(), RegistrationAction::SendAck);
}

#[test]
fn round_is_an_ack_and_a_frame() {
    let session = RegistrationSession::Acknowledging(LobbyId(1)).step(RegistrationEvent::Sent);
    assert_eq!(session, RegistrationSession::Receiving(LobbyId(1)));
    assert_eq!(session.outstanding(), RegistrationAction::Receive);
    let session = session.step(RegistrationEvent::Frame(b"\"Ack\"".to_vec()));
    assert_eq!(session, RegistrationSession::Acknowledging(LobbyId(1)));
}

#[test]
fn close_before_publishing_touches_nothing() {
    let mut registry = Registry::new();
    registry.insert(LobbyId(99), record_at(99, "198.51.100.1", 1));
    let end = run_to_end(&mut script(1, &[b"\"Ack\"", b"close"], &[]), &mut registry);
    assert_eq!(end, RegistrationSession::Closed(SessionEnd::ClosedByPeer));
    assert_eq!(end.state(), RegistrationState::Closed);
    assert_eq!(listed(&registry), vec![LobbyId(99)]);
}

#[test]
fn creation_request_is_decoded_checked_and_probed() {
    let session = RegistrationSession::Receiving(LobbyId(5))
        .step(RegistrationEvent::Frame(b"create 203.0.113.1 5000".to_vec()));
    assert_eq!(
        session,
        RegistrationSession::Decoding(LobbyId(5), b"create 203.0.113.1 5000".to_vec())
    );
    assert_eq!(
        session.outstanding(),
        RegistrationAction::Decode(b"create 203.0.113.1 5000".to_vec())
    );
    let session = session.step(RegistrationEvent::Decoded(Some(request_at("203.0.113.1", 5000))));
    assert_eq!(session, RegistrationSession::Probing(record_at(5, "203.0.113.1", 5000)));
    assert_eq!(session.state(), RegistrationState::Registering);
    assert_eq!(session.outstanding(), RegistrationAction::Probe(HOST_A));
    let session = session.step(RegistrationEvent::Probed(ProbeOutcome::Datagram(0)));
    assert_eq!(session, RegistrationSession::Publishing(record_at(5, "203.0.113.1", 5000)));
    assert_eq!(session.state(), RegistrationState::Published);
    assert_eq!(
        session.outstanding(),
        RegistrationAction::Publish(record_at(5, "203.0.113.1", 5000))
    );
    let session = session.step(RegistrationEvent::Performed);
    assert_eq!(session, RegistrationSession::Heartbeat(LobbyId(5)));
    assert_eq!(session.outstanding(), RegistrationAction::SendAck);
    let session = session.step(RegistrationEvent::Sent);
    assert_eq!(session, RegistrationSession::Listening(LobbyId(5)));
    assert_eq!(session.outstanding(), RegistrationAction::Receive);
    assert_eq!(session.state(), RegistrationState::Published);
}

#[test]
fn address_that_never_answers_is_never_listed() {
    let mut registry = Registry::new();
    let mut silent = script(7, &[b"create 203.0.113.1 5000"], &[]);
    let end = run_to_end(&mut silent, &mut registry);
    assert_eq!(end, RegistrationSession::Closed(SessionEnd::Failed(SessionError::LobbyUnreachable)));
    assert_eq!(registry.get(LobbyId(7)), None);
    assert!(listed(&registry).is_empty());
}

#[test]
fn probe_of_another_address_does_not_count() {
    let mut registry = Registry::new();
    let mut wrong = script(7, &[b"create 203.0.113.1 5000"], &[HOST_B]);
    let end = run_to_end(&mut wrong, &mut registry);
    assert_eq!(end.end(), Some(SessionEnd::Failed(SessionError::LobbyUnreachable)));
    assert!(listed(&registry).is_empty());
}

#[test]
fn published_lobby_is_removed_when_the_connection_closes() {
    let mut registry = Registry::new();
    let mut host = script(21, &[b"create 203.0.113.1 5000", b"\"Ack\"", b"\"Ack\""], &[HOST_A]);
    let session = run_until_published(&mut host, &mut registry);
    assert_eq!(listed(&registry), vec![LobbyId(21)]);
    assert_eq!(registry.get(LobbyId(21)), Some(record_at(21, "203.0.113.1", 5000)));
    host.frames.clear();
    let mut session = Some(session);
    let mut writes = 0;
    while advance(&mut session, &mut host, &mut writes, &mut registry) {}
    assert_eq!(session.unwrap(), RegistrationSession::Closed(SessionEnd::ClosedByPeer));
    assert!(listed(&registry).is_empty());
    assert_eq!(registry.get(LobbyId(21)), None);
}

#[test]
fn withdrawal_is_the_very_next_request() {
    let published = [
        RegistrationSession::Publishing(record_at(3, "203.0.113.1", 5000)),
        RegistrationSession::Heartbeat(LobbyId(3)),
        RegistrationSession::Listening(LobbyId(3)),
    ];
    for session in published {
        let session = session.step(RegistrationEvent::PeerClosed);
        assert_eq!(session, RegistrationSession::Withdrawing(LobbyId(3), SessionEnd::ClosedByPeer));
        assert_eq!(session.state(), RegistrationState::Closed);
        assert_eq!(session.outstanding(), RegistrationAction::Withdraw(LobbyId(3)));
        let session = session.step(RegistrationEvent::Performed);
        assert_eq!(session, RegistrationSession::Closed(SessionEnd::ClosedByPeer));
        assert_eq!(session.outstanding(), RegistrationAction::Stop);
    }
}

#[test]
fn failed_io_removes_a_published_lobby() {
    let mut registry = Registry::new();
    let mut host = script(22, &[b"create 203.0.113.1 5000"], &[HOST_A]);
    host.fail_read = true;
    let end = run_to_end(&mut host, &mut registry);
    assert_eq!(end, RegistrationSession::Closed(SessionEnd::Failed(SessionError::SocketIoError)));
    assert!(listed(&registry).is_empty());

    let mut host = script(23, &[b"create 203.0.113.1 5000", b"\"Ack\""], &[HOST_A]);
    host.fail_write_at = Some(3);
    let end = run_to_end(&mut host, &mut registry);
    assert_eq!(end, RegistrationSession::Closed(SessionEnd::Failed(SessionError::SocketIoError)));
    assert!(listed(&registry).is_empty());
}

#[test]
fn failed_io_before_publishing_ends_the_session() {
    let failed = RegistrationSession::Closed(SessionEnd::Failed(SessionError::SocketIoError));
    assert_eq!(RegistrationSession::Connected.step(RegistrationEvent::WriteFailed), failed);
    assert_eq!(
        RegistrationSession::Acknowledging(LobbyId(1)).step(RegistrationEvent::WriteFailed),
        failed
    );
    assert_eq!(RegistrationSession::Receiving(LobbyId(1)).step(RegistrationEvent::ReadFailed), failed);
    assert_eq!(
        RegistrationSession::Probing(record_at(1, "10.0.0.1", 1)).step(RegistrationEvent::ReadFailed),
        failed
    );
    assert_eq!(
        RegistrationSession::Decoding(LobbyId(1), vec![1]).step(RegistrationEvent::PeerClosed),
        RegistrationSession::Closed(SessionEnd::ClosedByPeer)
    );
}

#[test]
fn close_request_removes_a_published_lobby() {
    let mut registry = Registry::new();
    let mut host = script(24, &[b"create 203.0.113.1 5000", b"\"Ack\"", b"close"], &[HOST_A]);
    let end = run_to_end(&mut host, &mut registry);
    assert_eq!(end, RegistrationSession::Closed(SessionEnd::ClosedByPeer));
    assert!(listed(&registry).is_empty());
}

#[test]
fn published_session_takes_only_heartbeats() {
    let mut registry = Registry::new();
    let mut host =
        script(25, &[b"create 203.0.113.1 5000", b"create 203.0.113.2 5001"], &[HOST_A, HOST_B]);
    let end = run_to_end(&mut host, &mut registry);
    assert_eq!(end, RegistrationSession::Closed(SessionEnd::Failed(SessionError::MalformedMessage)));
    assert!(listed(&registry).is_empty());
    assert_eq!(
        RegistrationSession::Listening(LobbyId(1)).step(RegistrationEvent::Frame(vec![0xff])),
        RegistrationSession::Withdrawing(
            LobbyId(1),
            SessionEnd::Failed(SessionError::MalformedMessage)
        )
    );
}

#[test]
fn two_sessions_publish_side_by_side() {
    let mut registry = Registry::new();
    let mut host_a = script(31, &[b"create 203.0.113.1 5000"], &[HOST_A, HOST_B]);
    let mut host_b = script(32, &[b"create 203.0.113.2 5001"], &[HOST_A, HOST_B]);
    let mut a = Some(RegistrationSession::accept());
    let mut b = Some(RegistrationSession::accept());
    let (mut writes_a, mut writes_b) = (0, 0);
    for _ in 0..7 {
        assert!(advance(&mut a, &mut host_a, &mut writes_a, &mut registry));
        assert!(advance(&mut b, &mut host_b, &mut writes_b, &mut registry));
    }
    assert_eq!(a.as_ref().unwrap().state(), RegistrationState::Published);
    assert_eq!(b.as_ref().unwrap().state(), RegistrationState::Published);
    assert_eq!(listed(&registry), vec![LobbyId(31), LobbyId(32)]);
    assert_eq!(registry.get(LobbyId(31)).unwrap().address(), HOST_A);
    assert_eq!(registry.get(LobbyId(32)).unwrap().address(), HOST_B);

    while advance(&mut a, &mut host_a, &mut writes_a, &mut registry) {}
    assert_eq!(listed(&registry), vec![LobbyId(32)]);
    assert_eq!(registry.get(LobbyId(32)).unwrap().address(), HOST_B);
    while advance(&mut b, &mut host_b, &mut writes_b, &mut registry) {}
    assert!(listed(&registry).is_empty());
}

#[test]
fn two_sessions_publish_in_either_order() {
    for a_first in [true, false] {
        let mut registry = Registry::new();
        let mut host_a = script(41, &[b"create 203.0.113.1 5000"], &[HOST_A]);
        let mut host_b = script(42, &[b"create 203.0.113.2 5001"], &[HOST_B]);
        if a_first {
            run_until_published(&mut host_a, &mut registry);
            run_until_published(&mut host_b, &mut registry);
        } else {
            run_until_published(&mut host_b, &mut registry);
            run_until_published(&mut host_a, &mut registry);
        }
        assert_eq!(listed(&registry), vec![LobbyId(41), LobbyId(42)]);
        assert_eq!(registry.get(LobbyId(41)), Some(record_at(41, "203.0.113.1", 5000)));
        assert_eq!(registry.get(LobbyId(42)), Some(record_at(42, "203.0.113.2", 5001)));
    }
}

#[test]
fn malformed_payload_leaves_the_registry_unchanged() {
    let mut registry = Registry::new();
    registry.insert(LobbyId(1), record_at(1, "198.51.100.1", 1));
    let before = listed(&registry);
    let end = run_to_end(&mut script(50, &[b"{not a request"], &[HOST_A]), &mut registry);
    assert_eq!(end, RegistrationSession::Closed(SessionEnd::Failed(SessionError::MalformedMessage)));
    assert_eq!(listed(&registry), before);
    let end = run_to_end(&mut script(51, &[b"create 203.0.113.1 70000"], &[HOST_A]), &mut registry);
    assert_eq!(end.end(), Some(SessionEnd::Failed(SessionError::MalformedMessage)));
    assert_eq!(listed(&registry), before);
    let end = run_to_end(&mut script(52, &[&[0xff, 0xff]], &[HOST_A]), &mut registry);
    assert_eq!(end.end(), Some(SessionEnd::Failed(SessionError::MalformedMessage)));
    assert_eq!(listed(&registry), before);
    assert_eq!(registry.get(LobbyId(1)), Some(record_at(1, "198.51.100.1", 1)));
}

#[test]
fn unparseable_address_leaves_the_registry_unchanged() {
    let mut registry = Registry::new();
    registry.insert(LobbyId(1), record_at(1, "198.51.100.1", 1));
    let before = listed(&registry);
    for payload in ["create 203.0.113 5000", "create host.example 5000", "create 203.0.113.01 1"] {
        let mut host = script(60, &[payload.as_bytes()], &[HOST_A]);
        let end = run_to_end(&mut host, &mut registry);
        assert_eq!(
            end,
            RegistrationSession::Closed(SessionEnd::Failed(SessionError::AddressParseError))
        );
        assert_eq!(listed(&registry), before);
        assert_eq!(registry.get(LobbyId(60)), None);
    }
}

#[test]
fn event_out_of_turn_is_kept_out() {
    let probing = RegistrationSession::Probing(record_at(1, "10.0.0.1", 1));
    assert_eq!(
        probing.step(RegistrationEvent::Performed),
        RegistrationSession::Probing(record_at(1, "10.0.0.1", 1))
    );
    assert_eq!(
        RegistrationSession::Connected.step(RegistrationEvent::Sent),
        RegistrationSession::Connected
    );
    assert_eq!(
        RegistrationSession::Receiving(LobbyId(1))
            .step(RegistrationEvent::Probed(ProbeOutcome::Datagram(1))),
        RegistrationSession::Receiving(LobbyId(1))
    );
    assert_eq!(
        RegistrationSession::Acknowledging(LobbyId(1))
            .step(RegistrationEvent::Provisioned(LobbyId(2))),
        RegistrationSession::Acknowledging(LobbyId(1))
    );
    assert_eq!(
        RegistrationSession::Heartbeat(LobbyId(1)).step(RegistrationEvent::Decoded(None)),
        RegistrationSession::Heartbeat(LobbyId(1))
    );
    assert_eq!(
        RegistrationSession::Withdrawing(LobbyId(1), SessionEnd::ClosedByPeer)
            .step(RegistrationEvent::WriteFailed),
        RegistrationSession::Withdrawing(LobbyId(1), SessionEnd::ClosedByPeer)
    );
}

#[test]
fn closed_session_stays_as_it_ended() {
    let closed = RegistrationSession::Closed(SessionEnd::Failed(SessionError::LobbyUnreachable));
    assert_eq!(closed.id(), None);
    assert_eq!(
        closed.step(RegistrationEvent::Provisioned(LobbyId(1))),
        RegistrationSession::Closed(SessionEnd::Failed(SessionError::LobbyUnreachable))
    );
}

#[test]
fn requests_other_than_publish_and_withdraw_leave_the_registry() {
    let mut registry = Registry::new();
    registry.insert(LobbyId(1), record_at(1, "198.51.100.1", 1));
    for action in [
        RegistrationAction::Provision,
        RegistrationAction::SendAck,
        RegistrationAction::Receive,
        RegistrationAction::Decode(vec![1, 2]),
        RegistrationAction::Probe(HOST_A),
        RegistrationAction::Stop,
    ] {
        assert!(!action.writes_registry());
        action.perform(&mut registry);
        assert_eq!(listed(&registry), vec![LobbyId(1)]);
    }
    RegistrationAction::Publish(record_at(2, "198.51.100.2", 2)).perform(&mut registry);
    assert_eq!(listed(&registry), vec![LobbyId(1), LobbyId(2)]);
    RegistrationAction::Withdraw(LobbyId(1)).perform(&mut registry);
    assert_eq!(listed(&registry), vec![LobbyId(2)]);
    RegistrationAction::Withdraw(LobbyId(1)).perform(&mut registry);
    assert_eq!(listed(&registry), vec![LobbyId(2)]);
}

#[test]
fn frame_kind_decides_the_next_stage() {
    let id = LobbyId(6);
    assert_eq!(
        RegistrationSession::registering_on_frame(id, vec![], Ok(RegistrationFrame::Ack)),
        RegistrationSession::Acknowledging(id)
    );
    assert_eq!(
        RegistrationSession::registering_on_frame(id, vec![], Ok(RegistrationFrame::Close)),
        RegistrationSession::Closed(SessionEnd::ClosedByPeer)
    );
    assert_eq!(
        RegistrationSession::registering_on_frame(id, vec![7], Ok(RegistrationFrame::Payload)),
        RegistrationSession::Decoding(id, vec![7])
    );
    assert_eq!(
        RegistrationSession::registering_on_frame(id, vec![], Err(SessionError::MalformedMessage)),
        RegistrationSession::Closed(SessionEnd::Failed(SessionError::MalformedMessage))
    );
    assert_eq!(
        RegistrationSession::published_on_frame(id, Ok(RegistrationFrame::Ack)),
        RegistrationSession::Heartbeat(id)
    );
    assert_eq!(
        RegistrationSession::published_on_frame(id, Ok(RegistrationFrame::Close)),
        RegistrationSession::Withdrawing(id, SessionEnd::ClosedByPeer)
    );
    assert_eq!(
        RegistrationSession::published_on_frame(id, Ok(RegistrationFrame::Payload)),
        RegistrationSession::Withdrawing(id, SessionEnd::Failed(SessionError::MalformedMessage))
    );
}

#[test]
fn decoded_request_decides_the_next_stage() {
    assert_eq!(
        RegistrationSession::on_decoded(LobbyId(1), None),
        RegistrationSession::Closed(SessionEnd::Failed(SessionError::MalformedMessage))
    );
    assert_eq!(
        RegistrationSession::on_decoded(LobbyId(1), Some(request_at("1.2.3", 1))),
        RegistrationSession::Closed(SessionEnd::Failed(SessionError::AddressParseError))
    );
    assert_eq!(
        RegistrationSession::on_decoded(LobbyId(1), Some(request_at("1.2.3.4", 1))),
        RegistrationSession::Probing(record_at(1, "1.2.3.4", 1))
    );
}

#[test]
fn any_datagram_is_proof_of_life() {
    assert!(is_reachable(ProbeOutcome::Datagram(48)));
    assert!(is_reachable(ProbeOutcome::Datagram(0)));
    assert!(!is_reachable(ProbeOutcome::Silence));
    assert_eq!(
        RegistrationSession::on_probed(record_at(1, "1.2.3.4", 1), ProbeOutcome::Silence),
        RegistrationSession::Closed(SessionEnd::Failed(SessionError::LobbyUnreachable))
    );
    assert_eq!(
        RegistrationSession::on_probed(record_at(1, "1.2.3.4", 1), ProbeOutcome::Datagram(0)),
        RegistrationSession::Publishing(record_at(1, "1.2.3.4", 1))
    );
}
