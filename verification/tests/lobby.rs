use lobby_registry::address::PublicAddress;
use lobby_registry::ident::LobbyId;
use lobby_registry::lobby::{CreateLobby, Lobby, LobbyError};

fn request_at(address: &str, port: u16) -> CreateLobby {
    CreateLobby {
        public_ip_address: address.to_string(),
        port,
        max_seats: 8,
        players_count: 3,
        lobby_name: "Friday night".to_string(),
    }
}

#[test]
fn record_takes_over_the_request() {
    let id = LobbyId(0x67e55044_10b1_426f_9247_bb680e5fe0c8);
    let lobby = Lobby::create(id, &request_at("203.0.113.7", 47998)).unwrap();
    assert_eq!(lobby.id(), id);
    assert_eq!(lobby.address(), PublicAddress { octets: [203, 0, 113, 7], port: 47998 });
    assert_eq!(lobby.max_seats(), 8);
    assert_eq!(lobby.players_count(), 3);
    assert_eq!(lobby.lobby_name(), "Friday night");
}

#[test]
fn address_that_does_not_parse_is_an_error() {
    let id = LobbyId(7);
    assert_eq!(Lobby::create(id, &request_at("203.0.113", 1)), Err(LobbyError::AddressParseError));
    assert_eq!(Lobby::create(id, &request_at("", 1)), Err(LobbyError::AddressParseError));
    assert_eq!(Lobby::create(id, &request_at("example.org", 1)), Err(LobbyError::AddressParseError));
    assert_eq!(Lobby::create(id, &request_at("203.0.113.256", 1)), Err(LobbyError::AddressParseError));
    assert_eq!(Lobby::create(id, &request_at("::1", 1)), Err(LobbyError::AddressParseError));
}

#[test]
fn seat_counts_are_not_related() {
    let request = CreateLobby {
        public_ip_address: "10.0.0.1".to_string(),
        port: 0,
        max_seats: 2,
        players_count: 50,
        lobby_name: String::new(),
    };
    let lobby = Lobby::create(LobbyId(1), &request).unwrap();
    assert_eq!(lobby.max_seats(), 2);
    assert_eq!(lobby.players_count(), 50);
    assert_eq!(lobby.lobby_name(), "");
    assert_eq!(lobby.address().port, 0);
}

#[test]
fn copy_of_a_record_is_equal() {
    let lobby = Lobby::create(LobbyId(9), &request_at("192.0.2.1", 65535)).unwrap();
    let copy = lobby.clone();
    assert_eq!(copy, lobby);
    assert_eq!(copy.address().port, 65535);
    let request = request_at("192.0.2.1", 65535);
    assert_eq!(request.clone(), request);
}

#[test]
fn records_under_different_identifiers_differ() {
    let request = request_at("192.0.2.1", 4000);
    let one = Lobby::create(LobbyId(1), &request).unwrap();
    let other = Lobby::create(LobbyId(2), &request).unwrap();
    assert_ne!(one, other);
    assert_eq!(one.address(), other.address());
}
