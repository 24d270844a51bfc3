//! The lobby record and the request that asks for one.

use crate::address::{ipv4_text_value, parse_ipv4, PublicAddress, PublicAddressView};
use crate::ident::LobbyId;
use vstd::prelude::*;

verus! {

/// A published game session: where it can be reached, how many seats it has
/// and how many are taken. Nothing relates the two seat counts.
#[derive(Debug, PartialEq, Eq)]
pub struct Lobby {
    id: LobbyId,
    public_addr: PublicAddress,
    max_seats: usize,
    players_count: usize,
    lobby_name: String,
}

pub struct LobbyView {
    pub id: LobbyId,
    pub address: PublicAddressView,
    pub max_seats: usize,
    pub players_count: usize,
    pub name: Seq<char>,
}

/// What a host sends to have a lobby published.
#[derive(Debug, PartialEq, Eq)]
pub struct CreateLobby {
    pub public_ip_address: String,
    pub port: u16,
    pub max_seats: usize,
    pub players_count: usize,
    pub lobby_name: String,
}

pub struct CreateLobbyView {
    pub address_text: Seq<char>,
    pub port: u16,
    pub max_seats: usize,
    pub players_count: usize,
    pub name: Seq<char>,
}

#[derive(Clone, Copy, Debug, PartialEq, Eq, Structural)]
pub enum LobbyError {
    AddressParseError,
}

impl View for Lobby {
    type V = LobbyView;

    closed spec fn view(&self) -> LobbyView {
        LobbyView {
            id: self.id,
            address: self.public_addr@,
            max_seats: self.max_seats,
            players_count: self.players_count,
            name: self.lobby_name@,
        }
    }
}

impl View for CreateLobby {
    type V = CreateLobbyView;

    open spec fn view(&self) -> CreateLobbyView {
        CreateLobbyView {
            address_text: self.public_ip_address@,
            port: self.port,
            max_seats: self.max_seats,
            players_count: self.players_count,
            name: self.lobby_name@,
        }
    }
}

impl Clone for CreateLobby {
    fn clone(&self) -> (copy: Self)
        ensures
            copy@ == self@,
    {
        CreateLobby {
            public_ip_address: self.public_ip_address.clone(),
            port: self.port,
            max_seats: self.max_seats,
            players_count: self.players_count,
            lobby_name: self.lobby_name.clone(),
        }
    }
}

impl Clone for Lobby {
    fn clone(&self) -> (copy: Self)
        ensures
            copy@ == self@,
    {
        Lobby {
            id: self.id,
            public_addr: self.public_addr,
            max_seats: self.max_seats,
            players_count: self.players_count,
            lobby_name: self.lobby_name.clone(),
        }
    }
}

/// The record that a request asks for under an identifier, where its address
/// text is an IPv4 address.
pub open spec fn lobby_for(id: LobbyId, create: CreateLobbyView) -> Result<LobbyView, LobbyError> {
    match ipv4_text_value(create.address_text) {
        Some(octets) => Ok(
            LobbyView {
                id,
                address: PublicAddressView { octets, port: create.port },
                max_seats: create.max_seats,
                players_count: create.players_count,
                name: create.name,
            },
        ),
        None => Err(LobbyError::AddressParseError),
    }
}

pub open spec fn view_of_made(made: Result<Lobby, LobbyError>) -> Result<LobbyView, LobbyError> {
    match made {
        Ok(lobby) => Ok(lobby@),
        Err(e) => Err(e),
    }
}

pub open spec fn view_of_found(found: Option<Lobby>) -> Option<LobbyView> {
    match found {
        Some(lobby) => Some(lobby@),
        None => None,
    }
}

impl Lobby {
    /// Builds the record for a request. The address text must be an IPv4
    /// address in dotted-quad form; the seat counts and the name are taken as
    /// they come.
    pub fn create(id: LobbyId, create: &CreateLobby) -> (made: Result<Self, LobbyError>)
        ensures
            view_of_made(made) == lobby_for(id, create@),
    {
        let octets = match parse_ipv4(create.public_ip_address.as_str()) {
            Some(octets) => octets,
            None => {
                return Err(LobbyError::AddressParseError);
            },
        };
        let lobby = Lobby {
            id,
            public_addr: PublicAddress { octets, port: create.port },
            max_seats: create.max_seats,
            players_count: create.players_count,
            lobby_name: create.lobby_name.clone(),
        };
        Ok(lobby)
    }

    pub fn address(&self) -> (address: PublicAddress)
        ensures
            address@ == self@.address,
    {
        self.public_addr
    }

    pub fn id(&self) -> (id: LobbyId)
        ensures
            id == self@.id,
    {
        self.id
    }

    pub fn max_seats(&self) -> (seats: usize)
        ensures
            seats == self@.max_seats,
    {
        self.max_seats
    }

    pub fn players_count(&self) -> (count: usize)
        ensures
            count == self@.players_count,
    {
        self.players_count
    }

    pub fn lobby_name(&self) -> (name: &str)
        ensures
            name@ == self@.name,
    {
        self.lobby_name.as_str()
    }
}

} // verus!
