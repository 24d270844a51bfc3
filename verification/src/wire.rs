//! The frames of the two protocols.
//!
//! A frame is what one read or one write of the connection carries. Inbound
//! frames are UTF-8 text:
//!
//! | text                | registration      | query            |
//! |---------------------|-------------------|------------------|
//! | `"Ack"` (quoted)    | heartbeat         | heartbeat        |
//! | `close`             | close request     | close request    |
//! | `get-ids`           | payload           | list request     |
//! | `get-info ` + id    | payload           | lookup request   |
//! | anything else       | payload           | malformed        |
//!
//! The identifier of a lookup is everything after the single space. A payload
//! is a creation request in the encoding that the embedding application
//! chose; this module only tells it apart from the tokens.

use crate::ident::{id_bytes, uuid_text_value, LobbyId};
use crate::session::SessionError;
use vstd::prelude::*;
use vstd::string::{StrSliceExecFns, StringSliceAdditionalSpecFns};
use vstd::utf8::{decode_utf8, valid_utf8};

verus! {

/// The most that one read takes in: a longer message arrives cut short.
pub const FRAME_CAPACITY: usize = 512;

/// What a query session can be asked.
#[derive(Clone, Copy, Debug, PartialEq, Eq, Structural)]
pub enum QueryRequest {
    Ack,
    Close,
    ListIds,
    GetLobby(LobbyId),
}

/// What a registration session can be sent, before any payload is decoded.
#[derive(Clone, Copy, Debug, PartialEq, Eq, Structural)]
pub enum RegistrationFrame {
    Ack,
    Close,
    Payload,
}

pub open spec fn ack_token() -> Seq<char> {
    "\"Ack\""@
}

pub open spec fn close_token() -> Seq<char> {
    "close"@
}

pub open spec fn list_token() -> Seq<char> {
    "get-ids"@
}

pub open spec fn lookup_prefix() -> Seq<char> {
    "get-info "@
}

pub open spec fn has_prefix(text: Seq<char>, prefix: Seq<char>) -> bool {
    prefix.len() <= text.len() && text.take(prefix.len() as int) == prefix
}

/// The text of a frame, where the frame is valid UTF-8.
pub open spec fn frame_text(frame: Seq<u8>) -> Option<Seq<char>> {
    if valid_utf8(frame) {
        Some(decode_utf8(frame))
    } else {
        None
    }
}

/// The lookup request for an identifier text, given what the identifier
/// parser made of it.
pub open spec fn lookup_meaning(parsed: Option<u128>) -> Result<QueryRequest, SessionError> {
    match parsed {
        Some(bits) => Ok(QueryRequest::GetLobby(LobbyId(bits))),
        None => Err(SessionError::MalformedMessage),
    }
}

/// What the text of a query frame asks for.
pub open spec fn query_text_meaning(text: Seq<char>) -> Result<QueryRequest, SessionError> {
    if text == ack_token() {
        Ok(QueryRequest::Ack)
    } else if text == close_token() {
        Ok(QueryRequest::Close)
    } else if text == list_token() {
        Ok(QueryRequest::ListIds)
    } else if has_prefix(text, lookup_prefix()) {
        lookup_meaning(uuid_text_value(text.skip(lookup_prefix().len() as int)))
    } else {
        Err(SessionError::MalformedMessage)
    }
}

/// What a query frame asks for. A frame that is not UTF-8 asks for nothing.
pub open spec fn query_frame_meaning(frame: Seq<u8>) -> Result<QueryRequest, SessionError> {
    match frame_text(frame) {
        Some(text) => query_text_meaning(text),
        None => Err(SessionError::MalformedMessage),
    }
}

/// What the text of a registration frame is: one of the two tokens, or a
/// payload.
pub open spec fn registration_text_meaning(text: Seq<char>) -> RegistrationFrame {
    if text == ack_token() {
        RegistrationFrame::Ack
    } else if text == close_token() {
        RegistrationFrame::Close
    } else {
        RegistrationFrame::Payload
    }
}

/// What a registration frame is. A frame that is not UTF-8 is malformed.
pub open spec fn registration_frame_meaning(frame: Seq<u8>) -> Result<
    RegistrationFrame,
    SessionError,
> {
    match frame_text(frame) {
        Some(text) => Ok(registration_text_meaning(text)),
        None => Err(SessionError::MalformedMessage),
    }
}

/// The tokens do not shadow one another: each is read as what it stands for,
/// in both protocols, and the lookup prefix is nine characters long.
pub proof fn law_tokens_are_told_apart()
    ensures
        query_text_meaning(ack_token()) == Ok::<QueryRequest, SessionError>(QueryRequest::Ack),
        query_text_meaning(close_token()) == Ok::<QueryRequest, SessionError>(QueryRequest::Close),
        query_text_meaning(list_token()) == Ok::<QueryRequest, SessionError>(QueryRequest::ListIds),
        registration_text_meaning(ack_token()) == RegistrationFrame::Ack,
        registration_text_meaning(close_token()) == RegistrationFrame::Close,
        registration_text_meaning(list_token()) == RegistrationFrame::Payload,
        lookup_prefix().len() == 9,
        !has_prefix(ack_token(), lookup_prefix()),
        !has_prefix(close_token(), lookup_prefix()),
        !has_prefix(list_token(), lookup_prefix()),
{
    reveal_strlit("\"Ack\"");
    reveal_strlit("close");
    reveal_strlit("get-ids");
    reveal_strlit("get-info ");
    assert(ack_token().len() == 5);
    assert(close_token().len() == 5);
    assert(list_token().len() == 7);
    assert(ack_token()[0] == '"');
    assert(close_token()[0] == 'c');
}

/// The frame that carries a list of identifiers: sixteen bytes for each, one
/// after the other, in the order of the list.
pub open spec fn ids_frame(ids: Seq<LobbyId>) -> Seq<u8>
    decreases ids.len(),
{
    if ids.len() == 0 {
        Seq::<u8>::empty()
    } else {
        ids_frame(ids.drop_last()) + id_bytes(ids.last())
    }
}

/// `std::str::from_utf8`: the bytes as a text, where they are valid UTF-8
/// (`vstd::utf8::valid_utf8` spells the standard's rules out), and `None`
/// where they are not. The text is the very bytes, read as characters.
#[verifier::external_body]
fn utf8_text(bytes: &[u8]) -> (text: Option<&str>)
    ensures
        text is Some <==> valid_utf8(bytes@),
        text matches Some(t) ==> t.spec_bytes() == bytes@,
{
    match std::str::from_utf8(bytes) {
        Ok(text) => Some(text),
        Err(_) => None,
    }
}

/// Reads a frame as text.
pub fn text_of_frame(frame: &[u8]) -> (text: Option<&str>)
    ensures
        match text {
            Some(t) => frame_text(frame@) == Some(t@),
            None => frame_text(frame@) is None,
        },
{
    broadcast use vstd::utf8::encode_utf8_decode_utf8;

    utf8_text(frame)
}

/// Whether two texts are the same, character by character.
pub fn text_is(text: &str, token: &str) -> (same: bool)
    ensures
        same == (text@ == token@),
{
    let n: usize = token.unicode_len();
    if text.unicode_len() != n {
        return false;
    }
    let mut i: usize = 0;
    while i < n
        invariant
            n == token@.len(),
            n == text@.len(),
            0 <= i <= n,
            forall|j: int| 0 <= j < i ==> text@[j] == token@[j],
        decreases n - i,
    {
        if text.get_char(i) != token.get_char(i) {
            return false;
        }
        i = i + 1;
    }
    assert(text@ =~= token@);
    true
}

/// Whether a text begins with the characters of another.
pub fn text_starts_with(text: &str, prefix: &str) -> (starts: bool)
    ensures
        starts == has_prefix(text@, prefix@),
{
    let n: usize = prefix.unicode_len();
    if text.unicode_len() < n {
        return false;
    }
    let mut i: usize = 0;
    while i < n
        invariant
            n == prefix@.len(),
            n <= text@.len(),
            0 <= i <= n,
            forall|j: int| 0 <= j < i ==> text@[j] == prefix@[j],
        decreases n - i,
    {
        if text.get_char(i) != prefix.get_char(i) {
            assert(text@.take(n as int)[i as int] != prefix@[i as int]);
            return false;
        }
        i = i + 1;
    }
    assert(text@.take(n as int) =~= prefix@);
    true
}

impl QueryRequest {
    /// The lookup request that names the identifier, if an identifier was
    /// read.
    pub fn lookup(id: Option<LobbyId>) -> (request: Result<QueryRequest, SessionError>)
        ensures
            request == match id {
                Some(id) => Ok::<QueryRequest, SessionError>(QueryRequest::GetLobby(id)),
                None => Err(SessionError::MalformedMessage),
            },
    {
        match id {
            Some(id) => Ok(QueryRequest::GetLobby(id)),
            None => Err(SessionError::MalformedMessage),
        }
    }
}

/// Writes the frame that carries a list of identifiers.
pub fn encode_lobby_ids(ids: &Vec<LobbyId>) -> (frame: Vec<u8>)
    ensures
        frame@ == ids_frame(ids@),
{
    let mut frame: Vec<u8> = Vec::new();
    let mut i: usize = 0;
    assert(ids@.take(0) =~= Seq::<LobbyId>::empty());
    while i < ids.len()
        invariant
            0 <= i <= ids.len(),
            frame@ == ids_frame(ids@.take(i as int)),
        decreases ids.len() - i,
    {
        let bytes = ids[i].to_bytes();
        let ghost before = frame@;
        let mut j: usize = 0;
        while j < 16
            invariant
                0 <= j <= 16,
                bytes@.len() == 16,
                frame@ == before + bytes@.take(j as int),
            decreases 16 - j,
        {
            frame.push(bytes[j]);
            assert(frame@ =~= before + bytes@.take(j + 1));
            j = j + 1;
        }
        proof {
            assert(bytes@.take(16) =~= bytes@);
            assert(ids@.take(i + 1).drop_last() =~= ids@.take(i as int));
            assert(ids@.take(i + 1).last() == ids@[i as int]);
        }
        i = i + 1;
    }
    assert(ids@.take(ids.len() as int) =~= ids@);
    frame
}

/// Reads the text of a query frame.
pub fn parse_query_text(text: &str) -> (request: Result<QueryRequest, SessionError>)
    ensures
        request == query_text_meaning(text@),
{
    if text_is(text, "\"Ack\"") {
        Ok(QueryRequest::Ack)
    } else if text_is(text, "close") {
        Ok(QueryRequest::Close)
    } else if text_is(text, "get-ids") {
        Ok(QueryRequest::ListIds)
    } else if text_starts_with(text, "get-info ") {
        let from: usize = "get-info ".unicode_len();
        let to: usize = text.unicode_len();
        let tail = text.substring_char(from, to);
        assert(tail@ =~= text@.skip(from as int));
        QueryRequest::lookup(LobbyId::parse(tail))
    } else {
        Err(SessionError::MalformedMessage)
    }
}

/// Reads a query frame.
pub fn parse_query_frame(frame: &[u8]) -> (request: Result<QueryRequest, SessionError>)
    ensures
        request == query_frame_meaning(frame@),
{
    match text_of_frame(frame) {
        Some(text) => parse_query_text(text),
        None => Err(SessionError::MalformedMessage),
    }
}

/// Tells the tokens of the registration protocol from a payload.
pub fn read_registration_frame(frame: &[u8]) -> (kind: Result<RegistrationFrame, SessionError>)
    ensures
        kind == registration_frame_meaning(frame@),
{
    match text_of_frame(frame) {
        Some(text) => {
            if text_is(text, "\"Ack\"") {
                Ok(RegistrationFrame::Ack)
            } else if text_is(text, "close") {
                Ok(RegistrationFrame::Close)
            } else {
                Ok(RegistrationFrame::Payload)
            }
        },
        None => Err(SessionError::MalformedMessage),
    }
}

} // verus!
