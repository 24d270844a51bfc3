//! The query session: one connection that reads the registry.
//!
//! The session decides; the embedding application acts. The session always
//! has one request outstanding (`outstanding`). The application carries it
//! out and delivers the outcome (`step`), which moves the session on to its
//! next request. A round is: send `Ack`, receive a frame, and for a list or
//! a lookup consult the registry and send the reply.
//!
//! A failed write or read ends the session from any stage, and so does the
//! peer closing the connection. Any other event that does not answer the
//! outstanding request leaves the session as it is.

use crate::ident::LobbyId;
use crate::lobby::{view_of_found, Lobby, LobbyView};
use crate::registry::Registry;
use crate::session::{SessionEnd, SessionError};
use crate::wire::{parse_query_frame, query_frame_meaning, QueryRequest};
use vstd::prelude::*;

verus! {

/// What a query session sends.
#[derive(Debug, PartialEq, Eq)]
pub enum QueryReply {
    Ack,
    LobbyIds(Vec<LobbyId>),
    Lobby(Result<Lobby, SessionError>),
}

pub enum QueryReplyView {
    Ack,
    LobbyIds(Seq<LobbyId>),
    Lobby(Result<LobbyView, SessionError>),
}

/// What the session asks the application to do.
#[derive(Debug, PartialEq, Eq)]
pub enum QueryAction {
    /// Write one frame that carries the reply.
    Send(QueryReply),
    /// Read one frame.
    Receive,
    /// Read the identifiers that the registry holds.
    ListIds,
    /// Read the record that the registry holds under the identifier.
    Lookup(LobbyId),
    /// Nothing more: the session is over.
    Stop,
}

pub enum QueryActionView {
    Send(QueryReplyView),
    Receive,
    ListIds,
    Lookup(LobbyId),
    Stop,
}

/// What the application reports back.
#[derive(Debug, PartialEq, Eq)]
pub enum QueryEvent {
    /// The frame was written.
    Sent,
    WriteFailed,
    /// A frame was read.
    Frame(Vec<u8>),
    /// The read found the connection closed.
    PeerClosed,
    ReadFailed,
    /// The identifiers that the registry held.
    Ids(Vec<LobbyId>),
    /// The record that the registry held, if any.
    Found(Option<Lobby>),
}

pub enum QueryEventView {
    Sent,
    WriteFailed,
    Frame(Seq<u8>),
    PeerClosed,
    ReadFailed,
    Ids(Seq<LobbyId>),
    Found(Option<LobbyView>),
}

/// A query session, by what it waits for.
#[derive(Debug, PartialEq, Eq)]
pub enum QuerySession {
    /// The `Ack` that opens a round is being sent.
    Acknowledging,
    /// A frame is awaited.
    Receiving,
    /// The registry's identifiers are awaited.
    Listing,
    /// The registry's record under the identifier is awaited.
    LookingUp(LobbyId),
    /// The reply is being sent.
    Replying(QueryReply),
    Closed(SessionEnd),
}

pub enum QuerySessionView {
    Acknowledging,
    Receiving,
    Listing,
    LookingUp(LobbyId),
    Replying(QueryReplyView),
    Closed(SessionEnd),
}

pub open spec fn view_of_lookup(result: Result<Lobby, SessionError>) -> Result<
    LobbyView,
    SessionError,
> {
    match result {
        Ok(lobby) => Ok(lobby@),
        Err(e) => Err(e),
    }
}

impl View for QueryReply {
    type V = QueryReplyView;

    open spec fn view(&self) -> QueryReplyView {
        match self {
            QueryReply::Ack => QueryReplyView::Ack,
            QueryReply::LobbyIds(ids) => QueryReplyView::LobbyIds(ids@),
            QueryReply::Lobby(result) => QueryReplyView::Lobby(view_of_lookup(*result)),
        }
    }
}

impl View for QueryAction {
    type V = QueryActionView;

    open spec fn view(&self) -> QueryActionView {
        match self {
            QueryAction::Send(reply) => QueryActionView::Send(reply@),
            QueryAction::Receive => QueryActionView::Receive,
            QueryAction::ListIds => QueryActionView::ListIds,
            QueryAction::Lookup(id) => QueryActionView::Lookup(*id),
            QueryAction::Stop => QueryActionView::Stop,
        }
    }
}

impl View for QueryEvent {
    type V = QueryEventView;

    open spec fn view(&self) -> QueryEventView {
        match self {
            QueryEvent::Sent => QueryEventView::Sent,
            QueryEvent::WriteFailed => QueryEventView::WriteFailed,
            QueryEvent::Frame(frame) => QueryEventView::Frame(frame@),
            QueryEvent::PeerClosed => QueryEventView::PeerClosed,
            QueryEvent::ReadFailed => QueryEventView::ReadFailed,
            QueryEvent::Ids(ids) => QueryEventView::Ids(ids@),
            QueryEvent::Found(found) => QueryEventView::Found(view_of_found(*found)),
        }
    }
}

impl View for QuerySession {
    type V = QuerySessionView;

    open spec fn view(&self) -> QuerySessionView {
        match self {
            QuerySession::Acknowledging => QuerySessionView::Acknowledging,
            QuerySession::Receiving => QuerySessionView::Receiving,
            QuerySession::Listing => QuerySessionView::Listing,
            QuerySession::LookingUp(id) => QuerySessionView::LookingUp(*id),
            QuerySession::Replying(reply) => QuerySessionView::Replying(reply@),
            QuerySession::Closed(end) => QuerySessionView::Closed(*end),
        }
    }
}

/// The reply to a lookup: the record, or `LobbyNotFound` where the registry
/// held none.
pub open spec fn lookup_reply(found: Option<LobbyView>) -> QueryReplyView {
    match found {
        Some(lobby) => QueryReplyView::Lobby(Ok(lobby)),
        None => QueryReplyView::Lobby(Err(SessionError::LobbyNotFound)),
    }
}

/// Where a session that waits for a frame goes on the request that the frame
/// carries, or on the frame being none.
pub open spec fn after_request(request: Result<QueryRequest, SessionError>) -> QuerySessionView {
    match request {
        Ok(QueryRequest::Ack) => QuerySessionView::Acknowledging,
        Ok(QueryRequest::Close) => QuerySessionView::Closed(SessionEnd::ClosedByPeer),
        Ok(QueryRequest::ListIds) => QuerySessionView::Listing,
        Ok(QueryRequest::GetLobby(id)) => QuerySessionView::LookingUp(id),
        Err(e) => QuerySessionView::Closed(SessionEnd::Failed(e)),
    }
}

/// The session after an event.
pub open spec fn query_step(session: QuerySessionView, event: QueryEventView) -> QuerySessionView {
    match (session, event) {
        (QuerySessionView::Closed(_), _) => session,
        (_, QueryEventView::WriteFailed) => QuerySessionView::Closed(
            SessionEnd::Failed(SessionError::SocketIoError),
        ),
        (_, QueryEventView::ReadFailed) => QuerySessionView::Closed(
            SessionEnd::Failed(SessionError::SocketIoError),
        ),
        (_, QueryEventView::PeerClosed) => QuerySessionView::Closed(SessionEnd::ClosedByPeer),
        (QuerySessionView::Acknowledging, QueryEventView::Sent) => QuerySessionView::Receiving,
        (QuerySessionView::Receiving, QueryEventView::Frame(frame)) => after_request(
            query_frame_meaning(frame),
        ),
        (QuerySessionView::Listing, QueryEventView::Ids(ids)) => QuerySessionView::Replying(
            QueryReplyView::LobbyIds(ids),
        ),
        (QuerySessionView::LookingUp(_), QueryEventView::Found(found)) => QuerySessionView::Replying(
            lookup_reply(found),
        ),
        (QuerySessionView::Replying(_), QueryEventView::Sent) => QuerySessionView::Acknowledging,
        _ => session,
    }
}

/// The request that a session has outstanding.
pub open spec fn query_outstanding(session: QuerySessionView) -> QueryActionView {
    match session {
        QuerySessionView::Acknowledging => QueryActionView::Send(QueryReplyView::Ack),
        QuerySessionView::Receiving => QueryActionView::Receive,
        QuerySessionView::Listing => QueryActionView::ListIds,
        QuerySessionView::LookingUp(id) => QueryActionView::Lookup(id),
        QuerySessionView::Replying(reply) => QueryActionView::Send(reply),
        QuerySessionView::Closed(_) => QueryActionView::Stop,
    }
}

/// Whether the event is what the registry answers to the request: for a
/// list, its identifiers, each once, in some order; for a lookup, the record
/// that it holds under the identifier, or none.
pub open spec fn registry_answers(
    registry: Map<LobbyId, LobbyView>,
    action: QueryActionView,
    event: QueryEventView,
) -> bool {
    match (action, event) {
        (QueryActionView::ListIds, QueryEventView::Ids(ids)) => {
            &&& ids.to_set() == registry.dom()
            &&& ids.no_duplicates()
        },
        (QueryActionView::Lookup(id), QueryEventView::Found(found)) => found == registry.get(id),
        _ => false,
    }
}

/// A lookup of an identifier that the registry does not hold is answered
/// with `LobbyNotFound`, and the session goes on. From the frame that asks
/// for the identifier to the reply: the session asks the registry for that
/// identifier, takes the registry's answer, and has the not-found reply to
/// send; it is not closed.
pub proof fn law_absent_identifier_is_not_found(
    registry: Map<LobbyId, LobbyView>,
    frame: Seq<u8>,
    id: LobbyId,
    answer: QueryEventView,
)
    requires
        query_frame_meaning(frame) == Ok::<QueryRequest, SessionError>(QueryRequest::GetLobby(id)),
        !registry.contains_key(id),
        registry_answers(registry, QueryActionView::Lookup(id), answer),
    ensures
        ({
            let asking = query_step(QuerySessionView::Receiving, QueryEventView::Frame(frame));
            let replying = query_step(asking, answer);
            &&& query_outstanding(asking) == QueryActionView::Lookup(id)
            &&& query_outstanding(replying) == QueryActionView::Send(
                QueryReplyView::Lobby(Err(SessionError::LobbyNotFound)),
            )
            &&& !(replying is Closed)
        }),
{
}

/// A lookup is answered with a record exactly when the registry holds one
/// under the identifier, and then with that record.
pub proof fn law_lookup_reply_is_the_record(
    registry: Map<LobbyId, LobbyView>,
    id: LobbyId,
    answer: QueryEventView,
)
    requires
        registry_answers(registry, QueryActionView::Lookup(id), answer),
    ensures
        query_step(QuerySessionView::LookingUp(id), answer) == QuerySessionView::Replying(
            if registry.contains_key(id) {
                QueryReplyView::Lobby(Ok(registry[id]))
            } else {
                QueryReplyView::Lobby(Err(SessionError::LobbyNotFound))
            },
        ),
{
}

/// A frame that is no request ends the session with nothing sent: the
/// session is closed as the frame's fault says, and has nothing outstanding.
pub proof fn law_malformed_frame_gets_no_reply(frame: Seq<u8>, fault: SessionError)
    requires
        query_frame_meaning(frame) == Err::<QueryRequest, SessionError>(fault),
    ensures
        ({
            let next = query_step(QuerySessionView::Receiving, QueryEventView::Frame(frame));
            &&& next == QuerySessionView::Closed(SessionEnd::Failed(fault))
            &&& query_outstanding(next) == QueryActionView::Stop
        }),
{
}

impl Clone for QueryReply {
    fn clone(&self) -> (copy: Self)
        ensures
            copy@ == self@,
    {
        match self {
            QueryReply::Ack => QueryReply::Ack,
            QueryReply::LobbyIds(ids) => {
                let copy = ids.clone();
                assert(copy@ =~= ids@);
                QueryReply::LobbyIds(copy)
            },
            QueryReply::Lobby(Ok(lobby)) => QueryReply::Lobby(Ok(lobby.clone())),
            QueryReply::Lobby(Err(e)) => QueryReply::Lobby(Err(*e)),
        }
    }
}

impl QueryReply {
    /// The reply to a lookup.
    pub fn for_lookup(found: Option<Lobby>) -> (reply: QueryReply)
        ensures
            reply@ == lookup_reply(view_of_found(found)),
    {
        match found {
            Some(lobby) => QueryReply::Lobby(Ok(lobby)),
            None => QueryReply::Lobby(Err(SessionError::LobbyNotFound)),
        }
    }
}

impl QueryAction {
    /// Whether carrying the request out means reading the registry.
    pub fn reads_registry(&self) -> (reads: bool)
        ensures
            reads == (self@ is ListIds || self@ is Lookup),
    {
        match self {
            QueryAction::ListIds => true,
            QueryAction::Lookup(_) => true,
            _ => false,
        }
    }

    /// Carries the request out on the registry and returns its answer, or
    /// `None` where the request is not one to the registry.
    pub fn consult(&self, registry: &Registry) -> (answer: Option<QueryEvent>)
        ensures
            match answer {
                Some(event) => registry_answers(registry@, self@, event@),
                None => !(self@ is ListIds || self@ is Lookup),
            },
    {
        match self {
            QueryAction::ListIds => Some(QueryEvent::Ids(registry.list_ids())),
            QueryAction::Lookup(id) => Some(QueryEvent::Found(registry.get(*id))),
            _ => None,
        }
    }
}

impl QuerySession {
    /// A session on a connection that has just been accepted.
    pub fn accept() -> (session: QuerySession)
        ensures
            session@ == QuerySessionView::Acknowledging,
    {
        QuerySession::Acknowledging
    }

    pub fn is_closed(&self) -> (closed: bool)
        ensures
            closed == (self@ is Closed),
    {
        match self {
            QuerySession::Closed(_) => true,
            _ => false,
        }
    }

    /// Why the session is over, once it is.
    pub fn end(&self) -> (end: Option<SessionEnd>)
        ensures
            end == match self@ {
                QuerySessionView::Closed(e) => Some(e),
                _ => None,
            },
    {
        match self {
            QuerySession::Closed(e) => Some(*e),
            _ => None,
        }
    }

    /// What the application is to do next.
    pub fn outstanding(&self) -> (action: QueryAction)
        ensures
            action@ == query_outstanding(self@),
    {
        match self {
            QuerySession::Acknowledging => QueryAction::Send(QueryReply::Ack),
            QuerySession::Receiving => QueryAction::Receive,
            QuerySession::Listing => QueryAction::ListIds,
            QuerySession::LookingUp(id) => QueryAction::Lookup(*id),
            QuerySession::Replying(reply) => QueryAction::Send(reply.clone()),
            QuerySession::Closed(_) => QueryAction::Stop,
        }
    }

    /// Where a session that waits for a frame goes on a request.
    pub fn on_request(request: Result<QueryRequest, SessionError>) -> (next: QuerySession)
        ensures
            next@ == after_request(request),
    {
        match request {
            Ok(QueryRequest::Ack) => QuerySession::Acknowledging,
            Ok(QueryRequest::Close) => QuerySession::Closed(SessionEnd::ClosedByPeer),
            Ok(QueryRequest::ListIds) => QuerySession::Listing,
            Ok(QueryRequest::GetLobby(id)) => QuerySession::LookingUp(id),
            Err(e) => QuerySession::Closed(SessionEnd::Failed(e)),
        }
    }

    /// Takes in the outcome of the outstanding request.
    pub fn step(self, event: QueryEvent) -> (next: QuerySession)
        ensures
            next@ == query_step(self@, event@),
    {
        match (self, event) {
            (QuerySession::Closed(end), _) => QuerySession::Closed(end),
            (_, QueryEvent::WriteFailed) => QuerySession::Closed(
                SessionEnd::Failed(SessionError::SocketIoError),
            ),
            (_, QueryEvent::ReadFailed) => QuerySession::Closed(
                SessionEnd::Failed(SessionError::SocketIoError),
            ),
            (_, QueryEvent::PeerClosed) => QuerySession::Closed(SessionEnd::ClosedByPeer),
            (QuerySession::Acknowledging, QueryEvent::Sent) => QuerySession::Receiving,
            (QuerySession::Receiving, QueryEvent::Frame(frame)) => QuerySession::on_request(
                parse_query_frame(frame.as_slice()),
            ),
            (QuerySession::Listing, QueryEvent::Ids(ids)) => QuerySession::Replying(
                QueryReply::LobbyIds(ids),
            ),
            (QuerySession::LookingUp(_), QueryEvent::Found(found)) => QuerySession::Replying(
                QueryReply::for_lookup(found),
            ),
            (QuerySession::Replying(_), QueryEvent::Sent) => QuerySession::Acknowledging,
            (session, _) => session,
        }
    }
}

} // verus!
