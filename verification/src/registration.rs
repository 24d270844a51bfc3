//! The registration session: one connection that may publish one lobby and
//! owns its entry in the registry for as long as the connection lasts.
//!
//! The session decides; the embedding application acts. The session always
//! has one request outstanding (`outstanding`). The application carries it
//! out and delivers the outcome (`step`), which moves the session on to its
//! next request.
//!
//! A session passes through four states. `Connected`: accepted, no identifier
//! yet. `Registering`: it exchanges `Ack` frames for inbound frames and, on a
//! creation request, has the payload decoded, checks the address and has it
//! probed. `Published`: its record is in the registry and it keeps exchanging
//! heartbeats; any frame other than a heartbeat ends it. `Closed`: over, and
//! if it was published its record is withdrawn.
//!
//! A failed write or read ends the session from any stage, and so does the
//! peer closing the connection. Any other event that does not answer the
//! outstanding request leaves the session as it is.

use crate::address::{PublicAddress, PublicAddressView};
use crate::ident::LobbyId;
use crate::lobby::{lobby_for, CreateLobby, CreateLobbyView, Lobby, LobbyView};
use crate::probe::{is_reachable, ProbeOutcome};
use crate::registry::Registry;
use crate::session::{SessionEnd, SessionError};
use crate::wire::{read_registration_frame, registration_frame_meaning, RegistrationFrame};
use vstd::prelude::*;

verus! {

/// The four states of a registration session.
#[derive(Clone, Copy, Debug, PartialEq, Eq, Structural)]
pub enum RegistrationState {
    Connected,
    Registering,
    Published,
    Closed,
}

/// What the session asks the application to do.
#[derive(Debug, PartialEq, Eq)]
pub enum RegistrationAction {
    /// Draw a fresh identifier.
    Provision,
    /// Write one `Ack` frame.
    SendAck,
    /// Read one frame.
    Receive,
    /// Decode the payload as a creation request.
    Decode(Vec<u8>),
    /// Probe the address for a listening game session.
    Probe(PublicAddress),
    /// Insert the record into the registry under its identifier.
    Publish(Lobby),
    /// Remove the identifier from the registry.
    Withdraw(LobbyId),
    /// Nothing more: the session is over.
    Stop,
}

pub enum RegistrationActionView {
    Provision,
    SendAck,
    Receive,
    Decode(Seq<u8>),
    Probe(PublicAddressView),
    Publish(LobbyView),
    Withdraw(LobbyId),
    Stop,
}

/// What the application reports back.
#[derive(Debug, PartialEq, Eq)]
pub enum RegistrationEvent {
    /// The identifier that was drawn.
    Provisioned(LobbyId),
    /// The frame was written.
    Sent,
    WriteFailed,
    /// A frame was read.
    Frame(Vec<u8>),
    /// The read found the connection closed.
    PeerClosed,
    ReadFailed,
    /// The creation request that the payload held, if it held one.
    Decoded(Option<CreateLobby>),
    /// What the probe of the address found.
    Probed(ProbeOutcome),
    /// The registry was updated.
    Performed,
}

pub enum RegistrationEventView {
    Provisioned(LobbyId),
    Sent,
    WriteFailed,
    Frame(Seq<u8>),
    PeerClosed,
    ReadFailed,
    Decoded(Option<CreateLobbyView>),
    Probed(ProbeOutcome),
    Performed,
}

/// A registration session, by what it waits for.
#[derive(Debug, PartialEq, Eq)]
pub enum RegistrationSession {
    /// Accepted; an identifier is awaited.
    Connected,
    /// Registering; the `Ack` that opens a round is being sent.
    Acknowledging(LobbyId),
    /// Registering; a frame is awaited.
    Receiving(LobbyId),
    /// Registering; the decoded payload is awaited.
    Decoding(LobbyId, Vec<u8>),
    /// Registering; the probe of the record's address is awaited.
    Probing(Lobby),
    /// Published; the insertion of the record is awaited.
    Publishing(Lobby),
    /// Published; the `Ack` that opens a round is being sent.
    Heartbeat(LobbyId),
    /// Published; a frame is awaited.
    Listening(LobbyId),
    /// Closed; the removal of the record is awaited.
    Withdrawing(LobbyId, SessionEnd),
    /// Closed, with nothing left in the registry.
    Closed(SessionEnd),
}

pub enum RegistrationSessionView {
    Connected,
    Acknowledging(LobbyId),
    Receiving(LobbyId),
    Decoding(LobbyId, Seq<u8>),
    Probing(LobbyView),
    Publishing(LobbyView),
    Heartbeat(LobbyId),
    Listening(LobbyId),
    Withdrawing(LobbyId, SessionEnd),
    Closed(SessionEnd),
}

pub open spec fn view_of_decoded(decoded: Option<CreateLobby>) -> Option<CreateLobbyView> {
    match decoded {
        Some(create) => Some(create@),
        None => None,
    }
}

impl View for RegistrationAction {
    type V = RegistrationActionView;

    open spec fn view(&self) -> RegistrationActionView {
        match self {
            RegistrationAction::Provision => RegistrationActionView::Provision,
            RegistrationAction::SendAck => RegistrationActionView::SendAck,
            RegistrationAction::Receive => RegistrationActionView::Receive,
            RegistrationAction::Decode(payload) => RegistrationActionView::Decode(payload@),
            RegistrationAction::Probe(address) => RegistrationActionView::Probe(address@),
            RegistrationAction::Publish(lobby) => RegistrationActionView::Publish(lobby@),
            RegistrationAction::Withdraw(id) => RegistrationActionView::Withdraw(*id),
            RegistrationAction::Stop => RegistrationActionView::Stop,
        }
    }
}

impl View for RegistrationEvent {
    type V = RegistrationEventView;

    open spec fn view(&self) -> RegistrationEventView {
        match self {
            RegistrationEvent::Provisioned(id) => RegistrationEventView::Provisioned(*id),
            RegistrationEvent::Sent => RegistrationEventView::Sent,
            RegistrationEvent::WriteFailed => RegistrationEventView::WriteFailed,
            RegistrationEvent::Frame(frame) => RegistrationEventView::Frame(frame@),
            RegistrationEvent::PeerClosed => RegistrationEventView::PeerClosed,
            RegistrationEvent::ReadFailed => RegistrationEventView::ReadFailed,
            RegistrationEvent::Decoded(decoded) => RegistrationEventView::Decoded(
                view_of_decoded(*decoded),
            ),
            RegistrationEvent::Probed(outcome) => RegistrationEventView::Probed(*outcome),
            RegistrationEvent::Performed => RegistrationEventView::Performed,
        }
    }
}

impl View for RegistrationSession {
    type V = RegistrationSessionView;

    open spec fn view(&self) -> RegistrationSessionView {
        match self {
            RegistrationSession::Connected => RegistrationSessionView::Connected,
            RegistrationSession::Acknowledging(id) => RegistrationSessionView::Acknowledging(*id),
            RegistrationSession::Receiving(id) => RegistrationSessionView::Receiving(*id),
            RegistrationSession::Decoding(id, payload) => RegistrationSessionView::Decoding(
                *id,
                payload@,
            ),
            RegistrationSession::Probing(lobby) => RegistrationSessionView::Probing(lobby@),
            RegistrationSession::Publishing(lobby) => RegistrationSessionView::Publishing(lobby@),
            RegistrationSession::Heartbeat(id) => RegistrationSessionView::Heartbeat(*id),
            RegistrationSession::Listening(id) => RegistrationSessionView::Listening(*id),
            RegistrationSession::Withdrawing(id, end) => RegistrationSessionView::Withdrawing(
                *id,
                *end,
            ),
            RegistrationSession::Closed(end) => RegistrationSessionView::Closed(*end),
        }
    }
}

impl RegistrationSessionView {
    /// Which of the four states the session is in.
    pub open spec fn state(self) -> RegistrationState {
        match self {
            RegistrationSessionView::Connected => RegistrationState::Connected,
            RegistrationSessionView::Acknowledging(_) => RegistrationState::Registering,
            RegistrationSessionView::Receiving(_) => RegistrationState::Registering,
            RegistrationSessionView::Decoding(_, _) => RegistrationState::Registering,
            RegistrationSessionView::Probing(_) => RegistrationState::Registering,
            RegistrationSessionView::Publishing(_) => RegistrationState::Published,
            RegistrationSessionView::Heartbeat(_) => RegistrationState::Published,
            RegistrationSessionView::Listening(_) => RegistrationState::Published,
            RegistrationSessionView::Withdrawing(_, _) => RegistrationState::Closed,
            RegistrationSessionView::Closed(_) => RegistrationState::Closed,
        }
    }

    /// The identifier that the session was given, once it has one. A session
    /// that closed before it published keeps none.
    pub open spec fn id(self) -> Option<LobbyId> {
        match self {
            RegistrationSessionView::Connected => None,
            RegistrationSessionView::Acknowledging(id) => Some(id),
            RegistrationSessionView::Receiving(id) => Some(id),
            RegistrationSessionView::Decoding(id, _) => Some(id),
            RegistrationSessionView::Probing(lobby) => Some(lobby.id),
            RegistrationSessionView::Publishing(lobby) => Some(lobby.id),
            RegistrationSessionView::Heartbeat(id) => Some(id),
            RegistrationSessionView::Listening(id) => Some(id),
            RegistrationSessionView::Withdrawing(id, _) => Some(id),
            RegistrationSessionView::Closed(_) => None,
        }
    }

    /// The session as it is once it ends for the given reason: if it is
    /// published, its record is to be withdrawn first.
    pub open spec fn ended(self, end: SessionEnd) -> RegistrationSessionView {
        match self {
            RegistrationSessionView::Publishing(lobby) => RegistrationSessionView::Withdrawing(
                lobby.id,
                end,
            ),
            RegistrationSessionView::Heartbeat(id) => RegistrationSessionView::Withdrawing(id, end),
            RegistrationSessionView::Listening(id) => RegistrationSessionView::Withdrawing(id, end),
            RegistrationSessionView::Withdrawing(_, _) => self,
            RegistrationSessionView::Closed(_) => self,
            _ => RegistrationSessionView::Closed(end),
        }
    }
}

/// Where a registering session goes on a frame.
pub open spec fn registering_after_frame(
    id: LobbyId,
    frame: Seq<u8>,
    kind: Result<RegistrationFrame, SessionError>,
) -> RegistrationSessionView {
    match kind {
        Ok(RegistrationFrame::Ack) => RegistrationSessionView::Acknowledging(id),
        Ok(RegistrationFrame::Close) => RegistrationSessionView::Closed(SessionEnd::ClosedByPeer),
        Ok(RegistrationFrame::Payload) => RegistrationSessionView::Decoding(id, frame),
        Err(e) => RegistrationSessionView::Closed(SessionEnd::Failed(e)),
    }
}

/// Where a published session goes on a frame: on with the heartbeat, or to
/// the withdrawal of its record.
pub open spec fn published_after_frame(
    id: LobbyId,
    kind: Result<RegistrationFrame, SessionError>,
) -> RegistrationSessionView {
    match kind {
        Ok(RegistrationFrame::Ack) => RegistrationSessionView::Heartbeat(id),
        Ok(RegistrationFrame::Close) => RegistrationSessionView::Withdrawing(
            id,
            SessionEnd::ClosedByPeer,
        ),
        Ok(RegistrationFrame::Payload) => RegistrationSessionView::Withdrawing(
            id,
            SessionEnd::Failed(SessionError::MalformedMessage),
        ),
        Err(e) => RegistrationSessionView::Withdrawing(id, SessionEnd::Failed(e)),
    }
}

/// Where a session goes on the decoded payload: to the probe of the record's
/// address, or to its end where the payload held no request or the request no
/// IPv4 address.
pub open spec fn after_decoded(
    id: LobbyId,
    decoded: Option<CreateLobbyView>,
) -> RegistrationSessionView {
    match decoded {
        None => RegistrationSessionView::Closed(SessionEnd::Failed(SessionError::MalformedMessage)),
        Some(create) => match lobby_for(id, create) {
            Ok(lobby) => RegistrationSessionView::Probing(lobby),
            Err(_) => RegistrationSessionView::Closed(
                SessionEnd::Failed(SessionError::AddressParseError),
            ),
        },
    }
}

/// Where a session goes on what the probe found: to the publication of its
/// record where a datagram arrived, to its end where none did.
pub open spec fn after_probed(lobby: LobbyView, outcome: ProbeOutcome) -> RegistrationSessionView {
    if outcome is Datagram {
        RegistrationSessionView::Publishing(lobby)
    } else {
        RegistrationSessionView::Closed(SessionEnd::Failed(SessionError::LobbyUnreachable))
    }
}

/// The session after an event.
pub open spec fn registration_step(
    session: RegistrationSessionView,
    event: RegistrationEventView,
) -> RegistrationSessionView {
    match (session, event) {
        (RegistrationSessionView::Closed(_), _) => session,
        (RegistrationSessionView::Withdrawing(_, end), RegistrationEventView::Performed) => {
            RegistrationSessionView::Closed(end)
        },
        (RegistrationSessionView::Withdrawing(_, _), _) => session,
        (_, RegistrationEventView::WriteFailed) => session.ended(
            SessionEnd::Failed(SessionError::SocketIoError),
        ),
        (_, RegistrationEventView::ReadFailed) => session.ended(
            SessionEnd::Failed(SessionError::SocketIoError),
        ),
        (_, RegistrationEventView::PeerClosed) => session.ended(SessionEnd::ClosedByPeer),
        (RegistrationSessionView::Connected, RegistrationEventView::Provisioned(id)) => {
            RegistrationSessionView::Acknowledging(id)
        },
        (RegistrationSessionView::Acknowledging(id), RegistrationEventView::Sent) => {
            RegistrationSessionView::Receiving(id)
        },
        (RegistrationSessionView::Receiving(id), RegistrationEventView::Frame(frame)) => {
            registering_after_frame(id, frame, registration_frame_meaning(frame))
        },
        (RegistrationSessionView::Decoding(id, _), RegistrationEventView::Decoded(decoded)) => {
            after_decoded(id, decoded)
        },
        (RegistrationSessionView::Probing(lobby), RegistrationEventView::Probed(outcome)) => {
            after_probed(lobby, outcome)
        },
        (RegistrationSessionView::Publishing(lobby), RegistrationEventView::Performed) => {
            RegistrationSessionView::Heartbeat(lobby.id)
        },
        (RegistrationSessionView::Heartbeat(id), RegistrationEventView::Sent) => {
            RegistrationSessionView::Listening(id)
        },
        (RegistrationSessionView::Listening(id), RegistrationEventView::Frame(frame)) => {
            published_after_frame(id, registration_frame_meaning(frame))
        },
        _ => session,
    }
}

/// The request that a session has outstanding.
pub open spec fn registration_outstanding(
    session: RegistrationSessionView,
) -> RegistrationActionView {
    match session {
        RegistrationSessionView::Connected => RegistrationActionView::Provision,
        RegistrationSessionView::Acknowledging(_) => RegistrationActionView::SendAck,
        RegistrationSessionView::Receiving(_) => RegistrationActionView::Receive,
        RegistrationSessionView::Decoding(_, payload) => RegistrationActionView::Decode(payload),
        RegistrationSessionView::Probing(lobby) => RegistrationActionView::Probe(lobby.address),
        RegistrationSessionView::Publishing(lobby) => RegistrationActionView::Publish(lobby),
        RegistrationSessionView::Heartbeat(_) => RegistrationActionView::SendAck,
        RegistrationSessionView::Listening(_) => RegistrationActionView::Receive,
        RegistrationSessionView::Withdrawing(id, _) => RegistrationActionView::Withdraw(id),
        RegistrationSessionView::Closed(_) => RegistrationActionView::Stop,
    }
}

/// The registry once a request has been carried out on it. Only `Publish`
/// and `Withdraw` change it.
pub open spec fn registry_after(
    registry: Map<LobbyId, LobbyView>,
    action: RegistrationActionView,
) -> Map<LobbyId, LobbyView> {
    match action {
        RegistrationActionView::Publish(lobby) => registry.insert(lobby.id, lobby),
        RegistrationActionView::Withdraw(id) => registry.remove(id),
        _ => registry,
    }
}

/// A session run from one stage through a sequence of events, the registry
/// beside it: after every event the request that the session then has
/// outstanding is carried out on the registry.
pub open spec fn registration_run(
    session: RegistrationSessionView,
    registry: Map<LobbyId, LobbyView>,
    events: Seq<RegistrationEventView>,
) -> (RegistrationSessionView, Map<LobbyId, LobbyView>)
    decreases events.len(),
{
    if events.len() == 0 {
        (session, registry)
    } else {
        let (before, held) = registration_run(session, registry, events.drop_last());
        let next = registration_step(before, events.last());
        (next, registry_after(held, registration_outstanding(next)))
    }
}

/// How the registry beside a session relates to the registry as it was when
/// the session was accepted: unchanged, but for the session's own record
/// while the session is published.
pub open spec fn registry_tracks(
    session: RegistrationSessionView,
    held: Map<LobbyId, LobbyView>,
    initial: Map<LobbyId, LobbyView>,
) -> bool {
    match session {
        RegistrationSessionView::Publishing(lobby) => {
            &&& !initial.contains_key(lobby.id)
            &&& held == initial.insert(lobby.id, lobby)
        },
        RegistrationSessionView::Heartbeat(id) | RegistrationSessionView::Listening(id) => {
            &&& !initial.contains_key(id)
            &&& held.contains_key(id)
            &&& held.remove(id) == initial
        },
        RegistrationSessionView::Connected | RegistrationSessionView::Closed(_) => held == initial,
        _ => {
            &&& held == initial
            &&& session.id() matches Some(id) ==> !initial.contains_key(id)
        },
    }
}

/// One event keeps the registry on the session's track, provided that an
/// identifier drawn for the session is not already in use.
pub proof fn lemma_step_keeps_track(
    session: RegistrationSessionView,
    held: Map<LobbyId, LobbyView>,
    initial: Map<LobbyId, LobbyView>,
    event: RegistrationEventView,
)
    requires
        registry_tracks(session, held, initial),
        event matches RegistrationEventView::Provisioned(id) ==> !initial.contains_key(id),
    ensures
        registry_tracks(
            registration_step(session, event),
            registry_after(held, registration_outstanding(registration_step(session, event))),
            initial,
        ),
{
    let next = registration_step(session, event);
    let after = registry_after(held, registration_outstanding(next));
    match next {
        RegistrationSessionView::Publishing(lobby) => {
            assert(after =~= initial.insert(lobby.id, lobby));
        },
        RegistrationSessionView::Heartbeat(id) | RegistrationSessionView::Listening(id) => {
            assert(after.remove(id) =~= initial);
        },
        RegistrationSessionView::Withdrawing(id, _) => {
            assert(after =~= initial);
        },
        _ => {},
    }
}

/// The registry holds a session's record exactly while the session is
/// published. Whatever events a freshly accepted session meets, as long as
/// the identifier drawn for it is not already in use: while it is published
/// the registry is the initial one with the session's record added, and in
/// every other state, closed included, it is the initial one. A closed
/// session leaves no entry behind.
pub proof fn law_registry_holds_record_while_published(
    initial: Map<LobbyId, LobbyView>,
    events: Seq<RegistrationEventView>,
)
    requires
        forall|i: int, id: LobbyId|
            0 <= i < events.len() && events[i] == RegistrationEventView::Provisioned(id)
                ==> !initial.contains_key(id),
    ensures
        ({
            let (session, held) = registration_run(
                RegistrationSessionView::Connected,
                initial,
                events,
            );
            &&& registry_tracks(session, held, initial)
            &&& session.state() is Published ==> held.contains_key(session.id()->0) && held.remove(
                session.id()->0,
            ) == initial
            &&& !(session.state() is Published) ==> held == initial
        }),
    decreases events.len(),
{
    if events.len() > 0 {
        let earlier = events.drop_last();
        assert forall|i: int, id: LobbyId|
            0 <= i < earlier.len() && earlier[i] == RegistrationEventView::Provisioned(
                id,
            ) implies !initial.contains_key(id) by {
            assert(earlier[i] == events[i]);
        }
        law_registry_holds_record_while_published(initial, earlier);
        let (before, held) = registration_run(
            RegistrationSessionView::Connected,
            initial,
            earlier,
        );
        let event = events.last();
        assert(event == events[events.len() - 1]);
        lemma_step_keeps_track(before, held, initial, event);
        let next = registration_step(before, event);
        let after = registry_after(held, registration_outstanding(next));
        if next is Publishing {
            assert(after.remove(next->Publishing_0.id) =~= initial);
        }
    }
}

/// Whether the event is a probe that a datagram answered.
pub open spec fn is_probe_answer(event: RegistrationEventView) -> bool {
    event matches RegistrationEventView::Probed(ProbeOutcome::Datagram(_))
}

/// A session whose probes are never answered publishes nothing. Whatever
/// else it meets, the registry stays as it was and the session is never
/// published: no identifier that it was given, or any other, appears.
pub proof fn law_silent_address_is_never_published(
    initial: Map<LobbyId, LobbyView>,
    events: Seq<RegistrationEventView>,
)
    requires
        forall|i: int| 0 <= i < events.len() ==> !is_probe_answer(#[trigger] events[i]),
    ensures
        ({
            let (session, held) = registration_run(
                RegistrationSessionView::Connected,
                initial,
                events,
            );
            &&& held == initial
            &&& !(session.state() is Published)
            &&& !(session is Withdrawing)
        }),
    decreases events.len(),
{
    if events.len() > 0 {
        let earlier = events.drop_last();
        assert forall|i: int| 0 <= i < earlier.len() implies !is_probe_answer(
            #[trigger] earlier[i],
        ) by {
            assert(earlier[i] == events[i]);
        }
        law_silent_address_is_never_published(initial, earlier);
        assert(events.last() == events[events.len() - 1]);
    }
}

/// On a probe that found silence the session is over at once, as
/// `LobbyUnreachable`, and asks nothing of the registry.
pub proof fn law_unreachable_ends_without_publishing(
    lobby: LobbyView,
    registry: Map<LobbyId, LobbyView>,
)
    ensures
        ({
            let next = registration_step(
                RegistrationSessionView::Probing(lobby),
                RegistrationEventView::Probed(ProbeOutcome::Silence),
            );
            &&& next == RegistrationSessionView::Closed(
                SessionEnd::Failed(SessionError::LobbyUnreachable),
            )
            &&& registration_outstanding(next) == RegistrationActionView::Stop
            &&& registry_after(registry, registration_outstanding(next)) == registry
        }),
{
}

/// Whether the event is the connection ending: a failed write, a failed
/// read, or the peer closing.
pub open spec fn is_connection_loss(event: RegistrationEventView) -> bool {
    event is WriteFailed || event is ReadFailed || event is PeerClosed
}

/// A published session that loses its connection withdraws its record in
/// that very step: the session is then closed, the request outstanding is
/// the removal of its identifier, and once that is carried out the registry
/// no longer holds the identifier.
pub proof fn law_connection_loss_withdraws_at_once(
    session: RegistrationSessionView,
    registry: Map<LobbyId, LobbyView>,
    event: RegistrationEventView,
)
    requires
        session.state() is Published,
        is_connection_loss(event),
    ensures
        ({
            let next = registration_step(session, event);
            let id = session.id()->0;
            &&& next.state() is Closed
            &&& registration_outstanding(next) == RegistrationActionView::Withdraw(id)
            &&& !registry_after(registry, registration_outstanding(next)).contains_key(id)
        }),
{
}

/// However a published session comes to its end, it comes to it through the
/// withdrawal of its record: no event takes it to the closed state without
/// the removal of its identifier being the request outstanding.
pub proof fn law_published_session_ends_by_withdrawal(
    session: RegistrationSessionView,
    registry: Map<LobbyId, LobbyView>,
    event: RegistrationEventView,
)
    requires
        session.state() is Published,
        registration_step(session, event).state() is Closed,
    ensures
        ({
            let next = registration_step(session, event);
            let id = session.id()->0;
            &&& next is Withdrawing
            &&& registration_outstanding(next) == RegistrationActionView::Withdraw(id)
            &&& !registry_after(registry, registration_outstanding(next)).contains_key(id)
        }),
{
}

/// A creation request that cannot be read, or whose address is no IPv4
/// address, ends the session at once, as `MalformedMessage` or as
/// `AddressParseError`, and leaves the registry as it was.
pub proof fn law_malformed_creation_changes_nothing(
    id: LobbyId,
    payload: Seq<u8>,
    decoded: Option<CreateLobbyView>,
    registry: Map<LobbyId, LobbyView>,
)
    requires
        decoded matches Some(create) ==> crate::address::ipv4_text_value(create.address_text)
            is None,
    ensures
        ({
            let next = registration_step(
                RegistrationSessionView::Decoding(id, payload),
                RegistrationEventView::Decoded(decoded),
            );
            &&& next == RegistrationSessionView::Closed(
                SessionEnd::Failed(
                    if decoded is None {
                        SessionError::MalformedMessage
                    } else {
                        SessionError::AddressParseError
                    },
                ),
            )
            &&& registration_outstanding(next) == RegistrationActionView::Stop
            &&& registry_after(registry, registration_outstanding(next)) == registry
        }),
{
}

/// The place of a state in the order in which a session passes through them.
pub open spec fn state_rank(state: RegistrationState) -> nat {
    match state {
        RegistrationState::Connected => 0,
        RegistrationState::Registering => 1,
        RegistrationState::Published => 2,
        RegistrationState::Closed => 3,
    }
}

/// A session never goes back: connected, registering, published, closed, in
/// that order, skipping some perhaps. While it is published its identifier
/// does not change, so it publishes one lobby and no more.
pub proof fn law_states_only_advance(
    session: RegistrationSessionView,
    event: RegistrationEventView,
)
    ensures
        state_rank(session.state()) <= state_rank(registration_step(session, event).state()),
        session.state() is Published && registration_step(session, event).state() is Published
            ==> registration_step(session, event).id() == session.id(),
        registration_step(session, event) is Publishing ==> session is Publishing
            || session is Probing,
{
}

/// A request of a session touches no identifier but the session's own.
pub proof fn law_session_touches_only_its_own_entry(
    session: RegistrationSessionView,
    registry: Map<LobbyId, LobbyView>,
    other: LobbyId,
)
    requires
        session.id() != Some(other),
    ensures
        registry_after(registry, registration_outstanding(session)).get(other) == registry.get(
            other,
        ),
{
}

impl RegistrationAction {
    /// Whether carrying the request out means writing to the registry.
    pub fn writes_registry(&self) -> (writes: bool)
        ensures
            writes == (self@ is Publish || self@ is Withdraw),
            !writes ==> forall|registry: Map<LobbyId, LobbyView>|
                registry_after(registry, self@) == registry,
    {
        match self {
            RegistrationAction::Publish(_) => true,
            RegistrationAction::Withdraw(_) => true,
            _ => false,
        }
    }

    /// Carries the request out on the registry.
    pub fn perform(self, registry: &mut Registry)
        ensures
            final(registry)@ == registry_after(old(registry)@, self@),
    {
        match self {
            RegistrationAction::Publish(lobby) => {
                let id = lobby.id();
                registry.insert(id, lobby);
            },
            RegistrationAction::Withdraw(id) => {
                registry.remove(id);
            },
            _ => {},
        }
    }
}

impl RegistrationSession {
    /// A session on a connection that has just been accepted.
    pub fn accept() -> (session: RegistrationSession)
        ensures
            session@ == RegistrationSessionView::Connected,
    {
        RegistrationSession::Connected
    }

    pub fn state(&self) -> (state: RegistrationState)
        ensures
            state == self@.state(),
    {
        match self {
            RegistrationSession::Connected => RegistrationState::Connected,
            RegistrationSession::Acknowledging(_) => RegistrationState::Registering,
            RegistrationSession::Receiving(_) => RegistrationState::Registering,
            RegistrationSession::Decoding(_, _) => RegistrationState::Registering,
            RegistrationSession::Probing(_) => RegistrationState::Registering,
            RegistrationSession::Publishing(_) => RegistrationState::Published,
            RegistrationSession::Heartbeat(_) => RegistrationState::Published,
            RegistrationSession::Listening(_) => RegistrationState::Published,
            RegistrationSession::Withdrawing(_, _) => RegistrationState::Closed,
            RegistrationSession::Closed(_) => RegistrationState::Closed,
        }
    }

    pub fn id(&self) -> (id: Option<LobbyId>)
        ensures
            id == self@.id(),
    {
        match self {
            RegistrationSession::Connected => None,
            RegistrationSession::Acknowledging(id) => Some(*id),
            RegistrationSession::Receiving(id) => Some(*id),
            RegistrationSession::Decoding(id, _) => Some(*id),
            RegistrationSession::Probing(lobby) => Some(lobby.id()),
            RegistrationSession::Publishing(lobby) => Some(lobby.id()),
            RegistrationSession::Heartbeat(id) => Some(*id),
            RegistrationSession::Listening(id) => Some(*id),
            RegistrationSession::Withdrawing(id, _) => Some(*id),
            RegistrationSession::Closed(_) => None,
        }
    }

    /// Why the session is over, once it is.
    pub fn end(&self) -> (end: Option<SessionEnd>)
        ensures
            end == match self@ {
                RegistrationSessionView::Withdrawing(_, e) => Some(e),
                RegistrationSessionView::Closed(e) => Some(e),
                _ => None,
            },
    {
        match self {
            RegistrationSession::Withdrawing(_, e) => Some(*e),
            RegistrationSession::Closed(e) => Some(*e),
            _ => None,
        }
    }

    /// What the application is to do next.
    pub fn outstanding(&self) -> (action: RegistrationAction)
        ensures
            action@ == registration_outstanding(self@),
    {
        match self {
            RegistrationSession::Connected => RegistrationAction::Provision,
            RegistrationSession::Acknowledging(_) => RegistrationAction::SendAck,
            RegistrationSession::Receiving(_) => RegistrationAction::Receive,
            RegistrationSession::Decoding(_, payload) => {
                let copy = payload.clone();
                assert(copy@ =~= payload@);
                RegistrationAction::Decode(copy)
            },
            RegistrationSession::Probing(lobby) => RegistrationAction::Probe(lobby.address()),
            RegistrationSession::Publishing(lobby) => RegistrationAction::Publish(lobby.clone()),
            RegistrationSession::Heartbeat(_) => RegistrationAction::SendAck,
            RegistrationSession::Listening(_) => RegistrationAction::Receive,
            RegistrationSession::Withdrawing(id, _) => RegistrationAction::Withdraw(*id),
            RegistrationSession::Closed(_) => RegistrationAction::Stop,
        }
    }

    fn ended(self, end: SessionEnd) -> (next: RegistrationSession)
        ensures
            next@ == self@.ended(end),
    {
        match self {
            RegistrationSession::Publishing(lobby) => RegistrationSession::Withdrawing(
                lobby.id(),
                end,
            ),
            RegistrationSession::Heartbeat(id) => RegistrationSession::Withdrawing(id, end),
            RegistrationSession::Listening(id) => RegistrationSession::Withdrawing(id, end),
            RegistrationSession::Withdrawing(id, e) => RegistrationSession::Withdrawing(id, e),
            RegistrationSession::Closed(e) => RegistrationSession::Closed(e),
            _ => RegistrationSession::Closed(end),
        }
    }

    /// Where a registering session goes on a frame of the given kind.
    pub fn registering_on_frame(
        id: LobbyId,
        frame: Vec<u8>,
        kind: Result<RegistrationFrame, SessionError>,
    ) -> (next: RegistrationSession)
        ensures
            next@ == registering_after_frame(id, frame@, kind),
    {
        match kind {
            Ok(RegistrationFrame::Ack) => RegistrationSession::Acknowledging(id),
            Ok(RegistrationFrame::Close) => RegistrationSession::Closed(SessionEnd::ClosedByPeer),
            Ok(RegistrationFrame::Payload) => RegistrationSession::Decoding(id, frame),
            Err(e) => RegistrationSession::Closed(SessionEnd::Failed(e)),
        }
    }

    /// Where a published session goes on a frame of the given kind.
    pub fn published_on_frame(id: LobbyId, kind: Result<RegistrationFrame, SessionError>) -> (next:
        RegistrationSession)
        ensures
            next@ == published_after_frame(id, kind),
    {
        match kind {
            Ok(RegistrationFrame::Ack) => RegistrationSession::Heartbeat(id),
            Ok(RegistrationFrame::Close) => RegistrationSession::Withdrawing(
                id,
                SessionEnd::ClosedByPeer,
            ),
            Ok(RegistrationFrame::Payload) => RegistrationSession::Withdrawing(
                id,
                SessionEnd::Failed(SessionError::MalformedMessage),
            ),
            Err(e) => RegistrationSession::Withdrawing(id, SessionEnd::Failed(e)),
        }
    }

    /// Where a session goes on the decoded payload.
    pub fn on_decoded(id: LobbyId, decoded: Option<CreateLobby>) -> (next: RegistrationSession)
        ensures
            next@ == after_decoded(id, view_of_decoded(decoded)),
    {
        match decoded {
            None => RegistrationSession::Closed(SessionEnd::Failed(SessionError::MalformedMessage)),
            Some(create) => match Lobby::create(id, &create) {
                Ok(lobby) => RegistrationSession::Probing(lobby),
                Err(_) => RegistrationSession::Closed(
                    SessionEnd::Failed(SessionError::AddressParseError),
                ),
            },
        }
    }

    /// Where a session goes on what the probe of its record's address found.
    pub fn on_probed(lobby: Lobby, outcome: ProbeOutcome) -> (next: RegistrationSession)
        ensures
            next@ == after_probed(lobby@, outcome),
    {
        if is_reachable(outcome) {
            RegistrationSession::Publishing(lobby)
        } else {
            RegistrationSession::Closed(SessionEnd::Failed(SessionError::LobbyUnreachable))
        }
    }

    /// Takes in the outcome of the outstanding request.
    pub fn step(self, event: RegistrationEvent) -> (next: RegistrationSession)
        ensures
            next@ == registration_step(self@, event@),
    {
        match (self, event) {
            (RegistrationSession::Closed(end), _) => RegistrationSession::Closed(end),
            (RegistrationSession::Withdrawing(_, end), RegistrationEvent::Performed) => {
                RegistrationSession::Closed(end)
            },
            (RegistrationSession::Withdrawing(id, end), _) => RegistrationSession::Withdrawing(
                id,
                end,
            ),
            (session, RegistrationEvent::WriteFailed) => session.ended(
                SessionEnd::Failed(SessionError::SocketIoError),
            ),
            (session, RegistrationEvent::ReadFailed) => session.ended(
                SessionEnd::Failed(SessionError::SocketIoError),
            ),
            (session, RegistrationEvent::PeerClosed) => session.ended(SessionEnd::ClosedByPeer),
            (RegistrationSession::Connected, RegistrationEvent::Provisioned(id)) => {
                RegistrationSession::Acknowledging(id)
            },
            (RegistrationSession::Acknowledging(id), RegistrationEvent::Sent) => {
                RegistrationSession::Receiving(id)
            },
            (RegistrationSession::Receiving(id), RegistrationEvent::Frame(frame)) => {
                let kind = read_registration_frame(frame.as_slice());
                RegistrationSession::registering_on_frame(id, frame, kind)
            },
            (RegistrationSession::Decoding(id, _), RegistrationEvent::Decoded(decoded)) => {
                RegistrationSession::on_decoded(id, decoded)
            },
            (RegistrationSession::Probing(lobby), RegistrationEvent::Probed(outcome)) => {
                RegistrationSession::on_probed(lobby, outcome)
            },
            (RegistrationSession::Publishing(lobby), RegistrationEvent::Performed) => {
                RegistrationSession::Heartbeat(lobby.id())
            },
            (RegistrationSession::Heartbeat(id), RegistrationEvent::Sent) => {
                RegistrationSession::Listening(id)
            },
            (RegistrationSession::Listening(id), RegistrationEvent::Frame(frame)) => {
                RegistrationSession::published_on_frame(
                    id,
                    read_registration_frame(frame.as_slice()),
                )
            },
            (session, _) => session,
        }
    }
}

} // verus!
