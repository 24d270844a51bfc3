//! Many registration sessions around one registry.
//!
//! A model of the registration service as a whole: the sessions that are
//! open, each under a key of its own, and the registry that they share. The
//! service moves by one session taking in one event, with the request that
//! the session then has outstanding carried out on the registry before
//! anything else happens. What is proved of the model holds of the service as
//! long as the embedding application carries the requests out in that way,
//! and draws identifiers that no open session holds.

use crate::ident::LobbyId;
use crate::lobby::LobbyView;
use crate::registration::{
    registration_outstanding, registration_step, registry_after, RegistrationEventView,
    RegistrationSessionView,
};
use vstd::prelude::*;

verus! {

pub struct ServiceView {
    pub sessions: Map<nat, RegistrationSessionView>,
    pub registry: Map<LobbyId, LobbyView>,
}

/// Whether the session owns the entry under the identifier: it is published,
/// and the identifier is its own.
pub open spec fn owns(session: RegistrationSessionView, id: LobbyId) -> bool {
    session.state() is Published && session.id() == Some(id)
}

/// Whether some open session has the identifier.
pub open spec fn in_use(service: ServiceView, id: LobbyId) -> bool {
    exists|key: nat| #[trigger]
        service.sessions.contains_key(key) && service.sessions[key].id() == Some(id)
}

/// Whether some open session owns the entry under the identifier.
pub open spec fn owned(service: ServiceView, id: LobbyId) -> bool {
    exists|key: nat| #[trigger] service.sessions.contains_key(key) && owns(service.sessions[key], id)
}

/// The service with no session and nothing published.
pub open spec fn service_start() -> ServiceView {
    ServiceView { sessions: Map::empty(), registry: Map::empty() }
}

/// A connection is accepted under a key that no open session has.
pub open spec fn service_accept(service: ServiceView, key: nat) -> ServiceView {
    ServiceView {
        sessions: service.sessions.insert(key, RegistrationSessionView::Connected),
        registry: service.registry,
    }
}

/// The session under the key takes in an event, and the request that it then
/// has outstanding is carried out on the registry.
pub open spec fn service_deliver(
    service: ServiceView,
    key: nat,
    event: RegistrationEventView,
) -> ServiceView {
    let next = registration_step(service.sessions[key], event);
    ServiceView {
        sessions: service.sessions.insert(key, next),
        registry: registry_after(service.registry, registration_outstanding(next)),
    }
}

/// A session that is over, with nothing left to withdraw, is let go.
pub open spec fn service_release(service: ServiceView, key: nat) -> ServiceView {
    ServiceView { sessions: service.sessions.remove(key), registry: service.registry }
}

/// Every identifier in the registry belongs to exactly one open session,
/// which is published and owns it; every published session's identifier is
/// in the registry; no two open sessions have the same identifier; and every
/// record sits under its own identifier.
pub open spec fn service_invariant(service: ServiceView) -> bool {
    &&& forall|a: nat, b: nat|
        #![trigger service.sessions.contains_key(a), service.sessions.contains_key(b)]
        service.sessions.contains_key(a) && service.sessions.contains_key(b)
            && service.sessions[a].id() is Some && service.sessions[a].id()
            == service.sessions[b].id() ==> a == b
    &&& forall|id: LobbyId| #[trigger]
        service.registry.contains_key(id) <==> owned(service, id)
    &&& forall|id: LobbyId| #[trigger]
        service.registry.contains_key(id) ==> service.registry[id].id == id
}

/// A session keeps the identifier that it has: an event gives it one where
/// it had none, takes it away where the session ends unpublished, or leaves
/// it alone.
pub proof fn lemma_step_keeps_identifier(
    session: RegistrationSessionView,
    event: RegistrationEventView,
)
    ensures
        ({
            let next = registration_step(session, event);
            ||| next.id() == session.id()
            ||| next.id() is None
            ||| (session is Connected && event is Provisioned && next.id() == Some(
                event->Provisioned_0,
            ))
        }),
        ({
            let next = registration_step(session, event);
            next.state() is Published ==> next.id() is Some
        }),
{
}

/// The invariant holds of the service before any connection.
pub proof fn law_start_is_consistent()
    ensures
        service_invariant(service_start()),
{
    let service = service_start();
    assert forall|id: LobbyId| #[trigger]
        service.registry.contains_key(id) <==> owned(service, id) by {
        if owned(service, id) {
            let key = choose|key: nat| #[trigger]
                service.sessions.contains_key(key) && owns(service.sessions[key], id);
            assert(false);
        }
    }
}

/// Accepting a connection keeps the invariant.
pub proof fn law_accept_keeps_consistent(service: ServiceView, key: nat)
    requires
        service_invariant(service),
        !service.sessions.contains_key(key),
    ensures
        service_invariant(service_accept(service, key)),
{
    let after = service_accept(service, key);
    assert forall|id: LobbyId| #[trigger]
        after.registry.contains_key(id) <==> owned(after, id) by {
        if service.registry.contains_key(id) {
            assert(owned(service, id));
            let owner = choose|k: nat| #[trigger]
                service.sessions.contains_key(k) && owns(service.sessions[k], id);
            assert(after.sessions.contains_key(owner) && owns(after.sessions[owner], id));
        }
        if owned(after, id) {
            let owner = choose|k: nat| #[trigger]
                after.sessions.contains_key(k) && owns(after.sessions[k], id);
            assert(owner != key);
            assert(service.sessions.contains_key(owner) && owns(service.sessions[owner], id));
        }
    }
    assert forall|a: nat, b: nat|
        #![trigger after.sessions.contains_key(a), after.sessions.contains_key(b)]
        after.sessions.contains_key(a) && after.sessions.contains_key(b)
            && after.sessions[a].id() is Some && after.sessions[a].id()
            == after.sessions[b].id() implies a == b by {
        assert(a != key && b != key);
        assert(service.sessions.contains_key(a) && service.sessions.contains_key(b));
    }
}

/// The registry's invariant. Whatever event whichever open session takes in,
/// the registry goes on holding exactly the identifiers of the published
/// sessions, each owned by one session alone, provided that an identifier
/// drawn for a session is one that no open session has.
pub proof fn law_deliver_keeps_consistent(
    service: ServiceView,
    key: nat,
    event: RegistrationEventView,
)
    requires
        service_invariant(service),
        service.sessions.contains_key(key),
        service.sessions[key] is Connected ==> (event matches RegistrationEventView::Provisioned(
            id,
        ) ==> !in_use(service, id)),
    ensures
        service_invariant(service_deliver(service, key, event)),
{
    let before = service.sessions[key];
    let next = registration_step(before, event);
    let action = registration_outstanding(next);
    let after = service_deliver(service, key, event);
    lemma_step_keeps_identifier(before, event);

    assert forall|a: nat, b: nat|
        #![trigger after.sessions.contains_key(a), after.sessions.contains_key(b)]
        after.sessions.contains_key(a) && after.sessions.contains_key(b)
            && after.sessions[a].id() is Some && after.sessions[a].id()
            == after.sessions[b].id() implies a == b by {
        assert(service.sessions.contains_key(a) && service.sessions.contains_key(b));
        if a != b {
            if a == key || b == key {
                let other = if a == key {
                    b
                } else {
                    a
                };
                let id = next.id()->0;
                assert(service.sessions.contains_key(other) && service.sessions[other].id()
                    == Some(id));
                if next.id() == before.id() {
                    assert(service.sessions.contains_key(key) && service.sessions.contains_key(
                        other,
                    ));
                } else {
                    assert(in_use(service, id));
                }
            }
        }
    }

    assert forall|id: LobbyId| #[trigger]
        after.registry.contains_key(id) <==> owned(after, id) by {
        if after.registry.contains_key(id) {
            if owns(next, id) {
                assert(after.sessions.contains_key(key) && owns(after.sessions[key], id));
            } else {
                assert(service.registry.contains_key(id));
                assert(owned(service, id));
                let owner = choose|k: nat| #[trigger]
                    service.sessions.contains_key(k) && owns(service.sessions[k], id);
                if owner == key {
                    assert(owns(before, id));
                    assert(false);
                }
                assert(after.sessions.contains_key(owner) && owns(after.sessions[owner], id));
            }
        }
        if owned(after, id) {
            let owner = choose|k: nat| #[trigger]
                after.sessions.contains_key(k) && owns(after.sessions[k], id);
            if owner == key {
                assert(owns(next, id));
                if !owns(before, id) {
                    assert(action is Publish);
                } else {
                    assert(service.sessions.contains_key(key) && owns(service.sessions[key], id));
                    assert(owned(service, id));
                }
            } else {
                assert(service.sessions.contains_key(owner) && owns(service.sessions[owner], id));
                assert(owned(service, id));
                assert(service.registry.contains_key(id));
                if action is Withdraw && action->Withdraw_0 == id {
                    assert(before.id() == Some(id));
                    assert(service.sessions.contains_key(key) && service.sessions.contains_key(
                        owner,
                    ));
                    assert(false);
                }
            }
        }
    }

    assert forall|id: LobbyId| #[trigger] after.registry.contains_key(id) implies after.registry[id].id
        == id by {
        if action is Publish {
            if action->Publish_0.id != id {
                assert(service.registry.contains_key(id));
            }
        } else {
            assert(service.registry.contains_key(id));
        }
    }
}

/// Letting a closed session go keeps the invariant: it owned nothing.
pub proof fn law_release_keeps_consistent(service: ServiceView, key: nat)
    requires
        service_invariant(service),
        service.sessions.contains_key(key),
        service.sessions[key] is Closed,
    ensures
        service_invariant(service_release(service, key)),
{
    let after = service_release(service, key);
    assert forall|id: LobbyId| #[trigger]
        after.registry.contains_key(id) <==> owned(after, id) by {
        if service.registry.contains_key(id) {
            assert(owned(service, id));
            let owner = choose|k: nat| #[trigger]
                service.sessions.contains_key(k) && owns(service.sessions[k], id);
            assert(owner != key);
            assert(after.sessions.contains_key(owner) && owns(after.sessions[owner], id));
        }
        if owned(after, id) {
            let owner = choose|k: nat| #[trigger]
                after.sessions.contains_key(k) && owns(after.sessions[k], id);
            assert(service.sessions.contains_key(owner) && owns(service.sessions[owner], id));
        }
    }
    assert forall|a: nat, b: nat|
        #![trigger after.sessions.contains_key(a), after.sessions.contains_key(b)]
        after.sessions.contains_key(a) && after.sessions.contains_key(b)
            && after.sessions[a].id() is Some && after.sessions[a].id()
            == after.sessions[b].id() implies a == b by {
        assert(service.sessions.contains_key(a) && service.sessions.contains_key(b));
    }
}

} // verus!
