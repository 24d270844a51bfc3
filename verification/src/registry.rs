//! The lobby registry: identifiers mapped to lobby records.
//!
//! The registry is a plain value. Whoever shares it between sessions guards
//! it with a lock and holds the lock for one call; each call below is then one
//! atomic step, and a run of the whole service is some sequence of them.

use crate::ident::LobbyId;
use crate::lobby::{view_of_found, Lobby, LobbyView};
use std::collections::HashMap;
use vstd::prelude::*;
use vstd::std_specs::iter::IteratorSpec;

verus! {

pub struct Registry {
    lobbies: HashMap<u128, Lobby>,
}

impl View for Registry {
    type V = Map<LobbyId, LobbyView>;

    closed spec fn view(&self) -> Map<LobbyId, LobbyView> {
        Map::new(
            |id: LobbyId| self.lobbies@.contains_key(id.0),
            |id: LobbyId| self.lobbies@[id.0]@,
        )
    }
}

/// One call on the registry, as a value.
pub enum RegistryOp {
    Insert(LobbyId, LobbyView),
    Remove(LobbyId),
    Get(LobbyId),
    ListIds,
}

impl RegistryOp {
    /// Whether the call writes under the identifier.
    pub open spec fn writes(self, id: LobbyId) -> bool {
        match self {
            RegistryOp::Insert(at, _) => at == id,
            RegistryOp::Remove(at) => at == id,
            _ => false,
        }
    }

    /// What a write leaves under its identifier.
    pub open spec fn leaves(self) -> Option<LobbyView> {
        match self {
            RegistryOp::Insert(_, lobby) => Some(lobby),
            _ => None,
        }
    }

    /// The registry after the call.
    pub open spec fn effect(self, registry: Map<LobbyId, LobbyView>) -> Map<LobbyId, LobbyView> {
        match self {
            RegistryOp::Insert(id, lobby) => registry.insert(id, lobby),
            RegistryOp::Remove(id) => registry.remove(id),
            _ => registry,
        }
    }
}

/// The registry after a sequence of calls, one after the other.
pub open spec fn effect_of_all(
    registry: Map<LobbyId, LobbyView>,
    ops: Seq<RegistryOp>,
) -> Map<LobbyId, LobbyView>
    decreases ops.len(),
{
    if ops.len() == 0 {
        registry
    } else {
        ops.last().effect(effect_of_all(registry, ops.drop_last()))
    }
}

/// The last call of the sequence that writes under the identifier.
pub open spec fn last_write(ops: Seq<RegistryOp>, id: LobbyId) -> Option<RegistryOp>
    decreases ops.len(),
{
    if ops.len() == 0 {
        None
    } else if ops.last().writes(id) {
        Some(ops.last())
    } else {
        last_write(ops.drop_last(), id)
    }
}

/// No update is lost. After any sequence of calls, what the registry holds
/// under an identifier is what the last write under that identifier left
/// there; where no call wrote under it, what was there before.
pub proof fn law_last_write_wins(
    registry: Map<LobbyId, LobbyView>,
    ops: Seq<RegistryOp>,
    id: LobbyId,
)
    ensures
        effect_of_all(registry, ops).get(id) == match last_write(ops, id) {
            Some(op) => op.leaves(),
            None => registry.get(id),
        },
    decreases ops.len(),
{
    if ops.len() > 0 {
        law_last_write_wins(registry, ops.drop_last(), id);
    }
}

/// The order of calls matters only between writes under one identifier. Two
/// sequences of calls in which, for every identifier, the same write comes
/// last leave the same registry, however the calls of different sessions
/// were interleaved.
pub proof fn law_schedules_agree(
    registry: Map<LobbyId, LobbyView>,
    first: Seq<RegistryOp>,
    second: Seq<RegistryOp>,
)
    requires
        forall|id: LobbyId| last_write(first, id) == last_write(second, id),
    ensures
        effect_of_all(registry, first) == effect_of_all(registry, second),
{
    let a = effect_of_all(registry, first);
    let b = effect_of_all(registry, second);
    assert forall|id: LobbyId| a.get(id) == b.get(id) by {
        law_last_write_wins(registry, first, id);
        law_last_write_wins(registry, second, id);
    }
    assert forall|id: LobbyId| a.contains_key(id) == b.contains_key(id) by {
        assert(a.get(id) == b.get(id));
    }
    assert forall|id: LobbyId| a.contains_key(id) implies a[id] == b[id] by {
        assert(a.get(id) == b.get(id));
    }
    assert(a =~= b);
}

/// Two writes under different identifiers may be exchanged.
pub proof fn law_writes_elsewhere_commute(
    registry: Map<LobbyId, LobbyView>,
    one: RegistryOp,
    other: RegistryOp,
)
    requires
        forall|id: LobbyId| !(one.writes(id) && other.writes(id)),
    ensures
        other.effect(one.effect(registry)) == one.effect(other.effect(registry)),
{
    match (one, other) {
        (RegistryOp::Insert(a, _), RegistryOp::Insert(b, _)) => {
            assert(!(one.writes(a) && other.writes(a)));
        },
        (RegistryOp::Insert(a, _), RegistryOp::Remove(b)) => {
            assert(!(one.writes(a) && other.writes(a)));
        },
        (RegistryOp::Remove(a), RegistryOp::Insert(b, _)) => {
            assert(!(one.writes(a) && other.writes(a)));
        },
        (RegistryOp::Remove(a), RegistryOp::Remove(b)) => {
            assert(!(one.writes(a) && other.writes(a)));
        },
        _ => {},
    }
    assert(other.effect(one.effect(registry)) =~= one.effect(other.effect(registry)));
}

/// Two records published under different identifiers are both in the
/// registry afterwards, each under its own identifier, in whichever order
/// they were inserted.
pub proof fn law_two_publications_both_stay(
    registry: Map<LobbyId, LobbyView>,
    one: LobbyView,
    other: LobbyView,
)
    requires
        one.id != other.id,
    ensures
        ({
            let after = registry.insert(one.id, one).insert(other.id, other);
            &&& after == registry.insert(other.id, other).insert(one.id, one)
            &&& after.get(one.id) == Some(one)
            &&& after.get(other.id) == Some(other)
        }),
{
    assert(registry.insert(one.id, one).insert(other.id, other) =~= registry.insert(
        other.id,
        other,
    ).insert(one.id, one));
}

impl Registry {
    pub fn new() -> (registry: Registry)
        ensures
            registry@ == Map::<LobbyId, LobbyView>::empty(),
    {
        let registry = Registry { lobbies: HashMap::new() };
        assert(registry@ =~= Map::<LobbyId, LobbyView>::empty());
        registry
    }

    /// Adds the record under the identifier, in place of any record that was
    /// there.
    pub fn insert(&mut self, id: LobbyId, lobby: Lobby)
        ensures
            final(self)@ == old(self)@.insert(id, lobby@),
    {
        broadcast use vstd::std_specs::hash::group_hash_axioms;

        self.lobbies.insert(id.0, lobby);
        assert(self@ =~= old(self)@.insert(id, lobby@));
    }

    /// Deletes the record under the identifier, if there is one.
    pub fn remove(&mut self, id: LobbyId)
        ensures
            final(self)@ == old(self)@.remove(id),
    {
        broadcast use vstd::std_specs::hash::group_hash_axioms;

        self.lobbies.remove(&id.0);
        assert(self@ =~= old(self)@.remove(id));
    }

    /// A copy of the record under the identifier.
    pub fn get(&self, id: LobbyId) -> (found: Option<Lobby>)
        ensures
            view_of_found(found) == self@.get(id),
    {
        broadcast use vstd::std_specs::hash::group_hash_axioms;

        match self.lobbies.get(&id.0) {
            Some(lobby) => Some(lobby.clone()),
            None => None,
        }
    }

    /// The identifiers that are present, each once, in no particular order.
    pub fn list_ids(&self) -> (ids: Vec<LobbyId>)
        ensures
            ids@.to_set() == self@.dom(),
            ids@.no_duplicates(),
    {
        broadcast use vstd::std_specs::hash::group_hash_axioms;

        let mut ids: Vec<LobbyId> = Vec::new();
        for key in it: self.lobbies.keys()
            invariant
                ids@.len() == it.index(),
                forall|j: int| 0 <= j < ids@.len() ==> ids@[j] == LobbyId(*it.seq()[j]),
                it.seq() == self.lobbies.keys().remaining(),
        {
            ids.push(LobbyId(*key));
        }
        proof {
            let keys = self.lobbies.keys().remaining().unref();
            assert(keys.to_set() == self.lobbies@.dom());
            assert forall|id: LobbyId| ids@.to_set().contains(id) <==> self@.dom().contains(
                id,
            ) by {
                if ids@.to_set().contains(id) {
                    let j = choose|j: int| 0 <= j < ids@.len() && ids@[j] == id;
                    assert(keys[j] == id.0);
                    assert(keys.to_set().contains(id.0));
                }
                if self@.dom().contains(id) {
                    assert(keys.to_set().contains(id.0));
                    let j = choose|j: int| 0 <= j < keys.len() && keys[j] == id.0;
                    assert(ids@[j] == id);
                }
            }
            assert(ids@.to_set() =~= self@.dom());
            assert forall|a: int, b: int| 0 <= a < ids@.len() && 0 <= b < ids@.len() && a != b implies ids@[a] != ids@[b] by {
                assert(keys[a] != keys[b]);
            }
        }
        ids
    }
}

} // verus!
