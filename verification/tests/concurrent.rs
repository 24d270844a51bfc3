use std::sync::Arc;

use lobby_registry::ident::LobbyId;
use lobby_registry::lobby::{CreateLobby, Lobby};
use lobby_registry::registry::Registry;
use tokio::runtime::Builder;
use tokio::sync::RwLock;

fn lobby_of(id: u128, round: usize) -> Lobby {
    let request = CreateLobby {
        public_ip_address: format!("198.51.100.{}", id % 250),
        port: 6000,
        max_seats: round,
        players_count: 0,
        lobby_name: format!("lobby {id}"),
    };
    Lobby::create(LobbyId(id), &request).unwrap()
}

#[test]
fn concurrent_writers_lose_no_update() {
    let runtime = Builder::new_multi_thread().worker_threads(4).build().unwrap();
    let registry = Arc::new(RwLock::new(Registry::new()));
    runtime.block_on(async {
        let mut tasks = Vec::new();
        for id in 0..32u128 {
            let registry = registry.clone();
            tasks.push(tokio::spawn(async move {
                for round in 0..50usize {
                    registry.write().await.insert(LobbyId(id), lobby_of(id, round));
                    let seen = registry.read().await.get(LobbyId(id));
                    assert_eq!(seen, Some(lobby_of(id, round)));
                    if id % 2 == 1 {
                        registry.write().await.remove(LobbyId(id));
                        assert_eq!(registry.read().await.get(LobbyId(id)), None);
                    }
                    let listed = registry.read().await.list_ids();
                    assert_eq!(listed.contains(&LobbyId(id)), id % 2 == 0);
                }
            }));
        }
        for task in tasks {
            task.await.unwrap();
        }
    });
    let listed = runtime.block_on(async { registry.read().await.list_ids() });
    let mut ids: Vec<u128> = listed.iter().map(|id| id.0).collect();
    ids.sort();
    let expected: Vec<u128> = (0..32u128).filter(|id| id % 2 == 0).collect();
    assert_eq!(ids, expected);
    for id in expected {
        let last = runtime.block_on(async { registry.read().await.get(LobbyId(id)) });
        assert_eq!(last, Some(lobby_of(id, 49)));
    }
}
