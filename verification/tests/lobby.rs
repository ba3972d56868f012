use voxel_game::math::Position;
use voxel_game::multiplayer::lobby::Lobby;
use voxel_game::multiplayer::lobby::NetworkPlayer;

fn at(n: u32) -> Position {
    Position::from_bits(n, n + 1, n + 2)
}

fn sorted(mut v: Vec<NetworkPlayer>) -> Vec<NetworkPlayer> {
    v.sort_by_key(|p| p.id);
    v
}

#[test]
fn lobby_starts_empty() {
    let lobby = Lobby::new();
    assert!(lobby.roster().is_empty());
    assert_eq!(lobby.get(1), None);
    assert!(Lobby::default().roster().is_empty());
}

#[test]
fn lobby_pairs_peers_with_representations() {
    let mut lobby = Lobby::new();
    lobby.insert(1, 100, at(10));
    lobby.insert(2, 200, at(20));
    lobby.insert(3, 300, at(30));
    assert_eq!(lobby.get(1), Some(100));
    assert_eq!(lobby.get(2), Some(200));
    assert_eq!(lobby.get(3), Some(300));
    assert_eq!(lobby.get(100), None);
    assert_eq!(
        sorted(lobby.roster()),
        vec![
            NetworkPlayer { id: 1, position: at(10) },
            NetworkPlayer { id: 2, position: at(20) },
            NetworkPlayer { id: 3, position: at(30) },
        ]
    );
}

#[test]
fn insert_replaces_the_pair_of_the_peer() {
    let mut lobby = Lobby::new();
    lobby.insert(1, 100, at(10));
    lobby.insert(2, 200, at(20));
    lobby.insert(1, 101, at(11));
    assert_eq!(lobby.get(1), Some(101));
    assert_eq!(
        sorted(lobby.roster()),
        vec![NetworkPlayer { id: 1, position: at(11) }, NetworkPlayer { id: 2, position: at(20) }]
    );
}

#[test]
fn insert_replaces_the_pair_of_the_representation() {
    let mut lobby = Lobby::new();
    lobby.insert(1, 100, at(10));
    lobby.insert(2, 200, at(20));
    lobby.insert(3, 100, at(30));
    assert_eq!(lobby.get(1), None);
    assert_eq!(lobby.get(3), Some(100));
    assert_eq!(
        sorted(lobby.roster()),
        vec![NetworkPlayer { id: 2, position: at(20) }, NetworkPlayer { id: 3, position: at(30) }]
    );
}

#[test]
fn insert_can_replace_two_pairs() {
    let mut lobby = Lobby::new();
    lobby.insert(1, 100, at(10));
    lobby.insert(2, 200, at(20));
    lobby.insert(1, 200, at(99));
    assert_eq!(lobby.get(1), Some(200));
    assert_eq!(lobby.get(2), None);
    assert_eq!(lobby.roster(), vec![NetworkPlayer { id: 1, position: at(99) }]);
}

#[test]
fn remove_takes_the_pair_out() {
    let mut lobby = Lobby::new();
    lobby.insert(1, 100, at(10));
    lobby.insert(2, 200, at(20));
    assert_eq!(lobby.remove(1), Some(100));
    assert_eq!(lobby.remove(1), None);
    assert_eq!(lobby.remove(7), None);
    assert_eq!(lobby.get(1), None);
    assert_eq!(lobby.roster(), vec![NetworkPlayer { id: 2, position: at(20) }]);
    // the representation is free again
    lobby.insert(5, 100, at(50));
    assert_eq!(lobby.get(5), Some(100));
    assert_eq!(lobby.get(2), Some(200));
}
