use ezbrowsergameserver::game::{InGame, Lobby, PlayerCon, PlayerIndex};

fn lobby_with_players(n: usize) -> Lobby<String, u32> {
    let mut players: Vec<PlayerCon<u32>> = Vec::new();
    for k in 0..n {
        players.push(PlayerCon::new(k as u32));
    }
    Lobby::new("shared".to_string(), players)
}

#[test]
fn new_lobby_has_reset_set() {
    let lobby = lobby_with_players(1);
    assert!(lobby.reset);
    assert_eq!(lobby.players().len(), 1);
}

#[test]
fn reset_stays_cleared_until_an_active_phase() {
    let mut lobby = lobby_with_players(1);
    lobby.reset = false;
    lobby.join(PlayerCon::new(9));
    assert!(!lobby.reset);
    lobby.remove_player(0);
    assert!(!lobby.reset);
}

#[test]
fn join_appends_at_end_of_roster() {
    let mut lobby = lobby_with_players(2);
    lobby.join(PlayerCon::new(42));
    assert_eq!(lobby.players().len(), 3);
    assert_eq!(lobby.players()[2].data, 42);
}

#[test]
fn player_indices_are_in_range_and_unique() {
    let lobby = lobby_with_players(3);
    let idx = lobby.player_indices();
    assert_eq!(idx.len(), 3);
    for (k, pi) in idx.iter().enumerate() {
        assert!(pi.i() < lobby.players().len());
        assert_eq!(pi.i(), k);
    }
    for a in 0..idx.len() {
        for b in (a + 1)..idx.len() {
            assert_ne!(idx[a].i(), idx[b].i());
        }
    }
}

#[test]
fn get_player_reaches_each_session() {
    let mut lobby = lobby_with_players(2);
    let p = lobby.get_player(PlayerIndex(1));
    p.data = 99;
    assert_eq!(lobby.players()[1].data, 99);
}

#[test]
fn players_mut_edits_in_place() {
    let mut lobby = lobby_with_players(2);
    for p in lobby.players_mut().iter_mut() {
        p.data += 1;
    }
    assert_eq!(lobby.players()[0].data, 1);
    assert_eq!(lobby.players()[1].data, 2);
}

#[test]
fn reap_plan_is_descending_and_complete() {
    let mut lobby = lobby_with_players(4);
    lobby.get_player(PlayerIndex(0)).force_disconnect();
    lobby.get_player(PlayerIndex(2)).note_send_result(false);
    lobby.get_player(PlayerIndex(3)).force_disconnect();
    let plan = lobby.disconnected_indices();
    assert_eq!(plan, vec![3, 2, 0]);
    let mut leaving: Vec<usize> = Vec::new();
    for index in plan {
        assert!(index < lobby.players().len());
        leaving.push(index);
        lobby.remove_player(index);
    }
    assert_eq!(leaving.len(), 3);
    assert_eq!(lobby.players().len(), 1);
    assert_eq!(lobby.players()[0].data, 1);
    assert!(!lobby.players()[0].disconnected());
}

#[test]
fn into_lobby_returns_same_lobby_with_reset() {
    let mut lobby = lobby_with_players(2);
    lobby.reset = false;
    let game = InGame::new(lobby, "behavior".to_string());
    let back = game.into_lobby();
    assert!(back.reset);
    assert_eq!(back.state, "shared".to_string());
    assert_eq!(back.players().len(), 2);
    assert_eq!(back.players()[0].data, 0);
    assert_eq!(back.players()[1].data, 1);
}
