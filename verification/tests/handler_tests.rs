use tonk_game::game_players::{
    get_game_players, get_game_players_step, sanitize_players, GetGamePlayersAction,
    GetGamePlayersEvent, GetGamePlayersState,
};
use tonk_game::game_status::{
    get_game, get_result, get_round_result, result_lookup_step, ResultLookupAction,
    ResultLookupEvent, ResultLookupState,
};
use tonk_game::model::{ApiError, Building, Game, GameStatus, Player, PlayerQuery, Role, StoreError, Time};
use tonk_game::post_game::{find_tower, post_game, post_game_step, start, PostGameAction, PostGameEvent, PostGameState};
use tonk_game::post_player::{post_player, post_player_step, PostPlayerAction, PostPlayerEvent, PostPlayerState};

fn player(id: &str, role: Option<Role>) -> Player {
    Player {
        id: id.to_string(),
        mobile_unit_id: Some(format!("unit-{}", id)),
        display_name: Some(format!("name-{}", id)),
        role,
        proximity: Some(2),
        used_action: Some(true),
        last_round_action: Some(1),
        secret_key: Some("SECRET-REDACTED".to_string()),
        eliminated: Some(false),
    }
}

fn game(status: GameStatus) -> Game {
    Game {
        id: "g1".to_string(),
        corrupted_players: None,
        status,
        demo_play: false,
        time: None,
        eliminated_players: None,
        win_result: None,
    }
}

fn building(id: &str, is_tower: bool) -> Building {
    Building { id: id.to_string(), is_tower }
}

fn ready_buildings() -> Vec<Building> {
    vec![building("a", false), building("b", false), building("t", true), building("c", false)]
}

fn forbidden(a: &Result<(), ApiError>) -> String {
    match a {
        Err(ApiError::Forbidden(m)) => m.clone(),
        _ => panic!("not a 403"),
    }
}

fn internal<T>(a: &Result<T, ApiError>) -> String {
    match a {
        Err(ApiError::Internal(m)) => m.clone(),
        _ => panic!("not a 500 with a message"),
    }
}

fn reply(a: PostGameAction) -> Result<(), ApiError> {
    match a {
        PostGameAction::Reply(r) => r,
        _ => panic!("not a reply"),
    }
}

fn to_players_step() -> PostGameState {
    let (s, _) = post_game();
    let (s, _) = post_game_step(s, PostGameEvent::GameRead(Ok(game(GameStatus::Lobby))));
    let (s, _) = post_game_step(s, PostGameEvent::BuildingsRead(Ok(ready_buildings())));
    s
}

#[test]
fn post_game_starts_by_reading_the_game() {
    let (s, a) = post_game();
    assert!(matches!(s, PostGameState::AwaitGame));
    match a {
        PostGameAction::ReadGame { key } => assert_eq!(key, "game"),
        _ => panic!("expected a read of the game"),
    }
}

#[test]
fn post_game_refuses_a_started_game() {
    let (s, _) = post_game();
    let (s, a) = post_game_step(s, PostGameEvent::GameRead(Ok(game(GameStatus::Tasks))));
    assert!(matches!(s, PostGameState::Done));
    assert_eq!(forbidden(&reply(a)), "Game is already started");
}

#[test]
fn post_game_reports_a_missing_game_as_corrupted() {
    let (s, _) = post_game();
    let (_, a) = post_game_step(s, PostGameEvent::GameRead(Err(StoreError::MissingKey)));
    assert_eq!(
        internal(&reply(a)),
        "If you are seeing this error, the game is likely in a corrupted state"
    );
}

#[test]
fn post_game_reads_buildings_for_a_lobby_game() {
    let (s, _) = post_game();
    let (s, a) = post_game_step(s, PostGameEvent::GameRead(Ok(game(GameStatus::Lobby))));
    assert!(matches!(s, PostGameState::AwaitBuildings { .. }));
    match a {
        PostGameAction::ReadBuildings { index_key } => assert_eq!(index_key, "building:index"),
        _ => panic!("expected a read of the buildings"),
    }
}

#[test]
fn post_game_needs_a_tower() {
    let (s, _) = post_game();
    let (s, _) = post_game_step(s, PostGameEvent::GameRead(Ok(game(GameStatus::Lobby))));
    let bs = vec![building("a", false), building("b", false), building("c", false), building("d", false)];
    let (_, a) = post_game_step(s, PostGameEvent::BuildingsRead(Ok(bs)));
    assert_eq!(
        forbidden(&reply(a)),
        "Need to register all the proper buildings before the game can begin"
    );
}

#[test]
fn post_game_needs_more_than_three_buildings() {
    let (s, _) = post_game();
    let (s, _) = post_game_step(s, PostGameEvent::GameRead(Ok(game(GameStatus::Lobby))));
    let bs = vec![building("a", false), building("t", true), building("c", false)];
    let (_, a) = post_game_step(s, PostGameEvent::BuildingsRead(Ok(bs)));
    assert_eq!(
        forbidden(&reply(a)),
        "Need to register all the proper buildings before the game can begin"
    );
}

#[test]
fn post_game_passes_on_a_buildings_read_failure() {
    let (s, _) = post_game();
    let (s, _) = post_game_step(s, PostGameEvent::GameRead(Ok(game(GameStatus::Lobby))));
    let (_, a) = post_game_step(s, PostGameEvent::BuildingsRead(Err(StoreError::Failure("down".to_string()))));
    match reply(a) {
        Err(ApiError::Store(StoreError::Failure(m))) => assert_eq!(m, "down"),
        _ => panic!("expected the store error"),
    }
}

#[test]
fn post_game_reads_the_players_of_the_game() {
    let (s, _) = post_game();
    let (s, _) = post_game_step(s, PostGameEvent::GameRead(Ok(game(GameStatus::Lobby))));
    let (s, a) = post_game_step(s, PostGameEvent::BuildingsRead(Ok(ready_buildings())));
    assert!(matches!(s, PostGameState::AwaitPlayers { .. }));
    match a {
        PostGameAction::ReadPlayers { index_key } => assert_eq!(index_key, "game:g1:player_index"),
        _ => panic!("expected a read of the players"),
    }
}

#[test]
fn post_game_needs_two_players() {
    let s = to_players_step();
    let (_, a) = post_game_step(s, PostGameEvent::PlayersRead(Ok(vec![player("p0", None)])));
    assert_eq!(
        forbidden(&reply(a)),
        "More players need to join the game before we can start"
    );
}

#[test]
fn post_game_hides_a_players_read_failure() {
    let s = to_players_step();
    let (_, a) = post_game_step(s, PostGameEvent::PlayersRead(Err(StoreError::MissingKey)));
    assert_eq!(internal(&reply(a)), "unknown error");
}

/// Runs the saves of a start-game request, failing the saves of the
/// players whose index is in `failing`, and returns what was saved: the
/// players in order and the game.
fn run_saves(s: PostGameState, a: PostGameAction, failing: &[usize]) -> (Vec<(String, Player)>, String, Game) {
    let mut saved = Vec::new();
    let (mut s, mut a) = (s, a);
    loop {
        match a {
            PostGameAction::SavePlayer { key, player } => {
                let i = saved.len();
                saved.push((key, player));
                let r = if failing.contains(&i) {
                    Err(StoreError::Failure("down".to_string()))
                } else {
                    Ok(())
                };
                let (s2, a2) = post_game_step(s, PostGameEvent::PlayerSaved(r));
                s = s2;
                a = a2;
            }
            PostGameAction::SaveGame { key, game } => {
                assert!(matches!(s, PostGameState::AwaitSave));
                return (saved, key, game);
            }
            _ => panic!("expected a save"),
        }
    }
}

#[test]
fn post_game_saves_a_two_player_demo_game() {
    let s = to_players_step();
    let ps = vec![player("p0", None), player("p1", None)];
    let (s, a) = post_game_step(s, PostGameEvent::PlayersRead(Ok(ps)));
    assert!(matches!(s, PostGameState::AwaitPlayerSave { next: 0, .. }));
    let (players, game_key, game) = run_saves(s, a, &[]);
    assert_eq!(game_key, "game");
    assert_eq!(game.status, GameStatus::Tasks);
    assert_eq!(game.time, Some(Time { round: 0, timer: 180 }));
    assert!(game.demo_play);
    assert_eq!(game.id, "g1");
    assert_eq!(players.len(), 2);
    for (k, p) in &players {
        assert_eq!(*k, format!("player:{}", p.id));
        assert!(p.role.is_some());
    }
    let bugs = players.iter().filter(|(_, p)| p.role == Some(Role::Bugged)).count();
    assert_eq!(bugs, 1);
}

#[test]
fn post_game_keeps_demo_play_off_for_more_players() {
    let s = to_players_step();
    let ps = vec![player("p0", None), player("p1", None), player("p2", None)];
    let (s, a) = post_game_step(s, PostGameEvent::PlayersRead(Ok(ps)));
    let (players, _, game) = run_saves(s, a, &[]);
    assert!(!game.demo_play);
    assert_eq!(players.len(), 3);
}

#[test]
fn post_game_ignores_failed_player_saves() {
    let s = to_players_step();
    let ps = vec![player("p0", None), player("p1", None), player("p2", None), player("p3", None)];
    let (s, a) = post_game_step(s, PostGameEvent::PlayersRead(Ok(ps)));
    let (players, game_key, game) = run_saves(s, a, &[0, 2, 3]);
    assert_eq!(players.len(), 4);
    assert_eq!(game_key, "game");
    assert_eq!(game.status, GameStatus::Tasks);
}

#[test]
fn post_game_answers_after_the_save() {
    let (_, a) = post_game_step(PostGameState::AwaitSave, PostGameEvent::Saved(Ok(())));
    assert!(reply(a).is_ok());
    let (_, a) = post_game_step(
        PostGameState::AwaitSave,
        PostGameEvent::Saved(Err(StoreError::Failure("x".to_string()))),
    );
    assert!(matches!(reply(a), Err(ApiError::Store(_))));
}

#[test]
fn started_game_fields() {
    let mut g = game(GameStatus::Lobby);
    g.demo_play = true;
    let s = start(g, 5);
    assert!(s.demo_play);
    assert_eq!(s.status, GameStatus::Tasks);
    assert_eq!(s.time, Some(Time { round: 0, timer: 180 }));
}

#[test]
fn tower_is_found_anywhere() {
    assert!(find_tower(&ready_buildings()));
    assert!(!find_tower(&vec![building("a", false)]));
    assert!(!find_tower(&vec![]));
}

#[test]
fn sanitize_hides_roles_and_private_fields() {
    let ps = vec![player("p0", Some(Role::Bugged)), player("p1", Some(Role::Normal))];
    let out = sanitize_players(&ps, false);
    assert_eq!(out.len(), 2);
    for (a, b) in ps.iter().zip(out.iter()) {
        assert_eq!(a.id, b.id);
        assert_eq!(a.mobile_unit_id, b.mobile_unit_id);
        assert_eq!(a.display_name, b.display_name);
        assert_eq!(b.role, None);
        assert_eq!(b.proximity, None);
        assert_eq!(b.used_action, None);
        assert_eq!(b.last_round_action, None);
        assert_eq!(b.secret_key, None);
        assert_eq!(b.eliminated, None);
    }
}

#[test]
fn sanitize_shows_roles_when_asked() {
    let ps = vec![player("p0", Some(Role::Bugged)), player("p1", None)];
    let out = sanitize_players(&ps, true);
    assert_eq!(out[0].role, Some(Role::Bugged));
    assert_eq!(out[1].role, None);
    assert_eq!(out[0].secret_key, None);
}

#[test]
fn sanitize_twice_is_sanitize_once() {
    let ps = vec![player("p0", Some(Role::Bugged))];
    let once = sanitize_players(&ps, false);
    let twice = sanitize_players(&once, false);
    assert_eq!(once[0].id, twice[0].id);
    assert_eq!(once[0].role, twice[0].role);
    assert_eq!(once[0].display_name, twice[0].display_name);
}

fn list_for(requester: Result<Player, StoreError>) -> Result<Vec<Player>, ApiError> {
    let (s, a) = get_game_players(PlayerQuery { player_id: "me".to_string() });
    assert!(matches!(a, GetGamePlayersAction::ReadGame { .. }));
    let (s, a) = get_game_players_step(s, GetGamePlayersEvent::GameRead(Ok(game(GameStatus::Tasks))));
    match a {
        GetGamePlayersAction::ReadPlayer { key } => assert_eq!(key, "player:me"),
        _ => panic!("expected a read of the requester"),
    }
    let (s, a) = get_game_players_step(s, GetGamePlayersEvent::PlayerRead(requester));
    let s = match a {
        GetGamePlayersAction::ReadPlayers { index_key } => {
            assert_eq!(index_key, "game:g1:player_index");
            s
        }
        GetGamePlayersAction::Reply(r) => return r,
        _ => panic!("unexpected action"),
    };
    let stored = vec![player("a", Some(Role::Bugged)), player("b", Some(Role::Normal))];
    let (s, a) = get_game_players_step(s, GetGamePlayersEvent::PlayersRead(Ok(stored)));
    assert!(matches!(s, GetGamePlayersState::Done));
    match a {
        GetGamePlayersAction::Reply(r) => r,
        _ => panic!("expected a reply"),
    }
}

#[test]
fn bugged_players_see_roles() {
    let shown = list_for(Ok(player("me", Some(Role::Bugged)))).unwrap();
    assert_eq!(shown[0].role, Some(Role::Bugged));
    assert_eq!(shown[1].role, Some(Role::Normal));
    assert_eq!(shown[0].secret_key, None);
}

#[test]
fn normal_players_see_no_roles() {
    let shown = list_for(Ok(player("me", Some(Role::Normal)))).unwrap();
    assert!(shown.iter().all(|p| p.role.is_none()));
    let shown = list_for(Ok(player("me", None))).unwrap();
    assert!(shown.iter().all(|p| p.role.is_none()));
}

#[test]
fn unknown_players_see_no_roles() {
    let shown = list_for(Err(StoreError::MissingKey)).unwrap();
    assert_eq!(shown.len(), 2);
    assert!(shown.iter().all(|p| p.role.is_none()));
}

#[test]
fn failed_requester_lookup_is_an_error() {
    let r = list_for(Err(StoreError::Failure("boom".to_string())));
    assert_eq!(internal(&r), "unknown error");
}

#[test]
fn game_players_game_read_failure() {
    let (s, _) = get_game_players(PlayerQuery { player_id: "me".to_string() });
    let (_, a) = get_game_players_step(s, GetGamePlayersEvent::GameRead(Err(StoreError::MissingKey)));
    match a {
        GetGamePlayersAction::Reply(r) => assert_eq!(internal(&r), "unknown error"),
        _ => panic!("expected a reply"),
    }
}

fn join_reply(a: PostPlayerAction) -> Result<Player, ApiError> {
    match a {
        PostPlayerAction::Reply(r) => r,
        _ => panic!("expected a reply"),
    }
}

fn join_forbidden(a: PostPlayerAction) -> String {
    match join_reply(a) {
        Err(ApiError::Forbidden(m)) => m,
        _ => panic!("expected a 403"),
    }
}

#[test]
fn join_refused_outside_the_lobby() {
    let (s, _) = post_player(player("me", None));
    let (_, a) = post_player_step(s, PostPlayerEvent::GameRead(Ok(game(GameStatus::Tasks))));
    assert_eq!(join_forbidden(a), "You cannot join a game while it is in session");
}

#[test]
fn join_game_read_failure() {
    let (s, _) = post_player(player("me", None));
    let (_, a) = post_player_step(s, PostPlayerEvent::GameRead(Err(StoreError::MissingKey)));
    assert_eq!(internal(&join_reply(a)), "unknown error");
}

#[test]
fn join_refused_for_unregistered_players() {
    let (s, _) = post_player(player("me", None));
    let (s, a) = post_player_step(s, PostPlayerEvent::GameRead(Ok(game(GameStatus::Lobby))));
    match a {
        PostPlayerAction::ReadPlayer { key } => assert_eq!(key, "player:me"),
        _ => panic!("expected a read of the player"),
    }
    let (_, a) = post_player_step(s, PostPlayerEvent::PlayerRead(Err(StoreError::MissingKey)));
    assert_eq!(join_forbidden(a), "player does not have a tonk");
}

fn to_joined_step() -> PostPlayerState {
    let (s, _) = post_player(player("me", None));
    let (s, _) = post_player_step(s, PostPlayerEvent::GameRead(Ok(game(GameStatus::Lobby))));
    let (s, a) = post_player_step(s, PostPlayerEvent::PlayerRead(Ok(player("me", Some(Role::Normal)))));
    match a {
        PostPlayerAction::ReadJoined { index_key } => assert_eq!(index_key, "game:g1:player_index"),
        _ => panic!("expected a read of the joined players"),
    }
    s
}

#[test]
fn join_refused_twice() {
    let s = to_joined_step();
    let joined = vec![player("other", None), player("me", None)];
    let (_, a) = post_player_step(s, PostPlayerEvent::JoinedRead(Ok(joined)));
    assert_eq!(join_forbidden(a), "This player has already joined the game");
}

#[test]
fn join_index_read_failure() {
    let s = to_joined_step();
    let (_, a) = post_player_step(s, PostPlayerEvent::JoinedRead(Err(StoreError::MissingKey)));
    assert_eq!(internal(&join_reply(a)), "There was an unknown error");
}

#[test]
fn join_adds_the_player_and_answers_with_it() {
    let s = to_joined_step();
    let (s, a) = post_player_step(s, PostPlayerEvent::JoinedRead(Ok(vec![player("other", None)])));
    match a {
        PostPlayerAction::AddToIndex { index_key, member } => {
            assert_eq!(index_key, "game:g1:player_index");
            assert_eq!(member, "player:me");
        }
        _ => panic!("expected an addition"),
    }
    let (s2, a) = post_player_step(s, PostPlayerEvent::Added(Ok(())));
    assert!(matches!(s2, PostPlayerState::Done));
    let p = join_reply(a).unwrap();
    assert_eq!(p.id, "me");
    assert_eq!(p.role, Some(Role::Normal));
}

#[test]
fn join_add_failure() {
    let s = to_joined_step();
    let (s, _) = post_player_step(s, PostPlayerEvent::JoinedRead(Ok(vec![])));
    let (_, a) = post_player_step(s, PostPlayerEvent::Added(Err(StoreError::Failure("x".to_string()))));
    assert_eq!(internal(&join_reply(a)), "There was an unknown error");
}

#[test]
fn get_game_shows_the_stored_game() {
    let mut g = game(GameStatus::Tasks);
    g.demo_play = true;
    let shown = get_game(Ok(g));
    assert_eq!(shown.id, "g1");
    assert_eq!(shown.status, GameStatus::Tasks);
    assert!(shown.demo_play);
}

#[test]
fn get_game_shows_the_empty_game_when_none_is_stored() {
    let shown = get_game(Err(StoreError::MissingKey));
    assert_eq!(shown.id, "");
    assert_eq!(shown.status, GameStatus::Null);
    assert!(!shown.demo_play);
    assert!(shown.time.is_none());
    assert!(shown.corrupted_players.is_none());
    assert!(shown.eliminated_players.is_none());
    assert!(shown.win_result.is_none());
}

#[test]
fn current_round_result_key() {
    let (s, a) = get_result::<u8>();
    assert!(matches!(a, ResultLookupAction::ReadGame { .. }));
    let mut g = game(GameStatus::Tasks);
    g.time = Some(Time { round: 12, timer: 5 });
    let (s, a) = result_lookup_step::<u8>(s, ResultLookupEvent::GameRead(Ok(g)));
    match a {
        ResultLookupAction::ReadResult { key } => assert_eq!(key, "result:g1:12"),
        _ => panic!("expected a read of the result"),
    }
    let (s, a) = result_lookup_step(s, ResultLookupEvent::ResultRead(Ok(7u8)));
    assert!(matches!(s, ResultLookupState::Done));
    match a {
        ResultLookupAction::Reply(Ok(v)) => assert_eq!(v, 7),
        _ => panic!("expected the result"),
    }
}

#[test]
fn named_round_result_key() {
    let (s, _) = get_round_result::<u8>("4".to_string());
    let (_, a) = result_lookup_step::<u8>(s, ResultLookupEvent::GameRead(Ok(game(GameStatus::Tasks))));
    match a {
        ResultLookupAction::ReadResult { key } => assert_eq!(key, "result:g1:4"),
        _ => panic!("expected a read of the result"),
    }
}

#[test]
fn result_read_failures() {
    let (s, _) = get_round_result::<u8>("4".to_string());
    let (_, a) = result_lookup_step::<u8>(s, ResultLookupEvent::GameRead(Err(StoreError::MissingKey)));
    match a {
        ResultLookupAction::Reply(r) => assert_eq!(internal(&r), "unknown error"),
        _ => panic!("expected a reply"),
    }
    let (_, a) = result_lookup_step::<u8>(ResultLookupState::AwaitResult, ResultLookupEvent::ResultRead(Err(StoreError::MissingKey)));
    match a {
        ResultLookupAction::Reply(r) => assert_eq!(internal(&r), "unknown error"),
        _ => panic!("expected a reply"),
    }
}
