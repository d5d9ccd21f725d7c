//! Starting the game. The handler reads the game, the registered buildings
//! and the players that joined, checks each in turn, draws the roles, and
//! saves the players and the started game. The decisions are a state
//! machine: the host performs each action and hands back what came of it.

use vstd::prelude::*;
use crate::keys::{
    building_index_key, building_index_key_view, game_key, game_key_view, player_index_key,
    player_index_key_view, player_key, player_key_view,
};
use crate::model::{ApiError, Building, Game, GameStatus, Player, StoreError, Time};
use crate::roles::{draw_roles, lemma_role_assignment_bounds, valid_assignment};

verus! {

/// Where a start-game request stands.
pub enum PostGameState {
    /// The game was asked for.
    AwaitGame,
    /// The game is in the lobby; the buildings were asked for.
    AwaitBuildings { game: Game },
    /// The buildings allow a start; the players were asked for.
    AwaitPlayers { game: Game },
    /// The players with their roles are being saved one by one; the one at
    /// `next` is being written, and `game` is saved after the last.
    AwaitPlayerSave { records: Vec<(String, Player)>, next: usize, game: Game },
    /// The started game is being saved.
    AwaitSave,
    /// The request was answered.
    Done,
}

/// What the host reports back.
pub enum PostGameEvent {
    GameRead(Result<Game, StoreError>),
    BuildingsRead(Result<Vec<Building>, StoreError>),
    PlayersRead(Result<Vec<Player>, StoreError>),
    /// The result of saving a player.
    PlayerSaved(Result<(), StoreError>),
    /// The result of saving the game.
    Saved(Result<(), StoreError>),
}

/// What the host is to do next.
pub enum PostGameAction {
    /// Read the game stored under `key`.
    ReadGame { key: String },
    /// Read the buildings listed in the index `index_key`.
    ReadBuildings { index_key: String },
    /// Read the players listed in the index `index_key`.
    ReadPlayers { index_key: String },
    /// Store `player` under `key`.
    SavePlayer { key: String, player: Player },
    /// Store `game` under `key`.
    SaveGame { key: String, game: Game },
    /// Answer the request.
    Reply(Result<(), ApiError>),
}

/// `e` is a 403 with message `msg`.
pub open spec fn is_forbidden(e: ApiError, msg: Seq<char>) -> bool {
    e matches ApiError::Forbidden(m) && m@ == msg
}

/// `e` is a 500 with message `msg`.
pub open spec fn is_internal(e: ApiError, msg: Seq<char>) -> bool {
    e matches ApiError::Internal(m) && m@ == msg
}

/// `r` answers with the error `e` and nothing else.
pub open spec fn replies_err<T>(a: Result<T, ApiError>, pred: spec_fn(ApiError) -> bool) -> bool {
    a matches Err(e) && pred(e)
}

/// Some building is the tower.
pub open spec fn has_tower(buildings: Seq<Building>) -> bool {
    exists|i: int| 0 <= i < buildings.len() && (#[trigger] buildings[i]).is_tower
}

/// The buildings allow the game to start: the tower and more than three
/// buildings are registered.
pub open spec fn buildings_ready(buildings: Seq<Building>) -> bool {
    has_tower(buildings) && buildings.len() > 3
}

/// The game once started with `num_players` players: in the task phase, at
/// round 0 with 180 on the timer, and in demo play when exactly two play.
pub open spec fn started_game(game: Game, num_players: nat) -> Game {
    Game {
        status: GameStatus::Tasks,
        time: Some(Time { round: 0, timer: 180 }),
        demo_play: if num_players == 2 { true } else { game.demo_play },
        ..game
    }
}

/// The players of a save, without their keys.
pub open spec fn saved_players(records: Seq<(String, Player)>) -> Seq<Player> {
    records.map_values(|r: (String, Player)| r.1)
}

/// Each player of a save goes under its own key.
pub open spec fn keyed_by_id(records: Seq<(String, Player)>) -> bool {
    forall|i: int|
        0 <= i < records.len() ==> (#[trigger] records[i]).0@ == player_key_view(records[i].1.id@)
}

/// The request to store the `i`-th player of a save under its key.
pub open spec fn save_player_action(records: Seq<(String, Player)>, i: int) -> PostGameAction {
    PostGameAction::SavePlayer { key: records[i].0, player: records[i].1 }
}

/// The event is the kind that the state waits for.
pub open spec fn post_game_accepts(state: PostGameState, event: PostGameEvent) -> bool {
    match state {
        PostGameState::AwaitGame => event is GameRead,
        PostGameState::AwaitBuildings { .. } => event is BuildingsRead,
        PostGameState::AwaitPlayers { .. } => event is PlayersRead,
        PostGameState::AwaitPlayerSave { records, next, .. } => event is PlayerSaved && next
            < records.len(),
        PostGameState::AwaitSave { .. } => event is Saved,
        PostGameState::Done => false,
    }
}

/// One step of a start-game request: from `state`, on `event`, the request
/// moves to `next` and the host is asked to perform `action`.
pub open spec fn post_game_step_spec(
    state: PostGameState,
    event: PostGameEvent,
    next: PostGameState,
    action: PostGameAction,
) -> bool {
    match (state, event) {
        (PostGameState::AwaitGame, PostGameEvent::GameRead(Err(_))) => {
            &&& next is Done
            &&& action matches PostGameAction::Reply(r) && replies_err(
                r,
                |e: ApiError|
                    is_internal(
                        e,
                        "If you are seeing this error, the game is likely in a corrupted state"@,
                    ),
            )
        },
        (PostGameState::AwaitGame, PostGameEvent::GameRead(Ok(game))) => {
            if game.status != GameStatus::Lobby {
                &&& next is Done
                &&& action matches PostGameAction::Reply(r) && replies_err(
                    r,
                    |e: ApiError| is_forbidden(e, "Game is already started"@),
                )
            } else {
                &&& next == PostGameState::AwaitBuildings { game }
                &&& action matches PostGameAction::ReadBuildings { index_key }
                    && index_key@ == building_index_key_view()
            }
        },
        (PostGameState::AwaitBuildings { game }, PostGameEvent::BuildingsRead(Err(e))) => {
            &&& next is Done
            &&& action matches PostGameAction::Reply(r) && r == Err::<(), ApiError>(
                ApiError::Store(e),
            )
        },
        (PostGameState::AwaitBuildings { game }, PostGameEvent::BuildingsRead(Ok(buildings))) => {
            if !buildings_ready(buildings@) {
                &&& next is Done
                &&& action matches PostGameAction::Reply(r) && replies_err(
                    r,
                    |e: ApiError|
                        is_forbidden(
                            e,
                            "Need to register all the proper buildings before the game can begin"@,
                        ),
                )
            } else {
                &&& next == PostGameState::AwaitPlayers { game }
                &&& action matches PostGameAction::ReadPlayers { index_key }
                    && index_key@ == player_index_key_view(game.id@)
            }
        },
        (PostGameState::AwaitPlayers { game }, PostGameEvent::PlayersRead(Err(_))) => {
            &&& next is Done
            &&& action matches PostGameAction::Reply(r) && replies_err(
                r,
                |e: ApiError| is_internal(e, "unknown error"@),
            )
        },
        (PostGameState::AwaitPlayers { game }, PostGameEvent::PlayersRead(Ok(players))) => {
            if players.len() < 2 {
                &&& next is Done
                &&& action matches PostGameAction::Reply(r) && replies_err(
                    r,
                    |e: ApiError|
                        is_forbidden(
                            e,
                            "More players need to join the game before we can start"@,
                        ),
                )
            } else {
                &&& next matches PostGameState::AwaitPlayerSave { records, next: i, game: g }
                    && i == 0 && valid_assignment(players@, saved_players(records@)) && keyed_by_id(
                    records@,
                ) && g == started_game(game, players.len() as nat)
                &&& action == save_player_action(next->records@, 0)
            }
        },
        (
            PostGameState::AwaitPlayerSave { records, next: i, game },
            PostGameEvent::PlayerSaved(_),
        ) => {
            if i + 1 < records.len() {
                &&& next == PostGameState::AwaitPlayerSave { records, next: (i + 1) as usize, game }
                &&& action == save_player_action(records@, i + 1)
            } else {
                &&& next is AwaitSave
                &&& action matches PostGameAction::SaveGame { key, game: g } && key@
                    == game_key_view() && g == game
            }
        },
        (PostGameState::AwaitSave, PostGameEvent::Saved(Err(e))) => {
            &&& next is Done
            &&& action matches PostGameAction::Reply(r) && r == Err::<(), ApiError>(
                ApiError::Store(e),
            )
        },
        (PostGameState::AwaitSave, PostGameEvent::Saved(Ok(()))) => {
            &&& next is Done
            &&& action matches PostGameAction::Reply(r) && r is Ok
        },
        _ => false,
    }
}

/// Whether some building is the tower.
pub fn find_tower(buildings: &Vec<Building>) -> (found: bool)
    ensures
        found == has_tower(buildings@),
{
    let mut found = false;
    for i in 0..buildings.len()
        invariant
            found == exists|j: int| 0 <= j < i && (#[trigger] buildings@[j]).is_tower,
    {
        if buildings[i].is_tower {
            found = true;
        }
    }
    found
}

/// The game started with `num_players` players.
pub fn start(game: Game, num_players: usize) -> (g: Game)
    ensures
        g == started_game(game, num_players as nat),
{
    let mut g = game;
    g.status = GameStatus::Tasks;
    g.time = Some(Time { round: 0, timer: 180 });
    if num_players == 2 {
        g.demo_play = true;
    }
    g
}

/// Each player with the key it is stored under.
pub fn keyed_players(players: &Vec<Player>) -> (records: Vec<(String, Player)>)
    ensures
        saved_players(records@) == players@,
        keyed_by_id(records@),
{
    let mut records: Vec<(String, Player)> = Vec::new();
    for i in 0..players.len()
        invariant
            records.len() == i,
            forall|j: int| 0 <= j < i ==> (#[trigger] records@[j]).1 == players@[j],
            keyed_by_id(records@),
    {
        let p = players[i].duplicate();
        let key = player_key(p.id.as_str());
        records.push((key, p));
    }
    assert(saved_players(records@) =~= players@);
    records
}

/// The request to store the `i`-th player of a save under its key.
pub fn save_player(records: &Vec<(String, Player)>, i: usize) -> (a: PostGameAction)
    requires
        i < records.len(),
    ensures
        a == save_player_action(records@, i as int),
{
    PostGameAction::SavePlayer { key: records[i].0.clone(), player: records[i].1.duplicate() }
}

/// Begins a start-game request: the game is to be read.
pub fn post_game() -> (r: (PostGameState, PostGameAction))
    ensures
        r.0 is AwaitGame,
        r.1 matches PostGameAction::ReadGame { key } && key@ == game_key_view(),
{
    (PostGameState::AwaitGame, PostGameAction::ReadGame { key: game_key() })
}

/// Takes one step of a start-game request.
pub fn post_game_step(state: PostGameState, event: PostGameEvent) -> (r: (PostGameState, PostGameAction))
    requires
        post_game_accepts(state, event),
    ensures
        post_game_step_spec(state, event, r.0, r.1),
{
    match (state, event) {
        (PostGameState::AwaitGame, PostGameEvent::GameRead(Err(_))) => {
            (
                PostGameState::Done,
                PostGameAction::Reply(
                    Err(
                        ApiError::Internal(
                            String::from_str(
                                "If you are seeing this error, the game is likely in a corrupted state",
                            ),
                        ),
                    ),
                ),
            )
        },
        (PostGameState::AwaitGame, PostGameEvent::GameRead(Ok(game))) => {
            if game.status != GameStatus::Lobby {
                (
                    PostGameState::Done,
                    PostGameAction::Reply(
                        Err(ApiError::Forbidden(String::from_str("Game is already started"))),
                    ),
                )
            } else {
                (
                    PostGameState::AwaitBuildings { game },
                    PostGameAction::ReadBuildings { index_key: building_index_key() },
                )
            }
        },
        (PostGameState::AwaitBuildings { game }, PostGameEvent::BuildingsRead(Err(e))) => {
            (PostGameState::Done, PostGameAction::Reply(Err(ApiError::Store(e))))
        },
        (PostGameState::AwaitBuildings { game }, PostGameEvent::BuildingsRead(Ok(buildings))) => {
            let found_tower = find_tower(&buildings);
            if !found_tower || buildings.len() <= 3 {
                (
                    PostGameState::Done,
                    PostGameAction::Reply(
                        Err(
                            ApiError::Forbidden(
                                String::from_str(
                                    "Need to register all the proper buildings before the game can begin",
                                ),
                            ),
                        ),
                    ),
                )
            } else {
                let index_key = player_index_key(game.id.as_str());
                (PostGameState::AwaitPlayers { game }, PostGameAction::ReadPlayers { index_key })
            }
        },
        (PostGameState::AwaitPlayers { game }, PostGameEvent::PlayersRead(Err(_))) => {
            (
                PostGameState::Done,
                PostGameAction::Reply(Err(ApiError::Internal(String::from_str("unknown error")))),
            )
        },
        (PostGameState::AwaitPlayers { game }, PostGameEvent::PlayersRead(Ok(players))) => {
            if players.len() < 2 {
                (
                    PostGameState::Done,
                    PostGameAction::Reply(
                        Err(
                            ApiError::Forbidden(
                                String::from_str(
                                    "More players need to join the game before we can start",
                                ),
                            ),
                        ),
                    ),
                )
            } else {
                let assigned = draw_roles(&players);
                let records = keyed_players(&assigned);
                proof {
                    lemma_role_assignment_bounds(players@, assigned@);
                    assert(records@.len() == saved_players(records@).len());
                }
                let started = start(game, players.len());
                let action = save_player(&records, 0);
                (PostGameState::AwaitPlayerSave { records, next: 0, game: started }, action)
            }
        },
        (
            PostGameState::AwaitPlayerSave { records, next, game },
            PostGameEvent::PlayerSaved(_),
        ) => {
            if next + 1 < records.len() {
                let action = save_player(&records, next + 1);
                (PostGameState::AwaitPlayerSave { records, next: next + 1, game }, action)
            } else {
                (PostGameState::AwaitSave, PostGameAction::SaveGame { key: game_key(), game })
            }
        },
        (PostGameState::AwaitSave, PostGameEvent::Saved(Err(e))) => {
            (PostGameState::Done, PostGameAction::Reply(Err(ApiError::Store(e))))
        },
        (PostGameState::AwaitSave, PostGameEvent::Saved(Ok(()))) => {
            (PostGameState::Done, PostGameAction::Reply(Ok(())))
        },
        _ => {
            (PostGameState::Done, PostGameAction::Reply(Ok(())))
        },
    }
}

} // verus!

verus! {

/// A start-game request starts saving only when the stored game was in the
/// lobby, the tower and more than three buildings were registered and at
/// least two players had joined; the players it saves are the joined ones,
/// each with a role and under its own key, the first of them first, and the
/// game it saves after them is the stored one moved to the task phase, at
/// round 0 with 180 on the timer, in demo play when exactly two players
/// joined.
pub proof fn lemma_post_game_saves_only_ready_games(
    game_read: Result<Game, StoreError>,
    buildings_read: Result<Vec<Building>, StoreError>,
    players_read: Result<Vec<Player>, StoreError>,
    s1: PostGameState,
    a1: PostGameAction,
    s2: PostGameState,
    a2: PostGameAction,
    s3: PostGameState,
    a3: PostGameAction,
)
    requires
        post_game_step_spec(PostGameState::AwaitGame, PostGameEvent::GameRead(game_read), s1, a1),
        post_game_step_spec(s1, PostGameEvent::BuildingsRead(buildings_read), s2, a2),
        post_game_step_spec(s2, PostGameEvent::PlayersRead(players_read), s3, a3),
        a3 is SavePlayer,
    ensures
        game_read matches Ok(game) && game.status == GameStatus::Lobby,
        buildings_read matches Ok(buildings) && buildings_ready(buildings@),
        players_read matches Ok(players) && players.len() >= 2,
        s3 matches PostGameState::AwaitPlayerSave { records, next, game: saved } && next == 0
            && saved == started_game(game_read->Ok_0, players_read->Ok_0.len() as nat)
            && valid_assignment(players_read->Ok_0@, saved_players(records@)) && keyed_by_id(
            records@,
        ) && a3 == save_player_action(records@, 0),
{
}

/// Whether a player could be saved makes no difference: the request goes on
/// to the next player, or to saving the game after the last one, all the
/// same.
pub proof fn lemma_player_save_failures_ignored(
    state: PostGameState,
    failure: StoreError,
    n1: PostGameState,
    a1: PostGameAction,
    n2: PostGameState,
    a2: PostGameAction,
)
    requires
        post_game_step_spec(state, PostGameEvent::PlayerSaved(Err(failure)), n1, a1),
        post_game_step_spec(state, PostGameEvent::PlayerSaved(Ok(())), n2, a2),
    ensures
        n1 == n2,
        state matches PostGameState::AwaitPlayerSave { records, next, game } && (if next + 1
            < records.len() {
            a1 == save_player_action(records@, next + 1) && a2 == a1
        } else {
            &&& a1 matches PostGameAction::SaveGame { key, game: g } && key@ == game_key_view()
                && g == game
            &&& a2 matches PostGameAction::SaveGame { key, game: g } && key@ == game_key_view()
                && g == game
        }),
{
}

/// Once answered, a start-game request takes no further event, and a
/// request is answered with success only after the game was saved.
pub proof fn lemma_post_game_success_only_after_save(
    state: PostGameState,
    event: PostGameEvent,
    next: PostGameState,
    action: PostGameAction,
)
    requires
        post_game_step_spec(state, event, next, action),
        action matches PostGameAction::Reply(r) && r is Ok,
    ensures
        state is AwaitSave,
        event matches PostGameEvent::Saved(Ok(_)),
        next is Done,
        forall|e: PostGameEvent| !post_game_accepts(next, e),
{
}

} // verus!

verus! {

/// The phase a start-game request is in, counted down to its answer.
pub open spec fn post_game_phase(state: PostGameState) -> nat {
    match state {
        PostGameState::AwaitGame => 5,
        PostGameState::AwaitBuildings { .. } => 4,
        PostGameState::AwaitPlayers { .. } => 3,
        PostGameState::AwaitPlayerSave { .. } => 2,
        PostGameState::AwaitSave => 1,
        PostGameState::Done => 0,
    }
}

/// How many players are left to save.
pub open spec fn post_game_pending(state: PostGameState) -> int {
    match state {
        PostGameState::AwaitPlayerSave { records, next, .. } => records.len() - next,
        _ => 0,
    }
}

/// Every step brings a start-game request closer to its answer: it moves to
/// a later phase, or saves one more player. So it is answered after three
/// reads, one write per joined player and the write of the game.
pub proof fn lemma_post_game_progress(
    state: PostGameState,
    event: PostGameEvent,
    next: PostGameState,
    action: PostGameAction,
)
    requires
        post_game_step_spec(state, event, next, action),
        post_game_accepts(state, event),
    ensures
        post_game_phase(next) < post_game_phase(state) || (post_game_phase(next)
            == post_game_phase(state) && 0 <= post_game_pending(next) < post_game_pending(state)),
        next is Done <==> action is Reply,
{
}

} // verus!

verus! {

/// Starting the game with the players read changes only its phase, clock and
/// demo flag: the game saved after the players is in the task phase, at
/// round 0 with 180 on the timer, in demo play exactly when two players
/// joined or the stored game already was, and otherwise the stored game.
pub proof fn lemma_started_game_from_players(
    game: Game,
    players: Vec<Player>,
    next: PostGameState,
    action: PostGameAction,
)
    requires
        post_game_step_spec(
            PostGameState::AwaitPlayers { game },
            PostGameEvent::PlayersRead(Ok(players)),
            next,
            action,
        ),
        players.len() >= 2,
    ensures
        next matches PostGameState::AwaitPlayerSave { game: saved, .. } && {
            &&& saved.status == GameStatus::Tasks
            &&& saved.time == Some(Time { round: 0, timer: 180 })
            &&& saved.demo_play == (players.len() == 2 || game.demo_play)
            &&& players.len() != 2 ==> saved.demo_play == game.demo_play
            &&& saved.id == game.id
            &&& saved.corrupted_players == game.corrupted_players
            &&& saved.eliminated_players == game.eliminated_players
            &&& saved.win_result == game.win_result
        },
{
}

} // verus!
