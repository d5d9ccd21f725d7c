//! Joining the game. A player joins only while the game is in the lobby,
//! only if it is registered, and only once.

use vstd::prelude::*;
use crate::keys::{game_key, game_key_view, player_index_key, player_index_key_view, player_key, player_key_view};
use crate::model::{ApiError, Game, GameStatus, Player, StoreError};
use crate::post_game::{is_forbidden, is_internal, replies_err};

verus! {

/// Some player in `players` has the id `id`.
pub open spec fn has_player(players: Seq<Player>, id: Seq<char>) -> bool {
    exists|i: int| 0 <= i < players.len() && (#[trigger] players[i]).id@ == id
}

/// Where a join request stands.
pub enum PostPlayerState {
    /// The game was asked for, on behalf of `player_id`.
    AwaitGame { player_id: String },
    /// The game is in the lobby; the player was looked up.
    AwaitRegistered { game: Game, player_id: String },
    /// The player is registered; the players that joined were asked for.
    AwaitJoined { player_id: String, registered: Player, index_key: String },
    /// The player is being added to the index.
    AwaitAdd { registered: Player },
    /// The request was answered.
    Done,
}

/// What the host reports back.
pub enum PostPlayerEvent {
    GameRead(Result<Game, StoreError>),
    PlayerRead(Result<Player, StoreError>),
    JoinedRead(Result<Vec<Player>, StoreError>),
    Added(Result<(), StoreError>),
}

/// What the host is to do next.
pub enum PostPlayerAction {
    ReadGame { key: String },
    ReadPlayer { key: String },
    ReadJoined { index_key: String },
    /// Add `member` to the index `index_key`.
    AddToIndex { index_key: String, member: String },
    /// Answer with the registered player, or an error.
    Reply(Result<Player, ApiError>),
}

/// The event is the kind that the state waits for.
pub open spec fn post_player_accepts(state: PostPlayerState, event: PostPlayerEvent) -> bool {
    match state {
        PostPlayerState::AwaitGame { .. } => event is GameRead,
        PostPlayerState::AwaitRegistered { .. } => event is PlayerRead,
        PostPlayerState::AwaitJoined { .. } => event is JoinedRead,
        PostPlayerState::AwaitAdd { .. } => event is Added,
        PostPlayerState::Done => false,
    }
}

/// One step of a join request.
pub open spec fn post_player_step_spec(
    state: PostPlayerState,
    event: PostPlayerEvent,
    next: PostPlayerState,
    action: PostPlayerAction,
) -> bool {
    match (state, event) {
        (PostPlayerState::AwaitGame { player_id }, PostPlayerEvent::GameRead(Ok(game))) => {
            if game.status != GameStatus::Lobby {
                &&& next is Done
                &&& action matches PostPlayerAction::Reply(r) && replies_err(
                    r,
                    |e: ApiError| is_forbidden(e, "You cannot join a game while it is in session"@),
                )
            } else {
                &&& next == PostPlayerState::AwaitRegistered { game, player_id }
                &&& action matches PostPlayerAction::ReadPlayer { key } && key@ == player_key_view(
                    player_id@,
                )
            }
        },
        (PostPlayerState::AwaitGame { .. }, PostPlayerEvent::GameRead(Err(_))) => {
            &&& next is Done
            &&& action matches PostPlayerAction::Reply(r) && replies_err(
                r,
                |e: ApiError| is_internal(e, "unknown error"@),
            )
        },
        (
            PostPlayerState::AwaitRegistered { game, player_id },
            PostPlayerEvent::PlayerRead(Ok(registered)),
        ) => {
            &&& next matches PostPlayerState::AwaitJoined { player_id: id, registered: reg, index_key: k }
                && id == player_id && reg == registered && k@ == player_index_key_view(game.id@)
            &&& action matches PostPlayerAction::ReadJoined { index_key }
                && index_key@ == player_index_key_view(game.id@)
        },
        (PostPlayerState::AwaitRegistered { .. }, PostPlayerEvent::PlayerRead(Err(_))) => {
            &&& next is Done
            &&& action matches PostPlayerAction::Reply(r) && replies_err(
                r,
                |e: ApiError| is_forbidden(e, "player does not have a tonk"@),
            )
        },
        (
            PostPlayerState::AwaitJoined { player_id, registered, index_key },
            PostPlayerEvent::JoinedRead(Ok(joined)),
        ) => {
            if has_player(joined@, player_id@) {
                &&& next is Done
                &&& action matches PostPlayerAction::Reply(r) && replies_err(
                    r,
                    |e: ApiError| is_forbidden(e, "This player has already joined the game"@),
                )
            } else {
                &&& next == PostPlayerState::AwaitAdd { registered }
                &&& action matches PostPlayerAction::AddToIndex { index_key: k, member }
                    && k@ == index_key@ && member@ == player_key_view(player_id@)
            }
        },
        (PostPlayerState::AwaitJoined { .. }, PostPlayerEvent::JoinedRead(Err(_)))
        | (PostPlayerState::AwaitAdd { .. }, PostPlayerEvent::Added(Err(_))) => {
            &&& next is Done
            &&& action matches PostPlayerAction::Reply(r) && replies_err(
                r,
                |e: ApiError| is_internal(e, "There was an unknown error"@),
            )
        },
        (PostPlayerState::AwaitAdd { registered }, PostPlayerEvent::Added(Ok(()))) => {
            &&& next is Done
            &&& action == PostPlayerAction::Reply(Ok(registered))
        },
        _ => false,
    }
}

/// Whether some player in `players` has the id `id`.
pub fn find_player(players: &Vec<Player>, id: &String) -> (found: bool)
    ensures
        found == has_player(players@, id@),
{
    let mut found = false;
    for i in 0..players.len()
        invariant
            found == exists|j: int| 0 <= j < i && (#[trigger] players@[j]).id@ == id@,
    {
        if players[i].id == *id {
            found = true;
        }
    }
    found
}

/// Begins a request of `player` to join the game: the game is to be read.
pub fn post_player(player: Player) -> (r: (PostPlayerState, PostPlayerAction))
    ensures
        r.0 == (PostPlayerState::AwaitGame { player_id: player.id }),
        r.1 matches PostPlayerAction::ReadGame { key } && key@ == game_key_view(),
{
    (PostPlayerState::AwaitGame { player_id: player.id }, PostPlayerAction::ReadGame { key: game_key() })
}

/// Takes one step of a join request.
pub fn post_player_step(state: PostPlayerState, event: PostPlayerEvent) -> (r: (PostPlayerState, PostPlayerAction))
    requires
        post_player_accepts(state, event),
    ensures
        post_player_step_spec(state, event, r.0, r.1),
{
    match (state, event) {
        (PostPlayerState::AwaitGame { player_id }, PostPlayerEvent::GameRead(Ok(game))) => {
            if game.status != GameStatus::Lobby {
                (
                    PostPlayerState::Done,
                    PostPlayerAction::Reply(
                        Err(
                            ApiError::Forbidden(
                                String::from_str("You cannot join a game while it is in session"),
                            ),
                        ),
                    ),
                )
            } else {
                let key = player_key(player_id.as_str());
                (PostPlayerState::AwaitRegistered { game, player_id }, PostPlayerAction::ReadPlayer { key })
            }
        },
        (PostPlayerState::AwaitGame { .. }, PostPlayerEvent::GameRead(Err(_))) => {
            (
                PostPlayerState::Done,
                PostPlayerAction::Reply(Err(ApiError::Internal(String::from_str("unknown error")))),
            )
        },
        (
            PostPlayerState::AwaitRegistered { game, player_id },
            PostPlayerEvent::PlayerRead(Ok(registered)),
        ) => {
            let index_key = player_index_key(game.id.as_str());
            let read_key = player_index_key(game.id.as_str());
            (
                PostPlayerState::AwaitJoined { player_id, registered, index_key },
                PostPlayerAction::ReadJoined { index_key: read_key },
            )
        },
        (PostPlayerState::AwaitRegistered { .. }, PostPlayerEvent::PlayerRead(Err(_))) => {
            (
                PostPlayerState::Done,
                PostPlayerAction::Reply(
                    Err(ApiError::Forbidden(String::from_str("player does not have a tonk"))),
                ),
            )
        },
        (
            PostPlayerState::AwaitJoined { player_id, registered, index_key },
            PostPlayerEvent::JoinedRead(Ok(joined)),
        ) => {
            if find_player(&joined, &player_id) {
                (
                    PostPlayerState::Done,
                    PostPlayerAction::Reply(
                        Err(
                            ApiError::Forbidden(
                                String::from_str("This player has already joined the game"),
                            ),
                        ),
                    ),
                )
            } else {
                let member = player_key(player_id.as_str());
                (PostPlayerState::AwaitAdd { registered }, PostPlayerAction::AddToIndex { index_key, member })
            }
        },
        (PostPlayerState::AwaitAdd { registered }, PostPlayerEvent::Added(Ok(()))) => {
            (PostPlayerState::Done, PostPlayerAction::Reply(Ok(registered)))
        },
        _ => {
            (
                PostPlayerState::Done,
                PostPlayerAction::Reply(
                    Err(ApiError::Internal(String::from_str("There was an unknown error"))),
                ),
            )
        },
    }
}

} // verus!

verus! {

/// A join request adds a player to the index of the game only when the game
/// is in the lobby, the player is registered and no player with its id has
/// joined yet; it adds the player's key to the index of that game, and
/// answers with the registered player once the addition succeeded.
pub proof fn lemma_post_player_adds_only_new_players(
    player_id: String,
    game_read: Result<Game, StoreError>,
    player_read: Result<Player, StoreError>,
    joined_read: Result<Vec<Player>, StoreError>,
    added: Result<(), StoreError>,
    s1: PostPlayerState,
    a1: PostPlayerAction,
    s2: PostPlayerState,
    a2: PostPlayerAction,
    s3: PostPlayerState,
    a3: PostPlayerAction,
    s4: PostPlayerState,
    a4: PostPlayerAction,
)
    requires
        post_player_step_spec(
            PostPlayerState::AwaitGame { player_id },
            PostPlayerEvent::GameRead(game_read),
            s1,
            a1,
        ),
        post_player_step_spec(s1, PostPlayerEvent::PlayerRead(player_read), s2, a2),
        post_player_step_spec(s2, PostPlayerEvent::JoinedRead(joined_read), s3, a3),
        a3 is AddToIndex,
    ensures
        game_read matches Ok(game) && game.status == GameStatus::Lobby,
        player_read is Ok,
        joined_read matches Ok(joined) && !has_player(joined@, player_id@),
        a3 matches PostPlayerAction::AddToIndex { index_key, member } && index_key@
            == player_index_key_view(game_read->Ok_0.id@) && member@ == player_key_view(
            player_id@,
        ),
        post_player_step_spec(s3, PostPlayerEvent::Added(added), s4, a4) ==> (added is Ok
            <==> a4 == PostPlayerAction::Reply(Ok::<Player, ApiError>(player_read->Ok_0))),
{
    if post_player_step_spec(s3, PostPlayerEvent::Added(added), s4, a4) {
        if added is Err {
            assert(a4 matches PostPlayerAction::Reply(r) && r is Err);
        }
    }
}

} // verus!

verus! {

/// How many store operations a join request has left at most.
pub open spec fn post_player_remaining(state: PostPlayerState) -> nat {
    match state {
        PostPlayerState::AwaitGame { .. } => 4,
        PostPlayerState::AwaitRegistered { .. } => 3,
        PostPlayerState::AwaitJoined { .. } => 2,
        PostPlayerState::AwaitAdd { .. } => 1,
        PostPlayerState::Done => 0,
    }
}

/// Every step brings a join request closer to its answer, so it is answered
/// after at most four store operations.
pub proof fn lemma_post_player_progress(
    state: PostPlayerState,
    event: PostPlayerEvent,
    next: PostPlayerState,
    action: PostPlayerAction,
)
    requires
        post_player_step_spec(state, event, next, action),
    ensures
        post_player_remaining(next) < post_player_remaining(state),
        next is Done <==> action is Reply,
{
}

} // verus!
