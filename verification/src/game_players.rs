//! Listing the players of the game. Roles stay hidden unless the player who
//! asks is bugged, and fields private to a player are always cleared.

use vstd::prelude::*;
use crate::keys::{game_key, game_key_view, player_index_key, player_index_key_view, player_key, player_key_view};
use crate::model::{ApiError, Game, Player, PlayerQuery, Role, StoreError, copy_opt_string};
use crate::post_game::{is_internal, replies_err};

verus! {

/// What others may see of `p`: its id, mobile unit and display name, and its
/// role only when `show_role` holds.
pub open spec fn sanitized(p: Player, show_role: bool) -> Player {
    Player {
        id: p.id,
        mobile_unit_id: p.mobile_unit_id,
        display_name: p.display_name,
        role: if show_role { p.role } else { None },
        proximity: None,
        used_action: None,
        last_round_action: None,
        secret_key: None,
        eliminated: None,
    }
}

/// What others may see of each of `players`, in order.
pub open spec fn shown_players(players: Seq<Player>, show_role: bool) -> Seq<Player> {
    players.map_values(|p: Player| sanitized(p, show_role))
}

/// What others may see of each player, in order.
pub fn sanitize_players(players: &Vec<Player>, show_role: bool) -> (r: Vec<Player>)
    ensures
        r@ == players@.map_values(|p: Player| sanitized(p, show_role)),
        r@.len() == players@.len(),
        forall|k: int|
            0 <= k < r@.len() ==> {
                &&& (#[trigger] r@[k]).id == players@[k].id
                &&& r@[k].mobile_unit_id == players@[k].mobile_unit_id
                &&& r@[k].display_name == players@[k].display_name
                &&& r@[k].role == (if show_role { players@[k].role } else { None })
                &&& r@[k].proximity is None && r@[k].used_action is None
                &&& r@[k].last_round_action is None && r@[k].secret_key is None
                &&& r@[k].eliminated is None
            },
{
    let mut out: Vec<Player> = Vec::new();
    for i in 0..players.len()
        invariant
            out.len() == i,
            forall|j: int| 0 <= j < i ==> #[trigger] out@[j] == sanitized(players@[j], show_role),
    {
        let p = &players[i];
        let role = if show_role { p.role } else { None };
        out.push(Player {
            id: p.id.clone(),
            mobile_unit_id: copy_opt_string(&p.mobile_unit_id),
            display_name: copy_opt_string(&p.display_name),
            role,
            proximity: None,
            used_action: None,
            last_round_action: None,
            secret_key: None,
            eliminated: None,
        });
    }
    assert(out@ =~= players@.map_values(|p: Player| sanitized(p, show_role)));
    out
}

/// Sanitizing twice shows no more than sanitizing once.
pub proof fn lemma_sanitize_idempotent(players: Seq<Player>, show_role: bool)
    ensures
        players.map_values(|p: Player| sanitized(p, show_role)).map_values(
            |p: Player| sanitized(p, show_role),
        ) == players.map_values(|p: Player| sanitized(p, show_role)),
{
    assert(players.map_values(|p: Player| sanitized(p, show_role)).map_values(
        |p: Player| sanitized(p, show_role),
    ) =~= players.map_values(|p: Player| sanitized(p, show_role)));
}

/// Whether the player who asks sees roles, from the lookup of that player:
/// it does when it is stored with the bugged role, does not when it is
/// stored otherwise or not stored at all, and any other failure of the
/// lookup gives no answer.
pub open spec fn show_role_for(lookup: Result<Player, StoreError>) -> Option<bool> {
    match lookup {
        Ok(p) => Some(p.role == Some(Role::Bugged)),
        Err(StoreError::MissingKey) => Some(false),
        Err(StoreError::Failure(_)) => None,
    }
}

/// Where a request for the players of the game stands.
pub enum GetGamePlayersState {
    /// The game was asked for, on behalf of `player_id`.
    AwaitGame { player_id: String },
    /// The player who asks was looked up.
    AwaitPlayer { game: Game },
    /// The players of the game were asked for.
    AwaitPlayers { show_role: bool },
    /// The request was answered.
    Done,
}

/// What the host reports back.
pub enum GetGamePlayersEvent {
    GameRead(Result<Game, StoreError>),
    PlayerRead(Result<Player, StoreError>),
    PlayersRead(Result<Vec<Player>, StoreError>),
}

/// What the host is to do next.
pub enum GetGamePlayersAction {
    ReadGame { key: String },
    ReadPlayer { key: String },
    ReadPlayers { index_key: String },
    Reply(Result<Vec<Player>, ApiError>),
}

/// The event is the kind that the state waits for.
pub open spec fn get_game_players_accepts(state: GetGamePlayersState, event: GetGamePlayersEvent) -> bool {
    match state {
        GetGamePlayersState::AwaitGame { .. } => event is GameRead,
        GetGamePlayersState::AwaitPlayer { .. } => event is PlayerRead,
        GetGamePlayersState::AwaitPlayers { .. } => event is PlayersRead,
        GetGamePlayersState::Done => false,
    }
}

/// One step of a request for the players of the game.
pub open spec fn get_game_players_step_spec(
    state: GetGamePlayersState,
    event: GetGamePlayersEvent,
    next: GetGamePlayersState,
    action: GetGamePlayersAction,
) -> bool {
    match (state, event) {
        (GetGamePlayersState::AwaitGame { player_id }, GetGamePlayersEvent::GameRead(Ok(game))) => {
            &&& next == GetGamePlayersState::AwaitPlayer { game }
            &&& action matches GetGamePlayersAction::ReadPlayer { key } && key@ == player_key_view(
                player_id@,
            )
        },
        (GetGamePlayersState::AwaitPlayer { game }, GetGamePlayersEvent::PlayerRead(lookup)) => {
            match show_role_for(lookup) {
                Some(show_role) => {
                    &&& next == GetGamePlayersState::AwaitPlayers { show_role }
                    &&& action matches GetGamePlayersAction::ReadPlayers { index_key }
                        && index_key@ == player_index_key_view(game.id@)
                },
                None => {
                    &&& next is Done
                    &&& action matches GetGamePlayersAction::Reply(r) && replies_err(
                        r,
                        |e: ApiError| is_internal(e, "unknown error"@),
                    )
                },
            }
        },
        (
            GetGamePlayersState::AwaitPlayers { show_role },
            GetGamePlayersEvent::PlayersRead(Ok(players)),
        ) => {
            &&& next is Done
            &&& action matches GetGamePlayersAction::Reply(r) && r matches Ok(shown) && shown@
                == players@.map_values(|p: Player| sanitized(p, show_role))
        },
        (GetGamePlayersState::AwaitGame { .. }, GetGamePlayersEvent::GameRead(Err(_)))
        | (GetGamePlayersState::AwaitPlayers { .. }, GetGamePlayersEvent::PlayersRead(Err(_))) => {
            &&& next is Done
            &&& action matches GetGamePlayersAction::Reply(r) && replies_err(
                r,
                |e: ApiError| is_internal(e, "unknown error"@),
            )
        },
        _ => false,
    }
}

/// Begins a request for the players of the game, made by the player that
/// `query` names: the game is to be read.
pub fn get_game_players(query: PlayerQuery) -> (r: (GetGamePlayersState, GetGamePlayersAction))
    ensures
        r.0 == (GetGamePlayersState::AwaitGame { player_id: query.player_id }),
        r.1 matches GetGamePlayersAction::ReadGame { key } && key@ == game_key_view(),
{
    (
        GetGamePlayersState::AwaitGame { player_id: query.player_id },
        GetGamePlayersAction::ReadGame { key: game_key() },
    )
}

/// Takes one step of a request for the players of the game.
pub fn get_game_players_step(state: GetGamePlayersState, event: GetGamePlayersEvent) -> (r: (
    GetGamePlayersState,
    GetGamePlayersAction,
))
    requires
        get_game_players_accepts(state, event),
    ensures
        get_game_players_step_spec(state, event, r.0, r.1),
{
    match (state, event) {
        (GetGamePlayersState::AwaitGame { player_id }, GetGamePlayersEvent::GameRead(Ok(game))) => {
            let key = player_key(player_id.as_str());
            (GetGamePlayersState::AwaitPlayer { game }, GetGamePlayersAction::ReadPlayer { key })
        },
        (GetGamePlayersState::AwaitPlayer { game }, GetGamePlayersEvent::PlayerRead(lookup)) => {
            let show_role = match lookup {
                Ok(player) => {
                    match player.role {
                        Some(Role::Bugged) => true,
                        _ => false,
                    }
                },
                Err(StoreError::MissingKey) => false,
                Err(StoreError::Failure(_)) => {
                    return (
                        GetGamePlayersState::Done,
                        GetGamePlayersAction::Reply(
                            Err(ApiError::Internal(String::from_str("unknown error"))),
                        ),
                    );
                },
            };
            let index_key = player_index_key(game.id.as_str());
            (
                GetGamePlayersState::AwaitPlayers { show_role },
                GetGamePlayersAction::ReadPlayers { index_key },
            )
        },
        (
            GetGamePlayersState::AwaitPlayers { show_role },
            GetGamePlayersEvent::PlayersRead(Ok(players)),
        ) => {
            let shown = sanitize_players(&players, show_role);
            (GetGamePlayersState::Done, GetGamePlayersAction::Reply(Ok(shown)))
        },
        _ => {
            (
                GetGamePlayersState::Done,
                GetGamePlayersAction::Reply(
                    Err(ApiError::Internal(String::from_str("unknown error"))),
                ),
            )
        },
    }
}

} // verus!

verus! {

/// A player sees the roles of the players of the game only if it is stored
/// with the bugged role; then it sees each player's stored role.
pub proof fn lemma_roles_shown_only_to_bugged(
    query: PlayerQuery,
    game_read: Result<Game, StoreError>,
    player_read: Result<Player, StoreError>,
    players_read: Result<Vec<Player>, StoreError>,
    s1: GetGamePlayersState,
    a1: GetGamePlayersAction,
    s2: GetGamePlayersState,
    a2: GetGamePlayersAction,
    s3: GetGamePlayersState,
    a3: GetGamePlayersAction,
)
    requires
        get_game_players_step_spec(
            GetGamePlayersState::AwaitGame { player_id: query.player_id },
            GetGamePlayersEvent::GameRead(game_read),
            s1,
            a1,
        ),
        get_game_players_step_spec(s1, GetGamePlayersEvent::PlayerRead(player_read), s2, a2),
        get_game_players_step_spec(s2, GetGamePlayersEvent::PlayersRead(players_read), s3, a3),
        a3 matches GetGamePlayersAction::Reply(r) && r is Ok,
    ensures
        a2 matches GetGamePlayersAction::ReadPlayers { index_key } && game_read matches Ok(game)
            && index_key@ == player_index_key_view(game.id@),
        a1 matches GetGamePlayersAction::ReadPlayer { key } && key@ == player_key_view(
            query.player_id@,
        ),
        players_read is Ok,
        ({
            let shown = a3->Reply_0->Ok_0@;
            let stored = players_read->Ok_0@;
            &&& shown.len() == stored.len()
            &&& forall|k: int|
                0 <= k < shown.len() ==> (#[trigger] shown[k]).id == stored[k].id && (if player_read
                    matches Ok(p) && p.role == Some(Role::Bugged) {
                    shown[k].role == stored[k].role
                } else {
                    shown[k].role is None
                })
        }),
{
}

} // verus!

verus! {

/// How many store reads a request for the players has left at most.
pub open spec fn get_game_players_remaining(state: GetGamePlayersState) -> nat {
    match state {
        GetGamePlayersState::AwaitGame { .. } => 3,
        GetGamePlayersState::AwaitPlayer { .. } => 2,
        GetGamePlayersState::AwaitPlayers { .. } => 1,
        GetGamePlayersState::Done => 0,
    }
}

/// Every step brings a request for the players closer to its answer, so it
/// is answered after at most three store reads.
pub proof fn lemma_get_game_players_progress(
    state: GetGamePlayersState,
    event: GetGamePlayersEvent,
    next: GetGamePlayersState,
    action: GetGamePlayersAction,
)
    requires
        get_game_players_step_spec(state, event, next, action),
    ensures
        get_game_players_remaining(next) < get_game_players_remaining(state),
        next is Done <==> action is Reply,
{
}

} // verus!

verus! {

/// What a listing shows of each player: its id, mobile unit and display name
/// whether roles are shown or not, its stored role exactly when roles are
/// shown, and none of its private fields; listing keeps the order and the
/// number of players.
pub proof fn lemma_sanitized_fields(players: Seq<Player>, show_role: bool)
    ensures
        shown_players(players, show_role).len() == players.len(),
        forall|k: int|
            0 <= k < players.len() ==> {
                let shown = #[trigger] shown_players(players, show_role)[k];
                &&& shown.id == players[k].id
                &&& shown.mobile_unit_id == players[k].mobile_unit_id
                &&& shown.display_name == players[k].display_name
                &&& shown.role == (if show_role { players[k].role } else { None })
                &&& shown.proximity is None && shown.used_action is None
                &&& shown.last_round_action is None && shown.secret_key is None
                &&& shown.eliminated is None
            },
{
}

/// Whether roles are shown changes nothing but the roles of a listing.
pub proof fn lemma_show_role_changes_only_roles(players: Seq<Player>)
    ensures
        forall|k: int|
            0 <= k < players.len() ==> (#[trigger] shown_players(players, true)[k]).with_role(None) == shown_players(
                players,
                false,
            )[k],
{
}

} // verus!
