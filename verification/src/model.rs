//! The data model shared by the game server and the sync service.

use vstd::prelude::*;

verus! {

/// The secret role of a player.
#[derive(PartialEq, Eq, Structural, Clone, Copy, Debug)]
pub enum Role {
    Normal,
    Bugged,
}

/// The phase a game is in.
#[derive(PartialEq, Eq, Structural, Clone, Copy, Debug)]
pub enum GameStatus {
    /// No game has been created.
    Null,
    /// Players may join.
    Lobby,
    /// The game has started and players work on their tasks.
    Tasks,
}

/// The round clock of a running game.
#[derive(PartialEq, Eq, Structural, Clone, Copy, Debug)]
pub struct Time {
    pub round: u32,
    pub timer: u32,
}

/// A player as stored by the game server.
#[derive(Clone, Debug)]
pub struct Player {
    pub id: String,
    pub mobile_unit_id: Option<String>,
    pub display_name: Option<String>,
    pub role: Option<Role>,
    pub proximity: Option<u64>,
    pub used_action: Option<bool>,
    pub last_round_action: Option<u32>,
    pub secret_key: Option<String>,
    pub eliminated: Option<bool>,
}

/// The single game the server runs.
#[derive(Clone, Debug)]
pub struct Game {
    pub id: String,
    pub corrupted_players: Option<Vec<String>>,
    pub status: GameStatus,
    pub demo_play: bool,
    pub time: Option<Time>,
    pub eliminated_players: Option<Vec<String>>,
    pub win_result: Option<Role>,
}

/// A building registered on the map.
#[derive(Clone, Debug)]
pub struct Building {
    pub id: String,
    pub is_tower: bool,
}

/// The query string of a request for the players of a game.
#[derive(Clone, Debug)]
pub struct PlayerQuery {
    pub player_id: String,
}

/// Why a read from or a write to the store failed.
#[derive(Clone, Debug)]
pub enum StoreError {
    /// Nothing is stored under the key.
    MissingKey,
    /// Any other failure, with its description.
    Failure(String),
}

/// The error a request handler answers with.
#[derive(Clone, Debug)]
pub enum ApiError {
    /// 403, with its message.
    Forbidden(String),
    /// 500, with its message.
    Internal(String),
    /// 500, whose message is the description of a store error.
    Store(StoreError),
}

impl Player {
    /// This player with its role replaced.
    pub open spec fn with_role(self, role: Option<Role>) -> Player {
        Player { role: role, ..self }
    }

    /// Whether this player holds the bugged role.
    pub open spec fn is_bugged(self) -> bool {
        self.role == Some(Role::Bugged)
    }
}

/// A copy of an optional string.
pub fn copy_opt_string(s: &Option<String>) -> (r: Option<String>)
    ensures
        r == *s,
{
    match s {
        Some(v) => Some(v.clone()),
        None => None,
    }
}

} // verus!
