//! Game-server logic of a social-deduction game: the data model, the keys
//! under which game data is stored, role assignment when a game starts, and
//! the decisions that each request handler makes between its store reads
//! and writes, written as state machines that a host loop drives.

pub mod game_players;
pub mod game_status;
pub mod keys;
pub mod model;
pub mod post_game;
pub mod post_player;
mod random;
pub mod roles;
pub mod sync_client;
