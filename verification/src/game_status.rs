//! Reading the state of the game: the game itself, and the result of a round.

use vstd::prelude::*;
use crate::keys::{decimal, decimal_string, game_key, game_key_view, result_key, result_key_view};
use crate::model::{ApiError, Game, GameStatus, StoreError};
use crate::post_game::{is_internal, replies_err};

verus! {

/// The game that is shown when none is stored: no id, status `Null`, and
/// every other field empty.
pub open spec fn empty_game_view(g: Game) -> bool {
    &&& g.id@ == Seq::<char>::empty()
    &&& g.corrupted_players is None
    &&& g.status == GameStatus::Null
    &&& !g.demo_play
    &&& g.time is None
    &&& g.eliminated_players is None
    &&& g.win_result is None
}

/// The game that is shown when none is stored.
pub fn empty_game() -> (g: Game)
    ensures
        empty_game_view(g),
{
    Game {
        id: String::new(),
        corrupted_players: None,
        status: GameStatus::Null,
        demo_play: false,
        time: None,
        eliminated_players: None,
        win_result: None,
    }
}

/// The game to show, from the read of the stored game: the stored game, or
/// the empty game when it could not be read.
pub fn get_game(read: Result<Game, StoreError>) -> (g: Game)
    ensures
        read matches Ok(stored) ==> g == stored,
        read is Err ==> empty_game_view(g),
{
    match read {
        Ok(game) => game,
        Err(_) => empty_game(),
    }
}

/// Where a request for a round result stands.
pub enum ResultLookupState {
    /// The game was asked for; the round is `round` as the caller wrote it,
    /// or the current round of the game when `None`.
    AwaitGame { round: Option<String> },
    /// The result was asked for.
    AwaitResult,
    /// The request was answered.
    Done,
}

/// What the host reports back; `R` is the stored result.
pub enum ResultLookupEvent<R> {
    GameRead(Result<Game, StoreError>),
    ResultRead(Result<R, StoreError>),
}

/// What the host is to do next.
pub enum ResultLookupAction<R> {
    ReadGame { key: String },
    ReadResult { key: String },
    Reply(Result<R, ApiError>),
}

/// The event is the kind that the state waits for, and a game read for the
/// current round has a clock.
pub open spec fn result_lookup_accepts<R>(state: ResultLookupState, event: ResultLookupEvent<R>) -> bool {
    match state {
        ResultLookupState::AwaitGame { round } => {
            &&& event is GameRead
            &&& round is None ==> (event matches ResultLookupEvent::GameRead(Ok(g)) ==> g.time is Some)
        },
        ResultLookupState::AwaitResult => event is ResultRead,
        ResultLookupState::Done => false,
    }
}

/// The round part of the result key: the round as written, or the decimal
/// current round of the game.
pub open spec fn round_view(round: Option<String>, game: Game) -> Seq<char> {
    match round {
        Some(r) => r@,
        None => decimal(game.time.unwrap().round as nat),
    }
}

/// One step of a request for a round result.
pub open spec fn result_lookup_step_spec<R>(
    state: ResultLookupState,
    event: ResultLookupEvent<R>,
    next: ResultLookupState,
    action: ResultLookupAction<R>,
) -> bool {
    match (state, event) {
        (ResultLookupState::AwaitGame { round }, ResultLookupEvent::GameRead(Ok(game))) => {
            &&& next is AwaitResult
            &&& action matches ResultLookupAction::ReadResult { key } && key@ == result_key_view(
                game.id@,
                round_view(round, game),
            )
        },
        (ResultLookupState::AwaitResult, ResultLookupEvent::ResultRead(Ok(result))) => {
            &&& next is Done
            &&& action == ResultLookupAction::Reply(Ok::<R, ApiError>(result))
        },
        (ResultLookupState::AwaitGame { .. }, ResultLookupEvent::GameRead(Err(_)))
        | (ResultLookupState::AwaitResult, ResultLookupEvent::ResultRead(Err(_))) => {
            &&& next is Done
            &&& action matches ResultLookupAction::Reply(r) && replies_err(
                r,
                |e: ApiError| is_internal(e, "unknown error"@),
            )
        },
        _ => false,
    }
}

/// Begins a request for the result of the current round: the game is to be
/// read.
pub fn get_result<R>() -> (r: (ResultLookupState, ResultLookupAction<R>))
    ensures
        r.0 == (ResultLookupState::AwaitGame { round: None }),
        r.1 matches ResultLookupAction::ReadGame { key } && key@ == game_key_view(),
{
    (ResultLookupState::AwaitGame { round: None }, ResultLookupAction::ReadGame { key: game_key() })
}

/// Begins a request for the result of the round `round_num`, as the caller
/// wrote it: the game is to be read.
pub fn get_round_result<R>(round_num: String) -> (r: (ResultLookupState, ResultLookupAction<R>))
    ensures
        r.0 == (ResultLookupState::AwaitGame { round: Some(round_num) }),
        r.1 matches ResultLookupAction::ReadGame { key } && key@ == game_key_view(),
{
    (
        ResultLookupState::AwaitGame { round: Some(round_num) },
        ResultLookupAction::ReadGame { key: game_key() },
    )
}

/// Takes one step of a request for a round result.
pub fn result_lookup_step<R>(state: ResultLookupState, event: ResultLookupEvent<R>) -> (r: (
    ResultLookupState,
    ResultLookupAction<R>,
))
    requires
        result_lookup_accepts(state, event),
    ensures
        result_lookup_step_spec(state, event, r.0, r.1),
{
    match (state, event) {
        (ResultLookupState::AwaitGame { round }, ResultLookupEvent::GameRead(Ok(game))) => {
            let key = match round {
                Some(r) => result_key(game.id.as_str(), r.as_str()),
                None => {
                    let current = match game.time {
                        Some(t) => t.round,
                        None => 0,
                    };
                    let r = decimal_string(current);
                    result_key(game.id.as_str(), r.as_str())
                },
            };
            (ResultLookupState::AwaitResult, ResultLookupAction::ReadResult { key })
        },
        (ResultLookupState::AwaitResult, ResultLookupEvent::ResultRead(Ok(result))) => {
            (ResultLookupState::Done, ResultLookupAction::Reply(Ok(result)))
        },
        _ => {
            (
                ResultLookupState::Done,
                ResultLookupAction::Reply(Err(ApiError::Internal(String::from_str("unknown error")))),
            )
        },
    }
}

} // verus!

verus! {

/// How many store reads a request for a round result has left at most.
pub open spec fn result_lookup_remaining(state: ResultLookupState) -> nat {
    match state {
        ResultLookupState::AwaitGame { .. } => 2,
        ResultLookupState::AwaitResult => 1,
        ResultLookupState::Done => 0,
    }
}

/// Every step brings a request for a round result closer to its answer, so
/// it is answered after at most two store reads.
pub proof fn lemma_result_lookup_progress<R>(
    state: ResultLookupState,
    event: ResultLookupEvent<R>,
    next: ResultLookupState,
    action: ResultLookupAction<R>,
)
    requires
        result_lookup_step_spec(state, event, next, action),
    ensures
        result_lookup_remaining(next) < result_lookup_remaining(state),
        next is Done <==> action is Reply,
{
}

} // verus!

verus! {

/// The result read for a round is stored under "result:", the id of the
/// stored game, ":" and the round: the round as the caller wrote it, or the
/// game's current round in decimal. Nothing else of the game matters.
pub proof fn lemma_result_key_of_round<R>(
    round: Option<String>,
    game: Game,
    next: ResultLookupState,
    action: ResultLookupAction<R>,
)
    requires
        result_lookup_step_spec(
            ResultLookupState::AwaitGame { round },
            ResultLookupEvent::GameRead(Ok(game)),
            next,
            action,
        ),
    ensures
        next is AwaitResult,
        action matches ResultLookupAction::ReadResult { key } && key@ == "result:"@ + game.id@
            + ":"@ + (match round {
            Some(r) => r@,
            None => decimal(game.time.unwrap().round as nat),
        }),
{
}

/// Two games with the same id and round give the same result key, whatever
/// their other fields.
pub proof fn lemma_result_key_ignores_other_fields<R>(
    round: Option<String>,
    g1: Game,
    g2: Game,
    n1: ResultLookupState,
    a1: ResultLookupAction<R>,
    n2: ResultLookupState,
    a2: ResultLookupAction<R>,
)
    requires
        g1.id@ == g2.id@,
        round is None ==> g1.time.unwrap().round == g2.time.unwrap().round,
        result_lookup_step_spec(
            ResultLookupState::AwaitGame { round },
            ResultLookupEvent::GameRead(Ok(g1)),
            n1,
            a1,
        ),
        result_lookup_step_spec(
            ResultLookupState::AwaitGame { round },
            ResultLookupEvent::GameRead(Ok(g2)),
            n2,
            a2,
        ),
    ensures
        a1 matches ResultLookupAction::ReadResult { key: k1 } && a2 matches ResultLookupAction::ReadResult { key: k2 } && k1@ == k2@,
{
    lemma_result_key_of_round(round, g1, n1, a1);
    lemma_result_key_of_round(round, g2, n2, a2);
}

} // verus!
