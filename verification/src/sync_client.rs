//! The sync service copies the players of the on-chain game into the store:
//! every node of the game state that carries both a player and a location
//! becomes a player record, stored under the player's key.

use vstd::prelude::*;
use crate::keys::{player_key, player_key_view};
use crate::model::StoreError;

verus! {

/// A tile location as its four coordinates, in decimal.
#[derive(Clone, Debug)]
pub struct Location(pub String, pub String, pub String, pub String);

/// A player as the sync service stores it: its id and where it stands.
#[derive(Clone, Debug)]
pub struct SyncedPlayer {
    pub id: String,
    pub location: Location,
}

/// A node of the on-chain game state: the id of the player it carries, if
/// any, and the coordinates of the tile it is located on, if any.
#[derive(Clone, Debug)]
pub struct StateNode {
    pub player_id: Option<String>,
    pub coords: Option<Vec<String>>,
}

/// The node carries both a player and a location.
pub open spec fn is_located_player(node: StateNode) -> bool {
    node.player_id is Some && node.coords is Some
}

/// The nodes that carry both a player and a location, in order.
pub open spec fn located_players(nodes: Seq<StateNode>) -> Seq<StateNode>
    decreases nodes.len(),
{
    if nodes.len() == 0 {
        Seq::empty()
    } else if is_located_player(nodes.last()) {
        located_players(nodes.drop_last()).push(nodes.last())
    } else {
        located_players(nodes.drop_last())
    }
}

/// The record of a node that carries a player and a location: the player's
/// id and the first four coordinates.
pub open spec fn synced_player_of(node: StateNode) -> SyncedPlayer {
    let c = node.coords.unwrap()@;
    SyncedPlayer {
        id: node.player_id.unwrap(),
        location: Location(c[0], c[1], c[2], c[3]),
    }
}

/// Every node that carries a player and a location has at least four
/// coordinates.
pub open spec fn coords_complete(nodes: Seq<StateNode>) -> bool {
    forall|i: int|
        0 <= i < nodes.len() && is_located_player(#[trigger] nodes[i]) ==> nodes[i].coords.unwrap().len()
            >= 4
}

/// The node carries a player and a location with fewer than four
/// coordinates.
pub open spec fn coords_short(node: StateNode) -> bool {
    is_located_player(node) && node.coords.unwrap().len() < 4
}

/// The nodes whose records are stored: all of them, or those before the
/// first node whose location is short of coordinates.
pub open spec fn processed_nodes(nodes: Seq<StateNode>, stop: Option<usize>) -> Seq<StateNode> {
    match stop {
        Some(k) => nodes.take(k as int),
        None => nodes,
    }
}

/// `records` are the records of the nodes that carry a player and a
/// location, in order, each under its player's key.
pub open spec fn records_of(records: Seq<(String, SyncedPlayer)>, nodes: Seq<StateNode>) -> bool {
    &&& records.len() == located_players(nodes).len()
    &&& forall|i: int|
        0 <= i < records.len() ==> {
            &&& (#[trigger] records[i]).1 == synced_player_of(located_players(nodes)[i])
            &&& records[i].0@ == player_key_view(records[i].1.id@)
        }
}

/// The player records to store for the nodes of the game state, each with
/// the key it goes under, in the order of the nodes. Processing stops at the
/// first node that carries a player and a location with fewer than four
/// coordinates; its index is returned with the records of the nodes before
/// it.
pub fn player_records(nodes: &Vec<StateNode>) -> (r: (Vec<(String, SyncedPlayer)>, Option<usize>))
    ensures
        r.1 matches Some(k) ==> k < nodes@.len() && coords_short(nodes@[k as int])
            && coords_complete(nodes@.take(k as int)),
        r.1 is None ==> coords_complete(nodes@),
        records_of(r.0@, processed_nodes(nodes@, r.1)),
        forall|i: int|
            0 <= i < r.0@.len() ==> {
                let node = located_players(processed_nodes(nodes@, r.1))[i];
                let c = node.coords.unwrap()@;
                &&& (#[trigger] r.0@[i]).1.id == node.player_id.unwrap()
                &&& r.0@[i].0@ == "player:"@ + node.player_id.unwrap()@
                &&& r.0@[i].1.location.0 == c[0]
                &&& r.0@[i].1.location.1 == c[1]
                &&& r.0@[i].1.location.2 == c[2]
                &&& r.0@[i].1.location.3 == c[3]
            },
{
    let mut records: Vec<(String, SyncedPlayer)> = Vec::new();
    let n = nodes.len();
    for i in 0..n
        invariant
            n == nodes.len(),
            coords_complete(nodes@.take(i as int)),
            records_of(records@, nodes@.take(i as int)),
    {
        proof {
            assert(nodes@.take(i + 1).drop_last() =~= nodes@.take(i as int));
            assert(nodes@.take(i + 1).last() == nodes@[i as int]);
        }
        let node = &nodes[i];
        match (&node.player_id, &node.coords) {
            (Some(id), Some(coords)) => {
                proof {
                    assert(is_located_player(nodes@[i as int]));
                }
                if coords.len() < 4 {
                    proof {
                        lemma_record_fields(records@, nodes@.take(i as int));
                    }
                    return (records, Some(i));
                }
                let location = Location(
                    coords[0].clone(),
                    coords[1].clone(),
                    coords[2].clone(),
                    coords[3].clone(),
                );
                let player = SyncedPlayer { id: id.clone(), location };
                let key = player_key(id.as_str());
                records.push((key, player));
            },
            _ => {},
        }
        proof {
            assert forall|j: int|
                0 <= j < nodes@.take(i + 1).len() && is_located_player(
                    #[trigger] nodes@.take(i + 1)[j],
                ) implies nodes@.take(i + 1)[j].coords.unwrap().len() >= 4 by {
                if j < i {
                    assert(nodes@.take(i + 1)[j] == nodes@.take(i as int)[j]);
                }
            }
        }
    }
    proof {
        assert(nodes@.take(n as int) =~= nodes@);
        lemma_record_fields(records@, nodes@);
    }
    (records, None)
}

impl SyncedPlayer {
    /// A copy of this record.
    pub fn duplicate(&self) -> (r: SyncedPlayer)
        ensures
            r == *self,
    {
        SyncedPlayer {
            id: self.id.clone(),
            location: Location(
                self.location.0.clone(),
                self.location.1.clone(),
                self.location.2.clone(),
                self.location.3.clone(),
            ),
        }
    }
}

/// Where the writes of the sync records stand: `next` is the record being
/// written, and `stop` the node at which processing fails after the last
/// record, if any.
pub struct SyncWrites {
    pub records: Vec<(String, SyncedPlayer)>,
    pub next: usize,
    pub stop: Option<usize>,
}

/// What the host is to do next.
pub enum SyncAction {
    /// Store `player` under `key`.
    Write { key: String, player: SyncedPlayer },
    /// Fail at the node `node`, whose location is short of coordinates.
    Abort { node: usize },
    /// Finish: every record was written, or a write failed with this error.
    Finish(Result<(), StoreError>),
}

/// What follows once the records before the `i`-th are written: the
/// `i`-th record's write, or, after the last record, the failure at `stop`
/// or the end.
pub open spec fn sync_action_at(
    records: Seq<(String, SyncedPlayer)>,
    i: int,
    stop: Option<usize>,
) -> SyncAction {
    if i < records.len() {
        SyncAction::Write { key: records[i].0, player: records[i].1 }
    } else {
        match stop {
            Some(k) => SyncAction::Abort { node: k },
            None => SyncAction::Finish(Ok(())),
        }
    }
}

fn action_at(records: &Vec<(String, SyncedPlayer)>, i: usize, stop: Option<usize>) -> (a: SyncAction)
    ensures
        a == sync_action_at(records@, i as int, stop),
{
    if i < records.len() {
        SyncAction::Write { key: records[i].0.clone(), player: records[i].1.duplicate() }
    } else {
        match stop {
            Some(k) => SyncAction::Abort { node: k },
            None => SyncAction::Finish(Ok(())),
        }
    }
}

/// Begins writing the records that `player_records` gave, with the node it
/// stopped at.
pub fn sync_writes(records: Vec<(String, SyncedPlayer)>, stop: Option<usize>) -> (r: (SyncWrites, SyncAction))
    ensures
        r.0 == (SyncWrites { records, next: 0, stop }),
        r.1 == sync_action_at(records@, 0, stop),
{
    let action = action_at(&records, 0, stop);
    (SyncWrites { records, next: 0, stop }, action)
}

/// Takes the result of writing the record at `state.next`: a failed write
/// ends the writes with its error; otherwise the next record follows.
pub fn sync_writes_step(state: SyncWrites, written: Result<(), StoreError>) -> (r: (SyncWrites, SyncAction))
    requires
        state.next < state.records.len(),
    ensures
        written matches Err(e) ==> r.1 == SyncAction::Finish(Err(e)) && r.0 == (SyncWrites {
            records: state.records,
            next: state.records.len(),
            stop: state.stop,
        }),
        written is Ok ==> r.0 == (SyncWrites {
            records: state.records,
            next: (state.next + 1) as usize,
            stop: state.stop,
        }) && r.1 == sync_action_at(state.records@, state.next + 1, state.stop),
{
    match written {
        Err(e) => {
            let len = state.records.len();
            (SyncWrites { records: state.records, next: len, stop: state.stop }, SyncAction::Finish(Err(e)))
        },
        Ok(()) => {
            let next = state.next + 1;
            let action = action_at(&state.records, next, state.stop);
            (SyncWrites { records: state.records, next, stop: state.stop }, action)
        },
    }
}

} // verus!

verus! {

/// The nodes kept for records all carry a player and a location, and each is
/// a node of the game state, kept in order.
pub proof fn lemma_located_players_are_nodes(nodes: Seq<StateNode>)
    ensures
        located_players(nodes).len() <= nodes.len(),
        forall|i: int|
            0 <= i < located_players(nodes).len() ==> is_located_player(
                #[trigger] located_players(nodes)[i],
            ) && nodes.contains(located_players(nodes)[i]),
    decreases nodes.len(),
{
    if nodes.len() > 0 {
        let rest = nodes.drop_last();
        lemma_located_players_are_nodes(rest);
        assert forall|i: int| 0 <= i < located_players(nodes).len() implies is_located_player(
            #[trigger] located_players(nodes)[i],
        ) && nodes.contains(located_players(nodes)[i]) by {
            if i < located_players(rest).len() {
                assert(located_players(nodes)[i] == located_players(rest)[i]);
                let j = choose|j: int| 0 <= j < rest.len() && rest[j] == located_players(rest)[i];
                assert(nodes[j] == rest[j]);
            } else {
                assert(nodes[nodes.len() - 1] == nodes.last());
            }
        }
    }
}

/// Each record is stored under the key of its node's player and holds that
/// player's id and, in order, the node's first four coordinates.
pub proof fn lemma_record_fields(records: Seq<(String, SyncedPlayer)>, nodes: Seq<StateNode>)
    requires
        records_of(records, nodes),
    ensures
        forall|i: int|
            0 <= i < records.len() ==> {
                let node = located_players(nodes)[i];
                let c = node.coords.unwrap()@;
                &&& (#[trigger] records[i]).1.id == node.player_id.unwrap()
                &&& records[i].0@ == "player:"@ + node.player_id.unwrap()@
                &&& records[i].1.location.0 == c[0]
                &&& records[i].1.location.1 == c[1]
                &&& records[i].1.location.2 == c[2]
                &&& records[i].1.location.3 == c[3]
            },
{
}

} // verus!
