//! Role assignment when a game starts: each player draws whether to become
//! bugged, the draws are honoured up to a quarter of the players, and if no
//! player ends up bugged one player picked at random becomes bugged.

use vstd::prelude::*;
use crate::model::{Player, Role};

verus! {

/// The number of bugged players in `s`.
pub open spec fn bug_count(s: Seq<Player>) -> nat
    decreases s.len(),
{
    if s.len() == 0 {
        0
    } else {
        bug_count(s.drop_last()) + if s.last().is_bugged() { 1nat } else { 0nat }
    }
}

/// The most players that the draws may turn bugged: a quarter of the
/// players, rounded down.
pub open spec fn max_bugs(num_players: nat) -> nat {
    num_players / 4
}

/// The roles that the draws give, player by player in order: a player whose
/// draw is `true` becomes bugged while fewer than `max` players before it
/// did; every other player becomes normal.
pub open spec fn assign_roles_spec(players: Seq<Player>, draws: Seq<bool>, max: nat) -> Seq<Player>
    decreases players.len(),
{
    if players.len() == 0 {
        Seq::empty()
    } else {
        let prev = assign_roles_spec(players.drop_last(), draws.drop_last(), max);
        let bugged = draws.last() && bug_count(prev) < max;
        prev.push(
            players.last().with_role(Some(if bugged { Role::Bugged } else { Role::Normal })),
        )
    }
}

/// `result` is what starting a game gives `players` once the draws are
/// `draws`: the roles that the draws give, or, where these make no player
/// bugged, a reordering of them in which one player became bugged.
pub open spec fn completes_assignment(players: Seq<Player>, draws: Seq<bool>, result: Seq<Player>) -> bool {
    let a = assign_roles_spec(players, draws, max_bugs(players.len()));
    if bug_count(a) > 0 {
        result == a
    } else {
        exists|j: int|
            0 <= j < a.len() && result.to_multiset() == #[trigger] a.update(
                j,
                a[j].with_role(Some(Role::Bugged)),
            ).to_multiset()
    }
}

/// `result` is a role assignment for `players` that some draws give.
pub open spec fn valid_assignment(players: Seq<Player>, result: Seq<Player>) -> bool {
    exists|draws: Seq<bool>|
        draws.len() == players.len() && #[trigger] completes_assignment(players, draws, result)
}

impl Player {
    /// A copy of this player.
    pub fn duplicate(&self) -> (r: Player)
        ensures
            r == *self,
    {
        Player {
            id: self.id.clone(),
            mobile_unit_id: crate::model::copy_opt_string(&self.mobile_unit_id),
            display_name: crate::model::copy_opt_string(&self.display_name),
            role: self.role,
            proximity: self.proximity,
            used_action: self.used_action,
            last_round_action: self.last_round_action,
            secret_key: crate::model::copy_opt_string(&self.secret_key),
            eliminated: self.eliminated,
        }
    }
}

/// The most players that may be bugged among `num_players`.
pub fn max_bugs_for(num_players: usize) -> (m: usize)
    ensures
        m == max_bugs(num_players as nat),
{
    num_players / 4
}

/// The roles that `draws` give `players`, with the number of bugged players.
pub fn assign_roles(players: &Vec<Player>, draws: &Vec<bool>, max: usize) -> (r: (Vec<Player>, usize))
    requires
        draws.len() == players.len(),
    ensures
        r.0@ == assign_roles_spec(players@, draws@, max as nat),
        r.1 == bug_count(r.0@),
{
    let mut out: Vec<Player> = Vec::new();
    let mut num_bugs: usize = 0;
    let n = players.len();
    for i in 0..n
        invariant
            n == players.len(),
            draws.len() == players.len(),
            out@ == assign_roles_spec(players@.take(i as int), draws@.take(i as int), max as nat),
            num_bugs == bug_count(out@),
            num_bugs <= i,
    {
        proof {
            assert(players@.take(i + 1).drop_last() =~= players@.take(i as int));
            assert(draws@.take(i + 1).drop_last() =~= draws@.take(i as int));
        }
        let mut p = players[i].duplicate();
        if draws[i] && max > num_bugs {
            num_bugs = num_bugs + 1;
            p.role = Some(Role::Bugged);
        } else {
            p.role = Some(Role::Normal);
        }
        proof {
            assert(out@.push(p).drop_last() =~= out@);
        }
        out.push(p);
    }
    proof {
        assert(players@.take(n as int) =~= players@);
        assert(draws@.take(n as int) =~= draws@);
    }
    (out, num_bugs)
}

/// What the draws give: as many players as there are, each the input player
/// with a role, and no more bugged players than `max`.
pub proof fn lemma_assign_roles_shape(players: Seq<Player>, draws: Seq<bool>, max: nat)
    requires
        draws.len() == players.len(),
    ensures
        assign_roles_spec(players, draws, max).len() == players.len(),
        forall|i: int|
            0 <= i < players.len() ==> {
                let a = #[trigger] assign_roles_spec(players, draws, max)[i];
                &&& a == players[i].with_role(a.role)
                &&& a.role is Some
            },
        bug_count(assign_roles_spec(players, draws, max)) <= max,
    decreases players.len(),
{
    if players.len() > 0 {
        lemma_assign_roles_shape(players.drop_last(), draws.drop_last(), max);
        let a = assign_roles_spec(players, draws, max);
        let prev = assign_roles_spec(players.drop_last(), draws.drop_last(), max);
        assert(a.drop_last() =~= prev);
        assert forall|i: int| 0 <= i < players.len() implies {
            let x = #[trigger] assign_roles_spec(players, draws, max)[i];
            &&& x == players[i].with_role(x.role)
            &&& x.role is Some
        } by {
            if i < players.len() - 1 {
                assert(a[i] == prev[i]);
                assert(players.drop_last()[i] == players[i]);
            }
        }
    }
}

/// The players with their roles cleared.
pub open spec fn without_roles(s: Seq<Player>) -> Seq<Player> {
    s.map_values(|p: Player| p.with_role(None))
}

/// Reordering players reorders them with their roles cleared alike.
pub proof fn lemma_without_roles_permutation(s1: Seq<Player>, s2: Seq<Player>)
    requires
        s1.to_multiset() == s2.to_multiset(),
    ensures
        without_roles(s1).to_multiset() == without_roles(s2).to_multiset(),
    decreases s1.len(),
{
    broadcast use vstd::seq_lib::group_to_multiset_ensures;
    broadcast use vstd::multiset::group_multiset_axioms;

    if s1.len() == 0 {
        assert(s2.to_multiset().len() == 0);
        assert(without_roles(s1) =~= without_roles(s2));
    } else {
        let x = s1.last();
        let rest = s1.drop_last();
        assert(s1 =~= rest.push(x));
        assert(s1.to_multiset() =~= rest.to_multiset().insert(x));
        assert(s2.to_multiset().count(x) > 0);
        assert(s2.contains(x));
        let j = choose|j: int| 0 <= j < s2.len() && s2[j] == x;
        assert(s2.remove(j).to_multiset() =~= s2.to_multiset().remove(x));
        assert(rest.to_multiset().insert(x).remove(x) =~= rest.to_multiset());
        lemma_without_roles_permutation(rest, s2.remove(j));
        let fx = x.with_role(None);
        assert(without_roles(s1) =~= without_roles(rest).push(fx));
        assert(without_roles(s2).remove(j) =~= without_roles(s2.remove(j)));
        assert(without_roles(s2)[j] == fx);
        assert(without_roles(s2).contains(fx));
        let m = without_roles(s2).to_multiset();
        assert(m.remove(fx).insert(fx) =~= m);
    }
}

/// Taking one player out of a sequence lowers its bug count by one exactly
/// when that player is bugged.
pub proof fn lemma_bug_count_remove(s: Seq<Player>, i: int)
    requires
        0 <= i < s.len(),
    ensures
        bug_count(s) == bug_count(s.remove(i)) + if s[i].is_bugged() { 1nat } else { 0nat },
    decreases s.len(),
{
    if i == s.len() - 1 {
        assert(s.remove(i) =~= s.drop_last());
    } else {
        lemma_bug_count_remove(s.drop_last(), i);
        assert(s.remove(i).drop_last() =~= s.drop_last().remove(i));
        assert(s.remove(i).last() == s.last());
    }
}

/// Reordering players keeps their bug count.
pub proof fn lemma_bug_count_permutation(s1: Seq<Player>, s2: Seq<Player>)
    requires
        s1.to_multiset() == s2.to_multiset(),
    ensures
        bug_count(s1) == bug_count(s2),
    decreases s1.len(),
{
    broadcast use vstd::seq_lib::group_to_multiset_ensures;
    broadcast use vstd::multiset::group_multiset_axioms;

    if s1.len() == 0 {
        assert(s2.to_multiset().len() == 0);
    } else {
        let x = s1.last();
        let rest = s1.drop_last();
        assert(s1 =~= rest.push(x));
        assert(s1.to_multiset() =~= rest.to_multiset().insert(x));
        assert(s2.to_multiset().count(x) > 0);
        assert(s2.contains(x));
        let j = choose|j: int| 0 <= j < s2.len() && s2[j] == x;
        assert(s2.remove(j).to_multiset() =~= s2.to_multiset().remove(x));
        assert(rest.to_multiset().insert(x).remove(x) =~= rest.to_multiset());
        lemma_bug_count_permutation(rest, s2.remove(j));
        lemma_bug_count_remove(s2, j);
    }
}

/// Replacing one player changes the bug count by what the two players add.
pub proof fn lemma_bug_count_update(s: Seq<Player>, j: int, x: Player)
    requires
        0 <= j < s.len(),
    ensures
        bug_count(s.update(j, x)) + (if s[j].is_bugged() { 1nat } else { 0nat }) == bug_count(s)
            + if x.is_bugged() { 1nat } else { 0nat },
{
    lemma_bug_count_remove(s, j);
    lemma_bug_count_remove(s.update(j, x), j);
    assert(s.update(j, x).remove(j) =~= s.remove(j));
}

/// The multiset of a sequence after one element is replaced.
pub proof fn lemma_update_to_multiset(s: Seq<Player>, j: int, x: Player)
    requires
        0 <= j < s.len(),
    ensures
        s.update(j, x).to_multiset() =~= s.to_multiset().remove(s[j]).insert(x),
{
    broadcast use vstd::seq_lib::group_to_multiset_ensures;
    broadcast use vstd::multiset::group_multiset_axioms;

    let u = s.update(j, x);
    assert(u.remove(j) =~= s.remove(j));
    assert(u[j] == x);
    assert(u.to_multiset().count(x) > 0) by {
        assert(u.contains(x));
    }
    let m = u.to_multiset();
    assert(m.remove(x).insert(x) =~= m);
}

} // verus!

verus! {

/// Makes the first player bugged.
pub fn make_first_bugged(players: &mut Vec<Player>)
    requires
        old(players).len() >= 1,
    ensures
        final(players)@ == old(players)@.update(0, old(players)@[0].with_role(Some(Role::Bugged))),
{
    let mut first = players[0].duplicate();
    first.role = Some(Role::Bugged);
    players.set(0, first);
}

/// Draws the roles of `players` at the start of a game: each player draws
/// bugged with chance one in four, the draws are honoured in order up to a
/// quarter of the players (rounded down), and if no player ends up bugged the
/// players are shuffled, the first one becomes bugged and they are shuffled
/// again.
pub fn draw_roles(players: &Vec<Player>) -> (r: Vec<Player>)
    requires
        players.len() >= 1,
    ensures
        valid_assignment(players@, r@),
{
    broadcast use vstd::seq_lib::group_to_multiset_ensures;

    let n = players.len();
    let max = max_bugs_for(n);
    let mut rng = crate::random::thread_rng();
    let mut draws: Vec<bool> = Vec::new();
    for i in 0..n
        invariant
            draws.len() == i,
    {
        let d = crate::random::gen_ratio(&mut rng, 1, 4);
        draws.push(d);
    }
    let (mut assigned, num_bugs) = assign_roles(players, &draws, max);
    let ghost a = assigned@;
    if num_bugs == 0 {
        crate::random::shuffle(&mut rng, &mut assigned);
        let ghost s1 = assigned@;
        proof {
            assert(s1.len() == a.len()) by {
                assert(s1.to_multiset().len() == a.to_multiset().len());
            }
        }
        make_first_bugged(&mut assigned);
        let ghost first = s1[0].with_role(Some(Role::Bugged));
        proof {
            assert(a.to_multiset().count(s1[0]) > 0) by {
                assert(s1.contains(s1[0]));
            }
            assert(a.contains(s1[0]));
            let j = choose|j: int| 0 <= j < a.len() && a[j] == s1[0];
            lemma_update_to_multiset(s1, 0, first);
            lemma_update_to_multiset(a, j, first);
            assert(first == a[j].with_role(Some(Role::Bugged)));
        }
        crate::random::shuffle(&mut rng, &mut assigned);
        proof {
            let j = choose|j: int| 0 <= j < a.len() && a[j] == s1[0];
            assert(assigned@.to_multiset() == a.update(j, a[j].with_role(Some(Role::Bugged))).to_multiset());
            assert(completes_assignment(players@, draws@, assigned@));
        }
    } else {
        proof {
            assert(completes_assignment(players@, draws@, assigned@));
        }
    }
    assigned
}

/// Starting a game gives every player a role and otherwise keeps the players
/// as they were, each exactly once, and makes at least one and at most a
/// quarter of the players (rounded down, but never fewer than one) bugged.
pub proof fn lemma_role_assignment_bounds(players: Seq<Player>, result: Seq<Player>)
    requires
        players.len() >= 1,
        valid_assignment(players, result),
    ensures
        result.len() == players.len(),
        forall|k: int| 0 <= k < result.len() ==> (#[trigger] result[k]).role is Some,
        forall|k: int|
            0 <= k < result.len() ==> exists|i: int|
                0 <= i < players.len() && #[trigger] result[k] == players[i].with_role(
                    result[k].role,
                ),
        without_roles(result).to_multiset() == without_roles(players).to_multiset(),
        1 <= bug_count(result),
        bug_count(result) <= if max_bugs(players.len()) >= 1 { max_bugs(players.len()) } else { 1 },
{
    broadcast use vstd::seq_lib::group_to_multiset_ensures;

    let draws = choose|draws: Seq<bool>|
        draws.len() == players.len() && #[trigger] completes_assignment(players, draws, result);
    let m = max_bugs(players.len());
    let a = assign_roles_spec(players, draws, m);
    lemma_assign_roles_shape(players, draws, m);
    assert(without_roles(a) =~= without_roles(players));
    if bug_count(a) > 0 {
        assert forall|k: int| 0 <= k < result.len() implies exists|i: int|
            0 <= i < players.len() && #[trigger] result[k] == players[i].with_role(
                result[k].role,
            ) by {
            assert(result[k] == a[k]);
        }
    } else {
        let j = choose|j: int|
            0 <= j < a.len() && result.to_multiset() == #[trigger] a.update(
                j,
                a[j].with_role(Some(Role::Bugged)),
            ).to_multiset();
        let x = a[j].with_role(Some(Role::Bugged));
        let b = a.update(j, x);
        assert(result.len() == b.len()) by {
            assert(result.to_multiset().len() == b.to_multiset().len());
        }
        lemma_bug_count_permutation(result, b);
        lemma_without_roles_permutation(result, b);
        assert(without_roles(b) =~= without_roles(a));
        lemma_bug_count_update(a, j, x);
        lemma_bug_count_remove(a, j);
        assert forall|k: int| 0 <= k < result.len() implies (#[trigger] result[k]).role is Some
            && exists|i: int|
            0 <= i < players.len() && result[k] == players[i].with_role(result[k].role) by {
            assert(result.contains(result[k]));
            assert(b.to_multiset().count(result[k]) > 0);
            assert(b.contains(result[k]));
            let i = choose|i: int| 0 <= i < b.len() && b[i] == result[k];
            assert(assign_roles_spec(players, draws, m)[i] == a[i]);
            if i == j {
                assert(b[i] == players[i].with_role(b[i].role));
            } else {
                assert(b[i] == a[i]);
            }
        }
    }
}

} // verus!
