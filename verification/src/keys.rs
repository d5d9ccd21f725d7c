//! The keys under which the game data is stored, and the decimal rendering
//! of numbers that some keys embed.

use vstd::prelude::*;

verus! {

/// The character of a decimal digit.
pub open spec fn digit_char(d: nat) -> char
    recommends
        d < 10,
{
    ((d + 48) as u32) as char
}

/// The decimal representation of `n`, most significant digit first, without
/// leading zeros (zero is "0").
pub open spec fn decimal(n: nat) -> Seq<char>
    decreases n,
{
    if n < 10 {
        seq![digit_char(n)]
    } else {
        decimal(n / 10).push(digit_char(n % 10))
    }
}

/// The key of the stored game.
pub open spec fn game_key_view() -> Seq<char> {
    "game"@
}

/// The key of the index of registered buildings.
pub open spec fn building_index_key_view() -> Seq<char> {
    "building:index"@
}

/// The key under which the player with id `id` is stored.
pub open spec fn player_key_view(id: Seq<char>) -> Seq<char> {
    "player:"@ + id
}

/// The key of the index of the players that joined the game `game_id`.
pub open spec fn player_index_key_view(game_id: Seq<char>) -> Seq<char> {
    "game:"@ + game_id + ":player_index"@
}

/// The key of the result of round `round` of the game `game_id`.
pub open spec fn result_key_view(game_id: Seq<char>, round: Seq<char>) -> Seq<char> {
    "result:"@ + game_id + ":"@ + round
}

fn digit_str(d: u32) -> (s: &'static str)
    requires
        d < 10,
    ensures
        s@ == seq![digit_char(d as nat)],
{
    proof {
        reveal_strlit("0");
        reveal_strlit("1");
        reveal_strlit("2");
        reveal_strlit("3");
        reveal_strlit("4");
        reveal_strlit("5");
        reveal_strlit("6");
        reveal_strlit("7");
        reveal_strlit("8");
        reveal_strlit("9");
    }
    if d == 0 {
        "0"
    } else if d == 1 {
        "1"
    } else if d == 2 {
        "2"
    } else if d == 3 {
        "3"
    } else if d == 4 {
        "4"
    } else if d == 5 {
        "5"
    } else if d == 6 {
        "6"
    } else if d == 7 {
        "7"
    } else if d == 8 {
        "8"
    } else {
        "9"
    }
}

/// The decimal rendering of `n`.
pub fn decimal_string(n: u32) -> (s: String)
    ensures
        s@ == decimal(n as nat),
    decreases n,
{
    if n < 10 {
        String::from_str(digit_str(n))
    } else {
        let mut s = decimal_string(n / 10);
        s.append(digit_str(n % 10));
        s
    }
}

/// The key of the stored game.
pub fn game_key() -> (k: String)
    ensures
        k@ == game_key_view(),
{
    String::from_str("game")
}

/// The key of the index of registered buildings.
pub fn building_index_key() -> (k: String)
    ensures
        k@ == building_index_key_view(),
{
    String::from_str("building:index")
}

/// The key under which the player with id `id` is stored.
pub fn player_key(id: &str) -> (k: String)
    ensures
        k@ == player_key_view(id@),
{
    String::from_str("player:").concat(id)
}

/// The key of the index of the players that joined the game `game_id`.
pub fn player_index_key(game_id: &str) -> (k: String)
    ensures
        k@ == player_index_key_view(game_id@),
{
    String::from_str("game:").concat(game_id).concat(":player_index")
}

/// The key of the result of round `round` of the game `game_id`; `round` is
/// taken as the caller wrote it.
pub fn result_key(game_id: &str, round: &str) -> (k: String)
    ensures
        k@ == result_key_view(game_id@, round@),
{
    String::from_str("result:").concat(game_id).concat(":").concat(round)
}

} // verus!

verus! {

/// A decimal rendering has at least one digit.
pub proof fn lemma_decimal_nonempty(n: nat)
    ensures
        decimal(n).len() >= 1,
        n >= 10 ==> decimal(n).len() >= 2,
    decreases n,
{
    if n >= 10 {
        lemma_decimal_nonempty(n / 10);
    }
}

/// Different numbers have different decimal renderings.
pub proof fn lemma_decimal_injective(a: nat, b: nat)
    requires
        decimal(a) == decimal(b),
    ensures
        a == b,
    decreases a,
{
    lemma_decimal_nonempty(a);
    lemma_decimal_nonempty(b);
    if a < 10 && b < 10 {
        assert(decimal(a)[0] == digit_char(a));
        assert(decimal(b)[0] == digit_char(b));
        assert((digit_char(a) as u32) == a + 48);
        assert((digit_char(b) as u32) == b + 48);
        assert(digit_char(a) == digit_char(b));
        assert(a == b);
    } else if a >= 10 && b >= 10 {
        let da = decimal(a / 10);
        let db = decimal(b / 10);
        assert(decimal(a) == da.push(digit_char(a % 10)));
        assert(decimal(b) == db.push(digit_char(b % 10)));
        assert(da =~= decimal(a).drop_last());
        assert(db =~= decimal(b).drop_last());
        lemma_decimal_injective(a / 10, b / 10);
        assert(digit_char(a % 10) as u32 == a % 10 + 48);
        assert(digit_char(b % 10) as u32 == b % 10 + 48);
        assert(a == (a / 10) * 10 + a % 10);
        assert(b == (b / 10) * 10 + b % 10);
        assert(decimal(a).last() == digit_char(a % 10));
        assert(decimal(b).last() == digit_char(b % 10));
        assert(digit_char(a % 10) == digit_char(b % 10));
        assert(a % 10 == b % 10);
        assert(a == b);
    } else {
        assert(decimal(a).len() != decimal(b).len());
    }
}

/// Players with different ids are stored under different keys.
pub proof fn lemma_player_key_injective(a: Seq<char>, b: Seq<char>)
    requires
        player_key_view(a) == player_key_view(b),
    ensures
        a == b,
{
    let p = "player:"@;
    assert(a =~= player_key_view(a).subrange(p.len() as int, player_key_view(a).len() as int));
    assert(b =~= player_key_view(b).subrange(p.len() as int, player_key_view(b).len() as int));
}

/// The results of different rounds of a game are stored under different
/// keys.
pub proof fn lemma_round_result_keys_distinct(game_id: Seq<char>, r1: nat, r2: nat)
    requires
        r1 != r2,
    ensures
        result_key_view(game_id, decimal(r1)) != result_key_view(game_id, decimal(r2)),
{
    let prefix = "result:"@ + game_id + ":"@;
    if result_key_view(game_id, decimal(r1)) == result_key_view(game_id, decimal(r2)) {
        assert(decimal(r1) =~= result_key_view(game_id, decimal(r1)).subrange(
            prefix.len() as int,
            result_key_view(game_id, decimal(r1)).len() as int,
        ));
        assert(decimal(r2) =~= result_key_view(game_id, decimal(r2)).subrange(
            prefix.len() as int,
            result_key_view(game_id, decimal(r2)).len() as int,
        ));
        lemma_decimal_injective(r1, r2);
    }
}

} // verus!

verus! {

/// The number that a string of decimal digits denotes.
pub open spec fn digits_value(s: Seq<char>) -> nat
    decreases s.len(),
{
    if s.len() == 0 {
        0
    } else {
        digits_value(s.drop_last()) * 10 + ((s.last() as u32) - 48) as nat
    }
}

/// The decimal rendering of a number consists of digits, starts with a
/// non-zero digit unless the number is zero, and denotes the number.
pub proof fn lemma_decimal_denotes(n: nat)
    ensures
        forall|i: int|
            0 <= i < decimal(n).len() ==> '0' <= #[trigger] decimal(n)[i] && decimal(n)[i] <= '9',
        n > 0 ==> decimal(n)[0] != '0',
        digits_value(decimal(n)) == n,
    decreases n,
{
    if n < 10 {
        assert(digit_char(n) as u32 == n + 48);
        assert(decimal(n).drop_last() =~= Seq::<char>::empty());
        assert(decimal(n).last() == digit_char(n));
        assert(digits_value(Seq::<char>::empty()) == 0);
        assert(digits_value(decimal(n)) == digits_value(decimal(n).drop_last()) * 10 + ((decimal(n).last() as u32) - 48) as nat);
    } else {
        lemma_decimal_denotes(n / 10);
        lemma_decimal_nonempty(n / 10);
        let d = decimal(n / 10);
        assert(decimal(n) == d.push(digit_char(n % 10)));
        assert(decimal(n).drop_last() =~= d);
        assert(digit_char(n % 10) as u32 == n % 10 + 48);
        assert(n == (n / 10) * 10 + n % 10);
        assert(decimal(n)[0] == d[0]);
        assert(decimal(n).last() == digit_char(n % 10));
        assert(digits_value(decimal(n)) == digits_value(d) * 10 + ((decimal(n).last() as u32) - 48) as nat);
        assert forall|i: int| 0 <= i < decimal(n).len() implies '0' <= #[trigger] decimal(n)[i]
            && decimal(n)[i] <= '9' by {
            if i < d.len() {
                assert(decimal(n)[i] == d[i]);
            }
        }
    }
}

} // verus!
