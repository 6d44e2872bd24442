//! The in-game scoreboard: the leading players by score.

use crate::model::Player;
use crate::text::{trim, trimmed};
use vstd::prelude::*;

verus! {

/// Most players listed on the scoreboard.
pub const LEADERBOARD_ROWS: usize = 10;

/// Name shown for a player who gave none.
pub const UNNAMED_PLAYER: &'static str = "An Unnamed Player";

/// `a` is listed no later than `b`: the higher score first, and among equal
/// scores the player who joined earlier.
pub open spec fn ranks_before(a: Player, b: Player) -> bool {
    a.score > b.score || (a.score == b.score && a.join_time <= b.join_time)
}

/// Every player of `s` is listed no later than those after it.
pub open spec fn ranked(s: Seq<Player>) -> bool {
    forall|i: int, j: int| 0 <= i < j < s.len() ==> ranks_before(#[trigger] s[i], #[trigger] s[j])
}

/// Number of rows shown for `n` players.
pub open spec fn row_count(n: nat) -> nat {
    if n < LEADERBOARD_ROWS { n } else { LEADERBOARD_ROWS as nat }
}

/// `rows` is a scoreboard of `players`: as many rows as are shown, in rank
/// order, each a listed player (counted with multiplicity), and every player
/// left out ranks no higher than any shown.
pub open spec fn is_scoreboard(rows: Seq<Player>, players: Seq<Player>) -> bool {
    &&& rows.len() == row_count(players.len())
    &&& ranked(rows)
    &&& rows.to_multiset().subset_of(players.to_multiset())
    &&& forall|x: Player|
        #![trigger players.to_multiset().count(x)]
        players.to_multiset().count(x) > rows.to_multiset().count(x) ==> forall|i: int|
            0 <= i < rows.len() ==> ranks_before(#[trigger] rows[i], x)
}

/// Where a stable insertion puts `p` into `s`, searching from `k`: before the
/// first player from `k` on that `p` outranks, or at the end.
pub open spec fn insert_from(s: Seq<Player>, p: Player, k: int) -> int
    decreases s.len() - k,
{
    if k >= s.len() || !ranks_before(s[k], p) {
        k
    } else {
        insert_from(s, p, k + 1)
    }
}

/// `players` sorted by rank, stably: built by inserting each player, in the
/// order listed, after every player already placed that it does not outrank,
/// so players tied on score and join time keep the order in which they were
/// listed.
pub open spec fn stable_ranking(players: Seq<Player>) -> Seq<Player>
    decreases players.len(),
{
    if players.len() == 0 {
        Seq::empty()
    } else {
        let s = stable_ranking(players.drop_last());
        s.insert(insert_from(s, players.last(), 0), players.last())
    }
}

fn listed_before(a: &Player, b: &Player) -> (r: bool)
    ensures
        r == ranks_before(*a, *b),
{
    a.score > b.score || (a.score == b.score && a.join_time <= b.join_time)
}

/// Inserts `p` into the ranked `s` after every player it does not precede.
fn insert_ranked(s: &mut Vec<Player>, p: Player)
    requires
        ranked(old(s)@),
    ensures
        ranked(final(s)@),
        final(s)@.to_multiset() == old(s)@.to_multiset().insert(p),
        final(s)@.len() == old(s)@.len() + 1,
        final(s)@ == old(s)@.insert(insert_from(old(s)@, p, 0), p),
{
    let mut k: usize = 0;
    while k < s.len() && listed_before(&s[k], &p)
        invariant
            k <= s.len(),
            forall|j: int| 0 <= j < k ==> ranks_before(#[trigger] s@[j], p),
            insert_from(s@, p, 0) == insert_from(s@, p, k as int),
        decreases s.len() - k,
    {
        k = k + 1;
    }
    let ghost before = s@;
    proof {
        vstd::seq_lib::to_multiset_insert(before, k as int, p);
        // `p` precedes everything from position `k` on
        assert forall|j: int| k <= j < before.len() implies ranks_before(p, #[trigger] before[j]) by {
            assert(!ranks_before(before[k as int], p));
            if j > k {
                assert(ranks_before(before[k as int], before[j]));
            }
        }
    }
    s.insert(k, p);
    proof {
        let t = s@;
        assert forall|i: int, j: int| 0 <= i < j < t.len() implies ranks_before(#[trigger] t[i], #[trigger] t[j]) by {
            if j < k {
                assert(t[i] == before[i] && t[j] == before[j]);
            } else if j == k {
                assert(t[i] == before[i]);
            } else if i < k {
                assert(t[i] == before[i] && t[j] == before[j - 1]);
            } else if i == k {
                assert(t[j] == before[j - 1]);
            } else {
                assert(t[i] == before[i - 1] && t[j] == before[j - 1]);
            }
        }
    }
}

proof fn lemma_take_counts(s: Seq<Player>, m: int, x: Player)
    requires
        0 <= m <= s.len(),
    ensures
        s.take(m).to_multiset().count(x) + s.skip(m).to_multiset().count(x) == s.to_multiset().count(x),
{
    broadcast use vstd::multiset::group_multiset_axioms;

    assert(s.take(m) + s.skip(m) =~= s);
    vstd::seq_lib::lemma_multiset_commutative(s.take(m), s.skip(m));
}

/// The scoreboard rows: the players ranked by score (ties by join time, and
/// players tied on both in the order listed), cut to the number of rows shown.
pub fn leaderboard_rows(players: &Vec<Player>) -> (r: Vec<Player>)
    ensures
        r@ == stable_ranking(players@).take(row_count(players@.len()) as int),
        is_scoreboard(r@, players@),
{
    broadcast use vstd::multiset::group_multiset_axioms;

    let mut sorted: Vec<Player> = Vec::new();
    let mut i: usize = 0;
    assert(players@.take(0) =~= sorted@);
    while i < players.len()
        invariant
            i <= players.len(),
            ranked(sorted@),
            sorted@.to_multiset() == players@.take(i as int).to_multiset(),
            sorted@.len() == i,
            sorted@ == stable_ranking(players@.take(i as int)),
        decreases players.len() - i,
    {
        proof {
            assert(players@.take(i as int + 1).drop_last() =~= players@.take(i as int));
            assert(players@.take(i as int + 1) =~= players@.take(i as int).push(players@[i as int]));
            vstd::seq_lib::to_multiset_build(players@.take(i as int), players@[i as int]);
        }
        insert_ranked(&mut sorted, players[i].snapshot());
        i = i + 1;
    }
    assert(players@.take(players.len() as int) =~= players@);
    let n: usize = if sorted.len() < LEADERBOARD_ROWS { sorted.len() } else { LEADERBOARD_ROWS };
    let mut rows: Vec<Player> = Vec::new();
    let mut j: usize = 0;
    while j < n
        invariant
            j <= n <= sorted@.len(),
            rows@ == sorted@.take(j as int),
        decreases n - j,
    {
        rows.push(sorted[j].snapshot());
        proof {
            assert(sorted@.take(j as int + 1) =~= sorted@.take(j as int).push(sorted@[j as int]));
        }
        j = j + 1;
    }
    proof {
        let s = sorted@;
        let m = n as int;
        assert forall|x: Player| rows@.to_multiset().count(x) <= #[trigger] players@.to_multiset().count(x) by {
            lemma_take_counts(s, m, x);
        }
        assert forall|x: Player|
            #![trigger players@.to_multiset().count(x)]
            players@.to_multiset().count(x) > rows@.to_multiset().count(x) implies forall|i: int|
                0 <= i < rows@.len() ==> ranks_before(#[trigger] rows@[i], x) by {
            lemma_take_counts(s, m, x);
            vstd::seq_lib::to_multiset_contains(s.skip(m), x);
            let k = choose|k: int| 0 <= k < s.skip(m).len() && s.skip(m)[k] == x;
            assert(s[m + k] == x);
            assert forall|i: int| 0 <= i < rows@.len() implies ranks_before(#[trigger] rows@[i], x) by {
                assert(rows@[i] == s[i]);
            }
        }
    }
    rows
}

/// The name shown for a player: the given name, or a stand-in when it is
/// blank.
pub fn display_name(name: &str) -> (r: &str)
    ensures
        r@ == if trimmed(name@).len() == 0 { UNNAMED_PLAYER@ } else { name@ },
{
    if trim(name).as_str().unicode_len() == 0 {
        UNNAMED_PLAYER
    } else {
        name
    }
}

} // verus!
