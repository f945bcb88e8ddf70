//! Scoring rules, applied once per round when an answering phase completes,
//! and the roster-wide resets that open a game and a round.
//!
//! Every rule is stated on the roster model (`Seq<PlayerV>`) and implemented
//! by a function that mutates the stored roster to exactly that model.

use vstd::prelude::*;
use crate::arith::{
    floor_to_one, i64_sat, sat_add, sat_sub, scale_by_pow2, scale_pow2,
};
use crate::player::{clone_player, roster_view, PlayerData, PlayerV};

verus! {

/// `p` with its money replaced by `m` (which must fit in `i64`).
pub open spec fn with_money(p: PlayerV, m: int) -> PlayerV {
    PlayerV { money: m as i64, ..p }
}

/// A player reset to the configured starting money and jokers; the
/// transient fields are left as they are.
pub open spec fn reset_player(p: PlayerV, money: i64, jokers: usize) -> PlayerV {
    PlayerV { money: money, jokers: jokers, ..p }
}

/// Every player reset to starting money and jokers.
pub open spec fn reset_all(ps: Seq<PlayerV>, money: i64, jokers: usize) -> Seq<PlayerV> {
    Seq::new(ps.len(), |i: int| reset_player(ps[i], money, jokers))
}

/// A player with the per-round transients back at "not yet": no bet, no
/// chosen opponent, no answer.
pub open spec fn cleared_player(p: PlayerV) -> PlayerV {
    PlayerV { money_bet: 0, vs_player: Seq::<char>::empty(), answer: 0, ..p }
}

/// Every player's transients back at "not yet".
pub open spec fn cleared_all(ps: Seq<PlayerV>) -> Seq<PlayerV> {
    Seq::new(ps.len(), |i: int| cleared_player(ps[i]))
}

/// Normal round: a correct answer gains the fixed reward.
pub open spec fn normal_scored(p: PlayerV, correct: usize, reward: i64) -> PlayerV {
    if p.answer == correct {
        with_money(p, i64_sat(p.money + reward))
    } else {
        p
    }
}

/// Normal scoring over the whole roster.
pub open spec fn normal_scored_all(ps: Seq<PlayerV>, correct: usize, reward: i64) -> Seq<
    PlayerV,
> {
    Seq::new(ps.len(), |i: int| normal_scored(ps[i], correct, reward))
}

/// Betting round: a correct answer gains the player's own bet, a wrong one
/// loses it; money that lands exactly on zero is raised to one.
pub open spec fn betting_scored(p: PlayerV, correct: usize) -> PlayerV {
    if p.answer == correct {
        with_money(p, i64_sat(p.money + p.money_bet))
    } else {
        with_money(p, floor_to_one(i64_sat(p.money - p.money_bet)))
    }
}

/// Betting scoring over the whole roster.
pub open spec fn betting_scored_all(ps: Seq<PlayerV>, correct: usize) -> Seq<PlayerV> {
    Seq::new(ps.len(), |i: int| betting_scored(ps[i], correct))
}

/// Absolute distance between a submitted estimate and the correct value.
pub open spec fn est_dist(answer: usize, correct: usize) -> int {
    if answer >= correct {
        answer - correct
    } else {
        correct - answer
    }
}

/// Player `i`'s estimate is at minimal distance over the roster.
pub open spec fn est_min(ps: Seq<PlayerV>, i: int, correct: usize) -> bool {
    forall|j: int|
        0 <= j < ps.len() ==> est_dist(ps[i].answer, correct) <= est_dist(
            #[trigger] ps[j].answer,
            correct,
        )
}

/// Player `i` shares the estimation reward: some player at minimal distance
/// carries the same name (with unique names, exactly the closest players).
pub open spec fn est_winner(ps: Seq<PlayerV>, i: int, correct: usize) -> bool {
    exists|k: int|
        0 <= k < ps.len() && #[trigger] est_min(ps, k, correct) && ps[k].name == ps[i].name
}

/// Estimation round: every winner gains the fixed estimation reward, nobody
/// loses anything.
pub open spec fn estimation_scored_all(ps: Seq<PlayerV>, correct: usize, reward: i64) -> Seq<
    PlayerV,
> {
    Seq::new(
        ps.len(),
        |i: int|
            if est_winner(ps, i, correct) {
                with_money(ps[i], i64_sat(ps[i].money + reward))
            } else {
                ps[i]
            },
    )
}

/// Attacker `i` aims at defender `j`: `i` chose an opponent, and `j` is the
/// first roster entry carrying that name.
pub open spec fn vs_targets(ps: Seq<PlayerV>, i: int, j: int) -> bool {
    &&& 0 <= i < ps.len()
    &&& 0 <= j < ps.len()
    &&& ps[i].vs_player.len() > 0
    &&& ps[j].name == ps[i].vs_player
    &&& forall|k: int| 0 <= k < j ==> (#[trigger] ps[k].name) != ps[i].vs_player
}

/// Attacker `i` halves (`halving`) or doubles (`!halving`) defender `j`:
/// a correct attacker halves their opponent, a wrong one doubles them.
pub open spec fn vs_hit(ps: Seq<PlayerV>, i: int, j: int, correct: usize, halving: bool) -> bool {
    vs_targets(ps, i, j) && ((ps[i].answer == correct) <==> halving)
}

/// How many of the attackers `0..upto` halve (or double) defender `j`.
pub open spec fn vs_count(
    ps: Seq<PlayerV>,
    j: int,
    correct: usize,
    halving: bool,
    upto: int,
) -> nat
    decreases upto,
{
    if upto <= 0 {
        0
    } else {
        vs_count(ps, j, correct, halving, upto - 1) + if vs_hit(
            ps,
            upto - 1,
            j,
            correct,
            halving,
        ) {
            1nat
        } else {
            0nat
        }
    }
}

/// All halvings of defender `j`.
pub open spec fn vs_halvings(ps: Seq<PlayerV>, j: int, correct: usize) -> nat {
    vs_count(ps, j, correct, true, ps.len() as int)
}

/// All doublings of defender `j`.
pub open spec fn vs_doublings(ps: Seq<PlayerV>, j: int, correct: usize) -> nat {
    vs_count(ps, j, correct, false, ps.len() as int)
}

/// Versus round: every player's money is scaled by the factor their
/// attackers accumulated and floored to one if it lands on zero.
pub open spec fn versus_scored_all(ps: Seq<PlayerV>, correct: usize) -> Seq<PlayerV> {
    Seq::new(
        ps.len(),
        |j: int|
            with_money(
                ps[j],
                floor_to_one(
                    scale_pow2(
                        ps[j].money as int,
                        vs_doublings(ps, j, correct),
                        vs_halvings(ps, j, correct),
                    ),
                ),
            ),
    )
}

/// No more attackers can hit a defender than there are players considered.
pub proof fn lemma_vs_count_bound(
    ps: Seq<PlayerV>,
    j: int,
    correct: usize,
    halving: bool,
    upto: int,
)
    ensures
        vs_count(ps, j, correct, halving, upto) <= if upto <= 0 {
            0
        } else {
            upto
        },
    decreases upto,
{
    if upto > 0 {
        lemma_vs_count_bound(ps, j, correct, halving, upto - 1);
    }
}

/// Restore every player to the given starting money and jokers.
pub fn reset_players(players: &mut Vec<PlayerData>, money: i64, jokers: usize)
    ensures
        roster_view(final(players)@) == reset_all(roster_view(old(players)@), money, jokers),
{
    let ghost orig = roster_view(old(players)@);
    let n = players.len();
    let mut i: usize = 0;
    while i < n
        invariant
            i <= n,
            players@.len() == n,
            orig == roster_view(old(players)@),
            orig.len() == n,
            forall|k: int| 0 <= k < i ==> (#[trigger] players@[k])@ == reset_player(
                orig[k],
                money,
                jokers,
            ),
            forall|k: int| i <= k < n ==> #[trigger] players@[k] == old(players)@[k],
        decreases n - i,
    {
        let mut p = clone_player(&players[i]);
        p.money = money;
        p.jokers = jokers;
        players.set(i, p);
        i = i + 1;
    }
    proof {
        assert(roster_view(players@) =~= reset_all(orig, money, jokers));
    }
}

/// Reset every player's per-round transients to "not yet".
pub fn clear_transients(players: &mut Vec<PlayerData>)
    ensures
        roster_view(final(players)@) == cleared_all(roster_view(old(players)@)),
{
    let ghost orig = roster_view(old(players)@);
    let n = players.len();
    let mut i: usize = 0;
    while i < n
        invariant
            i <= n,
            players@.len() == n,
            orig == roster_view(old(players)@),
            orig.len() == n,
            forall|k: int| 0 <= k < i ==> (#[trigger] players@[k])@ == cleared_player(orig[k]),
            forall|k: int| i <= k < n ==> #[trigger] players@[k] == old(players)@[k],
        decreases n - i,
    {
        let mut p = clone_player(&players[i]);
        p.money_bet = 0;
        p.vs_player = String::new();
        p.answer = 0;
        players.set(i, p);
        i = i + 1;
    }
    proof {
        assert(roster_view(players@) =~= cleared_all(orig));
    }
}

/// Apply normal-round scoring to the stored roster.
pub fn score_normal(players: &mut Vec<PlayerData>, correct: usize, reward: i64)
    ensures
        roster_view(final(players)@) == normal_scored_all(
            roster_view(old(players)@),
            correct,
            reward,
        ),
{
    let ghost orig = roster_view(old(players)@);
    let n = players.len();
    let mut i: usize = 0;
    while i < n
        invariant
            i <= n,
            players@.len() == n,
            orig == roster_view(old(players)@),
            orig.len() == n,
            forall|k: int| 0 <= k < i ==> (#[trigger] players@[k])@ == normal_scored(
                orig[k],
                correct,
                reward,
            ),
            forall|k: int| i <= k < n ==> #[trigger] players@[k] == old(players)@[k],
        decreases n - i,
    {
        if players[i].answer == correct {
            let m = sat_add(players[i].money, reward);
            let mut p = clone_player(&players[i]);
            p.money = m;
            players.set(i, p);
        }
        i = i + 1;
    }
    proof {
        assert(roster_view(players@) =~= normal_scored_all(orig, correct, reward));
    }
}

/// Apply betting-round scoring to the stored roster.
pub fn score_betting(players: &mut Vec<PlayerData>, correct: usize)
    ensures
        roster_view(final(players)@) == betting_scored_all(roster_view(old(players)@), correct),
{
    let ghost orig = roster_view(old(players)@);
    let n = players.len();
    let mut i: usize = 0;
    while i < n
        invariant
            i <= n,
            players@.len() == n,
            orig == roster_view(old(players)@),
            orig.len() == n,
            forall|k: int| 0 <= k < i ==> (#[trigger] players@[k])@ == betting_scored(
                orig[k],
                correct,
            ),
            forall|k: int| i <= k < n ==> #[trigger] players@[k] == old(players)@[k],
        decreases n - i,
    {
        let mut p = clone_player(&players[i]);
        if p.answer == correct {
            p.money = sat_add(p.money, p.money_bet);
        } else {
            p.money = sat_sub(p.money, p.money_bet);
            if p.money == 0 {
                p.money = 1;
            }
        }
        players.set(i, p);
        i = i + 1;
    }
    proof {
        assert(roster_view(players@) =~= betting_scored_all(orig, correct));
    }
}

/// Apply estimation-round scoring to the stored roster.
pub fn score_estimation(players: &mut Vec<PlayerData>, correct: usize, reward: i64)
    ensures
        roster_view(final(players)@) == estimation_scored_all(
            roster_view(old(players)@),
            correct,
            reward,
        ),
{
    let ghost orig = roster_view(old(players)@);
    let n = players.len();

    // Pass one: the minimal distance any player achieved.
    let mut min_distance: usize = usize::MAX;
    let mut any: bool = false;
    let mut i: usize = 0;
    while i < n
        invariant
            i <= n,
            players@ == old(players)@,
            orig == roster_view(old(players)@),
            orig.len() == n,
            any <==> i > 0,
            forall|j: int| 0 <= j < i ==> est_dist((#[trigger] orig[j]).answer, correct)
                >= min_distance,
            any ==> exists|j: int| 0 <= j < i && est_dist((#[trigger] orig[j]).answer, correct)
                == min_distance,
            !any ==> min_distance == usize::MAX,
        decreases n - i,
    {
        let a = players[i].answer;
        let diff: usize = if a >= correct {
            a - correct
        } else {
            correct - a
        };
        if !any || diff < min_distance {
            min_distance = diff;
        }
        any = true;
        proof {
            assert(est_dist(orig[i as int].answer, correct) == diff);
        }
        i = i + 1;
    }

    // Pass two: everyone sharing a name with a closest player gains.
    let mut i: usize = 0;
    while i < n
        invariant
            i <= n,
            players@.len() == n,
            orig == roster_view(old(players)@),
            orig.len() == n,
            forall|j: int| 0 <= j < n ==> est_dist((#[trigger] orig[j]).answer, correct)
                >= min_distance,
            n > 0 ==> exists|j: int| 0 <= j < n && est_dist(
                (#[trigger] orig[j]).answer,
                correct,
            ) == min_distance,
            forall|k: int| 0 <= k < i ==> (#[trigger] players@[k])@ == (if est_winner(
                orig,
                k,
                correct,
            ) {
                with_money(orig[k], i64_sat(orig[k].money + reward))
            } else {
                orig[k]
            }),
            forall|k: int| i <= k < n ==> #[trigger] players@[k] == old(players)@[k],
        decreases n - i,
    {
        let mut winner: bool = false;
        let mut k: usize = 0;
        while k < n
            invariant
                k <= n,
                players@.len() == n,
                orig == roster_view(old(players)@),
                orig.len() == n,
                i < n,
                forall|j: int| 0 <= j < n ==> est_dist((#[trigger] orig[j]).answer, correct)
                    >= min_distance,
                forall|j: int| 0 <= j < i ==> (#[trigger] players@[j])@ == (if est_winner(
                    orig,
                    j,
                    correct,
                ) {
                    with_money(orig[j], i64_sat(orig[j].money + reward))
                } else {
                    orig[j]
                }),
                forall|j: int| i <= j < n ==> #[trigger] players@[j] == old(players)@[j],
                winner ==> est_winner(orig, i as int, correct),
                !winner ==> forall|j: int|
                    0 <= j < k ==> !(est_dist((#[trigger] orig[j]).answer, correct)
                        == min_distance && orig[j].name == orig[i as int].name),
            decreases n - k,
        {
            let a = players[k].answer;
            let diff: usize = if a >= correct {
                a - correct
            } else {
                correct - a
            };
            if diff == min_distance && players[k].name == players[i].name {
                proof {
                    assert(est_min(orig, k as int, correct));
                }
                winner = true;
            }
            k = k + 1;
        }
        proof {
            if !winner {
                assert forall|j: int|
                    !(0 <= j < orig.len() && #[trigger] est_min(orig, j, correct) && orig[j].name
                        == orig[i as int].name) by {
                    if 0 <= j < orig.len() && est_min(orig, j, correct) {
                        assert(est_dist(orig[j].answer, correct) <= est_dist(
                            orig[j].answer,
                            correct,
                        ));
                        assert(est_dist(orig[j].answer, correct) == min_distance);
                    }
                }
                assert(!est_winner(orig, i as int, correct));
            }
        }
        if winner {
            let m = sat_add(players[i].money, reward);
            let mut p = clone_player(&players[i]);
            p.money = m;
            players.set(i, p);
        }
        i = i + 1;
    }
    proof {
        assert(roster_view(players@) =~= estimation_scored_all(orig, correct, reward));
    }
}

/// Helper: a vector of `n` zeros.
fn zeros(n: usize) -> (r: Vec<usize>)
    ensures
        r@.len() == n,
        forall|k: int| 0 <= k < n ==> r@[k] == 0,
    decreases n,
{
    let mut r: Vec<usize> = Vec::new();
    let mut i: usize = 0;
    while i < n
        invariant
            i <= n,
            r@.len() == i,
            forall|k: int| 0 <= k < i ==> r@[k] == 0,
        decreases n - i,
    {
        r.push(0);
        i = i + 1;
    }
    r
}

/// Apply versus-round scoring to the stored roster.
pub fn score_versus(players: &mut Vec<PlayerData>, correct: usize)
    ensures
        roster_view(final(players)@) == versus_scored_all(roster_view(old(players)@), correct),
{
    let ghost orig = roster_view(old(players)@);
    let n = players.len();

    // Pass one: count, for every defender, the halvings and doublings their
    // attackers contribute.
    let mut halv = zeros(n);
    let mut doub = zeros(n);
    let mut i: usize = 0;
    while i < n
        invariant
            i <= n,
            players@ == old(players)@,
            orig == roster_view(old(players)@),
            orig.len() == n,
            halv@.len() == n,
            doub@.len() == n,
            forall|j: int| 0 <= j < n ==> #[trigger] halv@[j] == vs_count(
                orig,
                j,
                correct,
                true,
                i as int,
            ),
            forall|j: int| 0 <= j < n ==> #[trigger] doub@[j] == vs_count(
                orig,
                j,
                correct,
                false,
                i as int,
            ),
        decreases n - i,
    {
        proof {
            lemma_vs_count_bound(orig, 0, correct, true, i as int);
        }
        if !players[i].vs_player.as_str().is_empty() {
            let mut scan: usize = 0;
            let mut j: usize = 0;
            let mut found: bool = false;
            while scan < n
                invariant
                    scan <= n,
                    i < n,
                    players@ == old(players)@,
                    orig == roster_view(old(players)@),
                    orig.len() == n,
                    orig[i as int].vs_player.len() > 0,
                    !found ==> forall|k: int| 0 <= k < scan ==> (#[trigger] orig[k]).name
                        != orig[i as int].vs_player,
                    found ==> j < n && vs_targets(orig, i as int, j as int),
                decreases n - scan,
            {
                if !found && players[scan].name == players[i].vs_player {
                    found = true;
                    j = scan;
                }
                scan = scan + 1;
            }
            if found {
                proof {
                    assert forall|jj: int| 0 <= jj < n && jj != j implies !vs_targets(
                        orig,
                        i as int,
                        jj,
                    ) by {
                        if jj < j {
                            assert(orig[jj].name != orig[i as int].vs_player);
                        }
                    }
                    lemma_vs_count_bound(orig, j as int, correct, true, i as int);
                    lemma_vs_count_bound(orig, j as int, correct, false, i as int);
                }
                if players[i].answer == correct {
                    let c = halv[j];
                    halv.set(j, c + 1);
                } else {
                    let c = doub[j];
                    doub.set(j, c + 1);
                }
            } else {
                proof {
                    assert forall|jj: int| 0 <= jj < n implies !vs_targets(
                        orig,
                        i as int,
                        jj,
                    ) by {
                        assert(orig[jj].name != orig[i as int].vs_player);
                    }
                }
            }
        } else {
            proof {
                assert forall|jj: int| 0 <= jj < n implies !vs_targets(orig, i as int, jj) by {}
            }
        }
        i = i + 1;
    }

    // Pass two: scale every player's money and floor it to one.
    let mut j: usize = 0;
    while j < n
        invariant
            j <= n,
            players@.len() == n,
            orig == roster_view(old(players)@),
            orig.len() == n,
            halv@.len() == n,
            doub@.len() == n,
            forall|k: int| 0 <= k < n ==> #[trigger] halv@[k] == vs_halvings(orig, k, correct),
            forall|k: int| 0 <= k < n ==> #[trigger] doub@[k] == vs_doublings(orig, k, correct),
            forall|k: int| 0 <= k < j ==> (#[trigger] players@[k])@ == versus_scored_all(
                orig,
                correct,
            )[k],
            forall|k: int| j <= k < n ==> #[trigger] players@[k] == old(players)@[k],
        decreases n - j,
    {
        let mut m = scale_by_pow2(players[j].money, doub[j], halv[j]);
        if m == 0 {
            m = 1;
        }
        let mut p = clone_player(&players[j]);
        p.money = m;
        players.set(j, p);
        j = j + 1;
    }
    proof {
        assert(roster_view(players@) =~= versus_scored_all(orig, correct));
    }
}

} // verus!
