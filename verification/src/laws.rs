//! Global guarantees of the lobby, stated and proved over the model: name
//! uniqueness under joins, that a satisfied readiness condition fires its
//! transition exactly once, and that a joker costs exactly one joker.

use vstd::prelude::*;
use crate::events::EventV;
use crate::lobby::{
    all_answered, answer_applied, answer_model, answering_state, joined_model, joker_applied,
};
use crate::player::{has_name, PlayerV};
use crate::state::{ready_state, settle, step_of, wf, GameV, LobbyState};

verus! {

/// Display names are pairwise distinct and distinct from the admin's name.
pub open spec fn names_unique(g: GameV) -> bool {
    &&& forall|i: int, j: int|
        0 <= i < j < g.players.len() ==> (#[trigger] g.players[i]).name != (
        #[trigger] g.players[j]).name
    &&& forall|i: int| 0 <= i < g.players.len() ==> (#[trigger] g.players[i]).name != g.admin_name
}

/// A join that appends a player under a name no joined player carries and
/// that is not the admin's keeps every name in the lobby distinct. `join`
/// assigns exactly such a name to every fresh joiner, admin id or not, so
/// any sequence of joins leaves the roster's names pairwise distinct and
/// distinct from the admin's.
pub proof fn lemma_join_preserves_unique_names(g: GameV, u: Seq<char>, n: Seq<char>)
    requires
        names_unique(g),
        !has_name(g.players, n),
        n != g.admin_name,
    ensures
        names_unique(joined_model(g, u, n)),
{
    let g1 = joined_model(g, u, n);
    let ps = g1.players;
    assert(ps.len() == g.players.len() + 1);
    assert forall|i: int, j: int| 0 <= i < j < ps.len() implies (#[trigger] ps[i]).name != (
    #[trigger] ps[j]).name by {
        if j < g.players.len() {
            assert(ps[i] == g.players[i] && ps[j] == g.players[j]);
        } else {
            assert(ps[j].name == n);
            assert(ps[i] == g.players[i]);
            assert(!(0 <= i < g.players.len() && (#[trigger] g.players[i]).name == n));
        }
    }
    assert forall|i: int| 0 <= i < ps.len() implies (#[trigger] ps[i]).name
        != g1.admin_name by {
        if i < g.players.len() {
            assert(ps[i] == g.players[i]);
        } else {
            assert(ps[i].name == n);
        }
    }
}

/// A satisfied readiness condition fires its transition exactly once: when
/// the last answer arrives in an answering phase, the settled machine has
/// emitted one roster update and then exactly one results event, rests at
/// `Results(false)`, and a further transition attempt changes nothing.
pub proof fn lemma_round_scored_once(g: GameV, u: Seq<char>, a: usize)
    requires
        wf(g),
        answering_state(g.state),
        all_answered(answer_applied(g.players, u, a), u),
    ensures
        ({
            let m = settle(answer_model(g, u, a));
            &&& m.state == LobbyState::Results(false)
            &&& m.log.len() == g.log.len() + 2
            &&& m.log[g.log.len() as int] is PlayerListUpdate
            &&& m.log.last() is ShowResults
            &&& step_of(m).0 == m
            &&& step_of(m).1
        }),
{
    let g1 = answer_model(g, u, a);
    let m = settle(g1);
    assert(g1.state == ready_state(g.state));
    assert(m == step_of(g1).0);
    assert(m.log =~= g1.log.push(m.log.last()));
}

/// The admin's forced advance completes an answering round even when
/// nobody has answered: the settled machine has emitted exactly one
/// results event and rests at `Results(false)`, ready for the next round
/// to be initiated.
pub proof fn lemma_force_advance_completes(g: GameV)
    requires
        wf(g),
        answering_state(g.state),
    ensures
        ({
            let m = settle(GameV { state: ready_state(g.state), ..g });
            &&& m.state == LobbyState::Results(false)
            &&& m.log.len() == g.log.len() + 1
            &&& m.log.last() is ShowResults
            &&& step_of(m).0 == m
        }),
{
    let g1 = GameV { state: ready_state(g.state), ..g };
    let m = settle(g1);
    assert(m == step_of(g1).0);
    assert(m.log =~= g.log.push(m.log.last()));
}

/// A spent joker comes out of exactly one roster entry: the first one
/// carrying the asking id loses exactly one joker and keeps every other
/// field; every other entry is untouched; with no such entry the roster is
/// unchanged. Together with `get_joker`'s own contract (two distinct wrong
/// options of the current question) this is the whole effect of a joker.
pub proof fn lemma_joker_consumes_exactly_one(ps: Seq<PlayerV>, u: Seq<char>)
    ensures
        joker_applied(ps, u).len() == ps.len(),
        forall|i: int|
            0 <= i < ps.len() && !((#[trigger] ps[i]).uuid == u && (forall|k: int|
                0 <= k < i ==> (#[trigger] ps[k]).uuid != u)) ==> joker_applied(ps, u)[i]
                == ps[i],
        forall|i: int|
            0 <= i < ps.len() && (#[trigger] ps[i]).uuid == u && (forall|k: int|
                0 <= k < i ==> (#[trigger] ps[k]).uuid != u) ==> joker_applied(ps, u)[i]
                == (PlayerV { jokers: (ps[i].jokers - 1) as usize, ..ps[i] }),
{
}

} // verus!
