//! Players of a lobby: the full record kept by the core, and the public
//! record that is handed to clients (the same data without the stable id).

use vstd::prelude::*;

verus! {

/// One joined player, as the lobby keeps it.
///
/// `money_bet`, `vs_player` and `answer` are the per-round transients:
/// `0`, the empty string and `0` mean "not yet".
pub struct PlayerData {
    pub uuid: String,
    pub name: String,
    pub jokers: usize,
    pub money: i64,
    pub money_bet: i64,
    pub vs_player: String,
    pub answer: usize,
}

/// The same record without the stable id: the only form that leaves the core.
pub struct PublicPlayerData {
    pub name: String,
    pub jokers: usize,
    pub money: i64,
    pub money_bet: i64,
    pub vs_player: String,
    pub answer: usize,
}

/// Mathematical model of a player: every string as its character sequence.
#[verifier::ext_equal]
pub struct PlayerV {
    pub uuid: Seq<char>,
    pub name: Seq<char>,
    pub jokers: usize,
    pub money: i64,
    pub money_bet: i64,
    pub vs_player: Seq<char>,
    pub answer: usize,
}

/// Mathematical model of a public player record.
#[verifier::ext_equal]
pub struct PubPlayerV {
    pub name: Seq<char>,
    pub jokers: usize,
    pub money: i64,
    pub money_bet: i64,
    pub vs_player: Seq<char>,
    pub answer: usize,
}

impl View for PlayerData {
    type V = PlayerV;

    open spec fn view(&self) -> PlayerV {
        PlayerV {
            uuid: self.uuid@,
            name: self.name@,
            jokers: self.jokers,
            money: self.money,
            money_bet: self.money_bet,
            vs_player: self.vs_player@,
            answer: self.answer,
        }
    }
}

impl View for PublicPlayerData {
    type V = PubPlayerV;

    open spec fn view(&self) -> PubPlayerV {
        PubPlayerV {
            name: self.name@,
            jokers: self.jokers,
            money: self.money,
            money_bet: self.money_bet,
            vs_player: self.vs_player@,
            answer: self.answer,
        }
    }
}

/// The public face of a player model: the id dropped, all else kept.
pub open spec fn pub_of(p: PlayerV) -> PubPlayerV {
    PubPlayerV {
        name: p.name,
        jokers: p.jokers,
        money: p.money,
        money_bet: p.money_bet,
        vs_player: p.vs_player,
        answer: p.answer,
    }
}

/// The public face of a whole roster model.
pub open spec fn pub_roster(ps: Seq<PlayerV>) -> Seq<PubPlayerV> {
    ps.map_values(|p: PlayerV| pub_of(p))
}

/// Model of a roster as it is stored.
pub open spec fn roster_view(ps: Seq<PlayerData>) -> Seq<PlayerV> {
    ps.map_values(|p: PlayerData| p@)
}

/// Strip the stable ids off a roster, keeping order and all other fields.
pub fn make_public_player_data(players: &Vec<PlayerData>) -> (r: Vec<PublicPlayerData>)
    ensures
        r@.map_values(|p: PublicPlayerData| p@) == pub_roster(roster_view(players@)),
{
    let mut r: Vec<PublicPlayerData> = Vec::new();
    let mut i: usize = 0;
    while i < players.len()
        invariant
            i <= players@.len(),
            r@.len() == i,
            r@.map_values(|p: PublicPlayerData| p@) =~= pub_roster(
                roster_view(players@),
            ).take(i as int),
        decreases players@.len() - i,
    {
        let p = &players[i];
        r.push(PublicPlayerData {
            name: p.name.clone(),
            jokers: p.jokers,
            money: p.money,
            money_bet: p.money_bet,
            vs_player: p.vs_player.clone(),
            answer: p.answer,
        });
        i = i + 1;
        proof {
            assert(r@.map_values(|p: PublicPlayerData| p@) =~= pub_roster(
                roster_view(players@),
            ).take(i as int));
        }
    }
    proof {
        assert(pub_roster(roster_view(players@)).take(players@.len() as int) =~= pub_roster(
            roster_view(players@),
        ));
    }
    r
}

/// Relies on `str`'s `PartialEq`: two string slices compare equal exactly
/// when their character sequences do.
pub assume_specification[ <str as PartialEq<str>>::eq ](a: &str, b: &str) -> (r: bool)
    ensures
        r == (a@ == b@),
;

/// Content equality of two string slices.
pub fn str_eq(a: &str, b: &str) -> (r: bool)
    ensures
        r == (a@ == b@),
{
    *a == *b
}

/// Some joined player carries this stable id.
pub open spec fn has_uuid(ps: Seq<PlayerV>, u: Seq<char>) -> bool {
    exists|i: int| 0 <= i < ps.len() && (#[trigger] ps[i]).uuid == u
}

/// Some joined player carries this display name.
pub open spec fn has_name(ps: Seq<PlayerV>, n: Seq<char>) -> bool {
    exists|i: int| 0 <= i < ps.len() && (#[trigger] ps[i]).name == n
}

/// The roster with every player of the given stable id removed, order kept.
pub open spec fn removed_uuid(ps: Seq<PlayerV>, u: Seq<char>) -> Seq<PlayerV>
    decreases ps.len(),
{
    if ps.len() == 0 {
        ps
    } else {
        let rest = removed_uuid(ps.drop_last(), u);
        if ps.last().uuid == u {
            rest
        } else {
            rest.push(ps.last())
        }
    }
}

/// The roster with every player of the given name removed, order kept.
pub open spec fn removed_name(ps: Seq<PlayerV>, n: Seq<char>) -> Seq<PlayerV>
    decreases ps.len(),
{
    if ps.len() == 0 {
        ps
    } else {
        let rest = removed_name(ps.drop_last(), n);
        if ps.last().name == n {
            rest
        } else {
            rest.push(ps.last())
        }
    }
}

/// Every player of the given name set to the given money and jokers.
pub open spec fn attrs_applied(ps: Seq<PlayerV>, n: Seq<char>, money: i64, jokers: usize) -> Seq<
    PlayerV,
> {
    Seq::new(
        ps.len(),
        |i: int|
            if ps[i].name == n {
                PlayerV { money: money, jokers: jokers, ..ps[i] }
            } else {
                ps[i]
            },
    )
}

/// The longest display name in sight: every joined player's and the
/// admin's. Growing a name beyond this bound frees it of collisions.
pub open spec fn max_name_len(ps: Seq<PlayerV>, admin: Seq<char>) -> int
    decreases ps.len(),
{
    if ps.len() == 0 {
        admin.len() as int
    } else {
        let rest = max_name_len(ps.drop_last(), admin);
        if ps.last().name.len() > rest {
            ps.last().name.len() as int
        } else {
            rest
        }
    }
}

/// Every name in sight is bounded by [`max_name_len`].
pub proof fn lemma_max_name_len(ps: Seq<PlayerV>, admin: Seq<char>)
    ensures
        admin.len() <= max_name_len(ps, admin),
        forall|i: int| 0 <= i < ps.len() ==> (#[trigger] ps[i]).name.len() <= max_name_len(
            ps,
            admin,
        ),
    decreases ps.len(),
{
    if ps.len() > 0 {
        lemma_max_name_len(ps.drop_last(), admin);
        assert(forall|i: int| 0 <= i < ps.len() - 1 ==> ps.drop_last()[i] == ps[i]);
    }
}

/// A fresh player record: the given id and name, the configured starting
/// money and jokers, and every per-round transient at "not yet".
pub open spec fn new_player(u: Seq<char>, n: Seq<char>, money: i64, jokers: usize) -> PlayerV {
    PlayerV {
        uuid: u,
        name: n,
        jokers: jokers,
        money: money,
        money_bet: 0,
        vs_player: Seq::<char>::empty(),
        answer: 0,
    }
}

/// A copy of one player record, equal to the given one in every field.
pub fn clone_player(p: &PlayerData) -> (r: PlayerData)
    ensures
        r == *p,
{
    PlayerData {
        uuid: p.uuid.clone(),
        name: p.name.clone(),
        jokers: p.jokers,
        money: p.money,
        money_bet: p.money_bet,
        vs_player: p.vs_player.clone(),
        answer: p.answer,
    }
}

} // verus!
