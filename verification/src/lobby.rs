//! The lobby facade: one shared game-show lobby, its configuration, its
//! roster, its question list and its event log, with every player- and
//! admin-facing operation.
//!
//! The whole lobby has a mathematical model ([`GameV`], see `state`); every
//! operation's contract pins the new model down as a function of the old
//! one, except where randomness enters (name collisions, joker hints),
//! where the contract states what holds of every outcome.

use vstd::prelude::*;
use vstd::string::StringExecFns;
use crate::events::{Event, EventManager, EventV};
use crate::player::{
    clone_player, make_public_player_data, pub_roster, roster_view, PlayerData, PlayerV,
    PublicPlayerData,
};
use crate::question::{questions_ok, questions_view, Question};
use crate::state::{self, settings_update, settle, wf, GameV, LobbyState};

verus! {

/// Starting money of a freshly joined or reset player.
pub const INITIAL_MONEY: i64 = 500;

/// Starting joker count of a freshly joined or reset player.
pub const INITIAL_JOKERS: usize = 3;

/// Reward for a correct answer to a normal question.
pub const NORMAL_Q_MONEY: i64 = 500;

/// Reward for winning an estimation question.
pub const ESTIMATION_Q_MONEY: i64 = 1000;

/// A lobby about to announce its settings: the settings event, built from
/// the current configuration, appended to the log.
pub open spec fn with_settings_event(g: GameV) -> GameV {
    GameV { log: g.log.push(settings_update(g)), ..g }
}

/// The configuration after an admin preference update: each value is taken
/// only if it lies in its valid range, the rest are left alone.
pub open spec fn prefs_applied(
    g: GameV,
    initial_money: i64,
    initial_jokers: usize,
    normal_q_money: i64,
    estimation_q_money: i64,
) -> GameV {
    GameV {
        initial_money: if initial_money >= 0 {
            initial_money
        } else {
            g.initial_money
        },
        initial_jokers: initial_jokers,
        normal_q_money: if normal_q_money > 0 {
            normal_q_money
        } else {
            g.normal_q_money
        },
        estimation_q_money: if estimation_q_money > 0 {
            estimation_q_money
        } else {
            g.estimation_q_money
        },
        ..g
    }
}

/// The lobby after a fresh player joined under the given id and assigned
/// name: the new roster entry appended, then announced.
pub open spec fn joined_model(g: GameV, u: Seq<char>, n: Seq<char>) -> GameV {
    let ps = g.players.push(crate::player::new_player(u, n, g.initial_money, g.initial_jokers));
    GameV { players: ps, log: g.log.push(state::roster_update(ps)), ..g }
}

/// Every player with the given id has this bet recorded.
pub open spec fn bet_applied(ps: Seq<PlayerV>, u: Seq<char>, amount: i64) -> Seq<PlayerV> {
    Seq::new(
        ps.len(),
        |i: int|
            if ps[i].uuid == u {
                PlayerV { money_bet: amount, ..ps[i] }
            } else {
                ps[i]
            },
    )
}

/// Everyone except the acting player has placed a bet.
pub open spec fn all_bet(ps: Seq<PlayerV>, u: Seq<char>) -> bool {
    forall|i: int| 0 <= i < ps.len() && (#[trigger] ps[i]).uuid != u ==> ps[i].money_bet >= 1
}

/// The lobby after a bet in the betting phase: the bet recorded and
/// announced, and the phase marked ready once every player has bet.
pub open spec fn bet_model(g: GameV, u: Seq<char>, amount: i64) -> GameV {
    let ps = bet_applied(g.players, u, amount);
    let g1 = GameV { players: ps, log: g.log.push(state::roster_update(ps)), ..g };
    if all_bet(ps, u) {
        GameV { state: LobbyState::BettingQBetting(true), ..g1 }
    } else {
        g1
    }
}

/// Every player with the given id has this opponent recorded.
pub open spec fn attack_applied(ps: Seq<PlayerV>, u: Seq<char>, v: Seq<char>) -> Seq<PlayerV> {
    Seq::new(
        ps.len(),
        |i: int|
            if ps[i].uuid == u {
                PlayerV { vs_player: v, ..ps[i] }
            } else {
                ps[i]
            },
    )
}

/// Everyone except the acting player has chosen an opponent.
pub open spec fn all_selected(ps: Seq<PlayerV>, u: Seq<char>) -> bool {
    forall|i: int| 0 <= i < ps.len() && (#[trigger] ps[i]).uuid != u ==> ps[i].vs_player.len() > 0
}

/// The lobby after an opponent was chosen in the versus selection phase.
pub open spec fn attack_model(g: GameV, u: Seq<char>, v: Seq<char>) -> GameV {
    let ps = attack_applied(g.players, u, v);
    let g1 = GameV { players: ps, log: g.log.push(state::roster_update(ps)), ..g };
    if all_selected(ps, u) {
        GameV { state: LobbyState::VersusQSelecting(true), ..g1 }
    } else {
        g1
    }
}

/// Every player with the given id has this answer recorded.
pub open spec fn answer_applied(ps: Seq<PlayerV>, u: Seq<char>, answer: usize) -> Seq<PlayerV> {
    Seq::new(
        ps.len(),
        |i: int|
            if ps[i].uuid == u {
                PlayerV { answer: answer, ..ps[i] }
            } else {
                ps[i]
            },
    )
}

/// Everyone except the acting player has submitted an answer.
pub open spec fn all_answered(ps: Seq<PlayerV>, u: Seq<char>) -> bool {
    forall|i: int| 0 <= i < ps.len() && (#[trigger] ps[i]).uuid != u ==> ps[i].answer >= 1
}

/// An answering phase of any question kind, not yet ready.
pub open spec fn answering_state(s: LobbyState) -> bool {
    s == LobbyState::NormalQAnswering(false) || s == LobbyState::BettingQAnswering(false) || s
        == LobbyState::EstimationQAnswering(false) || s == LobbyState::VersusQAnswering(false)
}

/// The lobby after an answer in an answering phase: the answer recorded and
/// announced, and the phase marked ready once every player has answered.
pub open spec fn answer_model(g: GameV, u: Seq<char>, answer: usize) -> GameV {
    let ps = answer_applied(g.players, u, answer);
    let g1 = GameV { players: ps, log: g.log.push(state::roster_update(ps)), ..g };
    if all_answered(ps, u) {
        GameV { state: state::ready_state(g.state), ..g1 }
    } else {
        g1
    }
}

/// The first player with the given id consumed one joker.
pub open spec fn joker_applied(ps: Seq<PlayerV>, u: Seq<char>) -> Seq<PlayerV> {
    Seq::new(
        ps.len(),
        |i: int|
            if ps[i].uuid == u && (forall|k: int| 0 <= k < i ==> (#[trigger] ps[k]).uuid != u) {
                PlayerV { jokers: (ps[i].jokers - 1) as usize, ..ps[i] }
            } else {
                ps[i]
            },
    )
}

/// Every remaining player has placed a bet.
pub open spec fn everyone_bet(ps: Seq<PlayerV>) -> bool {
    forall|i: int| 0 <= i < ps.len() ==> (#[trigger] ps[i]).money_bet >= 1
}

/// Every remaining player has chosen an opponent.
pub open spec fn everyone_selected(ps: Seq<PlayerV>) -> bool {
    forall|i: int| 0 <= i < ps.len() ==> (#[trigger] ps[i]).vs_player.len() > 0
}

/// Every remaining player has submitted an answer.
pub open spec fn everyone_answered(ps: Seq<PlayerV>) -> bool {
    forall|i: int| 0 <= i < ps.len() ==> (#[trigger] ps[i]).answer >= 1
}

/// The roster satisfies the waiting phase's completion condition: every
/// player still in the lobby has supplied the input the phase waits for.
/// A departure is what can newly make this true.
pub open spec fn roster_completes(s: LobbyState, ps: Seq<PlayerV>) -> bool {
    match s {
        LobbyState::BettingQBetting(false) => everyone_bet(ps),
        LobbyState::VersusQSelecting(false) => everyone_selected(ps),
        LobbyState::NormalQAnswering(false) | LobbyState::BettingQAnswering(false)
            | LobbyState::EstimationQAnswering(false) | LobbyState::VersusQAnswering(false) => {
            everyone_answered(ps)
        },
        _ => false,
    }
}

/// The lobby after a roster removal: the remaining players announced; if
/// the departure completed the waiting phase's condition, the phase is
/// marked ready and the machine runs.
pub open spec fn removal_model(g: GameV, ps: Seq<PlayerV>) -> GameV {
    let g1 = GameV { players: ps, log: g.log.push(state::roster_update(ps)), ..g };
    if roster_completes(g.state, ps) {
        settle(GameV { state: state::ready_state(g.state), ..g1 })
    } else {
        g1
    }
}

/// If a player with this id has joined, the first such roster entry still
/// holds a joker to spend.
pub open spec fn joker_available(ps: Seq<PlayerV>, u: Seq<char>) -> bool {
    forall|i: int|
        0 <= i < ps.len() && (#[trigger] ps[i]).uuid == u && (forall|k: int|
            0 <= k < i ==> (#[trigger] ps[k]).uuid != u) ==> ps[i].jokers >= 1
}

/// One game-show lobby; includes all data and methods to interact.
pub struct Gameshow {
    pub admin_uuid: String,
    pub admin_name: String,
    pub open: bool,
    pub param_initial_money: i64,
    pub param_initial_jokers: usize,
    pub param_normal_q_money: i64,
    pub param_estimation_q_money: i64,
    pub question_set: String,
    pub lobby_state: LobbyState,
    pub questions: Vec<Question>,
    pub current_question: usize,
    pub player_data: Vec<PlayerData>,
    pub game_events: EventManager,
}

impl View for Gameshow {
    type V = GameV;

    open spec fn view(&self) -> GameV {
        GameV {
            admin_uuid: self.admin_uuid@,
            admin_name: self.admin_name@,
            open: self.open,
            initial_money: self.param_initial_money,
            initial_jokers: self.param_initial_jokers,
            normal_q_money: self.param_normal_q_money,
            estimation_q_money: self.param_estimation_q_money,
            question_set: self.question_set@,
            state: self.lobby_state,
            questions: questions_view(self.questions@),
            current_question: self.current_question,
            players: roster_view(self.player_data@),
            log: self.game_events@,
        }
    }
}

impl Gameshow {
    /// A fresh lobby under the given admin: open, default economic
    /// parameters, no question set, no players, no events, idle.
    pub fn new(admin: String, name: String) -> (r: Gameshow)
        ensures
            r@ == (GameV {
                admin_uuid: admin@,
                admin_name: name@,
                open: true,
                initial_money: INITIAL_MONEY,
                initial_jokers: INITIAL_JOKERS,
                normal_q_money: NORMAL_Q_MONEY,
                estimation_q_money: ESTIMATION_Q_MONEY,
                question_set: Seq::<char>::empty(),
                state: LobbyState::Menu(false),
                questions: Seq::<crate::question::QuestionV>::empty(),
                current_question: 0,
                players: Seq::<PlayerV>::empty(),
                log: Seq::<EventV>::empty(),
            }),
            wf(r@),
            state::at_rest(r@),
    {
        let r = Gameshow {
            admin_uuid: admin,
            admin_name: name,
            open: true,
            param_initial_money: INITIAL_MONEY,
            param_initial_jokers: INITIAL_JOKERS,
            param_normal_q_money: NORMAL_Q_MONEY,
            param_estimation_q_money: ESTIMATION_Q_MONEY,
            question_set: String::new(),
            lobby_state: LobbyState::Menu(false),
            questions: Vec::new(),
            current_question: 0,
            player_data: Vec::new(),
            game_events: EventManager::new(),
        };
        proof {
            assert(r@.questions =~= Seq::<crate::question::QuestionV>::empty());
            assert(r@.players =~= Seq::<PlayerV>::empty());
            assert(r@ =~= (GameV {
                admin_uuid: r.admin_uuid@,
                admin_name: r.admin_name@,
                open: true,
                initial_money: INITIAL_MONEY,
                initial_jokers: INITIAL_JOKERS,
                normal_q_money: NORMAL_Q_MONEY,
                estimation_q_money: ESTIMATION_Q_MONEY,
                question_set: Seq::<char>::empty(),
                state: LobbyState::Menu(false),
                questions: Seq::<crate::question::QuestionV>::empty(),
                current_question: 0,
                players: Seq::<PlayerV>::empty(),
                log: Seq::<EventV>::empty(),
            }));
        }
        r
    }

    /// The admin's stable id.
    pub fn get_admin_uuid(&self) -> (r: String)
        ensures
            r@ == self@.admin_uuid,
    {
        self.admin_uuid.clone()
    }

    /// The admin's display name.
    pub fn get_admin_name(&self) -> (r: String)
        ensures
            r@ == self@.admin_name,
    {
        self.admin_name.clone()
    }

    /// Hand the lobby to another admin identity.
    pub fn set_admin(&mut self, admin: String, name: String)
        ensures
            final(self)@ == (GameV { admin_uuid: admin@, admin_name: name@, ..old(self)@ }),
    {
        self.admin_uuid = admin;
        self.admin_name = name;
        proof {
            assert(self@ =~= (GameV {
                admin_uuid: self.admin_uuid@,
                admin_name: self.admin_name@,
                ..old(self)@
            }));
        }
    }

    /// Whether the lobby accepts additional players.
    pub fn is_open(&self) -> (r: bool)
        ensures
            r == self@.open,
    {
        self.open
    }

    /// Starting money handed to every player.
    pub fn get_initial_money(&self) -> (r: i64)
        ensures
            r == self@.initial_money,
    {
        self.param_initial_money
    }

    /// Starting joker count handed to every player.
    pub fn get_initial_jokers(&self) -> (r: usize)
        ensures
            r == self@.initial_jokers,
    {
        self.param_initial_jokers
    }

    /// Reward for a correct normal answer.
    pub fn get_normal_q_money(&self) -> (r: i64)
        ensures
            r == self@.normal_q_money,
    {
        self.param_normal_q_money
    }

    /// Reward for winning an estimation question.
    pub fn get_estimation_q_money(&self) -> (r: i64)
        ensures
            r == self@.estimation_q_money,
    {
        self.param_estimation_q_money
    }

    /// Name of the selected question set.
    pub fn get_question_set(&self) -> (r: String)
        ensures
            r@ == self@.question_set,
    {
        self.question_set.clone()
    }

    /// The public view of the current roster.
    pub fn get_player_data(&self) -> (r: Vec<PublicPlayerData>)
        ensures
            r@.map_values(|p: PublicPlayerData| p@) == pub_roster(self@.players),
    {
        make_public_player_data(&self.player_data)
    }

    /// The full durable event log, oldest first.
    pub fn get_events(&self) -> (r: Vec<Event>)
        ensures
            r@.map_values(|e: Event| e@) == self@.log,
    {
        self.game_events.get()
    }

    /// Announce the current lobby settings to clients.
    fn generate_lobby_update(&mut self)
        ensures
            final(self)@ == with_settings_event(old(self)@),
    {
        let ev = Event::LobbySettingsUpdate {
            open: self.open,
            initial_money: self.param_initial_money,
            initial_jokers: self.param_initial_jokers,
            normal_q_money: self.param_normal_q_money,
            estimation_q_money: self.param_estimation_q_money,
            question_set: self.question_set.clone(),
        };
        self.game_events.add(ev);
        proof {
            assert(self@ =~= with_settings_event(old(self)@));
        }
    }

    /// Open or close the lobby to additional players, in any phase, and
    /// announce the settings.
    pub fn set_open(&mut self, open: bool)
        ensures
            final(self)@ == with_settings_event(GameV { open: open, ..old(self)@ }),
    {
        self.open = open;
        self.generate_lobby_update();
        proof {
            assert(self@ =~= with_settings_event(GameV { open: open, ..old(self)@ }));
        }
    }

    /// Tune the economic parameters. Only heard while the lobby is idle
    /// with nothing pending; each out-of-range value is ignored on its own
    /// (money must be at least zero, rewards above zero).
    pub fn update_preferences(
        &mut self,
        initial_money: i64,
        initial_jokers: usize,
        normal_q_money: i64,
        estimation_q_money: i64,
    )
        ensures
            old(self)@.state != LobbyState::Menu(false) ==> final(self)@ == old(self)@,
            old(self)@.state == LobbyState::Menu(false) ==> final(self)@ == with_settings_event(
                prefs_applied(
                    old(self)@,
                    initial_money,
                    initial_jokers,
                    normal_q_money,
                    estimation_q_money,
                ),
            ),
    {
        if !(self.lobby_state == LobbyState::Menu(false)) {
            return ;
        }
        if initial_money >= 0 {
            self.param_initial_money = initial_money;
        }
        self.param_initial_jokers = initial_jokers;
        if normal_q_money > 0 {
            self.param_normal_q_money = normal_q_money;
        }
        if estimation_q_money > 0 {
            self.param_estimation_q_money = estimation_q_money;
        }
        self.generate_lobby_update();
        proof {
            assert(self@ =~= with_settings_event(
                prefs_applied(
                    old(self)@,
                    initial_money,
                    initial_jokers,
                    normal_q_money,
                    estimation_q_money,
                ),
            ));
        }
    }

    /// Select a question set by name, handing over the questions that were
    /// loaded for it (discovering and parsing question files is the
    /// caller's concern). Only heard while the lobby is idle with nothing
    /// pending; the `"custom"` sentinel keeps the stored list untouched so
    /// it can be supplied explicitly through [`Gameshow::set_questions`].
    pub fn set_question_set(&mut self, question_set: String, questions: Vec<Question>)
        requires
            questions_ok(questions_view(questions@)),
            questions@.len() < usize::MAX,
        ensures
            old(self)@.state != LobbyState::Menu(false) ==> final(self)@ == old(self)@,
            old(self)@.state == LobbyState::Menu(false) && question_set@ != "custom"@
                ==> final(self)@ == with_settings_event(
                GameV {
                    question_set: question_set@,
                    current_question: 0,
                    questions: questions_view(questions@),
                    ..old(self)@
                },
            ),
            old(self)@.state == LobbyState::Menu(false) && question_set@ == "custom"@
                ==> final(self)@ == with_settings_event(
                (GameV { question_set: question_set@, ..old(self)@ }),
            ),
            wf(old(self)@) ==> wf(final(self)@),
    {
        if !(self.lobby_state == LobbyState::Menu(false)) {
            return ;
        }
        let custom = crate::player::str_eq(question_set.as_str(), "custom");
        self.question_set = question_set;
        if !custom {
            self.current_question = 0;
            self.questions = questions;
        }
        self.generate_lobby_update();
        proof {
            if custom {
                assert(self@ =~= with_settings_event(
                    GameV { question_set: self.question_set@, ..old(self)@ },
                ));
            } else {
                assert(self@ =~= with_settings_event(
                    GameV {
                        question_set: self.question_set@,
                        current_question: 0,
                        questions: questions_view(self.questions@),
                        ..old(self)@
                    },
                ));
            }
        }
    }

    /// Store an explicitly supplied question list. Only heard while the
    /// lobby is idle with nothing pending and the selected set is the
    /// `"custom"` sentinel.
    pub fn set_questions(&mut self, questions: Vec<Question>)
        requires
            questions_ok(questions_view(questions@)),
            questions@.len() < usize::MAX,
        ensures
            old(self)@.state != LobbyState::Menu(false) || old(self)@.question_set != "custom"@
                ==> final(self)@ == old(self)@,
            old(self)@.state == LobbyState::Menu(false) && old(self)@.question_set == "custom"@
                ==> final(self)@ == (GameV {
                current_question: 0,
                questions: questions_view(questions@),
                ..old(self)@
            }),
            wf(old(self)@) ==> wf(final(self)@),
    {
        let custom = crate::player::str_eq(self.question_set.as_str(), "custom");
        if !(self.lobby_state == LobbyState::Menu(false)) || !custom {
            return ;
        }
        self.current_question = 0;
        self.questions = questions;
        proof {
            assert(self@ =~= (GameV {
                current_question: 0,
                questions: questions_view(self.questions@),
                ..old(self)@
            }));
        }
    }

    /// Run transitions until the machine settles (see [`state::step_of`]).
    pub fn state_transition(&mut self)
        requires
            wf(old(self)@),
        ensures
            final(self)@ == settle(old(self)@),
            wf(final(self)@),
    {
        let ghost g0 = self@;
        let mut repeat = true;
        while repeat
            invariant
                wf(self@),
                repeat ==> self@ == g0 || (state::step_of(g0).1 == false && self@
                    == state::step_of(g0).0),
                !repeat ==> self@ == settle(g0),
            decreases (if repeat {
                2int
            } else {
                0int
            }) + (if self@.state == LobbyState::Menu(true) {
                1int
            } else {
                0int
            }),
        {
            let done = state::state_transition(self);
            repeat = !done;
        }
    }

    /// The admin's forced advance: raise the current phase's ready flag
    /// without checking its completion condition, then let the machine run.
    pub fn next_state(&mut self)
        requires
            wf(old(self)@),
        ensures
            final(self)@ == settle(
                (GameV { state: state::ready_state(old(self)@.state), ..old(self)@ }),
            ),
            wf(final(self)@),
            state::at_rest(final(self)@),
    {
        state::initiate_next(&mut self.lobby_state);
        proof {
            assert(self@ =~= (GameV { state: state::ready_state(old(self)@.state), ..old(self)@ }));
        }
        self.state_transition();
        proof {
            state::lemma_settle_rest(GameV { state: state::ready_state(old(self)@.state), ..old(self)@ });
        }
    }

    /// Whether a player with this stable id has joined.
    pub fn is_joined(&self, uuid: &str) -> (r: bool)
        ensures
            r == crate::player::has_uuid(self@.players, uuid@),
    {
        let n = self.player_data.len();
        let mut found = false;
        let mut i: usize = 0;
        while i < n
            invariant
                i <= n,
                n == self.player_data@.len(),
                !found ==> forall|k: int| 0 <= k < i ==> (#[trigger] self@.players[k]).uuid
                    != uuid@,
                found ==> crate::player::has_uuid(self@.players, uuid@),
            decreases n - i,
        {
            if crate::player::str_eq(self.player_data[i].uuid.as_str(), uuid) {
                proof {
                    assert((#[trigger] self@.players[i as int]).uuid == uuid@);
                }
                found = true;
            }
            i = i + 1;
        }
        proof {
            if !found {
                assert forall|k: int|
                    !(0 <= k < self@.players.len() && (#[trigger] self@.players[k]).uuid
                        == uuid@) by {}
            }
        }
        found
    }

    /// The display name of the player with this stable id, if any has
    /// joined: the first roster entry carrying the id.
    pub fn get_player_name(&self, uuid: &str) -> (r: Option<String>)
        ensures
            r is Some <==> crate::player::has_uuid(self@.players, uuid@),
            match r {
                Some(name) => exists|i: int|
                    0 <= i < self@.players.len() && (#[trigger] self@.players[i]).uuid == uuid@
                        && self@.players[i].name == name@ && (forall|k: int|
                        0 <= k < i ==> (#[trigger] self@.players[k]).uuid != uuid@),
                None => true,
            },
    {
        let n = self.player_data.len();
        let mut i: usize = 0;
        while i < n
            invariant
                i <= n,
                n == self.player_data@.len(),
                forall|k: int| 0 <= k < i ==> (#[trigger] self@.players[k]).uuid != uuid@,
            decreases n - i,
        {
            if crate::player::str_eq(self.player_data[i].uuid.as_str(), uuid) {
                proof {
                    assert((#[trigger] self@.players[i as int]).uuid == uuid@);
                }
                return Some(self.player_data[i].name.clone());
            }
            i = i + 1;
        }
        proof {
            assert forall|k: int|
                !(0 <= k < self@.players.len() && (#[trigger] self@.players[k]).uuid
                    == uuid@) by {}
        }
        None
    }

    /// The money of the player with this stable id, if any has joined.
    pub fn get_player_money(&self, uuid: &str) -> (r: Option<i64>)
        ensures
            r is Some <==> crate::player::has_uuid(self@.players, uuid@),
            match r {
                Some(m) => exists|i: int|
                    0 <= i < self@.players.len() && (#[trigger] self@.players[i]).uuid == uuid@
                        && self@.players[i].money == m && (forall|k: int|
                        0 <= k < i ==> (#[trigger] self@.players[k]).uuid != uuid@),
                None => true,
            },
    {
        let n = self.player_data.len();
        let mut i: usize = 0;
        while i < n
            invariant
                i <= n,
                n == self.player_data@.len(),
                forall|k: int| 0 <= k < i ==> (#[trigger] self@.players[k]).uuid != uuid@,
            decreases n - i,
        {
            if crate::player::str_eq(self.player_data[i].uuid.as_str(), uuid) {
                proof {
                    assert((#[trigger] self@.players[i as int]).uuid == uuid@);
                }
                return Some(self.player_data[i].money);
            }
            i = i + 1;
        }
        proof {
            assert forall|k: int|
                !(0 <= k < self@.players.len() && (#[trigger] self@.players[k]).uuid
                    == uuid@) by {}
        }
        None
    }

    /// The joker count of the player with this stable id, if any has
    /// joined.
    pub fn get_player_jokers(&self, uuid: &str) -> (r: Option<usize>)
        ensures
            r is Some <==> crate::player::has_uuid(self@.players, uuid@),
            match r {
                Some(j) => exists|i: int|
                    0 <= i < self@.players.len() && (#[trigger] self@.players[i]).uuid == uuid@
                        && self@.players[i].jokers == j && (forall|k: int|
                        0 <= k < i ==> (#[trigger] self@.players[k]).uuid != uuid@),
                None => true,
            },
    {
        let n = self.player_data.len();
        let mut i: usize = 0;
        while i < n
            invariant
                i <= n,
                n == self.player_data@.len(),
                forall|k: int| 0 <= k < i ==> (#[trigger] self@.players[k]).uuid != uuid@,
            decreases n - i,
        {
            if crate::player::str_eq(self.player_data[i].uuid.as_str(), uuid) {
                proof {
                    assert((#[trigger] self@.players[i as int]).uuid == uuid@);
                }
                return Some(self.player_data[i].jokers);
            }
            i = i + 1;
        }
        proof {
            assert forall|k: int|
                !(0 <= k < self@.players.len() && (#[trigger] self@.players[k]).uuid
                    == uuid@) by {}
        }
        None
    }

    /// Whether the waiting phase's completion condition holds of the whole
    /// stored roster (see [`roster_completes`]).
    fn roster_completes_now(&self) -> (r: bool)
        ensures
            r == roster_completes(self@.state, self@.players),
    {
        let n = self.player_data.len();
        match self.lobby_state {
            LobbyState::BettingQBetting(false) => {
                let mut ok = true;
                let mut i: usize = 0;
                while i < n
                    invariant
                        i <= n,
                        n == self.player_data@.len(),
                        ok ==> forall|k: int| 0 <= k < i ==> (#[trigger] self@.players[k]).money_bet
                            >= 1,
                        !ok ==> exists|k: int| 0 <= k < self@.players.len() && (
                        #[trigger] self@.players[k]).money_bet < 1,
                    decreases n - i,
                {
                    if self.player_data[i].money_bet < 1 {
                        proof {
                            assert((#[trigger] self@.players[i as int]).money_bet < 1);
                        }
                        ok = false;
                    }
                    i = i + 1;
                }
                ok
            },
            LobbyState::VersusQSelecting(false) => {
                let mut ok = true;
                let mut i: usize = 0;
                while i < n
                    invariant
                        i <= n,
                        n == self.player_data@.len(),
                        ok ==> forall|k: int| 0 <= k < i ==> (
                        #[trigger] self@.players[k]).vs_player.len() > 0,
                        !ok ==> exists|k: int| 0 <= k < self@.players.len() && (
                        #[trigger] self@.players[k]).vs_player.len() == 0,
                    decreases n - i,
                {
                    if self.player_data[i].vs_player.as_str().is_empty() {
                        proof {
                            assert((#[trigger] self@.players[i as int]).vs_player.len() == 0);
                        }
                        ok = false;
                    }
                    i = i + 1;
                }
                ok
            },
            LobbyState::NormalQAnswering(false) | LobbyState::BettingQAnswering(false)
                | LobbyState::EstimationQAnswering(false) | LobbyState::VersusQAnswering(
                false,
            ) => {
                let mut ok = true;
                let mut i: usize = 0;
                while i < n
                    invariant
                        i <= n,
                        n == self.player_data@.len(),
                        ok ==> forall|k: int| 0 <= k < i ==> (#[trigger] self@.players[k]).answer
                            >= 1,
                        !ok ==> exists|k: int| 0 <= k < self@.players.len() && (
                        #[trigger] self@.players[k]).answer < 1,
                    decreases n - i,
                {
                    if self.player_data[i].answer < 1 {
                        proof {
                            assert((#[trigger] self@.players[i as int]).answer < 1);
                        }
                        ok = false;
                    }
                    i = i + 1;
                }
                ok
            },
            _ => false,
        }
    }

    /// A player leaves, identified by stable id: idempotent removal, a
    /// roster update when something changed, and a transition attempt: the
    /// departure of the last hold-out completes the waiting phase.
    pub fn leave(&mut self, uuid: &str) -> (r: bool)
        requires
            wf(old(self)@),
            state::at_rest(old(self)@),
        ensures
            r == crate::player::has_uuid(old(self)@.players, uuid@),
            r ==> final(self)@ == removal_model(
                old(self)@,
                crate::player::removed_uuid(old(self)@.players, uuid@),
            ),
            !r ==> final(self)@ == old(self)@,
            wf(final(self)@),
            state::at_rest(final(self)@),
    {
        let ghost orig = self@.players;
        let contained = self.is_joined(uuid);
        if contained {
            let n = self.player_data.len();
            let mut kept: Vec<PlayerData> = Vec::new();
            let mut i: usize = 0;
            while i < n
                invariant
                    i <= n,
                    n == self.player_data@.len(),
                    orig == self@.players,
                    roster_view(kept@) =~= crate::player::removed_uuid(
                        orig.take(i as int),
                        uuid@,
                    ),
                decreases n - i,
            {
                proof {
                    assert(orig.take(i as int + 1).drop_last() =~= orig.take(i as int));
                    assert(orig.take(i as int + 1).last() == orig[i as int]);
                }
                if !crate::player::str_eq(self.player_data[i].uuid.as_str(), uuid) {
                    kept.push(clone_player(&self.player_data[i]));
                    proof {
                        assert(roster_view(kept@) =~= crate::player::removed_uuid(
                            orig.take(i as int + 1),
                            uuid@,
                        ));
                    }
                }
                i = i + 1;
            }
            proof {
                assert(orig.take(n as int) =~= orig);
            }
            self.player_data = kept;
            let ev = Event::PlayerListUpdate {
                player_data: make_public_player_data(&self.player_data),
            };
            self.game_events.add(ev);
            proof {
                assert(self@ =~= (GameV {
                    players: crate::player::removed_uuid(orig, uuid@),
                    log: old(self)@.log.push(
                        state::roster_update(crate::player::removed_uuid(orig, uuid@)),
                    ),
                    ..old(self)@
                }));
            }
            let ghost g1 = self@;
            let ready = self.roster_completes_now();
            if ready {
                state::initiate_next(&mut self.lobby_state);
                proof {
                    assert(self@ =~= (GameV { state: state::ready_state(g1.state), ..g1 }));
                }
            }
            self.state_transition();
            proof {
                if ready {
                    state::lemma_settle_rest(GameV { state: state::ready_state(g1.state), ..g1 });
                }
            }
        } else {
            self.state_transition();
        }
        contained
    }

    /// The admin throws a player out, identified by display name:
    /// idempotent removal, a roster update when something changed, and a
    /// transition attempt: the departure of the last hold-out completes
    /// the waiting phase.
    pub fn kick_player(&mut self, name: &str) -> (r: bool)
        requires
            wf(old(self)@),
            state::at_rest(old(self)@),
        ensures
            r == crate::player::has_name(old(self)@.players, name@),
            r ==> final(self)@ == removal_model(
                old(self)@,
                crate::player::removed_name(old(self)@.players, name@),
            ),
            !r ==> final(self)@ == old(self)@,
            wf(final(self)@),
            state::at_rest(final(self)@),
    {
        let ghost orig = self@.players;
        let contained = self.is_valid_vs_player(name);
        if contained {
            let n = self.player_data.len();
            let mut kept: Vec<PlayerData> = Vec::new();
            let mut i: usize = 0;
            while i < n
                invariant
                    i <= n,
                    n == self.player_data@.len(),
                    orig == self@.players,
                    roster_view(kept@) =~= crate::player::removed_name(
                        orig.take(i as int),
                        name@,
                    ),
                decreases n - i,
            {
                proof {
                    assert(orig.take(i as int + 1).drop_last() =~= orig.take(i as int));
                    assert(orig.take(i as int + 1).last() == orig[i as int]);
                }
                if !crate::player::str_eq(self.player_data[i].name.as_str(), name) {
                    kept.push(clone_player(&self.player_data[i]));
                    proof {
                        assert(roster_view(kept@) =~= crate::player::removed_name(
                            orig.take(i as int + 1),
                            name@,
                        ));
                    }
                }
                i = i + 1;
            }
            proof {
                assert(orig.take(n as int) =~= orig);
            }
            self.player_data = kept;
            let ev = Event::PlayerListUpdate {
                player_data: make_public_player_data(&self.player_data),
            };
            self.game_events.add(ev);
            proof {
                assert(self@ =~= (GameV {
                    players: crate::player::removed_name(orig, name@),
                    log: old(self)@.log.push(
                        state::roster_update(crate::player::removed_name(orig, name@)),
                    ),
                    ..old(self)@
                }));
            }
            let ghost g1 = self@;
            let ready = self.roster_completes_now();
            if ready {
                state::initiate_next(&mut self.lobby_state);
                proof {
                    assert(self@ =~= (GameV { state: state::ready_state(g1.state), ..g1 }));
                }
            }
            self.state_transition();
            proof {
                if ready {
                    state::lemma_settle_rest(GameV { state: state::ready_state(g1.state), ..g1 });
                }
            }
        } else {
            self.state_transition();
        }
        contained
    }

    /// The admin sets a player's money and jokers by display name; every
    /// player carrying the name is updated, and a roster update follows if
    /// anything changed.
    pub fn set_player_attributes(&mut self, name: &str, money: i64, jokers: usize) -> (r: bool)
        ensures
            r == crate::player::has_name(old(self)@.players, name@),
            r ==> final(self)@ == (GameV {
                players: crate::player::attrs_applied(old(self)@.players, name@, money, jokers),
                log: old(self)@.log.push(
                    state::roster_update(
                        crate::player::attrs_applied(old(self)@.players, name@, money, jokers),
                    ),
                ),
                ..old(self)@
            }),
            !r ==> final(self)@ == old(self)@,
    {
        let ghost orig = self@.players;
        let n = self.player_data.len();
        let mut contained = false;
        let mut i: usize = 0;
        while i < n
            invariant
                i <= n,
                self.player_data@.len() == n,
                orig == old(self)@.players,
                orig.len() == n,
                self.game_events == old(self).game_events,
                self.admin_uuid == old(self).admin_uuid,
                self.admin_name == old(self).admin_name,
                self.open == old(self).open,
                self.param_initial_money == old(self).param_initial_money,
                self.param_initial_jokers == old(self).param_initial_jokers,
                self.param_normal_q_money == old(self).param_normal_q_money,
                self.param_estimation_q_money == old(self).param_estimation_q_money,
                self.question_set == old(self).question_set,
                self.lobby_state == old(self).lobby_state,
                self.questions == old(self).questions,
                self.current_question == old(self).current_question,
                !contained ==> forall|k: int| 0 <= k < i ==> (#[trigger] orig[k]).name != name@,
                contained ==> crate::player::has_name(orig, name@),
                forall|k: int| 0 <= k < i ==> (#[trigger] self.player_data@[k])@ == (if orig[k].name
                    == name@ {
                    PlayerV { money: money, jokers: jokers, ..orig[k] }
                } else {
                    orig[k]
                }),
                forall|k: int| i <= k < n ==> #[trigger] self.player_data@[k] == old(
                    self,
                ).player_data@[k],
            decreases n - i,
        {
            proof {
                assert(orig.take(i as int + 1).drop_last() =~= orig.take(i as int));
                assert(orig.take(i as int + 1).last() == orig[i as int]);
            }
            if crate::player::str_eq(self.player_data[i].name.as_str(), name) {
                let mut p = clone_player(&self.player_data[i]);
                p.money = money;
                p.jokers = jokers;
                self.player_data.set(i, p);
                contained = true;
            }
            i = i + 1;
        }
        proof {
            if !contained {
                assert forall|k: int|
                    !(0 <= k < orig.len() && (#[trigger] orig[k]).name == name@) by {}
            }
            assert(roster_view(self.player_data@) =~= crate::player::attrs_applied(
                orig,
                name@,
                money,
                jokers,
            ));
        }
        if contained {
            let ev = Event::PlayerListUpdate {
                player_data: make_public_player_data(&self.player_data),
            };
            self.game_events.add(ev);
            proof {
                assert(self@ =~= (GameV {
                    players: crate::player::attrs_applied(orig, name@, money, jokers),
                    log: old(self)@.log.push(
                        state::roster_update(
                            crate::player::attrs_applied(orig, name@, money, jokers),
                        ),
                    ),
                    ..old(self)@
                }));
            }
        } else {
            proof {
                assert(roster_view(self.player_data@) =~= orig);
                assert(self@ =~= old(self)@);
            }
        }
        contained
    }

    /// Whether this display name belongs to a joined player, so that a
    /// versus round may target it.
    pub fn is_valid_vs_player(&self, vs_player: &str) -> (r: bool)
        ensures
            r == crate::player::has_name(self@.players, vs_player@),
    {
        let n = self.player_data.len();
        let mut found = false;
        let mut i: usize = 0;
        while i < n
            invariant
                i <= n,
                n == self.player_data@.len(),
                !found ==> forall|k: int| 0 <= k < i ==> (#[trigger] self@.players[k]).name
                    != vs_player@,
                found ==> crate::player::has_name(self@.players, vs_player@),
            decreases n - i,
        {
            if crate::player::str_eq(self.player_data[i].name.as_str(), vs_player) {
                proof {
                    assert((#[trigger] self@.players[i as int]).name == vs_player@);
                }
                found = true;
            }
            i = i + 1;
        }
        proof {
            if !found {
                assert forall|k: int|
                    !(0 <= k < self@.players.len() && (#[trigger] self@.players[k]).name
                        == vs_player@) by {}
            }
        }
        found
    }

    /// A player joins, or rejoins, under a stable id and a requested name.
    ///
    /// Rejoining with a known id is idempotent: the previously assigned
    /// name comes back and nothing changes, whether or not the lobby is
    /// open. A fresh joiner needs the lobby open, except the admin's id,
    /// which always joins; either receives the requested name, extended by
    /// random suffixes until it collides with no joined player's name and
    /// not with the admin's, so display names stay distinct.
    pub fn join(&mut self, uuid: &str, name: String) -> (r: Option<String>)
        requires
            wf(old(self)@),
            state::at_rest(old(self)@),
        ensures
            wf(final(self)@),
            state::at_rest(final(self)@),
            match r {
                Some(assigned) => {
                    if crate::player::has_uuid(old(self)@.players, uuid@) {
                        &&& final(self)@ == old(self)@
                        &&& exists|i: int|
                            0 <= i < old(self)@.players.len() && (#[trigger] old(
                                self,
                            )@.players[i]).uuid == uuid@ && old(self)@.players[i].name
                                == assigned@ && (forall|k: int|
                                0 <= k < i ==> (#[trigger] old(self)@.players[k]).uuid != uuid@)
                    } else {
                        &&& (uuid@ == old(self)@.admin_uuid || old(self)@.open)
                        &&& !crate::player::has_name(old(self)@.players, assigned@)
                        &&& assigned@ != old(self)@.admin_name
                        &&& name@.is_prefix_of(assigned@)
                        &&& (!crate::player::has_name(old(self)@.players, name@) && name@ != old(
                            self,
                        )@.admin_name ==> assigned@ == name@)
                        &&& final(self)@ == joined_model(old(self)@, uuid@, assigned@)
                    }
                },
                None => {
                    &&& !crate::player::has_uuid(old(self)@.players, uuid@)
                    &&& uuid@ != old(self)@.admin_uuid
                    &&& !old(self)@.open
                    &&& final(self)@ == old(self)@
                },
            },
    {
        let ghost g0 = self@;
        let n = self.player_data.len();
        let mut i: usize = 0;
        while i < n
            invariant
                i <= n,
                n == self.player_data@.len(),
                self@ == old(self)@,
                wf(self@),
                state::at_rest(self@),
                forall|k: int| 0 <= k < i ==> (#[trigger] self@.players[k]).uuid != uuid@,
            decreases n - i,
        {
            if crate::player::str_eq(self.player_data[i].uuid.as_str(), uuid) {
                proof {
                    assert((#[trigger] self@.players[i as int]).uuid == uuid@);
                }
                return Some(self.player_data[i].name.clone());
            }
            i = i + 1;
        }
        proof {
            assert forall|k: int|
                !(0 <= k < self@.players.len() && (#[trigger] self@.players[k]).uuid
                    == uuid@) by {}
        }
        let is_admin = crate::player::str_eq(self.admin_uuid.as_str(), uuid);
        if is_admin || self.open {
            let admin_name = self.admin_name.clone();
            let mut assigned = name;
            let ghost requested = assigned@;
            let ghost maxl = crate::player::max_name_len(g0.players, g0.admin_name);
            proof {
                crate::player::lemma_max_name_len(g0.players, g0.admin_name);
                assert(requested.subrange(0, requested.len() as int) =~= requested);
            }
            let mut taken = self.is_valid_vs_player(assigned.as_str());
            let mut same_admin = crate::player::str_eq(assigned.as_str(), admin_name.as_str());
            while taken || same_admin
                invariant
                    self == old(self),
                    g0 == self@,
                    admin_name@ == g0.admin_name,
                    maxl == crate::player::max_name_len(g0.players, g0.admin_name),
                    taken == crate::player::has_name(g0.players, assigned@),
                    same_admin == (assigned@ == g0.admin_name),
                    requested.is_prefix_of(assigned@),
                    assigned@ == requested || crate::player::has_name(g0.players, requested)
                        || requested == g0.admin_name,
                    (taken || same_admin) ==> assigned@.len() <= maxl,
                decreases (if assigned@.len() > maxl {
                    0int
                } else {
                    maxl + 1 - assigned@.len()
                }),
            {
                proof {
                    crate::player::lemma_max_name_len(g0.players, g0.admin_name);
                }
                let ghost prev = assigned@;
                let suffix = crate::rng::generate_random_string(2);
                assigned.append(suffix.as_str());
                proof {
                    assert(assigned@.subrange(0, requested.len() as int) =~= prev.subrange(
                        0,
                        requested.len() as int,
                    ));
                }
                taken = self.is_valid_vs_player(assigned.as_str());
                same_admin = crate::player::str_eq(assigned.as_str(), admin_name.as_str());
            }
            let money = self.param_initial_money;
            let jokers = self.param_initial_jokers;
            self.player_data.push(PlayerData {
                uuid: uuid.to_owned(),
                name: assigned.clone(),
                jokers: jokers,
                money: money,
                money_bet: 0,
                vs_player: String::new(),
                answer: 0,
            });
            let ev = Event::PlayerListUpdate {
                player_data: make_public_player_data(&self.player_data),
            };
            self.game_events.add(ev);
            proof {
                assert(roster_view(self.player_data@) =~= g0.players.push(
                    crate::player::new_player(
                        uuid@,
                        assigned@,
                        g0.initial_money,
                        g0.initial_jokers,
                    ),
                ));
                assert(self@ =~= joined_model(g0, uuid@, assigned@));
            }
            Some(assigned)
        } else {
            None
        }
    }

    /// Place a bet. Only heard in the betting phase before it is ready;
    /// recording the last missing bet marks the phase ready and lets the
    /// machine run.
    pub fn bet(&mut self, uuid: &str, money_bet: i64) -> (r: bool)
        requires
            wf(old(self)@),
            state::at_rest(old(self)@),
        ensures
            r == (old(self)@.state == LobbyState::BettingQBetting(false)),
            !r ==> final(self)@ == old(self)@,
            r ==> final(self)@ == settle(bet_model(old(self)@, uuid@, money_bet)),
            wf(final(self)@),
            state::at_rest(final(self)@),
    {
        let ghost g0 = self@;
        if !(self.lobby_state == LobbyState::BettingQBetting(false)) {
            return false;
        }
        let n = self.player_data.len();
        let ghost ps1 = bet_applied(g0.players, uuid@, money_bet);
        let mut all_have_bet = true;
        let mut i: usize = 0;
        while i < n
            invariant
                i <= n,
                self.player_data@.len() == n,
                g0.players.len() == n,
                self.game_events == old(self).game_events,
                self.admin_uuid == old(self).admin_uuid,
                self.admin_name == old(self).admin_name,
                self.open == old(self).open,
                self.param_initial_money == old(self).param_initial_money,
                self.param_initial_jokers == old(self).param_initial_jokers,
                self.param_normal_q_money == old(self).param_normal_q_money,
                self.param_estimation_q_money == old(self).param_estimation_q_money,
                self.question_set == old(self).question_set,
                self.lobby_state == old(self).lobby_state,
                self.questions == old(self).questions,
                self.current_question == old(self).current_question,
                g0 == old(self)@,
                forall|k: int| 0 <= k < i ==> (#[trigger] self.player_data@[k])@ == bet_applied(
                    g0.players,
                    uuid@,
                    money_bet,
                )[k],
                forall|k: int| i <= k < n ==> #[trigger] self.player_data@[k] == old(
                    self,
                ).player_data@[k],
                ps1 == bet_applied(g0.players, uuid@, money_bet),
                all_have_bet == (forall|k: int|
                    0 <= k < i && (#[trigger] ps1[k]).uuid != uuid@ ==> ps1[k].money_bet >= 1),
            decreases n - i,
        {
            if crate::player::str_eq(self.player_data[i].uuid.as_str(), uuid) {
                let mut p = clone_player(&self.player_data[i]);
                p.money_bet = money_bet;
                self.player_data.set(i, p);
            } else if self.player_data[i].money_bet < 1 {
                proof {
                    assert((#[trigger] ps1[i as int]) == g0.players[i as int]);
                }
                all_have_bet = false;
            }
            proof {
                if g0.players[i as int].uuid != uuid@ {
                    assert((#[trigger] ps1[i as int]) == g0.players[i as int]);
                } else {
                    assert((#[trigger] ps1[i as int]).uuid == uuid@);
                }
            }
            i = i + 1;
        }
        proof {
            assert(roster_view(self.player_data@) =~= bet_applied(g0.players, uuid@, money_bet));
            assert(all_have_bet == all_bet(ps1, uuid@));
        }
        let ev = Event::PlayerListUpdate {
            player_data: make_public_player_data(&self.player_data),
        };
        self.game_events.add(ev);
        if all_have_bet {
            self.lobby_state = LobbyState::BettingQBetting(true);
        }
        proof {
            assert(self@ =~= bet_model(g0, uuid@, money_bet));
        }
        self.state_transition();
        proof {
            if state::state_ready(bet_model(g0, uuid@, money_bet).state) {
                state::lemma_settle_rest(bet_model(g0, uuid@, money_bet));
            }
        }
        true
    }

    /// Choose an opponent for a versus round. Only heard in the selection
    /// phase before it is ready; the last missing choice marks the phase
    /// ready and lets the machine run.
    pub fn attack(&mut self, uuid: &str, vs_player: &str) -> (r: bool)
        requires
            wf(old(self)@),
            state::at_rest(old(self)@),
        ensures
            r == (old(self)@.state == LobbyState::VersusQSelecting(false)),
            !r ==> final(self)@ == old(self)@,
            r ==> final(self)@ == settle(attack_model(old(self)@, uuid@, vs_player@)),
            wf(final(self)@),
            state::at_rest(final(self)@),
    {
        let ghost g0 = self@;
        if !(self.lobby_state == LobbyState::VersusQSelecting(false)) {
            return false;
        }
        let n = self.player_data.len();
        let ghost ps1 = attack_applied(g0.players, uuid@, vs_player@);
        let mut all_have_selected = true;
        let mut i: usize = 0;
        while i < n
            invariant
                i <= n,
                self.player_data@.len() == n,
                g0.players.len() == n,
                self.game_events == old(self).game_events,
                self.admin_uuid == old(self).admin_uuid,
                self.admin_name == old(self).admin_name,
                self.open == old(self).open,
                self.param_initial_money == old(self).param_initial_money,
                self.param_initial_jokers == old(self).param_initial_jokers,
                self.param_normal_q_money == old(self).param_normal_q_money,
                self.param_estimation_q_money == old(self).param_estimation_q_money,
                self.question_set == old(self).question_set,
                self.lobby_state == old(self).lobby_state,
                self.questions == old(self).questions,
                self.current_question == old(self).current_question,
                g0 == old(self)@,
                forall|k: int| 0 <= k < i ==> (#[trigger] self.player_data@[k])@ == attack_applied(
                    g0.players,
                    uuid@,
                    vs_player@,
                )[k],
                forall|k: int| i <= k < n ==> #[trigger] self.player_data@[k] == old(
                    self,
                ).player_data@[k],
                ps1 == attack_applied(g0.players, uuid@, vs_player@),
                all_have_selected == (forall|k: int|
                    0 <= k < i && (#[trigger] ps1[k]).uuid != uuid@ ==> ps1[k].vs_player.len()
                        > 0),
            decreases n - i,
        {
            if crate::player::str_eq(self.player_data[i].uuid.as_str(), uuid) {
                let mut p = clone_player(&self.player_data[i]);
                p.vs_player = vs_player.to_owned();
                self.player_data.set(i, p);
            } else if self.player_data[i].vs_player.as_str().is_empty() {
                proof {
                    assert((#[trigger] ps1[i as int]) == g0.players[i as int]);
                }
                all_have_selected = false;
            }
            proof {
                if g0.players[i as int].uuid != uuid@ {
                    assert((#[trigger] ps1[i as int]) == g0.players[i as int]);
                } else {
                    assert((#[trigger] ps1[i as int]).uuid == uuid@);
                }
            }
            i = i + 1;
        }
        proof {
            assert(roster_view(self.player_data@) =~= attack_applied(
                g0.players,
                uuid@,
                vs_player@,
            ));
            assert(all_have_selected == all_selected(ps1, uuid@));
        }
        let ev = Event::PlayerListUpdate {
            player_data: make_public_player_data(&self.player_data),
        };
        self.game_events.add(ev);
        if all_have_selected {
            self.lobby_state = LobbyState::VersusQSelecting(true);
        }
        proof {
            assert(self@ =~= attack_model(g0, uuid@, vs_player@));
        }
        self.state_transition();
        proof {
            if state::state_ready(attack_model(g0, uuid@, vs_player@).state) {
                state::lemma_settle_rest(attack_model(g0, uuid@, vs_player@));
            }
        }
        true
    }

    /// Submit an answer. Only heard in an answering phase before it is
    /// ready; the last missing answer marks the phase ready and lets the
    /// machine run, which scores the round.
    pub fn answer(&mut self, uuid: &str, answer: usize) -> (r: bool)
        requires
            wf(old(self)@),
            state::at_rest(old(self)@),
        ensures
            r == answering_state(old(self)@.state),
            !r ==> final(self)@ == old(self)@,
            r ==> final(self)@ == settle(answer_model(old(self)@, uuid@, answer)),
            wf(final(self)@),
            state::at_rest(final(self)@),
    {
        let ghost g0 = self@;
        let st = self.lobby_state;
        if !(st == LobbyState::NormalQAnswering(false) || st == LobbyState::BettingQAnswering(
            false,
        ) || st == LobbyState::EstimationQAnswering(false) || st == LobbyState::VersusQAnswering(
            false,
        )) {
            return false;
        }
        let n = self.player_data.len();
        let ghost ps1 = answer_applied(g0.players, uuid@, answer);
        let mut all_have_answered = true;
        let mut i: usize = 0;
        while i < n
            invariant
                i <= n,
                self.player_data@.len() == n,
                g0.players.len() == n,
                self.game_events == old(self).game_events,
                self.admin_uuid == old(self).admin_uuid,
                self.admin_name == old(self).admin_name,
                self.open == old(self).open,
                self.param_initial_money == old(self).param_initial_money,
                self.param_initial_jokers == old(self).param_initial_jokers,
                self.param_normal_q_money == old(self).param_normal_q_money,
                self.param_estimation_q_money == old(self).param_estimation_q_money,
                self.question_set == old(self).question_set,
                self.lobby_state == old(self).lobby_state,
                self.questions == old(self).questions,
                self.current_question == old(self).current_question,
                g0 == old(self)@,
                forall|k: int| 0 <= k < i ==> (#[trigger] self.player_data@[k])@ == answer_applied(
                    g0.players,
                    uuid@,
                    answer,
                )[k],
                forall|k: int| i <= k < n ==> #[trigger] self.player_data@[k] == old(
                    self,
                ).player_data@[k],
                ps1 == answer_applied(g0.players, uuid@, answer),
                all_have_answered == (forall|k: int|
                    0 <= k < i && (#[trigger] ps1[k]).uuid != uuid@ ==> ps1[k].answer >= 1),
            decreases n - i,
        {
            if crate::player::str_eq(self.player_data[i].uuid.as_str(), uuid) {
                let mut p = clone_player(&self.player_data[i]);
                p.answer = answer;
                self.player_data.set(i, p);
            } else if self.player_data[i].answer < 1 {
                proof {
                    assert((#[trigger] ps1[i as int]) == g0.players[i as int]);
                }
                all_have_answered = false;
            }
            proof {
                if g0.players[i as int].uuid != uuid@ {
                    assert((#[trigger] ps1[i as int]) == g0.players[i as int]);
                } else {
                    assert((#[trigger] ps1[i as int]).uuid == uuid@);
                }
            }
            i = i + 1;
        }
        proof {
            assert(roster_view(self.player_data@) =~= answer_applied(g0.players, uuid@, answer));
            assert(all_have_answered == all_answered(ps1, uuid@));
        }
        let ev = Event::PlayerListUpdate {
            player_data: make_public_player_data(&self.player_data),
        };
        self.game_events.add(ev);
        if all_have_answered {
            state::initiate_next(&mut self.lobby_state);
        }
        proof {
            assert(self@ =~= answer_model(g0, uuid@, answer));
        }
        self.state_transition();
        proof {
            if state::state_ready(answer_model(g0, uuid@, answer).state) {
                state::lemma_settle_rest(answer_model(g0, uuid@, answer));
            }
        }
        true
    }

    /// Spend a joker: in a normal or betting answering phase, hand back two
    /// of the three wrong options of the current question, chosen at
    /// random, and take one joker from the asking player.
    pub fn get_joker(&mut self, uuid: &str) -> (r: Option<Vec<usize>>)
        requires
            wf(old(self)@),
            old(self)@.state == LobbyState::NormalQAnswering(false) || old(self)@.state
                == LobbyState::BettingQAnswering(false) ==> joker_available(
                old(self)@.players,
                uuid@,
            ),
        ensures
            r is Some <==> old(self)@.state == LobbyState::NormalQAnswering(false) || old(
                self,
            )@.state == LobbyState::BettingQAnswering(false),
            wf(final(self)@),
            match r {
                Some(wrong) => {
                    &&& wrong@.len() == 2
                    &&& 1 <= wrong@[0] <= 4 && wrong@[0] != state::correct_of(old(self)@)
                    &&& 1 <= wrong@[1] <= 4 && wrong@[1] != state::correct_of(old(self)@)
                    &&& wrong@[0] != wrong@[1]
                    &&& final(self)@ == (GameV {
                        players: joker_applied(old(self)@.players, uuid@),
                        log: old(self)@.log.push(
                            state::roster_update(joker_applied(old(self)@.players, uuid@)),
                        ),
                        ..old(self)@
                    })
                },
                None => final(self)@ == old(self)@,
            },
    {
        let ghost g0 = self@;
        if !(self.lobby_state == LobbyState::NormalQAnswering(false) || self.lobby_state
            == LobbyState::BettingQAnswering(false)) {
            return None;
        }
        let correct = self.questions[self.current_question - 1].correct_answer;
        let mut choose_from: Vec<usize> = vec![1, 2, 3, 4];
        choose_from.remove(correct - 1);
        proof {
            assert(choose_from@.len() == 3);
            assert(forall|k: int| 0 <= k < 3 ==> 1 <= #[trigger] choose_from@[k] <= 4
                && choose_from@[k] != correct);
            assert(choose_from@.no_duplicates());
        }
        let wrong_answers = crate::rng::choose_two(&choose_from);
        let n = self.player_data.len();
        let mut done_dec = false;
        let mut i: usize = 0;
        while i < n
            invariant
                i <= n,
                self.player_data@.len() == n,
                g0.players.len() == n,
                self.game_events == old(self).game_events,
                self.admin_uuid == old(self).admin_uuid,
                self.admin_name == old(self).admin_name,
                self.open == old(self).open,
                self.param_initial_money == old(self).param_initial_money,
                self.param_initial_jokers == old(self).param_initial_jokers,
                self.param_normal_q_money == old(self).param_normal_q_money,
                self.param_estimation_q_money == old(self).param_estimation_q_money,
                self.question_set == old(self).question_set,
                self.lobby_state == old(self).lobby_state,
                self.questions == old(self).questions,
                self.current_question == old(self).current_question,
                g0 == old(self)@,
                joker_available(g0.players, uuid@),
                !done_dec ==> forall|k: int| 0 <= k < i ==> (#[trigger] g0.players[k]).uuid
                    != uuid@,
                done_dec ==> exists|k: int| 0 <= k < i && (#[trigger] g0.players[k]).uuid
                    == uuid@,
                forall|k: int| 0 <= k < i ==> (#[trigger] self.player_data@[k])@ == joker_applied(
                    g0.players,
                    uuid@,
                )[k],
                forall|k: int| i <= k < n ==> #[trigger] self.player_data@[k] == old(
                    self,
                ).player_data@[k],
            decreases n - i,
        {
            if !done_dec && crate::player::str_eq(self.player_data[i].uuid.as_str(), uuid) {
                proof {
                    assert((#[trigger] g0.players[i as int]).uuid == uuid@);
                    assert(g0.players[i as int].jokers >= 1);
                }
                let mut p = clone_player(&self.player_data[i]);
                p.jokers = p.jokers - 1;
                self.player_data.set(i, p);
                done_dec = true;
            }
            i = i + 1;
        }
        proof {
            assert(roster_view(self.player_data@) =~= joker_applied(g0.players, uuid@));
        }
        let ev = Event::PlayerListUpdate {
            player_data: make_public_player_data(&self.player_data),
        };
        self.game_events.add(ev);
        proof {
            assert(self@ =~= (GameV {
                players: joker_applied(g0.players, uuid@),
                log: g0.log.push(state::roster_update(joker_applied(g0.players, uuid@))),
                ..g0
            }));
        }
        Some(wrong_answers)
    }
}

} // verus!
