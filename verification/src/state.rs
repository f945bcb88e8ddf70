//! The lobby phase state machine.
//!
//! A phase is a tag plus a boolean *ready* flag: "the phase's completion
//! condition has been met; a transition is pending". [`state_transition`]
//! performs at most one transition and says whether the machine is settled;
//! the facade loops it until nothing more applies, so one triggering input
//! can cascade through several phases at once.
//!
//! The legal graph (each answering phase is driven to `ready` by player
//! input or a forced advance):
//!
//! ```text
//! Menu(ready) -> Results(ready=true)                        [game begins]
//! Results(ready=true) -> one answering phase per question kind,
//!                        or GameEnding(false) when exhausted
//! BettingQBetting(true) -> BettingQAnswering(false)
//! VersusQSelecting(true) -> VersusQAnswering(false)
//! any answering phase (true) -> Results(false)              [scoring]
//! GameEnding(true) -> Menu(false)
//! ```

use vstd::prelude::*;
use crate::events::{Event, EventV};
use crate::lobby::Gameshow;
use crate::player::{make_public_player_data, pub_roster, PlayerV};
use crate::question::{clone_question, questions_ok, QuestionType, QuestionV};
use crate::scoring::{
    betting_scored_all, clear_transients, cleared_all, estimation_scored_all, normal_scored_all,
    reset_all, reset_players, score_betting, score_estimation, score_normal, score_versus,
    versus_scored_all,
};

verus! {

/// The lobby phases; the bool is the *ready* flag.
#[derive(Copy, Clone, PartialEq, Eq, Structural, Debug)]
pub enum LobbyState {
    Menu(bool),
    Results(bool),
    NormalQAnswering(bool),
    BettingQBetting(bool),
    BettingQAnswering(bool),
    EstimationQAnswering(bool),
    VersusQSelecting(bool),
    VersusQAnswering(bool),
    GameEnding(bool),
}

/// The ready flag of a phase.
pub open spec fn state_ready(s: LobbyState) -> bool {
    match s {
        LobbyState::Menu(r) => r,
        LobbyState::Results(r) => r,
        LobbyState::NormalQAnswering(r) => r,
        LobbyState::BettingQBetting(r) => r,
        LobbyState::BettingQAnswering(r) => r,
        LobbyState::EstimationQAnswering(r) => r,
        LobbyState::VersusQSelecting(r) => r,
        LobbyState::VersusQAnswering(r) => r,
        LobbyState::GameEnding(r) => r,
    }
}

/// The same phase with its ready flag raised.
pub open spec fn ready_state(s: LobbyState) -> LobbyState {
    match s {
        LobbyState::Menu(_) => LobbyState::Menu(true),
        LobbyState::Results(_) => LobbyState::Results(true),
        LobbyState::NormalQAnswering(_) => LobbyState::NormalQAnswering(true),
        LobbyState::BettingQBetting(_) => LobbyState::BettingQBetting(true),
        LobbyState::BettingQAnswering(_) => LobbyState::BettingQAnswering(true),
        LobbyState::EstimationQAnswering(_) => LobbyState::EstimationQAnswering(true),
        LobbyState::VersusQSelecting(_) => LobbyState::VersusQSelecting(true),
        LobbyState::VersusQAnswering(_) => LobbyState::VersusQAnswering(true),
        LobbyState::GameEnding(_) => LobbyState::GameEnding(true),
    }
}

/// Mathematical model of a whole lobby.
#[verifier::ext_equal]
pub struct GameV {
    pub admin_uuid: Seq<char>,
    pub admin_name: Seq<char>,
    pub open: bool,
    pub initial_money: i64,
    pub initial_jokers: usize,
    pub normal_q_money: i64,
    pub estimation_q_money: i64,
    pub question_set: Seq<char>,
    pub state: LobbyState,
    pub questions: Seq<QuestionV>,
    pub current_question: usize,
    pub players: Seq<PlayerV>,
    pub log: Seq<EventV>,
}

/// The lobby points at a current question of the given kind.
pub open spec fn current_is(g: GameV, t: QuestionType) -> bool {
    &&& 1 <= g.current_question <= g.questions.len()
    &&& g.questions[g.current_question - 1].question_type == t
}

/// Well-formedness: the question list can be played, and whenever a
/// question is on the table the running counter points into the list at a
/// question of the phase's kind.
pub open spec fn wf(g: GameV) -> bool {
    &&& g.questions.len() < usize::MAX
    &&& questions_ok(g.questions)
    &&& match g.state {
        LobbyState::Menu(_) | LobbyState::GameEnding(_) => true,
        LobbyState::Results(_) => g.current_question <= g.questions.len(),
        LobbyState::NormalQAnswering(_) => current_is(g, QuestionType::NormalQuestion),
        LobbyState::BettingQBetting(_) | LobbyState::BettingQAnswering(_) => current_is(
            g,
            QuestionType::BettingQuestion,
        ),
        LobbyState::EstimationQAnswering(_) => current_is(g, QuestionType::EstimationQuestion),
        LobbyState::VersusQSelecting(_) | LobbyState::VersusQAnswering(_) => current_is(
            g,
            QuestionType::VersusQuestion,
        ),
    }
}

/// Between operations the machine is settled: no ready flag is raised.
pub open spec fn at_rest(g: GameV) -> bool {
    !state_ready(g.state)
}

/// The roster-update event for a roster model.
pub open spec fn roster_update(ps: Seq<PlayerV>) -> EventV {
    EventV::PlayerListUpdate { player_data: pub_roster(ps) }
}

/// The lobby-settings event a lobby emits after a configuration change.
pub open spec fn settings_update(g: GameV) -> EventV {
    EventV::LobbySettingsUpdate {
        open: g.open,
        initial_money: g.initial_money,
        initial_jokers: g.initial_jokers,
        normal_q_money: g.normal_q_money,
        estimation_q_money: g.estimation_q_money,
        question_set: g.question_set,
    }
}

/// The correct answer of the current question.
pub open spec fn correct_of(g: GameV) -> usize {
    g.questions[g.current_question - 1].correct_answer
}

/// A completed answering phase: apply the given scoring, snapshot the
/// roster before and after, emit the results event, return to `Results`.
pub open spec fn score_step(g: GameV, scored: Seq<PlayerV>) -> GameV {
    GameV {
        state: LobbyState::Results(false),
        players: scored,
        log: g.log.push(
            EventV::ShowResults {
                correct_answer: correct_of(g),
                previous_player_data: pub_roster(g.players),
                player_data: pub_roster(scored),
            },
        ),
        ..g
    }
}

/// One attempted transition: the new lobby model, and whether the machine
/// is now settled (`false` asks the caller to step again).
pub open spec fn step_of(g: GameV) -> (GameV, bool) {
    match g.state {
        LobbyState::Menu(true) => {
            let ps = reset_all(g.players, g.initial_money, g.initial_jokers);
            (
                GameV {
                    state: LobbyState::Results(true),
                    current_question: 0,
                    players: ps,
                    log: g.log.push(roster_update(ps)),
                    ..g
                },
                false,
            )
        },
        LobbyState::Results(true) => {
            let qid = (g.current_question + 1) as usize;
            if g.current_question + 1 > g.questions.len() {
                (
                    GameV {
                        state: LobbyState::GameEnding(false),
                        current_question: qid,
                        log: g.log.push(EventV::GameEnding { player_data: pub_roster(g.players) }),
                        ..g
                    },
                    true,
                )
            } else {
                let q = g.questions[g.current_question as int];
                let base = GameV {
                    current_question: qid,
                    players: cleared_all(g.players),
                    ..g
                };
                match q.question_type {
                    QuestionType::NormalQuestion => (
                        GameV {
                            state: LobbyState::NormalQAnswering(false),
                            log: g.log.push(
                                EventV::BeginNormalQAnswering {
                                    question_type: q.question_type,
                                    current_question: qid,
                                    category: q.category,
                                    question: q.question,
                                    answers: q.answers,
                                },
                            ),
                            ..base
                        },
                        true,
                    ),
                    QuestionType::BettingQuestion => (
                        GameV {
                            state: LobbyState::BettingQBetting(false),
                            log: g.log.push(
                                EventV::BeginBettingQBetting {
                                    question_type: q.question_type,
                                    current_question: qid,
                                    category: q.category,
                                },
                            ),
                            ..base
                        },
                        true,
                    ),
                    QuestionType::EstimationQuestion => (
                        GameV {
                            state: LobbyState::EstimationQAnswering(false),
                            log: g.log.push(
                                EventV::BeginEstimationQAnswering {
                                    question_type: q.question_type,
                                    current_question: qid,
                                    category: q.category,
                                    question: q.question,
                                },
                            ),
                            ..base
                        },
                        true,
                    ),
                    QuestionType::VersusQuestion => (
                        GameV {
                            state: LobbyState::VersusQSelecting(false),
                            log: g.log.push(
                                EventV::BeginVersusQSelecting {
                                    question_type: q.question_type,
                                    current_question: qid,
                                    category: q.category,
                                },
                            ),
                            ..base
                        },
                        true,
                    ),
                }
            }
        },
        LobbyState::BettingQBetting(true) => {
            let q = g.questions[g.current_question - 1];
            (
                GameV {
                    state: LobbyState::BettingQAnswering(false),
                    log: g.log.push(
                        EventV::BeginBettingQAnswering { question: q.question, answers: q.answers },
                    ),
                    ..g
                },
                true,
            )
        },
        LobbyState::VersusQSelecting(true) => {
            let q = g.questions[g.current_question - 1];
            (
                GameV {
                    state: LobbyState::VersusQAnswering(false),
                    log: g.log.push(
                        EventV::BeginVersusQAnswering { question: q.question, answers: q.answers },
                    ),
                    ..g
                },
                true,
            )
        },
        LobbyState::NormalQAnswering(true) => (
            score_step(g, normal_scored_all(g.players, correct_of(g), g.normal_q_money)),
            true,
        ),
        LobbyState::BettingQAnswering(true) => (
            score_step(g, betting_scored_all(g.players, correct_of(g))),
            true,
        ),
        LobbyState::EstimationQAnswering(true) => (
            score_step(g, estimation_scored_all(g.players, correct_of(g), g.estimation_q_money)),
            true,
        ),
        LobbyState::VersusQAnswering(true) => (
            score_step(g, versus_scored_all(g.players, correct_of(g))),
            true,
        ),
        LobbyState::GameEnding(true) => (
            GameV {
                state: LobbyState::Menu(false),
                log: g.log.push(EventV::BackToMenu { open: g.open }),
                ..g
            },
            true,
        ),
        _ => (g, true),
    }
}

/// Transitions applied until the machine settles. Only the game-begin arrow
/// asks for another step, so at most two are ever taken.
pub open spec fn settle(g: GameV) -> GameV {
    let s = step_of(g);
    if s.1 {
        s.0
    } else {
        step_of(s.0).0
    }
}

/// A settled machine rests with no ready flag raised: settling an at-rest
/// lobby changes nothing, and settling a readied one ends at rest.
pub proof fn lemma_settle_rest(g: GameV)
    ensures
        at_rest(g) ==> settle(g) == g,
        state_ready(g.state) ==> at_rest(settle(g)),
{
}

/// Raise the current phase's ready flag without checking any condition
/// (the admin's forced advance); a no-op if it is already raised.
pub fn initiate_next(lobby_state: &mut LobbyState)
    ensures
        *final(lobby_state) == ready_state(*old(lobby_state)),
{
    *lobby_state = match *lobby_state {
        LobbyState::Menu(_) => LobbyState::Menu(true),
        LobbyState::Results(_) => LobbyState::Results(true),
        LobbyState::NormalQAnswering(_) => LobbyState::NormalQAnswering(true),
        LobbyState::BettingQBetting(_) => LobbyState::BettingQBetting(true),
        LobbyState::BettingQAnswering(_) => LobbyState::BettingQAnswering(true),
        LobbyState::EstimationQAnswering(_) => LobbyState::EstimationQAnswering(true),
        LobbyState::VersusQSelecting(_) => LobbyState::VersusQSelecting(true),
        LobbyState::VersusQAnswering(_) => LobbyState::VersusQAnswering(true),
        LobbyState::GameEnding(_) => LobbyState::GameEnding(true),
    };
}

/// Attempt one transition on the lobby (see [`step_of`]); returns whether
/// the machine is settled (`false` asks the caller to step again).
pub fn state_transition(gs: &mut Gameshow) -> (done: bool)
    requires
        wf(old(gs)@),
    ensures
        final(gs)@ == step_of(old(gs)@).0,
        done == step_of(old(gs)@).1,
        wf(final(gs)@),
{
    let ghost g0 = gs@;
    let st = gs.lobby_state;
    match st {
        LobbyState::Menu(true) => {
            gs.current_question = 0;
            let money = gs.param_initial_money;
            let jokers = gs.param_initial_jokers;
            reset_players(&mut gs.player_data, money, jokers);
            let ev = Event::PlayerListUpdate {
                player_data: make_public_player_data(&gs.player_data),
            };
            gs.game_events.add(ev);
            gs.lobby_state = LobbyState::Results(true);
            proof {
                assert(gs@ =~= step_of(g0).0);
            }
            false
        },
        LobbyState::Results(true) => {
            let qid = gs.current_question + 1;
            gs.current_question = qid;
            if qid > gs.questions.len() {
                let ev = Event::GameEnding {
                    player_data: make_public_player_data(&gs.player_data),
                };
                gs.game_events.add(ev);
                gs.lobby_state = LobbyState::GameEnding(false);
                proof {
                    assert(gs@ =~= step_of(g0).0);
                }
            } else {
                let q = clone_question(&gs.questions[qid - 1]);
                clear_transients(&mut gs.player_data);
                match q.question_type {
                    QuestionType::NormalQuestion => {
                        let ev = Event::BeginNormalQAnswering {
                            question_type: q.question_type,
                            current_question: qid,
                            category: q.category,
                            question: q.question,
                            answers: q.answers,
                        };
                        gs.game_events.add(ev);
                        gs.lobby_state = LobbyState::NormalQAnswering(false);
                    },
                    QuestionType::BettingQuestion => {
                        let ev = Event::BeginBettingQBetting {
                            question_type: q.question_type,
                            current_question: qid,
                            category: q.category,
                        };
                        gs.game_events.add(ev);
                        gs.lobby_state = LobbyState::BettingQBetting(false);
                    },
                    QuestionType::EstimationQuestion => {
                        let ev = Event::BeginEstimationQAnswering {
                            question_type: q.question_type,
                            current_question: qid,
                            category: q.category,
                            question: q.question,
                        };
                        gs.game_events.add(ev);
                        gs.lobby_state = LobbyState::EstimationQAnswering(false);
                    },
                    QuestionType::VersusQuestion => {
                        let ev = Event::BeginVersusQSelecting {
                            question_type: q.question_type,
                            current_question: qid,
                            category: q.category,
                        };
                        gs.game_events.add(ev);
                        gs.lobby_state = LobbyState::VersusQSelecting(false);
                    },
                }
                proof {
                    assert(gs@ =~= step_of(g0).0);
                }
            }
            true
        },
        LobbyState::BettingQBetting(true) => {
            let q = clone_question(&gs.questions[gs.current_question - 1]);
            let ev = Event::BeginBettingQAnswering { question: q.question, answers: q.answers };
            gs.game_events.add(ev);
            gs.lobby_state = LobbyState::BettingQAnswering(false);
            proof {
                assert(gs@ =~= step_of(g0).0);
            }
            true
        },
        LobbyState::VersusQSelecting(true) => {
            let q = clone_question(&gs.questions[gs.current_question - 1]);
            let ev = Event::BeginVersusQAnswering { question: q.question, answers: q.answers };
            gs.game_events.add(ev);
            gs.lobby_state = LobbyState::VersusQAnswering(false);
            proof {
                assert(gs@ =~= step_of(g0).0);
            }
            true
        },
        LobbyState::NormalQAnswering(true) => {
            let correct = gs.questions[gs.current_question - 1].correct_answer;
            let previous = make_public_player_data(&gs.player_data);
            let reward = gs.param_normal_q_money;
            score_normal(&mut gs.player_data, correct, reward);
            let ev = Event::ShowResults {
                correct_answer: correct,
                previous_player_data: previous,
                player_data: make_public_player_data(&gs.player_data),
            };
            gs.game_events.add(ev);
            gs.lobby_state = LobbyState::Results(false);
            proof {
                assert(gs@ =~= step_of(g0).0);
            }
            true
        },
        LobbyState::BettingQAnswering(true) => {
            let correct = gs.questions[gs.current_question - 1].correct_answer;
            let previous = make_public_player_data(&gs.player_data);
            score_betting(&mut gs.player_data, correct);
            let ev = Event::ShowResults {
                correct_answer: correct,
                previous_player_data: previous,
                player_data: make_public_player_data(&gs.player_data),
            };
            gs.game_events.add(ev);
            gs.lobby_state = LobbyState::Results(false);
            proof {
                assert(gs@ =~= step_of(g0).0);
            }
            true
        },
        LobbyState::EstimationQAnswering(true) => {
            let correct = gs.questions[gs.current_question - 1].correct_answer;
            let previous = make_public_player_data(&gs.player_data);
            let reward = gs.param_estimation_q_money;
            score_estimation(&mut gs.player_data, correct, reward);
            let ev = Event::ShowResults {
                correct_answer: correct,
                previous_player_data: previous,
                player_data: make_public_player_data(&gs.player_data),
            };
            gs.game_events.add(ev);
            gs.lobby_state = LobbyState::Results(false);
            proof {
                assert(gs@ =~= step_of(g0).0);
            }
            true
        },
        LobbyState::VersusQAnswering(true) => {
            let correct = gs.questions[gs.current_question - 1].correct_answer;
            let previous = make_public_player_data(&gs.player_data);
            score_versus(&mut gs.player_data, correct);
            let ev = Event::ShowResults {
                correct_answer: correct,
                previous_player_data: previous,
                player_data: make_public_player_data(&gs.player_data),
            };
            gs.game_events.add(ev);
            gs.lobby_state = LobbyState::Results(false);
            proof {
                assert(gs@ =~= step_of(g0).0);
            }
            true
        },
        LobbyState::GameEnding(true) => {
            let ev = Event::BackToMenu { open: gs.open };
            gs.game_events.add(ev);
            gs.lobby_state = LobbyState::Menu(false);
            proof {
                assert(gs@ =~= step_of(g0).0);
            }
            true
        },
        _ => {
            proof {
                assert(gs@ =~= step_of(g0).0);
            }
            true
        },
    }
}

} // verus!
