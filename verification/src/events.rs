//! Game events: the closed set of records the lobby emits, and the
//! append-only ordered log that keeps them. Live fan-out to connected
//! listeners is a transport concern and lives outside this crate; the log
//! here is the durable, replayable sequence behind `getAll`.

use vstd::prelude::*;
use crate::player::{PubPlayerV, PublicPlayerData};
use crate::question::QuestionType;

verus! {

/// One game event, as appended to the log and pushed to clients.
pub enum Event {
    PlayerListUpdate { player_data: Vec<PublicPlayerData> },
    LobbySettingsUpdate {
        open: bool,
        initial_money: i64,
        initial_jokers: usize,
        normal_q_money: i64,
        estimation_q_money: i64,
        question_set: String,
    },
    BeginNormalQAnswering {
        question_type: QuestionType,
        current_question: usize,
        category: String,
        question: String,
        answers: Vec<String>,
    },
    BeginBettingQBetting {
        question_type: QuestionType,
        current_question: usize,
        category: String,
    },
    BeginBettingQAnswering { question: String, answers: Vec<String> },
    BeginEstimationQAnswering {
        question_type: QuestionType,
        current_question: usize,
        category: String,
        question: String,
    },
    BeginVersusQSelecting {
        question_type: QuestionType,
        current_question: usize,
        category: String,
    },
    BeginVersusQAnswering { question: String, answers: Vec<String> },
    ShowResults {
        correct_answer: usize,
        previous_player_data: Vec<PublicPlayerData>,
        player_data: Vec<PublicPlayerData>,
    },
    GameEnding { player_data: Vec<PublicPlayerData> },
    BackToMenu { open: bool },
}

/// Mathematical model of an event.
#[verifier::ext_equal]
pub enum EventV {
    PlayerListUpdate { player_data: Seq<PubPlayerV> },
    LobbySettingsUpdate {
        open: bool,
        initial_money: i64,
        initial_jokers: usize,
        normal_q_money: i64,
        estimation_q_money: i64,
        question_set: Seq<char>,
    },
    BeginNormalQAnswering {
        question_type: QuestionType,
        current_question: usize,
        category: Seq<char>,
        question: Seq<char>,
        answers: Seq<Seq<char>>,
    },
    BeginBettingQBetting {
        question_type: QuestionType,
        current_question: usize,
        category: Seq<char>,
    },
    BeginBettingQAnswering { question: Seq<char>, answers: Seq<Seq<char>> },
    BeginEstimationQAnswering {
        question_type: QuestionType,
        current_question: usize,
        category: Seq<char>,
        question: Seq<char>,
    },
    BeginVersusQSelecting {
        question_type: QuestionType,
        current_question: usize,
        category: Seq<char>,
    },
    BeginVersusQAnswering { question: Seq<char>, answers: Seq<Seq<char>> },
    ShowResults {
        correct_answer: usize,
        previous_player_data: Seq<PubPlayerV>,
        player_data: Seq<PubPlayerV>,
    },
    GameEnding { player_data: Seq<PubPlayerV> },
    BackToMenu { open: bool },
}

impl View for Event {
    type V = EventV;

    open spec fn view(&self) -> EventV {
        match self {
            Event::PlayerListUpdate { player_data } => EventV::PlayerListUpdate {
                player_data: player_data@.map_values(|p: PublicPlayerData| p@),
            },
            Event::LobbySettingsUpdate {
                open,
                initial_money,
                initial_jokers,
                normal_q_money,
                estimation_q_money,
                question_set,
            } => EventV::LobbySettingsUpdate {
                open: *open,
                initial_money: *initial_money,
                initial_jokers: *initial_jokers,
                normal_q_money: *normal_q_money,
                estimation_q_money: *estimation_q_money,
                question_set: question_set@,
            },
            Event::BeginNormalQAnswering {
                question_type,
                current_question,
                category,
                question,
                answers,
            } => EventV::BeginNormalQAnswering {
                question_type: *question_type,
                current_question: *current_question,
                category: category@,
                question: question@,
                answers: answers@.map_values(|a: String| a@),
            },
            Event::BeginBettingQBetting { question_type, current_question, category } => {
                EventV::BeginBettingQBetting {
                    question_type: *question_type,
                    current_question: *current_question,
                    category: category@,
                }
            },
            Event::BeginBettingQAnswering { question, answers } => {
                EventV::BeginBettingQAnswering {
                    question: question@,
                    answers: answers@.map_values(|a: String| a@),
                }
            },
            Event::BeginEstimationQAnswering {
                question_type,
                current_question,
                category,
                question,
            } => EventV::BeginEstimationQAnswering {
                question_type: *question_type,
                current_question: *current_question,
                category: category@,
                question: question@,
            },
            Event::BeginVersusQSelecting { question_type, current_question, category } => {
                EventV::BeginVersusQSelecting {
                    question_type: *question_type,
                    current_question: *current_question,
                    category: category@,
                }
            },
            Event::BeginVersusQAnswering { question, answers } => {
                EventV::BeginVersusQAnswering {
                    question: question@,
                    answers: answers@.map_values(|a: String| a@),
                }
            },
            Event::ShowResults { correct_answer, previous_player_data, player_data } => {
                EventV::ShowResults {
                    correct_answer: *correct_answer,
                    previous_player_data: previous_player_data@.map_values(
                        |p: PublicPlayerData| p@,
                    ),
                    player_data: player_data@.map_values(|p: PublicPlayerData| p@),
                }
            },
            Event::GameEnding { player_data } => EventV::GameEnding {
                player_data: player_data@.map_values(|p: PublicPlayerData| p@),
            },
            Event::BackToMenu { open } => EventV::BackToMenu { open: *open },
        }
    }
}

/// A copy of a public-roster snapshot, equal entry by entry.
pub fn clone_public_players(v: &Vec<PublicPlayerData>) -> (r: Vec<PublicPlayerData>)
    ensures
        r@ == v@,
{
    let mut r: Vec<PublicPlayerData> = Vec::new();
    let mut i: usize = 0;
    while i < v.len()
        invariant
            i <= v@.len(),
            r@ =~= v@.take(i as int),
        decreases v@.len() - i,
    {
        let p = &v[i];
        r.push(PublicPlayerData {
            name: p.name.clone(),
            jokers: p.jokers,
            money: p.money,
            money_bet: p.money_bet,
            vs_player: p.vs_player.clone(),
            answer: p.answer,
        });
        i = i + 1;
        proof {
            assert(r@ =~= v@.take(i as int));
        }
    }
    proof {
        assert(v@.take(v@.len() as int) =~= v@);
    }
    r
}

/// A copy of a string list, equal entry by entry.
pub fn clone_strings(v: &Vec<String>) -> (r: Vec<String>)
    ensures
        r@ == v@,
{
    let mut r: Vec<String> = Vec::new();
    let mut i: usize = 0;
    while i < v.len()
        invariant
            i <= v@.len(),
            r@ =~= v@.take(i as int),
        decreases v@.len() - i,
    {
        r.push(v[i].clone());
        i = i + 1;
        proof {
            assert(r@ =~= v@.take(i as int));
        }
    }
    proof {
        assert(v@.take(v@.len() as int) =~= v@);
    }
    r
}

/// A copy of one event, with the same model.
pub fn clone_event(e: &Event) -> (r: Event)
    ensures
        r@ == e@,
{
    match e {
        Event::PlayerListUpdate { player_data } => Event::PlayerListUpdate {
            player_data: clone_public_players(player_data),
        },
        Event::LobbySettingsUpdate {
            open,
            initial_money,
            initial_jokers,
            normal_q_money,
            estimation_q_money,
            question_set,
        } => Event::LobbySettingsUpdate {
            open: *open,
            initial_money: *initial_money,
            initial_jokers: *initial_jokers,
            normal_q_money: *normal_q_money,
            estimation_q_money: *estimation_q_money,
            question_set: question_set.clone(),
        },
        Event::BeginNormalQAnswering {
            question_type,
            current_question,
            category,
            question,
            answers,
        } => Event::BeginNormalQAnswering {
            question_type: *question_type,
            current_question: *current_question,
            category: category.clone(),
            question: question.clone(),
            answers: clone_strings(answers),
        },
        Event::BeginBettingQBetting { question_type, current_question, category } => {
            Event::BeginBettingQBetting {
                question_type: *question_type,
                current_question: *current_question,
                category: category.clone(),
            }
        },
        Event::BeginBettingQAnswering { question, answers } => Event::BeginBettingQAnswering {
            question: question.clone(),
            answers: clone_strings(answers),
        },
        Event::BeginEstimationQAnswering {
            question_type,
            current_question,
            category,
            question,
        } => Event::BeginEstimationQAnswering {
            question_type: *question_type,
            current_question: *current_question,
            category: category.clone(),
            question: question.clone(),
        },
        Event::BeginVersusQSelecting { question_type, current_question, category } => {
            Event::BeginVersusQSelecting {
                question_type: *question_type,
                current_question: *current_question,
                category: category.clone(),
            }
        },
        Event::BeginVersusQAnswering { question, answers } => Event::BeginVersusQAnswering {
            question: question.clone(),
            answers: clone_strings(answers),
        },
        Event::ShowResults { correct_answer, previous_player_data, player_data } => {
            Event::ShowResults {
                correct_answer: *correct_answer,
                previous_player_data: clone_public_players(previous_player_data),
                player_data: clone_public_players(player_data),
            }
        },
        Event::GameEnding { player_data } => Event::GameEnding {
            player_data: clone_public_players(player_data),
        },
        Event::BackToMenu { open } => Event::BackToMenu { open: *open },
    }
}

/// The append-only ordered event log. Its model is the sequence of event
/// models, oldest first.
pub struct EventManager {
    pub events: Vec<Event>,
}

impl View for EventManager {
    type V = Seq<EventV>;

    open spec fn view(&self) -> Seq<EventV> {
        self.events@.map_values(|e: Event| e@)
    }
}

impl EventManager {
    /// A fresh, empty log.
    pub fn new() -> (r: EventManager)
        ensures
            r@ == Seq::<EventV>::empty(),
    {
        let r = EventManager { events: Vec::new() };
        proof {
            assert(r@ =~= Seq::<EventV>::empty());
        }
        r
    }

    /// Append one event; everything already logged stays in place.
    pub fn add(&mut self, event: Event)
        ensures
            final(self)@ == old(self)@.push(event@),
    {
        let ghost ev = event@;
        self.events.push(event);
        proof {
            assert(self@ =~= old(self)@.push(ev));
        }
    }

    /// How many events the log holds.
    pub fn len(&self) -> (n: usize)
        ensures
            n == self@.len(),
    {
        self.events.len()
    }

    /// A snapshot of the whole log, oldest first: the catch-up path for
    /// clients that reconnect.
    pub fn get(&self) -> (r: Vec<Event>)
        ensures
            r@.map_values(|e: Event| e@) == self@,
    {
        let mut r: Vec<Event> = Vec::new();
        let mut i: usize = 0;
        while i < self.events.len()
            invariant
                i <= self.events@.len(),
                r@.len() == i,
                r@.map_values(|e: Event| e@) =~= self@.take(i as int),
            decreases self.events@.len() - i,
        {
            r.push(clone_event(&self.events[i]));
            i = i + 1;
            proof {
                assert(r@.map_values(|e: Event| e@) =~= self@.take(i as int));
            }
        }
        proof {
            assert(self@.take(self.events@.len() as int) =~= self@);
        }
        r
    }
}

} // verus!
