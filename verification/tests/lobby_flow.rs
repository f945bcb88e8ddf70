use gameshow::{Event, Gameshow, LobbyState, Question, QuestionType};

fn normal_question(correct: usize) -> Question {
    Question {
        question_type: QuestionType::NormalQuestion,
        category: String::from("History"),
        question: String::from("Which year?"),
        answers: vec![
            String::from("1900"),
            String::from("1910"),
            String::from("1920"),
            String::from("1930"),
        ],
        correct_answer: correct,
    }
}

fn betting_question(correct: usize) -> Question {
    Question {
        question_type: QuestionType::BettingQuestion,
        category: String::from("Sport"),
        question: String::from("Which team?"),
        answers: vec![
            String::from("Reds"),
            String::from("Blues"),
            String::from("Greens"),
            String::from("Golds"),
        ],
        correct_answer: correct,
    }
}

fn estimation_question(correct: usize) -> Question {
    Question {
        question_type: QuestionType::EstimationQuestion,
        category: String::from("Numbers"),
        question: String::from("How many?"),
        answers: vec![],
        correct_answer: correct,
    }
}

fn versus_question(correct: usize) -> Question {
    Question {
        question_type: QuestionType::VersusQuestion,
        category: String::from("Duel"),
        question: String::from("Which one?"),
        answers: vec![
            String::from("A"),
            String::from("B"),
            String::from("C"),
            String::from("D"),
        ],
        correct_answer: correct,
    }
}

fn lobby_with(questions: Vec<Question>) -> Gameshow {
    let mut gs = Gameshow::new(String::from("admin-id"), String::from("Admin"));
    gs.set_question_set(String::from("round-one"), questions);
    gs
}

fn count_show_results(events: &[Event]) -> usize {
    events.iter().filter(|e| matches!(e, Event::ShowResults { .. })).count()
}

#[test]
fn join_names_stay_distinct() {
    let mut gs = lobby_with(vec![]);
    let a = gs.join("p1", String::from("Alice")).unwrap();
    let b = gs.join("p2", String::from("Alice")).unwrap();
    let c = gs.join("p3", String::from("Admin")).unwrap();
    assert_eq!(a, "Alice");
    assert_ne!(a, b);
    assert_ne!(b, c);
    assert_ne!(a, c);
    assert_ne!(b, "Admin");
    assert_ne!(c, "Admin");
    // a collision is resolved by appending one two-character suffix
    assert_eq!(b.len(), "Alice".len() + 2);
    assert_eq!(c.len(), "Admin".len() + 2);
    // the suffix extends the requested name with alphanumeric characters
    assert!(b.starts_with("Alice"));
    for ch in b["Alice".len()..].chars() {
        assert!(ch.is_ascii_alphanumeric());
    }
}

#[test]
fn admin_join_resolves_name_collisions_too() {
    let mut gs = lobby_with(vec![]);
    let a = gs.join("p1", String::from("Alice")).unwrap();
    // the admin's id always joins, but never under a name already in use
    let b = gs.join("admin-id", String::from("Alice")).unwrap();
    assert_eq!(a, "Alice");
    assert_ne!(b, a);
    assert_ne!(b, "Admin");
    assert!(b.starts_with("Alice"));
    assert_eq!(b.len(), "Alice".len() + 2);
}

#[test]
fn rejoin_same_id_is_idempotent() {
    let mut gs = lobby_with(vec![]);
    let first = gs.join("p1", String::from("Alice")).unwrap();
    // a different requested name changes nothing for a known id
    let again = gs.join("p1", String::from("Bob")).unwrap();
    assert_eq!(first, again);
    assert_eq!(gs.get_player_data().len(), 1);
    // still the case when the lobby is closed
    gs.set_open(false);
    let third = gs.join("p1", String::from("Carol")).unwrap();
    assert_eq!(first, third);
    assert_eq!(gs.get_player_data().len(), 1);
}

#[test]
fn closed_lobby_rejects_new_players() {
    let mut gs = lobby_with(vec![]);
    gs.set_open(false);
    assert!(gs.join("p1", String::from("Alice")).is_none());
    assert_eq!(gs.get_player_data().len(), 0);
    // the admin's id always joins, under a name distinct from the admin's
    let assigned = gs.join("admin-id", String::from("Armin")).unwrap();
    assert_eq!(assigned, "Armin");
    assert_eq!(gs.get_player_data().len(), 1);
}

#[test]
fn round_inputs_fail_outside_their_phase() {
    let mut gs = lobby_with(vec![normal_question(1)]);
    gs.join("p1", String::from("Alice")).unwrap();
    let players_before = gs.get_player_data();
    let events_before = gs.get_events().len();
    assert!(!gs.bet("p1", 100));
    assert!(!gs.attack("p1", "Admin"));
    assert!(!gs.answer("p1", 2));
    assert!(gs.get_joker("p1").is_none());
    let players_after = gs.get_player_data();
    assert_eq!(gs.get_events().len(), events_before);
    assert_eq!(players_before.len(), players_after.len());
    assert_eq!(players_before[0].money_bet, players_after[0].money_bet);
    assert_eq!(players_before[0].answer, players_after[0].answer);
}

#[test]
fn one_results_event_per_round() {
    let mut gs = lobby_with(vec![normal_question(2), normal_question(1)]);
    gs.join("p1", String::from("Alice")).unwrap();
    gs.join("p2", String::from("Bob")).unwrap();
    gs.next_state();
    assert_eq!(gs.lobby_state, LobbyState::NormalQAnswering(false));
    assert!(gs.answer("p1", 2));
    assert_eq!(count_show_results(&gs.get_events()), 0);
    assert!(gs.answer("p2", 3));
    // both answered: exactly one results event, and the machine rests
    let events = gs.get_events();
    assert_eq!(count_show_results(&events), 1);
    assert!(matches!(events.last(), Some(Event::ShowResults { .. })));
    assert_eq!(gs.lobby_state, LobbyState::Results(false));
    // the next round has not begun yet
    gs.next_state();
    assert_eq!(gs.lobby_state, LobbyState::NormalQAnswering(false));
    assert_eq!(count_show_results(&gs.get_events()), 1);
}

#[test]
fn normal_scoring_rewards_correct_answers() {
    let mut gs = lobby_with(vec![normal_question(2)]);
    gs.join("p1", String::from("Alice")).unwrap();
    gs.join("p2", String::from("Bob")).unwrap();
    gs.next_state();
    gs.answer("p1", 2);
    gs.answer("p2", 3);
    assert_eq!(gs.get_player_money("p1"), Some(1000));
    assert_eq!(gs.get_player_money("p2"), Some(500));
}

#[test]
fn betting_all_in_wrong_answer_leaves_one() {
    let mut gs = lobby_with(vec![betting_question(1)]);
    gs.join("p1", String::from("Alice")).unwrap();
    gs.next_state();
    assert_eq!(gs.lobby_state, LobbyState::BettingQBetting(false));
    assert_eq!(gs.get_player_money("p1"), Some(500));
    assert!(gs.bet("p1", 500));
    assert_eq!(gs.lobby_state, LobbyState::BettingQAnswering(false));
    assert!(gs.answer("p1", 3));
    // 500 - 500 = 0, floored to 1: never zero, never negative
    assert_eq!(gs.get_player_money("p1"), Some(1));
}

#[test]
fn betting_win_and_partial_loss() {
    let mut gs = lobby_with(vec![betting_question(4)]);
    gs.join("p1", String::from("Alice")).unwrap();
    gs.join("p2", String::from("Bob")).unwrap();
    gs.next_state();
    assert!(gs.bet("p1", 200));
    assert!(gs.bet("p2", 300));
    assert!(gs.answer("p1", 4));
    assert!(gs.answer("p2", 1));
    assert_eq!(gs.get_player_money("p1"), Some(700));
    assert_eq!(gs.get_player_money("p2"), Some(200));
}

#[test]
fn estimation_ties_share_the_reward() {
    let mut gs = lobby_with(vec![estimation_question(50)]);
    gs.join("p1", String::from("Alice")).unwrap();
    gs.join("p2", String::from("Bob")).unwrap();
    gs.join("p3", String::from("Carol")).unwrap();
    gs.next_state();
    assert_eq!(gs.lobby_state, LobbyState::EstimationQAnswering(false));
    assert!(gs.answer("p1", 48));
    assert!(gs.answer("p2", 52));
    assert!(gs.answer("p3", 40));
    // distance 2 ties for p1 and p2; p3 at distance 10 receives nothing
    assert_eq!(gs.get_player_money("p1"), Some(1500));
    assert_eq!(gs.get_player_money("p2"), Some(1500));
    assert_eq!(gs.get_player_money("p3"), Some(500));
}

#[test]
fn versus_halves_the_chosen_opponent() {
    let mut gs = lobby_with(vec![versus_question(1)]);
    gs.join("p1", String::from("Alice")).unwrap();
    gs.join("p2", String::from("Bob")).unwrap();
    gs.next_state();
    assert_eq!(gs.lobby_state, LobbyState::VersusQSelecting(false));
    assert!(gs.attack("p1", "Bob"));
    assert!(gs.attack("p2", "Alice"));
    assert_eq!(gs.lobby_state, LobbyState::VersusQAnswering(false));
    // Alice answers correctly: Bob is halved. Bob answers wrong: Alice is
    // doubled.
    assert!(gs.answer("p1", 1));
    assert!(gs.answer("p2", 2));
    assert_eq!(gs.get_player_money("p1"), Some(1000));
    assert_eq!(gs.get_player_money("p2"), Some(250));
}

#[test]
fn versus_zero_money_is_raised_to_one() {
    let mut gs = lobby_with(vec![versus_question(1)]);
    gs.join("p1", String::from("Alice")).unwrap();
    gs.join("p2", String::from("Bob")).unwrap();
    gs.next_state();
    gs.set_player_attributes("Bob", 0, 3);
    assert!(gs.attack("p1", "Bob"));
    assert!(gs.attack("p2", "Alice"));
    assert!(gs.answer("p1", 1));
    assert!(gs.answer("p2", 1));
    // half of zero truncates to zero, which is raised to one
    assert_eq!(gs.get_player_money("p2"), Some(1));
}

#[test]
fn versus_factors_compose_and_truncate() {
    let mut gs = lobby_with(vec![versus_question(1)]);
    gs.join("p1", String::from("Alice")).unwrap();
    gs.join("p2", String::from("Bob")).unwrap();
    gs.join("p3", String::from("Carol")).unwrap();
    gs.next_state();
    gs.set_player_attributes("Bob", 501, 3);
    // Alice and Carol both aim at Bob; Bob aims at Carol
    assert!(gs.attack("p1", "Bob"));
    assert!(gs.attack("p3", "Bob"));
    assert!(gs.attack("p2", "Carol"));
    // Alice correct (halves Bob), Carol wrong (doubles Bob): the factors
    // cancel. Bob correct: Carol is halved, truncating toward zero.
    assert!(gs.answer("p1", 1));
    assert!(gs.answer("p3", 2));
    assert!(gs.answer("p2", 1));
    assert_eq!(gs.get_player_money("p2"), Some(501));
    assert_eq!(gs.get_player_money("p3"), Some(250));
    assert_eq!(gs.get_player_money("p1"), Some(500));
}

#[test]
fn versus_halving_truncates_odd_money() {
    let mut gs = lobby_with(vec![versus_question(1)]);
    gs.join("p1", String::from("Alice")).unwrap();
    gs.join("p2", String::from("Bob")).unwrap();
    gs.next_state();
    gs.set_player_attributes("Bob", 501, 3);
    assert!(gs.attack("p1", "Bob"));
    assert!(gs.attack("p2", "Alice"));
    assert!(gs.answer("p1", 1));
    assert!(gs.answer("p2", 1));
    // 501 / 2 truncates to 250; Alice is halved too: 500 / 2 = 250
    assert_eq!(gs.get_player_money("p2"), Some(250));
    assert_eq!(gs.get_player_money("p1"), Some(250));
}

#[test]
fn joker_returns_two_wrong_options() {
    let mut gs = lobby_with(vec![normal_question(3)]);
    gs.join("p1", String::from("Alice")).unwrap();
    gs.join("p2", String::from("Bob")).unwrap();
    gs.next_state();
    assert_eq!(gs.get_player_jokers("p1"), Some(3));
    let wrong = gs.get_joker("p1").unwrap();
    assert_eq!(wrong.len(), 2);
    assert_ne!(wrong[0], wrong[1]);
    for w in &wrong {
        assert!(*w >= 1 && *w <= 4);
        assert_ne!(*w, 3);
    }
    // exactly one joker was consumed, and only by the asking player
    assert_eq!(gs.get_player_jokers("p1"), Some(2));
    assert_eq!(gs.get_player_jokers("p2"), Some(3));
}

#[test]
fn config_is_frozen_outside_the_idle_menu() {
    let mut gs = lobby_with(vec![normal_question(1)]);
    gs.join("p1", String::from("Alice")).unwrap();
    gs.next_state();
    assert_eq!(gs.lobby_state, LobbyState::NormalQAnswering(false));
    let events_before = gs.get_events().len();
    gs.update_preferences(9999, 9, 9999, 9999);
    assert_eq!(gs.get_initial_money(), 500);
    assert_eq!(gs.get_initial_jokers(), 3);
    assert_eq!(gs.get_normal_q_money(), 500);
    assert_eq!(gs.get_estimation_q_money(), 1000);
    gs.set_question_set(String::from("other"), vec![]);
    assert_eq!(gs.get_question_set(), "round-one");
    gs.set_questions(vec![]);
    assert_eq!(gs.get_events().len(), events_before);
    // set_open is the exception: it is heard in any phase
    gs.set_open(false);
    assert!(!gs.is_open());
    assert_eq!(gs.get_events().len(), events_before + 1);
}

#[test]
fn preferences_validate_each_value_on_its_own() {
    let mut gs = lobby_with(vec![]);
    gs.update_preferences(-5, 7, 0, -1);
    // negative money and non-positive rewards are ignored individually
    assert_eq!(gs.get_initial_money(), 500);
    assert_eq!(gs.get_initial_jokers(), 7);
    assert_eq!(gs.get_normal_q_money(), 500);
    assert_eq!(gs.get_estimation_q_money(), 1000);
    gs.update_preferences(800, 2, 600, 1200);
    assert_eq!(gs.get_initial_money(), 800);
    assert_eq!(gs.get_initial_jokers(), 2);
    assert_eq!(gs.get_normal_q_money(), 600);
    assert_eq!(gs.get_estimation_q_money(), 1200);
}

#[test]
fn force_advance_completes_a_silent_round() {
    let mut gs = lobby_with(vec![normal_question(1)]);
    gs.join("p1", String::from("Alice")).unwrap();
    gs.join("p2", String::from("Bob")).unwrap();
    gs.next_state();
    assert_eq!(gs.lobby_state, LobbyState::NormalQAnswering(false));
    // nobody answers; the admin forces the round to its end
    gs.next_state();
    assert_eq!(gs.lobby_state, LobbyState::Results(false));
    let events = gs.get_events();
    assert_eq!(count_show_results(&events), 1);
    // nobody matched the correct answer, so nobody was rewarded
    assert_eq!(gs.get_player_money("p1"), Some(500));
    assert_eq!(gs.get_player_money("p2"), Some(500));
    // the game proceeds to its end and back to the menu
    gs.next_state();
    assert_eq!(gs.lobby_state, LobbyState::GameEnding(false));
    gs.next_state();
    assert_eq!(gs.lobby_state, LobbyState::Menu(false));
    assert!(matches!(gs.get_events().last(), Some(Event::BackToMenu { .. })));
}

#[test]
fn departure_of_last_holdout_completes_the_round() {
    let mut gs = lobby_with(vec![normal_question(2)]);
    gs.join("p1", String::from("Alice")).unwrap();
    gs.join("p2", String::from("Bob")).unwrap();
    gs.next_state();
    assert!(gs.answer("p1", 2));
    assert_eq!(gs.lobby_state, LobbyState::NormalQAnswering(false));
    // the only player yet to answer departs: the round completes
    assert!(gs.leave("p2"));
    assert_eq!(gs.lobby_state, LobbyState::Results(false));
    assert_eq!(count_show_results(&gs.get_events()), 1);
    assert_eq!(gs.get_player_money("p1"), Some(1000));
}

#[test]
fn kick_of_last_holdout_completes_the_betting() {
    let mut gs = lobby_with(vec![betting_question(1)]);
    gs.join("p1", String::from("Alice")).unwrap();
    gs.join("p2", String::from("Bob")).unwrap();
    gs.next_state();
    assert!(gs.bet("p1", 100));
    assert_eq!(gs.lobby_state, LobbyState::BettingQBetting(false));
    // the only player yet to bet is kicked: betting completes
    assert!(gs.kick_player("Bob"));
    assert_eq!(gs.lobby_state, LobbyState::BettingQAnswering(false));
    assert!(matches!(
        gs.get_events().last(),
        Some(Event::BeginBettingQAnswering { .. })
    ));
}

#[test]
fn leave_and_kick_are_idempotent() {
    let mut gs = lobby_with(vec![]);
    gs.join("p1", String::from("Alice")).unwrap();
    gs.join("p2", String::from("Bob")).unwrap();
    assert!(gs.leave("p1"));
    assert!(!gs.leave("p1"));
    assert_eq!(gs.get_player_data().len(), 1);
    assert!(gs.kick_player("Bob"));
    assert!(!gs.kick_player("Bob"));
    assert_eq!(gs.get_player_data().len(), 0);
    assert!(!gs.kick_player("Carol"));
}

#[test]
fn player_attributes_are_set_by_name() {
    let mut gs = lobby_with(vec![]);
    gs.join("p1", String::from("Alice")).unwrap();
    assert!(gs.set_player_attributes("Alice", 1234, 7));
    assert_eq!(gs.get_player_money("p1"), Some(1234));
    assert_eq!(gs.get_player_jokers("p1"), Some(7));
    assert!(!gs.set_player_attributes("Nobody", 1, 1));
}

#[test]
fn roster_queries_see_joined_players() {
    let mut gs = lobby_with(vec![]);
    gs.join("p1", String::from("Alice")).unwrap();
    assert!(gs.is_joined("p1"));
    assert!(!gs.is_joined("p2"));
    assert_eq!(gs.get_player_name("p1"), Some(String::from("Alice")));
    assert_eq!(gs.get_player_name("p2"), None);
    assert!(gs.is_valid_vs_player("Alice"));
    assert!(!gs.is_valid_vs_player("Bob"));
    assert_eq!(gs.get_admin_uuid(), "admin-id");
    assert_eq!(gs.get_admin_name(), "Admin");
}

#[test]
fn game_start_resets_money_and_round_events_follow() {
    let mut gs = lobby_with(vec![betting_question(1), estimation_question(10)]);
    gs.join("p1", String::from("Alice")).unwrap();
    gs.set_player_attributes("Alice", 42, 0);
    gs.next_state();
    // entering the game restores configured starting money and jokers
    assert_eq!(gs.get_player_money("p1"), Some(500));
    assert_eq!(gs.get_player_jokers("p1"), Some(3));
    assert_eq!(gs.lobby_state, LobbyState::BettingQBetting(false));
    let events = gs.get_events();
    assert!(matches!(events.last(), Some(Event::BeginBettingQBetting { .. })));
    // the betting phase announces question and answers once everyone bet
    assert!(gs.bet("p1", 10));
    assert!(matches!(
        gs.get_events().last(),
        Some(Event::BeginBettingQAnswering { .. })
    ));
}

#[test]
fn custom_question_set_is_supplied_explicitly() {
    let mut gs = lobby_with(vec![]);
    gs.set_question_set(String::from("custom"), vec![]);
    assert_eq!(gs.get_question_set(), "custom");
    gs.set_questions(vec![normal_question(1)]);
    gs.join("p1", String::from("Alice")).unwrap();
    gs.next_state();
    assert_eq!(gs.lobby_state, LobbyState::NormalQAnswering(false));
}
