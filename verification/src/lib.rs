//! A verified core for a shared multiplayer trivia lobby.
//!
//! One admin and a roster of players play a sequence of timed question
//! rounds of four kinds, with a running score (money) and a limited joker
//! hint resource. The heart of the crate is the lobby phase state machine
//! (`state`), the player registry it mutates (`player`, `lobby`), and the
//! ordered event log it appends to (`events`). Transport, timers and the
//! question-file store are collaborators outside this crate; they hand the
//! core plain values and take plain values back.

pub mod arith;
pub mod events;
pub mod player;
pub mod scoring;
pub mod question;
pub mod rng;
pub mod state;
pub mod laws;
pub mod lobby;

pub use events::{Event, EventManager};
pub use player::{make_public_player_data, PlayerData, PublicPlayerData};
pub use lobby::Gameshow;
pub use question::{Question, QuestionType};
pub use state::{initiate_next, state_transition, LobbyState};
