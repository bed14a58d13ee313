//! Rock, paper, scissors between two move sources over a fixed number of
//! rounds, with bots whose skill is a tunable bias towards the counter move.

pub mod bot;
mod chance;
pub mod game;
pub mod moves;
pub mod play;
pub mod player;

pub use bot::{BotMode, BotPlayer};
pub use game::{Game, TableEvent};
pub use moves::{determine_round_result, Move, RoundResult};
pub use player::PlayerInput;
