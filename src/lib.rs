//! A single-player wagering card battle: deterministic deck shuffling,
//! blackjack-style power scoring, payouts, and the per-player phase machine
//! that runs a round from the stake to the settlement.
pub mod card;
pub mod rng;
pub mod deck;
pub mod state;
pub mod scoring;
pub mod payout;
pub mod game;
pub mod invariants;

pub use card::{BattleCard, CardType, PowerLevel};
pub use deck::{create_deck, draw_card, shuffle};
pub use game::TowerDefenseState;
pub use payout::payout;
pub use rng::SimpleRng;
pub use scoring::{calculate_power, determine_outcome};
pub use state::{
    allowed_wagers, BattleResult, GameError, GamePhase, GameRecord, Operation, PlayerGameData,
    TowerDefenseInit,
};
