//! The deterministic match engine and its computer opponent.

pub mod ai;
pub mod laws;
pub mod match_engine;
pub mod model;

pub use ai::AiController;
pub use match_engine::{EncounterOutcome, MatchAction, MatchEngine};
