//! Eclipse Heart: the deterministic rules of a card battler about magical-girl
//! teams and rival baddies, with their save data and deck-building helpers.

pub mod data;
pub mod engine;
pub mod game;
pub mod screens;
pub mod simulation;
pub mod state;
pub mod text;
pub mod ui;
