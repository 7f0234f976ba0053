//! Game-level actions that sit between the screens and the save data.

pub mod booster;
pub mod flow;
