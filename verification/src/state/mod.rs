//! Match state, save data and their rules.

pub mod access;
pub mod app_state;
pub mod campaigns;
pub mod collection;
pub mod deck_browser;
pub mod decks;
pub mod events;
pub mod round_flow;
pub mod runtime;
pub mod setup;

pub use runtime::{
    opposing, CharacterRuntimeState, CharacterStage, MatchPhase, PlayerId, ResourceKind, SideState,
    SupportState,
};
pub mod match_state;
pub mod opening;
pub mod profile;

pub use match_state::{MatchSetup, MatchState, PlayerState, ReactionState, StackItem, StackItemKind};
pub use collection::{CollectionCardKind, CollectionSave};
pub use decks::{DeckPreset, DecksSave};
pub use campaigns::{CampaignBattleRecord, CampaignRunSave, CampaignRunStatus, CampaignSaveBundle};
pub use deck_browser::{card_group_label, compare_story_cards, DeckBrowserCardStats, DeckGroupMode, DeckSortMode, DeckViewMode};
pub use app_state::{AppScreen, AppState, BattleContext, BoosterCardGrant, SaveData};
pub use profile::ProfileSave;
