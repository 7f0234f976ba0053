//! The screens of the application and what a battle is fought for.

use vstd::prelude::*;

use super::campaigns::CampaignSaveBundle;
use super::collection::{CollectionCardKind, CollectionSave};
use super::decks::DecksSave;
use super::match_state::{MatchSetup, MatchState};
use super::profile::ProfileSave;
use crate::data::{GameContent, UiText};

verus! {

/// The screen the application shows.
#[derive(Clone, Copy, Debug, PartialEq, Eq, Structural)]
pub enum AppScreen {
    Menu,
    CampaignMenu,
    CampaignHub,
    Setup,
    DeckBuilder,
    Battle,
}

/// One collectible granted by a booster.
#[derive(Clone, Debug)]
pub struct BoosterCardGrant {
    pub kind: CollectionCardKind,
    pub id: String,
    pub name: String,
}

/// Whether a battle is a skirmish or a node of a campaign run.
#[derive(Clone, Debug)]
pub enum BattleContext {
    Skirmish,
    Campaign { run_id: String, node_id: String },
}

/// The save data the game keeps, apart from its window settings.
#[derive(Clone, Debug)]
pub struct SaveData {
    pub profile: ProfileSave,
    pub collection: CollectionSave,
    pub decks: DecksSave,
    pub campaigns: CampaignSaveBundle,
}

/// What the running game holds, apart from its textures and the place its saves go.
#[derive(Clone, Debug)]
pub struct AppState {
    pub screen: AppScreen,
    pub ui_text: UiText,
    pub content: GameContent,
    pub setup: MatchSetup,
    pub match_state: Option<MatchState>,
    pub battle_context: BattleContext,
    pub campaign_notice: Option<String>,
    pub saves: SaveData,
    pub last_opened_booster: Vec<BoosterCardGrant>,
}

} // verus!
