//! The full set of game content.

use vstd::prelude::*;

use super::{
    ArtCatalog, CampaignDefinition, CardVisualSpec, CharacterDefinition, DeckRules, MatchRules,
    ProgressionRules, StarterLoadout, StoryCardDefinition,
};

verus! {

/// Everything the rules need from the content files.
#[derive(Clone, Debug)]
pub struct GameContent {
    pub magical_girls: Vec<CharacterDefinition>,
    pub baddies: Vec<CharacterDefinition>,
    pub story_cards: Vec<StoryCardDefinition>,
    pub rules: MatchRules,
    pub deck_rules: DeckRules,
    pub progression_rules: ProgressionRules,
    pub starter_loadouts: Vec<StarterLoadout>,
    pub campaign: CampaignDefinition,
    pub card_visuals: CardVisualSpec,
    pub art_catalog: ArtCatalog,
}

impl Default for GameContent {
    fn default() -> (r: Self)
        ensures
            r.magical_girls@.len() == 0,
            r.baddies@.len() == 0,
            r.story_cards@.len() == 0,
            r.rules.encounter_win_gain == 3,
            r.rules.encounter_loss_gain == 1,
            r.rules.encounter_tie_gain == 1,
            r.deck_rules.support_deck_size == 40,
            r.deck_rules.max_copies_per_story_card == 3,
            r.deck_rules.universal_copy_limit,
            r.progression_rules.overflow_is_lost,
            r.starter_loadouts@.len() == 0,
            r.campaign.nodes@.len() == 0,
            r.campaign.encounters@.len() == 0,
            r.card_visuals.canvas.width == 0,
            r.card_visuals.canvas.height == 0,
            r.card_visuals.zones@.len() == 0,
            r.art_catalog.story_card_art@.len() == 0,
    {
        GameContent {
            magical_girls: Vec::new(),
            baddies: Vec::new(),
            story_cards: Vec::new(),
            rules: MatchRules::default(),
            deck_rules: DeckRules::default(),
            progression_rules: ProgressionRules::default(),
            starter_loadouts: Vec::new(),
            campaign: CampaignDefinition::default(),
            card_visuals: CardVisualSpec::empty(),
            art_catalog: ArtCatalog::default(),
        }
    }
}

} // verus!
