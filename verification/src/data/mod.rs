//! Content definitions: characters, story cards, rules, loadouts and campaigns.

pub mod art_catalog;
pub mod campaigns;
pub mod card_visuals;
pub mod cards;
pub mod content;
pub mod loadouts;
pub mod rules;
pub mod ui_text;

pub use art_catalog::{ArtCatalog, CharacterArtSpec, StoryCardArtSpec, UiArtSpec};
pub use campaigns::{CampaignDefinition, CampaignEncounterDefinition, CampaignNodeDefinition};
pub use card_visuals::{CardCanvas, CardVisualSpec, LayoutZone, SpeedBadgeSpec, TemplateFamilySpec};
pub use cards::{CardAlignment, CardEffect, CardSpeed, CharacterDefinition, CharacterKindDef, StoryCardDefinition};
pub use loadouts::StarterLoadout;
pub use rules::{CharacterRules, DeckRules, MatchRules, ProgressionRules};
pub use content::GameContent;
pub use ui_text::UiText;
