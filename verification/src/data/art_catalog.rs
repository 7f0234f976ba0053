//! Procedural art asset catalog for card illustrations, portraits, and UI backdrops.

use vstd::prelude::*;

verus! {

#[derive(Clone, Debug)]
pub struct ArtCatalog {
    pub ui_backgrounds: Vec<UiArtSpec>,
    pub character_portraits: Vec<CharacterArtSpec>,
    pub story_card_art: Vec<StoryCardArtSpec>,
}

#[derive(Clone, Debug)]
pub struct UiArtSpec {
    pub id: String,
    pub asset_name: String,
    pub tone: String,
    pub motifs: Vec<String>,
}

#[derive(Clone, Debug)]
pub struct CharacterArtSpec {
    pub id: String,
    pub role: String,
    pub asset_name: String,
    pub accent_color: String,
    pub motifs: Vec<String>,
}

#[derive(Clone, Debug)]
pub struct StoryCardArtSpec {
    pub id: String,
    pub asset_name: String,
    pub alignment: String,
    pub speed: String,
    pub card_type: String,
    pub motifs: Vec<String>,
}

impl Default for ArtCatalog {
    fn default() -> (r: Self)
        ensures
            r.ui_backgrounds@.len() == 0,
            r.character_portraits@.len() == 0,
            r.story_card_art@.len() == 0,
    {
        ArtCatalog {
            ui_backgrounds: Vec::new(),
            character_portraits: Vec::new(),
            story_card_art: Vec::new(),
        }
    }
}

} // verus!
