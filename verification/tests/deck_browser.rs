use std::cmp::Ordering;

use eclipse_heart::data::{CardAlignment, CardEffect, CardSpeed, StoryCardDefinition};
use eclipse_heart::state::{card_group_label, compare_story_cards, DeckBrowserCardStats, DeckGroupMode, DeckSortMode};

fn card(id: &str, name: &str, speed: CardSpeed, alignment: CardAlignment, card_type: &str) -> StoryCardDefinition {
    StoryCardDefinition {
        id: id.to_owned(),
        name: name.to_owned(),
        card_type: card_type.to_owned(),
        speed,
        alignment,
        playable_in_daily_life: speed == CardSpeed::DailyLife,
        effects: vec![CardEffect::RevealFirstHiddenOwnSupport],
    }
}

#[test]
fn sorting_uses_requested_mode() {
    let alpha = card("a", "Alpha", CardSpeed::DailyLife, CardAlignment::MagicalGirl, "bond");
    let beta = card("b", "Beta", CardSpeed::Reaction, CardAlignment::Baddie, "scheme");

    assert_eq!(
        compare_story_cards(
            (&alpha, DeckBrowserCardStats { original_index: 0, owned_count: 1, copies_in_deck: 0 }),
            (&beta, DeckBrowserCardStats { original_index: 1, owned_count: 3, copies_in_deck: 2 }),
            DeckSortMode::Alphabetical
        ),
        Ordering::Less
    );
    assert_eq!(
        compare_story_cards(
            (&alpha, DeckBrowserCardStats { original_index: 0, owned_count: 1, copies_in_deck: 0 }),
            (&beta, DeckBrowserCardStats { original_index: 1, owned_count: 3, copies_in_deck: 2 }),
            DeckSortMode::Newest
        ),
        Ordering::Greater
    );
}

#[test]
fn grouping_returns_expected_labels() {
    let sample = card("a", "Alpha", CardSpeed::DailyLife, CardAlignment::MagicalGirl, "bond");

    assert_eq!(card_group_label(&sample, DeckGroupMode::Alignment), Some("Magical Girl".to_owned()));
    assert_eq!(card_group_label(&sample, DeckGroupMode::Speed), Some("Daily".to_owned()));
    assert_eq!(card_group_label(&sample, DeckGroupMode::CardType), Some("bond".to_owned()));
}

#[test]
fn ties_fall_back_to_names_then_ids() {
    let first = card("a", "Same", CardSpeed::DailyLife, CardAlignment::Neutral, "bond");
    let second = card("b", "Same", CardSpeed::DailyLife, CardAlignment::Neutral, "bond");
    let prefix = card("c", "Sam", CardSpeed::DailyLife, CardAlignment::Neutral, "bond");
    let stats = DeckBrowserCardStats::default();
    assert_eq!(compare_story_cards((&first, stats), (&second, stats), DeckSortMode::Alphabetical), Ordering::Less);
    assert_eq!(compare_story_cards((&second, stats), (&first, stats), DeckSortMode::OwnedCount), Ordering::Equal);
    assert_eq!(compare_story_cards((&first, stats), (&prefix, stats), DeckSortMode::CopiesInDeck), Ordering::Greater);
    let owned = DeckBrowserCardStats { owned_count: 4, ..stats };
    assert_eq!(compare_story_cards((&prefix, owned), (&first, stats), DeckSortMode::OwnedCount), Ordering::Less);
    assert_eq!(card_group_label(&first, DeckGroupMode::NoGrouping), None);
    assert_eq!(card_group_label(&first, DeckGroupMode::Alignment), Some("Neutral".to_owned()));
}
