use eclipse_heart::data::{CardAlignment, CardSpeed, StoryCardDefinition, UiText};
use eclipse_heart::screens::deck_builder::{
    next_group_mode, next_sort_mode, next_view_mode, sort_mode_label, split_tag_text, title_case_card_type,
    unique_card_types,
};
use eclipse_heart::simulation::parse_round_cap;
use eclipse_heart::state::{DeckGroupMode, DeckSortMode, DeckViewMode};
use eclipse_heart::text::{integer_to_text, parse_u32};

fn args(values: &[&str]) -> Vec<String> {
    values.iter().map(|value| value.to_string()).collect()
}

#[test]
fn round_cap_is_read_after_its_flag() {
    assert_eq!(parse_round_cap(&args(&["--round-cap", "12"])), Some(12));
    assert_eq!(parse_round_cap(&args(&["--verbose", "--round-cap", "+7", "--round-cap", "9"])), Some(7));
    assert_eq!(parse_round_cap(&args(&["--round-cap"])), None);
    assert_eq!(parse_round_cap(&args(&["--round-cap", "-3"])), None);
    assert_eq!(parse_round_cap(&args(&["12"])), None);
}

#[test]
fn u32_text_is_read_like_from_str() {
    assert_eq!(parse_u32("4294967295"), Some(u32::MAX));
    assert_eq!(parse_u32("4294967296"), None);
    assert_eq!(parse_u32("007"), Some(7));
    assert_eq!(parse_u32("+"), None);
    assert_eq!(parse_u32(""), None);
    assert_eq!(parse_u32("1 2"), None);
    assert_eq!(parse_u32("12a"), None);
    for text in ["0", "42", "+42", "99999999999", "x"] {
        assert_eq!(parse_u32(text), text.parse::<u32>().ok());
    }
}

#[test]
fn integers_render_in_decimal() {
    assert_eq!(integer_to_text(-305), "-305");
    assert_eq!(integer_to_text(0), "0");
    assert_eq!(integer_to_text(i64::MIN), i64::MIN.to_string());
}

#[test]
fn card_types_become_titles() {
    assert_eq!(title_case_card_type("bond_moment"), "Bond Moment");
    assert_eq!(title_case_card_type("scheme"), "Scheme");
    assert_eq!(title_case_card_type("_a__b"), " A  B");
    assert_eq!(title_case_card_type(""), "");
}

#[test]
fn tags_are_split_trimmed_and_filtered() {
    assert_eq!(split_tag_text(" aggro, tempo ,, \tcontrol "), vec!["aggro", "tempo", "control"]);
    assert!(split_tag_text(" , ").is_empty());
    assert_eq!(split_tag_text("solo"), vec!["solo"]);
}

#[test]
fn browser_modes_cycle() {
    assert_eq!(next_sort_mode(DeckSortMode::CopiesInDeck), DeckSortMode::Alphabetical);
    assert_eq!(next_sort_mode(DeckSortMode::Alphabetical), DeckSortMode::Newest);
    assert_eq!(next_group_mode(DeckGroupMode::CardType), DeckGroupMode::NoGrouping);
    assert_eq!(next_view_mode(DeckViewMode::Grid), DeckViewMode::CompactList);
    let mut mode = DeckSortMode::OwnedCount;
    for _ in 0..4 {
        mode = next_sort_mode(mode);
    }
    assert_eq!(mode, DeckSortMode::OwnedCount);
}

#[test]
fn labels_come_from_the_catalog_or_fall_back_to_keys() {
    let ui_text = UiText { values: vec![("deck_builder_sort_newest".to_owned(), "Newest".to_owned())] };
    assert_eq!(sort_mode_label(&ui_text, DeckSortMode::Newest), "Newest");
    assert_eq!(sort_mode_label(&ui_text, DeckSortMode::Alphabetical), "deck_builder_sort_alphabetical");
    assert_eq!(ui_text.get("missing"), "missing");
}

fn typed_card(id: &str, card_type: &str) -> StoryCardDefinition {
    StoryCardDefinition {
        id: id.to_owned(),
        name: id.to_owned(),
        card_type: card_type.to_owned(),
        speed: CardSpeed::DailyLife,
        alignment: CardAlignment::Neutral,
        playable_in_daily_life: true,
        effects: Vec::new(),
    }
}

#[test]
fn unique_card_types_sorts_without_case_and_keeps_first_spelling() {
    let cards = vec![
        typed_card("a", "bond"),
        typed_card("b", "Scheme"),
        typed_card("c", "bond_moment"),
        typed_card("d", "BOND"),
        typed_card("e", "scheme"),
    ];
    assert_eq!(unique_card_types(&cards), vec!["bond", "bond_moment", "Scheme"]);
    assert!(unique_card_types(&[]).is_empty());
}
