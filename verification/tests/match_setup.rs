use eclipse_heart::data::{CharacterDefinition, CharacterKindDef, GameContent, StarterLoadout};
use eclipse_heart::state::opening::{default_player_a_deck, default_player_b_deck};
use eclipse_heart::state::setup::support_pairs;
use eclipse_heart::state::{MatchSetup, MatchState, PlayerId};

fn character(id: &str, name: &str, kind: CharacterKindDef) -> CharacterDefinition {
    CharacterDefinition {
        id: id.to_owned(),
        name: name.to_owned(),
        kind,
        base_power: 1,
        transformed_power: 2,
        final_power: 3,
        first_threshold: 3,
        second_threshold: 6,
    }
}

fn sample_content() -> GameContent {
    let mut content = GameContent::default();
    content.magical_girls = vec![
        character("yuki", "Yuki", CharacterKindDef::MagicalGirl),
        character("hana", "Hana", CharacterKindDef::MagicalGirl),
        character("riri", "Riri", CharacterKindDef::MagicalGirl),
        character("momo", "Momo", CharacterKindDef::MagicalGirl),
        character("kiko", "Kiko", CharacterKindDef::MagicalGirl),
    ];
    content.baddies = vec![
        character("noctra", "Noctra", CharacterKindDef::Baddie),
        character("glass_crow", "Glass Crow", CharacterKindDef::Baddie),
        character("thorn_waltz", "Thorn Waltz", CharacterKindDef::Baddie),
        character("hollow_marionette", "Hollow Marionette", CharacterKindDef::Baddie),
        character("velvet_hex", "Velvet Hex", CharacterKindDef::Baddie),
    ];
    content
}

fn starter(main: &str, supports: [&str; 2], prime: &str, baddie_supports: [&str; 2]) -> StarterLoadout {
    StarterLoadout {
        id: "starter".to_owned(),
        name: "Starter".to_owned(),
        magical_girl_main: main.to_owned(),
        magical_girl_supports: supports.iter().map(|id| id.to_string()).collect(),
        prime_baddie: prime.to_owned(),
        baddie_supports: baddie_supports.iter().map(|id| id.to_string()).collect(),
        support_deck: vec!["a".to_owned(), "b".to_owned(), "c".to_owned(), "d".to_owned(), "e".to_owned()],
    }
}

#[test]
fn support_pairs_exclude_the_selected_main() {
    let pairs = support_pairs(5, 1);
    assert!(!pairs.iter().any(|pair| pair.contains(&1)));
    assert_eq!(pairs.len(), 6);
}

#[test]
fn support_pairs_are_listed_in_order() {
    assert_eq!(support_pairs(4, 0), vec![vec![1, 2], vec![1, 3], vec![2, 3]]);
    assert!(support_pairs(2, 0).is_empty());
    assert_eq!(support_pairs(3, 7), vec![vec![0, 1], vec![0, 2], vec![1, 2]]);
}

#[test]
fn default_setup_builds_preferred_rosters() {
    let content = sample_content();
    let setup = MatchSetup::default_for_content(&content);
    assert_eq!(setup.player_a_mg_main_index, 0);
    assert_eq!(setup.player_b_baddie_main_index, 4);
    assert_eq!(setup.player_a_mg_support_names(&content), vec!["Hana".to_owned(), "Riri".to_owned()]);
    assert_eq!(setup.player_b_mg_main_name(&content), "Hana");
    assert_eq!(setup.player_b_mg_support_names(&content), vec!["Momo".to_owned(), "Kiko".to_owned()]);
    assert_eq!(setup.player_a_baddie_support_names(&content), vec!["Glass Crow".to_owned(), "Thorn Waltz".to_owned()]);
    assert_eq!(setup.player_b_baddie_support_names(&content), vec!["Noctra".to_owned(), "Hollow Marionette".to_owned()]);

    let state = MatchState::from_setup(&content, &setup);
    assert_eq!(state.player_a.magical_girls.main_character_id, "yuki");
    assert_eq!(state.player_b.baddies.main_character_id, "velvet_hex");
    assert_eq!(state.player_a.magical_girls.supports.len(), 2);
    assert!(state.player_a.magical_girls.supports[0].revealed);
    assert!(!state.player_a.magical_girls.supports[1].revealed);
    assert_eq!(state.active_player, PlayerId::PlayerA);
}

#[test]
fn empty_content_falls_back_to_first_entries() {
    let content = GameContent::default();
    let setup = MatchSetup::default_for_content(&content);
    assert_eq!(setup.player_a_mg_main_index, 0);
    assert_eq!(setup.player_a_mg_support_pair_index, 0);
    assert_eq!(setup.player_a_mg_main_name(&content), "Unknown");
    assert!(setup.player_a_mg_support_names(&content).is_empty());
}

#[test]
fn cycling_mains_wraps_and_keeps_valid_pairs() {
    let content = sample_content();
    let mut setup = MatchSetup::default_for_content(&content);
    setup.player_a_mg_support_pair_index = 5;
    setup.cycle_player_a_mg_main(&content);
    assert_eq!(setup.player_a_mg_main_index, 1);
    assert_eq!(setup.player_a_mg_support_pair_index, 5);
    setup.cycle_player_a_mg_supports(&content);
    assert_eq!(setup.player_a_mg_support_pair_index, 0);
    for _ in 0..4 {
        setup.cycle_player_b_baddie_main(&content);
    }
    assert_eq!(setup.player_b_baddie_main_index, 3);
    setup.player_b_mg_support_pair_index = 9;
    setup.cycle_player_b_mg_main(&content);
    assert_eq!(setup.player_b_mg_support_pair_index, 0);
    setup.cycle_player_a_baddie_supports(&content);
    setup.cycle_player_b_baddie_supports(&content);
    setup.cycle_player_b_mg_supports(&content);
    setup.cycle_player_a_baddie_main(&content);
    assert_eq!(setup.player_a_baddie_main_index, 1);
    assert_eq!(setup.player_a_baddie_main_name(&content), "Glass Crow");
    assert_eq!(setup.player_b_baddie_main_name(&content), "Hollow Marionette");
    assert_eq!(setup.player_a_mg_main_name(&content), "Hana");
}

#[test]
fn starter_loadouts_pick_their_rosters_and_decks() {
    let content = sample_content();
    let first = starter("riri", ["yuki", "kiko"], "thorn_waltz", ["noctra", "velvet_hex"]);
    let second = starter("momo", ["hana", "riri"], "noctra", ["glass_crow", "hollow_marionette"]);
    let setup = MatchSetup::from_starter_loadouts(&content, &first, &second);
    assert_eq!(setup.player_a_mg_main_index, 2);
    assert_eq!(setup.player_a_mg_support_names(&content), vec!["Yuki".to_owned(), "Kiko".to_owned()]);
    assert_eq!(setup.player_a_baddie_support_names(&content), vec!["Noctra".to_owned(), "Velvet Hex".to_owned()]);
    assert_eq!(setup.player_b_mg_support_names(&content), vec!["Hana".to_owned(), "Riri".to_owned()]);

    let state = MatchState::from_starter_loadouts(&content, &first, &second, PlayerId::PlayerB);
    assert_eq!(state.active_player, PlayerId::PlayerB);
    assert_eq!(state.priority_player, PlayerId::PlayerB);
    assert_eq!(state.player_a.hand.len(), 5);
    assert!(state.player_a.deck.is_empty());
    assert_eq!(state.player_b.magical_girls.main_character_id, "momo");
}

#[test]
fn default_decks_hold_ten_cards() {
    let deck_a = default_player_a_deck();
    let deck_b = default_player_b_deck();
    assert_eq!(deck_a.len(), 10);
    assert_eq!(deck_a[0], "quiet_lunch_on_the_rooftop");
    assert_eq!(deck_b[9], "break_the_formation");
}

#[test]
fn short_decks_deal_what_they_have() {
    let content = sample_content();
    let setup = MatchSetup::default_for_content(&content);
    let state = MatchState::from_setup_with_options(
        &content,
        &setup,
        vec!["x".to_owned(), "y".to_owned()],
        Vec::new(),
        PlayerId::PlayerA,
    );
    assert_eq!(state.player_a.hand, vec!["x".to_owned(), "y".to_owned()]);
    assert!(state.player_b.hand.is_empty());
    assert_eq!(state.event_log, vec!["Round 1 draw: PlayerA +0, PlayerB +0.".to_owned()]);
}
