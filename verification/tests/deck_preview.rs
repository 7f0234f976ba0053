use eclipse_heart::data::{
    CardAlignment, CardSpeed, CharacterDefinition, CharacterKindDef, GameContent, StarterLoadout, StoryCardDefinition,
    UiText,
};
use eclipse_heart::screens::deck_preview::{
    baddie_names, magical_girl_names, story_card_name, story_card_names, template_roster_lines,
    template_support_seed_lines,
};

fn person(id: &str, name: &str, kind: CharacterKindDef) -> CharacterDefinition {
    CharacterDefinition {
        id: id.to_owned(),
        name: name.to_owned(),
        kind,
        base_power: 1,
        transformed_power: 2,
        final_power: 3,
        first_threshold: 3,
        second_threshold: 6,
    }
}

fn card(id: &str, name: &str) -> StoryCardDefinition {
    StoryCardDefinition {
        id: id.to_owned(),
        name: name.to_owned(),
        card_type: "moment".to_owned(),
        speed: CardSpeed::DailyLife,
        alignment: CardAlignment::Neutral,
        playable_in_daily_life: true,
        effects: Vec::new(),
    }
}

fn content() -> GameContent {
    let mut content = GameContent::default();
    content.magical_girls = vec![
        person("yuki", "Yuki", CharacterKindDef::MagicalGirl),
        person("hana", "Hana", CharacterKindDef::MagicalGirl),
    ];
    content.baddies = vec![person("noctra", "Noctra", CharacterKindDef::Baddie)];
    content.story_cards = vec![card("a", "Alpha"), card("b", "Beta"), card("a", "Shadowed")];
    content
}

fn ids(values: &[&str]) -> Vec<String> {
    values.iter().map(|value| value.to_string()).collect()
}

#[test]
fn story_card_name_falls_back_to_the_id() {
    let content = content();
    assert_eq!(story_card_name(&content, "a"), "Alpha");
    assert_eq!(story_card_name(&content, "b"), "Beta");
    assert_eq!(story_card_name(&content, "zz"), "zz");
}

#[test]
fn names_are_joined_with_commas() {
    let content = content();
    assert_eq!(story_card_names(&content, &ids(&["b", "zz", "a"])), "Beta, zz, Alpha");
    assert_eq!(story_card_names(&content, &[]), "");
    assert_eq!(magical_girl_names(&content, &ids(&["hana", "yuki"])), "Hana, Yuki");
    assert_eq!(baddie_names(&content, &ids(&["noctra", "ghost"])), "Noctra, ghost");
}

#[test]
fn template_roster_lines_label_each_slot() {
    let content = content();
    let ui_text = UiText {
        values: vec![
            ("deck_builder_template_magical_girl_main_label".to_owned(), "Main".to_owned()),
            ("deck_builder_template_baddie_supports_label".to_owned(), "Baddie supports".to_owned()),
        ],
    };
    let starter = StarterLoadout {
        id: "starter".to_owned(),
        name: "Starter".to_owned(),
        magical_girl_main: "yuki".to_owned(),
        magical_girl_supports: ids(&["hana", "riri"]),
        prime_baddie: "noctra".to_owned(),
        baddie_supports: ids(&["noctra"]),
        support_deck: ids(&["b", "a", "b", "c"]),
    };
    let lines = template_roster_lines(&ui_text, &content, &starter);
    assert_eq!(lines[0], "Main: Yuki");
    assert_eq!(lines[1], "deck_builder_template_magical_girl_supports_label: Hana, riri");
    assert_eq!(lines[2], "deck_builder_template_baddie_main_label: Noctra");
    assert_eq!(lines[3], "Baddie supports: Noctra");
    assert_eq!(template_support_seed_lines(&content, &starter), vec!["1x Alpha", "2x Beta", "1x c"]);
}

#[test]
fn seed_lines_of_an_empty_deck_are_empty() {
    let content = content();
    let starter = StarterLoadout {
        id: "empty".to_owned(),
        name: "Empty".to_owned(),
        magical_girl_main: "yuki".to_owned(),
        magical_girl_supports: Vec::new(),
        prime_baddie: "noctra".to_owned(),
        baddie_supports: Vec::new(),
        support_deck: Vec::new(),
    };
    assert!(template_support_seed_lines(&content, &starter).is_empty());
    let twelve = StarterLoadout { support_deck: ids(&["b"; 12]), ..starter };
    assert_eq!(template_support_seed_lines(&content, &twelve), vec!["12x Beta"]);
}
