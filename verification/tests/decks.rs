use eclipse_heart::data::{DeckRules, StarterLoadout};
use eclipse_heart::state::{CollectionCardKind, CollectionSave, DecksSave};

fn sample_starter() -> StarterLoadout {
    StarterLoadout {
        id: "starter_alpha".to_owned(),
        name: "Starter Alpha".to_owned(),
        magical_girl_main: "yuki".to_owned(),
        magical_girl_supports: vec!["hana".to_owned(), "riri".to_owned()],
        prime_baddie: "noctra".to_owned(),
        baddie_supports: vec!["glass_crow".to_owned(), "thorn_waltz".to_owned()],
        support_deck: vec!["quiet_lunch_on_the_rooftop".to_owned()],
    }
}

#[test]
fn deck_save_creates_default_active_deck_and_respects_copy_limit() {
    let starter = sample_starter();
    let mut decks = DecksSave::default();
    let rules = DeckRules { support_deck_size: 5, max_copies_per_story_card: 2, universal_copy_limit: true };

    decks.ensure_active_support_deck(std::slice::from_ref(&starter));
    assert_eq!(decks.active_support_deck().map(|deck| deck.name.as_str()), Some("Starter Alpha"));

    let mut collection = CollectionSave::default();
    collection.add_owned(CollectionCardKind::StoryCard, "not_on_my_watch", 2);

    assert!(decks.add_card("not_on_my_watch", &rules, &collection));
    assert!(decks.add_card("not_on_my_watch", &rules, &collection));
    assert!(!decks.add_card("not_on_my_watch", &rules, &collection));

    assert!(decks.remove_card("not_on_my_watch"));
    assert_eq!(decks.card_count("not_on_my_watch"), 1);
}

#[test]
fn empty_starter_list_creates_prototype_deck() {
    let mut decks = DecksSave::default();
    decks.ensure_active_support_deck(&[]);
    let deck = decks.active_support_deck().expect("deck");
    assert_eq!(deck.id, "prototype_support_deck");
    assert_eq!(deck.name, "Prototype Support Deck");
    assert!(deck.story_cards.is_empty());
    decks.ensure_active_support_deck(std::slice::from_ref(&sample_starter()));
    assert_eq!(decks.support_decks.len(), 1);
    assert_eq!(decks.active_support_deck().map(|deck| deck.id.as_str()), Some("prototype_support_deck"));
}

#[test]
fn deck_size_limit_and_unowned_cards_are_refused() {
    let mut decks = DecksSave::default();
    let rules = DeckRules { support_deck_size: 2, max_copies_per_story_card: 3, universal_copy_limit: true };
    let mut collection = CollectionSave::default();
    assert!(!decks.add_card("shared_umbrella", &rules, &collection));
    decks.ensure_active_support_deck(std::slice::from_ref(&sample_starter()));
    assert!(!decks.add_card("shared_umbrella", &rules, &collection));
    collection.add_owned(CollectionCardKind::StoryCard, "shared_umbrella", 3);
    assert!(decks.can_add_card("shared_umbrella", &rules, &collection));
    assert!(decks.add_card("shared_umbrella", &rules, &collection));
    assert!(!decks.add_card("shared_umbrella", &rules, &collection));
    assert_eq!(decks.card_count("shared_umbrella"), 1);
    assert!(!decks.remove_card("identity_reveal"));
}

#[test]
fn loading_a_starter_replaces_the_active_deck() {
    let mut decks = DecksSave::default();
    decks.ensure_active_support_deck(&[]);
    decks.load_starter_into_active(&sample_starter());
    let deck = decks.active_support_deck().expect("deck");
    assert_eq!(deck.id, "starter_alpha");
    assert_eq!(deck.story_cards, vec!["quiet_lunch_on_the_rooftop".to_owned()]);
    assert_eq!(decks.card_count("quiet_lunch_on_the_rooftop"), 1);
}

#[test]
fn collection_counts_and_availability() {
    let mut collection = CollectionSave::default();
    collection.add_owned(CollectionCardKind::MagicalGirl, "yuki", 1);
    collection.add_owned(CollectionCardKind::StoryCard, "quiet_lunch_on_the_rooftop", 2);
    assert_eq!(collection.owned_count(CollectionCardKind::MagicalGirl, "yuki"), 1);
    assert_eq!(collection.owned_count(CollectionCardKind::Baddie, "yuki"), 0);
    assert_eq!(collection.owned_count(CollectionCardKind::StoryCard, "quiet_lunch_on_the_rooftop"), 2);
    assert_eq!(collection.story_cards_available_for_deck("quiet_lunch_on_the_rooftop", 1), 1);
    assert_eq!(collection.story_cards_available_for_deck("quiet_lunch_on_the_rooftop", 5), 0);
}
