use eclipse_heart::data::{CampaignDefinition, CampaignEncounterDefinition, CampaignNodeDefinition};
use eclipse_heart::state::{CampaignRunStatus, CampaignSaveBundle, DeckPreset};

const NOW: i64 = 1_700_000_000;

fn sample_campaign() -> CampaignDefinition {
    CampaignDefinition {
        id: "campaign_alpha".to_owned(),
        name: "Campaign Alpha".to_owned(),
        description: String::new(),
        nodes: vec![
            CampaignNodeDefinition {
                id: "node_1".to_owned(),
                encounter_id: "encounter_1".to_owned(),
                next_node_ids: vec!["node_2".to_owned()],
                boss: false,
            },
            CampaignNodeDefinition {
                id: "node_2".to_owned(),
                encounter_id: "encounter_2".to_owned(),
                next_node_ids: Vec::new(),
                boss: true,
            },
        ],
        encounters: vec![
            CampaignEncounterDefinition {
                id: "encounter_1".to_owned(),
                name: "First".to_owned(),
                enemy_loadout_id: "starter_a".to_owned(),
                intro_text: String::new(),
                reward_story_card_ids: vec!["reward_a".to_owned()],
                boss: false,
            },
            CampaignEncounterDefinition {
                id: "encounter_2".to_owned(),
                name: "Second".to_owned(),
                enemy_loadout_id: "starter_b".to_owned(),
                intro_text: String::new(),
                reward_story_card_ids: vec!["reward_b".to_owned()],
                boss: true,
            },
        ],
    }
}

fn sample_deck() -> DeckPreset {
    DeckPreset {
        id: "deck_1".to_owned(),
        name: "Moonlight".to_owned(),
        story_cards: vec!["quiet_lunch_on_the_rooftop".to_owned()],
        magical_girl_roster: vec!["yuki".to_owned(), "hana".to_owned(), "riri".to_owned()],
        baddie_roster: vec!["noctra".to_owned(), "glass_crow".to_owned(), "thorn_waltz".to_owned()],
        ..DeckPreset::default()
    }
}

#[test]
fn create_run_selects_new_slot_without_closing_existing_runs() {
    let campaign = sample_campaign();
    let mut saves = CampaignSaveBundle::default();

    saves.create_run(&campaign, &sample_deck(), "New Run", NOW);
    saves.create_run(&campaign, &sample_deck(), "New Run", NOW);

    assert_eq!(saves.runs.len(), 2);
    assert_eq!(saves.runs[0].status, CampaignRunStatus::InProgress);
    assert_eq!(saves.selected_run().map(|run| run.id.as_str()), Some("campaign_run_2"));
    assert_eq!(saves.selected_run().map(|run| run.selected_magical_girl_support_ids.clone()), Some(Vec::new()));
}

#[test]
fn record_victory_advances_and_then_completes_selected_run() {
    let campaign = sample_campaign();
    let mut saves = CampaignSaveBundle::default();
    let run_id = saves.create_run(&campaign, &sample_deck(), "New Run", NOW).expect("run");

    assert_eq!(saves.record_victory_for_run(&run_id, &campaign, "node_1", Some("reward_a"), NOW), Some(false));
    assert_eq!(saves.selected_run().map(|run| run.current_node_id.as_str()), Some("node_2"));

    assert_eq!(saves.record_victory_for_run(&run_id, &campaign, "node_2", Some("reward_b"), NOW), Some(true));
    assert_eq!(saves.runs[0].status, CampaignRunStatus::Won);
    assert!(saves.runs[0].player_deck.story_cards.iter().any(|card| card == "reward_b"));
}

#[test]
fn select_run_switches_current_slot() {
    let campaign = sample_campaign();
    let mut saves = CampaignSaveBundle::default();
    let first_run_id = saves.create_run(&campaign, &sample_deck(), "New Run", NOW).expect("first run");
    let second_run_id = saves.create_run(&campaign, &sample_deck(), "New Run", NOW).expect("second run");

    assert!(saves.select_run(&first_run_id));
    assert_eq!(saves.selected_run().map(|run| run.id.as_str()), Some(first_run_id.as_str()));
    assert_ne!(first_run_id, second_run_id);
}

#[test]
fn selected_support_pair_can_be_updated_for_selected_run() {
    let campaign = sample_campaign();
    let mut saves = CampaignSaveBundle::default();
    saves.create_run(&campaign, &sample_deck(), "New Run", NOW);

    assert!(saves.update_selected_magical_girl_supports(&["riri".to_owned(), "momo".to_owned()], NOW));
    assert_eq!(
        saves.selected_run().map(|run| run.selected_magical_girl_support_ids.clone()),
        Some(vec!["riri".to_owned(), "momo".to_owned()])
    );
}

#[test]
fn toggled_supports_can_be_cleared_and_do_not_autofill() {
    let campaign = sample_campaign();
    let mut saves = CampaignSaveBundle::default();
    saves.create_run(&campaign, &sample_deck(), "New Run", NOW);

    assert!(saves.toggle_selected_magical_girl_support("hana", NOW));
    assert_eq!(
        saves.selected_run().map(|run| run.selected_magical_girl_support_ids.clone()),
        Some(vec!["hana".to_owned()])
    );
    assert!(saves.toggle_selected_magical_girl_support("hana", NOW));
    assert_eq!(saves.selected_run().map(|run| run.selected_magical_girl_support_ids.clone()), Some(Vec::new()));
}

#[test]
fn campaign_without_nodes_starts_no_run() {
    let mut campaign = sample_campaign();
    campaign.nodes.clear();
    let mut saves = CampaignSaveBundle::default();
    assert_eq!(saves.create_run(&campaign, &sample_deck(), "New Run", NOW), None);
    assert!(saves.runs.is_empty());
    assert!(saves.selected_run().is_none());
}

#[test]
fn new_run_copies_the_deck_and_names_itself_after_it() {
    let campaign = sample_campaign();
    let mut saves = CampaignSaveBundle::default();
    saves.create_run(&campaign, &sample_deck(), "New Run", NOW);
    let run = saves.selected_run().expect("run");
    assert_eq!(run.name, "Moonlight Run");
    assert_eq!(run.campaign_id, "campaign_alpha");
    assert_eq!(run.current_node_id, "node_1");
    assert_eq!(run.player_deck.story_cards, vec!["quiet_lunch_on_the_rooftop".to_owned()]);
    assert_eq!(run.created_at_unix, NOW);

    let mut blank_deck = sample_deck();
    blank_deck.name = "  \t ".to_owned();
    saves.create_run(&campaign, &blank_deck, "New Run", NOW);
    assert_eq!(saves.selected_run().map(|run| run.name.as_str()), Some("New Run"));
    assert_eq!(saves.selected_run().map(|run| run.id.as_str()), Some("campaign_run_2"));
}

#[test]
fn toggling_refuses_the_main_characters_off_roster_and_a_third_support() {
    let campaign = sample_campaign();
    let mut saves = CampaignSaveBundle::default();
    saves.create_run(&campaign, &sample_deck(), "New Run", NOW);

    assert!(!saves.toggle_selected_magical_girl_support("yuki", NOW));
    assert!(!saves.toggle_selected_magical_girl_support("momo", NOW));
    assert!(saves.toggle_selected_magical_girl_support("hana", NOW));
    assert!(saves.toggle_selected_magical_girl_support("riri", NOW));
    assert!(saves.selected_run_has_valid_support_pair());
    assert!(!saves.update_selected_magical_girl_supports(&["riri".to_owned()], NOW));
}

#[test]
fn defeat_and_abandon_lose_the_run() {
    let campaign = sample_campaign();
    let mut saves = CampaignSaveBundle::default();
    let run_id = saves.create_run(&campaign, &sample_deck(), "New Run", NOW).expect("run");
    assert!(!saves.record_defeat_for_run(&run_id, &campaign, "node_9", NOW + 1));
    assert!(saves.record_defeat_for_run(&run_id, &campaign, "node_1", NOW + 1));
    assert_eq!(saves.runs[0].status, CampaignRunStatus::Lost);
    assert_eq!(saves.runs[0].battle_history.len(), 1);
    assert!(!saves.runs[0].battle_history[0].won);
    assert_eq!(saves.runs[0].updated_at_unix, NOW + 1);
    assert!(!saves.selected_run_is_in_progress());

    let other = saves.create_run(&campaign, &sample_deck(), "New Run", NOW).expect("run");
    assert!(saves.selected_run_is_in_progress());
    assert!(saves.abandon_selected_run(NOW + 2));
    assert_eq!(saves.run_by_id(&other).map(|run| run.status.clone()), Some(CampaignRunStatus::Lost));
}

#[test]
fn unknown_run_or_node_records_nothing() {
    let campaign = sample_campaign();
    let mut saves = CampaignSaveBundle::default();
    let run_id = saves.create_run(&campaign, &sample_deck(), "New Run", NOW).expect("run");
    assert_eq!(saves.record_victory_for_run("campaign_run_9", &campaign, "node_1", None, NOW), None);
    assert_eq!(saves.record_victory_for_run(&run_id, &campaign, "node_9", None, NOW), None);
    assert!(saves.runs[0].completed_node_ids.is_empty());
    assert!(!saves.select_run("campaign_run_9"));
}

#[test]
fn recent_rewards_keep_the_last_five() {
    let mut campaign = sample_campaign();
    campaign.nodes[0].next_node_ids = vec!["node_1".to_owned()];
    let mut saves = CampaignSaveBundle::default();
    let run_id = saves.create_run(&campaign, &sample_deck(), "New Run", NOW).expect("run");
    for index in 0..7 {
        let card = format!("reward_{index}");
        assert_eq!(saves.record_victory_for_run(&run_id, &campaign, "node_1", Some(card.as_str()), NOW), Some(false));
    }
    let deck = &saves.runs[0].player_deck;
    assert_eq!(deck.story_cards.len(), 8);
    assert_eq!(
        deck.recent_story_cards,
        vec!["reward_2", "reward_3", "reward_4", "reward_5", "reward_6"]
            .into_iter()
            .map(str::to_owned)
            .collect::<Vec<_>>()
    );
    assert_eq!(saves.runs[0].battle_history.len(), 7);
}
