use eclipse_heart::data::{
    CampaignDefinition, CampaignEncounterDefinition, CampaignNodeDefinition, CardAlignment, CardEffect, CardSpeed,
    CharacterDefinition, CharacterKindDef, GameContent, StoryCardDefinition, UiText,
};
use eclipse_heart::data::DeckRules;
use eclipse_heart::engine::MatchAction;
use eclipse_heart::game::booster::booster_from_indices;
use eclipse_heart::screens::battle::{battle_request, BattleControl};
use eclipse_heart::screens::deck_builder::{deck_builder_request, DeckBuilderControl, DeckBuilderTab, DeckBuilderView};
use eclipse_heart::screens::ScreenAction;
use eclipse_heart::state::{
    AppScreen, AppState, BattleContext, CampaignRunStatus, CampaignSaveBundle, CollectionSave, DeckPreset, DecksSave,
    MatchPhase, MatchSetup, MatchState, PlayerId, ProfileSave, SaveData,
};

const NOW: i64 = 1_700_000_000;

fn character(id: &str, kind: CharacterKindDef) -> CharacterDefinition {
    CharacterDefinition {
        id: id.to_owned(),
        name: id.to_owned(),
        kind,
        base_power: 1,
        transformed_power: 2,
        final_power: 3,
        first_threshold: 3,
        second_threshold: 6,
    }
}

fn campaign() -> CampaignDefinition {
    CampaignDefinition {
        id: "campaign_alpha".to_owned(),
        name: "Campaign Alpha".to_owned(),
        description: String::new(),
        nodes: vec![
            CampaignNodeDefinition {
                id: "node_1".to_owned(),
                encounter_id: "encounter_1".to_owned(),
                next_node_ids: vec!["node_2".to_owned()],
                boss: false,
            },
            CampaignNodeDefinition {
                id: "node_2".to_owned(),
                encounter_id: "encounter_2".to_owned(),
                next_node_ids: Vec::new(),
                boss: true,
            },
        ],
        encounters: vec![
            CampaignEncounterDefinition {
                id: "encounter_1".to_owned(),
                name: "First".to_owned(),
                enemy_loadout_id: "starter_a".to_owned(),
                intro_text: String::new(),
                reward_story_card_ids: vec!["reward_a".to_owned()],
                boss: false,
            },
            CampaignEncounterDefinition {
                id: "encounter_2".to_owned(),
                name: "Second".to_owned(),
                enemy_loadout_id: "starter_b".to_owned(),
                intro_text: String::new(),
                reward_story_card_ids: Vec::new(),
                boss: true,
            },
        ],
    }
}

fn content() -> GameContent {
    let mut content = GameContent::default();
    content.magical_girls = vec![
        character("yuki", CharacterKindDef::MagicalGirl),
        character("hana", CharacterKindDef::MagicalGirl),
        character("riri", CharacterKindDef::MagicalGirl),
    ];
    content.baddies = vec![
        character("noctra", CharacterKindDef::Baddie),
        character("glass_crow", CharacterKindDef::Baddie),
        character("thorn_waltz", CharacterKindDef::Baddie),
    ];
    content.story_cards = vec![StoryCardDefinition {
        id: "reward_a".to_owned(),
        name: "Moonlit Reward".to_owned(),
        card_type: "moment".to_owned(),
        speed: CardSpeed::DailyLife,
        alignment: CardAlignment::MagicalGirl,
        playable_in_daily_life: true,
        effects: vec![CardEffect::GainMainRadiance { amount: 1 }],
    }];
    content.campaign = campaign();
    content
}

fn ui_text() -> UiText {
    let entries = [
        ("campaign_notice_campaign_cleared", "Campaign cleared!"),
        ("campaign_notice_victory_reward", "Victory! New card:"),
        ("campaign_notice_victory", "Victory!"),
        ("campaign_notice_defeat", "Defeat."),
    ];
    UiText { values: entries.iter().map(|(key, value)| (key.to_string(), value.to_string())).collect() }
}

fn deck() -> DeckPreset {
    DeckPreset {
        id: "deck_1".to_owned(),
        name: "Moonlight".to_owned(),
        story_cards: vec!["reward_a".to_owned()],
        ..DeckPreset::default()
    }
}

fn game(finished_winner: Option<Option<PlayerId>>, context: BattleContext) -> AppState {
    let content = content();
    let setup = MatchSetup::default_for_content(&content);
    let mut match_state = MatchState::from_setup(&content, &setup);
    if let Some(winner) = finished_winner {
        match_state.phase = MatchPhase::Finished;
        match_state.winner = winner;
    }
    let mut campaigns = CampaignSaveBundle::default();
    campaigns.create_run(&content.campaign, &deck(), "Run", NOW);
    AppState {
        screen: AppScreen::Battle,
        ui_text: ui_text(),
        content,
        setup,
        match_state: Some(match_state),
        battle_context: context,
        campaign_notice: None,
        saves: SaveData {
            profile: ProfileSave::default(),
            collection: CollectionSave::default(),
            decks: DecksSave::default(),
            campaigns,
        },
        last_opened_booster: Vec::new(),
    }
}

fn at(node: &str) -> BattleContext {
    BattleContext::Campaign { run_id: "campaign_run_1".to_owned(), node_id: node.to_owned() }
}

#[test]
fn a_skirmish_or_an_unfinished_match_is_not_resolved() {
    let mut skirmish = game(Some(Some(PlayerId::PlayerA)), BattleContext::Skirmish);
    assert!(!skirmish.resolve_finished_battle(NOW));
    assert_eq!(skirmish.screen, AppScreen::Battle);
    assert!(skirmish.match_state.is_some());

    let mut going_on = game(None, at("node_1"));
    assert!(!going_on.resolve_finished_battle(NOW));
    assert!(going_on.match_state.is_some());
    assert_eq!(going_on.saves.campaigns.runs[0].battle_history.len(), 0);
}

#[test]
fn a_won_node_names_its_reward_and_opens_the_hub() {
    let mut state = game(Some(Some(PlayerId::PlayerA)), at("node_1"));
    assert!(state.resolve_finished_battle(NOW + 5));
    assert_eq!(state.campaign_notice.as_deref(), Some("Victory! New card: Moonlit Reward"));
    assert_eq!(state.screen, AppScreen::CampaignHub);
    assert!(state.match_state.is_none());
    assert!(matches!(state.battle_context, BattleContext::Skirmish));
    let run = &state.saves.campaigns.runs[0];
    assert_eq!(run.current_node_id, "node_2");
    assert_eq!(run.completed_node_ids, vec!["node_1".to_owned()]);
    assert_eq!(run.player_deck.story_cards, vec!["reward_a".to_owned(), "reward_a".to_owned()]);
    assert_eq!(run.updated_at_unix, NOW + 5);
}

#[test]
fn winning_the_last_node_clears_the_campaign() {
    let mut state = game(Some(Some(PlayerId::PlayerA)), at("node_2"));
    assert!(state.resolve_finished_battle(NOW));
    assert_eq!(state.campaign_notice.as_deref(), Some("Campaign cleared!"));
    assert_eq!(state.screen, AppScreen::CampaignMenu);
    assert_eq!(state.saves.campaigns.runs[0].status, CampaignRunStatus::Won);
}

#[test]
fn a_victory_at_an_unknown_node_only_announces_it() {
    let mut state = game(Some(Some(PlayerId::PlayerA)), at("node_9"));
    assert!(state.resolve_finished_battle(NOW));
    assert_eq!(state.campaign_notice.as_deref(), Some("Victory!"));
    assert_eq!(state.screen, AppScreen::CampaignHub);
    assert_eq!(state.saves.campaigns.runs[0].battle_history.len(), 0);
}

#[test]
fn a_lost_battle_loses_the_run() {
    let mut state = game(Some(Some(PlayerId::PlayerB)), at("node_1"));
    assert!(state.resolve_finished_battle(NOW));
    assert_eq!(state.campaign_notice.as_deref(), Some("Defeat."));
    assert_eq!(state.screen, AppScreen::CampaignMenu);
    assert_eq!(state.saves.campaigns.runs[0].status, CampaignRunStatus::Lost);

    let mut draw = game(Some(None), BattleContext::Campaign {
        run_id: "missing_run".to_owned(),
        node_id: "node_1".to_owned(),
    });
    assert!(!draw.resolve_finished_battle(NOW));
    assert_eq!(draw.campaign_notice, None);
    assert_eq!(draw.screen, AppScreen::CampaignMenu);
    assert!(draw.match_state.is_none());
}

#[test]
fn an_action_on_a_finished_match_counts_nothing_but_resolves_it() {
    let mut state = game(Some(Some(PlayerId::PlayerA)), at("node_1"));
    let save = state.handle_match_action(MatchAction::PassDailyLife { player: PlayerId::PlayerA }, NOW);
    assert!(save);
    assert_eq!(state.saves.profile.total_matches_played, 0);
    assert_eq!(state.screen, AppScreen::CampaignHub);
}

#[test]
fn an_ordinary_action_changes_only_the_match() {
    let mut state = game(None, BattleContext::Skirmish);
    let active = state.match_state.as_ref().map(|m| m.priority_player).expect("match");
    let save = state.handle_match_action(MatchAction::PassDailyLife { player: active }, NOW);
    assert!(!save);
    assert_eq!(state.saves.profile.total_matches_played, 0);
    assert_eq!(state.screen, AppScreen::Battle);
    assert_eq!(state.match_state.as_ref().map(|m| m.phase_passes), Some(1));
}

#[test]
fn the_computer_waits_off_the_battle_screen() {
    let mut state = game(None, BattleContext::Skirmish);
    state.screen = AppScreen::Menu;
    let before = state.match_state.as_ref().map(|m| m.event_log.len());
    assert!(!state.run_battle_ai_turn(NOW));
    assert_eq!(state.match_state.as_ref().map(|m| m.event_log.len()), before);
}

#[test]
fn resolving_a_second_time_changes_nothing() {
    let mut state = game(Some(Some(PlayerId::PlayerA)), at("node_1"));
    assert!(state.resolve_finished_battle(NOW));
    let history = state.saves.campaigns.runs[0].battle_history.len();
    assert!(!state.resolve_finished_battle(NOW + 1));
    assert_eq!(state.saves.campaigns.runs[0].battle_history.len(), history);
    assert_eq!(state.screen, AppScreen::CampaignHub);
    assert_eq!(state.saves.campaigns.runs[0].updated_at_unix, NOW);
}

fn deck_state() -> AppState {
    let mut state = game(None, BattleContext::Skirmish);
    state.content.deck_rules = DeckRules { support_deck_size: 3, max_copies_per_story_card: 2, universal_copy_limit: false };
    state.saves.decks.support_decks = vec![deck()];
    state.saves.collection.owned_story_cards = vec!["reward_a".to_owned(), "reward_a".to_owned()];
    state
}

#[test]
fn deck_builder_requests_add_and_remove_cards_within_the_rules() {
    let mut state = deck_state();
    assert!(state.handle_deck_builder_action(ScreenAction::DeckBuilderAddCard { card_id: "reward_a".to_owned() }));
    assert_eq!(state.saves.decks.support_decks[0].story_cards.len(), 2);
    assert!(!state.handle_deck_builder_action(ScreenAction::DeckBuilderAddCard { card_id: "reward_a".to_owned() }));
    assert_eq!(state.saves.decks.support_decks[0].story_cards.len(), 2);
    assert!(state.handle_deck_builder_action(ScreenAction::DeckBuilderRemoveCard { card_id: "reward_a".to_owned() }));
    assert_eq!(state.saves.decks.support_decks[0].story_cards.len(), 1);
    assert!(!state.handle_deck_builder_action(ScreenAction::DeckBuilderRemoveCard { card_id: "missing".to_owned() }));
    assert!(!state.handle_deck_builder_action(ScreenAction::DeckBuilderDeleteSelectedDeck));
    assert_eq!(state.saves.decks.support_decks.len(), 1);
}

#[test]
fn an_opened_booster_joins_the_collection() {
    let mut state = deck_state();
    let owned_before = state.saves.collection.owned_magical_girls.len()
        + state.saves.collection.owned_baddies.len()
        + state.saves.collection.owned_story_cards.len();
    assert!(state.handle_deck_builder_action(ScreenAction::DeckBuilderOpenBooster));
    assert_eq!(state.last_opened_booster.len(), 10);
    let owned_after = state.saves.collection.owned_magical_girls.len()
        + state.saves.collection.owned_baddies.len()
        + state.saves.collection.owned_story_cards.len();
    assert_eq!(owned_after, owned_before + 10);

    let mut other = deck_state();
    let grants = booster_from_indices(&other.content, &[6, 0, 3]);
    assert_eq!(grants[0].id, "reward_a");
    assert_eq!(grants[1].id, "yuki");
    assert_eq!(grants[2].id, "noctra");
    other.receive_booster(grants);
    assert_eq!(other.saves.collection.owned_story_cards, vec!["reward_a", "reward_a", "reward_a"]);
    assert_eq!(other.saves.collection.owned_magical_girls, vec!["yuki"]);
    assert_eq!(other.saves.collection.owned_baddies, vec!["noctra"]);
    assert_eq!(other.last_opened_booster.len(), 3);
}

#[test]
fn the_deck_builder_offers_only_what_the_deck_allows() {
    let state = deck_state();
    let mut view = DeckBuilderView::new();
    let add = deck_builder_request(&mut view, &state, DeckBuilderControl::AddCard { card_id: "reward_a".to_owned() });
    assert!(matches!(add, ScreenAction::DeckBuilderAddCard { ref card_id } if card_id == "reward_a"));
    let remove = deck_builder_request(&mut view, &state, DeckBuilderControl::RemoveCard { card_id: "missing".to_owned() });
    assert!(matches!(remove, ScreenAction::Idle));
    let select = deck_builder_request(&mut view, &state, DeckBuilderControl::SavedDeck { deck_index: 0 });
    assert!(matches!(select, ScreenAction::DeckBuilderSelectDeck { ref deck_id } if deck_id == "deck_1"));
    assert!(matches!(deck_builder_request(&mut view, &state, DeckBuilderControl::SavedDeck { deck_index: 4 }), ScreenAction::Idle));
    assert!(matches!(deck_builder_request(&mut view, &state, DeckBuilderControl::TemplateCreate { loadout_index: 0 }), ScreenAction::Idle));
    assert!(matches!(deck_builder_request(&mut view, &state, DeckBuilderControl::Tab { tab: DeckBuilderTab::Baddies }), ScreenAction::Idle));
    assert_eq!(view.active_tab, DeckBuilderTab::Baddies);
    let hidden = deck_builder_request(&mut view, &state, DeckBuilderControl::AddCard { card_id: "reward_a".to_owned() });
    assert!(matches!(hidden, ScreenAction::Idle));
    assert!(matches!(deck_builder_request(&mut view, &state, DeckBuilderControl::OpenBooster), ScreenAction::DeckBuilderOpenBooster));
    assert!(matches!(deck_builder_request(&mut view, &state, DeckBuilderControl::BackToMenu), ScreenAction::BackToMenu));
}

#[test]
fn the_battle_screen_offers_the_moves_of_the_moment() {
    let mut none = game(None, BattleContext::Skirmish);
    none.match_state = None;
    assert!(matches!(battle_request(&none, None), ScreenAction::BackToMenu));

    let skirmish = game(None, BattleContext::Skirmish);
    assert!(matches!(battle_request(&skirmish, None), ScreenAction::Idle));
    assert!(matches!(
        battle_request(&skirmish, Some(BattleControl::PassDailyLife)),
        ScreenAction::ApplyMatchAction(MatchAction::PassDailyLife { player: PlayerId::PlayerA })
    ));
    assert!(matches!(battle_request(&skirmish, Some(BattleControl::PassEncounter)), ScreenAction::Idle));
    assert!(matches!(battle_request(&skirmish, Some(BattleControl::PassReaction)), ScreenAction::Idle));
    assert!(matches!(battle_request(&skirmish, Some(BattleControl::DeclareFinalClimax)), ScreenAction::Idle));
    assert!(matches!(battle_request(&skirmish, Some(BattleControl::HandCard { hand_index: 99 })), ScreenAction::Idle));
    assert!(matches!(battle_request(&skirmish, Some(BattleControl::BackToMenu)), ScreenAction::BackToMenu));
    assert!(matches!(
        battle_request(&skirmish, Some(BattleControl::RevealBaddieSupport)),
        ScreenAction::ApplyMatchAction(MatchAction::RevealFirstHiddenSupport { player: PlayerId::PlayerA, is_magical_girl_side: false })
    ));
    let campaign = game(None, at("node_1"));
    assert!(matches!(battle_request(&campaign, Some(BattleControl::RevealBaddieSupport)), ScreenAction::Idle));
}

#[test]
fn campaign_menu_requests_change_the_selected_run() {
    let mut state = game(None, BattleContext::Skirmish);
    state.campaign_notice = Some("old".to_owned());
    assert!(!state.handle_campaign_action(ScreenAction::CampaignSelectRun { run_id: "missing".to_owned() }, NOW));
    assert_eq!(state.campaign_notice.as_deref(), Some("old"));
    assert!(state.handle_campaign_action(ScreenAction::CampaignSelectRun { run_id: "campaign_run_1".to_owned() }, NOW));
    assert_eq!(state.campaign_notice, None);
    assert!(!state.handle_campaign_action(ScreenAction::CampaignContinueRun, NOW));
    assert_eq!(state.screen, AppScreen::CampaignHub);
    assert!(state.handle_campaign_action(ScreenAction::CampaignAbandonRun, NOW + 2));
    assert_eq!(state.saves.campaigns.runs[0].status, CampaignRunStatus::Lost);
    assert_eq!(state.campaign_notice.as_deref(), Some("campaign_notice_run_abandoned"));
    state.screen = AppScreen::CampaignMenu;
    assert!(!state.handle_campaign_action(ScreenAction::CampaignContinueRun, NOW));
    assert_eq!(state.screen, AppScreen::CampaignMenu);
}

#[test]
fn navigation_leaves_a_campaign_battle_for_the_menu() {
    let mut state = game(None, at("node_1"));
    assert!(!state.handle_navigation_action(ScreenAction::BackToMenu));
    assert_eq!(state.screen, AppScreen::Menu);
    assert!(state.match_state.is_none());
    assert!(matches!(state.battle_context, BattleContext::Skirmish));

    let mut skirmish = game(None, BattleContext::Skirmish);
    assert!(!skirmish.handle_navigation_action(ScreenAction::EscapeMenuExitToMainMenu));
    assert!(skirmish.match_state.is_some());
    assert!(!skirmish.handle_navigation_action(ScreenAction::OpenSetup));
    assert_eq!(skirmish.screen, AppScreen::Setup);
    assert!(skirmish.handle_navigation_action(ScreenAction::EscapeMenuSave));
}

#[test]
fn setup_cycles_and_a_configured_battle_starts() {
    let mut state = game(None, BattleContext::Skirmish);
    let main_before = state.setup.player_a_mg_main_index;
    state.handle_setup_action(ScreenAction::SetupCyclePlayerAMgMain);
    assert_eq!(state.setup.player_a_mg_main_index, (main_before + 1) % 3);
    state.handle_setup_action(ScreenAction::SetupCyclePlayerBBaddieSupports);
    state.match_state = None;
    state.screen = AppScreen::Setup;
    state.start_configured_battle();
    assert_eq!(state.screen, AppScreen::Battle);
    assert_eq!(state.match_state.as_ref().map(|m| m.player_a.hand.len()), Some(6));
    assert!(matches!(state.battle_context, BattleContext::Skirmish));
}
