use eclipse_heart::data::{
    CardAlignment, CardEffect, CardSpeed, CharacterDefinition, CharacterKindDef, GameContent,
    StoryCardDefinition, UiText,
};
use eclipse_heart::engine::{AiController, MatchAction, MatchEngine};
use eclipse_heart::game::booster::open_booster;
use eclipse_heart::screens::battle::{
    battle_action_hint, can_reveal_side, format_supports, player_status, run_status_label, support_pair_name_options,
    winner_label,
};
use eclipse_heart::state::{opposing, CampaignRunStatus, CharacterStage, MatchPhase, MatchSetup, MatchState, PlayerId};

fn character(id: &str, kind: CharacterKindDef, base: i32, transformed: i32, final_power: i32) -> CharacterDefinition {
    CharacterDefinition {
        id: id.to_owned(),
        name: id.to_owned(),
        kind,
        base_power: base,
        transformed_power: transformed,
        final_power,
        first_threshold: 3,
        second_threshold: 6,
    }
}

fn story(id: &str, speed: CardSpeed, alignment: CardAlignment, effect: CardEffect) -> StoryCardDefinition {
    StoryCardDefinition {
        id: id.to_owned(),
        name: id.to_owned(),
        card_type: "moment".to_owned(),
        speed,
        alignment,
        playable_in_daily_life: speed == CardSpeed::DailyLife,
        effects: vec![effect],
    }
}

fn sample_content() -> GameContent {
    let mut content = GameContent::default();
    content.magical_girls = vec![
        character("yuki", CharacterKindDef::MagicalGirl, 2, 3, 4),
        character("hana", CharacterKindDef::MagicalGirl, 1, 2, 3),
        character("riri", CharacterKindDef::MagicalGirl, 1, 2, 3),
        character("momo", CharacterKindDef::MagicalGirl, 1, 2, 3),
        character("kiko", CharacterKindDef::MagicalGirl, 1, 2, 3),
    ];
    content.baddies = vec![
        character("noctra", CharacterKindDef::Baddie, 1, 2, 3),
        character("glass_crow", CharacterKindDef::Baddie, 1, 2, 3),
        character("thorn_waltz", CharacterKindDef::Baddie, 1, 2, 3),
        character("hollow_marionette", CharacterKindDef::Baddie, 1, 2, 3),
        character("velvet_hex", CharacterKindDef::Baddie, 2, 3, 4),
    ];
    let radiance = CardEffect::GainMainRadiance { amount: 1 };
    let dread = CardEffect::GainPrimeDread { amount: 1 };
    let mg = CardAlignment::MagicalGirl;
    let bd = CardAlignment::Baddie;
    content.story_cards = vec![
        story("quiet_lunch_on_the_rooftop", CardSpeed::DailyLife, mg, radiance),
        story("false_sense_of_calm", CardSpeed::DailyLife, mg, radiance),
        story("secret_rehearsal", CardSpeed::DailyLife, mg, radiance),
        story("not_on_my_watch", CardSpeed::Reaction, mg, radiance),
        story("shared_umbrella", CardSpeed::DailyLife, mg, radiance),
        story("emergency_costume_repair", CardSpeed::Reaction, mg, radiance),
        story("crescent_counterpose", CardSpeed::Encounter, mg, radiance),
        story("moonlit_rescue_chain", CardSpeed::Encounter, mg, radiance),
        story("break_the_formation", CardSpeed::Encounter, CardAlignment::Neutral, radiance),
        story("identity_reveal", CardSpeed::Encounter, mg, CardEffect::RevealFirstHiddenOwnSupport),
        story("ominous_graffiti", CardSpeed::DailyLife, bd, dread),
        story("whisper_campaign", CardSpeed::Reaction, bd, dread),
        story("twisted_headline", CardSpeed::DailyLife, bd, dread),
        story("expose_the_accomplice", CardSpeed::Reaction, bd, dread),
        story("curtain_call_denied", CardSpeed::Reaction, bd, dread),
        story("last_minute_cover_story", CardSpeed::Reaction, bd, dread),
        story("panic_spiral", CardSpeed::Encounter, bd, dread),
        story("panic_in_the_parade_route", CardSpeed::Encounter, bd, dread),
        story("forbidden_bloom_of_calamity", CardSpeed::Encounter, bd, dread),
    ];
    content
}

fn sample_state() -> MatchState {
    let content = sample_content();
    let setup = MatchSetup::default_for_content(&content);
    MatchState::from_setup(&content, &setup)
}


fn held(state: &MatchState, player: PlayerId) -> Vec<String> {
    let p = match player {
        PlayerId::PlayerA => &state.player_a,
        PlayerId::PlayerB => &state.player_b,
    };
    let mut cards: Vec<String> = p.deck.iter().chain(p.hand.iter()).chain(p.discard.iter()).cloned().collect();
    cards.sort();
    cards
}

#[test]
fn a_full_round_neither_creates_nor_loses_cards() {
    let mut state = sample_state();
    let before_a = held(&state, PlayerId::PlayerA);
    let before_b = held(&state, PlayerId::PlayerB);
    let actions = [
        MatchAction::PlayCardFromHand { player: PlayerId::PlayerA, hand_index: 0 },
        MatchAction::PassReaction { player: PlayerId::PlayerB },
        MatchAction::PassReaction { player: PlayerId::PlayerA },
        MatchAction::PassDailyLife { player: PlayerId::PlayerB },
        MatchAction::PassDailyLife { player: PlayerId::PlayerA },
        MatchAction::PassEncounter { player: PlayerId::PlayerA },
        MatchAction::PassEncounter { player: PlayerId::PlayerB },
    ];
    for action in actions {
        MatchEngine::apply_action(&mut state, action);
        assert_eq!(held(&state, PlayerId::PlayerA), before_a);
        assert_eq!(held(&state, PlayerId::PlayerB), before_b);
    }
    assert_eq!(state.round, 2);
    assert_eq!(state.player_a.discard.len(), 1);
    assert_eq!(state.player_b.hand.len(), 8);
}

#[test]
fn reveals_stay_at_one_per_round_and_reset() {
    let mut state = sample_state();
    MatchEngine::apply_action(
        &mut state,
        MatchAction::RevealFirstHiddenSupport { player: PlayerId::PlayerA, is_magical_girl_side: true },
    );
    MatchEngine::apply_action(&mut state, MatchAction::PassReaction { player: PlayerId::PlayerB });
    MatchEngine::apply_action(&mut state, MatchAction::PassReaction { player: PlayerId::PlayerA });
    assert!(state.player_a.magical_girls.supports[1].revealed);
    MatchEngine::apply_action(
        &mut state,
        MatchAction::RevealFirstHiddenSupport { player: PlayerId::PlayerA, is_magical_girl_side: false },
    );
    assert_eq!(state.player_a.supports_revealed_this_round, 1);
    assert!(state.reaction_stack.is_empty());
    state.phase = MatchPhase::Encounter;
    MatchEngine::apply_action(&mut state, MatchAction::ResolveEncounter);
    assert_eq!(state.player_a.supports_revealed_this_round, 0);
}

#[test]
fn a_finished_match_ignores_every_action() {
    let mut state = sample_state();
    state.phase = MatchPhase::Encounter;
    state.final_climax_active = true;
    state.player_a.magical_girls.main.stage = CharacterStage::Radiant;
    MatchEngine::apply_action(&mut state, MatchAction::ResolveEncounter);
    assert_eq!(state.phase, MatchPhase::Finished);
    assert_eq!(state.winner, Some(PlayerId::PlayerA));
    let log = state.event_log.clone();
    let hand = state.player_b.hand.clone();
    let actions = [
        MatchAction::ResolveEncounter,
        MatchAction::DeclareFinalClimax,
        MatchAction::PlayCardFromHand { player: PlayerId::PlayerB, hand_index: 0 },
        MatchAction::RevealFirstHiddenSupport { player: PlayerId::PlayerB, is_magical_girl_side: true },
        MatchAction::PassDailyLife { player: PlayerId::PlayerB },
        MatchAction::PassEncounter { player: PlayerId::PlayerB },
        MatchAction::PassReaction { player: PlayerId::PlayerB },
    ];
    for action in actions {
        MatchEngine::apply_action(&mut state, action);
        assert_eq!(state.phase, MatchPhase::Finished);
        assert_eq!(state.winner, Some(PlayerId::PlayerA));
        assert_eq!(state.event_log, log);
        assert_eq!(state.player_b.hand, hand);
    }
    assert_eq!(AiController::choose_action_for(&state, PlayerId::PlayerB), None);
}

#[test]
fn the_computer_only_plays_playable_cards() {
    let state = sample_state();
    match AiController::choose_action_for(&state, PlayerId::PlayerA) {
        Some(MatchAction::PlayCardFromHand { player, hand_index }) => {
            assert_eq!(player, PlayerId::PlayerA);
            assert!(state.can_play_hand_card(player, hand_index));
        }
        other => panic!("expected a card play, got {other:?}"),
    }
}

#[test]
fn opposing_twice_returns_the_player() {
    for player in [PlayerId::PlayerA, PlayerId::PlayerB] {
        assert_eq!(opposing(opposing(player)), player);
        assert_ne!(opposing(player), player);
    }
}

#[test]
fn boosters_hold_ten_grants_from_the_pool() {
    let content = sample_content();
    let grants = open_booster(&content);
    assert_eq!(grants.len(), 10);
    for grant in &grants {
        let known = content.magical_girls.iter().any(|entry| entry.id == grant.id)
            || content.baddies.iter().any(|entry| entry.id == grant.id)
            || content.story_cards.iter().any(|entry| entry.id == grant.id);
        assert!(known);
    }
}

#[test]
fn battle_screen_texts_follow_the_match() {
    let ui_text = UiText {
        values: vec![
            ("battle_supports_label".to_owned(), "Supports".to_owned()),
            ("battle_hidden_support_short".to_owned(), "Hidden".to_owned()),
            ("battle_attacking_label".to_owned(), "Attacking".to_owned()),
            ("battle_result_player_b".to_owned(), "Player B wins".to_owned()),
        ],
    };
    let mut state = sample_state();
    assert_eq!(format_supports(&ui_text, &state.player_a.magical_girls.supports), "Supports: S1 hana | S2 Hidden");
    assert_eq!(format_supports(&ui_text, &[]), "Supports: ");
    assert_eq!(player_status(&ui_text, &state, PlayerId::PlayerA), "Attacking");
    assert_eq!(player_status(&ui_text, &state, PlayerId::PlayerB), "battle_defending_label");
    assert_eq!(winner_label(&ui_text, Some(PlayerId::PlayerB)), "Player B wins");
    assert_eq!(battle_action_hint(&ui_text, &state, PlayerId::PlayerA), "battle_hint_daily_life");
    assert_eq!(battle_action_hint(&ui_text, &state, PlayerId::PlayerB), "battle_hint_waiting");
    assert_eq!(run_status_label(&ui_text, &CampaignRunStatus::Won), "campaign_status_won");
    assert!(can_reveal_side(&state, PlayerId::PlayerA, true));
    assert!(!can_reveal_side(&state, PlayerId::PlayerB, true));
    state.player_a.supports_revealed_this_round = 1;
    assert!(!can_reveal_side(&state, PlayerId::PlayerA, true));
    state.phase = MatchPhase::Finished;
    assert_eq!(player_status(&ui_text, &state, PlayerId::PlayerA), "battle_finished_label");
}

#[test]
fn support_pair_options_name_each_pair() {
    let content = sample_content();
    let options = support_pair_name_options(&content.magical_girls, 0);
    assert_eq!(options.len(), 6);
    assert_eq!(options[0], vec!["hana".to_owned(), "riri".to_owned()]);
    assert_eq!(options[5], vec!["momo".to_owned(), "kiko".to_owned()]);
}
