use eclipse_heart::data::{
    CardAlignment, CardEffect, CardSpeed, CharacterDefinition, CharacterKindDef, GameContent,
    StoryCardDefinition,
};
use eclipse_heart::engine::{AiController, EncounterOutcome, MatchAction, MatchEngine};
use eclipse_heart::state::{CharacterStage, MatchPhase, MatchSetup, MatchState, PlayerId, ResourceKind};

fn character(id: &str, kind: CharacterKindDef, base: i32, transformed: i32, final_power: i32) -> CharacterDefinition {
    CharacterDefinition {
        id: id.to_owned(),
        name: id.to_owned(),
        kind,
        base_power: base,
        transformed_power: transformed,
        final_power,
        first_threshold: 3,
        second_threshold: 6,
    }
}

fn story(id: &str, speed: CardSpeed, alignment: CardAlignment, effect: CardEffect) -> StoryCardDefinition {
    StoryCardDefinition {
        id: id.to_owned(),
        name: id.to_owned(),
        card_type: "moment".to_owned(),
        speed,
        alignment,
        playable_in_daily_life: speed == CardSpeed::DailyLife,
        effects: vec![effect],
    }
}

fn sample_content() -> GameContent {
    let mut content = GameContent::default();
    content.magical_girls = vec![
        character("yuki", CharacterKindDef::MagicalGirl, 2, 3, 4),
        character("hana", CharacterKindDef::MagicalGirl, 1, 2, 3),
        character("riri", CharacterKindDef::MagicalGirl, 1, 2, 3),
        character("momo", CharacterKindDef::MagicalGirl, 1, 2, 3),
        character("kiko", CharacterKindDef::MagicalGirl, 1, 2, 3),
    ];
    content.baddies = vec![
        character("noctra", CharacterKindDef::Baddie, 1, 2, 3),
        character("glass_crow", CharacterKindDef::Baddie, 1, 2, 3),
        character("thorn_waltz", CharacterKindDef::Baddie, 1, 2, 3),
        character("hollow_marionette", CharacterKindDef::Baddie, 1, 2, 3),
        character("velvet_hex", CharacterKindDef::Baddie, 2, 3, 4),
    ];
    let radiance = CardEffect::GainMainRadiance { amount: 1 };
    let dread = CardEffect::GainPrimeDread { amount: 1 };
    let mg = CardAlignment::MagicalGirl;
    let bd = CardAlignment::Baddie;
    content.story_cards = vec![
        story("quiet_lunch_on_the_rooftop", CardSpeed::DailyLife, mg, radiance),
        story("false_sense_of_calm", CardSpeed::DailyLife, mg, radiance),
        story("secret_rehearsal", CardSpeed::DailyLife, mg, radiance),
        story("not_on_my_watch", CardSpeed::Reaction, mg, radiance),
        story("shared_umbrella", CardSpeed::DailyLife, mg, radiance),
        story("emergency_costume_repair", CardSpeed::Reaction, mg, radiance),
        story("crescent_counterpose", CardSpeed::Encounter, mg, radiance),
        story("moonlit_rescue_chain", CardSpeed::Encounter, mg, radiance),
        story("break_the_formation", CardSpeed::Encounter, CardAlignment::Neutral, radiance),
        story("identity_reveal", CardSpeed::Encounter, mg, CardEffect::RevealFirstHiddenOwnSupport),
        story("ominous_graffiti", CardSpeed::DailyLife, bd, dread),
        story("whisper_campaign", CardSpeed::Reaction, bd, dread),
        story("twisted_headline", CardSpeed::DailyLife, bd, dread),
        story("expose_the_accomplice", CardSpeed::Reaction, bd, dread),
        story("curtain_call_denied", CardSpeed::Reaction, bd, dread),
        story("last_minute_cover_story", CardSpeed::Reaction, bd, dread),
        story("panic_spiral", CardSpeed::Encounter, bd, dread),
        story("panic_in_the_parade_route", CardSpeed::Encounter, bd, dread),
        story("forbidden_bloom_of_calamity", CardSpeed::Encounter, bd, dread),
    ];
    content
}

fn sample_state() -> MatchState {
    let content = sample_content();
    let setup = MatchSetup::default_for_content(&content);
    MatchState::from_setup(&content, &setup)
}

#[test]
fn sums_only_revealed_non_exhausted_support_power() {
    let mut state = sample_state();
    state.player_a.magical_girls.supports[0].revealed = true;
    state.player_a.magical_girls.supports[1].revealed = true;
    state.player_a.magical_girls.supports[1].runtime.exhausted_until_next_encounter = true;
    assert_eq!(state.player_a.magical_girls.total_power(), 3);
}

#[test]
fn upgrades_to_radiant_on_threshold_cross() {
    let mut state = sample_state();
    state.player_a.magical_girls.main.stage = CharacterStage::Transformed;
    state.player_a.magical_girls.main.radiance = 5;
    state.player_a.magical_girls.main.gain(ResourceKind::Radiance, 1);
    assert_eq!(state.player_a.magical_girls.main.stage, CharacterStage::Radiant);
    assert_eq!(state.player_a.magical_girls.main.radiance, 0);
}

#[test]
fn final_climax_can_only_be_declared_with_active_radiant_main() {
    let mut state = sample_state();
    state.phase = MatchPhase::Encounter;
    assert!(!MatchEngine::can_declare_final_climax(&state));
    state.player_a.magical_girls.main.stage = CharacterStage::Radiant;
    assert!(MatchEngine::can_declare_final_climax(&state));
}

#[test]
fn player_a_final_climax_win_defeats_player_b_prime_baddie() {
    let mut state = sample_state();
    state.phase = MatchPhase::Encounter;
    state.final_climax_active = true;
    state.player_a.magical_girls.main.stage = CharacterStage::Radiant;
    state.player_a.magical_girls.main.base_power = 4;
    state.player_b.baddies.main.base_power = 1;
    let outcome = MatchEngine::resolve_encounter(&mut state);
    assert_eq!(outcome, EncounterOutcome::ActivePlayerWins);
    assert_eq!(state.defeated_prime_owner, Some(PlayerId::PlayerB));
    assert_eq!(state.winner, Some(PlayerId::PlayerA));
}

#[test]
fn declaring_final_climax_updates_phase_and_event_log() {
    let mut state = sample_state();
    state.phase = MatchPhase::Encounter;
    state.player_a.magical_girls.main.stage = CharacterStage::Radiant;

    MatchEngine::apply_action(&mut state, MatchAction::DeclareFinalClimax);

    assert_eq!(state.phase, MatchPhase::FinalClimax);
    assert!(state.final_climax_active);
    assert!(state.event_log.iter().any(|event| event.contains("declared Final Climax")));
}

#[test]
fn reaction_stack_resolves_newest_to_oldest() {
    let mut state = sample_state();
    let player_a_daily = state
        .first_playable_hand_index(PlayerId::PlayerA, CardSpeed::DailyLife)
        .expect("player a daily card");
    MatchEngine::apply_action(
        &mut state,
        MatchAction::PlayCardFromHand { player: PlayerId::PlayerA, hand_index: player_a_daily },
    );
    let player_b_reaction = state
        .first_playable_hand_index(PlayerId::PlayerB, CardSpeed::Reaction)
        .expect("player b reaction");
    MatchEngine::apply_action(
        &mut state,
        MatchAction::PlayCardFromHand { player: PlayerId::PlayerB, hand_index: player_b_reaction },
    );
    let player_a_reaction = state
        .first_playable_hand_index(PlayerId::PlayerA, CardSpeed::Reaction)
        .expect("player a reaction");
    MatchEngine::apply_action(
        &mut state,
        MatchAction::PlayCardFromHand { player: PlayerId::PlayerA, hand_index: player_a_reaction },
    );
    MatchEngine::apply_action(&mut state, MatchAction::PassReaction { player: PlayerId::PlayerB });
    MatchEngine::apply_action(&mut state, MatchAction::PassReaction { player: PlayerId::PlayerA });
    assert!(state.reaction_stack.is_empty());
    assert!(state.reaction_state.is_none());
}

#[test]
fn pass_encounter_marks_player_done_when_out_of_actions() {
    let mut state = sample_state();
    state.phase = MatchPhase::Encounter;
    state.player_b.hand.clear();
    state.player_b.magical_girls.supports.iter_mut().for_each(|support| support.revealed = true);
    state.player_b.baddies.supports.iter_mut().for_each(|support| support.revealed = true);
    state.active_player = PlayerId::PlayerB;
    state.priority_player = PlayerId::PlayerB;
    MatchEngine::apply_action(&mut state, MatchAction::PassEncounter { player: PlayerId::PlayerB });
    assert!(state.player_b.encounter_card_played);
}

#[test]
fn pass_daily_life_ignores_non_priority_player() {
    let mut state = sample_state();
    state.phase = MatchPhase::DailyLife;
    state.priority_player = PlayerId::PlayerA;

    MatchEngine::apply_action(&mut state, MatchAction::PassDailyLife { player: PlayerId::PlayerB });

    assert_eq!(state.phase, MatchPhase::DailyLife);
    assert_eq!(state.phase_passes, 0);
    assert_eq!(state.priority_player, PlayerId::PlayerA);
}

#[test]
fn round_start_draws_two_for_both_players_after_encounter() {
    let mut state = sample_state();
    state.phase = MatchPhase::Encounter;
    state.player_a.encounter_card_played = true;
    state.player_b.encounter_card_played = true;
    let player_a_hand_before = state.player_a.hand.len();
    let player_b_hand_before = state.player_b.hand.len();
    let player_a_deck_before = state.player_a.deck.len();
    let player_b_deck_before = state.player_b.deck.len();

    MatchEngine::apply_action(&mut state, MatchAction::ResolveEncounter);

    assert_eq!(state.phase, MatchPhase::DailyLife);
    assert_eq!(state.player_a.hand.len(), player_a_hand_before + 2);
    assert_eq!(state.player_b.hand.len(), player_b_hand_before + 2);
    assert_eq!(state.player_a.deck.len(), player_a_deck_before - 2);
    assert_eq!(state.player_b.deck.len(), player_b_deck_before - 2);
}

#[test]
fn player_can_only_reveal_one_support_per_round() {
    let mut state = sample_state();
    state.phase = MatchPhase::DailyLife;
    state.player_a.magical_girls.supports[0].revealed = false;
    state.player_a.magical_girls.supports[1].revealed = false;
    state.player_a.baddies.supports[1].revealed = false;

    MatchEngine::apply_action(
        &mut state,
        MatchAction::RevealFirstHiddenSupport { player: PlayerId::PlayerA, is_magical_girl_side: true },
    );

    assert_eq!(state.player_a.supports_revealed_this_round, 1);
    assert!(!state.can_reveal_support(PlayerId::PlayerA, false));
}

#[test]
fn reveal_requires_player_priority_when_not_in_reaction_window() {
    let mut state = sample_state();
    state.phase = MatchPhase::DailyLife;
    state.priority_player = PlayerId::PlayerA;
    state.player_b.magical_girls.supports[1].revealed = false;

    MatchEngine::apply_action(
        &mut state,
        MatchAction::RevealFirstHiddenSupport { player: PlayerId::PlayerB, is_magical_girl_side: true },
    );

    assert!(state.reaction_stack.is_empty());
    assert_eq!(state.player_b.supports_revealed_this_round, 0);
    assert!(!state.player_b.magical_girls.supports[1].revealed);
}

fn hide_attacking_and_defending_supports(state: &mut MatchState) {
    state.player_a.magical_girls.supports.iter_mut().for_each(|support| support.revealed = false);
    state.player_b.baddies.supports.iter_mut().for_each(|support| support.revealed = false);
}

#[test]
fn failed_final_climax_draw_grants_next_attempt_power() {
    let mut state = sample_state();
    state.phase = MatchPhase::FinalClimax;
    state.final_climax_active = true;
    state.player_a.magical_girls.main.stage = CharacterStage::Radiant;
    hide_attacking_and_defending_supports(&mut state);
    state.player_a.magical_girls.main.final_power = 3;
    state.player_b.baddies.main.base_power = 3;

    let outcome = MatchEngine::resolve_encounter(&mut state);

    assert_eq!(outcome, EncounterOutcome::Tie);
    assert_eq!(state.player_a.magical_girls.main.failed_final_climax_power_bonus, 1);
    assert_eq!(state.player_a.magical_girls.main.current_power(), 4);
}

#[test]
fn failed_final_climax_loss_grants_next_attempt_power() {
    let mut state = sample_state();
    state.phase = MatchPhase::FinalClimax;
    state.final_climax_active = true;
    state.player_a.magical_girls.main.stage = CharacterStage::Radiant;
    hide_attacking_and_defending_supports(&mut state);
    state.player_a.magical_girls.main.final_power = 2;
    state.player_b.baddies.main.base_power = 3;

    let outcome = MatchEngine::resolve_encounter(&mut state);

    assert_eq!(outcome, EncounterOutcome::DefendingPlayerWins);
    assert_eq!(state.player_a.magical_girls.main.failed_final_climax_power_bonus, 1);
    assert_eq!(state.player_a.magical_girls.main.current_power(), 0);
    assert!(state.player_a.magical_girls.main.exhausted_until_next_encounter);
}

#[test]
fn failed_final_climax_loss_does_not_exhaust_when_both_mains_are_radiant() {
    let mut state = sample_state();
    state.phase = MatchPhase::FinalClimax;
    state.final_climax_active = true;
    state.player_a.magical_girls.main.stage = CharacterStage::Radiant;
    state.player_b.magical_girls.main.stage = CharacterStage::Radiant;
    hide_attacking_and_defending_supports(&mut state);
    state.player_a.magical_girls.main.final_power = 2;
    state.player_b.baddies.main.base_power = 4;

    let outcome = MatchEngine::resolve_encounter(&mut state);

    assert_eq!(outcome, EncounterOutcome::DefendingPlayerWins);
    assert_eq!(state.player_a.magical_girls.main.failed_final_climax_power_bonus, 1);
    assert_eq!(state.player_a.magical_girls.main.current_power(), 3);
    assert!(!state.player_a.magical_girls.main.exhausted_until_next_encounter);
}

#[test]
fn failed_final_climax_power_stacks_across_attempts() {
    let mut state = sample_state();
    state.phase = MatchPhase::FinalClimax;
    state.final_climax_active = true;
    state.player_a.magical_girls.main.stage = CharacterStage::Radiant;
    state.player_b.magical_girls.main.stage = CharacterStage::Radiant;
    hide_attacking_and_defending_supports(&mut state);
    state.player_a.magical_girls.main.final_power = 2;
    state.player_b.baddies.main.base_power = 4;

    let first_outcome = MatchEngine::resolve_encounter(&mut state);
    MatchEngine::resolve_encounter(&mut state);

    assert_eq!(first_outcome, EncounterOutcome::DefendingPlayerWins);
    assert_eq!(state.player_a.magical_girls.main.failed_final_climax_power_bonus, 2);
    assert_eq!(state.player_a.magical_girls.main.current_power(), 4);
}

#[test]
fn opening_state_deals_four_then_draws_two() {
    let state = sample_state();
    assert_eq!(state.player_a.hand.len(), 6);
    assert_eq!(state.player_a.deck.len(), 4);
    assert_eq!(state.player_a.hand[0], "quiet_lunch_on_the_rooftop");
    assert_eq!(state.player_b.hand[5], "last_minute_cover_story");
    assert_eq!(state.round, 1);
    assert_eq!(state.phase, MatchPhase::DailyLife);
    assert_eq!(state.event_log, vec!["Round 1 draw: PlayerA +2, PlayerB +2.".to_owned()]);
}

#[test]
fn daily_life_ends_after_both_players_pass() {
    let mut state = sample_state();
    MatchEngine::apply_action(&mut state, MatchAction::PassDailyLife { player: PlayerId::PlayerA });
    assert_eq!(state.priority_player, PlayerId::PlayerB);
    assert_eq!(state.phase_passes, 1);
    MatchEngine::apply_action(&mut state, MatchAction::PassDailyLife { player: PlayerId::PlayerB });
    assert_eq!(state.phase, MatchPhase::Encounter);
    assert_eq!(state.priority_player, PlayerId::PlayerA);
    assert_eq!(state.phase_passes, 0);
}

#[test]
fn played_card_moves_from_hand_to_discard_and_resolves() {
    let mut state = sample_state();
    let hand_before = state.player_a.hand.len();
    MatchEngine::apply_action(&mut state, MatchAction::PlayCardFromHand { player: PlayerId::PlayerA, hand_index: 0 });
    assert_eq!(state.player_a.hand.len(), hand_before - 1);
    assert_eq!(state.player_a.discard, vec!["quiet_lunch_on_the_rooftop".to_owned()]);
    assert_eq!(state.reaction_stack.len(), 1);
    MatchEngine::apply_action(&mut state, MatchAction::PassReaction { player: PlayerId::PlayerB });
    MatchEngine::apply_action(&mut state, MatchAction::PassReaction { player: PlayerId::PlayerA });
    assert!(state.reaction_stack.is_empty());
    assert_eq!(state.player_a.magical_girls.main.radiance, 1);
    assert_eq!(state.last_played_card_name, Some("quiet_lunch_on_the_rooftop".to_owned()));
    assert_eq!(state.priority_player, PlayerId::PlayerB);
}

#[test]
fn wrong_speed_card_is_not_played() {
    let mut state = sample_state();
    let reaction = state.first_playable_hand_index(PlayerId::PlayerA, CardSpeed::Reaction).expect("reaction card");
    assert!(!state.can_play_hand_card(PlayerId::PlayerA, reaction));
    let hand_before = state.player_a.hand.clone();
    MatchEngine::apply_action(&mut state, MatchAction::PlayCardFromHand { player: PlayerId::PlayerA, hand_index: reaction });
    assert_eq!(state.player_a.hand, hand_before);
    assert!(state.reaction_stack.is_empty());
}

#[test]
fn event_log_keeps_only_the_last_eight_lines() {
    let mut state = sample_state();
    for index in 0..12 {
        state.push_event(format!("line {index}"));
    }
    assert_eq!(state.event_log.len(), 8);
    assert_eq!(state.event_log[0], "line 4");
    assert_eq!(state.event_log[7], "line 11");
}

#[test]
fn ai_plays_first_daily_card_for_priority_player() {
    let state = sample_state();
    assert_eq!(
        AiController::choose_action_for(&state, PlayerId::PlayerA),
        Some(MatchAction::PlayCardFromHand { player: PlayerId::PlayerA, hand_index: 0 })
    );
    assert_eq!(AiController::choose_action(&state), None);
}

#[test]
fn ai_declares_final_climax_with_radiant_main() {
    let mut state = sample_state();
    state.phase = MatchPhase::Encounter;
    state.player_a.magical_girls.main.stage = CharacterStage::Radiant;
    assert_eq!(AiController::choose_action_for(&state, PlayerId::PlayerA), Some(MatchAction::DeclareFinalClimax));
}

#[test]
fn ai_passes_encounter_once_its_card_is_spent() {
    let mut state = sample_state();
    state.phase = MatchPhase::Encounter;
    state.player_a.encounter_card_played = true;
    assert_eq!(
        AiController::choose_action_for(&state, PlayerId::PlayerA),
        Some(MatchAction::PassEncounter { player: PlayerId::PlayerA })
    );
}

#[test]
fn ai_reveals_a_support_when_it_holds_no_reaction() {
    let mut state = sample_state();
    MatchEngine::apply_action(&mut state, MatchAction::PlayCardFromHand { player: PlayerId::PlayerA, hand_index: 0 });
    state.player_b.hand.clear();
    assert_eq!(
        AiController::choose_action(&state),
        Some(MatchAction::RevealFirstHiddenSupport { player: PlayerId::PlayerB, is_magical_girl_side: true })
    );
}

#[test]
fn encounter_win_grants_radiance_and_dread() {
    let mut state = sample_state();
    state.phase = MatchPhase::Encounter;
    state.player_b.baddies.main.base_power = 0;
    let outcome = MatchEngine::resolve_encounter(&mut state);
    assert_eq!(outcome, EncounterOutcome::ActivePlayerWins);
    assert_eq!(state.player_a.magical_girls.main.radiance, 0);
    assert_eq!(state.player_a.magical_girls.main.stage, CharacterStage::Transformed);
    assert_eq!(state.player_b.baddies.main.dread, 1);
}

#[test]
fn setup_builds_hidden_supports_and_six_card_hands() {
    let content = sample_content();
    let setup = MatchSetup::default_for_content(&content);
    let state = MatchState::from_setup(&content, &setup);

    assert_eq!(state.player_a.magical_girls.main_character_id, "yuki");
    assert_eq!(state.player_b.baddies.main_character_id, "velvet_hex");
    assert_eq!(state.player_a.magical_girls.supports.len(), 2);
    assert!(state.player_a.magical_girls.supports[0].revealed);
    assert!(!state.player_a.magical_girls.supports[1].revealed);
    assert_eq!(state.active_player, PlayerId::PlayerA);
    assert_eq!(state.player_a.hand.len(), 6);
    assert_eq!(state.player_b.hand.len(), 6);
}

#[test]
fn end_of_round_discards_down_to_seven_then_draws_two() {
    let content = sample_content();
    let setup = MatchSetup::default_for_content(&content);
    let mut state = MatchState::from_setup(&content, &setup);

    state.player_a.hand.extend([
        "identity_reveal".to_string(),
        "break_the_formation".to_string(),
        "secret_rehearsal".to_string(),
        "crescent_counterpose".to_string(),
    ]);
    state.player_b.hand.extend([
        "ominous_graffiti".to_string(),
        "break_the_formation".to_string(),
        "panic_spiral".to_string(),
        "panic_in_the_parade_route".to_string(),
    ]);
    state.ready_end_of_round();

    assert_eq!(state.player_a.hand.len(), 9);
    assert_eq!(state.player_b.hand.len(), 9);
    assert!(!state.player_a.discard.is_empty());
    assert!(!state.player_b.discard.is_empty());
    assert_eq!(state.active_player, PlayerId::PlayerB);
    assert_eq!(state.priority_player, PlayerId::PlayerB);
    assert!(state.reaction_stack.is_empty());
}
