//! Core rules application isolated from UI.

use vstd::prelude::*;

use super::model::{
    card_effects, growth_lines, lemma_item_keeps_stack, outcome_of, resource_label, side_grant_ok, side_granted,
    support_grown, support_powered, supports_can_gain, supports_can_power, supports_growth_lines, supports_power_lines,
};
use crate::data::{CardEffect, CardSpeed};
use crate::state::events::{
    line_baddies_hold, line_daily_life_ended, line_declared_final_climax, line_exhausted,
    line_failed_final_climax_power, line_final_climax_draw, line_final_climax_lost_exhausted,
    line_final_climax_lost_no_exhaustion, line_is_revealed, line_magical_girls_win, line_passed_daily_life,
    line_passed_encounter, line_passed_priority, line_power_lost_this_encounter, line_power_next_encounter,
    line_power_this_encounter, line_prime_defeated, line_queued_card, line_queued_reveal, line_resolved,
    line_resource_change, line_revealed, line_stage_change, line_tie, logged_all, msg_resource_change,
    msg_stage_change,
};
use crate::state::match_state::{
    first_hidden, first_revealed, lemma_first_hidden, lemma_first_revealed, log_text, MatchState, MatchView,
    ReactionState, StackItem, StackItemKind,
};
use crate::state::runtime::{
    fits_i32, opponent, opposing, CharacterRuntimeState, CharacterStage, MatchPhase, PlayerId, ResourceKind,
    SideState, SideView, SupportState,
};

verus! {

/// An input to the match engine.
#[derive(Clone, Copy, Debug, PartialEq, Eq, Structural)]
pub enum MatchAction {
    ResolveEncounter,
    DeclareFinalClimax,
    PlayCardFromHand { player: PlayerId, hand_index: usize },
    RevealFirstHiddenSupport { player: PlayerId, is_magical_girl_side: bool },
    PassDailyLife { player: PlayerId },
    PassEncounter { player: PlayerId },
    PassReaction { player: PlayerId },
}

/// Who came out ahead in an encounter.
#[derive(Clone, Copy, Debug, PartialEq, Eq, Structural)]
pub enum EncounterOutcome {
    ActivePlayerWins,
    DefendingPlayerWins,
    Tie,
}

/// The rules engine: every change to a match goes through it.
pub struct MatchEngine;

fn first_hidden_index(supports: &Vec<SupportState>) -> (r: Option<usize>)
    ensures
        r matches Some(i) ==> i < supports.len() && !supports@[i as int].revealed,
        match first_hidden(supports@) {
            Some(i) => 0 <= i < supports.len() && r == Some(i as usize),
            None => r.is_none(),
        },
{
    proof { lemma_first_hidden(supports@); }
    let mut i: usize = 0;
    while i < supports.len()
        invariant
            i <= supports.len(),
            forall|j: int| 0 <= j < i ==> supports@[j].revealed,
            match first_hidden(supports@) {
                Some(k) => 0 <= k < supports.len() && !supports@[k].revealed
                    && forall|j: int| 0 <= j < k ==> supports@[j].revealed,
                None => forall|j: int| 0 <= j < supports.len() ==> supports@[j].revealed,
            },
        decreases supports.len() - i,
    {
        if !supports[i].revealed {
            return Some(i);
        }
        i += 1;
    }
    None
}

fn first_revealed_index(supports: &Vec<SupportState>) -> (r: Option<usize>)
    ensures
        r matches Some(i) ==> i < supports.len() && supports@[i as int].revealed,
        match first_revealed(supports@) {
            Some(i) => 0 <= i < supports.len() && r == Some(i as usize),
            None => r.is_none(),
        },
{
    proof { lemma_first_revealed(supports@); }
    let mut i: usize = 0;
    while i < supports.len()
        invariant
            i <= supports.len(),
            forall|j: int| 0 <= j < i ==> !supports@[j].revealed,
            match first_revealed(supports@) {
                Some(k) => 0 <= k < supports.len() && supports@[k].revealed
                    && forall|j: int| 0 <= j < k ==> !supports@[j].revealed,
                None => forall|j: int| 0 <= j < supports.len() ==> !supports@[j].revealed,
            },
        decreases supports.len() - i,
    {
        if supports[i].revealed {
            return Some(i);
        }
        i += 1;
    }
    None
}

fn resource_text(resource: ResourceKind) -> (r: &'static str)
    ensures
        r@ == resource_label(resource),
{
    match resource {
        ResourceKind::Radiance => "Radiance",
        ResourceKind::Dread => "Dread",
    }
}

fn resource_of(c: &CharacterRuntimeState, resource: ResourceKind) -> (r: i32)
    ensures
        r == c.resource_value(resource),
{
    match resource {
        ResourceKind::Radiance => c.radiance,
        ResourceKind::Dread => c.dread,
    }
}

/// The log lines for one character's growth.
fn growth_line_list(before: &CharacterRuntimeState, after: &CharacterRuntimeState, resource: ResourceKind) -> (r: Vec<String>)
    ensures
        log_text(r@) == growth_lines(*before, *after, resource),
{
    let mut lines: Vec<String> = Vec::new();
    let b = resource_of(before, resource);
    let a = resource_of(after, resource);
    if b != a {
        lines.push(line_resource_change(before.name.as_str(), resource_text(resource), b, a));
    }
    if before.stage != after.stage {
        lines.push(line_stage_change(before.name.as_str(), before.stage, after.stage));
    }
    proof {
        assert(log_text(lines@) =~= growth_lines(*before, *after, resource));
    }
    lines
}

fn copy_effects(effects: &Vec<CardEffect>) -> (r: Vec<CardEffect>)
    ensures
        r@ == effects@,
{
    let mut out: Vec<CardEffect> = Vec::new();
    let mut i: usize = 0;
    while i < effects.len()
        invariant
            i <= effects.len(),
            out@ == effects@.subrange(0, i as int),
        decreases effects.len() - i,
    {
        out.push(effects[i]);
        i += 1;
        proof {
            assert(out@ =~= effects@.subrange(0, i as int));
        }
    }
    proof {
        assert(effects@.subrange(0, effects.len() as int) =~= effects@);
    }
    out
}

/// Every revealed support grows; returns the log lines in order.
fn grow_revealed_supports(side: &mut SideState, resource: ResourceKind, amount: i32) -> (lines: Vec<String>)
    requires
        supports_can_gain(old(side)@.supports, resource, amount),
    ensures
        final(side)@ == (SideView {
            supports: old(side)@.supports.map_values(|s: SupportState| support_grown(s, resource, amount)),
            ..old(side)@
        }),
        log_text(lines@) == supports_growth_lines(old(side)@.supports, resource, amount),
{
    let mut lines: Vec<String> = Vec::new();
    let mut i: usize = 0;
    while i < side.supports.len()
        invariant
            i <= side.supports.len(),
            side.supports.len() == old(side).supports.len(),
            side.main == old(side).main,
            side.main_character_id == old(side).main_character_id,
            supports_can_gain(old(side)@.supports, resource, amount),
            forall|j: int| 0 <= j < i ==> side.supports@[j] == support_grown(old(side).supports@[j], resource, amount),
            forall|j: int| i <= j < side.supports.len() ==> side.supports@[j] == old(side).supports@[j],
            log_text(lines@) == supports_growth_lines(old(side)@.supports.subrange(0, i as int), resource, amount),
        decreases side.supports.len() - i,
    {
        let ghost prefix = old(side)@.supports.subrange(0, i + 1);
        proof {
            assert(prefix.drop_last() =~= old(side)@.supports.subrange(0, i as int));
            assert(prefix.last() == old(side)@.supports[i as int]);
        }
        if side.supports[i].revealed {
            let mut support = side.supports[i].duplicate();
            let before = support.runtime.duplicate();
            assert(old(side)@.supports[i as int].revealed);
            support.gain(resource, amount);
            let mut new_lines = growth_line_list(&before, &support.runtime, resource);
            lines.append(&mut new_lines);
            side.supports.set(i, support);
        }
        i += 1;
        proof {
            assert(log_text(lines@) =~= supports_growth_lines(old(side)@.supports.subrange(0, i as int), resource, amount));
        }
    }
    proof {
        assert(old(side)@.supports.subrange(0, old(side)@.supports.len() as int) =~= old(side)@.supports);
        assert(side@.supports =~= old(side)@.supports.map_values(|s: SupportState| support_grown(s, resource, amount)));
    }
    lines
}

/// Every revealed support gains power for this encounter; returns the log lines in order.
fn power_revealed_supports(side: &mut SideState, amount: i32) -> (lines: Vec<String>)
    requires
        supports_can_power(old(side)@.supports, amount),
    ensures
        final(side)@ == (SideView {
            supports: old(side)@.supports.map_values(|s: SupportState| support_powered(s, amount)),
            ..old(side)@
        }),
        log_text(lines@) == supports_power_lines(old(side)@.supports, amount),
{
    let mut lines: Vec<String> = Vec::new();
    let mut i: usize = 0;
    while i < side.supports.len()
        invariant
            i <= side.supports.len(),
            side.supports.len() == old(side).supports.len(),
            side.main == old(side).main,
            side.main_character_id == old(side).main_character_id,
            supports_can_power(old(side)@.supports, amount),
            forall|j: int| 0 <= j < i ==> side.supports@[j] == support_powered(old(side).supports@[j], amount),
            forall|j: int| i <= j < side.supports.len() ==> side.supports@[j] == old(side).supports@[j],
            log_text(lines@) == supports_power_lines(old(side)@.supports.subrange(0, i as int), amount),
        decreases side.supports.len() - i,
    {
        let ghost prefix = old(side)@.supports.subrange(0, i + 1);
        proof {
            assert(prefix.drop_last() =~= old(side)@.supports.subrange(0, i as int));
            assert(prefix.last() == old(side)@.supports[i as int]);
        }
        if side.supports[i].revealed {
            let mut support = side.supports[i].duplicate();
            assert(old(side)@.supports[i as int].revealed);
            support.runtime.temporary_power_bonus = support.runtime.temporary_power_bonus + amount;
            lines.push(line_power_this_encounter(support.runtime.name.as_str(), amount));
            side.supports.set(i, support);
        }
        i += 1;
        proof {
            assert(log_text(lines@) =~= supports_power_lines(old(side)@.supports.subrange(0, i as int), amount));
        }
    }
    proof {
        assert(old(side)@.supports.subrange(0, old(side)@.supports.len() as int) =~= old(side)@.supports);
        assert(side@.supports =~= old(side)@.supports.map_values(|s: SupportState| support_powered(s, amount)));
    }
    lines
}

/// The main character and every revealed support of a side grow.
fn grant_side_growth(side: &mut SideState, resource: ResourceKind, amount: i32)
    requires
        side_grant_ok(old(side)@, resource, amount),
    ensures
        final(side)@ == side_granted(old(side)@, resource, amount),
{
    side.main.gain(resource, amount);
    let _ = grow_revealed_supports(side, resource, amount);
}

impl MatchEngine {
    /// Records each line in order.
    fn push_lines(state: &mut MatchState, lines: Vec<String>)
        ensures
            final(state)@ == old(state)@.log_all(log_text(lines@)),
    {
        let mut i: usize = 0;
        proof {
            assert(log_text(lines@).subrange(0, 0) =~= Seq::<Seq<char>>::empty());
            assert(state@ =~= old(state)@.log_all(log_text(lines@).subrange(0, 0)));
        }
        while i < lines.len()
            invariant
                i <= lines.len(),
                state@ == old(state)@.log_all(log_text(lines@).subrange(0, i as int)),
            decreases lines.len() - i,
        {
            let ghost prefix = log_text(lines@).subrange(0, i + 1);
            proof {
                assert(prefix.drop_last() =~= log_text(lines@).subrange(0, i as int));
                assert(prefix.last() == lines@[i as int]@);
            }
            state.push_event(lines[i].clone());
            i += 1;
            proof {
                assert(state@ =~= old(state)@.log_all(log_text(lines@).subrange(0, i as int)));
            }
        }
        proof {
            assert(log_text(lines@).subrange(0, lines.len() as int) =~= log_text(lines@));
        }
    }

    /// Applies an action to the match; actions that the moment does not allow change nothing.
    pub fn apply_action(state: &mut MatchState, action: MatchAction)
        requires
            old(state)@.action_ok(action),
        ensures
            final(state)@ == old(state)@.after_action(action),
    {
        proof {
            reveal(MatchView::final_climax_declared);
        }
        match action {
            MatchAction::ResolveEncounter => {
                if state.reaction_state.is_none() && (state.phase == MatchPhase::Encounter || state.phase
                    == MatchPhase::FinalClimax) {
                    Self::complete_encounter(state);
                }
            },
            MatchAction::DeclareFinalClimax => {
                if Self::can_declare_final_climax(state) {
                    state.final_climax_active = true;
                    state.phase = MatchPhase::FinalClimax;
                    let line = line_declared_final_climax(state.active_player);
                    state.push_event(line);
                }
            },
            MatchAction::PlayCardFromHand { player, hand_index } => {
                Self::queue_selected_card(state, player, hand_index);
            },
            MatchAction::RevealFirstHiddenSupport { player, is_magical_girl_side } => {
                Self::queue_support_reveal(state, player, is_magical_girl_side);
            },
            MatchAction::PassDailyLife { player } => Self::pass_daily_life(state, player),
            MatchAction::PassEncounter { player } => Self::pass_encounter(state, player),
            MatchAction::PassReaction { player } => Self::pass_reaction(state, player),
        }
    }

    /// Whether the active player may declare Final Climax now.
    pub fn can_declare_final_climax(state: &MatchState) -> (r: bool)
        ensures
            r == state@.can_declare_final_climax(),
    {
        state.reaction_state.is_none() && (state.phase == MatchPhase::Encounter || state.phase
            == MatchPhase::FinalClimax) && state.priority_player == state.active_player
            && state.active_magical_girls().main.stage == CharacterStage::Radiant && !state.final_climax_active
    }

    /// Compares the active magical girls' power to the defending baddies', grants growth and
    /// settles any Final Climax.
    pub fn resolve_encounter(state: &mut MatchState) -> (r: EncounterOutcome)
        requires
            old(state)@.encounter_resolved_ok(),
        ensures
            r == old(state)@.encounter_outcome(),
            final(state)@ == old(state)@.encounter_resolved(),
    {
        proof {
            reveal(MatchView::encounter_resolved);
            reveal(MatchView::encounter_resolved_ok);
        }
        let attacker = state.active_player;
        let defender = opposing(attacker);
        let magical_girl_power = state.active_magical_girls().total_power();
        let baddie_power = state.defending_baddies().total_power();
        let outcome = Self::determine_encounter_outcome(magical_girl_power, baddie_power);
        Self::apply_encounter_growth(state, attacker, defender, outcome);
        Self::apply_final_climax_result(state, attacker, defender, magical_girl_power, baddie_power);
        outcome
    }

    fn pass_daily_life(state: &mut MatchState, player: PlayerId)
        requires
            old(state)@.daily_life_passed_ok(player),
        ensures
            final(state)@ == old(state)@.daily_life_passed(player),
    {
        proof {
            reveal(MatchView::daily_life_passed);
            reveal(MatchView::daily_life_passed_ok);
        }
        if state.reaction_state.is_none() && state.phase == MatchPhase::DailyLife && state.priority_player == player {
            state.phase_passes = state.phase_passes + 1;
            if state.phase_passes >= 2 {
                state.phase = MatchPhase::Encounter;
                state.priority_player = state.active_player;
                state.phase_passes = 0;
                state.push_event(line_daily_life_ended());
            } else {
                state.push_event(line_passed_daily_life(player));
                state.priority_player = opposing(player);
            }
        }
    }

    fn pass_encounter(state: &mut MatchState, player: PlayerId)
        requires
            old(state)@.encounter_passed_ok(player),
        ensures
            final(state)@ == old(state)@.encounter_passed(player),
    {
        proof {
            reveal(MatchView::encounter_passed);
            reveal(MatchView::encounter_passed_ok);
        }
        if state.reaction_state.is_some() || (state.phase != MatchPhase::Encounter && state.phase
            != MatchPhase::FinalClimax) || state.priority_player != player {
            return;
        }
        if !state.encounter_card_played(player) {
            state.set_encounter_card_played(player, true);
        }
        proof {
            assert(state@ =~= old(state)@.with_encounter_card_played(player));
        }
        state.phase_passes = state.phase_passes + 1;
        state.push_event(line_passed_encounter(player));
        if state.phase_passes >= 2 {
            Self::complete_encounter(state);
        } else {
            state.priority_player = opposing(player);
        }
    }

    fn queue_selected_card(state: &mut MatchState, player: PlayerId, hand_index: usize)
        ensures
            final(state)@ == old(state)@.selected_card_queued(player, hand_index as int),
    {
        proof {
            reveal(MatchView::selected_card_queued);
        }
        let speed = match state.card_in_hand(player, hand_index) {
            Some(card) => card.speed,
            None => return,
        };
        let expected_speed = match state.expected_hand_speed(player) {
            Some(s) => s,
            None => return,
        };
        if speed != expected_speed {
            return;
        }
        Self::queue_card_from_hand(state, player, hand_index, expected_speed == CardSpeed::Reaction);
    }

    fn queue_card_from_hand(state: &mut MatchState, player: PlayerId, card_index: usize, is_reaction: bool)
        ensures
            final(state)@ == old(state)@.card_queued(player, card_index as int, is_reaction),
    {
        proof {
            reveal(MatchView::card_queued);
        }
        let card_name = match state.card_in_hand(player, card_index) {
            Some(card) => card.name.clone(),
            None => return,
        };
        let card_id = state.hand_for_mut(player).remove(card_index);
        state.discard_for_mut(player).push(card_id.clone());
        let phase = state.phase;
        let line = line_queued_card(player, card_name.as_str());
        state.reaction_stack.push(
            StackItem {
                player,
                is_reaction,
                resolves_in_phase: phase,
                kind: StackItemKind::PlayCard { card_id, card_name },
            },
        );
        state.reaction_state = Some(ReactionState { priority_player: opposing(player), passes_in_row: 0 });
        state.push_event(line);
    }

    fn queue_support_reveal(state: &mut MatchState, player: PlayerId, is_magical_girl_side: bool)
        ensures
            final(state)@ == old(state)@.support_reveal_queued(player, is_magical_girl_side),
    {
        proof {
            reveal(MatchView::support_reveal_queued);
        }
        if state.phase == MatchPhase::Finished {
            return;
        }
        let is_reaction = state.reaction_priority_player() == Some(player);
        if !is_reaction && state.priority_player != player {
            return;
        }
        if !state.can_reveal_support(player, is_magical_girl_side) {
            return;
        }
        let support_index = match first_hidden_index(&state.side_for(player, is_magical_girl_side).supports) {
            Some(index) => index,
            None => return,
        };
        state.mark_support_revealed_this_round(player);
        let phase = state.phase;
        state.reaction_stack.push(
            StackItem {
                player,
                is_reaction,
                resolves_in_phase: phase,
                kind: StackItemKind::RevealSupport { is_magical_girl_side, support_index },
            },
        );
        state.reaction_state = Some(ReactionState { priority_player: opposing(player), passes_in_row: 0 });
        state.push_event(line_queued_reveal(player));
    }

    fn pass_reaction(state: &mut MatchState, player: PlayerId)
        requires
            old(state)@.reaction_passed_ok(player),
        ensures
            final(state)@ == old(state)@.reaction_passed(player),
    {
        proof {
            reveal(MatchView::reaction_passed);
            reveal(MatchView::reaction_passed_ok);
        }
        let reaction = match state.reaction_state {
            Some(rs) => rs,
            None => return,
        };
        if reaction.priority_player != player {
            return;
        }
        let passes_in_row = reaction.passes_in_row + 1;
        state.reaction_state = Some(ReactionState { priority_player: reaction.priority_player, passes_in_row });
        state.push_event(line_passed_priority(player));
        if passes_in_row >= 2 {
            Self::resolve_stack(state);
        } else {
            state.reaction_state = Some(ReactionState { priority_player: opposing(player), passes_in_row });
        }
    }

    fn resolve_stack(state: &mut MatchState)
        requires
            old(state)@.stack_closed_ok(),
        ensures
            final(state)@ == old(state)@.stack_closed(),
    {
        proof {
            reveal(MatchView::stack_closed);
            reveal(MatchView::stack_closed_ok);
        }
        if state.reaction_stack.len() == 0 {
            state.reaction_state = None;
            return;
        }
        let root_item = state.reaction_stack[0].duplicate();
        state.reaction_state = None;
        proof {
            assert(state@ =~= MatchView { reaction_state: None, ..old(state)@ });
        }
        let ghost target = state@.stack_resolved();
        while state.reaction_stack.len() > 0
            invariant
                state@.stack_resolved() == target,
                state@.stack_ok(),
            decreases state.reaction_stack.len(),
        {
            let ghost before = state@;
            let item = match state.reaction_stack.pop() {
                Some(item) => item,
                None => return,
            };
            proof {
                reveal(MatchView::stack_resolved);
                reveal(MatchView::stack_ok);
                assert(state@ =~= before.popped());
                lemma_item_keeps_stack(before.popped(), item);
            }
            Self::resolve_stack_item(state, item);
        }
        proof {
            reveal(MatchView::stack_resolved);
            assert(state@ == target);
        }
        Self::finalize_root_stack_item(state, &root_item);
    }

    fn determine_encounter_outcome(magical_girl_power: i32, baddie_power: i32) -> (r: EncounterOutcome)
        ensures
            r == outcome_of(magical_girl_power as int, baddie_power as int),
    {
        if magical_girl_power > baddie_power {
            EncounterOutcome::ActivePlayerWins
        } else if baddie_power > magical_girl_power {
            EncounterOutcome::DefendingPlayerWins
        } else {
            EncounterOutcome::Tie
        }
    }

    fn grant_side(state: &mut MatchState, player: PlayerId, is_magical_girl_side: bool, resource: ResourceKind, amount: i32)
        requires
            side_grant_ok(old(state)@.side(player, is_magical_girl_side), resource, amount),
        ensures
            final(state)@ == old(state)@.side_grown(player, is_magical_girl_side, resource, amount),
    {
        Self::grant_growth(state.side_for_mut(player, is_magical_girl_side), resource, amount);
    }

    fn apply_decided_growth(state: &mut MatchState, attacker: PlayerId, defender: PlayerId, magical_girl_gain: i32, baddie_gain: i32)
        requires
            old(state)@.decided_growth_ok(attacker, defender, magical_girl_gain, baddie_gain),
        ensures
            final(state)@ == old(state)@.decided_growth(attacker, defender, magical_girl_gain, baddie_gain),
    {
        proof {
            reveal(MatchView::decided_growth);
            reveal(MatchView::decided_growth_ok);
        }
        Self::grant_side(state, attacker, true, ResourceKind::Radiance, magical_girl_gain);
        Self::grant_side(state, defender, false, ResourceKind::Dread, baddie_gain);
    }

    fn apply_tie_growth(state: &mut MatchState, attacker: PlayerId, defender: PlayerId)
        requires
            old(state)@.tie_growth_ok(attacker, defender),
        ensures
            final(state)@ == old(state)@.tie_growth(attacker, defender),
    {
        proof {
            reveal(MatchView::tie_growth);
            reveal(MatchView::tie_growth_ok);
        }
        let tie_gain = state.rules.encounter_tie_gain;
        if state.active_magical_girls().main.stage != CharacterStage::Radiant {
            Self::grant_side(state, attacker, true, ResourceKind::Radiance, tie_gain);
        }
        if state.defending_baddies().main.stage != CharacterStage::Catastrophe {
            Self::grant_side(state, defender, false, ResourceKind::Dread, tie_gain);
        }
    }

    fn apply_encounter_growth(state: &mut MatchState, attacker: PlayerId, defender: PlayerId, outcome: EncounterOutcome)
        requires
            old(state)@.encounter_growth_ok(attacker, defender, outcome),
        ensures
            final(state)@ == old(state)@.encounter_growth(attacker, defender, outcome),
    {
        proof {
            reveal(MatchView::encounter_growth);
            reveal(MatchView::encounter_growth_ok);
        }
        let win_gain = state.rules.encounter_win_gain;
        let loss_gain = state.rules.encounter_loss_gain;
        match outcome {
            EncounterOutcome::ActivePlayerWins => {
                Self::apply_decided_growth(state, attacker, defender, win_gain, loss_gain);
                state.push_event(line_magical_girls_win(attacker, defender));
            },
            EncounterOutcome::DefendingPlayerWins => {
                Self::apply_decided_growth(state, attacker, defender, loss_gain, win_gain);
                state.push_event(line_baddies_hold(defender, attacker));
            },
            EncounterOutcome::Tie => {
                Self::apply_tie_growth(state, attacker, defender);
                state.push_event(line_tie());
            },
        }
    }

    fn apply_final_climax_result(
        state: &mut MatchState,
        attacker: PlayerId,
        defender: PlayerId,
        magical_girl_power: i32,
        baddie_power: i32,
    )
        requires
            old(state)@.final_climax_result_ok(attacker, magical_girl_power as int, baddie_power as int),
        ensures
            final(state)@ == old(state)@.final_climax_result(attacker, defender, magical_girl_power as int, baddie_power as int),
    {
        proof {
            reveal(MatchView::final_climax_result);
            reveal(MatchView::final_climax_result_ok);
        }
        if !state.final_climax_active {
            return;
        }
        if magical_girl_power > baddie_power {
            Self::finish_final_climax_victory(state, attacker, defender);
            return;
        }
        Self::grant_failed_final_climax_power(state, attacker);
        if magical_girl_power < baddie_power {
            Self::apply_failed_final_climax_loss(state, attacker, defender);
        } else {
            state.push_event(line_final_climax_draw(attacker));
        }
    }

    fn resolve_stack_item(state: &mut MatchState, item: StackItem)
        requires
            old(state)@.item_ok(item),
        ensures
            final(state)@ == old(state)@.item_resolved(item),
    {
        proof {
            reveal(MatchView::item_resolved);
            reveal(MatchView::item_ok);
        }
        let player = item.player;
        match item.kind {
            StackItemKind::PlayCard { card_id, card_name } => {
                let effects = match state.lookup_card(card_id.as_str()) {
                    Some(card) => copy_effects(&card.effects),
                    None => Vec::new(),
                };
                let ghost target = state@.effects_applied(player, card_effects(state@.story_cards, card_id@));
                proof {
                    reveal(MatchView::effects_applied);
                    reveal(MatchView::effects_ok);
                }
                let mut i: usize = 0;
                proof {
                    assert(effects@.subrange(0, effects.len() as int) =~= effects@);
                }
                while i < effects.len()
                    invariant
                        i <= effects.len(),
                        state@.effects_applied(player, effects@.subrange(i as int, effects.len() as int)) == target,
                        state@.effects_ok(player, effects@.subrange(i as int, effects.len() as int)),
                    decreases effects.len() - i,
                {
                    let ghost rest = effects@.subrange(i as int, effects.len() as int);
                    proof {
                        reveal(MatchView::effects_applied);
                        reveal(MatchView::effects_ok);
                        assert(rest.drop_first() =~= effects@.subrange(i + 1, effects.len() as int));
                        assert(rest[0] == effects@[i as int]);
                    }
                    Self::apply_card_effect(state, player, effects[i]);
                    i += 1;
                }
                proof {
                    reveal(MatchView::effects_applied);
                    assert(effects@.subrange(effects.len() as int, effects.len() as int) =~= Seq::<CardEffect>::empty());
                }
                let line = line_resolved(player, card_name.as_str());
                state.last_played_card_name = Some(card_name);
                state.push_event(line);
            },
            StackItemKind::RevealSupport { is_magical_girl_side, support_index } => {
                let revealed_name = {
                    let side = state.side_for_mut(player, is_magical_girl_side);
                    if support_index < side.supports.len() && !side.supports[support_index].revealed {
                        let mut support = side.supports[support_index].duplicate();
                        support.revealed = true;
                        let name = support.runtime.name.clone();
                        side.supports.set(support_index, support);
                        Some(name)
                    } else {
                        None
                    }
                };
                match revealed_name {
                    Some(name) => state.push_event(line_revealed(player, name.as_str())),
                    None => {},
                }
            },
        }
    }

    fn finalize_root_stack_item(state: &mut MatchState, root_item: &StackItem)
        ensures
            final(state)@ == old(state)@.root_finalized(*root_item),
    {
        if root_item.is_reaction {
            return;
        }
        match root_item.resolves_in_phase {
            MatchPhase::DailyLife => {
                state.phase_passes = 0;
                state.priority_player = opposing(root_item.player);
            },
            MatchPhase::Encounter | MatchPhase::FinalClimax => {
                state.set_encounter_card_played(root_item.player, true);
                state.phase_passes = 0;
                state.priority_player = opposing(root_item.player);
            },
            MatchPhase::Finished => {},
        }
    }

    fn finish_final_climax_victory(state: &mut MatchState, attacker: PlayerId, defender: PlayerId)
        ensures
            final(state)@ == old(state)@.final_climax_won(attacker, defender),
    {
        state.phase = MatchPhase::Finished;
        state.prime_baddie_defeated = true;
        state.defeated_prime_owner = Some(defender);
        state.winner = Some(attacker);
        state.push_event(line_prime_defeated(defender));
    }

    fn apply_failed_final_climax_loss(state: &mut MatchState, attacker: PlayerId, defender: PlayerId)
        ensures
            final(state)@ == old(state)@.final_climax_lost(attacker, defender),
    {
        if state.player_for(defender).magical_girls.main.stage != CharacterStage::Radiant {
            {
                let side = state.active_magical_girls_mut();
                side.main.exhausted_until_next_encounter = true;
                side.main.abilities_blocked_until_next_encounter = true;
            }
            state.push_event(line_final_climax_lost_exhausted(attacker));
        } else {
            state.push_event(line_final_climax_lost_no_exhaustion(attacker));
        }
    }

    fn apply_card_effect(state: &mut MatchState, player: PlayerId, effect: CardEffect)
        requires
            old(state)@.effect_ok(player, effect),
        ensures
            final(state)@ == old(state)@.effect_applied(player, effect),
    {
        proof {
            reveal(MatchView::effect_applied);
            reveal(MatchView::effect_ok);
        }
        match effect {
            CardEffect::GainMainRadiance { amount } => {
                Self::apply_main_growth(state, player, true, ResourceKind::Radiance, amount);
            },
            CardEffect::GainRevealedSupportRadiance { amount } => {
                Self::apply_to_revealed_supports(state, player, true, ResourceKind::Radiance, amount);
            },
            CardEffect::ReduceOpponentMainRadiance { amount } => {
                Self::apply_main_growth(state, opposing(player), true, ResourceKind::Radiance, -amount);
            },
            CardEffect::GainPrimeDread { amount } => {
                Self::apply_main_growth(state, player, false, ResourceKind::Dread, amount);
            },
            CardEffect::GainRevealedSupportDread { amount } => {
                Self::apply_to_revealed_supports(state, player, false, ResourceKind::Dread, amount);
            },
            CardEffect::ReduceOpponentPrimeDread { amount } => {
                Self::apply_main_growth(state, opposing(player), false, ResourceKind::Dread, -amount);
            },
            CardEffect::GainMainPowerThisEncounter { amount } => Self::apply_main_power_this_encounter(state, player, amount),
            CardEffect::GainMainPowerNextEncounter { amount } => Self::apply_main_power_next_encounter(state, player, amount),
            CardEffect::ReduceOpponentMainPowerThisEncounter { amount } => Self::apply_opponent_power_loss(state, player, amount),
            CardEffect::GainPrimePowerThisEncounter { amount } => Self::apply_prime_power_this_encounter(state, player, amount),
            CardEffect::GainRevealedSupportPowerThisEncounter { amount } => Self::apply_revealed_supports_power(state, player, amount),
            CardEffect::GainFirstRevealedSupportRadiance { amount } => Self::apply_first_revealed_support_radiance(state, player, amount),
            CardEffect::ExhaustFirstRevealedOpponentSupport => Self::apply_exhaust_first_revealed_opponent_support(state, player),
            CardEffect::RevealFirstHiddenOwnSupport => Self::apply_reveal_first_hidden_own_support(state, player),
        }
    }

    fn apply_main_power_this_encounter(state: &mut MatchState, player: PlayerId, amount: i32)
        requires
            fits_i32(old(state)@.side(player, true).main.temporary_power_bonus + amount),
        ensures
            final(state)@ == old(state)@.main_power_this_encounter(player, amount),
    {
        proof { reveal(MatchView::main_power_this_encounter); }
        let line = {
            let side = state.side_for_mut(player, true);
            side.main.temporary_power_bonus = side.main.temporary_power_bonus + amount;
            line_power_this_encounter(side.main.name.as_str(), amount)
        };
        state.push_event(line);
    }

    fn apply_main_power_next_encounter(state: &mut MatchState, player: PlayerId, amount: i32)
        requires
            fits_i32(old(state)@.side(player, true).main.next_encounter_power_bonus + amount),
        ensures
            final(state)@ == old(state)@.main_power_next_encounter(player, amount),
    {
        proof { reveal(MatchView::main_power_next_encounter); }
        let line = {
            let side = state.side_for_mut(player, true);
            side.main.next_encounter_power_bonus = side.main.next_encounter_power_bonus + amount;
            line_power_next_encounter(side.main.name.as_str(), amount)
        };
        state.push_event(line);
    }

    fn apply_opponent_power_loss(state: &mut MatchState, player: PlayerId, amount: i32)
        requires
            fits_i32(old(state)@.side(opponent(player), true).main.temporary_power_bonus - amount),
        ensures
            final(state)@ == old(state)@.opponent_power_loss(player, amount),
    {
        proof { reveal(MatchView::opponent_power_loss); }
        let target = opposing(player);
        let line = {
            let side = state.side_for_mut(target, true);
            side.main.temporary_power_bonus = side.main.temporary_power_bonus - amount;
            line_power_lost_this_encounter(side.main.name.as_str(), amount)
        };
        state.push_event(line);
    }

    fn apply_prime_power_this_encounter(state: &mut MatchState, player: PlayerId, amount: i32)
        requires
            fits_i32(old(state)@.side(player, false).main.temporary_power_bonus + amount),
        ensures
            final(state)@ == old(state)@.prime_power_this_encounter(player, amount),
    {
        proof { reveal(MatchView::prime_power_this_encounter); }
        let line = {
            let side = state.side_for_mut(player, false);
            side.main.temporary_power_bonus = side.main.temporary_power_bonus + amount;
            line_power_this_encounter(side.main.name.as_str(), amount)
        };
        state.push_event(line);
    }

    fn apply_revealed_supports_power(state: &mut MatchState, player: PlayerId, amount: i32)
        requires
            supports_can_power(old(state)@.side(player, true).supports, amount),
        ensures
            final(state)@ == old(state)@.revealed_supports_power(player, amount),
    {
        proof { reveal(MatchView::revealed_supports_power); }
        let lines = power_revealed_supports(state.side_for_mut(player, true), amount);
        Self::push_lines(state, lines);
    }

    fn apply_first_revealed_support_radiance(state: &mut MatchState, player: PlayerId, amount: i32)
        requires
            match first_revealed(old(state)@.side(player, true).supports) {
                Some(i) => old(state)@.side(player, true).supports[i].runtime.can_gain(ResourceKind::Radiance, amount),
                None => true,
            },
        ensures
            final(state)@ == old(state)@.first_revealed_support_radiance(player, amount),
    {
        proof { reveal(MatchView::first_revealed_support_radiance); }
        let lines = {
            let side = state.side_for_mut(player, true);
            match first_revealed_index(&side.supports) {
                Some(index) => {
                    let mut support = side.supports[index].duplicate();
                    let before = support.runtime.duplicate();
                    support.gain(ResourceKind::Radiance, amount);
                    let lines = growth_line_list(&before, &support.runtime, ResourceKind::Radiance);
                    side.supports.set(index, support);
                    lines
                },
                None => Vec::new(),
            }
        };
        proof {
            assert(first_revealed(old(state)@.side(player, true).supports) is None ==> log_text(lines@) =~= Seq::<Seq<char>>::empty());
        }
        Self::push_lines(state, lines);
    }

    fn apply_exhaust_first_revealed_opponent_support(state: &mut MatchState, player: PlayerId)
        ensures
            final(state)@ == old(state)@.exhaust_first_revealed_opponent_support(player),
    {
        proof { reveal(MatchView::exhaust_first_revealed_opponent_support); }
        let target = opposing(player);
        let exhausted_name = {
            let side = state.side_for_mut(target, true);
            match first_revealed_index(&side.supports) {
                Some(index) => {
                    let mut support = side.supports[index].duplicate();
                    support.runtime.exhausted_until_next_encounter = true;
                    support.runtime.abilities_blocked_until_next_encounter = true;
                    let name = support.runtime.name.clone();
                    side.supports.set(index, support);
                    Some(name)
                },
                None => None,
            }
        };
        match exhausted_name {
            Some(name) => state.push_event(line_exhausted(name.as_str())),
            None => {},
        }
    }

    fn apply_reveal_first_hidden_own_support(state: &mut MatchState, player: PlayerId)
        ensures
            final(state)@ == old(state)@.reveal_first_hidden_own_support(player),
    {
        proof { reveal(MatchView::reveal_first_hidden_own_support); }
        if state.player_for(player).supports_revealed_this_round > 0 {
            return;
        }
        let revealed_name = {
            let side = state.side_for_mut(player, true);
            match first_hidden_index(&side.supports) {
                Some(index) => {
                    let mut support = side.supports[index].duplicate();
                    support.revealed = true;
                    let name = support.runtime.name.clone();
                    side.supports.set(index, support);
                    Some(name)
                },
                None => None,
            }
        };
        match revealed_name {
            Some(name) => {
                state.mark_support_revealed_this_round(player);
                state.push_event(line_is_revealed(name.as_str()));
            },
            None => {},
        }
    }

    fn apply_main_growth(
        state: &mut MatchState,
        player: PlayerId,
        is_magical_girl_side: bool,
        resource: ResourceKind,
        amount: i32,
    )
        requires
            old(state)@.main_growth_ok(player, is_magical_girl_side, resource, amount),
        ensures
            final(state)@ == old(state)@.main_growth(player, is_magical_girl_side, resource, amount),
    {
        proof {
            reveal(MatchView::main_growth);
        }
        let lines = {
            let side = state.side_for_mut(player, is_magical_girl_side);
            let before = side.main.duplicate();
            side.main.gain(resource, amount);
            growth_line_list(&before, &side.main, resource)
        };
        Self::push_lines(state, lines);
    }

    fn apply_to_revealed_supports(
        state: &mut MatchState,
        player: PlayerId,
        is_magical_girl_side: bool,
        resource: ResourceKind,
        amount: i32,
    )
        requires
            supports_can_gain(old(state)@.side(player, is_magical_girl_side).supports, resource, amount),
        ensures
            final(state)@ == old(state)@.revealed_supports_growth(player, is_magical_girl_side, resource, amount),
    {
        proof {
            reveal(MatchView::revealed_supports_growth);
        }
        let lines = grow_revealed_supports(state.side_for_mut(player, is_magical_girl_side), resource, amount);
        Self::push_lines(state, lines);
    }

    fn log_resource_change(state: &mut MatchState, name: &str, label: &str, before: i32, after: i32)
        ensures
            before != after ==> final(state)@ == old(state)@.log(msg_resource_change(name@, label@, before as int, after as int)),
            before == after ==> final(state)@ == old(state)@,
    {
        if before != after {
            state.push_event(line_resource_change(name, label, before, after));
        }
    }

    fn log_stage_change(state: &mut MatchState, name: &str, before: CharacterStage, after: CharacterStage)
        ensures
            before != after ==> final(state)@ == old(state)@.log(msg_stage_change(name@, before, after)),
            before == after ==> final(state)@ == old(state)@,
    {
        if before != after {
            state.push_event(line_stage_change(name, before, after));
        }
    }

    /// The main character and every revealed support of a side grow.
    fn grant_growth(side: &mut SideState, resource: ResourceKind, amount: i32)
        requires
            side_grant_ok(old(side)@, resource, amount),
        ensures
            final(side)@ == side_granted(old(side)@, resource, amount),
    {
        grant_side_growth(side, resource, amount);
    }

    fn grant_failed_final_climax_power(state: &mut MatchState, player: PlayerId)
        requires
            fits_i32(old(state)@.side(player, true).main.failed_final_climax_power_bonus + 1),
        ensures
            final(state)@ == old(state)@.failed_final_climax_powered(player),
    {
        let line = {
            let side = state.side_for_mut(player, true);
            side.main.failed_final_climax_power_bonus = side.main.failed_final_climax_power_bonus + 1;
            line_failed_final_climax_power(side.main.name.as_str())
        };
        state.push_event(line);
    }

    fn complete_encounter(state: &mut MatchState)
        requires
            old(state)@.encounter_completed_ok(),
        ensures
            final(state)@ == old(state)@.encounter_completed(),
    {
        proof {
            reveal(MatchView::encounter_completed);
            reveal(MatchView::encounter_completed_ok);
        }
        let outcome = Self::resolve_encounter(state);
        state.last_outcome = Some(outcome);
        state.round = state.round + 1;
        if state.phase != MatchPhase::Finished {
            state.phase = if state.final_climax_active {
                MatchPhase::FinalClimax
            } else {
                MatchPhase::DailyLife
            };
        }
        state.clear_encounter_bonuses();
        state.ready_end_of_round();
    }
}

} // verus!
