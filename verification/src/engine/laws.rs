//! What every action of the engine keeps.

use vstd::multiset::Multiset;
use vstd::prelude::*;

use super::match_engine::MatchAction;
use super::model::{card_effects, lemma_item_keeps_stack};
use crate::data::CardEffect;
use crate::state::match_state::{MatchView, PlayerView, StackItem, StackItemKind};
use crate::state::runtime::{MatchPhase, PlayerId};

verus! {

/// Neither player has queued or made more than one support reveal this round.
pub open spec fn reveals_within_limit(v: MatchView) -> bool {
    v.player_a.supports_revealed_this_round <= 1 && v.player_b.supports_revealed_this_round <= 1
}

/// A finished match with no reaction window open stays exactly as it is, whatever action
/// comes.
pub proof fn lemma_finished_match_is_final(v: MatchView, action: MatchAction)
    requires
        v.phase == MatchPhase::Finished,
        v.reaction_state is None,
    ensures
        v.after_action(action) == v,
{
    reveal(MatchView::daily_life_passed);
    reveal(MatchView::encounter_passed);
    reveal(MatchView::final_climax_declared);
    reveal(MatchView::support_reveal_queued);
    reveal(MatchView::reaction_passed);
    reveal(MatchView::selected_card_queued);
    match action {
        MatchAction::PlayCardFromHand { player, hand_index } => {
            assert(v.expected_hand_speed(player) is None);
        },
        MatchAction::PassEncounter { player } => {
            assert(!v.encounter_pass_allowed(player));
        },
        MatchAction::DeclareFinalClimax => {
            assert(!v.can_declare_final_climax());
        },
        _ => {},
    }
}

proof fn lemma_effect_keeps_limit(v: MatchView, player: PlayerId, effect: CardEffect)
    requires
        reveals_within_limit(v),
    ensures
        reveals_within_limit(v.effect_applied(player, effect)),
{
    reveal(MatchView::effect_applied);
    reveal(MatchView::main_growth);
    reveal(MatchView::revealed_supports_growth);
    reveal(MatchView::first_revealed_support_radiance);
    reveal(MatchView::exhaust_first_revealed_opponent_support);
    reveal(MatchView::reveal_first_hidden_own_support);
    reveal(MatchView::revealed_supports_power);
    reveal(MatchView::main_power_this_encounter);
    reveal(MatchView::main_power_next_encounter);
    reveal(MatchView::opponent_power_loss);
    reveal(MatchView::prime_power_this_encounter);
}

proof fn lemma_effects_keep_limit(v: MatchView, player: PlayerId, effects: Seq<CardEffect>)
    requires
        reveals_within_limit(v),
    ensures
        reveals_within_limit(v.effects_applied(player, effects)),
    decreases effects.len(),
{
    reveal(MatchView::effects_applied);
    if effects.len() > 0 {
        lemma_effect_keeps_limit(v, player, effects[0]);
        lemma_effects_keep_limit(v.effect_applied(player, effects[0]), player, effects.drop_first());
    }
}

proof fn lemma_item_keeps_limit(v: MatchView, item: StackItem)
    requires
        reveals_within_limit(v),
    ensures
        reveals_within_limit(v.item_resolved(item)),
{
    reveal(MatchView::item_resolved);
    match item.kind {
        StackItemKind::PlayCard { card_id, card_name } => {
            lemma_effects_keep_limit(v, item.player, card_effects(v.story_cards, card_id@));
        },
        _ => {},
    }
}

proof fn lemma_stack_keeps_limit(v: MatchView)
    requires
        reveals_within_limit(v),
    ensures
        reveals_within_limit(v.stack_resolved()),
    decreases v.reaction_stack.len(),
{
    reveal(MatchView::stack_resolved);
    if v.reaction_stack.len() > 0 {
        let next = v.popped().item_resolved(v.reaction_stack.last());
        lemma_item_keeps_limit(v.popped(), v.reaction_stack.last());
        lemma_item_keeps_stack(v.popped(), v.reaction_stack.last());
        lemma_stack_keeps_limit(next);
    }
}

proof fn lemma_stack_closed_keeps_limit(v: MatchView)
    requires
        reveals_within_limit(v),
    ensures
        reveals_within_limit(v.stack_closed()),
{
    reveal(MatchView::stack_closed);
    let cleared = MatchView { reaction_state: None, ..v };
    if v.reaction_stack.len() > 0 {
        lemma_stack_keeps_limit(cleared);
    }
}

proof fn lemma_completed_encounter_resets_reveals(v: MatchView)
    ensures
        v.encounter_completed().player_a.supports_revealed_this_round == 0,
        v.encounter_completed().player_b.supports_revealed_this_round == 0,
{
    reveal(MatchView::encounter_completed);
}

/// Every action keeps each player at one support reveal per round at most: a reveal is only
/// queued when the player has made none this round, and the end of a round starts the count
/// again.
pub proof fn lemma_one_reveal_per_round(v: MatchView, action: MatchAction)
    requires
        reveals_within_limit(v),
    ensures
        reveals_within_limit(v.after_action(action)),
{
    reveal(MatchView::daily_life_passed);
    reveal(MatchView::encounter_passed);
    reveal(MatchView::final_climax_declared);
    reveal(MatchView::support_reveal_queued);
    reveal(MatchView::reaction_passed);
    reveal(MatchView::selected_card_queued);
    reveal(MatchView::card_queued);
    lemma_completed_encounter_resets_reveals(v);
    match action {
        MatchAction::PassEncounter { player } => {
            lemma_completed_encounter_resets_reveals(v.encounter_pass_counted(player));
        },
        MatchAction::PassReaction { player } => {
            match v.reaction_state {
                Some(rs) => {
                    let passes = (rs.passes_in_row + 1) as u8;
                    let counted = MatchView {
                        reaction_state: Some(crate::state::match_state::ReactionState { passes_in_row: passes, ..rs }),
                        ..v
                    }.log(crate::state::events::msg_passed_priority(player));
                    lemma_stack_closed_keeps_limit(counted);
                },
                None => {},
            }
        },
        _ => {},
    }
}


/// The cards a player holds anywhere: deck, hand and discard pile together.
pub open spec fn held_cards(p: PlayerView) -> Multiset<String> {
    p.deck.to_multiset().add(p.hand.to_multiset()).add(p.discard.to_multiset())
}

/// Both players' decks, hands and discard piles are the same in the two matches.
pub open spec fn card_lists_kept(a: MatchView, b: MatchView) -> bool {
    &&& a.player_a.deck == b.player_a.deck
    &&& a.player_a.hand == b.player_a.hand
    &&& a.player_a.discard == b.player_a.discard
    &&& a.player_b.deck == b.player_b.deck
    &&& a.player_b.hand == b.player_b.hand
    &&& a.player_b.discard == b.player_b.discard
}

proof fn lemma_effect_keeps_card_lists(v: MatchView, player: PlayerId, effect: CardEffect)
    ensures
        card_lists_kept(v, v.effect_applied(player, effect)),
{
    reveal(MatchView::effect_applied);
    reveal(MatchView::main_growth);
    reveal(MatchView::revealed_supports_growth);
    reveal(MatchView::first_revealed_support_radiance);
    reveal(MatchView::exhaust_first_revealed_opponent_support);
    reveal(MatchView::reveal_first_hidden_own_support);
    reveal(MatchView::revealed_supports_power);
    reveal(MatchView::main_power_this_encounter);
    reveal(MatchView::main_power_next_encounter);
    reveal(MatchView::opponent_power_loss);
    reveal(MatchView::prime_power_this_encounter);
}

proof fn lemma_effects_keep_card_lists(v: MatchView, player: PlayerId, effects: Seq<CardEffect>)
    ensures
        card_lists_kept(v, v.effects_applied(player, effects)),
    decreases effects.len(),
{
    reveal(MatchView::effects_applied);
    if effects.len() > 0 {
        lemma_effect_keeps_card_lists(v, player, effects[0]);
        lemma_effects_keep_card_lists(v.effect_applied(player, effects[0]), player, effects.drop_first());
    }
}

proof fn lemma_item_keeps_card_lists(v: MatchView, item: StackItem)
    ensures
        card_lists_kept(v, v.item_resolved(item)),
{
    reveal(MatchView::item_resolved);
    match item.kind {
        StackItemKind::PlayCard { card_id, card_name } => {
            lemma_effects_keep_card_lists(v, item.player, card_effects(v.story_cards, card_id@));
        },
        _ => {},
    }
}

proof fn lemma_stack_keeps_card_lists(v: MatchView)
    ensures
        card_lists_kept(v, v.stack_resolved()),
    decreases v.reaction_stack.len(),
{
    reveal(MatchView::stack_resolved);
    if v.reaction_stack.len() > 0 {
        let next = v.popped().item_resolved(v.reaction_stack.last());
        lemma_item_keeps_card_lists(v.popped(), v.reaction_stack.last());
        lemma_item_keeps_stack(v.popped(), v.reaction_stack.last());
        lemma_stack_keeps_card_lists(next);
    }
}

proof fn lemma_stack_closed_keeps_card_lists(v: MatchView)
    ensures
        card_lists_kept(v, v.stack_closed()),
{
    reveal(MatchView::stack_closed);
    let cleared = MatchView { reaction_state: None, ..v };
    if v.reaction_stack.len() > 0 {
        lemma_stack_keeps_card_lists(cleared);
    }
}

proof fn lemma_resolution_keeps_card_lists(v: MatchView)
    ensures
        card_lists_kept(v, v.encounter_resolved()),
{
    reveal(MatchView::encounter_resolved);
    reveal(MatchView::encounter_growth);
    reveal(MatchView::decided_growth);
    reveal(MatchView::tie_growth);
    reveal(MatchView::final_climax_result);
}

/// Splitting a list in two keeps its cards.
proof fn lemma_split_keeps_cards(s: Seq<String>, k: int)
    requires
        0 <= k <= s.len(),
    ensures
        s.subrange(0, k).to_multiset().add(s.subrange(k, s.len() as int).to_multiset()) == s.to_multiset(),
{
    vstd::seq_lib::lemma_multiset_commutative(s.subrange(0, k), s.subrange(k, s.len() as int));
    assert(s.subrange(0, k) + s.subrange(k, s.len() as int) =~= s);
}

/// Cutting a hand down moves cards from the hand to the discard pile.
proof fn lemma_discard_keeps_held(v: MatchView, player: PlayerId, max: nat)
    ensures
        held_cards(v.player_discarded_down(player, max).player(player)) =~= held_cards(v.player(player)),
        v.player_discarded_down(player, max).player(opponent_of(player)) == v.player(opponent_of(player)),
{
    broadcast use vstd::multiset::group_multiset_axioms;

    let p = v.player(player);
    let n = crate::state::round_flow::overflow_count(p.hand.len(), max);
    if n > 0 {
        lemma_split_keeps_cards(p.hand, n as int);
        vstd::seq_lib::lemma_multiset_commutative(p.discard, p.hand.subrange(0, n as int));
    }
}

/// Drawing moves cards from the top of the deck to the hand.
proof fn lemma_draw_keeps_held(v: MatchView, player: PlayerId, count: nat)
    ensures
        held_cards(v.drawn(player, count).player(player)) =~= held_cards(v.player(player)),
        v.drawn(player, count).player(opponent_of(player)) == v.player(opponent_of(player)),
{
    broadcast use vstd::multiset::group_multiset_axioms;

    let p = v.player(player);
    let n = v.draw_count(player, count);
    lemma_split_keeps_cards(p.deck, n as int);
    vstd::seq_lib::lemma_multiset_commutative(p.hand, p.deck.subrange(0, n as int));
}

/// The other player.
pub open spec fn opponent_of(player: PlayerId) -> PlayerId {
    crate::state::runtime::opponent(player)
}

proof fn lemma_completed_encounter_keeps_held(v: MatchView)
    ensures
        held_cards(v.encounter_completed().player_a) =~= held_cards(v.player_a),
        held_cards(v.encounter_completed().player_b) =~= held_cards(v.player_b),
{
    reveal(MatchView::encounter_completed);
    lemma_resolution_keeps_card_lists(v);
    let resolved = v.encounter_resolved();
    let counted = MatchView { last_outcome: Some(v.encounter_outcome()), round: (resolved.round + 1) as u32, ..resolved };
    let phased = if counted.phase != MatchPhase::Finished {
        MatchView {
            phase: if counted.final_climax_active { MatchPhase::FinalClimax } else { MatchPhase::DailyLife },
            ..counted
        }
    } else {
        counted
    };
    let cleared = phased.bonuses_cleared();
    let limit = crate::state::round_flow::hand_limit();
    lemma_discard_keeps_held(cleared, PlayerId::PlayerA, limit);
    let after_a = cleared.player_discarded_down(PlayerId::PlayerA, limit);
    lemma_discard_keeps_held(after_a, PlayerId::PlayerB, limit);
    let discarded = after_a.player_discarded_down(PlayerId::PlayerB, limit);
    let readied = MatchView {
        player_a: crate::state::round_flow::player_readied(discarded.player_a),
        player_b: crate::state::round_flow::player_readied(discarded.player_b),
        active_player: opponent_of(cleared.active_player),
        priority_player: opponent_of(cleared.active_player),
        phase_passes: 0,
        reaction_stack: Seq::empty(),
        reaction_state: None,
        ..discarded
    };
    let draw = crate::state::round_flow::round_start_draw();
    lemma_draw_keeps_held(readied, PlayerId::PlayerA, draw);
    let drawn_a = readied.drawn(PlayerId::PlayerA, draw);
    lemma_draw_keeps_held(drawn_a, PlayerId::PlayerB, draw);
}

proof fn lemma_queue_keeps_held(v: MatchView, player: PlayerId, index: int, is_reaction: bool)
    ensures
        held_cards(v.card_queued(player, index, is_reaction).player_a) =~= held_cards(v.player_a),
        held_cards(v.card_queued(player, index, is_reaction).player_b) =~= held_cards(v.player_b),
{
    broadcast use vstd::multiset::group_multiset_axioms;
    broadcast use vstd::seq_lib::group_to_multiset_ensures;

    reveal(MatchView::card_queued);
    match v.card_in_hand(player, index) {
        Some(card) => {
            let p = v.player(player);
            let x = p.hand[index];
            assert(p.hand.to_multiset().count(x) > 0) by {
                assert(p.hand.contains(x));
            }
        },
        None => {},
    }
}

/// No action creates or loses a card: each player's deck, hand and discard pile together
/// hold the same cards before and after.
pub proof fn lemma_cards_are_conserved(v: MatchView, action: MatchAction)
    ensures
        held_cards(v.after_action(action).player_a) =~= held_cards(v.player_a),
        held_cards(v.after_action(action).player_b) =~= held_cards(v.player_b),
{
    reveal(MatchView::daily_life_passed);
    reveal(MatchView::encounter_passed);
    reveal(MatchView::final_climax_declared);
    reveal(MatchView::support_reveal_queued);
    reveal(MatchView::reaction_passed);
    reveal(MatchView::selected_card_queued);
    lemma_completed_encounter_keeps_held(v);
    match action {
        MatchAction::PlayCardFromHand { player, hand_index } => {
            match v.expected_hand_speed(player) {
                Some(speed) => lemma_queue_keeps_held(v, player, hand_index as int, speed == crate::data::CardSpeed::Reaction),
                None => {},
            }
        },
        MatchAction::PassEncounter { player } => {
            lemma_completed_encounter_keeps_held(v.encounter_pass_counted(player));
        },
        MatchAction::PassReaction { player } => {
            match v.reaction_state {
                Some(rs) => {
                    let passes = (rs.passes_in_row + 1) as u8;
                    let counted = MatchView {
                        reaction_state: Some(crate::state::match_state::ReactionState { passes_in_row: passes, ..rs }),
                        ..v
                    }.log(crate::state::events::msg_passed_priority(player));
                    lemma_stack_closed_keeps_card_lists(counted);
                },
                None => {},
            }
        },
        _ => {},
    }
}


/// The match has a winner exactly when it is finished.
pub open spec fn decided_when_finished(v: MatchView) -> bool {
    (v.phase == MatchPhase::Finished) == (v.winner is Some)
}

/// Phase and winner are the same in the two matches.
pub open spec fn outcome_kept(a: MatchView, b: MatchView) -> bool {
    a.phase == b.phase && a.winner == b.winner
}

proof fn lemma_effect_keeps_outcome(v: MatchView, player: PlayerId, effect: CardEffect)
    ensures
        outcome_kept(v, v.effect_applied(player, effect)),
{
    reveal(MatchView::effect_applied);
    reveal(MatchView::main_growth);
    reveal(MatchView::revealed_supports_growth);
    reveal(MatchView::first_revealed_support_radiance);
    reveal(MatchView::exhaust_first_revealed_opponent_support);
    reveal(MatchView::reveal_first_hidden_own_support);
    reveal(MatchView::revealed_supports_power);
    reveal(MatchView::main_power_this_encounter);
    reveal(MatchView::main_power_next_encounter);
    reveal(MatchView::opponent_power_loss);
    reveal(MatchView::prime_power_this_encounter);
}

proof fn lemma_effects_keep_outcome(v: MatchView, player: PlayerId, effects: Seq<CardEffect>)
    ensures
        outcome_kept(v, v.effects_applied(player, effects)),
    decreases effects.len(),
{
    reveal(MatchView::effects_applied);
    if effects.len() > 0 {
        lemma_effect_keeps_outcome(v, player, effects[0]);
        lemma_effects_keep_outcome(v.effect_applied(player, effects[0]), player, effects.drop_first());
    }
}

proof fn lemma_item_keeps_outcome(v: MatchView, item: StackItem)
    ensures
        outcome_kept(v, v.item_resolved(item)),
{
    reveal(MatchView::item_resolved);
    match item.kind {
        StackItemKind::PlayCard { card_id, card_name } => {
            lemma_effects_keep_outcome(v, item.player, card_effects(v.story_cards, card_id@));
        },
        _ => {},
    }
}

proof fn lemma_stack_keeps_outcome(v: MatchView)
    ensures
        outcome_kept(v, v.stack_resolved()),
    decreases v.reaction_stack.len(),
{
    reveal(MatchView::stack_resolved);
    if v.reaction_stack.len() > 0 {
        let next = v.popped().item_resolved(v.reaction_stack.last());
        lemma_item_keeps_outcome(v.popped(), v.reaction_stack.last());
        lemma_item_keeps_stack(v.popped(), v.reaction_stack.last());
        lemma_stack_keeps_outcome(next);
    }
}

proof fn lemma_stack_closed_keeps_outcome(v: MatchView)
    ensures
        outcome_kept(v, v.stack_closed()),
{
    reveal(MatchView::stack_closed);
    let cleared = MatchView { reaction_state: None, ..v };
    if v.reaction_stack.len() > 0 {
        lemma_stack_keeps_outcome(cleared);
    }
}

proof fn lemma_growth_keeps_outcome(v: MatchView, attacker: PlayerId, defender: PlayerId, outcome: crate::engine::EncounterOutcome)
    ensures
        outcome_kept(v, v.encounter_growth(attacker, defender, outcome)),
{
    reveal(MatchView::encounter_growth);
    reveal(MatchView::decided_growth);
    reveal(MatchView::tie_growth);
}

proof fn lemma_resolution_decides_or_keeps(v: MatchView)
    requires
        v.winner is None,
    ensures
        (v.encounter_resolved().phase == MatchPhase::Finished && v.encounter_resolved().winner is Some)
            || outcome_kept(v, v.encounter_resolved()),
{
    reveal(MatchView::encounter_resolved);
    reveal(MatchView::final_climax_result);
    let attacker = v.active_player;
    let defender = crate::state::runtime::opponent(attacker);
    lemma_growth_keeps_outcome(v, attacker, defender, v.encounter_outcome());
}

proof fn lemma_completed_encounter_decided_when_finished(v: MatchView)
    requires
        decided_when_finished(v),
        v.phase == MatchPhase::Encounter || v.phase == MatchPhase::FinalClimax,
    ensures
        decided_when_finished(v.encounter_completed()),
{
    reveal(MatchView::encounter_completed);
    lemma_resolution_decides_or_keeps(v);
}

/// Every action keeps the match decided exactly when it is finished: only a won Final Climax
/// ends a match, and it names the winner as it does.
pub proof fn lemma_winner_exactly_when_finished(v: MatchView, action: MatchAction)
    requires
        decided_when_finished(v),
    ensures
        decided_when_finished(v.after_action(action)),
{
    reveal(MatchView::daily_life_passed);
    reveal(MatchView::encounter_passed);
    reveal(MatchView::final_climax_declared);
    reveal(MatchView::support_reveal_queued);
    reveal(MatchView::reaction_passed);
    reveal(MatchView::selected_card_queued);
    reveal(MatchView::card_queued);
    if v.phase == MatchPhase::Encounter || v.phase == MatchPhase::FinalClimax {
        lemma_completed_encounter_decided_when_finished(v);
    }
    match action {
        MatchAction::PassEncounter { player } => {
            if v.encounter_pass_allowed(player) {
                lemma_completed_encounter_decided_when_finished(v.encounter_pass_counted(player));
            }
        },
        MatchAction::PassReaction { player } => {
            match v.reaction_state {
                Some(rs) => {
                    let passes = (rs.passes_in_row + 1) as u8;
                    let counted = MatchView {
                        reaction_state: Some(crate::state::match_state::ReactionState { passes_in_row: passes, ..rs }),
                        ..v
                    }.log(crate::state::events::msg_passed_priority(player));
                    lemma_stack_closed_keeps_outcome(counted);
                },
                None => {},
            }
        },
        _ => {},
    }
}

/// The engine is deterministic: an action's outcome is a function of the match and the
/// action alone, so two equal matches given the same action come out equal.
pub proof fn lemma_action_is_deterministic(v: MatchView, w: MatchView, action: MatchAction)
    requires
        v == w,
    ensures
        v.after_action(action) == w.after_action(action),
{
}

/// A finished match with no reaction window open accepts every action: no counter or power
/// can run past its integer type there.
pub proof fn lemma_finished_match_accepts_every_action(v: MatchView)
    requires
        v.phase == MatchPhase::Finished,
        v.reaction_state is None,
    ensures
        forall|action: MatchAction| #[trigger] v.action_ok(action),
{
    reveal(MatchView::daily_life_passed_ok);
    reveal(MatchView::encounter_passed_ok);
    reveal(MatchView::reaction_passed_ok);
}

} // verus!
