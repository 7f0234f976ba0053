//! The computer opponent: it takes the first action of a fixed list of preferences that the
//! match allows.

use vstd::prelude::*;

use super::match_engine::{MatchAction, MatchEngine};
use crate::data::CardSpeed;
use crate::state::match_state::{MatchState, MatchView};
use crate::state::runtime::{MatchPhase, PlayerId};

verus! {

/// Whether the player holds a card of the speed.
pub open spec fn holds_card_with_speed(m: MatchView, player: PlayerId, speed: CardSpeed) -> bool {
    exists|i: int| 0 <= i < m.player(player).hand.len() && #[trigger] m.hand_card_has_speed(player, i, speed)
}

/// `i` is the first hand position holding a card of the speed.
pub open spec fn first_card_with_speed(m: MatchView, player: PlayerId, speed: CardSpeed, i: int) -> bool {
    &&& 0 <= i < m.player(player).hand.len()
    &&& m.hand_card_has_speed(player, i, speed)
    &&& forall|j: int| 0 <= j < i ==> !m.hand_card_has_speed(player, j, speed)
}

/// Plays the first card of the speed; failing that reveals a hidden magical girl, then a
/// hidden baddie; failing that takes `fallback`.
pub open spec fn preferred_play(
    m: MatchView,
    player: PlayerId,
    speed: CardSpeed,
    fallback: MatchAction,
    r: Option<MatchAction>,
) -> bool {
    if holds_card_with_speed(m, player, speed) {
        match r {
            Some(MatchAction::PlayCardFromHand { player: p, hand_index }) => p == player
                && first_card_with_speed(m, player, speed, hand_index as int),
            _ => false,
        }
    } else if m.can_reveal_support(player, true) {
        r == Some(MatchAction::RevealFirstHiddenSupport { player, is_magical_girl_side: true })
    } else if m.can_reveal_support(player, false) {
        r == Some(MatchAction::RevealFirstHiddenSupport { player, is_magical_girl_side: false })
    } else {
        r == Some(fallback)
    }
}

/// In an encounter: declare the Final Climax when allowed, else play or reveal as usual, and
/// pass once the encounter card is spent.
pub open spec fn encounter_choice(m: MatchView, player: PlayerId, r: Option<MatchAction>) -> bool {
    if m.player(player).encounter_card_played {
        r == Some(MatchAction::PassEncounter { player })
    } else if !m.final_climax_active && m.can_declare_final_climax() {
        r == Some(MatchAction::DeclareFinalClimax)
    } else {
        preferred_play(m, player, CardSpeed::Encounter, MatchAction::PassEncounter { player }, r)
    }
}

/// What the computer does for `player`: answer a reaction window it holds, act in the phase
/// when it has priority, and otherwise nothing.
pub open spec fn ai_choice(m: MatchView, player: PlayerId, r: Option<MatchAction>) -> bool {
    if m.reaction_priority_player() == Some(player) {
        preferred_play(m, player, CardSpeed::Reaction, MatchAction::PassReaction { player }, r)
    } else if m.proactive_priority_player() != Some(player) {
        r is None
    } else {
        match m.phase {
            MatchPhase::DailyLife => preferred_play(
                m,
                player,
                CardSpeed::DailyLife,
                MatchAction::PassDailyLife { player },
                r,
            ),
            MatchPhase::Encounter | MatchPhase::FinalClimax => encounter_choice(m, player, r),
            MatchPhase::Finished => r is None,
        }
    }
}

/// The computer opponent.
pub struct AiController;

impl AiController {
    /// The action of the computer playing the second seat.
    pub fn choose_action(state: &MatchState) -> (r: Option<MatchAction>)
        ensures
            ai_choice(state@, PlayerId::PlayerB, r),
    {
        Self::choose_action_for(state, PlayerId::PlayerB)
    }

    /// The action of the computer playing `player`.
    pub fn choose_action_for(state: &MatchState, player: PlayerId) -> (r: Option<MatchAction>)
        ensures
            ai_choice(state@, player, r),
    {
        if state.reaction_priority_player() == Some(player) {
            return reaction_action(state, player);
        }
        if state.proactive_priority_player() != Some(player) {
            return None;
        }
        match state.phase {
            MatchPhase::DailyLife => daily_life_action(state, player),
            MatchPhase::Encounter | MatchPhase::FinalClimax => encounter_action(state, player),
            MatchPhase::Finished => None,
        }
    }
}

/// Plays the first card of the speed, else reveals a support, else takes `fallback`.
fn play_or_reveal(state: &MatchState, player: PlayerId, speed: CardSpeed, fallback: MatchAction) -> (r: Option<MatchAction>)
    ensures
        preferred_play(state@, player, speed, fallback, r),
{
    if let Some(hand_index) = state.first_playable_hand_index(player, speed) {
        Some(MatchAction::PlayCardFromHand { player, hand_index })
    } else if state.can_reveal_support(player, true) {
        Some(MatchAction::RevealFirstHiddenSupport { player, is_magical_girl_side: true })
    } else if state.can_reveal_support(player, false) {
        Some(MatchAction::RevealFirstHiddenSupport { player, is_magical_girl_side: false })
    } else {
        Some(fallback)
    }
}

fn reaction_action(state: &MatchState, player: PlayerId) -> (r: Option<MatchAction>)
    ensures
        preferred_play(state@, player, CardSpeed::Reaction, MatchAction::PassReaction { player }, r),
{
    play_or_reveal(state, player, CardSpeed::Reaction, MatchAction::PassReaction { player })
}

fn daily_life_action(state: &MatchState, player: PlayerId) -> (r: Option<MatchAction>)
    ensures
        preferred_play(state@, player, CardSpeed::DailyLife, MatchAction::PassDailyLife { player }, r),
{
    play_or_reveal(state, player, CardSpeed::DailyLife, MatchAction::PassDailyLife { player })
}

fn encounter_action(state: &MatchState, player: PlayerId) -> (r: Option<MatchAction>)
    ensures
        encounter_choice(state@, player, r),
{
    if !state.player_for(player).encounter_card_played {
        if !state.final_climax_active && MatchEngine::can_declare_final_climax(state) {
            return Some(MatchAction::DeclareFinalClimax);
        }
        return play_or_reveal(state, player, CardSpeed::Encounter, MatchAction::PassEncounter { player });
    }
    Some(MatchAction::PassEncounter { player })
}

/// The computer acts exactly when it holds priority: in an open reaction window, or outside
/// one while the match is still running.
pub proof fn lemma_ai_acts_exactly_with_priority(m: MatchView, player: PlayerId, r: Option<MatchAction>)
    requires
        ai_choice(m, player, r),
    ensures
        r is Some <==> (m.reaction_priority_player() == Some(player) || m.proactive_priority_player() == Some(player)),
{
}

/// Every card the computer plays is one the match lets it play, unless the match is over.
pub proof fn lemma_ai_plays_only_playable_cards(m: MatchView, player: PlayerId, r: Option<MatchAction>)
    requires
        ai_choice(m, player, r),
        m.phase != MatchPhase::Finished,
    ensures
        match r {
            Some(MatchAction::PlayCardFromHand { player: p, hand_index }) => p == player
                && m.can_play_hand_card(player, hand_index as int),
            _ => true,
        },
{
}

/// The computer only queues a support reveal that the match allows: one per round, none
/// already queued, and a hidden support on that side.
pub proof fn lemma_ai_reveals_only_when_allowed(m: MatchView, player: PlayerId, r: Option<MatchAction>)
    requires
        ai_choice(m, player, r),
    ensures
        match r {
            Some(MatchAction::RevealFirstHiddenSupport { player: p, is_magical_girl_side }) => p == player
                && m.can_reveal_support(player, is_magical_girl_side),
            _ => true,
        },
{
}

/// `r` plays the player's first card of the speed.
pub open spec fn plays_first_card_of_speed(m: MatchView, player: PlayerId, speed: CardSpeed, r: Option<MatchAction>) -> bool {
    match r {
        Some(MatchAction::PlayCardFromHand { player: p, hand_index }) => {
            &&& p == player
            &&& m.hand_card_has_speed(player, hand_index as int, speed)
            &&& forall|j: int| 0 <= j < hand_index ==> !m.hand_card_has_speed(player, j, speed)
        },
        _ => false,
    }
}

/// The computer plays a card whenever it may and holds one: in a reaction window it holds,
/// its first Reaction card; in Daily Life with priority, its first Daily Life card; in an
/// encounter with priority, before its encounter card is spent and when it cannot declare the
/// Final Climax, its first Encounter card.
pub proof fn lemma_ai_plays_the_first_card_it_may(m: MatchView, player: PlayerId, r: Option<MatchAction>)
    requires
        ai_choice(m, player, r),
    ensures
        m.reaction_priority_player() == Some(player) && (exists|i: int|
            #[trigger] m.hand_card_has_speed(player, i, CardSpeed::Reaction)) ==> plays_first_card_of_speed(
            m,
            player,
            CardSpeed::Reaction,
            r,
        ),
        m.reaction_priority_player() != Some(player) && m.proactive_priority_player() == Some(player) && m.phase
            == MatchPhase::DailyLife && (exists|i: int| #[trigger] m.hand_card_has_speed(player, i, CardSpeed::DailyLife))
            ==> plays_first_card_of_speed(m, player, CardSpeed::DailyLife, r),
        m.reaction_priority_player() != Some(player) && m.proactive_priority_player() == Some(player) && (m.phase
            == MatchPhase::Encounter || m.phase == MatchPhase::FinalClimax) && !m.player(player).encounter_card_played
            && (m.final_climax_active || !m.can_declare_final_climax()) && (exists|i: int|
            #[trigger] m.hand_card_has_speed(player, i, CardSpeed::Encounter)) ==> plays_first_card_of_speed(
            m,
            player,
            CardSpeed::Encounter,
            r,
        ),
{
    assert forall|speed: CardSpeed| (exists|i: int| #[trigger] m.hand_card_has_speed(player, i, speed)) implies holds_card_with_speed(
        m,
        player,
        speed,
    ) by {
        let i = choose|i: int| #[trigger] m.hand_card_has_speed(player, i, speed);
        assert(0 <= i < m.player(player).hand.len());
    }
}

} // verus!
