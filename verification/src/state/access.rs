//! Queries on a match and access to its parts.

use vstd::prelude::*;

use super::match_state::{
    card_lookup, MatchState, MatchView, PlayerState, StackItemKind,
};
use super::runtime::{opponent, opposing, MatchPhase, PlayerId, SideState};
use crate::data::{CardSpeed, StoryCardDefinition};

verus! {

/// The label of a phase.
pub open spec fn phase_label(phase: MatchPhase) -> Seq<char> {
    match phase {
        MatchPhase::DailyLife => "DailyLife"@,
        MatchPhase::Encounter => "Encounter"@,
        MatchPhase::FinalClimax => "FinalClimax"@,
        MatchPhase::Finished => "Finished"@,
    }
}

impl MatchState {
    /// The last story card with the given id.
    pub fn lookup_card(&self, card_id: &str) -> (r: Option<&StoryCardDefinition>)
        ensures
            match card_lookup(self.story_cards@, card_id@) {
                Some(card) => r == Some(&card),
                None => r.is_none(),
            },
    {
        let mut i: usize = self.story_cards.len();
        proof {
            assert(self.story_cards@.subrange(0, i as int) =~= self.story_cards@);
        }
        while i > 0
            invariant
                i <= self.story_cards.len(),
                card_lookup(self.story_cards@, card_id@) == card_lookup(self.story_cards@.subrange(0, i as int), card_id@),
            decreases i,
        {
            let ghost prefix = self.story_cards@.subrange(0, i as int);
            proof {
                assert(prefix.drop_last() =~= self.story_cards@.subrange(0, i - 1));
            }
            if crate::text::same_text(self.story_cards[i - 1].id.as_str(), card_id) {
                return Some(&self.story_cards[i - 1]);
            }
            i -= 1;
        }
        None
    }

    pub fn has_hidden_support(&self, player: PlayerId, is_magical_girl_side: bool) -> (r: bool)
        ensures
            r == self@.has_hidden_support(player, is_magical_girl_side),
    {
        let side = self.side_for(player, is_magical_girl_side);
        let mut i: usize = 0;
        while i < side.supports.len()
            invariant
                side@ == self@.side(player, is_magical_girl_side),
                i <= side.supports.len(),
                forall|j: int| 0 <= j < i ==> side.supports@[j].revealed,
            decreases side.supports.len() - i,
        {
            if !side.supports[i].revealed {
                assert(!self@.side(player, is_magical_girl_side).supports[i as int].revealed);
                return true;
            }
            i += 1;
        }
        false
    }

    pub fn has_pending_support_reveal(&self, player: PlayerId, is_magical_girl_side: bool) -> (r: bool)
        ensures
            r == self@.has_pending_support_reveal(player, is_magical_girl_side),
    {
        let mut i: usize = 0;
        while i < self.reaction_stack.len()
            invariant
                i <= self.reaction_stack.len(),
                forall|j: int| 0 <= j < i ==> !(#[trigger] self.reaction_stack@[j].player == player
                    && match self.reaction_stack@[j].kind {
                        StackItemKind::RevealSupport { is_magical_girl_side: side, .. } => side == is_magical_girl_side,
                        _ => false,
                    }),
            decreases self.reaction_stack.len() - i,
        {
            let item = &self.reaction_stack[i];
            if item.player == player {
                match &item.kind {
                    StackItemKind::RevealSupport { is_magical_girl_side: side, .. } => {
                        if *side == is_magical_girl_side {
                            assert(self@.reaction_stack[i as int] == *item);
                            return true;
                        }
                    },
                    _ => {},
                }
            }
            i += 1;
        }
        false
    }

    pub fn has_pending_support_reveal_any(&self, player: PlayerId) -> (r: bool)
        ensures
            r == self@.has_pending_support_reveal_any(player),
    {
        let mut i: usize = 0;
        while i < self.reaction_stack.len()
            invariant
                i <= self.reaction_stack.len(),
                forall|j: int| 0 <= j < i ==> !(#[trigger] self.reaction_stack@[j].player == player
                    && self.reaction_stack@[j].kind is RevealSupport),
            decreases self.reaction_stack.len() - i,
        {
            let item = &self.reaction_stack[i];
            if item.player == player {
                match &item.kind {
                    StackItemKind::RevealSupport { .. } => {
                        assert(self@.reaction_stack[i as int] == *item);
                        return true;
                    },
                    _ => {},
                }
            }
            i += 1;
        }
        false
    }

    /// Whether the player may queue a support reveal on that side.
    pub fn can_reveal_support(&self, player: PlayerId, is_magical_girl_side: bool) -> (r: bool)
        ensures
            r == self@.can_reveal_support(player, is_magical_girl_side),
    {
        self.player_for(player).supports_revealed_this_round == 0
            && !self.has_pending_support_reveal_any(player)
            && self.has_hidden_support(player, is_magical_girl_side)
    }

    /// Counts one more support reveal for the player this round.
    pub fn mark_support_revealed_this_round(&mut self, player: PlayerId)
        requires
            old(self)@.player(player).supports_revealed_this_round < u8::MAX,
        ensures
            final(self)@ == old(self)@.with_player(
                player,
                super::match_state::PlayerView {
                    supports_revealed_this_round: (old(self)@.player(player).supports_revealed_this_round + 1) as u8,
                    ..old(self)@.player(player)
                },
            ),
    {
        match player {
            PlayerId::PlayerA => {
                self.player_a.supports_revealed_this_round = self.player_a.supports_revealed_this_round + 1;
            },
            PlayerId::PlayerB => {
                self.player_b.supports_revealed_this_round = self.player_b.supports_revealed_this_round + 1;
            },
        }
    }

    /// The player who may answer the reaction stack, while one is open.
    pub fn reaction_priority_player(&self) -> (r: Option<PlayerId>)
        ensures
            r == self@.reaction_priority_player(),
    {
        match &self.reaction_state {
            Some(state) => Some(state.priority_player),
            None => None,
        }
    }

    /// The player who may act outside a reaction window, unless the match is over.
    pub fn proactive_priority_player(&self) -> (r: Option<PlayerId>)
        ensures
            r == self@.proactive_priority_player(),
    {
        if self.reaction_state.is_none() && self.phase != MatchPhase::Finished {
            Some(self.priority_player)
        } else {
            None
        }
    }

    pub fn player_for(&self, player: PlayerId) -> (r: &PlayerState)
        ensures
            r@ == self@.player(player),
            player == PlayerId::PlayerA ==> *r == self.player_a,
            player == PlayerId::PlayerB ==> *r == self.player_b,
    {
        match player {
            PlayerId::PlayerA => &self.player_a,
            PlayerId::PlayerB => &self.player_b,
        }
    }

    pub fn player_for_mut(&mut self, player: PlayerId) -> (r: &mut PlayerState)
        ensures
            player == PlayerId::PlayerA ==> *r == old(self).player_a
                && *final(self) == (MatchState { player_a: *final(r), ..*old(self) }),
            player == PlayerId::PlayerB ==> *r == old(self).player_b
                && *final(self) == (MatchState { player_b: *final(r), ..*old(self) }),
    {
        match player {
            PlayerId::PlayerA => &mut self.player_a,
            PlayerId::PlayerB => &mut self.player_b,
        }
    }

    pub fn encounter_card_played(&self, player: PlayerId) -> (r: bool)
        ensures
            r == self@.player(player).encounter_card_played,
    {
        self.player_for(player).encounter_card_played
    }

    pub fn set_encounter_card_played(&mut self, player: PlayerId, value: bool)
        ensures
            final(self)@ == old(self)@.with_player(
                player,
                super::match_state::PlayerView { encounter_card_played: value, ..old(self)@.player(player) },
            ),
    {
        match player {
            PlayerId::PlayerA => self.player_a.encounter_card_played = value,
            PlayerId::PlayerB => self.player_b.encounter_card_played = value,
        }
    }

    pub fn side_for(&self, player: PlayerId, is_magical_girl_side: bool) -> (r: &SideState)
        ensures
            r@ == self@.side(player, is_magical_girl_side),
    {
        let player_state = self.player_for(player);
        if is_magical_girl_side {
            &player_state.magical_girls
        } else {
            &player_state.baddies
        }
    }

    pub fn side_for_mut(&mut self, player: PlayerId, is_magical_girl_side: bool) -> (r: &mut SideState)
        ensures
            r@ == old(self)@.side(player, is_magical_girl_side),
            final(self)@ == old(self)@.with_side(player, is_magical_girl_side, final(r)@),
    {
        match player {
            PlayerId::PlayerA => {
                if is_magical_girl_side {
                    &mut self.player_a.magical_girls
                } else {
                    &mut self.player_a.baddies
                }
            },
            PlayerId::PlayerB => {
                if is_magical_girl_side {
                    &mut self.player_b.magical_girls
                } else {
                    &mut self.player_b.baddies
                }
            },
        }
    }

    /// The active player's magical girls.
    pub fn active_magical_girls(&self) -> (r: &SideState)
        ensures
            r@ == self@.side(self.active_player, true),
    {
        &self.player_for(self.active_player).magical_girls
    }

    pub fn active_magical_girls_mut(&mut self) -> (r: &mut SideState)
        ensures
            r@ == old(self)@.side(old(self).active_player, true),
            final(self)@ == old(self)@.with_side(old(self).active_player, true, final(r)@),
    {
        self.side_for_mut(self.active_player, true)
    }

    /// The baddies of the player who is not active.
    pub fn defending_baddies(&self) -> (r: &SideState)
        ensures
            r@ == self@.side(opponent(self.active_player), false),
    {
        &self.player_for(opposing(self.active_player)).baddies
    }

    pub fn hand_for(&self, player: PlayerId) -> (r: &Vec<String>)
        ensures
            r@ == self@.player(player).hand,
    {
        &self.player_for(player).hand
    }

    pub fn hand_for_mut(&mut self, player: PlayerId) -> (r: &mut Vec<String>)
        ensures
            r@ == old(self)@.player(player).hand,
            final(self)@ == old(self)@.with_player(
                player,
                super::match_state::PlayerView { hand: final(r)@, ..old(self)@.player(player) },
            ),
    {
        match player {
            PlayerId::PlayerA => &mut self.player_a.hand,
            PlayerId::PlayerB => &mut self.player_b.hand,
        }
    }

    pub fn deck_for_mut(&mut self, player: PlayerId) -> (r: &mut Vec<String>)
        ensures
            r@ == old(self)@.player(player).deck,
            final(self)@ == old(self)@.with_player(
                player,
                super::match_state::PlayerView { deck: final(r)@, ..old(self)@.player(player) },
            ),
    {
        match player {
            PlayerId::PlayerA => &mut self.player_a.deck,
            PlayerId::PlayerB => &mut self.player_b.deck,
        }
    }

    pub fn discard_for_mut(&mut self, player: PlayerId) -> (r: &mut Vec<String>)
        ensures
            r@ == old(self)@.player(player).discard,
            final(self)@ == old(self)@.with_player(
                player,
                super::match_state::PlayerView { discard: final(r)@, ..old(self)@.player(player) },
            ),
    {
        match player {
            PlayerId::PlayerA => &mut self.player_a.discard,
            PlayerId::PlayerB => &mut self.player_b.discard,
        }
    }

    /// The definition of the card at `hand_index` in the player's hand.
    pub fn card_in_hand(&self, player: PlayerId, hand_index: usize) -> (r: Option<&StoryCardDefinition>)
        ensures
            match self@.card_in_hand(player, hand_index as int) {
                Some(card) => r == Some(&card),
                None => r.is_none(),
            },
    {
        let hand = self.hand_for(player);
        if hand_index >= hand.len() {
            return None;
        }
        self.lookup_card(hand[hand_index].as_str())
    }

    /// The first hand position holding a card of the desired speed.
    pub fn first_playable_hand_index(&self, player: PlayerId, desired_speed: CardSpeed) -> (r: Option<usize>)
        ensures
            match r {
                Some(i) => i < self@.player(player).hand.len()
                    && self@.hand_card_has_speed(player, i as int, desired_speed)
                    && forall|j: int| 0 <= j < i ==> !self@.hand_card_has_speed(player, j, desired_speed),
                None => forall|j: int| 0 <= j < self@.player(player).hand.len()
                    ==> !self@.hand_card_has_speed(player, j, desired_speed),
            },
    {
        let len = self.hand_for(player).len();
        let mut i: usize = 0;
        while i < len
            invariant
                len == self@.player(player).hand.len(),
                i <= len,
                forall|j: int| 0 <= j < i ==> !self@.hand_card_has_speed(player, j, desired_speed),
            decreases len - i,
        {
            match self.card_in_hand(player, i) {
                Some(card) => {
                    if card.speed == desired_speed {
                        return Some(i);
                    }
                },
                None => {},
            }
            i += 1;
        }
        None
    }

    /// The speed of card the player may play now: a reaction while they hold reaction
    /// priority, otherwise the phase's speed when they hold priority.
    pub fn expected_hand_speed(&self, player: PlayerId) -> (r: Option<CardSpeed>)
        ensures
            r == self@.expected_hand_speed(player),
    {
        if self.phase == MatchPhase::Finished {
            return None;
        }
        if self.reaction_priority_player() == Some(player) {
            return Some(CardSpeed::Reaction);
        }
        if self.reaction_state.is_some() || self.priority_player != player {
            return None;
        }
        match self.phase {
            MatchPhase::DailyLife => Some(CardSpeed::DailyLife),
            MatchPhase::Encounter | MatchPhase::FinalClimax => {
                if self.encounter_card_played(player) {
                    None
                } else {
                    Some(CardSpeed::Encounter)
                }
            },
            MatchPhase::Finished => None,
        }
    }

    pub fn can_play_hand_card(&self, player: PlayerId, hand_index: usize) -> (r: bool)
        ensures
            r == self@.can_play_hand_card(player, hand_index as int),
    {
        let expected_speed = match self.expected_hand_speed(player) {
            Some(speed) => speed,
            None => return false,
        };
        match self.card_in_hand(player, hand_index) {
            Some(card) => card.speed == expected_speed,
            None => false,
        }
    }

    pub fn current_phase_label(&self) -> (r: &'static str)
        ensures
            r@ == phase_label(self.phase),
    {
        match self.phase {
            MatchPhase::DailyLife => "DailyLife",
            MatchPhase::Encounter => "Encounter",
            MatchPhase::FinalClimax => "FinalClimax",
            MatchPhase::Finished => "Finished",
        }
    }
}

} // verus!
