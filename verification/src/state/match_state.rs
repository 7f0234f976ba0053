//! Deterministic runtime state for a match.

use vstd::prelude::*;

use super::events::logged;
use super::runtime::{CharacterRuntimeState, MatchPhase, PlayerId, SideState, SideView, SupportState};
use crate::data::{CardSpeed, MatchRules, StoryCardDefinition};
use crate::engine::EncounterOutcome;

verus! {

/// What a queued stack item does when it resolves.
#[derive(Clone, Debug)]
pub enum StackItemKind {
    PlayCard { card_id: String, card_name: String },
    RevealSupport { is_magical_girl_side: bool, support_index: usize },
}

/// A card play or support reveal waiting on the reaction stack.
#[derive(Clone, Debug)]
pub struct StackItem {
    pub player: PlayerId,
    pub is_reaction: bool,
    pub resolves_in_phase: MatchPhase,
    pub kind: StackItemKind,
}

impl StackItem {
    pub fn duplicate(&self) -> (r: Self)
        ensures
            r == *self,
    {
        let kind = match &self.kind {
            StackItemKind::PlayCard { card_id, card_name } => StackItemKind::PlayCard {
                card_id: card_id.clone(),
                card_name: card_name.clone(),
            },
            StackItemKind::RevealSupport { is_magical_girl_side, support_index } => StackItemKind::RevealSupport {
                is_magical_girl_side: *is_magical_girl_side,
                support_index: *support_index,
            },
        };
        StackItem {
            player: self.player,
            is_reaction: self.is_reaction,
            resolves_in_phase: self.resolves_in_phase,
            kind,
        }
    }
}

/// Who may answer the reaction stack next, and how many passes came in a row.
#[derive(Clone, Copy, Debug, PartialEq, Eq, Structural)]
pub struct ReactionState {
    pub priority_player: PlayerId,
    pub passes_in_row: u8,
}

/// One player's table, deck, hand and discard pile.
#[derive(Clone, Debug)]
pub struct PlayerState {
    pub magical_girls: SideState,
    pub baddies: SideState,
    pub deck: Vec<String>,
    pub hand: Vec<String>,
    pub discard: Vec<String>,
    pub encounter_card_played: bool,
    pub supports_revealed_this_round: u8,
}

/// The whole state of a match.
#[derive(Clone, Debug)]
pub struct MatchState {
    pub rules: MatchRules,
    pub story_cards: Vec<StoryCardDefinition>,
    pub phase: MatchPhase,
    pub round: u32,
    pub final_climax_active: bool,
    pub prime_baddie_defeated: bool,
    pub defeated_prime_owner: Option<PlayerId>,
    pub winner: Option<PlayerId>,
    pub player_a: PlayerState,
    pub player_b: PlayerState,
    pub active_player: PlayerId,
    pub priority_player: PlayerId,
    pub phase_passes: u8,
    pub last_played_card_name: Option<String>,
    pub last_outcome: Option<EncounterOutcome>,
    pub reaction_stack: Vec<StackItem>,
    pub reaction_state: Option<ReactionState>,
    pub event_log: Vec<String>,
}

/// The chosen mains and support pairs of both players, as indices into the content lists.
#[derive(Clone, Copy, Debug, PartialEq, Eq, Structural)]
pub struct MatchSetup {
    pub player_a_mg_main_index: usize,
    pub player_a_mg_support_pair_index: usize,
    pub player_a_baddie_main_index: usize,
    pub player_a_baddie_support_pair_index: usize,
    pub player_b_mg_main_index: usize,
    pub player_b_mg_support_pair_index: usize,
    pub player_b_baddie_main_index: usize,
    pub player_b_baddie_support_pair_index: usize,
}

/// The value of a player's state, with its lists as sequences.
#[verifier::ext_equal]
pub struct PlayerView {
    pub magical_girls: SideView,
    pub baddies: SideView,
    pub deck: Seq<String>,
    pub hand: Seq<String>,
    pub discard: Seq<String>,
    pub encounter_card_played: bool,
    pub supports_revealed_this_round: u8,
}

impl View for PlayerState {
    type V = PlayerView;

    open spec fn view(&self) -> PlayerView {
        PlayerView {
            magical_girls: self.magical_girls@,
            baddies: self.baddies@,
            deck: self.deck@,
            hand: self.hand@,
            discard: self.discard@,
            encounter_card_played: self.encounter_card_played,
            supports_revealed_this_round: self.supports_revealed_this_round,
        }
    }
}

impl PlayerView {
    /// The magical-girl side or the baddie side.
    pub open spec fn side(self, is_magical_girl_side: bool) -> SideView {
        if is_magical_girl_side {
            self.magical_girls
        } else {
            self.baddies
        }
    }

    pub open spec fn with_side(self, is_magical_girl_side: bool, side: SideView) -> PlayerView {
        if is_magical_girl_side {
            PlayerView { magical_girls: side, ..self }
        } else {
            PlayerView { baddies: side, ..self }
        }
    }
}

/// The value of a match, with its lists as sequences and its log as text.
#[verifier::ext_equal]
pub struct MatchView {
    pub rules: MatchRules,
    pub story_cards: Seq<StoryCardDefinition>,
    pub phase: MatchPhase,
    pub round: u32,
    pub final_climax_active: bool,
    pub prime_baddie_defeated: bool,
    pub defeated_prime_owner: Option<PlayerId>,
    pub winner: Option<PlayerId>,
    pub player_a: PlayerView,
    pub player_b: PlayerView,
    pub active_player: PlayerId,
    pub priority_player: PlayerId,
    pub phase_passes: u8,
    pub last_played_card_name: Option<String>,
    pub last_outcome: Option<EncounterOutcome>,
    pub reaction_stack: Seq<StackItem>,
    pub reaction_state: Option<ReactionState>,
    pub event_log: Seq<Seq<char>>,
}

/// The text of each line of a log.
pub open spec fn log_text(log: Seq<String>) -> Seq<Seq<char>> {
    log.map_values(|line: String| line@)
}

impl View for MatchState {
    type V = MatchView;

    open spec fn view(&self) -> MatchView {
        MatchView {
            rules: self.rules,
            story_cards: self.story_cards@,
            phase: self.phase,
            round: self.round,
            final_climax_active: self.final_climax_active,
            prime_baddie_defeated: self.prime_baddie_defeated,
            defeated_prime_owner: self.defeated_prime_owner,
            winner: self.winner,
            player_a: self.player_a@,
            player_b: self.player_b@,
            active_player: self.active_player,
            priority_player: self.priority_player,
            phase_passes: self.phase_passes,
            last_played_card_name: self.last_played_card_name,
            last_outcome: self.last_outcome,
            reaction_stack: self.reaction_stack@,
            reaction_state: self.reaction_state,
            event_log: log_text(self.event_log@),
        }
    }
}

/// The card stored under `id`; when several share the id, the last one.
pub open spec fn card_lookup(cards: Seq<StoryCardDefinition>, id: Seq<char>) -> Option<StoryCardDefinition>
    decreases cards.len(),
{
    if cards.len() == 0 {
        None
    } else if cards.last().id@ == id {
        Some(cards.last())
    } else {
        card_lookup(cards.drop_last(), id)
    }
}

/// The index of the first hidden support, if any.
pub open spec fn first_hidden(supports: Seq<SupportState>) -> Option<int>
    decreases supports.len(),
{
    if supports.len() == 0 {
        None
    } else if !supports[0].revealed {
        Some(0)
    } else {
        match first_hidden(supports.drop_first()) {
            Some(i) => Some(i + 1),
            None => None,
        }
    }
}

/// The index of the first revealed support, if any.
pub open spec fn first_revealed(supports: Seq<SupportState>) -> Option<int>
    decreases supports.len(),
{
    if supports.len() == 0 {
        None
    } else if supports[0].revealed {
        Some(0)
    } else {
        match first_revealed(supports.drop_first()) {
            Some(i) => Some(i + 1),
            None => None,
        }
    }
}

pub proof fn lemma_first_hidden(supports: Seq<SupportState>)
    ensures
        match first_hidden(supports) {
            Some(i) => 0 <= i < supports.len() && !supports[i].revealed
                && forall|j: int| 0 <= j < i ==> supports[j].revealed,
            None => forall|j: int| 0 <= j < supports.len() ==> supports[j].revealed,
        },
    decreases supports.len(),
{
    if supports.len() > 0 {
        lemma_first_hidden(supports.drop_first());
        assert forall|j: int| 1 <= j < supports.len() implies supports[j] == supports.drop_first()[j - 1] by {}
    }
}

pub proof fn lemma_first_revealed(supports: Seq<SupportState>)
    ensures
        match first_revealed(supports) {
            Some(i) => 0 <= i < supports.len() && supports[i].revealed
                && forall|j: int| 0 <= j < i ==> !supports[j].revealed,
            None => forall|j: int| 0 <= j < supports.len() ==> !supports[j].revealed,
        },
    decreases supports.len(),
{
    if supports.len() > 0 {
        lemma_first_revealed(supports.drop_first());
        assert forall|j: int| 1 <= j < supports.len() implies supports[j] == supports.drop_first()[j - 1] by {}
    }
}

impl MatchView {
    pub open spec fn player(self, player: PlayerId) -> PlayerView {
        match player {
            PlayerId::PlayerA => self.player_a,
            PlayerId::PlayerB => self.player_b,
        }
    }

    pub open spec fn with_player(self, player: PlayerId, state: PlayerView) -> MatchView {
        match player {
            PlayerId::PlayerA => MatchView { player_a: state, ..self },
            PlayerId::PlayerB => MatchView { player_b: state, ..self },
        }
    }

    pub open spec fn side(self, player: PlayerId, is_magical_girl_side: bool) -> SideView {
        self.player(player).side(is_magical_girl_side)
    }

    pub open spec fn with_side(self, player: PlayerId, is_magical_girl_side: bool, side: SideView) -> MatchView {
        self.with_player(player, self.player(player).with_side(is_magical_girl_side, side))
    }

    /// The match after recording one log line.
    pub open spec fn log(self, line: Seq<char>) -> MatchView {
        MatchView { event_log: logged(self.event_log, line), ..self }
    }

    /// The definition of the card at `hand_index` in the player's hand.
    pub open spec fn card_in_hand(self, player: PlayerId, hand_index: int) -> Option<StoryCardDefinition> {
        let hand = self.player(player).hand;
        if 0 <= hand_index < hand.len() {
            card_lookup(self.story_cards, hand[hand_index]@)
        } else {
            None
        }
    }

    pub open spec fn has_hidden_support(self, player: PlayerId, is_magical_girl_side: bool) -> bool {
        exists|i: int| 0 <= i < self.side(player, is_magical_girl_side).supports.len()
            && !(#[trigger] self.side(player, is_magical_girl_side).supports[i]).revealed
    }

    pub open spec fn has_pending_support_reveal(self, player: PlayerId, is_magical_girl_side: bool) -> bool {
        exists|i: int| 0 <= i < self.reaction_stack.len() && (#[trigger] self.reaction_stack[i]).player == player
            && match self.reaction_stack[i].kind {
                StackItemKind::RevealSupport { is_magical_girl_side: side, .. } => side == is_magical_girl_side,
                _ => false,
            }
    }

    pub open spec fn has_pending_support_reveal_any(self, player: PlayerId) -> bool {
        exists|i: int| 0 <= i < self.reaction_stack.len() && (#[trigger] self.reaction_stack[i]).player == player
            && self.reaction_stack[i].kind is RevealSupport
    }

    /// A player may reveal one support per round, when none of theirs is already queued and
    /// the side still has a hidden support.
    pub open spec fn can_reveal_support(self, player: PlayerId, is_magical_girl_side: bool) -> bool {
        &&& self.player(player).supports_revealed_this_round == 0
        &&& !self.has_pending_support_reveal_any(player)
        &&& self.has_hidden_support(player, is_magical_girl_side)
    }

    pub open spec fn reaction_priority_player(self) -> Option<PlayerId> {
        match self.reaction_state {
            Some(state) => Some(state.priority_player),
            None => None,
        }
    }

    pub open spec fn proactive_priority_player(self) -> Option<PlayerId> {
        if self.reaction_state.is_none() && self.phase != MatchPhase::Finished {
            Some(self.priority_player)
        } else {
            None
        }
    }

    /// The speed of card the player may play now, if any.
    pub open spec fn expected_hand_speed(self, player: PlayerId) -> Option<CardSpeed> {
        if self.phase == MatchPhase::Finished {
            None
        } else if self.reaction_priority_player() == Some(player) {
            Some(CardSpeed::Reaction)
        } else if self.reaction_state.is_some() || self.priority_player != player {
            None
        } else {
            match self.phase {
                MatchPhase::DailyLife => Some(CardSpeed::DailyLife),
                MatchPhase::Encounter | MatchPhase::FinalClimax => {
                    if self.player(player).encounter_card_played {
                        None
                    } else {
                        Some(CardSpeed::Encounter)
                    }
                },
                MatchPhase::Finished => None,
            }
        }
    }

    /// Whether the card at `hand_index` has the given speed.
    pub open spec fn hand_card_has_speed(self, player: PlayerId, hand_index: int, speed: CardSpeed) -> bool {
        match self.card_in_hand(player, hand_index) {
            Some(card) => card.speed == speed,
            None => false,
        }
    }

    pub open spec fn can_play_hand_card(self, player: PlayerId, hand_index: int) -> bool {
        match self.expected_hand_speed(player) {
            Some(speed) => self.hand_card_has_speed(player, hand_index, speed),
            None => false,
        }
    }
}

} // verus!
