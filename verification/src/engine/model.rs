//! The rules of a match as functions from one match state to the next.

use vstd::prelude::*;

use super::match_engine::{EncounterOutcome, MatchAction};
use crate::data::{CardEffect, CardSpeed, StoryCardDefinition};
use crate::state::events::{
    logged_all, msg_baddies_hold, msg_declared_final_climax, msg_daily_life_ended, msg_exhausted,
    msg_failed_final_climax_power, msg_final_climax_draw, msg_final_climax_lost_exhausted,
    msg_final_climax_lost_no_exhaustion, msg_is_revealed, msg_magical_girls_win, msg_passed_daily_life,
    msg_passed_encounter, msg_passed_priority, msg_power_lost_this_encounter, msg_power_next_encounter,
    msg_power_this_encounter, msg_prime_defeated, msg_queued_card, msg_queued_reveal, msg_resolved,
    msg_resource_change, msg_revealed, msg_stage_change, msg_tie,
};
use crate::state::match_state::{
    card_lookup, first_hidden, first_revealed, lemma_first_revealed, MatchView, PlayerView, ReactionState, StackItem, StackItemKind,
};
use crate::state::runtime::{
    fits_i32, opponent, CharacterRuntimeState, CharacterStage, MatchPhase, PlayerId, ResourceKind, SideView,
    SupportState,
};

verus! {

/// The name under which a resource appears in the log.
pub open spec fn resource_label(resource: ResourceKind) -> Seq<char> {
    match resource {
        ResourceKind::Radiance => "Radiance"@,
        ResourceKind::Dread => "Dread"@,
    }
}

/// The log lines for one character's growth: the resource change, then the stage change,
/// each only when something changed.
pub open spec fn growth_lines(before: CharacterRuntimeState, after: CharacterRuntimeState, resource: ResourceKind) -> Seq<Seq<char>> {
    let b = before.resource_value(resource) as int;
    let a = after.resource_value(resource) as int;
    (if b != a { seq![msg_resource_change(before.name@, resource_label(resource), b, a)] } else { Seq::empty() })
        + (if before.stage != after.stage { seq![msg_stage_change(before.name@, before.stage, after.stage)] } else { Seq::empty() })
}

/// A support after growth, when it is revealed.
pub open spec fn support_grown(s: SupportState, resource: ResourceKind, amount: i32) -> SupportState {
    if s.revealed {
        SupportState { runtime: s.runtime.gained(resource, amount), ..s }
    } else {
        s
    }
}

/// The growth log lines of every revealed support, in order.
pub open spec fn supports_growth_lines(supports: Seq<SupportState>, resource: ResourceKind, amount: i32) -> Seq<Seq<char>>
    decreases supports.len(),
{
    if supports.len() == 0 {
        Seq::empty()
    } else {
        let s = supports.last();
        supports_growth_lines(supports.drop_last(), resource, amount) + (if s.revealed {
            growth_lines(s.runtime, s.runtime.gained(resource, amount), resource)
        } else {
            Seq::empty()
        })
    }
}

/// A support with more power this encounter, when it is revealed.
pub open spec fn support_powered(s: SupportState, amount: i32) -> SupportState {
    if s.revealed {
        SupportState {
            runtime: CharacterRuntimeState {
                temporary_power_bonus: (s.runtime.temporary_power_bonus + amount) as i32,
                ..s.runtime
            },
            ..s
        }
    } else {
        s
    }
}

/// The power log lines of every revealed support, in order.
pub open spec fn supports_power_lines(supports: Seq<SupportState>, amount: i32) -> Seq<Seq<char>>
    decreases supports.len(),
{
    if supports.len() == 0 {
        Seq::empty()
    } else {
        let s = supports.last();
        supports_power_lines(supports.drop_last(), amount) + (if s.revealed {
            seq![msg_power_this_encounter(s.runtime.name@, amount as int)]
        } else {
            Seq::empty()
        })
    }
}

/// Every revealed support may gain `amount` without leaving `i32`.
pub open spec fn supports_can_gain(supports: Seq<SupportState>, resource: ResourceKind, amount: i32) -> bool {
    forall|i: int| 0 <= i < supports.len() && #[trigger] supports[i].revealed ==> supports[i].runtime.can_gain(resource, amount)
}

/// Every revealed support may take `amount` more power without leaving `i32`.
pub open spec fn supports_can_power(supports: Seq<SupportState>, amount: i32) -> bool {
    forall|i: int| 0 <= i < supports.len() && #[trigger] supports[i].revealed
        ==> fits_i32(supports[i].runtime.temporary_power_bonus + amount)
}

/// A side after encounter growth: the main and every revealed support gain.
pub open spec fn side_granted(side: SideView, resource: ResourceKind, amount: i32) -> SideView {
    SideView {
        main: side.main.gained(resource, amount),
        supports: side.supports.map_values(|s: SupportState| support_grown(s, resource, amount)),
        ..side
    }
}

pub open spec fn side_grant_ok(side: SideView, resource: ResourceKind, amount: i32) -> bool {
    side.main.can_gain(resource, amount) && supports_can_gain(side.supports, resource, amount)
}

/// Who came out ahead, comparing the magical girls' power to the baddies'.
pub open spec fn outcome_of(magical_girl_power: int, baddie_power: int) -> EncounterOutcome {
    if magical_girl_power > baddie_power {
        EncounterOutcome::ActivePlayerWins
    } else if baddie_power > magical_girl_power {
        EncounterOutcome::DefendingPlayerWins
    } else {
        EncounterOutcome::Tie
    }
}

/// The effects of a story card; none when the id is unknown.
pub open spec fn card_effects(cards: Seq<StoryCardDefinition>, card_id: Seq<char>) -> Seq<CardEffect> {
    match card_lookup(cards, card_id) {
        Some(card) => card.effects@,
        None => Seq::empty(),
    }
}

impl MatchView {
    pub open spec fn log_all(self, lines: Seq<Seq<char>>) -> MatchView {
        MatchView { event_log: logged_all(self.event_log, lines), ..self }
    }

    pub open spec fn with_encounter_card_played(self, player: PlayerId) -> MatchView {
        self.with_player(player, PlayerView { encounter_card_played: true, ..self.player(player) })
    }

    /// A main character grows, and the change is logged.
    #[verifier::opaque]
    pub open spec fn main_growth(self, player: PlayerId, is_magical_girl_side: bool, resource: ResourceKind, amount: i32) -> MatchView {
        let side = self.side(player, is_magical_girl_side);
        let grown = side.main.gained(resource, amount);
        self.with_side(player, is_magical_girl_side, SideView { main: grown, ..side }).log_all(
            growth_lines(side.main, grown, resource),
        )
    }

    pub open spec fn main_growth_ok(self, player: PlayerId, is_magical_girl_side: bool, resource: ResourceKind, amount: i32) -> bool {
        self.side(player, is_magical_girl_side).main.can_gain(resource, amount)
    }

    /// Every revealed support of a side grows, and the changes are logged in order.
    #[verifier::opaque]
    pub open spec fn revealed_supports_growth(self, player: PlayerId, is_magical_girl_side: bool, resource: ResourceKind, amount: i32) -> MatchView {
        let side = self.side(player, is_magical_girl_side);
        self.with_side(
            player,
            is_magical_girl_side,
            SideView { supports: side.supports.map_values(|s: SupportState| support_grown(s, resource, amount)), ..side },
        ).log_all(supports_growth_lines(side.supports, resource, amount))
    }

    /// A main magical girl gains power for this encounter.
    #[verifier::opaque]
    pub open spec fn main_power_this_encounter(self, player: PlayerId, amount: i32) -> MatchView {
        let side = self.side(player, true);
        let main = CharacterRuntimeState { temporary_power_bonus: (side.main.temporary_power_bonus + amount) as i32, ..side.main };
        self.with_side(player, true, SideView { main, ..side }).log(msg_power_this_encounter(side.main.name@, amount as int))
    }

    /// A main magical girl gains power for the next encounter.
    #[verifier::opaque]
    pub open spec fn main_power_next_encounter(self, player: PlayerId, amount: i32) -> MatchView {
        let side = self.side(player, true);
        let main = CharacterRuntimeState { next_encounter_power_bonus: (side.main.next_encounter_power_bonus + amount) as i32, ..side.main };
        self.with_side(player, true, SideView { main, ..side }).log(msg_power_next_encounter(side.main.name@, amount as int))
    }

    /// The opponent's main magical girl loses power for this encounter.
    #[verifier::opaque]
    pub open spec fn opponent_power_loss(self, player: PlayerId, amount: i32) -> MatchView {
        let target = opponent(player);
        let side = self.side(target, true);
        let main = CharacterRuntimeState { temporary_power_bonus: (side.main.temporary_power_bonus - amount) as i32, ..side.main };
        self.with_side(target, true, SideView { main, ..side }).log(msg_power_lost_this_encounter(side.main.name@, amount as int))
    }

    /// The prime baddie gains power for this encounter.
    #[verifier::opaque]
    pub open spec fn prime_power_this_encounter(self, player: PlayerId, amount: i32) -> MatchView {
        let side = self.side(player, false);
        let main = CharacterRuntimeState { temporary_power_bonus: (side.main.temporary_power_bonus + amount) as i32, ..side.main };
        self.with_side(player, false, SideView { main, ..side }).log(msg_power_this_encounter(side.main.name@, amount as int))
    }

    /// Every revealed magical-girl support gains power for this encounter.
    #[verifier::opaque]
    pub open spec fn revealed_supports_power(self, player: PlayerId, amount: i32) -> MatchView {
        let side = self.side(player, true);
        self.with_side(
            player,
            true,
            SideView { supports: side.supports.map_values(|s: SupportState| support_powered(s, amount)), ..side },
        ).log_all(supports_power_lines(side.supports, amount))
    }

    /// The first revealed magical-girl support gains radiance.
    #[verifier::opaque]
    pub open spec fn first_revealed_support_radiance(self, player: PlayerId, amount: i32) -> MatchView {
        let side = self.side(player, true);
        match first_revealed(side.supports) {
            Some(i) => {
                let s = side.supports[i];
                let grown = s.runtime.gained(ResourceKind::Radiance, amount);
                self.with_side(
                    player,
                    true,
                    SideView { supports: side.supports.update(i, SupportState { runtime: grown, ..s }), ..side },
                ).log_all(growth_lines(s.runtime, grown, ResourceKind::Radiance))
            },
            None => self,
        }
    }

    /// The opponent's first revealed magical-girl support is exhausted and its abilities blocked.
    #[verifier::opaque]
    pub open spec fn exhaust_first_revealed_opponent_support(self, player: PlayerId) -> MatchView {
        let target = opponent(player);
        let side = self.side(target, true);
        match first_revealed(side.supports) {
            Some(i) => {
                let s = side.supports[i];
                let runtime = CharacterRuntimeState {
                    exhausted_until_next_encounter: true,
                    abilities_blocked_until_next_encounter: true,
                    ..s.runtime
                };
                self.with_side(
                    target,
                    true,
                    SideView { supports: side.supports.update(i, SupportState { runtime, ..s }), ..side },
                ).log(msg_exhausted(s.runtime.name@))
            },
            None => self,
        }
    }

    /// The player's first hidden magical-girl support is revealed, unless the player already
    /// revealed a support this round.
    #[verifier::opaque]
    pub open spec fn reveal_first_hidden_own_support(self, player: PlayerId) -> MatchView {
        if self.player(player).supports_revealed_this_round > 0 {
            self
        } else {
            let side = self.side(player, true);
            match first_hidden(side.supports) {
                Some(i) => {
                    let s = side.supports[i];
                    let revealed = self.with_side(
                        player,
                        true,
                        SideView { supports: side.supports.update(i, SupportState { revealed: true, ..s }), ..side },
                    );
                    revealed.with_player(
                        player,
                        PlayerView { supports_revealed_this_round: 1, ..revealed.player(player) },
                    ).log(msg_is_revealed(s.runtime.name@))
                },
                None => self,
            }
        }
    }

    /// The match after one card effect resolves for `player`.
    #[verifier::opaque]
    pub open spec fn effect_applied(self, player: PlayerId, effect: CardEffect) -> MatchView {
        match effect {
            CardEffect::GainMainRadiance { amount } => self.main_growth(player, true, ResourceKind::Radiance, amount),
            CardEffect::GainRevealedSupportRadiance { amount } => self.revealed_supports_growth(player, true, ResourceKind::Radiance, amount),
            CardEffect::ReduceOpponentMainRadiance { amount } => self.main_growth(opponent(player), true, ResourceKind::Radiance, (-amount) as i32),
            CardEffect::GainPrimeDread { amount } => self.main_growth(player, false, ResourceKind::Dread, amount),
            CardEffect::GainRevealedSupportDread { amount } => self.revealed_supports_growth(player, false, ResourceKind::Dread, amount),
            CardEffect::ReduceOpponentPrimeDread { amount } => self.main_growth(opponent(player), false, ResourceKind::Dread, (-amount) as i32),
            CardEffect::GainMainPowerThisEncounter { amount } => self.main_power_this_encounter(player, amount),
            CardEffect::GainMainPowerNextEncounter { amount } => self.main_power_next_encounter(player, amount),
            CardEffect::ReduceOpponentMainPowerThisEncounter { amount } => self.opponent_power_loss(player, amount),
            CardEffect::GainPrimePowerThisEncounter { amount } => self.prime_power_this_encounter(player, amount),
            CardEffect::GainRevealedSupportPowerThisEncounter { amount } => self.revealed_supports_power(player, amount),
            CardEffect::GainFirstRevealedSupportRadiance { amount } => self.first_revealed_support_radiance(player, amount),
            CardEffect::ExhaustFirstRevealedOpponentSupport => self.exhaust_first_revealed_opponent_support(player),
            CardEffect::RevealFirstHiddenOwnSupport => self.reveal_first_hidden_own_support(player),
        }
    }

    /// Whether the effect's arithmetic stays within `i32`.
    #[verifier::opaque]
    pub open spec fn effect_ok(self, player: PlayerId, effect: CardEffect) -> bool {
        match effect {
            CardEffect::GainMainRadiance { amount } => self.main_growth_ok(player, true, ResourceKind::Radiance, amount),
            CardEffect::GainRevealedSupportRadiance { amount } => supports_can_gain(self.side(player, true).supports, ResourceKind::Radiance, amount),
            CardEffect::ReduceOpponentMainRadiance { amount } => amount != i32::MIN
                && self.main_growth_ok(opponent(player), true, ResourceKind::Radiance, (-amount) as i32),
            CardEffect::GainPrimeDread { amount } => self.main_growth_ok(player, false, ResourceKind::Dread, amount),
            CardEffect::GainRevealedSupportDread { amount } => supports_can_gain(self.side(player, false).supports, ResourceKind::Dread, amount),
            CardEffect::ReduceOpponentPrimeDread { amount } => amount != i32::MIN
                && self.main_growth_ok(opponent(player), false, ResourceKind::Dread, (-amount) as i32),
            CardEffect::GainMainPowerThisEncounter { amount } => fits_i32(self.side(player, true).main.temporary_power_bonus + amount),
            CardEffect::GainMainPowerNextEncounter { amount } => fits_i32(self.side(player, true).main.next_encounter_power_bonus + amount),
            CardEffect::ReduceOpponentMainPowerThisEncounter { amount } => fits_i32(self.side(opponent(player), true).main.temporary_power_bonus - amount),
            CardEffect::GainPrimePowerThisEncounter { amount } => fits_i32(self.side(player, false).main.temporary_power_bonus + amount),
            CardEffect::GainRevealedSupportPowerThisEncounter { amount } => supports_can_power(self.side(player, true).supports, amount),
            CardEffect::GainFirstRevealedSupportRadiance { amount } => match first_revealed(self.side(player, true).supports) {
                Some(i) => self.side(player, true).supports[i].runtime.can_gain(ResourceKind::Radiance, amount),
                None => true,
            },
            _ => true,
        }
    }

    /// The match after each effect resolves in order.
    #[verifier::opaque]
    pub open spec fn effects_applied(self, player: PlayerId, effects: Seq<CardEffect>) -> MatchView
        decreases effects.len(),
    {
        if effects.len() == 0 {
            self
        } else {
            self.effect_applied(player, effects[0]).effects_applied(player, effects.drop_first())
        }
    }

    #[verifier::opaque]
    pub open spec fn effects_ok(self, player: PlayerId, effects: Seq<CardEffect>) -> bool
        decreases effects.len(),
    {
        effects.len() == 0 || (self.effect_ok(player, effects[0])
            && self.effect_applied(player, effects[0]).effects_ok(player, effects.drop_first()))
    }

    /// The match after one stack item resolves: a card's effects apply, or a queued support
    /// is revealed if it is still hidden.
    #[verifier::opaque]
    pub open spec fn item_resolved(self, item: StackItem) -> MatchView {
        match item.kind {
            StackItemKind::PlayCard { card_id, card_name } => {
                let applied = self.effects_applied(item.player, card_effects(self.story_cards, card_id@));
                MatchView { last_played_card_name: Some(card_name), ..applied }.log(msg_resolved(item.player, card_name@))
            },
            StackItemKind::RevealSupport { is_magical_girl_side, support_index } => {
                let side = self.side(item.player, is_magical_girl_side);
                if support_index < side.supports.len() && !side.supports[support_index as int].revealed {
                    let s = side.supports[support_index as int];
                    self.with_side(
                        item.player,
                        is_magical_girl_side,
                        SideView { supports: side.supports.update(support_index as int, SupportState { revealed: true, ..s }), ..side },
                    ).log(msg_revealed(item.player, s.runtime.name@))
                } else {
                    self
                }
            },
        }
    }

    #[verifier::opaque]
    pub open spec fn item_ok(self, item: StackItem) -> bool {
        match item.kind {
            StackItemKind::PlayCard { card_id, .. } => self.effects_ok(item.player, card_effects(self.story_cards, card_id@)),
            _ => true,
        }
    }

    /// The match with the top item removed from the stack.
    pub open spec fn popped(self) -> MatchView {
        MatchView { reaction_stack: self.reaction_stack.drop_last(), ..self }
    }

    /// The match after every stack item resolves, newest first.
    #[verifier::opaque]
    pub open spec fn stack_resolved(self) -> MatchView
        decreases self.reaction_stack.len(),
    {
        if self.reaction_stack.len() == 0 {
            self
        } else {
            proof { lemma_item_keeps_stack(self.popped(), self.reaction_stack.last()); }
            self.popped().item_resolved(self.reaction_stack.last()).stack_resolved()
        }
    }

    #[verifier::opaque]
    pub open spec fn stack_ok(self) -> bool
        decreases self.reaction_stack.len(),
    {
        if self.reaction_stack.len() == 0 {
            true
        } else {
            proof { lemma_item_keeps_stack(self.popped(), self.reaction_stack.last()); }
            self.popped().item_ok(self.reaction_stack.last())
                && self.popped().item_resolved(self.reaction_stack.last()).stack_ok()
        }
    }

    /// What resolving the stack leaves behind for the item at its bottom: a card or reveal made
    /// with priority (not as a reaction) hands priority to the other player.
    pub open spec fn root_finalized(self, root: StackItem) -> MatchView {
        if root.is_reaction {
            self
        } else {
            match root.resolves_in_phase {
                MatchPhase::DailyLife => MatchView { phase_passes: 0, priority_player: opponent(root.player), ..self },
                MatchPhase::Encounter | MatchPhase::FinalClimax => MatchView {
                    phase_passes: 0,
                    priority_player: opponent(root.player),
                    ..self.with_encounter_card_played(root.player)
                },
                MatchPhase::Finished => self,
            }
        }
    }

    /// The reaction window closes and the whole stack resolves.
    #[verifier::opaque]
    pub open spec fn stack_closed(self) -> MatchView {
        let cleared = MatchView { reaction_state: None, ..self };
        if self.reaction_stack.len() == 0 {
            cleared
        } else {
            cleared.stack_resolved().root_finalized(self.reaction_stack[0])
        }
    }

    #[verifier::opaque]
    pub open spec fn stack_closed_ok(self) -> bool {
        MatchView { reaction_state: None, ..self }.stack_ok()
    }

    /// The player passes reaction priority; two passes in a row resolve the stack.
    #[verifier::opaque]
    pub open spec fn reaction_passed(self, player: PlayerId) -> MatchView {
        match self.reaction_state {
            Some(rs) => {
                if rs.priority_player != player {
                    self
                } else {
                    let passes = (rs.passes_in_row + 1) as u8;
                    let counted = MatchView { reaction_state: Some(ReactionState { passes_in_row: passes, ..rs }), ..self }
                        .log(msg_passed_priority(player));
                    if passes >= 2 {
                        counted.stack_closed()
                    } else {
                        MatchView {
                            reaction_state: Some(ReactionState { priority_player: opponent(player), passes_in_row: passes }),
                            ..counted
                        }
                    }
                }
            },
            None => self,
        }
    }

    #[verifier::opaque]
    pub open spec fn reaction_passed_ok(self, player: PlayerId) -> bool {
        match self.reaction_state {
            Some(rs) => rs.priority_player == player ==> {
                let passes = (rs.passes_in_row + 1) as u8;
                let counted = MatchView { reaction_state: Some(ReactionState { passes_in_row: passes, ..rs }), ..self }
                    .log(msg_passed_priority(player));
                rs.passes_in_row < u8::MAX && (passes >= 2 ==> counted.stack_closed_ok())
            },
            None => true,
        }
    }

    /// Final Climax may be declared in an encounter, outside a reaction window, by the active
    /// player holding priority with a Radiant main magical girl, once.
    pub open spec fn can_declare_final_climax(self) -> bool {
        &&& self.reaction_state.is_none()
        &&& (self.phase == MatchPhase::Encounter || self.phase == MatchPhase::FinalClimax)
        &&& self.priority_player == self.active_player
        &&& self.side(self.active_player, true).main.stage == CharacterStage::Radiant
        &&& !self.final_climax_active
    }

    #[verifier::opaque]
    pub open spec fn final_climax_declared(self) -> MatchView {
        if self.can_declare_final_climax() {
            MatchView { final_climax_active: true, phase: MatchPhase::FinalClimax, ..self }.log(
                msg_declared_final_climax(self.active_player),
            )
        } else {
            self
        }
    }

    /// The player with priority passes Daily Life; the second pass in a row starts the encounter.
    #[verifier::opaque]
    pub open spec fn daily_life_passed(self, player: PlayerId) -> MatchView {
        if self.reaction_state.is_none() && self.phase == MatchPhase::DailyLife && self.priority_player == player {
            if self.phase_passes + 1 >= 2 {
                MatchView {
                    phase: MatchPhase::Encounter,
                    priority_player: self.active_player,
                    phase_passes: 0,
                    ..self
                }.log(msg_daily_life_ended())
            } else {
                MatchView { phase_passes: (self.phase_passes + 1) as u8, priority_player: opponent(player), ..self }.log(
                    msg_passed_daily_life(player),
                )
            }
        } else {
            self
        }
    }

    #[verifier::opaque]
    pub open spec fn daily_life_passed_ok(self, player: PlayerId) -> bool {
        self.reaction_state.is_none() && self.phase == MatchPhase::DailyLife && self.priority_player == player
            ==> self.phase_passes < u8::MAX
    }

    pub open spec fn encounter_pass_counted(self, player: PlayerId) -> MatchView {
        MatchView { phase_passes: (self.phase_passes + 1) as u8, ..self.with_encounter_card_played(player) }.log(
            msg_passed_encounter(player),
        )
    }

    pub open spec fn encounter_pass_allowed(self, player: PlayerId) -> bool {
        self.reaction_state.is_none() && (self.phase == MatchPhase::Encounter || self.phase == MatchPhase::FinalClimax)
            && self.priority_player == player
    }

    /// The player with priority passes the encounter: they count as having played their
    /// encounter card, and the second pass in a row completes the encounter.
    #[verifier::opaque]
    pub open spec fn encounter_passed(self, player: PlayerId) -> MatchView {
        if !self.encounter_pass_allowed(player) {
            self
        } else {
            let counted = self.encounter_pass_counted(player);
            if counted.phase_passes >= 2 {
                counted.encounter_completed()
            } else {
                MatchView { priority_player: opponent(player), ..counted }
            }
        }
    }

    #[verifier::opaque]
    pub open spec fn encounter_passed_ok(self, player: PlayerId) -> bool {
        self.encounter_pass_allowed(player) ==> {
            &&& self.phase_passes < u8::MAX
            &&& self.encounter_pass_counted(player).phase_passes >= 2 ==> self.encounter_pass_counted(player).encounter_completed_ok()
        }
    }

    /// The card at `card_index` leaves the hand for the discard pile and goes on the stack;
    /// the other player gets reaction priority.
    #[verifier::opaque]
    pub open spec fn card_queued(self, player: PlayerId, card_index: int, is_reaction: bool) -> MatchView {
        match self.card_in_hand(player, card_index) {
            Some(card) => {
                let p = self.player(player);
                let card_id = p.hand[card_index];
                let moved = self.with_player(player, PlayerView { hand: p.hand.remove(card_index), discard: p.discard.push(card_id), ..p });
                MatchView {
                    reaction_stack: moved.reaction_stack.push(
                        StackItem {
                            player,
                            is_reaction,
                            resolves_in_phase: self.phase,
                            kind: StackItemKind::PlayCard { card_id, card_name: card.name },
                        },
                    ),
                    reaction_state: Some(ReactionState { priority_player: opponent(player), passes_in_row: 0 }),
                    ..moved
                }.log(msg_queued_card(player, card.name@))
            },
            None => self,
        }
    }

    /// Playing the card at `hand_index`, when it has the speed the moment allows.
    #[verifier::opaque]
    pub open spec fn selected_card_queued(self, player: PlayerId, hand_index: int) -> MatchView {
        match self.card_in_hand(player, hand_index) {
            Some(card) => match self.expected_hand_speed(player) {
                Some(speed) => if card.speed == speed {
                    self.card_queued(player, hand_index, speed == CardSpeed::Reaction)
                } else {
                    self
                },
                None => self,
            },
            None => self,
        }
    }

    /// Queueing a reveal of the first hidden support on a side, when the player holds priority
    /// (or reaction priority) and may reveal a support.
    #[verifier::opaque]
    pub open spec fn support_reveal_queued(self, player: PlayerId, is_magical_girl_side: bool) -> MatchView {
        let is_reaction = self.reaction_priority_player() == Some(player);
        if self.phase == MatchPhase::Finished || (!is_reaction && self.priority_player != player)
            || !self.can_reveal_support(player, is_magical_girl_side) {
            self
        } else {
            match first_hidden(self.side(player, is_magical_girl_side).supports) {
                Some(index) => {
                    let marked = self.with_player(
                        player,
                        PlayerView { supports_revealed_this_round: (self.player(player).supports_revealed_this_round + 1) as u8, ..self.player(player) },
                    );
                    MatchView {
                        reaction_stack: marked.reaction_stack.push(
                            StackItem {
                                player,
                                is_reaction,
                                resolves_in_phase: self.phase,
                                kind: StackItemKind::RevealSupport { is_magical_girl_side, support_index: index as usize },
                            },
                        ),
                        reaction_state: Some(ReactionState { priority_player: opponent(player), passes_in_row: 0 }),
                        ..marked
                    }.log(msg_queued_reveal(player))
                },
                None => self,
            }
        }
    }

    /// One side of a player grows.
    pub open spec fn side_grown(self, player: PlayerId, is_magical_girl_side: bool, resource: ResourceKind, amount: i32) -> MatchView {
        self.with_side(player, is_magical_girl_side, side_granted(self.side(player, is_magical_girl_side), resource, amount))
    }

    /// Growth after a decided encounter: the winner's side gains the win amount and the
    /// loser's side the loss amount.
    #[verifier::opaque]
    pub open spec fn decided_growth(self, attacker: PlayerId, defender: PlayerId, magical_girl_gain: i32, baddie_gain: i32) -> MatchView {
        self.side_grown(attacker, true, ResourceKind::Radiance, magical_girl_gain).side_grown(
            defender,
            false,
            ResourceKind::Dread,
            baddie_gain,
        )
    }

    #[verifier::opaque]
    pub open spec fn decided_growth_ok(self, attacker: PlayerId, defender: PlayerId, magical_girl_gain: i32, baddie_gain: i32) -> bool {
        side_grant_ok(self.side(attacker, true), ResourceKind::Radiance, magical_girl_gain)
            && side_grant_ok(self.side_grown(attacker, true, ResourceKind::Radiance, magical_girl_gain).side(defender, false), ResourceKind::Dread, baddie_gain)
    }

    /// Growth after a tie: each side gains the tie amount unless its main is already in its final form.
    #[verifier::opaque]
    pub open spec fn tie_growth(self, attacker: PlayerId, defender: PlayerId) -> MatchView {
        let tie = self.rules.encounter_tie_gain;
        let v1 = if self.side(self.active_player, true).main.stage != CharacterStage::Radiant {
            self.side_grown(attacker, true, ResourceKind::Radiance, tie)
        } else {
            self
        };
        if v1.side(opponent(v1.active_player), false).main.stage != CharacterStage::Catastrophe {
            v1.side_grown(defender, false, ResourceKind::Dread, tie)
        } else {
            v1
        }
    }

    #[verifier::opaque]
    pub open spec fn tie_growth_ok(self, attacker: PlayerId, defender: PlayerId) -> bool {
        let tie = self.rules.encounter_tie_gain;
        let grows_mg = self.side(self.active_player, true).main.stage != CharacterStage::Radiant;
        let v1 = if grows_mg { self.side_grown(attacker, true, ResourceKind::Radiance, tie) } else { self };
        (grows_mg ==> side_grant_ok(self.side(attacker, true), ResourceKind::Radiance, tie))
            && (v1.side(opponent(v1.active_player), false).main.stage != CharacterStage::Catastrophe
                ==> side_grant_ok(v1.side(defender, false), ResourceKind::Dread, tie))
    }

    /// Encounter growth for the attacker's magical girls and the defender's baddies, then the
    /// outcome is logged.
    #[verifier::opaque]
    pub open spec fn encounter_growth(self, attacker: PlayerId, defender: PlayerId, outcome: EncounterOutcome) -> MatchView {
        let win = self.rules.encounter_win_gain;
        let loss = self.rules.encounter_loss_gain;
        match outcome {
            EncounterOutcome::ActivePlayerWins => self.decided_growth(attacker, defender, win, loss).log(
                msg_magical_girls_win(attacker, defender),
            ),
            EncounterOutcome::DefendingPlayerWins => self.decided_growth(attacker, defender, loss, win).log(
                msg_baddies_hold(defender, attacker),
            ),
            EncounterOutcome::Tie => self.tie_growth(attacker, defender).log(msg_tie()),
        }
    }

    #[verifier::opaque]
    pub open spec fn encounter_growth_ok(self, attacker: PlayerId, defender: PlayerId, outcome: EncounterOutcome) -> bool {
        let win = self.rules.encounter_win_gain;
        let loss = self.rules.encounter_loss_gain;
        match outcome {
            EncounterOutcome::ActivePlayerWins => self.decided_growth_ok(attacker, defender, win, loss),
            EncounterOutcome::DefendingPlayerWins => self.decided_growth_ok(attacker, defender, loss, win),
            EncounterOutcome::Tie => self.tie_growth_ok(attacker, defender),
        }
    }

    /// A Final Climax win: the defender's Prime Baddie is defeated and the match ends.
    pub open spec fn final_climax_won(self, attacker: PlayerId, defender: PlayerId) -> MatchView {
        MatchView {
            phase: MatchPhase::Finished,
            prime_baddie_defeated: true,
            defeated_prime_owner: Some(defender),
            winner: Some(attacker),
            ..self
        }.log(msg_prime_defeated(defender))
    }

    /// The attacker's main magical girl gains +1 power for the next Final Climax attempt.
    pub open spec fn failed_final_climax_powered(self, attacker: PlayerId) -> MatchView {
        let side = self.side(attacker, true);
        let main = CharacterRuntimeState { failed_final_climax_power_bonus: (side.main.failed_final_climax_power_bonus + 1) as i32, ..side.main };
        self.with_side(attacker, true, SideView { main, ..side }).log(msg_failed_final_climax_power(side.main.name@))
    }

    /// A lost Final Climax exhausts the active main magical girl, unless the defender's main
    /// magical girl is Radiant as well.
    pub open spec fn final_climax_lost(self, attacker: PlayerId, defender: PlayerId) -> MatchView {
        if self.side(defender, true).main.stage != CharacterStage::Radiant {
            let active = self.side(self.active_player, true);
            let exhausted = CharacterRuntimeState {
                exhausted_until_next_encounter: true,
                abilities_blocked_until_next_encounter: true,
                ..active.main
            };
            self.with_side(self.active_player, true, SideView { main: exhausted, ..active }).log(
                msg_final_climax_lost_exhausted(attacker),
            )
        } else {
            self.log(msg_final_climax_lost_no_exhaustion(attacker))
        }
    }

    /// The consequences of a Final Climax encounter: a win defeats the defender's Prime Baddie
    /// and ends the match; otherwise the attacker's main magical girl gains +1 power for the
    /// next attempt, and a loss exhausts it unless the defender's main magical girl is Radiant too.
    #[verifier::opaque]
    pub open spec fn final_climax_result(self, attacker: PlayerId, defender: PlayerId, magical_girl_power: int, baddie_power: int) -> MatchView {
        if !self.final_climax_active {
            self
        } else if magical_girl_power > baddie_power {
            self.final_climax_won(attacker, defender)
        } else {
            let v1 = self.failed_final_climax_powered(attacker);
            if magical_girl_power < baddie_power {
                v1.final_climax_lost(attacker, defender)
            } else {
                v1.log(msg_final_climax_draw(attacker))
            }
        }
    }

    #[verifier::opaque]
    pub open spec fn final_climax_result_ok(self, attacker: PlayerId, magical_girl_power: int, baddie_power: int) -> bool {
        self.final_climax_active && magical_girl_power <= baddie_power
            ==> fits_i32(self.side(attacker, true).main.failed_final_climax_power_bonus + 1)
    }

    /// The outcome of the current encounter.
    pub open spec fn encounter_outcome(self) -> EncounterOutcome {
        outcome_of(
            self.side(self.active_player, true).total_power(),
            self.side(opponent(self.active_player), false).total_power(),
        )
    }

    /// The match after the encounter's power is compared: growth is granted and any
    /// Final Climax is settled.
    #[verifier::opaque]
    pub open spec fn encounter_resolved(self) -> MatchView {
        let attacker = self.active_player;
        let defender = opponent(attacker);
        let magical_girl_power = self.side(attacker, true).total_power();
        let baddie_power = self.side(defender, false).total_power();
        self.encounter_growth(attacker, defender, self.encounter_outcome()).final_climax_result(
            attacker,
            defender,
            magical_girl_power,
            baddie_power,
        )
    }

    #[verifier::opaque]
    pub open spec fn encounter_resolved_ok(self) -> bool {
        let attacker = self.active_player;
        let defender = opponent(attacker);
        &&& self.side(attacker, true).power_fits()
        &&& self.side(defender, false).power_fits()
        &&& self.encounter_growth_ok(attacker, defender, self.encounter_outcome())
        &&& self.encounter_growth(attacker, defender, self.encounter_outcome()).final_climax_result_ok(
            attacker,
            self.side(attacker, true).total_power(),
            self.side(defender, false).total_power(),
        )
    }

    /// The encounter completes: it is resolved, the round advances, the phase returns to
    /// Daily Life (or stays in Final Climax) unless the match ended, bonuses clear and the
    /// round ends.
    #[verifier::opaque]
    pub open spec fn encounter_completed(self) -> MatchView {
        let resolved = self.encounter_resolved();
        let counted = MatchView { last_outcome: Some(self.encounter_outcome()), round: (resolved.round + 1) as u32, ..resolved };
        let phased = if counted.phase != MatchPhase::Finished {
            MatchView {
                phase: if counted.final_climax_active { MatchPhase::FinalClimax } else { MatchPhase::DailyLife },
                ..counted
            }
        } else {
            counted
        };
        phased.bonuses_cleared().end_of_round()
    }

    #[verifier::opaque]
    pub open spec fn encounter_completed_ok(self) -> bool {
        self.encounter_resolved_ok() && self.encounter_resolved().round < u32::MAX
    }

    /// Resolving the encounter on request, outside a reaction window during an encounter.
    pub open spec fn encounter_resolution_requested(self) -> MatchView {
        if self.reaction_state.is_none() && (self.phase == MatchPhase::Encounter || self.phase == MatchPhase::FinalClimax) {
            self.encounter_completed()
        } else {
            self
        }
    }

    /// The match after an action.
    pub open spec fn after_action(self, action: MatchAction) -> MatchView {
        match action {
            MatchAction::ResolveEncounter => self.encounter_resolution_requested(),
            MatchAction::DeclareFinalClimax => self.final_climax_declared(),
            MatchAction::PlayCardFromHand { player, hand_index } => self.selected_card_queued(player, hand_index as int),
            MatchAction::RevealFirstHiddenSupport { player, is_magical_girl_side } => self.support_reveal_queued(player, is_magical_girl_side),
            MatchAction::PassDailyLife { player } => self.daily_life_passed(player),
            MatchAction::PassEncounter { player } => self.encounter_passed(player),
            MatchAction::PassReaction { player } => self.reaction_passed(player),
        }
    }

    /// Whether the action's arithmetic stays within the integer types of the state.
    pub open spec fn action_ok(self, action: MatchAction) -> bool {
        match action {
            MatchAction::ResolveEncounter => self.reaction_state.is_none()
                && (self.phase == MatchPhase::Encounter || self.phase == MatchPhase::FinalClimax)
                ==> self.encounter_completed_ok(),
            MatchAction::PassDailyLife { player } => self.daily_life_passed_ok(player),
            MatchAction::PassEncounter { player } => self.encounter_passed_ok(player),
            MatchAction::PassReaction { player } => self.reaction_passed_ok(player),
            _ => true,
        }
    }
}

/// Exhausting the first revealed opposing support touches only the opponent's magical-girl
/// supports: the acting player and the opponent's baddies stay as they are, the supports keep
/// their number and their revealed flags, the opponent's first revealed support is exhausted
/// and blocked until the next encounter, and every other support keeps its state.
pub proof fn lemma_exhaust_hits_only_the_opponent(v: MatchView, player: PlayerId)
    ensures
        ({
            let next = v.exhaust_first_revealed_opponent_support(player);
            let target = opponent(player);
            let before = v.side(target, true).supports;
            let after = next.side(target, true).supports;
            &&& next.player(player) == v.player(player)
            &&& next.side(target, false) == v.side(target, false)
            &&& next.side(target, true).main == v.side(target, true).main
            &&& after.len() == before.len()
            &&& forall|i: int| 0 <= i < before.len() ==> (#[trigger] after[i]).revealed == before[i].revealed
            &&& forall|i: int|
                0 <= i < before.len() && before[i].revealed && (forall|j: int| 0 <= j < i ==> !before[j].revealed) ==> {
                    &&& (#[trigger] after[i]).runtime.exhausted_until_next_encounter
                    &&& after[i].runtime.abilities_blocked_until_next_encounter
                }
            &&& forall|i: int|
                0 <= i < before.len() && !(before[i].revealed && (forall|j: int| 0 <= j < i ==> !before[j].revealed))
                    ==> #[trigger] after[i] == before[i]
        }),
{
    reveal(MatchView::exhaust_first_revealed_opponent_support);
    let target = opponent(player);
    let before = v.side(target, true).supports;
    lemma_first_revealed(before);
    assert(opponent(player) != player);
    match first_revealed(before) {
        Some(k) => {
            assert forall|i: int|
                0 <= i < before.len() && before[i].revealed && (forall|j: int| 0 <= j < i ==> !before[j].revealed)
                implies i == k by {
                if i < k {
                    assert(!before[i].revealed);
                } else if i > k {
                    assert(!before[k].revealed);
                }
            }
        },
        None => {},
    }
}

/// Applying one card effect never touches the reaction stack.
pub proof fn lemma_effect_keeps_stack(v: MatchView, player: PlayerId, effect: CardEffect)
    ensures
        v.effect_applied(player, effect).reaction_stack == v.reaction_stack,
{
    reveal(MatchView::effect_applied);
    reveal(MatchView::main_growth);
    reveal(MatchView::revealed_supports_growth);
    reveal(MatchView::first_revealed_support_radiance);
    reveal(MatchView::exhaust_first_revealed_opponent_support);
    reveal(MatchView::reveal_first_hidden_own_support);
    reveal(MatchView::revealed_supports_power);
    reveal(MatchView::main_power_this_encounter);
    reveal(MatchView::main_power_next_encounter);
    reveal(MatchView::opponent_power_loss);
    reveal(MatchView::prime_power_this_encounter);
}

pub proof fn lemma_effects_keep_stack(v: MatchView, player: PlayerId, effects: Seq<CardEffect>)
    ensures
        v.effects_applied(player, effects).reaction_stack == v.reaction_stack,
    decreases effects.len(),
{
    reveal(MatchView::effects_applied);
    if effects.len() > 0 {
        lemma_effect_keeps_stack(v, player, effects[0]);
        lemma_effects_keep_stack(v.effect_applied(player, effects[0]), player, effects.drop_first());
    }
}

/// Resolving a stack item never touches the reaction stack.
pub proof fn lemma_item_keeps_stack(v: MatchView, item: StackItem)
    ensures
        v.item_resolved(item).reaction_stack == v.reaction_stack,
{
    reveal(MatchView::item_resolved);
    match item.kind {
        StackItemKind::PlayCard { card_id, card_name } => {
            lemma_effects_keep_stack(v, item.player, card_effects(v.story_cards, card_id@));
        },
        _ => {},
    }
}


} // verus!
