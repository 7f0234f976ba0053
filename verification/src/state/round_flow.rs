//! End-of-round bookkeeping, drawing and the match log.

use vstd::prelude::*;

use super::events::{line_discarded, line_round_draw, logged, msg_discarded, msg_round_draw};
use super::match_state::{log_text, MatchState, MatchView, PlayerView};
use super::runtime::{opponent, opposing, CharacterRuntimeState, MatchPhase, PlayerId, SideState, SideView, SupportState};

verus! {

/// The most cards a hand keeps at the end of a round.
pub open spec fn hand_limit() -> nat {
    7
}

/// How many cards each player draws at the start of a round.
pub open spec fn round_start_draw() -> nat {
    2
}

/// A character made ready for the next round: the bonus saved for the next encounter
/// becomes this encounter's bonus, and exhaustion and blocked abilities end.
pub open spec fn readied(c: CharacterRuntimeState) -> CharacterRuntimeState {
    CharacterRuntimeState {
        temporary_power_bonus: c.next_encounter_power_bonus,
        next_encounter_power_bonus: 0,
        exhausted_until_next_encounter: false,
        abilities_blocked_until_next_encounter: false,
        ..c
    }
}

pub open spec fn support_readied(s: SupportState) -> SupportState {
    SupportState { runtime: readied(s.runtime), ..s }
}

pub open spec fn side_readied(side: SideView) -> SideView {
    SideView {
        main: readied(side.main),
        supports: side.supports.map_values(|s: SupportState| support_readied(s)),
        ..side
    }
}

/// A character without this encounter's power bonus.
pub open spec fn bonus_cleared(c: CharacterRuntimeState) -> CharacterRuntimeState {
    CharacterRuntimeState { temporary_power_bonus: 0, ..c }
}

pub open spec fn support_bonus_cleared(s: SupportState) -> SupportState {
    SupportState { runtime: bonus_cleared(s.runtime), ..s }
}

pub open spec fn side_bonuses_cleared(side: SideView) -> SideView {
    SideView {
        main: bonus_cleared(side.main),
        supports: side.supports.map_values(|s: SupportState| support_bonus_cleared(s)),
        ..side
    }
}

/// A player made ready for the next round.
pub open spec fn player_readied(p: PlayerView) -> PlayerView {
    PlayerView {
        magical_girls: side_readied(p.magical_girls),
        baddies: side_readied(p.baddies),
        encounter_card_played: false,
        supports_revealed_this_round: 0,
        ..p
    }
}

pub open spec fn player_bonuses_cleared(p: PlayerView) -> PlayerView {
    PlayerView {
        magical_girls: side_bonuses_cleared(p.magical_girls),
        baddies: side_bonuses_cleared(p.baddies),
        ..p
    }
}

/// How many cards a hand of `len` cards must discard to keep `max` of them.
pub open spec fn overflow_count(len: nat, max: nat) -> nat {
    if len > max { (len - max) as nat } else { 0 }
}

impl MatchView {
    /// The player's hand cut down to `max` cards; the oldest cards go to the discard pile in order.
    pub open spec fn player_discarded_down(self, player: PlayerId, max: nat) -> MatchView {
        let p = self.player(player);
        let n = overflow_count(p.hand.len(), max);
        if n == 0 {
            self
        } else {
            self.with_player(
                player,
                PlayerView { hand: p.hand.subrange(n as int, p.hand.len() as int), discard: p.discard + p.hand.subrange(0, n as int), ..p },
            ).log(msg_discarded(player, n, max))
        }
    }

    pub open spec fn discarded_down(self, max: nat) -> MatchView {
        self.player_discarded_down(PlayerId::PlayerA, max).player_discarded_down(PlayerId::PlayerB, max)
    }

    /// How many cards drawing `count` takes: as many as the deck holds, at most `count`.
    pub open spec fn draw_count(self, player: PlayerId, count: nat) -> nat {
        let deck_len = self.player(player).deck.len();
        if count < deck_len { count } else { deck_len }
    }

    /// The match after the player draws: the top cards of the deck go to the end of the hand.
    pub open spec fn drawn(self, player: PlayerId, count: nat) -> MatchView {
        let p = self.player(player);
        let n = self.draw_count(player, count);
        self.with_player(
            player,
            PlayerView { deck: p.deck.subrange(n as int, p.deck.len() as int), hand: p.hand + p.deck.subrange(0, n as int), ..p },
        )
    }

    /// Both players draw at the start of a round, and the draw is logged.
    pub open spec fn round_start_drawn(self) -> MatchView {
        let a = self.draw_count(PlayerId::PlayerA, round_start_draw());
        let after_a = self.drawn(PlayerId::PlayerA, round_start_draw());
        let b = after_a.draw_count(PlayerId::PlayerB, round_start_draw());
        after_a.drawn(PlayerId::PlayerB, round_start_draw()).log(msg_round_draw(self.round as nat, a, b))
    }

    pub open spec fn bonuses_cleared(self) -> MatchView {
        MatchView {
            player_a: player_bonuses_cleared(self.player_a),
            player_b: player_bonuses_cleared(self.player_b),
            ..self
        }
    }

    /// The match at the end of a round: hands are cut to the limit, both players are made
    /// ready, the other player becomes active with priority, the stack is emptied, and a
    /// new Daily Life begins with a draw.
    pub open spec fn end_of_round(self) -> MatchView {
        let discarded = self.discarded_down(hand_limit());
        let readied = MatchView {
            player_a: player_readied(discarded.player_a),
            player_b: player_readied(discarded.player_b),
            active_player: opponent(self.active_player),
            priority_player: opponent(self.active_player),
            phase_passes: 0,
            reaction_stack: Seq::empty(),
            reaction_state: None,
            ..discarded
        };
        if self.phase == MatchPhase::DailyLife {
            readied.round_start_drawn()
        } else {
            readied
        }
    }
}

/// Readying a character for the next round turns the bonus saved for the next encounter into
/// the bonus of the coming one and clears the saved bonus; exhaustion and blocked abilities
/// end, and its stage, growth and powers stay.
pub proof fn lemma_readying_carries_the_saved_bonus(c: CharacterRuntimeState)
    ensures
        readied(c).temporary_power_bonus == c.next_encounter_power_bonus,
        readied(c).next_encounter_power_bonus == 0,
        !readied(c).exhausted_until_next_encounter,
        !readied(c).abilities_blocked_until_next_encounter,
        readied(c).stage == c.stage,
        readied(c).radiance == c.radiance && readied(c).dread == c.dread,
        readied(c).base_power == c.base_power && readied(c).transformed_power == c.transformed_power
            && readied(c).final_power == c.final_power,
        readied(c).failed_final_climax_power_bonus == c.failed_final_climax_power_bonus,
{
}

/// At the end of a round every main character of both players carries its saved
/// next-encounter bonus into the coming round, with nothing saved any more.
pub proof fn lemma_end_of_round_carries_saved_bonuses(v: MatchView, player: PlayerId, is_magical_girl_side: bool)
    ensures
        v.end_of_round().side(player, is_magical_girl_side).main.temporary_power_bonus == v.side(
            player,
            is_magical_girl_side,
        ).main.next_encounter_power_bonus,
        v.end_of_round().side(player, is_magical_girl_side).main.next_encounter_power_bonus == 0,
{
    let discarded = v.discarded_down(hand_limit());
    let once = v.player_discarded_down(PlayerId::PlayerA, hand_limit());
    assert(once.side(player, is_magical_girl_side) == v.side(player, is_magical_girl_side));
    assert(discarded.side(player, is_magical_girl_side) == v.side(player, is_magical_girl_side));
}

proof fn lemma_log_text_push(log: Seq<String>, line: String)
    ensures
        log_text(log.push(line)) == log_text(log).push(line@),
{
    assert(log_text(log.push(line)) =~= log_text(log).push(line@));
}

proof fn lemma_log_text_subrange(log: Seq<String>, lo: int)
    requires
        0 <= lo <= log.len(),
    ensures
        log_text(log.subrange(lo, log.len() as int)) == log_text(log).subrange(lo, log.len() as int),
{
    assert(log_text(log.subrange(lo, log.len() as int)) =~= log_text(log).subrange(lo, log.len() as int));
}

/// Moves the oldest cards of the hand to the discard pile until at most `max_hand_size` remain.
pub fn discard_player_down_to_hand_limit(hand: &mut Vec<String>, discard: &mut Vec<String>, max_hand_size: usize) -> (r: usize)
    ensures
        r == overflow_count(old(hand)@.len(), max_hand_size as nat),
        final(hand)@ == old(hand)@.subrange(r as int, old(hand)@.len() as int),
        final(discard)@ == old(discard)@ + old(hand)@.subrange(0, r as int),
{
    let overflow = hand.len().saturating_sub(max_hand_size);
    if overflow == 0 {
        proof {
            assert(old(hand)@.subrange(0, old(hand)@.len() as int) =~= old(hand)@);
            assert(old(discard)@ + old(hand)@.subrange(0, 0) =~= old(discard)@);
        }
        return 0;
    }
    let mut moved: usize = 0;
    while moved < overflow
        invariant
            overflow == overflow_count(old(hand)@.len(), max_hand_size as nat),
            overflow <= old(hand)@.len(),
            moved <= overflow,
            hand@ == old(hand)@.subrange(moved as int, old(hand)@.len() as int),
            discard@ == old(discard)@ + old(hand)@.subrange(0, moved as int),
        decreases overflow - moved,
    {
        let card = hand.remove(0);
        discard.push(card);
        moved += 1;
        proof {
            assert(hand@ =~= old(hand)@.subrange(moved as int, old(hand)@.len() as int));
            assert(discard@ =~= old(discard)@ + old(hand)@.subrange(0, moved as int));
        }
    }
    overflow
}

/// Moves up to `count` cards from the top of the deck to the end of the hand.
fn draw_into(deck: &mut Vec<String>, hand: &mut Vec<String>, count: usize) -> (r: usize)
    ensures
        r == (if count < old(deck)@.len() { count as nat } else { old(deck)@.len() }),
        final(deck)@ == old(deck)@.subrange(r as int, old(deck)@.len() as int),
        final(hand)@ == old(hand)@ + old(deck)@.subrange(0, r as int),
{
    let n = if count < deck.len() { count } else { deck.len() };
    let mut moved: usize = 0;
    proof {
        assert(deck@ =~= old(deck)@.subrange(0, old(deck)@.len() as int));
        assert(hand@ =~= old(hand)@ + old(deck)@.subrange(0, 0));
    }
    while moved < n
        invariant
            n <= old(deck)@.len(),
            moved <= n,
            deck@ == old(deck)@.subrange(moved as int, old(deck)@.len() as int),
            hand@ == old(hand)@ + old(deck)@.subrange(0, moved as int),
        decreases n - moved,
    {
        let card = deck.remove(0);
        hand.push(card);
        moved += 1;
        proof {
            assert(deck@ =~= old(deck)@.subrange(moved as int, old(deck)@.len() as int));
            assert(hand@ =~= old(hand)@ + old(deck)@.subrange(0, moved as int));
        }
    }
    n
}

fn ready_character(c: &mut CharacterRuntimeState)
    ensures
        *final(c) == readied(*old(c)),
{
    c.temporary_power_bonus = c.next_encounter_power_bonus;
    c.next_encounter_power_bonus = 0;
    c.exhausted_until_next_encounter = false;
    c.abilities_blocked_until_next_encounter = false;
}

/// Makes a side ready for the next round.
pub fn ready_side_for_next_round(side: &mut SideState)
    ensures
        final(side)@ == side_readied(old(side)@),
{
    ready_character(&mut side.main);
    let mut i: usize = 0;
    while i < side.supports.len()
        invariant
            i <= side.supports.len(),
            side.supports.len() == old(side).supports.len(),
            side.main == readied(old(side).main),
            side.main_character_id == old(side).main_character_id,
            forall|j: int| 0 <= j < i ==> side.supports@[j] == support_readied(old(side).supports@[j]),
            forall|j: int| i <= j < side.supports.len() ==> side.supports@[j] == old(side).supports@[j],
        decreases side.supports.len() - i,
    {
        let mut support = side.supports[i].duplicate();
        ready_character(&mut support.runtime);
        side.supports.set(i, support);
        i += 1;
    }
    proof {
        assert(side@.supports =~= old(side)@.supports.map_values(|s: SupportState| support_readied(s)));
    }
}

fn clear_character_bonus(c: &mut CharacterRuntimeState)
    ensures
        *final(c) == bonus_cleared(*old(c)),
{
    c.temporary_power_bonus = 0;
}

/// Removes this encounter's power bonuses from a side.
pub fn clear_side_encounter_bonuses(side: &mut SideState)
    ensures
        final(side)@ == side_bonuses_cleared(old(side)@),
{
    clear_character_bonus(&mut side.main);
    let mut i: usize = 0;
    while i < side.supports.len()
        invariant
            i <= side.supports.len(),
            side.supports.len() == old(side).supports.len(),
            side.main == bonus_cleared(old(side).main),
            side.main_character_id == old(side).main_character_id,
            forall|j: int| 0 <= j < i ==> side.supports@[j] == support_bonus_cleared(old(side).supports@[j]),
            forall|j: int| i <= j < side.supports.len() ==> side.supports@[j] == old(side).supports@[j],
        decreases side.supports.len() - i,
    {
        let mut support = side.supports[i].duplicate();
        clear_character_bonus(&mut support.runtime);
        side.supports.set(i, support);
        i += 1;
    }
    proof {
        assert(side@.supports =~= old(side)@.supports.map_values(|s: SupportState| support_bonus_cleared(s)));
    }
}

fn drop_oldest(log: &mut Vec<String>, count: usize)
    requires
        count <= old(log)@.len(),
    ensures
        final(log)@ == old(log)@.subrange(count as int, old(log)@.len() as int),
{
    let mut removed: usize = 0;
    proof {
        assert(log@ =~= old(log)@.subrange(0, old(log)@.len() as int));
    }
    while removed < count
        invariant
            count <= old(log)@.len(),
            removed <= count,
            log@ == old(log)@.subrange(removed as int, old(log)@.len() as int),
        decreases count - removed,
    {
        log.remove(0);
        removed += 1;
        proof {
            assert(log@ =~= old(log)@.subrange(removed as int, old(log)@.len() as int));
        }
    }
}

impl MatchState {
    /// Records a log line, keeping only the newest eight.
    pub fn push_event(&mut self, event: String)
        ensures
            final(self)@ == old(self)@.log(event@),
    {
        let ghost e = event@;
        proof { lemma_log_text_push(self.event_log@, event); }
        self.event_log.push(event);
        let ghost appended = self.event_log@;
        if self.event_log.len() > 8 {
            let overflow = self.event_log.len() - 8;
            drop_oldest(&mut self.event_log, overflow);
            proof { lemma_log_text_subrange(appended, overflow as int); }
        }
        proof {
            assert(log_text(self.event_log@) =~= logged(log_text(old(self).event_log@), e));
            assert(self@ =~= old(self)@.log(e));
        }
    }

    /// Ends a round: cuts hands to seven cards, readies both players, passes the active role
    /// to the other player, empties the stack, and draws for a new Daily Life.
    pub fn ready_end_of_round(&mut self)
        ensures
            final(self)@ == old(self)@.end_of_round(),
    {
        self.discard_down_to_hand_limit(7);
        ready_side_for_next_round(&mut self.player_a.magical_girls);
        ready_side_for_next_round(&mut self.player_a.baddies);
        self.player_a.encounter_card_played = false;
        self.player_a.supports_revealed_this_round = 0;
        ready_side_for_next_round(&mut self.player_b.magical_girls);
        ready_side_for_next_round(&mut self.player_b.baddies);
        self.player_b.encounter_card_played = false;
        self.player_b.supports_revealed_this_round = 0;
        self.active_player = opposing(self.active_player);
        self.priority_player = self.active_player;
        self.phase_passes = 0;
        self.reaction_stack.clear();
        self.reaction_state = None;
        if self.phase == MatchPhase::DailyLife {
            self.draw_round_start_cards();
        }
    }

    /// Removes this encounter's power bonuses from every character.
    pub fn clear_encounter_bonuses(&mut self)
        ensures
            final(self)@ == old(self)@.bonuses_cleared(),
    {
        clear_side_encounter_bonuses(&mut self.player_a.magical_girls);
        clear_side_encounter_bonuses(&mut self.player_a.baddies);
        clear_side_encounter_bonuses(&mut self.player_b.magical_girls);
        clear_side_encounter_bonuses(&mut self.player_b.baddies);
    }

    /// Both players draw two cards, and the draw is logged.
    pub fn draw_round_start_cards(&mut self)
        ensures
            final(self)@ == old(self)@.round_start_drawn(),
    {
        let player_a_drew = self.draw_cards(PlayerId::PlayerA, 2);
        let player_b_drew = self.draw_cards(PlayerId::PlayerB, 2);
        let line = line_round_draw(self.round, player_a_drew, player_b_drew);
        self.push_event(line);
    }

    /// Draws up to `count` cards from the top of the player's deck; returns how many.
    pub fn draw_cards(&mut self, player: PlayerId, count: usize) -> (r: usize)
        ensures
            r == old(self)@.draw_count(player, count as nat),
            final(self)@ == old(self)@.drawn(player, count as nat),
    {
        match player {
            PlayerId::PlayerA => draw_into(&mut self.player_a.deck, &mut self.player_a.hand, count),
            PlayerId::PlayerB => draw_into(&mut self.player_b.deck, &mut self.player_b.hand, count),
        }
    }

    /// Cuts both hands down to `max_hand_size`, logging each discard.
    pub fn discard_down_to_hand_limit(&mut self, max_hand_size: usize)
        ensures
            final(self)@ == old(self)@.discarded_down(max_hand_size as nat),
    {
        let a = discard_player_down_to_hand_limit(&mut self.player_a.hand, &mut self.player_a.discard, max_hand_size);
        if a > 0 {
            self.push_event(line_discarded(PlayerId::PlayerA, a, max_hand_size));
        }
        let b = discard_player_down_to_hand_limit(&mut self.player_b.hand, &mut self.player_b.discard, max_hand_size);
        if b > 0 {
            self.push_event(line_discarded(PlayerId::PlayerB, b, max_hand_size));
        }
    }
}

} // verus!
