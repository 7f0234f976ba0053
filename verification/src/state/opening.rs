//! The opening of a match: the default rosters and decks, the setup taken from content or
//! from starter loadouts, and the state in which a match begins.

use vstd::prelude::*;

use super::match_state::{MatchSetup, MatchState, MatchView, PlayerState, PlayerView};
use super::runtime::{MatchPhase, PlayerId};
use super::setup::{
    build_side, character_position, cycle_index, cycle_pair_index, draw_opening_hand, kept_pair_index,
    lookup_name, name_at, next_index, pair_count, pair_names, pair_position, preferred_index,
    preferred_positions, required_index, required_positions, reset_pair_index_if_needed, side_built,
    support_names, support_pair_index_for_ids, support_pair_index_for_main, support_pair_list,
};
use crate::data::cards::{copy_cards, same_cards};
use crate::text::texts;
use crate::data::{CharacterDefinition, GameContent, StarterLoadout, StoryCardDefinition};

verus! {

/// The cards each player holds before the first round's draw.
pub open spec fn opening_hand_size() -> nat {
    4
}

pub open spec fn default_deck_a_ids() -> Seq<Seq<char>> {
    seq![
        "quiet_lunch_on_the_rooftop"@,
        "false_sense_of_calm"@,
        "secret_rehearsal"@,
        "not_on_my_watch"@,
        "shared_umbrella"@,
        "emergency_costume_repair"@,
        "crescent_counterpose"@,
        "moonlit_rescue_chain"@,
        "break_the_formation"@,
        "identity_reveal"@,
    ]
}

pub open spec fn default_deck_b_ids() -> Seq<Seq<char>> {
    seq![
        "ominous_graffiti"@,
        "whisper_campaign"@,
        "twisted_headline"@,
        "expose_the_accomplice"@,
        "curtain_call_denied"@,
        "last_minute_cover_story"@,
        "panic_spiral"@,
        "panic_in_the_parade_route"@,
        "forbidden_bloom_of_calamity"@,
        "break_the_formation"@,
    ]
}

/// The first player's deck when none is chosen.
pub fn default_player_a_deck() -> (r: Vec<String>)
    ensures
        texts(r@) == default_deck_a_ids(),
{
    let mut deck: Vec<String> = Vec::new();
    deck.push("quiet_lunch_on_the_rooftop".to_owned());
    deck.push("false_sense_of_calm".to_owned());
    deck.push("secret_rehearsal".to_owned());
    deck.push("not_on_my_watch".to_owned());
    deck.push("shared_umbrella".to_owned());
    deck.push("emergency_costume_repair".to_owned());
    deck.push("crescent_counterpose".to_owned());
    deck.push("moonlit_rescue_chain".to_owned());
    deck.push("break_the_formation".to_owned());
    deck.push("identity_reveal".to_owned());
    proof {
        assert(texts(deck@) =~= default_deck_a_ids());
    }
    deck
}

/// The second player's deck when none is chosen.
pub fn default_player_b_deck() -> (r: Vec<String>)
    ensures
        texts(r@) == default_deck_b_ids(),
{
    let mut deck: Vec<String> = Vec::new();
    deck.push("ominous_graffiti".to_owned());
    deck.push("whisper_campaign".to_owned());
    deck.push("twisted_headline".to_owned());
    deck.push("expose_the_accomplice".to_owned());
    deck.push("curtain_call_denied".to_owned());
    deck.push("last_minute_cover_story".to_owned());
    deck.push("panic_spiral".to_owned());
    deck.push("panic_in_the_parade_route".to_owned());
    deck.push("forbidden_bloom_of_calamity".to_owned());
    deck.push("break_the_formation".to_owned());
    proof {
        assert(texts(deck@) =~= default_deck_b_ids());
    }
    deck
}

/// The position of the preferred character, or 0 when it is missing.
pub open spec fn preferred_position(definitions: Seq<CharacterDefinition>, id: Seq<char>) -> int {
    match character_position(definitions, id) {
        Some(i) => i,
        None => 0,
    }
}

/// The position of the pair made of the two preferred characters, or 0 when there is none.
pub open spec fn preferred_pair_position(
    definitions: Seq<CharacterDefinition>,
    main: int,
    first: Seq<char>,
    second: Seq<char>,
) -> int {
    match pair_position(support_pair_list(definitions.len(), main), preferred_positions(definitions, first, second)) {
        Some(i) => i,
        None => 0,
    }
}

/// A main and support pair that the roster holds: the main exists, each support exists, and
/// the supports form one of the main's support pairs.
pub open spec fn roster_available(definitions: Seq<CharacterDefinition>, main_id: Seq<char>, support_ids: Seq<String>) -> bool {
    &&& character_position(definitions, main_id) is Some
    &&& forall|i: int| 0 <= i < support_ids.len() ==> character_position(definitions, (#[trigger] support_ids[i])@) is Some
    &&& pair_position(
        support_pair_list(definitions.len(), character_position(definitions, main_id)->0),
        required_positions(definitions, support_ids),
    ) is Some
}

/// The position of the main's pair made of exactly these supports.
pub open spec fn roster_pair_position(definitions: Seq<CharacterDefinition>, main_id: Seq<char>, support_ids: Seq<String>) -> int {
    pair_position(
        support_pair_list(definitions.len(), character_position(definitions, main_id)->0),
        required_positions(definitions, support_ids),
    )->0
}

/// Both rosters of a starter loadout are available in the content.
pub open spec fn loadout_available(content: GameContent, loadout: StarterLoadout) -> bool {
    &&& roster_available(content.magical_girls@, loadout.magical_girl_main@, loadout.magical_girl_supports@)
    &&& roster_available(content.baddies@, loadout.prime_baddie@, loadout.baddie_supports@)
}

/// The indices of a setup point at mains that the content holds.
pub open spec fn setup_in_content(content: GameContent, setup: MatchSetup) -> bool {
    &&& setup.player_a_mg_main_index < content.magical_girls@.len()
    &&& setup.player_a_baddie_main_index < content.baddies@.len()
    &&& setup.player_b_mg_main_index < content.magical_girls@.len()
    &&& setup.player_b_baddie_main_index < content.baddies@.len()
}

impl MatchSetup {
    /// The usual opening: Yuki with Hana and Riri and Noctra with Glass Crow and Thorn Waltz
    /// for the first player; Hana with Momo and Kiko and Velvet Hex with Noctra and Hollow
    /// Marionette for the second. A missing character falls back to the first one, a missing
    /// pair to the first pair.
    pub fn default_for_content(content: &GameContent) -> (r: Self)
        ensures
            r.player_a_mg_main_index as int == preferred_position(content.magical_girls@, "yuki"@),
            r.player_a_mg_support_pair_index as int == preferred_pair_position(
                content.magical_girls@,
                r.player_a_mg_main_index as int,
                "hana"@,
                "riri"@,
            ),
            r.player_a_baddie_main_index as int == preferred_position(content.baddies@, "noctra"@),
            r.player_a_baddie_support_pair_index as int == preferred_pair_position(
                content.baddies@,
                r.player_a_baddie_main_index as int,
                "glass_crow"@,
                "thorn_waltz"@,
            ),
            r.player_b_mg_main_index as int == preferred_position(content.magical_girls@, "hana"@),
            r.player_b_mg_support_pair_index as int == preferred_pair_position(
                content.magical_girls@,
                r.player_b_mg_main_index as int,
                "momo"@,
                "kiko"@,
            ),
            r.player_b_baddie_main_index as int == preferred_position(content.baddies@, "velvet_hex"@),
            r.player_b_baddie_support_pair_index as int == preferred_pair_position(
                content.baddies@,
                r.player_b_baddie_main_index as int,
                "noctra"@,
                "hollow_marionette"@,
            ),
    {
        let player_a_mg_main_index = preferred_index(content.magical_girls.as_slice(), "yuki");
        let player_a_baddie_main_index = preferred_index(content.baddies.as_slice(), "noctra");
        let player_b_mg_main_index = preferred_index(content.magical_girls.as_slice(), "hana");
        let player_b_baddie_main_index = preferred_index(content.baddies.as_slice(), "velvet_hex");
        MatchSetup {
            player_a_mg_main_index,
            player_a_mg_support_pair_index: support_pair_index_for_main(
                content.magical_girls.as_slice(),
                player_a_mg_main_index,
                "hana",
                "riri",
            ),
            player_a_baddie_main_index,
            player_a_baddie_support_pair_index: support_pair_index_for_main(
                content.baddies.as_slice(),
                player_a_baddie_main_index,
                "glass_crow",
                "thorn_waltz",
            ),
            player_b_mg_main_index,
            player_b_mg_support_pair_index: support_pair_index_for_main(
                content.magical_girls.as_slice(),
                player_b_mg_main_index,
                "momo",
                "kiko",
            ),
            player_b_baddie_main_index,
            player_b_baddie_support_pair_index: support_pair_index_for_main(
                content.baddies.as_slice(),
                player_b_baddie_main_index,
                "noctra",
                "hollow_marionette",
            ),
        }
    }

    /// The mains and support pairs that two starter loadouts name.
    pub fn from_starter_loadouts(content: &GameContent, player_a: &StarterLoadout, player_b: &StarterLoadout) -> (r: Self)
        requires
            loadout_available(*content, *player_a),
            loadout_available(*content, *player_b),
        ensures
            r.player_a_mg_main_index as int == character_position(content.magical_girls@, player_a.magical_girl_main@)->0,
            r.player_a_mg_support_pair_index as int == roster_pair_position(
                content.magical_girls@,
                player_a.magical_girl_main@,
                player_a.magical_girl_supports@,
            ),
            r.player_a_baddie_main_index as int == character_position(content.baddies@, player_a.prime_baddie@)->0,
            r.player_a_baddie_support_pair_index as int == roster_pair_position(
                content.baddies@,
                player_a.prime_baddie@,
                player_a.baddie_supports@,
            ),
            r.player_b_mg_main_index as int == character_position(content.magical_girls@, player_b.magical_girl_main@)->0,
            r.player_b_mg_support_pair_index as int == roster_pair_position(
                content.magical_girls@,
                player_b.magical_girl_main@,
                player_b.magical_girl_supports@,
            ),
            r.player_b_baddie_main_index as int == character_position(content.baddies@, player_b.prime_baddie@)->0,
            r.player_b_baddie_support_pair_index as int == roster_pair_position(
                content.baddies@,
                player_b.prime_baddie@,
                player_b.baddie_supports@,
            ),
            setup_in_content(*content, r),
    {
        let mg = content.magical_girls.as_slice();
        let bd = content.baddies.as_slice();
        MatchSetup {
            player_a_mg_main_index: required_index(mg, player_a.magical_girl_main.as_str()),
            player_a_mg_support_pair_index: support_pair_index_for_ids(
                mg,
                player_a.magical_girl_main.as_str(),
                player_a.magical_girl_supports.as_slice(),
            ),
            player_a_baddie_main_index: required_index(bd, player_a.prime_baddie.as_str()),
            player_a_baddie_support_pair_index: support_pair_index_for_ids(
                bd,
                player_a.prime_baddie.as_str(),
                player_a.baddie_supports.as_slice(),
            ),
            player_b_mg_main_index: required_index(mg, player_b.magical_girl_main.as_str()),
            player_b_mg_support_pair_index: support_pair_index_for_ids(
                mg,
                player_b.magical_girl_main.as_str(),
                player_b.magical_girl_supports.as_slice(),
            ),
            player_b_baddie_main_index: required_index(bd, player_b.prime_baddie.as_str()),
            player_b_baddie_support_pair_index: support_pair_index_for_ids(
                bd,
                player_b.prime_baddie.as_str(),
                player_b.baddie_supports.as_slice(),
            ),
        }
    }

    /// Moves the first player's magical-girl main to the next character, keeping the support pair
    /// while the new main still has it.
    pub fn cycle_player_a_mg_main(&mut self, content: &GameContent)
        requires
            content.magical_girls@.len() == 0 || old(self).player_a_mg_main_index < usize::MAX,
        ensures
            final(self).player_a_mg_main_index as int == next_index(content.magical_girls@.len(), old(self).player_a_mg_main_index as int),
            final(self).player_a_mg_support_pair_index as int == kept_pair_index(
                content.magical_girls@.len(),
                final(self).player_a_mg_main_index as int,
                old(self).player_a_mg_support_pair_index as int,
            ),
            *final(self) == (MatchSetup { player_a_mg_main_index: final(self).player_a_mg_main_index, player_a_mg_support_pair_index: final(self).player_a_mg_support_pair_index, ..*old(self) }),
    {
        self.player_a_mg_main_index = cycle_index(content.magical_girls.len(), self.player_a_mg_main_index);
        self.player_a_mg_support_pair_index = reset_pair_index_if_needed(content.magical_girls.as_slice(), self.player_a_mg_main_index, self.player_a_mg_support_pair_index);
    }

    /// Moves the first player's magical-girl support pair to the next pair of the same main.
    pub fn cycle_player_a_mg_supports(&mut self, content: &GameContent)
        requires
            pair_count(content.magical_girls@.len(), old(self).player_a_mg_main_index as int) == 0 || old(self).player_a_mg_support_pair_index < usize::MAX,
        ensures
            final(self).player_a_mg_support_pair_index as int == next_index(
                pair_count(content.magical_girls@.len(), old(self).player_a_mg_main_index as int),
                old(self).player_a_mg_support_pair_index as int,
            ),
            *final(self) == (MatchSetup { player_a_mg_support_pair_index: final(self).player_a_mg_support_pair_index, ..*old(self) }),
    {
        self.player_a_mg_support_pair_index = cycle_pair_index(content.magical_girls.as_slice(), self.player_a_mg_main_index, self.player_a_mg_support_pair_index);
    }

    /// Moves the first player's baddie main to the next character, keeping the support pair
    /// while the new main still has it.
    pub fn cycle_player_a_baddie_main(&mut self, content: &GameContent)
        requires
            content.baddies@.len() == 0 || old(self).player_a_baddie_main_index < usize::MAX,
        ensures
            final(self).player_a_baddie_main_index as int == next_index(content.baddies@.len(), old(self).player_a_baddie_main_index as int),
            final(self).player_a_baddie_support_pair_index as int == kept_pair_index(
                content.baddies@.len(),
                final(self).player_a_baddie_main_index as int,
                old(self).player_a_baddie_support_pair_index as int,
            ),
            *final(self) == (MatchSetup { player_a_baddie_main_index: final(self).player_a_baddie_main_index, player_a_baddie_support_pair_index: final(self).player_a_baddie_support_pair_index, ..*old(self) }),
    {
        self.player_a_baddie_main_index = cycle_index(content.baddies.len(), self.player_a_baddie_main_index);
        self.player_a_baddie_support_pair_index = reset_pair_index_if_needed(content.baddies.as_slice(), self.player_a_baddie_main_index, self.player_a_baddie_support_pair_index);
    }

    /// Moves the first player's baddie support pair to the next pair of the same main.
    pub fn cycle_player_a_baddie_supports(&mut self, content: &GameContent)
        requires
            pair_count(content.baddies@.len(), old(self).player_a_baddie_main_index as int) == 0 || old(self).player_a_baddie_support_pair_index < usize::MAX,
        ensures
            final(self).player_a_baddie_support_pair_index as int == next_index(
                pair_count(content.baddies@.len(), old(self).player_a_baddie_main_index as int),
                old(self).player_a_baddie_support_pair_index as int,
            ),
            *final(self) == (MatchSetup { player_a_baddie_support_pair_index: final(self).player_a_baddie_support_pair_index, ..*old(self) }),
    {
        self.player_a_baddie_support_pair_index = cycle_pair_index(content.baddies.as_slice(), self.player_a_baddie_main_index, self.player_a_baddie_support_pair_index);
    }

    /// Moves the second player's magical-girl main to the next character, keeping the support pair
    /// while the new main still has it.
    pub fn cycle_player_b_mg_main(&mut self, content: &GameContent)
        requires
            content.magical_girls@.len() == 0 || old(self).player_b_mg_main_index < usize::MAX,
        ensures
            final(self).player_b_mg_main_index as int == next_index(content.magical_girls@.len(), old(self).player_b_mg_main_index as int),
            final(self).player_b_mg_support_pair_index as int == kept_pair_index(
                content.magical_girls@.len(),
                final(self).player_b_mg_main_index as int,
                old(self).player_b_mg_support_pair_index as int,
            ),
            *final(self) == (MatchSetup { player_b_mg_main_index: final(self).player_b_mg_main_index, player_b_mg_support_pair_index: final(self).player_b_mg_support_pair_index, ..*old(self) }),
    {
        self.player_b_mg_main_index = cycle_index(content.magical_girls.len(), self.player_b_mg_main_index);
        self.player_b_mg_support_pair_index = reset_pair_index_if_needed(content.magical_girls.as_slice(), self.player_b_mg_main_index, self.player_b_mg_support_pair_index);
    }

    /// Moves the second player's magical-girl support pair to the next pair of the same main.
    pub fn cycle_player_b_mg_supports(&mut self, content: &GameContent)
        requires
            pair_count(content.magical_girls@.len(), old(self).player_b_mg_main_index as int) == 0 || old(self).player_b_mg_support_pair_index < usize::MAX,
        ensures
            final(self).player_b_mg_support_pair_index as int == next_index(
                pair_count(content.magical_girls@.len(), old(self).player_b_mg_main_index as int),
                old(self).player_b_mg_support_pair_index as int,
            ),
            *final(self) == (MatchSetup { player_b_mg_support_pair_index: final(self).player_b_mg_support_pair_index, ..*old(self) }),
    {
        self.player_b_mg_support_pair_index = cycle_pair_index(content.magical_girls.as_slice(), self.player_b_mg_main_index, self.player_b_mg_support_pair_index);
    }

    /// Moves the second player's baddie main to the next character, keeping the support pair
    /// while the new main still has it.
    pub fn cycle_player_b_baddie_main(&mut self, content: &GameContent)
        requires
            content.baddies@.len() == 0 || old(self).player_b_baddie_main_index < usize::MAX,
        ensures
            final(self).player_b_baddie_main_index as int == next_index(content.baddies@.len(), old(self).player_b_baddie_main_index as int),
            final(self).player_b_baddie_support_pair_index as int == kept_pair_index(
                content.baddies@.len(),
                final(self).player_b_baddie_main_index as int,
                old(self).player_b_baddie_support_pair_index as int,
            ),
            *final(self) == (MatchSetup { player_b_baddie_main_index: final(self).player_b_baddie_main_index, player_b_baddie_support_pair_index: final(self).player_b_baddie_support_pair_index, ..*old(self) }),
    {
        self.player_b_baddie_main_index = cycle_index(content.baddies.len(), self.player_b_baddie_main_index);
        self.player_b_baddie_support_pair_index = reset_pair_index_if_needed(content.baddies.as_slice(), self.player_b_baddie_main_index, self.player_b_baddie_support_pair_index);
    }

    /// Moves the second player's baddie support pair to the next pair of the same main.
    pub fn cycle_player_b_baddie_supports(&mut self, content: &GameContent)
        requires
            pair_count(content.baddies@.len(), old(self).player_b_baddie_main_index as int) == 0 || old(self).player_b_baddie_support_pair_index < usize::MAX,
        ensures
            final(self).player_b_baddie_support_pair_index as int == next_index(
                pair_count(content.baddies@.len(), old(self).player_b_baddie_main_index as int),
                old(self).player_b_baddie_support_pair_index as int,
            ),
            *final(self) == (MatchSetup { player_b_baddie_support_pair_index: final(self).player_b_baddie_support_pair_index, ..*old(self) }),
    {
        self.player_b_baddie_support_pair_index = cycle_pair_index(content.baddies.as_slice(), self.player_b_baddie_main_index, self.player_b_baddie_support_pair_index);
    }

    /// The name of the first player's magical-girl main, or "Unknown".
    pub fn player_a_mg_main_name<'a>(&self, content: &'a GameContent) -> (r: &'a str)
        ensures
            r@ == name_at(content.magical_girls@, self.player_a_mg_main_index as int),
    {
        lookup_name(content.magical_girls.as_slice(), self.player_a_mg_main_index)
    }

    /// The names of the first player's magical-girl supports.
    pub fn player_a_mg_support_names(&self, content: &GameContent) -> (r: Vec<String>)
        ensures
            r@ == pair_names(content.magical_girls@, self.player_a_mg_main_index as int, self.player_a_mg_support_pair_index as int),
    {
        support_names(content.magical_girls.as_slice(), self.player_a_mg_main_index, self.player_a_mg_support_pair_index)
    }

    /// The name of the first player's baddie main, or "Unknown".
    pub fn player_a_baddie_main_name<'a>(&self, content: &'a GameContent) -> (r: &'a str)
        ensures
            r@ == name_at(content.baddies@, self.player_a_baddie_main_index as int),
    {
        lookup_name(content.baddies.as_slice(), self.player_a_baddie_main_index)
    }

    /// The names of the first player's baddie supports.
    pub fn player_a_baddie_support_names(&self, content: &GameContent) -> (r: Vec<String>)
        ensures
            r@ == pair_names(content.baddies@, self.player_a_baddie_main_index as int, self.player_a_baddie_support_pair_index as int),
    {
        support_names(content.baddies.as_slice(), self.player_a_baddie_main_index, self.player_a_baddie_support_pair_index)
    }

    /// The name of the second player's magical-girl main, or "Unknown".
    pub fn player_b_mg_main_name<'a>(&self, content: &'a GameContent) -> (r: &'a str)
        ensures
            r@ == name_at(content.magical_girls@, self.player_b_mg_main_index as int),
    {
        lookup_name(content.magical_girls.as_slice(), self.player_b_mg_main_index)
    }

    /// The names of the second player's magical-girl supports.
    pub fn player_b_mg_support_names(&self, content: &GameContent) -> (r: Vec<String>)
        ensures
            r@ == pair_names(content.magical_girls@, self.player_b_mg_main_index as int, self.player_b_mg_support_pair_index as int),
    {
        support_names(content.magical_girls.as_slice(), self.player_b_mg_main_index, self.player_b_mg_support_pair_index)
    }

    /// The name of the second player's baddie main, or "Unknown".
    pub fn player_b_baddie_main_name<'a>(&self, content: &'a GameContent) -> (r: &'a str)
        ensures
            r@ == name_at(content.baddies@, self.player_b_baddie_main_index as int),
    {
        lookup_name(content.baddies.as_slice(), self.player_b_baddie_main_index)
    }

    /// The names of the second player's baddie supports.
    pub fn player_b_baddie_support_names(&self, content: &GameContent) -> (r: Vec<String>)
        ensures
            r@ == pair_names(content.baddies@, self.player_b_baddie_main_index as int, self.player_b_baddie_support_pair_index as int),
    {
        support_names(content.baddies.as_slice(), self.player_b_baddie_main_index, self.player_b_baddie_support_pair_index)
    }
}


/// A player at the start of the match: the chosen sides, fresh, and the opening hand taken
/// from the top of the deck.
pub open spec fn opening_player(
    magical_girls: Seq<CharacterDefinition>,
    baddies: Seq<CharacterDefinition>,
    mg_main: int,
    mg_pair: int,
    baddie_main: int,
    baddie_pair: int,
    deck: Seq<String>,
) -> PlayerView {
    let n = if opening_hand_size() < deck.len() { opening_hand_size() } else { deck.len() };
    PlayerView {
        magical_girls: side_built(magical_girls, mg_main, mg_pair),
        baddies: side_built(baddies, baddie_main, baddie_pair),
        deck: deck.subrange(n as int, deck.len() as int),
        hand: deck.subrange(0, n as int),
        discard: Seq::empty(),
        encounter_card_played: false,
        supports_revealed_this_round: 0,
    }
}

/// The match before the first round's draw: daily life of round one, nothing decided, the
/// starting player active and holding priority, the stack and log empty.
pub open spec fn opening_match(
    content: GameContent,
    setup: MatchSetup,
    player_a_deck: Seq<String>,
    player_b_deck: Seq<String>,
    starting_player: PlayerId,
    story_cards: Seq<StoryCardDefinition>,
) -> MatchView {
    MatchView {
        rules: content.rules,
        story_cards,
        phase: MatchPhase::DailyLife,
        round: 1,
        final_climax_active: false,
        prime_baddie_defeated: false,
        defeated_prime_owner: None,
        winner: None,
        player_a: opening_player(
            content.magical_girls@,
            content.baddies@,
            setup.player_a_mg_main_index as int,
            setup.player_a_mg_support_pair_index as int,
            setup.player_a_baddie_main_index as int,
            setup.player_a_baddie_support_pair_index as int,
            player_a_deck,
        ),
        player_b: opening_player(
            content.magical_girls@,
            content.baddies@,
            setup.player_b_mg_main_index as int,
            setup.player_b_mg_support_pair_index as int,
            setup.player_b_baddie_main_index as int,
            setup.player_b_baddie_support_pair_index as int,
            player_b_deck,
        ),
        active_player: starting_player,
        priority_player: starting_player,
        phase_passes: 0,
        last_played_card_name: None,
        last_outcome: None,
        reaction_stack: Seq::empty(),
        reaction_state: None,
        event_log: Seq::empty(),
    }
}

impl MatchState {
    /// A match from a setup with the default decks, the first player starting.
    pub fn from_setup(content: &GameContent, setup: &MatchSetup) -> (r: Self)
        requires
            setup_in_content(*content, *setup),
        ensures
            same_cards(r@.story_cards, content.story_cards@),
            exists|deck_a: Seq<String>, deck_b: Seq<String>|
                texts(deck_a) == default_deck_a_ids() && texts(deck_b) == default_deck_b_ids()
                && r@ == #[trigger] opening_match(*content, *setup, deck_a, deck_b, PlayerId::PlayerA, r@.story_cards)
                    .round_start_drawn(),
    {
        let deck_a = default_player_a_deck();
        let deck_b = default_player_b_deck();
        let ghost da = deck_a@;
        let ghost db = deck_b@;
        let r = Self::from_setup_with_options(content, setup, deck_a, deck_b, PlayerId::PlayerA);
        proof {
            assert(r@ == opening_match(*content, *setup, da, db, PlayerId::PlayerA, r@.story_cards).round_start_drawn());
        }
        r
    }

    /// A match between two starter loadouts, each with its own support deck.
    pub fn from_starter_loadouts(
        content: &GameContent,
        player_a: &StarterLoadout,
        player_b: &StarterLoadout,
        starting_player: PlayerId,
    ) -> (r: Self)
        requires
            loadout_available(*content, *player_a),
            loadout_available(*content, *player_b),
        ensures
            same_cards(r@.story_cards, content.story_cards@),
            exists|setup: MatchSetup|
                setup.player_a_mg_main_index as int == character_position(content.magical_girls@, player_a.magical_girl_main@)->0
                && setup.player_a_mg_support_pair_index as int == roster_pair_position(
                    content.magical_girls@,
                    player_a.magical_girl_main@,
                    player_a.magical_girl_supports@,
                )
                && setup.player_a_baddie_main_index as int == character_position(content.baddies@, player_a.prime_baddie@)->0
                && setup.player_a_baddie_support_pair_index as int == roster_pair_position(
                    content.baddies@,
                    player_a.prime_baddie@,
                    player_a.baddie_supports@,
                )
                && setup.player_b_mg_main_index as int == character_position(content.magical_girls@, player_b.magical_girl_main@)->0
                && setup.player_b_mg_support_pair_index as int == roster_pair_position(
                    content.magical_girls@,
                    player_b.magical_girl_main@,
                    player_b.magical_girl_supports@,
                )
                && setup.player_b_baddie_main_index as int == character_position(content.baddies@, player_b.prime_baddie@)->0
                && setup.player_b_baddie_support_pair_index as int == roster_pair_position(
                    content.baddies@,
                    player_b.prime_baddie@,
                    player_b.baddie_supports@,
                )
                && r@ == #[trigger] opening_match(
                    *content,
                    setup,
                    player_a.support_deck@,
                    player_b.support_deck@,
                    starting_player,
                    r@.story_cards,
                ).round_start_drawn(),
    {
        let setup = MatchSetup::from_starter_loadouts(content, player_a, player_b);
        let r = Self::from_setup_with_options(
            content,
            &setup,
            crate::text::copy_texts(&player_a.support_deck),
            crate::text::copy_texts(&player_b.support_deck),
            starting_player,
        );
        proof {
            assert(r@ == opening_match(
                *content,
                setup,
                player_a.support_deck@,
                player_b.support_deck@,
                starting_player,
                r@.story_cards,
            ).round_start_drawn());
        }
        r
    }

    /// A match from a setup with the given decks: each player takes an opening hand of four
    /// from the top of their deck, then the first round's draw happens.
    pub fn from_setup_with_options(
        content: &GameContent,
        setup: &MatchSetup,
        player_a_deck: Vec<String>,
        player_b_deck: Vec<String>,
        starting_player: PlayerId,
    ) -> (r: Self)
        requires
            setup_in_content(*content, *setup),
        ensures
            same_cards(r@.story_cards, content.story_cards@),
            r@ == opening_match(
                *content,
                *setup,
                player_a_deck@,
                player_b_deck@,
                starting_player,
                r@.story_cards,
            ).round_start_drawn(),
    {
        let ghost deck_a = player_a_deck@;
        let ghost deck_b = player_b_deck@;
        let mut player_a_deck = player_a_deck;
        let mut player_b_deck = player_b_deck;
        let story_cards = copy_cards(&content.story_cards);
        let player_a_hand = draw_opening_hand(&mut player_a_deck, 4);
        let player_b_hand = draw_opening_hand(&mut player_b_deck, 4);
        let mg = content.magical_girls.as_slice();
        let bd = content.baddies.as_slice();
        let mut state = MatchState {
            rules: content.rules,
            story_cards,
            phase: MatchPhase::DailyLife,
            round: 1,
            final_climax_active: false,
            prime_baddie_defeated: false,
            defeated_prime_owner: None,
            winner: None,
            player_a: PlayerState {
                magical_girls: build_side(mg, setup.player_a_mg_main_index, setup.player_a_mg_support_pair_index),
                baddies: build_side(bd, setup.player_a_baddie_main_index, setup.player_a_baddie_support_pair_index),
                deck: player_a_deck,
                hand: player_a_hand,
                discard: Vec::new(),
                encounter_card_played: false,
                supports_revealed_this_round: 0,
            },
            player_b: PlayerState {
                magical_girls: build_side(mg, setup.player_b_mg_main_index, setup.player_b_mg_support_pair_index),
                baddies: build_side(bd, setup.player_b_baddie_main_index, setup.player_b_baddie_support_pair_index),
                deck: player_b_deck,
                hand: player_b_hand,
                discard: Vec::new(),
                encounter_card_played: false,
                supports_revealed_this_round: 0,
            },
            active_player: starting_player,
            priority_player: starting_player,
            phase_passes: 0,
            last_played_card_name: None,
            last_outcome: None,
            reaction_stack: Vec::new(),
            reaction_state: None,
            event_log: Vec::new(),
        };
        proof {
            let opening = opening_match(*content, *setup, deck_a, deck_b, starting_player, state@.story_cards);
            assert(state@.player_a =~= opening.player_a);
            assert(state@.player_b =~= opening.player_b);
            assert(state@ =~= opening);
        }
        state.draw_round_start_cards();
        state
    }
}

} // verus!
