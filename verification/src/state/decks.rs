//! Versioned deck and roster preset save data.

use vstd::prelude::*;

use super::collection::{count_of, lemma_count_of_push, CollectionSave};
use crate::data::{DeckRules, StarterLoadout};
use crate::text::{copy_texts, texts};

verus! {

/// A saved support deck with the rosters it is played with.
#[derive(Clone, Debug)]
pub struct DeckPreset {
    pub id: String,
    pub name: String,
    pub story_cards: Vec<String>,
    pub magical_girl_roster: Vec<String>,
    pub baddie_roster: Vec<String>,
    pub recent_story_cards: Vec<String>,
}

impl DeckPreset {
    /// Whether two decks have the same id, name and lists.
    pub open spec fn same_deck(self, other: DeckPreset) -> bool {
        &&& self.id == other.id
        &&& self.name == other.name
        &&& self.story_cards@ == other.story_cards@
        &&& self.magical_girl_roster@ == other.magical_girl_roster@
        &&& self.baddie_roster@ == other.baddie_roster@
        &&& self.recent_story_cards@ == other.recent_story_cards@
    }

    /// A copy of the deck.
    pub fn duplicate(&self) -> (r: Self)
        ensures
            r.same_deck(*self),
    {
        DeckPreset {
            id: self.id.clone(),
            name: self.name.clone(),
            story_cards: copy_texts(&self.story_cards),
            magical_girl_roster: copy_texts(&self.magical_girl_roster),
            baddie_roster: copy_texts(&self.baddie_roster),
            recent_story_cards: copy_texts(&self.recent_story_cards),
        }
    }
}

impl Default for DeckPreset {
    fn default() -> (r: Self)
        ensures
            r.id@ == Seq::<char>::empty(),
            r.name@ == Seq::<char>::empty(),
            r.story_cards@.len() == 0,
            r.magical_girl_roster@.len() == 0,
            r.baddie_roster@.len() == 0,
            r.recent_story_cards@.len() == 0,
    {
        DeckPreset {
            id: String::new(),
            name: String::new(),
            story_cards: Vec::new(),
            magical_girl_roster: Vec::new(),
            baddie_roster: Vec::new(),
            recent_story_cards: Vec::new(),
        }
    }
}

/// The saved support decks; the first one is the active deck.
#[derive(Clone, Debug)]
pub struct DecksSave {
    pub version: u32,
    pub support_decks: Vec<DeckPreset>,
    pub roster_presets: Vec<String>,
}

impl Default for DecksSave {
    fn default() -> (r: Self)
        ensures
            r.version == 1,
            r.support_decks@.len() == 0,
            r.roster_presets@.len() == 0,
    {
        DecksSave { version: 1, support_decks: Vec::new(), roster_presets: Vec::new() }
    }
}

/// The index of the first entry of `items` that is `id`.
pub open spec fn first_index_of(items: Seq<Seq<char>>, id: Seq<char>) -> Option<int>
    decreases items.len(),
{
    if items.len() == 0 {
        None
    } else if items[0] == id {
        Some(0)
    } else {
        match first_index_of(items.drop_first(), id) {
            Some(i) => Some(i + 1),
            None => None,
        }
    }
}

pub proof fn lemma_first_index_of(items: Seq<Seq<char>>, id: Seq<char>)
    ensures
        match first_index_of(items, id) {
            Some(i) => 0 <= i < items.len() && items[i] == id && forall|j: int| 0 <= j < i ==> items[j] != id,
            None => forall|j: int| 0 <= j < items.len() ==> items[j] != id,
        },
    decreases items.len(),
{
    if items.len() > 0 {
        lemma_first_index_of(items.drop_first(), id);
        assert forall|j: int| 1 <= j < items.len() implies items[j] == items.drop_first()[j - 1] by {}
    }
}

/// The index of the first entry of `items` whose text is `id`.
pub fn position_of(items: &Vec<String>, id: &str) -> (r: Option<usize>)
    ensures
        match r {
            Some(k) => first_index_of(texts(items@), id@) == Some(k as int),
            None => first_index_of(texts(items@), id@) is None,
        },
{
    proof {
        lemma_first_index_of(texts(items@), id@);
    }
    let mut i: usize = 0;
    while i < items.len()
        invariant
            i <= items@.len(),
            forall|j: int| 0 <= j < i ==> texts(items@)[j] != id@,
            match first_index_of(texts(items@), id@) {
                Some(k) => 0 <= k < items@.len() && texts(items@)[k] == id@
                    && forall|j: int| 0 <= j < k ==> texts(items@)[j] != id@,
                None => forall|j: int| 0 <= j < items@.len() ==> texts(items@)[j] != id@,
            },
        decreases items@.len() - i,
    {
        proof {
            assert(texts(items@)[i as int] == items@[i as int]@);
        }
        if crate::text::same_text(items[i].as_str(), id) {
            return Some(i);
        }
        i += 1;
    }
    None
}

/// Removing one entry that is `id` lowers its count by one.
pub proof fn lemma_count_of_remove(items: Seq<Seq<char>>, i: int, id: Seq<char>)
    requires
        0 <= i < items.len(),
        items[i] == id,
    ensures
        count_of(items.remove(i), id) + 1 == count_of(items, id),
    decreases items.len(),
{
    if i == items.len() - 1 {
        assert(items.remove(i) =~= items.drop_last());
    } else {
        lemma_count_of_remove(items.drop_last(), i, id);
        assert(items.remove(i) =~= items.drop_last().remove(i).push(items.last()));
        lemma_count_of_push(items.drop_last().remove(i), items.last(), id);
    }
}

impl DecksSave {
    /// The number of copies of `card_id` in the active deck.
    pub open spec fn copies_in_active(self, card_id: Seq<char>) -> nat {
        if self.support_decks@.len() > 0 {
            count_of(texts(self.support_decks@[0].story_cards@), card_id)
        } else {
            0
        }
    }

    /// A card may join the active deck while the deck is below its size, the card below its
    /// copy limit, and the collection holds a copy not yet in the deck.
    pub open spec fn may_add(self, card_id: Seq<char>, rules: DeckRules, collection: CollectionSave) -> bool {
        &&& self.support_decks@.len() > 0
        &&& self.support_decks@[0].story_cards@.len() < rules.support_deck_size
        &&& self.copies_in_active(card_id) < rules.max_copies_per_story_card
        &&& collection.available_copies(card_id, self.copies_in_active(card_id)) > 0
    }

    /// `next` is `self` with the active deck's cards replaced by ones whose text is `cards`.
    pub open spec fn active_cards_become(self, next: DecksSave, cards: Seq<Seq<char>>) -> bool {
        &&& self.support_decks@.len() > 0
        &&& next.version == self.version
        &&& next.roster_presets == self.roster_presets
        &&& next.support_decks@.len() == self.support_decks@.len()
        &&& forall|i: int| 1 <= i < self.support_decks@.len() ==> #[trigger] next.support_decks@[i] == self.support_decks@[i]
        &&& next.support_decks@[0] == (DeckPreset { story_cards: next.support_decks@[0].story_cards, ..self.support_decks@[0] })
        &&& texts(next.support_decks@[0].story_cards@) == cards
    }

    /// Makes sure an active deck exists: the first starter's deck, or an empty prototype deck
    /// when there is no starter.
    pub fn ensure_active_support_deck(&mut self, starters: &[StarterLoadout])
        ensures
            old(self).support_decks@.len() > 0 ==> *final(self) == *old(self),
            old(self).support_decks@.len() == 0 ==> {
                &&& final(self).version == old(self).version
                &&& final(self).roster_presets == old(self).roster_presets
                &&& final(self).support_decks@.len() == 1
                &&& starters@.len() > 0 ==> {
                    let deck = final(self).support_decks@[0];
                    &&& deck.id == starters@[0].id
                    &&& deck.name == starters@[0].name
                    &&& deck.story_cards@ == starters@[0].support_deck@
                }
                &&& starters@.len() == 0 ==> {
                    let deck = final(self).support_decks@[0];
                    &&& deck.id@ == "prototype_support_deck"@
                    &&& deck.name@ == "Prototype Support Deck"@
                    &&& deck.story_cards@.len() == 0
                }
                &&& final(self).support_decks@[0].magical_girl_roster@.len() == 0
                &&& final(self).support_decks@[0].baddie_roster@.len() == 0
                &&& final(self).support_decks@[0].recent_story_cards@.len() == 0
            },
    {
        if self.support_decks.len() > 0 {
            return;
        }
        if starters.len() > 0 {
            let starter = &starters[0];
            self.support_decks.push(DeckPreset {
                id: starter.id.clone(),
                name: starter.name.clone(),
                story_cards: copy_texts(&starter.support_deck),
                magical_girl_roster: Vec::new(),
                baddie_roster: Vec::new(),
                recent_story_cards: Vec::new(),
            });
        } else {
            self.support_decks.push(DeckPreset {
                id: "prototype_support_deck".to_owned(),
                name: "Prototype Support Deck".to_owned(),
                story_cards: Vec::new(),
                magical_girl_roster: Vec::new(),
                baddie_roster: Vec::new(),
                recent_story_cards: Vec::new(),
            });
        }
    }

    /// The active deck, if any.
    pub fn active_support_deck(&self) -> (r: Option<&DeckPreset>)
        ensures
            match r {
                Some(deck) => self.support_decks@.len() > 0 && *deck == self.support_decks@[0],
                None => self.support_decks@.len() == 0,
            },
    {
        if self.support_decks.len() > 0 {
            Some(&self.support_decks[0])
        } else {
            None
        }
    }

    /// The active deck, to change it in place.
    pub fn active_support_deck_mut(&mut self) -> (r: Option<&mut DeckPreset>)
        ensures
            match r {
                Some(deck) => {
                    &&& old(self).support_decks@.len() > 0
                    &&& *deck == old(self).support_decks@[0]
                    &&& final(self).support_decks@ == old(self).support_decks@.update(0, *final(deck))
                    &&& final(self).version == old(self).version
                    &&& final(self).roster_presets == old(self).roster_presets
                },
                None => old(self).support_decks@.len() == 0 && final(self).support_decks@.len() == 0
                    && final(self).version == old(self).version
                    && final(self).roster_presets == old(self).roster_presets,
            },
    {
        self.support_decks.as_mut_slice().first_mut()
    }

    /// The number of copies of `card_id` in the active deck, 0 without one.
    pub fn card_count(&self, card_id: &str) -> (r: usize)
        ensures
            r == self.copies_in_active(card_id@),
    {
        match self.active_support_deck() {
            Some(deck) => {
                let mut n: usize = 0;
                let mut i: usize = 0;
                while i < deck.story_cards.len()
                    invariant
                        *deck == self.support_decks@[0],
                        self.support_decks@.len() > 0,
                        i <= deck.story_cards@.len(),
                        n == count_of(texts(deck.story_cards@).subrange(0, i as int), card_id@),
                        n <= i,
                    decreases deck.story_cards@.len() - i,
                {
                    proof {
                        assert(texts(deck.story_cards@).subrange(0, i + 1) =~= texts(deck.story_cards@).subrange(
                            0,
                            i as int,
                        ).push(deck.story_cards@[i as int]@));
                        lemma_count_of_push(
                            texts(deck.story_cards@).subrange(0, i as int),
                            deck.story_cards@[i as int]@,
                            card_id@,
                        );
                    }
                    if crate::text::same_text(deck.story_cards[i].as_str(), card_id) {
                        n += 1;
                    }
                    i += 1;
                }
                proof {
                    assert(texts(deck.story_cards@).subrange(0, deck.story_cards@.len() as int) =~= texts(
                        deck.story_cards@,
                    ));
                }
                n
            },
            None => 0,
        }
    }

    /// Whether `card_id` may join the active deck.
    pub fn can_add_card(&self, card_id: &str, deck_rules: &DeckRules, collection: &CollectionSave) -> (r: bool)
        ensures
            r == self.may_add(card_id@, *deck_rules, *collection),
    {
        let deck = match self.active_support_deck() {
            Some(deck) => deck,
            None => return false,
        };
        deck.story_cards.len() < deck_rules.support_deck_size && self.card_count(card_id)
            < deck_rules.max_copies_per_story_card && collection.story_cards_available_for_deck(
            card_id,
            self.card_count(card_id),
        ) > 0
    }

    /// Adds one copy of `card_id` to the end of the active deck when it may join; tells
    /// whether it did.
    pub fn add_card(&mut self, card_id: &str, deck_rules: &DeckRules, collection: &CollectionSave) -> (r: bool)
        ensures
            r == old(self).may_add(card_id@, *deck_rules, *collection),
            r ==> old(self).active_cards_become(
                *final(self),
                texts(old(self).support_decks@[0].story_cards@).push(card_id@),
            ),
            !r ==> *final(self) == *old(self),
    {
        if !self.can_add_card(card_id, deck_rules, collection) {
            return false;
        }
        let ghost before = *self;
        match self.active_support_deck_mut() {
            Some(deck) => {
                let ghost cards = deck.story_cards@;
                deck.story_cards.push(card_id.to_owned());
                proof {
                    assert(texts(deck.story_cards@) =~= texts(cards).push(card_id@));
                }
                true
            },
            None => false,
        }
    }

    /// Takes the first copy of `card_id` out of the active deck; tells whether there was one.
    pub fn remove_card(&mut self, card_id: &str) -> (r: bool)
        ensures
            r == (old(self).support_decks@.len() > 0
                && first_index_of(texts(old(self).support_decks@[0].story_cards@), card_id@) is Some),
            r ==> old(self).active_cards_become(
                *final(self),
                texts(old(self).support_decks@[0].story_cards@).remove(
                    first_index_of(texts(old(self).support_decks@[0].story_cards@), card_id@)->0,
                ),
            ),
            !r ==> *final(self) == *old(self),
    {
        if self.support_decks.len() == 0 {
            return false;
        }
        let found = position_of(&self.support_decks[0].story_cards, card_id);
        let index = match found {
            Some(k) => k,
            None => return false,
        };
        proof {
            lemma_first_index_of(texts(self.support_decks@[0].story_cards@), card_id@);
        }
        match self.active_support_deck_mut() {
            Some(deck) => {
                let ghost cards = deck.story_cards@;
                deck.story_cards.remove(index);
                proof {
                    assert(texts(deck.story_cards@) =~= texts(cards).remove(index as int));
                }
                true
            },
            None => false,
        }
    }

    /// Replaces the active deck's id, name and cards with the starter's, creating the deck
    /// from the starter when there is none.
    pub fn load_starter_into_active(&mut self, starter: &StarterLoadout)
        ensures
            final(self).version == old(self).version,
            final(self).roster_presets == old(self).roster_presets,
            final(self).support_decks@.len() == if old(self).support_decks@.len() > 0 {
                old(self).support_decks@.len()
            } else {
                1
            },
            forall|i: int| 1 <= i < old(self).support_decks@.len() ==> #[trigger] final(self).support_decks@[i]
                == old(self).support_decks@[i],
            final(self).support_decks@[0].id == starter.id,
            final(self).support_decks@[0].name == starter.name,
            final(self).support_decks@[0].story_cards@ == starter.support_deck@,
            old(self).support_decks@.len() > 0 ==> {
                &&& final(self).support_decks@[0].magical_girl_roster == old(self).support_decks@[0].magical_girl_roster
                &&& final(self).support_decks@[0].baddie_roster == old(self).support_decks@[0].baddie_roster
                &&& final(self).support_decks@[0].recent_story_cards == old(self).support_decks@[0].recent_story_cards
            },
    {
        let starters = vec![StarterLoadout {
            id: starter.id.clone(),
            name: starter.name.clone(),
            magical_girl_main: starter.magical_girl_main.clone(),
            magical_girl_supports: copy_texts(&starter.magical_girl_supports),
            prime_baddie: starter.prime_baddie.clone(),
            baddie_supports: copy_texts(&starter.baddie_supports),
            support_deck: copy_texts(&starter.support_deck),
        }];
        self.ensure_active_support_deck(starters.as_slice());
        match self.active_support_deck_mut() {
            Some(deck) => {
                deck.id = starter.id.clone();
                deck.name = starter.name.clone();
                deck.story_cards = copy_texts(&starter.support_deck);
            },
            None => {},
        }
    }
}


/// Adding a card keeps the active deck within its size, the card within its copy limit, and
/// the deck never holds more copies than the collection owns.
pub proof fn lemma_add_card_respects_limits(
    before: DecksSave,
    after: DecksSave,
    card_id: Seq<char>,
    rules: DeckRules,
    collection: CollectionSave,
)
    requires
        before.may_add(card_id, rules, collection),
        before.active_cards_become(after, texts(before.support_decks@[0].story_cards@).push(card_id)),
    ensures
        after.support_decks@[0].story_cards@.len() <= rules.support_deck_size,
        after.copies_in_active(card_id) <= rules.max_copies_per_story_card,
        after.copies_in_active(card_id) <= collection.owned_copies(super::collection::CollectionCardKind::StoryCard, card_id),
        after.copies_in_active(card_id) == before.copies_in_active(card_id) + 1,
{
    let cards = texts(before.support_decks@[0].story_cards@);
    lemma_count_of_push(cards, card_id, card_id);
    assert(texts(after.support_decks@[0].story_cards@).len() == after.support_decks@[0].story_cards@.len());
}

/// Removing a card takes exactly one of its copies out of the active deck.
pub proof fn lemma_remove_card_takes_one_copy(before: DecksSave, after: DecksSave, card_id: Seq<char>)
    requires
        before.support_decks@.len() > 0,
        first_index_of(texts(before.support_decks@[0].story_cards@), card_id) is Some,
        before.active_cards_become(
            after,
            texts(before.support_decks@[0].story_cards@).remove(
                first_index_of(texts(before.support_decks@[0].story_cards@), card_id)->0,
            ),
        ),
    ensures
        after.copies_in_active(card_id) + 1 == before.copies_in_active(card_id),
{
    let cards = texts(before.support_decks@[0].story_cards@);
    lemma_first_index_of(cards, card_id);
    lemma_count_of_remove(cards, first_index_of(cards, card_id)->0, card_id);
}

} // verus!
