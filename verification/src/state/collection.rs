//! Versioned collection save data: which characters and story cards the player owns.

use vstd::prelude::*;

use crate::text::texts;

verus! {

/// The three kinds of collectible.
#[derive(Clone, Copy, Debug, PartialEq, Eq, Structural)]
pub enum CollectionCardKind {
    MagicalGirl,
    Baddie,
    StoryCard,
}

/// The owned collectibles, one entry per copy.
#[derive(Clone, Debug)]
pub struct CollectionSave {
    pub version: u32,
    pub owned_magical_girls: Vec<String>,
    pub owned_baddies: Vec<String>,
    pub owned_story_cards: Vec<String>,
}

/// How many entries of `items` are `id`.
pub open spec fn count_of(items: Seq<Seq<char>>, id: Seq<char>) -> nat
    decreases items.len(),
{
    if items.len() == 0 {
        0
    } else {
        count_of(items.drop_last(), id) + if items.last() == id { 1nat } else { 0nat }
    }
}

/// Counting over a list with one more entry.
pub proof fn lemma_count_of_push(items: Seq<Seq<char>>, item: Seq<char>, id: Seq<char>)
    ensures
        count_of(items.push(item), id) == count_of(items, id) + if item == id { 1nat } else { 0nat },
{
    assert(items.push(item).drop_last() =~= items);
}

impl Default for CollectionSave {
    fn default() -> (r: Self)
        ensures
            r.version == 1,
            r.owned_magical_girls@.len() == 0,
            r.owned_baddies@.len() == 0,
            r.owned_story_cards@.len() == 0,
    {
        CollectionSave {
            version: 1,
            owned_magical_girls: Vec::new(),
            owned_baddies: Vec::new(),
            owned_story_cards: Vec::new(),
        }
    }
}

impl CollectionSave {
    /// The ids owned of one kind, one entry per copy.
    pub open spec fn owned(self, kind: CollectionCardKind) -> Seq<Seq<char>> {
        match kind {
            CollectionCardKind::MagicalGirl => texts(self.owned_magical_girls@),
            CollectionCardKind::Baddie => texts(self.owned_baddies@),
            CollectionCardKind::StoryCard => texts(self.owned_story_cards@),
        }
    }

    /// How many copies of `id` of that kind are owned, capped at the largest `u32`.
    pub open spec fn owned_copies(self, kind: CollectionCardKind, id: Seq<char>) -> nat {
        let n = count_of(self.owned(kind), id);
        if n <= u32::MAX { n } else { u32::MAX as nat }
    }

    /// The owned copies of a story card beyond the `in_deck` already placed in a deck.
    pub open spec fn available_copies(self, card_id: Seq<char>, in_deck: nat) -> nat {
        let owned = self.owned_copies(CollectionCardKind::StoryCard, card_id);
        if owned > in_deck { (owned - in_deck) as nat } else { 0 }
    }

    /// Records `count` more copies of `id`.
    pub fn add_owned(&mut self, kind: CollectionCardKind, id: &str, count: u32)
        ensures
            final(self).version == old(self).version,
            forall|k: CollectionCardKind| k != kind ==> #[trigger] final(self).owned(k) == old(self).owned(k),
            final(self).owned(kind) == old(self).owned(kind) + Seq::new(count as nat, |i: int| id@),
    {
        let mut added: u32 = 0;
        while added < count
            invariant
                added <= count,
                self.version == old(self).version,
                forall|k: CollectionCardKind| k != kind ==> #[trigger] self.owned(k) == old(self).owned(k),
                self.owned(kind) == old(self).owned(kind) + Seq::new(added as nat, |i: int| id@),
            decreases count - added,
        {
            let entry = id.to_owned();
            let ghost before = self.owned(kind);
            let ghost prev = *self;
            match kind {
                CollectionCardKind::MagicalGirl => self.owned_magical_girls.push(entry),
                CollectionCardKind::Baddie => self.owned_baddies.push(entry),
                CollectionCardKind::StoryCard => self.owned_story_cards.push(entry),
            }
            added += 1;
            proof {
                assert forall|k: CollectionCardKind| k != kind implies #[trigger] self.owned(k) == prev.owned(k) by {
                    match k {
                        CollectionCardKind::MagicalGirl => assert(self.owned_magical_girls == prev.owned_magical_girls),
                        CollectionCardKind::Baddie => assert(self.owned_baddies == prev.owned_baddies),
                        CollectionCardKind::StoryCard => assert(self.owned_story_cards == prev.owned_story_cards),
                    }
                }
                assert(self.owned(kind) =~= before.push(id@));
                assert(self.owned(kind) =~= old(self).owned(kind) + Seq::new(added as nat, |i: int| id@));
            }
        }
    }

    /// How many copies of `id` of that kind are owned.
    pub fn owned_count(&self, kind: CollectionCardKind, id: &str) -> (r: u32)
        ensures
            r == self.owned_copies(kind, id@),
    {
        let entries = match kind {
            CollectionCardKind::MagicalGirl => &self.owned_magical_girls,
            CollectionCardKind::Baddie => &self.owned_baddies,
            CollectionCardKind::StoryCard => &self.owned_story_cards,
        };
        let mut n: u32 = 0;
        let mut i: usize = 0;
        while i < entries.len()
            invariant
                texts(entries@) == self.owned(kind),
                i <= entries@.len(),
                n == (if count_of(texts(entries@).subrange(0, i as int), id@) <= u32::MAX {
                    count_of(texts(entries@).subrange(0, i as int), id@)
                } else {
                    u32::MAX as nat
                }),
            decreases entries@.len() - i,
        {
            proof {
                assert(texts(entries@).subrange(0, i + 1) =~= texts(entries@).subrange(0, i as int).push(entries@[i as int]@));
                lemma_count_of_push(texts(entries@).subrange(0, i as int), entries@[i as int]@, id@);
            }
            if crate::text::same_text(entries[i].as_str(), id) {
                n = n.saturating_add(1);
            }
            i += 1;
        }
        proof {
            assert(texts(entries@).subrange(0, entries@.len() as int) =~= texts(entries@));
        }
        n
    }

    /// The owned copies of a story card that a deck holding `in_deck` of them could still take.
    pub fn story_cards_available_for_deck(&self, card_id: &str, in_deck: usize) -> (r: usize)
        ensures
            r == self.available_copies(card_id@, in_deck as nat),
    {
        let owned = self.owned_count(CollectionCardKind::StoryCard, card_id);
        let owned: usize = owned as usize;
        owned.saturating_sub(in_deck)
    }
}

} // verus!
