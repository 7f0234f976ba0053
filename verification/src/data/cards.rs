//! Character and story-card definitions.

use vstd::prelude::*;

use crate::text::same_text;

verus! {

/// A magical girl or baddie as the content files describe it.
#[derive(Clone, Debug)]
pub struct CharacterDefinition {
    pub id: String,
    pub name: String,
    pub kind: CharacterKindDef,
    pub base_power: i32,
    pub transformed_power: i32,
    pub final_power: i32,
    pub first_threshold: i32,
    pub second_threshold: i32,
}

#[derive(Clone, Copy, Debug, PartialEq, Eq, Structural)]
pub enum CharacterKindDef {
    MagicalGirl,
    Baddie,
}

/// A support-deck card.
#[derive(Clone, Debug)]
pub struct StoryCardDefinition {
    pub id: String,
    pub name: String,
    pub card_type: String,
    pub speed: CardSpeed,
    pub alignment: CardAlignment,
    pub playable_in_daily_life: bool,
    pub effects: Vec<CardEffect>,
}

impl StoryCardDefinition {
    /// Whether two cards have the same fields, the effects compared as sequences.
    pub open spec fn same_card(self, other: StoryCardDefinition) -> bool {
        &&& self.id == other.id
        &&& self.name == other.name
        &&& self.card_type == other.card_type
        &&& self.speed == other.speed
        &&& self.alignment == other.alignment
        &&& self.playable_in_daily_life == other.playable_in_daily_life
        &&& self.effects@ == other.effects@
    }

    /// A field-by-field copy of the card.
    pub fn duplicate(&self) -> (r: Self)
        ensures
            r.same_card(*self),
    {
        let mut effects: Vec<CardEffect> = Vec::new();
        let mut i: usize = 0;
        while i < self.effects.len()
            invariant
                i <= self.effects@.len(),
                effects@ == self.effects@.subrange(0, i as int),
            decreases self.effects@.len() - i,
        {
            effects.push(self.effects[i]);
            i += 1;
            proof {
                assert(effects@ =~= self.effects@.subrange(0, i as int));
            }
        }
        proof {
            assert(effects@ =~= self.effects@);
        }
        StoryCardDefinition {
            id: self.id.clone(),
            name: self.name.clone(),
            card_type: self.card_type.clone(),
            speed: self.speed,
            alignment: self.alignment,
            playable_in_daily_life: self.playable_in_daily_life,
            effects,
        }
    }
}

/// Whether two card lists hold the same cards in the same order.
pub open spec fn same_cards(a: Seq<StoryCardDefinition>, b: Seq<StoryCardDefinition>) -> bool {
    a.len() == b.len() && forall|i: int| 0 <= i < a.len() ==> (#[trigger] a[i]).same_card(b[i])
}

/// A copy of a list of cards.
pub fn copy_cards(cards: &Vec<StoryCardDefinition>) -> (r: Vec<StoryCardDefinition>)
    ensures
        same_cards(r@, cards@),
{
    let mut out: Vec<StoryCardDefinition> = Vec::new();
    let mut i: usize = 0;
    while i < cards.len()
        invariant
            i <= cards@.len(),
            out@.len() == i,
            forall|j: int| 0 <= j < i ==> (#[trigger] out@[j]).same_card(cards@[j]),
        decreases cards@.len() - i,
    {
        out.push(cards[i].duplicate());
        i += 1;
    }
    out
}

/// The timing window in which a story card may be played.
#[derive(Clone, Copy, Debug, PartialEq, Eq, Structural)]
pub enum CardSpeed {
    DailyLife,
    Reaction,
    Encounter,
}

#[derive(Clone, Copy, Debug, PartialEq, Eq, Structural)]
pub enum CardAlignment {
    MagicalGirl,
    Baddie,
    Neutral,
}

/// What resolving a story card does.
#[derive(Clone, Copy, Debug, PartialEq, Eq, Structural)]
pub enum CardEffect {
    GainMainRadiance { amount: i32 },
    GainRevealedSupportRadiance { amount: i32 },
    ReduceOpponentMainRadiance { amount: i32 },
    GainPrimeDread { amount: i32 },
    GainRevealedSupportDread { amount: i32 },
    ReduceOpponentPrimeDread { amount: i32 },
    GainMainPowerThisEncounter { amount: i32 },
    GainMainPowerNextEncounter { amount: i32 },
    ReduceOpponentMainPowerThisEncounter { amount: i32 },
    GainPrimePowerThisEncounter { amount: i32 },
    GainRevealedSupportPowerThisEncounter { amount: i32 },
    GainFirstRevealedSupportRadiance { amount: i32 },
    ExhaustFirstRevealedOpponentSupport,
    RevealFirstHiddenOwnSupport,
}

/// The name of the first story card with this id, if there is one.
pub open spec fn card_name_found(cards: Seq<StoryCardDefinition>, id: Seq<char>) -> Option<Seq<char>>
    decreases cards.len(),
{
    if cards.len() == 0 {
        None
    } else if cards[0].id@ == id {
        Some(cards[0].name@)
    } else {
        card_name_found(cards.drop_first(), id)
    }
}

/// The name of the first story card with this id, if there is one.
pub fn find_card_name(cards: &Vec<StoryCardDefinition>, id: &str) -> (r: Option<String>)
    ensures
        match r {
            Some(name) => card_name_found(cards@, id@) == Some(name@),
            None => card_name_found(cards@, id@) is None,
        },
{
    let mut i: usize = 0;
    proof {
        assert(cards@.skip(0) =~= cards@);
    }
    while i < cards.len()
        invariant
            i <= cards@.len(),
            card_name_found(cards@.skip(i as int), id@) == card_name_found(cards@, id@),
        decreases cards@.len() - i,
    {
        proof {
            assert(cards@.skip(i as int)[0] == cards@[i as int]);
            assert(cards@.skip(i as int).drop_first() =~= cards@.skip(i + 1));
        }
        if same_text(cards[i].id.as_str(), id) {
            proof {
                assert(card_name_found(cards@.skip(i as int), id@) == Some(cards@[i as int].name@));
            }
            return Some(cards[i].name.clone());
        }
        i += 1;
    }
    proof {
        assert(cards@.skip(i as int).len() == 0);
    }
    None
}

} // verus!
