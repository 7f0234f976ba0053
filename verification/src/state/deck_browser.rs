//! Deck-builder browser sort, group, and view modes.

use std::cmp::Ordering;

use vstd::prelude::*;

use crate::data::{CardAlignment, CardSpeed, StoryCardDefinition};

verus! {

/// How the browser orders story cards.
#[derive(Clone, Copy, Debug, PartialEq, Eq, Structural)]
pub enum DeckSortMode {
    Alphabetical,
    Newest,
    OwnedCount,
    CopiesInDeck,
}

/// How the browser groups story cards; `NoGrouping` shows one flat list.
#[derive(Clone, Copy, Debug, PartialEq, Eq, Structural)]
pub enum DeckGroupMode {
    NoGrouping,
    Alignment,
    Speed,
    CardType,
}

/// How the browser lays story cards out.
#[derive(Clone, Copy, Debug, PartialEq, Eq, Structural)]
pub enum DeckViewMode {
    Grid,
    CompactList,
}

/// What the browser knows of a card besides its definition.
#[derive(Clone, Copy, Debug, PartialEq, Eq, Structural)]
pub struct DeckBrowserCardStats {
    pub original_index: usize,
    pub owned_count: u32,
    pub copies_in_deck: usize,
}

impl Default for DeckBrowserCardStats {
    fn default() -> (r: Self)
        ensures
            r.original_index == 0,
            r.owned_count == 0,
            r.copies_in_deck == 0,
    {
        DeckBrowserCardStats { original_index: 0, owned_count: 0, copies_in_deck: 0 }
    }
}

/// The order of two indices or copy counts.
pub open spec fn number_order(a: usize, b: usize) -> Ordering {
    if a < b {
        Ordering::Less
    } else if a == b {
        Ordering::Equal
    } else {
        Ordering::Greater
    }
}

/// The order of two owned counts.
pub open spec fn count_order(a: u32, b: u32) -> Ordering {
    if a < b {
        Ordering::Less
    } else if a == b {
        Ordering::Equal
    } else {
        Ordering::Greater
    }
}

/// Whether `a` comes before `b` lexicographically by code point.
pub open spec fn text_before(a: Seq<char>, b: Seq<char>) -> bool
    decreases a.len(),
{
    if a.len() == 0 {
        b.len() > 0
    } else if b.len() == 0 {
        false
    } else if a[0] < b[0] {
        true
    } else if a[0] > b[0] {
        false
    } else {
        text_before(a.drop_first(), b.drop_first())
    }
}

/// No text comes before itself.
pub proof fn lemma_text_before_irreflexive(a: Seq<char>)
    ensures
        !text_before(a, a),
    decreases a.len(),
{
    if a.len() > 0 {
        lemma_text_before_irreflexive(a.drop_first());
    }
}

/// Coming before is transitive.
pub proof fn lemma_text_before_transitive(a: Seq<char>, b: Seq<char>, c: Seq<char>)
    requires
        text_before(a, b),
        text_before(b, c),
    ensures
        text_before(a, c),
    decreases a.len(),
{
    if a.len() > 0 && b.len() > 0 && c.len() > 0 && a[0] == b[0] && b[0] == c[0] {
        lemma_text_before_transitive(a.drop_first(), b.drop_first(), c.drop_first());
    }
}

/// Of two different texts, one comes before the other.
pub proof fn lemma_text_before_total(a: Seq<char>, b: Seq<char>)
    requires
        a != b,
    ensures
        text_before(a, b) || text_before(b, a),
    decreases a.len(),
{
    if a.len() > 0 && b.len() > 0 && a[0] == b[0] {
        if a.drop_first() == b.drop_first() {
            assert(a =~= seq![a[0]] + a.drop_first());
            assert(b =~= seq![b[0]] + b.drop_first());
        }
        lemma_text_before_total(a.drop_first(), b.drop_first());
    } else if a.len() == 0 && b.len() == 0 {
        assert(a =~= b);
    }
}

/// The lexicographic order of two texts by code point, which is the order of their UTF-8
/// bytes and so the order `str` itself has.
pub open spec fn text_order(a: Seq<char>, b: Seq<char>) -> Ordering {
    if text_before(a, b) {
        Ordering::Less
    } else if a == b {
        Ordering::Equal
    } else {
        Ordering::Greater
    }
}

/// The first order, or the second one when the first finds the two equal.
pub open spec fn then_order(first: Ordering, second: Ordering) -> Ordering {
    match first {
        Ordering::Equal => second,
        _ => first,
    }
}

/// The order of two browser entries under a sort mode: by name then id, or by a number that
/// puts larger values first and then by name.
pub open spec fn story_card_order(
    left: StoryCardDefinition,
    left_stats: DeckBrowserCardStats,
    right: StoryCardDefinition,
    right_stats: DeckBrowserCardStats,
    mode: DeckSortMode,
) -> Ordering {
    let by_name = text_order(left.name@, right.name@);
    match mode {
        DeckSortMode::Alphabetical => then_order(by_name, text_order(left.id@, right.id@)),
        DeckSortMode::Newest => then_order(
            number_order(right_stats.original_index, left_stats.original_index),
            by_name,
        ),
        DeckSortMode::OwnedCount => then_order(
            count_order(right_stats.owned_count, left_stats.owned_count),
            by_name,
        ),
        DeckSortMode::CopiesInDeck => then_order(
            number_order(right_stats.copies_in_deck, left_stats.copies_in_deck),
            by_name,
        ),
    }
}

/// The counting sort modes put larger numbers first: a card with more copies in the deck,
/// more copies owned, or a later place in the content comes before one with fewer or an
/// earlier place, and only a tie leaves the decision to the names.
pub proof fn lemma_sorting_puts_larger_numbers_first(
    left: StoryCardDefinition,
    ls: DeckBrowserCardStats,
    right: StoryCardDefinition,
    rs: DeckBrowserCardStats,
)
    ensures
        ls.copies_in_deck > rs.copies_in_deck ==> story_card_order(left, ls, right, rs, DeckSortMode::CopiesInDeck)
            == Ordering::Less,
        ls.copies_in_deck < rs.copies_in_deck ==> story_card_order(left, ls, right, rs, DeckSortMode::CopiesInDeck)
            == Ordering::Greater,
        ls.copies_in_deck == rs.copies_in_deck ==> story_card_order(left, ls, right, rs, DeckSortMode::CopiesInDeck)
            == text_order(left.name@, right.name@),
        ls.owned_count > rs.owned_count ==> story_card_order(left, ls, right, rs, DeckSortMode::OwnedCount)
            == Ordering::Less,
        ls.owned_count < rs.owned_count ==> story_card_order(left, ls, right, rs, DeckSortMode::OwnedCount)
            == Ordering::Greater,
        ls.owned_count == rs.owned_count ==> story_card_order(left, ls, right, rs, DeckSortMode::OwnedCount)
            == text_order(left.name@, right.name@),
        ls.original_index > rs.original_index ==> story_card_order(left, ls, right, rs, DeckSortMode::Newest)
            == Ordering::Less,
        ls.original_index < rs.original_index ==> story_card_order(left, ls, right, rs, DeckSortMode::Newest)
            == Ordering::Greater,
        text_before(left.name@, right.name@) ==> story_card_order(left, ls, right, rs, DeckSortMode::Alphabetical)
            == Ordering::Less,
{
}

/// Text order is antisymmetric: swapping the two texts swaps `Less` and `Greater`.
pub proof fn lemma_text_order_swaps(a: Seq<char>, b: Seq<char>)
    ensures
        (text_order(a, b) == Ordering::Less) == (text_order(b, a) == Ordering::Greater),
        (text_order(a, b) == Ordering::Equal) == (a == b),
{
    lemma_text_before_irreflexive(a);
    lemma_text_before_irreflexive(b);
    if text_before(a, b) && text_before(b, a) {
        lemma_text_before_transitive(a, b, a);
    }
    if a != b {
        lemma_text_before_total(a, b);
    }
}

/// Comparing two cards the other way round reverses the answer under every sort mode: the
/// browser's order is consistent, whichever card is looked at first.
pub proof fn lemma_card_order_swaps(
    left: StoryCardDefinition,
    ls: DeckBrowserCardStats,
    right: StoryCardDefinition,
    rs: DeckBrowserCardStats,
    mode: DeckSortMode,
)
    ensures
        (story_card_order(left, ls, right, rs, mode) == Ordering::Less) == (story_card_order(right, rs, left, ls, mode)
            == Ordering::Greater),
        (story_card_order(left, ls, right, rs, mode) == Ordering::Greater) == (story_card_order(right, rs, left, ls, mode)
            == Ordering::Less),
{
    lemma_text_order_swaps(left.name@, right.name@);
    lemma_text_order_swaps(right.name@, left.name@);
    lemma_text_order_swaps(left.id@, right.id@);
    lemma_text_order_swaps(right.id@, left.id@);
}

/// The characters of a text.
fn chars_of(s: &str) -> (r: Vec<char>)
    ensures
        r@ == s@,
{
    broadcast use vstd::string::group_string_axioms;

    let mut out: Vec<char> = Vec::new();
    for c in it: s.chars()
        invariant
            it.seq() == s@,
            out@ =~= s@.take(it.index()),
    {
        out.push(c);
        proof {
            assert(out@ =~= s@.take(it.index() + 1));
        }
    }
    proof {
        assert(out@ =~= s@);
    }
    out
}

/// Whether `a` comes before `b` lexicographically.
pub(crate) fn comes_before(a: &str, b: &str) -> (r: bool)
    ensures
        r == text_before(a@, b@),
{
    let x = chars_of(a);
    let y = chars_of(b);
    let mut i: usize = 0;
    proof {
        assert(x@.skip(0) =~= x@);
        assert(y@.skip(0) =~= y@);
    }
    while i < x.len() && i < y.len()
        invariant
            x@ == a@,
            y@ == b@,
            i <= x@.len(),
            i <= y@.len(),
            text_before(x@, y@) == text_before(x@.skip(i as int), y@.skip(i as int)),
        decreases x@.len() - i,
    {
        proof {
            assert(x@.skip(i as int).len() == x@.len() - i);
            assert(y@.skip(i as int).len() == y@.len() - i);
            assert(x@.skip(i as int)[0] == x@[i as int]);
            assert(y@.skip(i as int)[0] == y@[i as int]);
        }
        if x[i] < y[i] {
            return true;
        }
        if x[i] > y[i] {
            return false;
        }
        proof {
            assert(x@.skip(i as int).drop_first() =~= x@.skip(i + 1));
            assert(y@.skip(i as int).drop_first() =~= y@.skip(i + 1));
        }
        i += 1;
    }
    proof {
        assert(x@.skip(i as int).len() == x@.len() - i);
        assert(y@.skip(i as int).len() == y@.len() - i);
    }
    i == x.len() && i < y.len()
}

/// The lexicographic order of two texts.
fn order_texts(a: &str, b: &str) -> (r: Ordering)
    ensures
        r == text_order(a@, b@),
{
    if comes_before(a, b) {
        Ordering::Less
    } else if crate::text::same_text(a, b) {
        Ordering::Equal
    } else {
        Ordering::Greater
    }
}

/// The order of two numbers.
fn order_numbers(a: usize, b: usize) -> (r: Ordering)
    ensures
        r == number_order(a, b),
{
    if a < b {
        Ordering::Less
    } else if a == b {
        Ordering::Equal
    } else {
        Ordering::Greater
    }
}

/// The order of two browser entries under the sort mode.
pub fn compare_story_cards(
    left: (&StoryCardDefinition, DeckBrowserCardStats),
    right: (&StoryCardDefinition, DeckBrowserCardStats),
    mode: DeckSortMode,
) -> (r: Ordering)
    ensures
        r == story_card_order(*left.0, left.1, *right.0, right.1, mode),
{
    let by_name = order_texts(left.0.name.as_str(), right.0.name.as_str());
    let first = match mode {
        DeckSortMode::Alphabetical => by_name,
        DeckSortMode::Newest => order_numbers(right.1.original_index, left.1.original_index),
        DeckSortMode::OwnedCount => order_counts(right.1.owned_count, left.1.owned_count),
        DeckSortMode::CopiesInDeck => order_numbers(right.1.copies_in_deck, left.1.copies_in_deck),
    };
    match first {
        Ordering::Equal => match mode {
            DeckSortMode::Alphabetical => order_texts(left.0.id.as_str(), right.0.id.as_str()),
            _ => by_name,
        },
        _ => first,
    }
}

/// The order of two owned counts.
fn order_counts(a: u32, b: u32) -> (r: Ordering)
    ensures
        r == count_order(a, b),
{
    if a < b {
        Ordering::Less
    } else if a == b {
        Ordering::Equal
    } else {
        Ordering::Greater
    }
}

/// The heading under which a card is grouped, if the mode groups at all.
pub open spec fn group_label(card: StoryCardDefinition, mode: DeckGroupMode) -> Option<Seq<char>> {
    match mode {
        DeckGroupMode::NoGrouping => None,
        DeckGroupMode::Alignment => Some(
            match card.alignment {
                CardAlignment::MagicalGirl => "Magical Girl"@,
                CardAlignment::Baddie => "Baddie"@,
                CardAlignment::Neutral => "Neutral"@,
            },
        ),
        DeckGroupMode::Speed => Some(
            match card.speed {
                CardSpeed::DailyLife => "Daily"@,
                CardSpeed::Reaction => "Reaction"@,
                CardSpeed::Encounter => "Encounter"@,
            },
        ),
        DeckGroupMode::CardType => Some(card.card_type@),
    }
}

/// The heading under which a card is grouped, if the mode groups at all.
pub fn card_group_label(card: &StoryCardDefinition, mode: DeckGroupMode) -> (r: Option<String>)
    ensures
        match r {
            Some(label) => group_label(*card, mode) == Some(label@),
            None => group_label(*card, mode) is None,
        },
{
    match mode {
        DeckGroupMode::NoGrouping => None,
        DeckGroupMode::Alignment => Some(
            match card.alignment {
                CardAlignment::MagicalGirl => "Magical Girl".to_owned(),
                CardAlignment::Baddie => "Baddie".to_owned(),
                CardAlignment::Neutral => "Neutral".to_owned(),
            },
        ),
        DeckGroupMode::Speed => Some(
            match card.speed {
                CardSpeed::DailyLife => "Daily".to_owned(),
                CardSpeed::Reaction => "Reaction".to_owned(),
                CardSpeed::Encounter => "Encounter".to_owned(),
            },
        ),
        DeckGroupMode::CardType => Some(card.card_type.clone()),
    }
}

} // verus!
