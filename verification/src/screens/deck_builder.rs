//! The deck builder's browser modes, labels, text helpers and dialog state.

use vstd::prelude::*;

use crate::data::ui_text::text_lookup;
use crate::data::{CardAlignment, CardSpeed, StoryCardDefinition, UiText};
use crate::state::deck_browser::{
    comes_before, lemma_text_before_irreflexive, lemma_text_before_total, lemma_text_before_transitive, text_before,
};
use crate::screens::ScreenAction;
use crate::state::{AppState, CollectionCardKind, DeckGroupMode, DeckSortMode, DeckViewMode};
use crate::text::{is_white_space, push_char, same_text, text_from_chars, texts, white_space};

verus! {

/// The sort mode after `mode` in the browser's cycle.
pub open spec fn sort_mode_after(mode: DeckSortMode) -> DeckSortMode {
    match mode {
        DeckSortMode::Alphabetical => DeckSortMode::Newest,
        DeckSortMode::Newest => DeckSortMode::OwnedCount,
        DeckSortMode::OwnedCount => DeckSortMode::CopiesInDeck,
        DeckSortMode::CopiesInDeck => DeckSortMode::Alphabetical,
    }
}

/// The group mode after `mode` in the browser's cycle.
pub open spec fn group_mode_after(mode: DeckGroupMode) -> DeckGroupMode {
    match mode {
        DeckGroupMode::NoGrouping => DeckGroupMode::Alignment,
        DeckGroupMode::Alignment => DeckGroupMode::Speed,
        DeckGroupMode::Speed => DeckGroupMode::CardType,
        DeckGroupMode::CardType => DeckGroupMode::NoGrouping,
    }
}

pub fn next_sort_mode(mode: DeckSortMode) -> (r: DeckSortMode)
    ensures
        r == sort_mode_after(mode),
{
    match mode {
        DeckSortMode::Alphabetical => DeckSortMode::Newest,
        DeckSortMode::Newest => DeckSortMode::OwnedCount,
        DeckSortMode::OwnedCount => DeckSortMode::CopiesInDeck,
        DeckSortMode::CopiesInDeck => DeckSortMode::Alphabetical,
    }
}

pub fn next_group_mode(mode: DeckGroupMode) -> (r: DeckGroupMode)
    ensures
        r == group_mode_after(mode),
{
    match mode {
        DeckGroupMode::NoGrouping => DeckGroupMode::Alignment,
        DeckGroupMode::Alignment => DeckGroupMode::Speed,
        DeckGroupMode::Speed => DeckGroupMode::CardType,
        DeckGroupMode::CardType => DeckGroupMode::NoGrouping,
    }
}

pub fn next_view_mode(mode: DeckViewMode) -> (r: DeckViewMode)
    ensures
        r == match mode {
            DeckViewMode::Grid => DeckViewMode::CompactList,
            DeckViewMode::CompactList => DeckViewMode::Grid,
        },
{
    match mode {
        DeckViewMode::Grid => DeckViewMode::CompactList,
        DeckViewMode::CompactList => DeckViewMode::Grid,
    }
}

/// Cycling the sort mode four times, or the group mode four times, comes back to the start.
pub proof fn lemma_mode_cycles_return(sort: DeckSortMode, group: DeckGroupMode)
    ensures
        sort_mode_after(sort_mode_after(sort_mode_after(sort_mode_after(sort)))) == sort,
        group_mode_after(group_mode_after(group_mode_after(group_mode_after(group)))) == group,
{
}

/// The catalog key of a sort mode's label.
pub open spec fn sort_mode_key(mode: DeckSortMode) -> Seq<char> {
    match mode {
        DeckSortMode::Alphabetical => "deck_builder_sort_alphabetical"@,
        DeckSortMode::Newest => "deck_builder_sort_newest"@,
        DeckSortMode::OwnedCount => "deck_builder_sort_owned"@,
        DeckSortMode::CopiesInDeck => "deck_builder_sort_in_deck"@,
    }
}

pub fn sort_mode_label<'a>(ui_text: &'a UiText, mode: DeckSortMode) -> (r: &'a str)
    ensures
        r@ == text_lookup(ui_text.values@, sort_mode_key(mode)),
{
    match mode {
        DeckSortMode::Alphabetical => ui_text.get("deck_builder_sort_alphabetical"),
        DeckSortMode::Newest => ui_text.get("deck_builder_sort_newest"),
        DeckSortMode::OwnedCount => ui_text.get("deck_builder_sort_owned"),
        DeckSortMode::CopiesInDeck => ui_text.get("deck_builder_sort_in_deck"),
    }
}

/// The catalog key of a group mode's label.
pub open spec fn group_mode_key(mode: DeckGroupMode) -> Seq<char> {
    match mode {
        DeckGroupMode::NoGrouping => "deck_builder_group_none"@,
        DeckGroupMode::Alignment => "deck_builder_group_alignment"@,
        DeckGroupMode::Speed => "deck_builder_group_speed"@,
        DeckGroupMode::CardType => "deck_builder_group_card_type"@,
    }
}

pub fn group_mode_label<'a>(ui_text: &'a UiText, mode: DeckGroupMode) -> (r: &'a str)
    ensures
        r@ == text_lookup(ui_text.values@, group_mode_key(mode)),
{
    match mode {
        DeckGroupMode::NoGrouping => ui_text.get("deck_builder_group_none"),
        DeckGroupMode::Alignment => ui_text.get("deck_builder_group_alignment"),
        DeckGroupMode::Speed => ui_text.get("deck_builder_group_speed"),
        DeckGroupMode::CardType => ui_text.get("deck_builder_group_card_type"),
    }
}

/// The catalog key of a view mode's label.
pub open spec fn view_mode_key(mode: DeckViewMode) -> Seq<char> {
    match mode {
        DeckViewMode::Grid => "deck_builder_view_grid"@,
        DeckViewMode::CompactList => "deck_builder_view_list"@,
    }
}

pub fn view_mode_label<'a>(ui_text: &'a UiText, mode: DeckViewMode) -> (r: &'a str)
    ensures
        r@ == text_lookup(ui_text.values@, view_mode_key(mode)),
{
    match mode {
        DeckViewMode::Grid => ui_text.get("deck_builder_view_grid"),
        DeckViewMode::CompactList => ui_text.get("deck_builder_view_list"),
    }
}

/// The catalog key of a collectible kind's label.
pub open spec fn collection_kind_key(kind: CollectionCardKind) -> Seq<char> {
    match kind {
        CollectionCardKind::MagicalGirl => "deck_builder_kind_magical_girl"@,
        CollectionCardKind::Baddie => "deck_builder_kind_baddie"@,
        CollectionCardKind::StoryCard => "deck_builder_kind_story"@,
    }
}

pub fn collection_kind_label<'a>(ui_text: &'a UiText, kind: CollectionCardKind) -> (r: &'a str)
    ensures
        r@ == text_lookup(ui_text.values@, collection_kind_key(kind)),
{
    match kind {
        CollectionCardKind::MagicalGirl => ui_text.get("deck_builder_kind_magical_girl"),
        CollectionCardKind::Baddie => ui_text.get("deck_builder_kind_baddie"),
        CollectionCardKind::StoryCard => ui_text.get("deck_builder_kind_story"),
    }
}

/// The catalog key of a speed filter's label.
pub open spec fn speed_filter_key(speed: CardSpeed) -> Seq<char> {
    match speed {
        CardSpeed::DailyLife => "deck_builder_filter_speed_daily"@,
        CardSpeed::Reaction => "deck_builder_filter_speed_reaction"@,
        CardSpeed::Encounter => "deck_builder_filter_speed_encounter"@,
    }
}

pub fn speed_filter_label<'a>(ui_text: &'a UiText, speed: CardSpeed) -> (r: &'a str)
    ensures
        r@ == text_lookup(ui_text.values@, speed_filter_key(speed)),
{
    match speed {
        CardSpeed::DailyLife => ui_text.get("deck_builder_filter_speed_daily"),
        CardSpeed::Reaction => ui_text.get("deck_builder_filter_speed_reaction"),
        CardSpeed::Encounter => ui_text.get("deck_builder_filter_speed_encounter"),
    }
}

/// The catalog key of an alignment filter's label.
pub open spec fn alignment_filter_key(alignment: CardAlignment) -> Seq<char> {
    match alignment {
        CardAlignment::MagicalGirl => "deck_builder_filter_align_mg"@,
        CardAlignment::Baddie => "deck_builder_filter_align_baddie"@,
        CardAlignment::Neutral => "deck_builder_filter_align_neutral"@,
    }
}

pub fn alignment_filter_label<'a>(ui_text: &'a UiText, alignment: CardAlignment) -> (r: &'a str)
    ensures
        r@ == text_lookup(ui_text.values@, alignment_filter_key(alignment)),
{
    match alignment {
        CardAlignment::MagicalGirl => ui_text.get("deck_builder_filter_align_mg"),
        CardAlignment::Baddie => ui_text.get("deck_builder_filter_align_baddie"),
        CardAlignment::Neutral => ui_text.get("deck_builder_filter_align_neutral"),
    }
}

/// The ASCII capital of a lower-case ASCII letter; any other character unchanged.
pub open spec fn ascii_upper(c: char) -> char {
    if 'a' <= c <= 'z' {
        ((c as u32) - 32) as char
    } else {
        c
    }
}

/// A card type as a title: each `_` becomes a space and each word starts with a capital.
pub open spec fn title_case(s: Seq<char>) -> Seq<char> {
    Seq::new(
        s.len(),
        |i: int|
            if s[i] == '_' {
                ' '
            } else if i == 0 || s[i - 1] == '_' {
                ascii_upper(s[i])
            } else {
                s[i]
            },
    )
}

fn upper_ascii(c: char) -> (r: char)
    ensures
        r == ascii_upper(c),
{
    if 'a' <= c && c <= 'z' {
        let code: u8 = (c as u8) - 32;
        code as char
    } else {
        c
    }
}

/// The card type as a title, such as "Bond Moment" for "bond_moment".
pub fn title_case_card_type(card_type: &str) -> (r: String)
    ensures
        r@ == title_case(card_type@),
{
    broadcast use vstd::string::group_string_axioms;

    let mut out: Vec<char> = Vec::new();
    let mut word_start: bool = true;
    for c in it: card_type.chars()
        invariant
            it.seq() == card_type@,
            out@ == title_case(card_type@).take(it.index()),
            word_start == (it.index() == 0 || card_type@[it.index() - 1] == '_'),
    {
        let mapped = if c == '_' {
            ' '
        } else if word_start {
            upper_ascii(c)
        } else {
            c
        };
        out.push(mapped);
        word_start = c == '_';
        proof {
            assert(out@ =~= title_case(card_type@).take(it.index() + 1));
        }
    }
    proof {
        assert(out@ =~= title_case(card_type@));
    }
    text_from_chars(&out)
}

/// The pieces of a text between commas; there is always at least one.
pub open spec fn comma_pieces(s: Seq<char>) -> Seq<Seq<char>>
    decreases s.len(),
{
    if s.len() == 0 {
        seq![Seq::empty()]
    } else {
        let before = comma_pieces(s.drop_last());
        if s.last() == ',' {
            before.push(Seq::empty())
        } else {
            before.update(before.len() - 1, before.last().push(s.last()))
        }
    }
}

/// A text without its leading white space.
pub open spec fn trim_start(s: Seq<char>) -> Seq<char>
    decreases s.len(),
{
    if s.len() > 0 && is_white_space(s[0]) { trim_start(s.drop_first()) } else { s }
}

/// A text without its trailing white space.
pub open spec fn trim_end(s: Seq<char>) -> Seq<char>
    decreases s.len(),
{
    if s.len() > 0 && is_white_space(s.last()) { trim_end(s.drop_last()) } else { s }
}

/// A text without white space at either end, as `str::trim` gives it.
pub open spec fn trimmed(s: Seq<char>) -> Seq<char> {
    trim_end(trim_start(s))
}

/// The trimmed pieces that are not empty, in order.
pub open spec fn kept_tags(pieces: Seq<Seq<char>>) -> Seq<Seq<char>>
    decreases pieces.len(),
{
    if pieces.len() == 0 {
        Seq::empty()
    } else {
        let before = kept_tags(pieces.drop_last());
        let tag = trimmed(pieces.last());
        if tag.len() > 0 { before.push(tag) } else { before }
    }
}

/// The tags written in a comma-separated text.
pub open spec fn tags_of(s: Seq<char>) -> Seq<Seq<char>> {
    kept_tags(comma_pieces(s))
}

proof fn lemma_comma_pieces_len(s: Seq<char>)
    ensures
        comma_pieces(s).len() >= 1,
    decreases s.len(),
{
    if s.len() > 0 {
        lemma_comma_pieces_len(s.drop_last());
    }
}

/// The characters of `chars` without white space at either end.
fn trim_chars(chars: &Vec<char>) -> (r: Vec<char>)
    ensures
        r@ == trimmed(chars@),
{
    let mut start: usize = 0;
    proof {
        assert(chars@.skip(0) =~= chars@);
    }
    while start < chars.len() && white_space(chars[start])
        invariant
            start <= chars@.len(),
            trim_start(chars@) == trim_start(chars@.skip(start as int)),
        decreases chars@.len() - start,
    {
        proof {
            assert(chars@.skip(start as int).drop_first() =~= chars@.skip(start + 1));
        }
        start += 1;
    }
    let mut end: usize = chars.len();
    while end > start && white_space(chars[end - 1])
        invariant
            start <= end <= chars@.len(),
            trim_start(chars@) == chars@.subrange(start as int, chars@.len() as int),
            trimmed(chars@) == trim_end(chars@.subrange(start as int, end as int)),
        decreases end,
    {
        proof {
            assert(chars@.subrange(start as int, end as int).drop_last() =~= chars@.subrange(start as int, end - 1));
        }
        end -= 1;
    }
    let mut out: Vec<char> = Vec::new();
    let mut i: usize = start;
    while i < end
        invariant
            start <= i <= end <= chars@.len(),
            out@ == chars@.subrange(start as int, i as int),
        decreases end - i,
    {
        out.push(chars[i]);
        i += 1;
        proof {
            assert(out@ =~= chars@.subrange(start as int, i as int));
        }
    }
    out
}

/// The tags of a comma-separated text: each piece trimmed, empty pieces dropped.
pub fn split_tag_text(text: &str) -> (r: Vec<String>)
    ensures
        texts(r@) == tags_of(text@),
{
    broadcast use vstd::string::group_string_axioms;

    let mut tags: Vec<String> = Vec::new();
    let mut current: Vec<char> = Vec::new();
    for c in it: text.chars()
        invariant
            it.seq() == text@,
            comma_pieces(text@.take(it.index())).len() >= 1,
            current@ == comma_pieces(text@.take(it.index())).last(),
            texts(tags@) == kept_tags(comma_pieces(text@.take(it.index())).drop_last()),
    {
        let ghost prefix = text@.take(it.index());
        proof {
            assert(text@.take(it.index() + 1).drop_last() =~= prefix);
            lemma_comma_pieces_len(prefix);
        }
        if c == ',' {
            let tag = trim_chars(&current);
            let ghost before = tags@;
            if tag.len() > 0 {
                tags.push(text_from_chars(&tag));
            }
            current = Vec::new();
            proof {
                let pieces = comma_pieces(prefix);
                assert(pieces.drop_last().push(pieces.last()) =~= pieces);
                assert(comma_pieces(text@.take(it.index() + 1)).drop_last() =~= pieces);
                assert(texts(tags@) =~= kept_tags(pieces));
            }
        } else {
            current.push(c);
            proof {
                let pieces = comma_pieces(prefix);
                assert(comma_pieces(text@.take(it.index() + 1)).drop_last() =~= pieces.drop_last());
            }
        }
    }
    let tag = trim_chars(&current);
    let ghost before = tags@;
    if tag.len() > 0 {
        tags.push(text_from_chars(&tag));
    }
    proof {
        assert(text@.take(text@.len() as int) =~= text@);
        let pieces = comma_pieces(text@);
        lemma_comma_pieces_len(text@);
        assert(pieces.drop_last().push(pieces.last()) =~= pieces);
        assert(texts(tags@) =~= kept_tags(pieces));
    }
    tags
}


/// The ASCII lower case of a character; any other character unchanged.
pub open spec fn ascii_lower(c: char) -> char {
    if 'A' <= c <= 'Z' {
        ((c as u32) + 32) as char
    } else {
        c
    }
}

/// The key card types are sorted and told apart by: their ASCII lower case.
pub open spec fn type_key(s: Seq<char>) -> Seq<char> {
    s.map_values(|c: char| ascii_lower(c))
}

/// The card types of the story cards, in content order.
pub open spec fn card_types_of(cards: Seq<StoryCardDefinition>) -> Seq<Seq<char>> {
    cards.map_values(|card: StoryCardDefinition| card.card_type@)
}

/// `t` is the first of `types` with its key.
pub open spec fn first_with_key(types: Seq<Seq<char>>, t: Seq<char>) -> bool {
    exists|i: int|
        0 <= i < types.len() && #[trigger] types[i] == t && (forall|j: int|
            0 <= j < i ==> type_key(#[trigger] types[j]) != type_key(t))
}

/// The keys of `r` increase strictly.
#[verifier::opaque]
pub open spec fn keys_increasing(r: Seq<Seq<char>>) -> bool {
    forall|i: int, j: int| 0 <= i < j < r.len() ==> text_before(type_key(#[trigger] r[i]), type_key(#[trigger] r[j]))
}

/// Each entry of `r` is the first of `types` with its key.
#[verifier::opaque]
pub open spec fn each_first(types: Seq<Seq<char>>, r: Seq<Seq<char>>) -> bool {
    forall|i: int| 0 <= i < r.len() ==> first_with_key(types, #[trigger] r[i])
}

/// Some entry of `r` has the key `k`.
pub open spec fn key_present(r: Seq<Seq<char>>, k: Seq<char>) -> bool {
    exists|j: int| 0 <= j < r.len() && #[trigger] type_key(r[j]) == k
}

/// Every key of `types` has an entry in `r`.
#[verifier::opaque]
pub open spec fn keys_covered(types: Seq<Seq<char>>, r: Seq<Seq<char>>) -> bool {
    forall|i: int| 0 <= i < types.len() ==> key_present(r, type_key(#[trigger] types[i]))
}

/// `r` holds one card type per key, the first one of `types` with that key, in increasing
/// key order: what sorting by lower case and then dropping case-insensitive repeats gives.
pub open spec fn distinct_types(types: Seq<Seq<char>>, r: Seq<Seq<char>>) -> bool {
    keys_increasing(r) && each_first(types, r) && keys_covered(types, r)
}

fn lower_ascii(c: char) -> (r: char)
    ensures
        r == ascii_lower(c),
{
    if 'A' <= c && c <= 'Z' {
        let code: u8 = (c as u8) + 32;
        code as char
    } else {
        c
    }
}

/// The text in ASCII lower case.
fn lowercase_text(s: &str) -> (r: String)
    ensures
        r@ == type_key(s@),
{
    broadcast use vstd::string::group_string_axioms;

    let mut out = String::new();
    for c in it: s.chars()
        invariant
            it.seq() == s@,
            out@ == type_key(s@).take(it.index()),
    {
        push_char(&mut out, lower_ascii(c));
        proof {
            assert(out@ =~= type_key(s@).take(it.index() + 1));
        }
    }
    proof {
        assert(out@ =~= type_key(s@));
    }
    out
}

proof fn lemma_keep_firsts(types: Seq<Seq<char>>, t: Seq<char>, r: Seq<Seq<char>>)
    requires
        each_first(types, r),
    ensures
        each_first(types.push(t), r),
{
    reveal(each_first);
    let grown = types.push(t);
    assert forall|i: int| 0 <= i < r.len() implies first_with_key(grown, #[trigger] r[i]) by {
        let w = choose|w: int| 0 <= w < types.len() && #[trigger] types[w] == r[i] && (forall|j: int|
            0 <= j < w ==> type_key(#[trigger] types[j]) != type_key(r[i]));
        assert(grown[w] == r[i]);
        assert forall|j: int| 0 <= j < w implies type_key(#[trigger] grown[j]) != type_key(r[i]) by {
            assert(grown[j] == types[j]);
        }
    }
}

proof fn lemma_keep_covered(types: Seq<Seq<char>>, t: Seq<char>, r: Seq<Seq<char>>, m: int)
    requires
        keys_covered(types, r),
        0 <= m < r.len(),
        type_key(r[m]) == type_key(t),
    ensures
        keys_covered(types.push(t), r),
{
    reveal(keys_covered);
    let grown = types.push(t);
    assert forall|i: int| 0 <= i < grown.len() implies key_present(r, type_key(#[trigger] grown[i])) by {
        if i < types.len() {
            assert(grown[i] == types[i]);
        } else {
            assert(grown[i] == t);
            assert(type_key(r[m]) == type_key(grown[i]));
        }
    }
}

/// A type whose key is already present leaves the distinct types as they are.
proof fn lemma_distinct_types_keep(types: Seq<Seq<char>>, t: Seq<char>, r: Seq<Seq<char>>, m: int)
    requires
        distinct_types(types, r),
        0 <= m < r.len(),
        type_key(r[m]) == type_key(t),
    ensures
        distinct_types(types.push(t), r),
{
    lemma_keep_firsts(types, t, r);
    lemma_keep_covered(types, t, r, m);
}

/// No entry of `r` has the key of a type that sorts strictly between its neighbours.
proof fn lemma_new_key_absent(r: Seq<Seq<char>>, kt: Seq<char>, p: int)
    requires
        keys_increasing(r),
        0 <= p <= r.len(),
        forall|j: int| 0 <= j < p ==> text_before(type_key(#[trigger] r[j]), kt),
        p < r.len() ==> text_before(kt, type_key(r[p])),
    ensures
        forall|j: int| 0 <= j < r.len() ==> type_key(#[trigger] r[j]) != kt,
{
    reveal(keys_increasing);
    assert forall|j: int| 0 <= j < r.len() implies type_key(#[trigger] r[j]) != kt by {
        lemma_text_before_irreflexive(kt);
        if j > p {
            lemma_text_before_transitive(kt, type_key(r[p]), type_key(r[j]));
        }
    }
}

proof fn lemma_insert_keeps_increasing(r: Seq<Seq<char>>, t: Seq<char>, p: int)
    requires
        keys_increasing(r),
        0 <= p <= r.len(),
        forall|j: int| 0 <= j < p ==> text_before(type_key(#[trigger] r[j]), type_key(t)),
        p < r.len() ==> text_before(type_key(t), type_key(r[p])),
    ensures
        keys_increasing(r.insert(p, t)),
{
    reveal(keys_increasing);
    let placed = r.insert(p, t);
    let kt = type_key(t);
    assert forall|i: int, j: int| 0 <= i < j < placed.len() implies text_before(
        type_key(#[trigger] placed[i]),
        type_key(#[trigger] placed[j]),
    ) by {
        if j < p {
            assert(placed[i] == r[i] && placed[j] == r[j]);
        } else if j == p {
            assert(placed[i] == r[i] && placed[j] == t);
        } else if i < p {
            assert(placed[i] == r[i] && placed[j] == r[j - 1]);
            if j - 1 > p {
                lemma_text_before_transitive(kt, type_key(r[p]), type_key(r[j - 1]));
            }
            lemma_text_before_transitive(type_key(r[i]), kt, type_key(r[j - 1]));
        } else if i == p {
            assert(placed[i] == t && placed[j] == r[j - 1]);
            if j - 1 > p {
                lemma_text_before_transitive(kt, type_key(r[p]), type_key(r[j - 1]));
            }
        } else {
            assert(placed[i] == r[i - 1] && placed[j] == r[j - 1]);
        }
    }
}

proof fn lemma_insert_keeps_firsts(types: Seq<Seq<char>>, t: Seq<char>, r: Seq<Seq<char>>, p: int)
    requires
        each_first(types, r),
        keys_covered(types, r),
        0 <= p <= r.len(),
        forall|j: int| 0 <= j < r.len() ==> type_key(#[trigger] r[j]) != type_key(t),
    ensures
        each_first(types.push(t), r.insert(p, t)),
{
    reveal(each_first);
    reveal(keys_covered);
    let grown = types.push(t);
    let placed = r.insert(p, t);
    assert forall|i: int| 0 <= i < placed.len() implies first_with_key(grown, #[trigger] placed[i]) by {
        if i == p {
            assert(grown[types.len() as int] == t);
            assert forall|j: int| 0 <= j < types.len() implies type_key(#[trigger] grown[j]) != type_key(t) by {
                assert(grown[j] == types[j]);
                let m = choose|m: int| 0 <= m < r.len() && #[trigger] type_key(r[m]) == type_key(types[j]);
            }
            assert(placed[i] == t);
        } else {
            let old_index = if i < p { i } else { i - 1 };
            assert(placed[i] == r[old_index]);
            assert(first_with_key(types, r[old_index]));
            let w = choose|w: int| 0 <= w < types.len() && #[trigger] types[w] == r[old_index] && (forall|j: int|
                0 <= j < w ==> type_key(#[trigger] types[j]) != type_key(r[old_index]));
            assert(grown[w] == r[old_index]);
            assert forall|j: int| 0 <= j < w implies type_key(#[trigger] grown[j]) != type_key(placed[i]) by {
                assert(grown[j] == types[j]);
            }
        }
    }
}

proof fn lemma_insert_keeps_covered(types: Seq<Seq<char>>, t: Seq<char>, r: Seq<Seq<char>>, p: int)
    requires
        keys_covered(types, r),
        0 <= p <= r.len(),
    ensures
        keys_covered(types.push(t), r.insert(p, t)),
{
    reveal(keys_covered);
    let grown = types.push(t);
    let placed = r.insert(p, t);
    assert forall|i: int| 0 <= i < grown.len() implies key_present(placed, type_key(#[trigger] grown[i])) by {
        if i < types.len() {
            assert(grown[i] == types[i]);
            let m = choose|m: int| 0 <= m < r.len() && #[trigger] type_key(r[m]) == type_key(types[i]);
            if m < p {
                assert(placed[m] == r[m]);
                assert(type_key(placed[m]) == type_key(grown[i]));
            } else {
                assert(placed[m + 1] == r[m]);
                assert(type_key(placed[m + 1]) == type_key(grown[i]));
            }
        } else {
            assert(grown[i] == t);
            assert(placed[p] == t);
            assert(type_key(placed[p]) == type_key(grown[i]));
        }
    }
}

/// A type with a new key joins the distinct types at the place its key sorts to.
proof fn lemma_distinct_types_insert(types: Seq<Seq<char>>, t: Seq<char>, r: Seq<Seq<char>>, p: int)
    requires
        distinct_types(types, r),
        0 <= p <= r.len(),
        forall|j: int| 0 <= j < p ==> text_before(type_key(#[trigger] r[j]), type_key(t)),
        p < r.len() ==> text_before(type_key(t), type_key(r[p])),
    ensures
        distinct_types(types.push(t), r.insert(p, t)),
{
    lemma_new_key_absent(r, type_key(t), p);
    lemma_insert_keeps_increasing(r, t, p);
    lemma_insert_keeps_firsts(types, t, r, p);
    lemma_insert_keeps_covered(types, t, r, p);
}

/// The card types of the content, one per case-insensitive spelling (the first one met), in
/// case-insensitive order.
pub fn unique_card_types(story_cards: &[StoryCardDefinition]) -> (r: Vec<String>)
    ensures
        distinct_types(card_types_of(story_cards@), texts(r@)),
{
    let mut types: Vec<String> = Vec::new();
    let mut keys: Vec<String> = Vec::new();
    let mut k: usize = 0;
    proof {
        assert(card_types_of(story_cards@).take(0) =~= Seq::<Seq<char>>::empty());
        reveal(keys_increasing);
        reveal(each_first);
        reveal(keys_covered);
    }
    while k < story_cards.len()
        invariant
            k <= story_cards@.len(),
            types@.len() == keys@.len(),
            forall|i: int| 0 <= i < keys@.len() ==> (#[trigger] keys@[i])@ == type_key(types@[i]@),
            distinct_types(card_types_of(story_cards@).take(k as int), texts(types@)),
        decreases story_cards@.len() - k,
    {
        let card_type = &story_cards[k].card_type;
        let key = lowercase_text(card_type.as_str());
        let ghost seen = card_types_of(story_cards@).take(k as int);
        let ghost current = texts(types@);
        let mut i: usize = 0;
        let mut found: bool = false;
        while i < types.len()
            invariant_except_break
                !found,
            invariant
                types@.len() == keys@.len(),
                current == texts(types@),
                i <= types@.len(),
                forall|m: int| 0 <= m < keys@.len() ==> (#[trigger] keys@[m])@ == type_key(types@[m]@),
                forall|j: int| 0 <= j < i ==> text_before(type_key(#[trigger] current[j]), key@),
            ensures
                found ==> i < types@.len() && type_key(current[i as int]) == key@,
                !found ==> i <= types@.len() && (i < types@.len() ==> text_before(key@, type_key(current[i as int]))),
            decreases types@.len() - i,
        {
            proof {
                assert(current[i as int] == types@[i as int]@);
            }
            if same_text(keys[i].as_str(), key.as_str()) {
                found = true;
                break;
            }
            if comes_before(key.as_str(), keys[i].as_str()) {
                break;
            }
            proof {
                lemma_text_before_total(key@, keys@[i as int]@);
            }
            i += 1;
        }
        proof {
            assert(card_types_of(story_cards@).take(k + 1) =~= seen.push(card_type@));
        }
        if found {
            proof {
                lemma_distinct_types_keep(seen, card_type@, current, i as int);
            }
        } else {
            proof {
                lemma_distinct_types_insert(seen, card_type@, current, i as int);
            }
            let ghost old_keys = keys@;
            let ghost old_types = types@;
            types.insert(i, card_type.clone());
            keys.insert(i, key);
            proof {
                assert(texts(types@) =~= current.insert(i as int, card_type@));
                assert forall|m: int| 0 <= m < keys@.len() implies (#[trigger] keys@[m])@ == type_key(types@[m]@) by {
                    if m < i {
                        assert(keys@[m] == old_keys[m] && types@[m] == old_types[m]);
                    } else if m > i {
                        assert(keys@[m] == old_keys[m - 1] && types@[m] == old_types[m - 1]);
                    }
                }
            }
        }
        k += 1;
    }
    proof {
        assert(card_types_of(story_cards@).take(story_cards@.len() as int) =~= card_types_of(story_cards@));
    }
    types
}

/// The rename dialog's text field.
pub struct DeckRenameDialog {
    pub value: String,
}

impl DeckRenameDialog {
    pub fn new(current_name: &str) -> (r: Self)
        ensures
            r.value@ == current_name@,
    {
        DeckRenameDialog { value: current_name.to_owned() }
    }
}

/// Whether the deck-code dialog shows an exported code or takes one to import.
#[derive(Clone, Copy, Debug, PartialEq, Eq, Structural)]
pub enum DeckImportExportMode {
    Export,
    Import,
}

/// The deck-code dialog's state.
pub struct DeckImportExportDialog {
    pub mode: DeckImportExportMode,
    pub value: String,
    pub status: Option<String>,
    pub text_focused: bool,
}

impl DeckImportExportDialog {
    /// The dialog showing an exported code, not focused.
    pub fn for_export(value: String) -> (r: Self)
        ensures
            r.mode == DeckImportExportMode::Export,
            r.value == value,
            r.status is None,
            !r.text_focused,
    {
        DeckImportExportDialog { mode: DeckImportExportMode::Export, value, status: None, text_focused: false }
    }

    /// The dialog waiting for a code to import, focused and empty.
    pub fn for_import() -> (r: Self)
        ensures
            r.mode == DeckImportExportMode::Import,
            r.value@ == Seq::<char>::empty(),
            r.status is None,
            r.text_focused,
    {
        DeckImportExportDialog {
            mode: DeckImportExportMode::Import,
            value: String::new(),
            status: None,
            text_focused: true,
        }
    }
}

/// The deck notes and tags dialog's state.
pub struct DeckMetadataDialog {
    pub notes: String,
    pub tags: String,
    pub notes_focused: bool,
    pub tags_focused: bool,
}

impl DeckMetadataDialog {
    /// The dialog filled with the deck's notes and tags, the notes focused.
    pub fn new(notes: &str, tags: &str) -> (r: Self)
        ensures
            r.notes@ == notes@,
            r.tags@ == tags@,
            r.notes_focused,
            !r.tags_focused,
    {
        DeckMetadataDialog { notes: notes.to_owned(), tags: tags.to_owned(), notes_focused: true, tags_focused: false }
    }
}

/// What a browser filter button filters on.
#[derive(Clone, Debug)]
pub enum FilterButtonKind {
    Speed(CardSpeed),
    Alignment(CardAlignment),
    CardType(String),
    OwnedOnly,
    MissingOnly,
    InDeckOnly,
    NotInDeckOnly,
}

/// A browser filter button.
pub struct FilterButton {
    pub kind: FilterButtonKind,
    pub label: String,
    pub active: bool,
}

impl FilterButton {
    pub fn new(label: String, kind: FilterButtonKind, active: bool) -> (r: Self)
        ensures
            r.kind == kind,
            r.label == label,
            r.active == active,
    {
        FilterButton { kind, label, active }
    }
}

/// What an active filter chip stands for.
#[derive(Clone, Debug)]
pub enum FilterChipKind {
    Speed(CardSpeed),
    Alignment(CardAlignment),
    CardType(String),
    OwnedOnly,
    MissingOnly,
    InDeckOnly,
    NotInDeckOnly,
}

/// An active filter shown as a removable chip.
pub struct FilterChip {
    pub kind: FilterChipKind,
    pub label: String,
}

impl FilterChip {
    pub fn new(label: String, kind: FilterChipKind) -> (r: Self)
        ensures
            r.kind == kind,
            r.label == label,
    {
        FilterChip { kind, label }
    }
}

/// The layers of the deck builder: the support cards, or one side of the roster.
#[derive(Clone, Copy, Debug, PartialEq, Eq, Structural)]
pub enum DeckBuilderTab {
    SupportCards,
    MagicalGirls,
    Baddies,
}

/// What the deck builder remembers between frames about the player's choices: the starter
/// template in focus and the layer shown.
pub struct DeckBuilderView {
    pub selected_template_index: Option<usize>,
    pub active_tab: DeckBuilderTab,
}

impl DeckBuilderView {
    /// The deck builder as it opens: no template in focus, on the support cards.
    pub fn new() -> (r: Self)
        ensures
            r.selected_template_index is None,
            r.active_tab == DeckBuilderTab::SupportCards,
    {
        DeckBuilderView { selected_template_index: None, active_tab: DeckBuilderTab::SupportCards }
    }
}

/// A control of the deck builder that the player pressed: the two fixed buttons, a layer
/// tab, a saved deck's row, a starter template's row or its create button, or a card's add
/// or remove button in the card browser.
#[derive(Clone, Debug)]
pub enum DeckBuilderControl {
    BackToMenu,
    OpenBooster,
    Tab { tab: DeckBuilderTab },
    SavedDeck { deck_index: usize },
    TemplateRow { loadout_index: usize },
    TemplateCreate { loadout_index: usize },
    AddCard { card_id: String },
    RemoveCard { card_id: String },
}

/// What a press in the deck builder asks of the game. A card's add button asks to add it only
/// on the support-card layer and when the card may join the active deck; its remove button
/// asks to remove it only there and when the active deck holds a copy. A saved deck's row
/// asks to select that deck, a template's create button asks for a deck from that template;
/// rows and buttons beyond the lists ask for nothing.
pub open spec fn deck_builder_request_of(view: DeckBuilderView, state: AppState, control: DeckBuilderControl) -> ScreenAction {
    match control {
        DeckBuilderControl::BackToMenu => ScreenAction::BackToMenu,
        DeckBuilderControl::OpenBooster => ScreenAction::DeckBuilderOpenBooster,
        DeckBuilderControl::Tab { .. } => ScreenAction::Idle,
        DeckBuilderControl::SavedDeck { deck_index } => if deck_index < state.saves.decks.support_decks@.len() {
            ScreenAction::DeckBuilderSelectDeck { deck_id: state.saves.decks.support_decks@[deck_index as int].id }
        } else {
            ScreenAction::Idle
        },
        DeckBuilderControl::TemplateRow { .. } => ScreenAction::Idle,
        DeckBuilderControl::TemplateCreate { loadout_index } => if loadout_index
            < state.content.starter_loadouts@.len() {
            ScreenAction::DeckBuilderCreateDeckFromTemplate { loadout_index }
        } else {
            ScreenAction::Idle
        },
        DeckBuilderControl::AddCard { card_id } => if view.active_tab == DeckBuilderTab::SupportCards
            && state.saves.decks.may_add(card_id@, state.content.deck_rules, state.saves.collection) {
            ScreenAction::DeckBuilderAddCard { card_id }
        } else {
            ScreenAction::Idle
        },
        DeckBuilderControl::RemoveCard { card_id } => if view.active_tab == DeckBuilderTab::SupportCards
            && state.saves.decks.copies_in_active(card_id@) > 0 {
            ScreenAction::DeckBuilderRemoveCard { card_id }
        } else {
            ScreenAction::Idle
        },
    }
}

/// The deck builder's choices after a press: a tab shows its layer; a template's row or create
/// button puts that template in focus; a saved deck's row takes the focus off the templates.
pub open spec fn deck_builder_view_after(view: DeckBuilderView, state: AppState, control: DeckBuilderControl) -> DeckBuilderView {
    match control {
        DeckBuilderControl::Tab { tab } => DeckBuilderView { active_tab: tab, ..view },
        DeckBuilderControl::SavedDeck { deck_index } => if deck_index < state.saves.decks.support_decks@.len() {
            DeckBuilderView { selected_template_index: None, ..view }
        } else {
            view
        },
        DeckBuilderControl::TemplateRow { loadout_index } | DeckBuilderControl::TemplateCreate { loadout_index } => if loadout_index
            < state.content.starter_loadouts@.len() {
            DeckBuilderView { selected_template_index: Some(loadout_index), ..view }
        } else {
            view
        },
        _ => view,
    }
}

/// Handles a press in the deck builder: updates its choices and tells what the press asks of
/// the game. Its dialogs, the deck buttons that depend on a selected deck, the roster layer and
/// the card browser's filters rest on deck operations and browser state this library does not
/// hold, so they are not among the controls.
pub fn deck_builder_request(view: &mut DeckBuilderView, state: &AppState, control: DeckBuilderControl) -> (r: ScreenAction)
    ensures
        r == deck_builder_request_of(*old(view), *state, control),
        *final(view) == deck_builder_view_after(*old(view), *state, control),
{
    match control {
        DeckBuilderControl::BackToMenu => ScreenAction::BackToMenu,
        DeckBuilderControl::OpenBooster => ScreenAction::DeckBuilderOpenBooster,
        DeckBuilderControl::Tab { tab } => {
            view.active_tab = tab;
            ScreenAction::Idle
        },
        DeckBuilderControl::SavedDeck { deck_index } => {
            if deck_index < state.saves.decks.support_decks.len() {
                view.selected_template_index = None;
                ScreenAction::DeckBuilderSelectDeck { deck_id: state.saves.decks.support_decks[deck_index].id.clone() }
            } else {
                ScreenAction::Idle
            }
        },
        DeckBuilderControl::TemplateRow { loadout_index } => {
            if loadout_index < state.content.starter_loadouts.len() {
                view.selected_template_index = Some(loadout_index);
            }
            ScreenAction::Idle
        },
        DeckBuilderControl::TemplateCreate { loadout_index } => {
            if loadout_index < state.content.starter_loadouts.len() {
                view.selected_template_index = Some(loadout_index);
                ScreenAction::DeckBuilderCreateDeckFromTemplate { loadout_index }
            } else {
                ScreenAction::Idle
            }
        },
        DeckBuilderControl::AddCard { card_id } => {
            if view.active_tab == DeckBuilderTab::SupportCards && state.saves.decks.can_add_card(
                card_id.as_str(),
                &state.content.deck_rules,
                &state.saves.collection,
            ) {
                ScreenAction::DeckBuilderAddCard { card_id }
            } else {
                ScreenAction::Idle
            }
        },
        DeckBuilderControl::RemoveCard { card_id } => {
            if view.active_tab == DeckBuilderTab::SupportCards && state.saves.decks.card_count(card_id.as_str()) > 0 {
                ScreenAction::DeckBuilderRemoveCard { card_id }
            } else {
                ScreenAction::Idle
            }
        },
    }
}

} // verus!
