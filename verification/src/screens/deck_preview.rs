//! The names and lines that the deck builder's preview panels show for ids of the content.

use vstd::prelude::*;

use crate::data::cards::{card_name_found, find_card_name};
use crate::data::ui_text::text_lookup;
use crate::data::{CharacterDefinition, GameContent, StarterLoadout, StoryCardDefinition, UiText};
use crate::state::deck_browser::{
    comes_before, lemma_text_before_irreflexive, lemma_text_before_total, lemma_text_before_transitive, text_before,
};
use crate::state::collection::count_of;
use crate::state::setup::{character_position, find_character};
use crate::text::{natural_text, push_natural, same_text, texts};

verus! {

/// The name of the first story card with this id, or the id itself when no card has it.
pub open spec fn story_card_name_in(cards: Seq<StoryCardDefinition>, id: Seq<char>) -> Seq<char> {
    match card_name_found(cards, id) {
        Some(name) => name,
        None => id,
    }
}

/// The name of the first character with this id, or the id itself when none has it.
pub open spec fn character_name_in(entries: Seq<CharacterDefinition>, id: Seq<char>) -> Seq<char> {
    match character_position(entries, id) {
        Some(i) => entries[i].name@,
        None => id,
    }
}

/// The parts written one after another with `sep` between each two.
pub open spec fn joined(parts: Seq<Seq<char>>, sep: Seq<char>) -> Seq<char>
    decreases parts.len(),
{
    if parts.len() == 0 {
        Seq::empty()
    } else if parts.len() == 1 {
        parts[0]
    } else {
        joined(parts.drop_last(), sep) + sep + parts.last()
    }
}

/// The story card names of the ids, in order.
pub open spec fn story_card_names_of(cards: Seq<StoryCardDefinition>, ids: Seq<String>) -> Seq<Seq<char>> {
    ids.map_values(|id: String| story_card_name_in(cards, id@))
}

/// The character names of the ids, in order.
pub open spec fn character_names_of(entries: Seq<CharacterDefinition>, ids: Seq<String>) -> Seq<Seq<char>> {
    ids.map_values(|id: String| character_name_in(entries, id@))
}

proof fn lemma_joined_step(parts: Seq<Seq<char>>, sep: Seq<char>, i: int)
    requires
        0 < i < parts.len(),
    ensures
        joined(parts.take(i + 1), sep) == joined(parts.take(i), sep) + sep + parts[i],
{
    let next = parts.take(i + 1);
    assert(next.drop_last() =~= parts.take(i));
    assert(next.last() == parts[i]);
}

/// The name of the story card with this id in the content, or the id when there is none.
pub fn story_card_name(content: &GameContent, id: &str) -> (r: String)
    ensures
        r@ == story_card_name_in(content.story_cards@, id@),
{
    match find_card_name(&content.story_cards, id) {
        Some(name) => name,
        None => id.to_owned(),
    }
}

/// The name of the character with this id among `entries`, or the id when there is none.
fn character_name(entries: &Vec<CharacterDefinition>, id: &str) -> (r: String)
    ensures
        r@ == character_name_in(entries@, id@),
{
    match find_character(entries.as_slice(), id) {
        Some(i) => entries[i].name.clone(),
        None => id.to_owned(),
    }
}

/// The story card names of the ids, separated by commas.
pub fn story_card_names(content: &GameContent, ids: &[String]) -> (r: String)
    ensures
        r@ == joined(story_card_names_of(content.story_cards@, ids@), ", "@),
{
    let ghost names = story_card_names_of(content.story_cards@, ids@);
    let mut out = String::new();
    let mut i: usize = 0;
    while i < ids.len()
        invariant
            i <= ids@.len(),
            names == story_card_names_of(content.story_cards@, ids@),
            out@ == joined(names.take(i as int), ", "@),
        decreases ids@.len() - i,
    {
        let name = story_card_name(content, ids[i].as_str());
        if i > 0 {
            out.append(", ");
            proof {
                lemma_joined_step(names, ", "@, i as int);
            }
        } else {
            proof {
                assert(names.take(1).len() == 1);
            }
        }
        out.append(name.as_str());
        i += 1;
        proof {
            assert(out@ =~= joined(names.take(i as int), ", "@));
        }
    }
    proof {
        assert(names.take(ids@.len() as int) =~= names);
    }
    out
}

/// The names of the characters with the ids among `entries`, separated by commas.
fn character_names(entries: &Vec<CharacterDefinition>, ids: &[String]) -> (r: String)
    ensures
        r@ == joined(character_names_of(entries@, ids@), ", "@),
{
    let ghost names = character_names_of(entries@, ids@);
    let mut out = String::new();
    let mut i: usize = 0;
    while i < ids.len()
        invariant
            i <= ids@.len(),
            names == character_names_of(entries@, ids@),
            out@ == joined(names.take(i as int), ", "@),
        decreases ids@.len() - i,
    {
        let name = character_name(entries, ids[i].as_str());
        if i > 0 {
            out.append(", ");
            proof {
                lemma_joined_step(names, ", "@, i as int);
            }
        } else {
            proof {
                assert(names.take(1).len() == 1);
            }
        }
        out.append(name.as_str());
        i += 1;
        proof {
            assert(out@ =~= joined(names.take(i as int), ", "@));
        }
    }
    proof {
        assert(names.take(ids@.len() as int) =~= names);
    }
    out
}

/// The names of the magical girls with the ids, separated by commas.
pub fn magical_girl_names(content: &GameContent, ids: &[String]) -> (r: String)
    ensures
        r@ == joined(character_names_of(content.magical_girls@, ids@), ", "@),
{
    character_names(&content.magical_girls, ids)
}

/// The names of the baddies with the ids, separated by commas.
pub fn baddie_names(content: &GameContent, ids: &[String]) -> (r: String)
    ensures
        r@ == joined(character_names_of(content.baddies@, ids@), ", "@),
{
    character_names(&content.baddies, ids)
}

/// A labelled line of a template's roster: the label, a colon and the names.
pub open spec fn labelled(ui: Seq<(String, String)>, key: Seq<char>, names: Seq<char>) -> Seq<char> {
    text_lookup(ui, key) + ": "@ + names
}

fn labelled_line(ui_text: &UiText, key: &str, names: String) -> (r: String)
    ensures
        r@ == labelled(ui_text.values@, key@, names@),
{
    let mut out = String::new();
    out.append(ui_text.get(key));
    out.append(": ");
    out.append(names.as_str());
    out
}

/// The four roster lines of a starter template: the magical girl main, her supports, the
/// prime baddie and the baddie supports, each after its label.
pub fn template_roster_lines(ui_text: &UiText, content: &GameContent, starter: &StarterLoadout) -> (r: [String; 4])
    ensures
        r@[0]@ == labelled(
            ui_text.values@,
            "deck_builder_template_magical_girl_main_label"@,
            character_name_in(content.magical_girls@, starter.magical_girl_main@),
        ),
        r@[1]@ == labelled(
            ui_text.values@,
            "deck_builder_template_magical_girl_supports_label"@,
            joined(character_names_of(content.magical_girls@, starter.magical_girl_supports@), ", "@),
        ),
        r@[2]@ == labelled(
            ui_text.values@,
            "deck_builder_template_baddie_main_label"@,
            character_name_in(content.baddies@, starter.prime_baddie@),
        ),
        r@[3]@ == labelled(
            ui_text.values@,
            "deck_builder_template_baddie_supports_label"@,
            joined(character_names_of(content.baddies@, starter.baddie_supports@), ", "@),
        ),
{
    let first = labelled_line(
        ui_text,
        "deck_builder_template_magical_girl_main_label",
        character_name(&content.magical_girls, starter.magical_girl_main.as_str()),
    );
    let second = labelled_line(
        ui_text,
        "deck_builder_template_magical_girl_supports_label",
        character_names(&content.magical_girls, starter.magical_girl_supports.as_slice()),
    );
    let third = labelled_line(
        ui_text,
        "deck_builder_template_baddie_main_label",
        character_name(&content.baddies, starter.prime_baddie.as_str()),
    );
    let fourth = labelled_line(
        ui_text,
        "deck_builder_template_baddie_supports_label",
        character_names(&content.baddies, starter.baddie_supports.as_slice()),
    );
    [first, second, third, fourth]
}

/// The ids of `keys` increase strictly.
pub open spec fn ids_increasing(keys: Seq<Seq<char>>) -> bool {
    forall|i: int, j: int| 0 <= i < j < keys.len() ==> text_before(#[trigger] keys[i], #[trigger] keys[j])
}

/// `keys` lists each id of `deck` once, in increasing order.
pub open spec fn distinct_ids_of(deck: Seq<Seq<char>>, keys: Seq<Seq<char>>) -> bool {
    &&& ids_increasing(keys)
    &&& forall|i: int| 0 <= i < keys.len() ==> deck.contains(#[trigger] keys[i])
    &&& forall|j: int| 0 <= j < deck.len() ==> keys.contains(#[trigger] deck[j])
}

/// A seed line: how many copies of the card the deck holds, then the card's name.
pub open spec fn seed_line(cards: Seq<StoryCardDefinition>, deck: Seq<Seq<char>>, id: Seq<char>) -> Seq<char> {
    natural_text(count_of(deck, id)) + "x "@ + story_card_name_in(cards, id)
}

/// The seed lines: one per distinct card of the deck, in increasing id order.
pub open spec fn seed_lines_of(cards: Seq<StoryCardDefinition>, deck: Seq<Seq<char>>, lines: Seq<Seq<char>>) -> bool {
    exists|keys: Seq<Seq<char>>|
        #[trigger] distinct_ids_of(deck, keys) && keys.len() == lines.len() && forall|i: int|
            0 <= i < keys.len() ==> lines[i] == #[trigger] seed_line(cards, deck, keys[i])
}

/// An id absent from a list is counted zero times.
proof fn lemma_count_of_absent(s: Seq<Seq<char>>, x: Seq<char>)
    requires
        !s.contains(x),
    ensures
        count_of(s, x) == 0,
    decreases s.len(),
{
    if s.len() > 0 {
        assert(!s.drop_last().contains(x)) by {
            if s.drop_last().contains(x) {
                let k = choose|k: int| 0 <= k < s.drop_last().len() && s.drop_last()[k] == x;
                assert(s[k] == x);
            }
        }
        assert(s[s.len() - 1] == s.last());
        lemma_count_of_absent(s.drop_last(), x);
    }
}

proof fn lemma_increasing_distinct(keys: Seq<Seq<char>>, i: int, j: int)
    requires
        ids_increasing(keys),
        0 <= i < keys.len(),
        0 <= j < keys.len(),
        i != j,
    ensures
        keys[i] != keys[j],
{
    if i < j {
        assert(text_before(keys[i], keys[j]));
    } else {
        assert(text_before(keys[j], keys[i]));
    }
    lemma_text_before_irreflexive(keys[i]);
}

/// The counted ids of the first `k` cards of the deck.
spec fn counted(deck: Seq<Seq<char>>, k: int, keys: Seq<Seq<char>>, counts: Seq<usize>) -> bool {
    &&& distinct_ids_of(deck.take(k), keys)
    &&& counts.len() == keys.len()
    &&& forall|i: int| 0 <= i < keys.len() ==> #[trigger] counts[i] == count_of(deck.take(k), keys[i])
}

proof fn lemma_count_again(deck: Seq<Seq<char>>, k: int, keys: Seq<Seq<char>>, counts: Seq<usize>, p: int)
    requires
        0 <= k < deck.len(),
        counted(deck, k, keys, counts),
        0 <= p < keys.len(),
        keys[p] == deck[k],
        counts[p] < usize::MAX,
    ensures
        counted(deck, k + 1, keys, counts.update(p, (counts[p] + 1) as usize)),
{
    let before = deck.take(k);
    let after = deck.take(k + 1);
    assert(after.drop_last() =~= before);
    assert(after.last() == deck[k]);
    let next = counts.update(p, (counts[p] + 1) as usize);
    assert forall|i: int| 0 <= i < keys.len() implies after.contains(#[trigger] keys[i]) by {
        assert(before.contains(keys[i]));
        let w = choose|w: int| 0 <= w < before.len() && before[w] == keys[i];
        assert(after[w] == keys[i]);
    }
    assert forall|j: int| 0 <= j < after.len() implies keys.contains(#[trigger] after[j]) by {
        if j < k {
            assert(after[j] == before[j]);
        } else {
            assert(keys[p] == after[j]);
        }
    }
    assert forall|i: int| 0 <= i < keys.len() implies #[trigger] next[i] == count_of(after, keys[i]) by {
        if i != p {
            lemma_increasing_distinct(keys, i, p);
        }
    }
}

proof fn lemma_count_new(
    deck: Seq<Seq<char>>,
    k: int,
    keys: Seq<Seq<char>>,
    counts: Seq<usize>,
    p: int,
)
    requires
        0 <= k < deck.len(),
        counted(deck, k, keys, counts),
        0 <= p <= keys.len(),
        forall|j: int| 0 <= j < p ==> text_before(#[trigger] keys[j], deck[k]),
        p < keys.len() ==> text_before(deck[k], keys[p]),
    ensures
        counted(deck, k + 1, keys.insert(p, deck[k]), counts.insert(p, 1usize)),
{
    let id = deck[k];
    let before = deck.take(k);
    let after = deck.take(k + 1);
    let placed = keys.insert(p, id);
    let next = counts.insert(p, 1usize);
    assert(after.drop_last() =~= before);
    assert(after.last() == id);
    assert forall|j: int| 0 <= j < keys.len() implies #[trigger] keys[j] != id by {
        lemma_text_before_irreflexive(id);
        if j > p {
            assert(text_before(keys[p], keys[j]));
            lemma_text_before_transitive(id, keys[p], keys[j]);
        }
    }
    assert(!before.contains(id)) by {
        if before.contains(id) {
            let w = choose|w: int| 0 <= w < before.len() && before[w] == id;
            assert(keys.contains(before[w]));
        }
    }
    lemma_count_of_absent(before, id);
    assert forall|i: int, j: int| 0 <= i < j < placed.len() implies text_before(#[trigger] placed[i], #[trigger] placed[j]) by {
        if j < p {
            assert(placed[i] == keys[i] && placed[j] == keys[j]);
        } else if j == p {
            assert(placed[i] == keys[i] && placed[j] == id);
        } else if i < p {
            assert(placed[i] == keys[i] && placed[j] == keys[j - 1]);
            if j - 1 > p {
                assert(text_before(keys[p], keys[j - 1]));
                lemma_text_before_transitive(id, keys[p], keys[j - 1]);
            }
            lemma_text_before_transitive(keys[i], id, keys[j - 1]);
        } else if i == p {
            assert(placed[i] == id && placed[j] == keys[j - 1]);
            if j - 1 > p {
                assert(text_before(keys[p], keys[j - 1]));
                lemma_text_before_transitive(id, keys[p], keys[j - 1]);
            }
        } else {
            assert(placed[i] == keys[i - 1] && placed[j] == keys[j - 1]);
        }
    }
    assert forall|i: int| 0 <= i < placed.len() implies after.contains(#[trigger] placed[i]) by {
        if i == p {
            assert(after[k] == id);
        } else {
            let old_index = if i < p { i } else { i - 1 };
            assert(placed[i] == keys[old_index]);
            assert(before.contains(keys[old_index]));
            let w = choose|w: int| 0 <= w < before.len() && before[w] == keys[old_index];
            assert(after[w] == keys[old_index]);
        }
    }
    assert forall|j: int| 0 <= j < after.len() implies placed.contains(#[trigger] after[j]) by {
        if j < k {
            assert(after[j] == before[j]);
            assert(keys.contains(before[j]));
            let w = choose|w: int| 0 <= w < keys.len() && keys[w] == before[j];
            if w < p {
                assert(placed[w] == keys[w]);
            } else {
                assert(placed[w + 1] == keys[w]);
            }
        } else {
            assert(placed[p] == id);
        }
    }
    assert forall|i: int| 0 <= i < placed.len() implies #[trigger] next[i] == count_of(after, placed[i]) by {
        if i != p {
            let old_index = if i < p { i } else { i - 1 };
            assert(placed[i] == keys[old_index] && next[i] == counts[old_index]);
        }
    }
}

/// The seed lines of a template's support deck: one line per distinct card, in increasing id
/// order, giving the number of copies and the card's name.
pub fn template_support_seed_lines(content: &GameContent, starter: &StarterLoadout) -> (r: Vec<String>)
    ensures
        seed_lines_of(content.story_cards@, texts(starter.support_deck@), texts(r@)),
{
    let deck = &starter.support_deck;
    let ghost ids = texts(deck@);
    let mut keys: Vec<String> = Vec::new();
    let mut counts: Vec<usize> = Vec::new();
    let mut k: usize = 0;
    proof {
        assert(ids.take(0) =~= Seq::<Seq<char>>::empty());
    }
    while k < deck.len()
        invariant
            k <= deck@.len(),
            ids == texts(deck@),
            counted(ids, k as int, texts(keys@), counts@),
            forall|i: int| 0 <= i < counts@.len() ==> #[trigger] counts@[i] <= k,
        decreases deck@.len() - k,
    {
        let id = deck[k].as_str();
        let ghost current = texts(keys@);
        proof {
            assert(ids[k as int] == id@);
        }
        let mut i: usize = 0;
        let mut found: bool = false;
        while i < keys.len()
            invariant_except_break
                !found,
            invariant
                current == texts(keys@),
                i <= keys@.len(),
                forall|j: int| 0 <= j < i ==> text_before(#[trigger] current[j], id@),
            ensures
                found ==> i < keys@.len() && current[i as int] == id@,
                !found ==> i <= keys@.len() && (i < keys@.len() ==> text_before(id@, current[i as int])),
            decreases keys@.len() - i,
        {
            proof {
                assert(current[i as int] == keys@[i as int]@);
            }
            if same_text(keys[i].as_str(), id) {
                found = true;
                break;
            }
            if comes_before(id, keys[i].as_str()) {
                break;
            }
            proof {
                lemma_text_before_total(id@, keys@[i as int]@);
            }
            i += 1;
        }
        if found {
            proof {
                lemma_count_again(ids, k as int, current, counts@, i as int);
            }
            let bumped = counts[i] + 1;
            counts.set(i, bumped);
        } else {
            proof {
                lemma_count_new(ids, k as int, current, counts@, i as int);
            }
            keys.insert(i, id.to_owned());
            counts.insert(i, 1);
            proof {
                assert(texts(keys@) =~= current.insert(i as int, id@));
            }
        }
        k += 1;
        proof {
            assert forall|m: int| 0 <= m < counts@.len() implies #[trigger] counts@[m] <= k by {
            }
        }
    }
    proof {
        assert(ids.take(deck@.len() as int) =~= ids);
    }
    let ghost keys_seen = texts(keys@);
    let mut lines: Vec<String> = Vec::new();
    let mut n: usize = 0;
    while n < keys.len()
        invariant
            n <= keys@.len(),
            keys_seen == texts(keys@),
            counted(ids, deck@.len() as int, keys_seen, counts@),
            ids.take(deck@.len() as int) == ids,
            lines@.len() == n,
            forall|i: int| 0 <= i < n ==> (#[trigger] lines@[i])@ == seed_line(content.story_cards@, ids, keys_seen[i]),
        decreases keys@.len() - n,
    {
        let mut line = String::new();
        push_natural(&mut line, counts[n] as u64);
        line.append("x ");
        let name = story_card_name(content, keys[n].as_str());
        line.append(name.as_str());
        proof {
            assert(keys_seen[n as int] == keys@[n as int]@);
            assert(line@ == seed_line(content.story_cards@, ids, keys_seen[n as int]));
        }
        lines.push(line);
        n += 1;
    }
    proof {
        assert(distinct_ids_of(ids, keys_seen));
        assert forall|i: int| 0 <= i < keys_seen.len() implies texts(lines@)[i] == #[trigger] seed_line(
            content.story_cards@,
            ids,
            keys_seen[i],
        ) by {
            assert(texts(lines@)[i] == lines@[i]@);
        }
    }
    lines
}

} // verus!
