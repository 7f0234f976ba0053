//! Choosing mains and support pairs, and building the opening state of a match.

use vstd::prelude::*;

use super::runtime::{fresh_character, CharacterRuntimeState, SideState, SideView, SupportState};
use crate::data::CharacterDefinition;

verus! {

/// The characters other than the main, in content order: indices `0..len` without `main`.
pub open spec fn candidates(len: nat, main: int) -> Seq<usize>
    decreases len,
{
    if len == 0 {
        Seq::empty()
    } else {
        candidates((len - 1) as nat, main) + (if len - 1 == main { Seq::empty() } else { seq![(len - 1) as usize] })
    }
}

/// The pairs whose first member is `c[a]`, in order of the second member.
pub open spec fn pair_row(c: Seq<usize>, a: int) -> Seq<Seq<usize>> {
    Seq::new((c.len() - a - 1) as nat, |j: int| seq![c[a], c[a + 1 + j]])
}

/// The pairs whose first member is one of the first `a` candidates.
pub open spec fn pair_rows(c: Seq<usize>, a: nat) -> Seq<Seq<usize>>
    decreases a,
{
    if a == 0 {
        Seq::empty()
    } else {
        pair_rows(c, (a - 1) as nat) + pair_row(c, a - 1)
    }
}

/// Every unordered pair of distinct characters other than the main, in lexicographic order.
pub open spec fn support_pair_list(len: nat, main: int) -> Seq<Seq<usize>> {
    pair_rows(candidates(len, main), candidates(len, main).len())
}

/// The text of a list of index lists.
pub open spec fn pairs_view(pairs: Seq<Vec<usize>>) -> Seq<Seq<usize>> {
    pairs.map_values(|p: Vec<usize>| p@)
}

/// The first position of `target` among `pairs`.
pub open spec fn pair_position(pairs: Seq<Seq<usize>>, target: Seq<usize>) -> Option<int>
    decreases pairs.len(),
{
    if pairs.len() == 0 {
        None
    } else if pairs[0] == target {
        Some(0)
    } else {
        match pair_position(pairs.drop_first(), target) {
            Some(i) => Some(i + 1),
            None => None,
        }
    }
}

/// The first position of a character with the given id.
pub open spec fn character_position(definitions: Seq<CharacterDefinition>, id: Seq<char>) -> Option<int>
    decreases definitions.len(),
{
    if definitions.len() == 0 {
        None
    } else if definitions[0].id@ == id {
        Some(0)
    } else {
        match character_position(definitions.drop_first(), id) {
            Some(i) => Some(i + 1),
            None => None,
        }
    }
}

pub proof fn lemma_pair_position(pairs: Seq<Seq<usize>>, target: Seq<usize>)
    ensures
        match pair_position(pairs, target) {
            Some(i) => 0 <= i < pairs.len() && pairs[i] == target && forall|j: int| 0 <= j < i ==> pairs[j] != target,
            None => forall|j: int| 0 <= j < pairs.len() ==> pairs[j] != target,
        },
    decreases pairs.len(),
{
    if pairs.len() > 0 {
        lemma_pair_position(pairs.drop_first(), target);
        assert forall|j: int| 1 <= j < pairs.len() implies pairs[j] == pairs.drop_first()[j - 1] by {}
    }
}

pub proof fn lemma_character_position(definitions: Seq<CharacterDefinition>, id: Seq<char>)
    ensures
        match character_position(definitions, id) {
            Some(i) => 0 <= i < definitions.len() && definitions[i].id@ == id
                && forall|j: int| 0 <= j < i ==> definitions[j].id@ != id,
            None => forall|j: int| 0 <= j < definitions.len() ==> definitions[j].id@ != id,
        },
    decreases definitions.len(),
{
    if definitions.len() > 0 {
        lemma_character_position(definitions.drop_first(), id);
        assert forall|j: int| 1 <= j < definitions.len() implies definitions[j] == definitions.drop_first()[j - 1] by {}
    }
}

/// Candidates are strictly increasing, below `len`, and never the main.
pub proof fn lemma_candidates(len: nat, main: int)
    requires
        len <= usize::MAX,
    ensures
        forall|i: int| 0 <= i < candidates(len, main).len() ==> (#[trigger] candidates(len, main)[i]) < len
            && candidates(len, main)[i] != main,
        forall|i: int, j: int| 0 <= i < j < candidates(len, main).len()
            ==> (#[trigger] candidates(len, main)[i]) < (#[trigger] candidates(len, main)[j]),
    decreases len,
{
    if len > 0 {
        lemma_candidates((len - 1) as nat, main);
        let prev = candidates((len - 1) as nat, main);
        let c = candidates(len, main);
        let tail: Seq<usize> = if len - 1 == main { Seq::empty() } else { seq![(len - 1) as usize] };
        assert(c == prev + tail);
        assert forall|i: int| 0 <= i < c.len() implies (#[trigger] c[i]) < len && c[i] != main by {
            if i < prev.len() {
                assert(c[i] == prev[i]);
            } else {
                assert(c[i] == tail[i - prev.len()]);
            }
        }
        assert forall|i: int, j: int| 0 <= i < j < c.len() implies (#[trigger] c[i]) < (#[trigger] c[j]) by {
            assert(c[i] == prev[i]);
            if j < prev.len() {
                assert(c[j] == prev[j]);
            } else {
                assert(c[j] == tail[j - prev.len()]);
                assert(prev[i] < len - 1);
            }
        }
    }
}

/// Each pair among the first `a` rows holds two increasing candidates, so it keeps whatever
/// every candidate has: a bound and a difference from the main.
proof fn lemma_pair_rows_members(c: Seq<usize>, a: nat, len: nat, main: int)
    requires
        a <= c.len(),
        forall|i: int| 0 <= i < c.len() ==> (#[trigger] c[i]) < len && c[i] != main,
        forall|i: int, j: int| 0 <= i < j < c.len() ==> (#[trigger] c[i]) < (#[trigger] c[j]),
    ensures
        forall|k: int| 0 <= k < pair_rows(c, a).len() ==> {
            let p = #[trigger] pair_rows(c, a)[k];
            &&& p.len() == 2
            &&& p[0] < p[1] < len
            &&& p[0] != main && p[1] != main
        },
    decreases a,
{
    if a > 0 {
        lemma_pair_rows_members(c, (a - 1) as nat, len, main);
        let prev = pair_rows(c, (a - 1) as nat);
        let row = pair_row(c, a - 1);
        assert forall|k: int| 0 <= k < pair_rows(c, a).len() implies {
            let p = #[trigger] pair_rows(c, a)[k];
            &&& p.len() == 2
            &&& p[0] < p[1] < len
            &&& p[0] != main && p[1] != main
        } by {
            if k < prev.len() {
                assert(pair_rows(c, a)[k] == prev[k]);
            } else {
                let j = k - prev.len();
                assert(pair_rows(c, a)[k] == row[j]);
                assert(c[a - 1] < c[a + j]);
                assert(c[a + j] < len && c[a + j] != main);
                assert(c[a - 1] < len && c[a - 1] != main);
            }
        }
    }
}

/// Every support pair holds two different characters, in increasing order, neither of them
/// the main, all within the roster.
pub proof fn lemma_support_pairs_exclude_main(len: nat, main: int)
    requires
        len <= usize::MAX,
    ensures
        forall|k: int| 0 <= k < support_pair_list(len, main).len() ==> {
            let p = #[trigger] support_pair_list(len, main)[k];
            &&& p.len() == 2
            &&& p[0] < p[1] < len
            &&& p[0] != main && p[1] != main
        },
{
    let c = candidates(len, main);
    lemma_candidates(len, main);
    lemma_pair_rows_members(c, c.len(), len, main);
}

/// The candidates other than the main.
fn candidate_indices(len: usize, main_index: usize) -> (r: Vec<usize>)
    ensures
        r@ == candidates(len as nat, main_index as int),
{
    let mut c: Vec<usize> = Vec::new();
    let mut i: usize = 0;
    while i < len
        invariant
            i <= len,
            c@ == candidates(i as nat, main_index as int),
        decreases len - i,
    {
        if i != main_index {
            c.push(i);
        }
        i += 1;
        proof {
            assert(c@ =~= candidates(i as nat, main_index as int));
        }
    }
    c
}

/// Every pair of distinct characters other than the main, in lexicographic order.
pub fn support_pairs(len: usize, main_index: usize) -> (r: Vec<Vec<usize>>)
    ensures
        pairs_view(r@) == support_pair_list(len as nat, main_index as int),
{
    let c = candidate_indices(len, main_index);
    let m = c.len();
    let mut pairs: Vec<Vec<usize>> = Vec::new();
    let mut first: usize = 0;
    proof {
        assert(pairs_view(pairs@) =~= pair_rows(c@, 0));
    }
    while first < m
        invariant
            m == c@.len(),
            first <= m,
            pairs_view(pairs@) == pair_rows(c@, first as nat),
        decreases m - first,
    {
        let mut second: usize = first + 1;
        proof {
            assert(pairs_view(pairs@) =~= pair_rows(c@, first as nat) + pair_row(c@, first as int).subrange(0, 0));
        }
        while second < m
            invariant
                m == c@.len(),
                first < m,
                first + 1 <= second <= m,
                pairs_view(pairs@) == pair_rows(c@, first as nat) + pair_row(c@, first as int).subrange(
                    0,
                    second - first - 1,
                ),
            decreases m - second,
        {
            let mut pair: Vec<usize> = Vec::new();
            pair.push(c[first]);
            pair.push(c[second]);
            let ghost before = pairs@;
            let ghost row = pair_row(c@, first as int);
            let ghost done = (second - first - 1) as int;
            proof {
                assert(pair@ =~= seq![c@[first as int], c@[second as int]]);
                assert(row[done] == seq![c@[first as int], c@[first + 1 + done]]);
                assert(pair@ == row[done]);
            }
            pairs.push(pair);
            second += 1;
            proof {
                assert(pairs@ == before.push(pair));
                assert(pairs_view(pairs@) =~= pairs_view(before).push(pair@));
                assert(row.subrange(0, done + 1) =~= row.subrange(0, done).push(row[done]));
                assert(pairs_view(pairs@) =~= pair_rows(c@, first as nat) + row.subrange(0, done + 1));
            }
        }
        first += 1;
        proof {
            assert(pair_row(c@, first - 1).subrange(0, m - (first - 1) - 1) =~= pair_row(c@, first - 1));
            assert(pairs_view(pairs@) =~= pair_rows(c@, first as nat));
        }
    }
    pairs
}

/// Whether two index lists are equal.
fn same_indices(a: &Vec<usize>, b: &Vec<usize>) -> (r: bool)
    ensures
        r == (a@ == b@),
{
    if a.len() != b.len() {
        return false;
    }
    let mut i: usize = 0;
    while i < a.len()
        invariant
            a.len() == b.len(),
            i <= a.len(),
            forall|j: int| 0 <= j < i ==> a@[j] == b@[j],
        decreases a.len() - i,
    {
        if a[i] != b[i] {
            return false;
        }
        i += 1;
    }
    proof {
        assert(a@ =~= b@);
    }
    true
}

/// The first position of `target` among `pairs`.
fn find_pair(pairs: &Vec<Vec<usize>>, target: &Vec<usize>) -> (r: Option<usize>)
    ensures
        match r {
            Some(i) => pair_position(pairs_view(pairs@), target@) == Some(i as int),
            None => pair_position(pairs_view(pairs@), target@) is None,
        },
{
    proof { lemma_pair_position(pairs_view(pairs@), target@); }
    let mut i: usize = 0;
    while i < pairs.len()
        invariant
            i <= pairs.len(),
            forall|j: int| 0 <= j < i ==> pairs_view(pairs@)[j] != target@,
            match pair_position(pairs_view(pairs@), target@) {
                Some(k) => 0 <= k < pairs.len() && pairs_view(pairs@)[k] == target@
                    && forall|j: int| 0 <= j < k ==> pairs_view(pairs@)[j] != target@,
                None => forall|j: int| 0 <= j < pairs.len() ==> pairs_view(pairs@)[j] != target@,
            },
        decreases pairs.len() - i,
    {
        if same_indices(&pairs[i], target) {
            proof {
                assert(pairs_view(pairs@)[i as int] == pairs@[i as int]@);
            }
            return Some(i);
        }
        proof {
            assert(pairs_view(pairs@)[i as int] == pairs@[i as int]@);
        }
        i += 1;
    }
    None
}

/// The first position of a character with the given id.
pub(crate) fn find_character(definitions: &[CharacterDefinition], id: &str) -> (r: Option<usize>)
    ensures
        match r {
            Some(i) => character_position(definitions@, id@) == Some(i as int) && i < definitions@.len(),
            None => character_position(definitions@, id@) is None,
        },
{
    proof { lemma_character_position(definitions@, id@); }
    let mut i: usize = 0;
    while i < definitions.len()
        invariant
            i <= definitions@.len(),
            forall|j: int| 0 <= j < i ==> definitions@[j].id@ != id@,
            match character_position(definitions@, id@) {
                Some(k) => 0 <= k < definitions@.len() && definitions@[k].id@ == id@
                    && forall|j: int| 0 <= j < k ==> definitions@[j].id@ != id@,
                None => forall|j: int| 0 <= j < definitions@.len() ==> definitions@[j].id@ != id@,
            },
        decreases definitions@.len() - i,
    {
        if crate::text::same_text(definitions[i].id.as_str(), id) {
            return Some(i);
        }
        i += 1;
    }
    None
}

/// The position of the preferred character, or the first character when it is missing.
pub fn preferred_index(definitions: &[CharacterDefinition], preferred_id: &str) -> (r: usize)
    ensures
        r as int == match character_position(definitions@, preferred_id@) {
            Some(i) => i,
            None => 0,
        },
{
    match find_character(definitions, preferred_id) {
        Some(i) => i,
        None => 0,
    }
}

/// The position of a character that must be present.
pub fn required_index(definitions: &[CharacterDefinition], character_id: &str) -> (r: usize)
    requires
        character_position(definitions@, character_id@) is Some,
    ensures
        character_position(definitions@, character_id@) == Some(r as int),
        r < definitions@.len(),
{
    match find_character(definitions, character_id) {
        Some(i) => i,
        None => 0,
    }
}

/// The positions of the preferred characters that exist, in order.
pub open spec fn preferred_positions(definitions: Seq<CharacterDefinition>, first: Seq<char>, second: Seq<char>) -> Seq<usize> {
    (match character_position(definitions, first) { Some(i) => seq![i as usize], None => Seq::empty() })
        + (match character_position(definitions, second) { Some(i) => seq![i as usize], None => Seq::empty() })
}

/// The index of the support pair made of the preferred characters, or the first pair.
pub fn support_pair_index_for_main(definitions: &[CharacterDefinition], main_index: usize, first_id: &str, second_id: &str) -> (r: usize)
    ensures
        r as int == match pair_position(
            support_pair_list(definitions@.len(), main_index as int),
            preferred_positions(definitions@, first_id@, second_id@),
        ) {
            Some(i) => i,
            None => 0,
        },
{
    let pairs = support_pairs(definitions.len(), main_index);
    let mut preferred: Vec<usize> = Vec::new();
    match find_character(definitions, first_id) {
        Some(i) => preferred.push(i),
        None => {},
    }
    match find_character(definitions, second_id) {
        Some(i) => preferred.push(i),
        None => {},
    }
    proof {
        assert(preferred@ =~= preferred_positions(definitions@, first_id@, second_id@));
    }
    match find_pair(&pairs, &preferred) {
        Some(i) => i,
        None => 0,
    }
}

/// The positions of the given characters, which must all be present.
pub open spec fn required_positions(definitions: Seq<CharacterDefinition>, ids: Seq<String>) -> Seq<usize> {
    ids.map_values(|id: String| character_position(definitions, id@)->0 as usize)
}

/// The index of the support pair made of exactly the given characters, which must exist.
pub fn support_pair_index_for_ids(definitions: &[CharacterDefinition], main_id: &str, support_ids: &[String]) -> (r: usize)
    requires
        character_position(definitions@, main_id@) is Some,
        forall|i: int| 0 <= i < support_ids@.len() ==> character_position(definitions@, (#[trigger] support_ids@[i])@) is Some,
        pair_position(
            support_pair_list(definitions@.len(), character_position(definitions@, main_id@)->0),
            required_positions(definitions@, support_ids@),
        ) is Some,
    ensures
        r as int == pair_position(
            support_pair_list(definitions@.len(), character_position(definitions@, main_id@)->0),
            required_positions(definitions@, support_ids@),
        )->0,
{
    let main_index = required_index(definitions, main_id);
    let mut required_pair: Vec<usize> = Vec::new();
    let mut i: usize = 0;
    while i < support_ids.len()
        invariant
            i <= support_ids@.len(),
            forall|k: int| 0 <= k < support_ids@.len() ==> character_position(definitions@, (#[trigger] support_ids@[k])@) is Some,
            required_pair@ == required_positions(definitions@, support_ids@.subrange(0, i as int)),
        decreases support_ids@.len() - i,
    {
        let index = required_index(definitions, support_ids[i].as_str());
        required_pair.push(index);
        i += 1;
        proof {
            assert(required_pair@ =~= required_positions(definitions@, support_ids@.subrange(0, i as int)));
        }
    }
    proof {
        assert(support_ids@.subrange(0, support_ids@.len() as int) =~= support_ids@);
    }
    let pairs = support_pairs(definitions.len(), main_index);
    match find_pair(&pairs, &required_pair) {
        Some(index) => index,
        None => 0,
    }
}

/// The index after `current` in a list of `len`, wrapping to the start; 0 for an empty list.
pub open spec fn next_index(len: nat, current: int) -> int {
    if len == 0 { 0 } else { (current + 1) % (len as int) }
}

/// The number of support pairs for a main among `len` characters.
pub open spec fn pair_count(len: nat, main: int) -> nat {
    support_pair_list(len, main).len()
}

/// The pair index kept after a change of main: the same one while it still exists, else the first.
pub open spec fn kept_pair_index(len: nat, main: int, current: int) -> int {
    if current < pair_count(len, main) { current } else { 0 }
}

/// The next index in a list of `len`, wrapping to the start.
pub fn cycle_index(len: usize, current: usize) -> (r: usize)
    requires
        len == 0 || current < usize::MAX,
    ensures
        r as int == next_index(len as nat, current as int),
        len > 0 ==> r < len,
{
    if len == 0 {
        0
    } else {
        (current + 1) % len
    }
}

/// The next support pair for the main, wrapping to the first.
pub fn cycle_pair_index(definitions: &[CharacterDefinition], main_index: usize, current: usize) -> (r: usize)
    requires
        pair_count(definitions@.len(), main_index as int) == 0 || current < usize::MAX,
    ensures
        r as int == next_index(pair_count(definitions@.len(), main_index as int), current as int),
{
    let pair_count = support_pairs(definitions.len(), main_index).len();
    if pair_count == 0 {
        0
    } else {
        (current + 1) % pair_count
    }
}

/// Keeps the pair index when the main still has such a pair, otherwise starts from the first.
pub fn reset_pair_index_if_needed(definitions: &[CharacterDefinition], main_index: usize, current: usize) -> (r: usize)
    ensures
        r as int == kept_pair_index(definitions@.len(), main_index as int, current as int),
{
    let pair_count = support_pairs(definitions.len(), main_index).len();
    if current < pair_count {
        current
    } else {
        0
    }
}

/// The indices of the chosen support pair; none when the pair index is out of range.
pub open spec fn chosen_pair(len: nat, main: int, pair_index: int) -> Seq<usize> {
    let pairs = support_pair_list(len, main);
    if 0 <= pair_index < pairs.len() { pairs[pair_index] } else { Seq::empty() }
}

/// The names of the characters of the chosen support pair.
pub open spec fn pair_names(definitions: Seq<CharacterDefinition>, main: int, pair_index: int) -> Seq<String> {
    let pair = chosen_pair(definitions.len(), main, pair_index);
    Seq::new(pair.len(), |k: int| definitions[pair[k] as int].name)
}

/// The names of the characters of the chosen support pair.
pub fn support_names(definitions: &[CharacterDefinition], main_index: usize, support_pair_index: usize) -> (r: Vec<String>)
    ensures
        r@ == pair_names(definitions@, main_index as int, support_pair_index as int),
{
    let pairs = support_pairs(definitions.len(), main_index);
    let mut names: Vec<String> = Vec::new();
    proof { lemma_support_pairs_exclude_main(definitions@.len(), main_index as int); }
    if support_pair_index < pairs.len() {
        let pair = &pairs[support_pair_index];
        assert(pair@ == support_pair_list(definitions@.len(), main_index as int)[support_pair_index as int]);
        let mut k: usize = 0;
        while k < pair.len()
            invariant
                pair@ == chosen_pair(definitions@.len(), main_index as int, support_pair_index as int),
                pair@.len() == 2,
                pair@[0] < definitions@.len() && pair@[1] < definitions@.len(),
                k <= pair.len(),
                names@.len() == k,
                forall|j: int| 0 <= j < k ==> (#[trigger] names@[j]) == definitions@[pair@[j] as int].name,
            decreases pair.len() - k,
        {
            names.push(definitions[pair[k]].name.clone());
            k += 1;
        }
    }
    proof {
        assert(names@ =~= pair_names(definitions@, main_index as int, support_pair_index as int));
    }
    names
}

/// The name at `index`, or "Unknown".
pub open spec fn name_at(definitions: Seq<CharacterDefinition>, index: int) -> Seq<char> {
    if 0 <= index < definitions.len() { definitions[index].name@ } else { "Unknown"@ }
}

pub fn lookup_name(definitions: &[CharacterDefinition], index: usize) -> (r: &str)
    ensures
        r@ == name_at(definitions@, index as int),
{
    if index < definitions.len() {
        definitions[index].name.as_str()
    } else {
        "Unknown"
    }
}

/// The side a player fields: the main and the chosen support pair, fresh, with the first
/// support revealed and the second hidden.
pub open spec fn side_built(definitions: Seq<CharacterDefinition>, main_index: int, support_pair_index: int) -> SideView {
    let pair = chosen_pair(definitions.len(), main_index, support_pair_index);
    SideView {
        main_character_id: definitions[main_index].id,
        main: fresh_character(definitions[main_index]),
        supports: Seq::new(
            pair.len(),
            |k: int| SupportState { runtime: fresh_character(definitions[pair[k] as int]), revealed: k == 0 },
        ),
    }
}

/// Builds a side from the chosen main and support pair.
pub fn build_side(definitions: &[CharacterDefinition], main_index: usize, support_pair_index: usize) -> (r: SideState)
    requires
        main_index < definitions@.len(),
    ensures
        r@ == side_built(definitions@, main_index as int, support_pair_index as int),
{
    let main_definition = &definitions[main_index];
    let pairs = support_pairs(definitions.len(), main_index);
    let mut supports: Vec<SupportState> = Vec::new();
    proof { lemma_support_pairs_exclude_main(definitions@.len(), main_index as int); }
    let ghost pair_seq = chosen_pair(definitions@.len(), main_index as int, support_pair_index as int);
    if support_pair_index < pairs.len() {
        let pair = &pairs[support_pair_index];
        assert(pair@ == pair_seq);
        let mut k: usize = 0;
        while k < pair.len()
            invariant
                pair@ == pair_seq,
                pair@.len() == 2,
                pair@[0] < definitions@.len() && pair@[1] < definitions@.len(),
                k <= pair.len(),
                supports@.len() == k,
                forall|j: int| 0 <= j < k ==> (#[trigger] supports@[j]) == (SupportState {
                    runtime: fresh_character(definitions@[pair_seq[j] as int]),
                    revealed: j == 0,
                }),
            decreases pair.len() - k,
        {
            let definition = &definitions[pair[k]];
            supports.push(SupportState { runtime: CharacterRuntimeState::from_definition(definition), revealed: k == 0 });
            k += 1;
        }
    }
    let r = SideState {
        main_character_id: main_definition.id.clone(),
        main: CharacterRuntimeState::from_definition(main_definition),
        supports,
    };
    proof {
        assert(r@.supports =~= side_built(definitions@, main_index as int, support_pair_index as int).supports);
    }
    r
}

/// Takes the opening hand from the top of the deck.
pub fn draw_opening_hand(deck: &mut Vec<String>, count: usize) -> (r: Vec<String>)
    ensures
        r@ == old(deck)@.subrange(0, if count < old(deck)@.len() { count as int } else { old(deck)@.len() as int }),
        final(deck)@ == old(deck)@.subrange(
            if count < old(deck)@.len() { count as int } else { old(deck)@.len() as int },
            old(deck)@.len() as int,
        ),
{
    let n = if count < deck.len() { count } else { deck.len() };
    let mut hand: Vec<String> = Vec::new();
    let mut moved: usize = 0;
    proof {
        assert(deck@ =~= old(deck)@.subrange(0, old(deck)@.len() as int));
        assert(hand@ =~= old(deck)@.subrange(0, 0));
    }
    while moved < n
        invariant
            n <= old(deck)@.len(),
            moved <= n,
            deck@ == old(deck)@.subrange(moved as int, old(deck)@.len() as int),
            hand@ == old(deck)@.subrange(0, moved as int),
        decreases n - moved,
    {
        let card = deck.remove(0);
        hand.push(card);
        moved += 1;
        proof {
            assert(deck@ =~= old(deck)@.subrange(moved as int, old(deck)@.len() as int));
            assert(hand@ =~= old(deck)@.subrange(0, moved as int));
        }
    }
    hand
}

} // verus!
