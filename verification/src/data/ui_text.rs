//! Player-facing text catalog.

use vstd::prelude::*;

verus! {

/// Text entries keyed by a stable identifier.
#[derive(Clone, Debug)]
pub struct UiText {
    pub values: Vec<(String, String)>,
}

/// The text stored under `key`: that of the first entry with this key, or the key itself.
pub open spec fn text_lookup(values: Seq<(String, String)>, key: Seq<char>) -> Seq<char>
    decreases values.len(),
{
    if values.len() == 0 {
        key
    } else if values[0].0@ == key {
        values[0].1@
    } else {
        text_lookup(values.drop_first(), key)
    }
}

/// No key occurs twice among the entries, as in a catalog keyed by its identifiers.
pub open spec fn keys_distinct(values: Seq<(String, String)>) -> bool {
    forall|i: int, j: int| 0 <= i < j < values.len() ==> (#[trigger] values[i]).0@ != (#[trigger] values[j]).0@
}

/// In a catalog whose keys are distinct, looking up an entry's key gives that entry's text.
pub proof fn lemma_lookup_finds_entry(values: Seq<(String, String)>, i: int)
    requires
        keys_distinct(values),
        0 <= i < values.len(),
    ensures
        text_lookup(values, values[i].0@) == values[i].1@,
    decreases i,
{
    if i > 0 {
        let rest = values.drop_first();
        assert(values[0].0@ != values[i].0@);
        assert(rest[i - 1] == values[i]);
        assert(keys_distinct(rest)) by {
            assert forall|a: int, b: int| 0 <= a < b < rest.len() implies (#[trigger] rest[a]).0@ != (#[trigger] rest[b]).0@ by {
                assert(rest[a] == values[a + 1] && rest[b] == values[b + 1]);
            }
        }
        lemma_lookup_finds_entry(rest, i - 1);
    }
}

impl Default for UiText {
    fn default() -> (r: Self)
        ensures
            r.values@.len() == 0,
            keys_distinct(r.values@),
    {
        UiText { values: Vec::new() }
    }
}

impl UiText {
    /// The text for `key`, falling back to the key itself when the catalog has no entry.
    pub fn get<'a>(&'a self, key: &'a str) -> (r: &'a str)
        ensures
            r@ == text_lookup(self.values@, key@),
    {
        let mut i: usize = 0;
        proof {
            assert(self.values@.subrange(0, self.values@.len() as int) =~= self.values@);
        }
        while i < self.values.len()
            invariant
                i <= self.values.len(),
                text_lookup(self.values@, key@) == text_lookup(self.values@.subrange(i as int, self.values@.len() as int), key@),
            decreases self.values.len() - i,
        {
            let ghost rest = self.values@.subrange(i as int, self.values@.len() as int);
            proof {
                assert(rest.drop_first() =~= self.values@.subrange(i + 1, self.values@.len() as int));
            }
            if crate::text::same_text(self.values[i].0.as_str(), key) {
                return self.values[i].1.as_str();
            }
            i += 1;
        }
        key
    }
}

} // verus!
