//! Opening a booster: ten random collectibles from everything the content holds.

use vstd::prelude::*;

use crate::data::GameContent;
use crate::state::{BoosterCardGrant, CollectionCardKind};

verus! {

/// Every collectible a booster can grant: the magical girls, then the baddies, then the story
/// cards, in content order.
pub open spec fn booster_pool(content: GameContent) -> Seq<BoosterCardGrant> {
    content.magical_girls@.map_values(
        |entry: crate::data::CharacterDefinition|
            BoosterCardGrant { kind: CollectionCardKind::MagicalGirl, id: entry.id, name: entry.name },
    ) + content.baddies@.map_values(
        |entry: crate::data::CharacterDefinition|
            BoosterCardGrant { kind: CollectionCardKind::Baddie, id: entry.id, name: entry.name },
    ) + content.story_cards@.map_values(
        |entry: crate::data::StoryCardDefinition|
            BoosterCardGrant { kind: CollectionCardKind::StoryCard, id: entry.id, name: entry.name },
    )
}

/// The number of grants in one booster.
pub open spec fn booster_size() -> nat {
    10
}

/// A random index below `len`, from macroquad's generator.
///
/// `macroquad::rand::gen_range(0, n)` scales a 32-bit random number by `n` and truncates, so
/// for `n` between 1 and `i32::MAX` it lands in `0..n`; which index comes out depends on the
/// generator's hidden state and is not stated.
#[verifier::external_body]
fn random_index_below(len: usize) -> (r: usize)
    requires
        0 < len <= i32::MAX,
    ensures
        r < len,
{
    macroquad::rand::gen_range(0, len as i32) as usize
}

/// A copy of a grant.
fn copy_grant(grant: &BoosterCardGrant) -> (r: BoosterCardGrant)
    ensures
        r == *grant,
{
    BoosterCardGrant { kind: grant.kind, id: grant.id.clone(), name: grant.name.clone() }
}

/// Every collectible of the content as a grant.
fn build_pool(content: &GameContent) -> (r: Vec<BoosterCardGrant>)
    ensures
        r@ == booster_pool(*content),
{
    let mut pool: Vec<BoosterCardGrant> = Vec::new();
    let mut i: usize = 0;
    while i < content.magical_girls.len()
        invariant
            i <= content.magical_girls@.len(),
            pool@ == booster_pool(*content).take(i as int),
            booster_pool(*content).len() == content.magical_girls@.len() + content.baddies@.len()
                + content.story_cards@.len(),
        decreases content.magical_girls@.len() - i,
    {
        let entry = &content.magical_girls[i];
        pool.push(BoosterCardGrant { kind: CollectionCardKind::MagicalGirl, id: entry.id.clone(), name: entry.name.clone() });
        i += 1;
        proof {
            assert(pool@ =~= booster_pool(*content).take(i as int));
        }
    }
    let ghost before = content.magical_girls@.len() as int;
    let mut j: usize = 0;
    while j < content.baddies.len()
        invariant
            before == content.magical_girls@.len(),
            j <= content.baddies@.len(),
            pool@ == booster_pool(*content).take(before + j),
            booster_pool(*content).len() == content.magical_girls@.len() + content.baddies@.len()
                + content.story_cards@.len(),
        decreases content.baddies@.len() - j,
    {
        let entry = &content.baddies[j];
        pool.push(BoosterCardGrant { kind: CollectionCardKind::Baddie, id: entry.id.clone(), name: entry.name.clone() });
        j += 1;
        proof {
            assert(pool@ =~= booster_pool(*content).take(before + j));
        }
    }
    let ghost middle = before + content.baddies@.len();
    let mut k: usize = 0;
    while k < content.story_cards.len()
        invariant
            middle == content.magical_girls@.len() + content.baddies@.len(),
            k <= content.story_cards@.len(),
            pool@ == booster_pool(*content).take(middle + k),
            booster_pool(*content).len() == content.magical_girls@.len() + content.baddies@.len()
                + content.story_cards@.len(),
        decreases content.story_cards@.len() - k,
    {
        let entry = &content.story_cards[k];
        pool.push(BoosterCardGrant { kind: CollectionCardKind::StoryCard, id: entry.id.clone(), name: entry.name.clone() });
        k += 1;
        proof {
            assert(pool@ =~= booster_pool(*content).take(middle + k));
        }
    }
    proof {
        assert(pool@ =~= booster_pool(*content));
    }
    pool
}

/// The grants at the given positions of the pool, in the order of the positions.
pub open spec fn grants_at(content: GameContent, indices: Seq<usize>) -> Seq<BoosterCardGrant> {
    indices.map_values(|i: usize| booster_pool(content)[i as int])
}

/// The grants at the given positions of the content's booster pool, each position below the
/// pool's size.
pub fn booster_from_indices(content: &GameContent, indices: &[usize]) -> (r: Vec<BoosterCardGrant>)
    requires
        forall|i: int| 0 <= i < indices@.len() ==> #[trigger] indices@[i] < booster_pool(*content).len(),
    ensures
        r@ == grants_at(*content, indices@),
{
    let pool = build_pool(content);
    let mut results: Vec<BoosterCardGrant> = Vec::new();
    let mut n: usize = 0;
    while n < indices.len()
        invariant
            pool@ == booster_pool(*content),
            n <= indices@.len(),
            forall|i: int| 0 <= i < indices@.len() ==> #[trigger] indices@[i] < booster_pool(*content).len(),
            results@ == grants_at(*content, indices@.take(n as int)),
        decreases indices@.len() - n,
    {
        let index = indices[n];
        results.push(copy_grant(&pool[index]));
        n += 1;
        proof {
            assert(results@ =~= grants_at(*content, indices@.take(n as int)));
        }
    }
    proof {
        assert(indices@.take(indices@.len() as int) =~= indices@);
    }
    results
}

/// Ten grants, each drawn at random from the whole pool; the same collectible can come more
/// than once. The content must hold at least one collectible.
pub fn open_booster(content: &GameContent) -> (r: Vec<BoosterCardGrant>)
    requires
        0 < booster_pool(*content).len() <= i32::MAX,
    ensures
        r@.len() == booster_size(),
        forall|i: int| 0 <= i < r@.len() ==> booster_pool(*content).contains(#[trigger] r@[i]),
        exists|indices: Seq<usize>|
            indices.len() == booster_size() && (forall|i: int|
                0 <= i < indices.len() ==> #[trigger] indices[i] < booster_pool(*content).len()) && r@
                == #[trigger] grants_at(*content, indices),
{
    let size = build_pool(content).len();
    let mut indices: Vec<usize> = Vec::new();
    while indices.len() < 10
        invariant
            size == booster_pool(*content).len(),
            0 < size <= i32::MAX,
            indices@.len() <= 10,
            forall|i: int| 0 <= i < indices@.len() ==> #[trigger] indices@[i] < size,
        decreases 10 - indices@.len(),
    {
        indices.push(random_index_below(size));
    }
    let results = booster_from_indices(content, indices.as_slice());
    proof {
        assert forall|i: int| 0 <= i < results@.len() implies booster_pool(*content).contains(#[trigger] results@[i]) by {
            assert(results@[i] == booster_pool(*content)[indices@[i] as int]);
        }
    }
    results
}

} // verus!
