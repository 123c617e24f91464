//! The Bloom filter that tells which blocks have been syndicated.
//!
//! A filter is a set of marked places, and every item has a fixed set of
//! places of its own. Inserting an item marks its places; an item is found in
//! a filter when all its places are marked. So an item that was inserted is
//! always found, and an item that was not may be found too.

use deterministic_bloom::const_size::BloomFilter;
use vstd::prelude::*;

verus! {

/// The filter of the `deterministic_bloom` crate.
#[verifier::external_type_specification]
#[verifier::external_body]
pub struct ExBloomFilter<const N: usize, const K: usize>(BloomFilter<N, K>);

/// The places that are marked in a filter: the indices of the bits that are set.
pub uninterp spec fn filter_places(filter: BloomFilter<256, 30>) -> Set<int>;

/// The places of an item: what `BloomFilter::hash_indices` yields for it, which
/// depends on the bytes of the item alone.
pub uninterp spec fn item_places(item: Seq<u8>) -> Set<int>;

/// Whether an item is found where `places` are marked.
pub open spec fn found_in(places: Set<int>, item: Seq<u8>) -> bool {
    item_places(item).subset_of(places)
}

/// The places of all of `items`.
pub open spec fn places_of(items: Seq<Seq<u8>>) -> Set<int>
    decreases items.len(),
{
    if items.len() == 0 {
        Set::empty()
    } else {
        places_of(items.drop_last()).union(item_places(items.last()))
    }
}

/// The byte strings in a vector of them.
pub open spec fn contents(items: Seq<Vec<u8>>) -> Seq<Seq<u8>> {
    items.map_values(|item: Vec<u8>| item@)
}

/// Calls `BloomFilter::default`, which makes a filter with no bit set.
#[verifier::external_body]
pub(crate) fn empty_filter() -> (filter: BloomFilter<256, 30>)
    ensures
        filter_places(filter) == Set::<int>::empty(),
{
    BloomFilter::default()
}

/// Calls `BloomFilter::insert`, which sets the bits at the places of the item
/// and leaves all other bits as they are.
#[verifier::external_body]
fn insert_item(filter: &mut BloomFilter<256, 30>, item: &Vec<u8>)
    ensures
        filter_places(*final(filter)) == filter_places(*old(filter)).union(item_places(item@)),
{
    filter.insert(item)
}

/// Inserts every one of `items` into `filter`.
pub fn insert_all(filter: &mut BloomFilter<256, 30>, items: &Vec<Vec<u8>>)
    ensures
        filter_places(*final(filter)) == filter_places(*old(filter)).union(
            places_of(contents(items@)),
        ),
{
    let ghost all = contents(items@);
    let ghost before = filter_places(*filter);
    let mut i: usize = 0;
    assert(before.union(places_of(all.take(0))) =~= before);
    while i < items.len()
        invariant
            i <= items@.len(),
            all == contents(items@),
            filter_places(*filter) == before.union(places_of(all.take(i as int))),
        decreases items@.len() - i,
    {
        insert_item(filter, &items[i]);
        proof {
            let done = all.take(i + 1);
            assert(done.drop_last() =~= all.take(i as int));
            assert(done.last() == items@[i as int]@);
            assert(filter_places(*filter) =~= before.union(places_of(done)));
        }
        i = i + 1;
    }
    assert(all.take(items@.len() as int) =~= all);
}

/// What was found in a filter is found in it after any insertion.
pub proof fn law_insertion_loses_nothing(places: Set<int>, items: Seq<Seq<u8>>, item: Seq<u8>)
    requires
        found_in(places, item),
    ensures
        found_in(places.union(places_of(items)), item),
{
}

/// Every item that was inserted is found.
pub proof fn law_inserted_is_found(places: Set<int>, items: Seq<Seq<u8>>, i: int)
    requires
        0 <= i < items.len(),
    ensures
        found_in(places.union(places_of(items)), items[i]),
    decreases items.len(),
{
    if i < items.len() - 1 {
        law_inserted_is_found(places, items.drop_last(), i);
        assert(found_in(places.union(places_of(items.drop_last())), items[i]));
    }
}

/// The places of two lists of items together.
pub(crate) proof fn lemma_places_of_append(first: Seq<Seq<u8>>, second: Seq<Seq<u8>>)
    ensures
        places_of(first + second) == places_of(first).union(places_of(second)),
    decreases second.len(),
{
    if second.len() == 0 {
        assert(first + second =~= first);
        assert(places_of(first + second) =~= places_of(first).union(places_of(second)));
    } else {
        lemma_places_of_append(first, second.drop_last());
        assert((first + second).drop_last() =~= first + second.drop_last());
        assert((first + second).last() == second.last());
        assert(places_of(first + second) =~= places_of(first).union(places_of(second)));
    }
}

/// Nothing is marked but the places of items that were inserted.
pub proof fn law_only_places_of_items_are_marked(items: Seq<Seq<u8>>, place: int)
    requires
        places_of(items).contains(place),
    ensures
        exists|i: int| 0 <= i < items.len() && item_places(#[trigger] items[i]).contains(place),
    decreases items.len(),
{
    if items.len() > 0 {
        if item_places(items.last()).contains(place) {
            assert(item_places(items[items.len() - 1]).contains(place));
        } else {
            law_only_places_of_items_are_marked(items.drop_last(), place);
            let i = choose|i: int|
                0 <= i < items.drop_last().len() && item_places(
                    #[trigger] items.drop_last()[i],
                ).contains(place);
            assert(item_places(items[i]).contains(place));
        }
    }
}

} // verus!
