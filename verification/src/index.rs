//! The map from keys to the slots that hold their entries.

use dashmap::DashMap;
use vstd::arithmetic::power2::is_pow2;
use vstd::prelude::*;

verus! {

/// `dashmap::DashMap`, carried as an opaque value.
#[verifier::external_type_specification]
#[verifier::external_body]
#[verifier::reject_recursive_types(K)]
#[verifier::reject_recursive_types(V)]
#[verifier::reject_recursive_types(S)]
pub struct ExDashMap<K, V, S>(DashMap<K, V, S>);

/// What a map from keys to slots holds.
pub uninterp spec fn index_contents(index: DashMap<u128, usize>) -> Map<u128, usize>;

/// The number of shards that a map from keys to slots is split into. It is settled when the map is
/// made.
pub uninterp spec fn index_shards(index: DashMap<u128, usize>) -> usize;

/// `DashMap::new`: an empty map. The number of its shards depends on the machine, and nothing is
/// claimed of it.
#[verifier::external_body]
pub(crate) fn index_new() -> (made: DashMap<u128, usize>)
    ensures
        (index_contents(made) == Map::<u128, usize>::empty()),
{
    DashMap::new()
}

/// `DashMap::with_shard_amount`: an empty map with that many shards, which must be a power of two
/// above one.
#[verifier::external_body]
pub(crate) fn index_with_shards(amt: usize) -> (made: DashMap<u128, usize>)
    requires
        1 < amt,
        is_pow2(amt as int),
    ensures
        (index_contents(made) == Map::<u128, usize>::empty()),
        index_shards(made) == amt,
{
    DashMap::with_shard_amount(amt)
}

/// `DashMap::get`: the slot of a key, if the map holds one.
#[verifier::external_body]
pub(crate) fn index_get(index: &DashMap<u128, usize>, key: u128) -> (slot: Option<usize>)
    ensures
        slot == index_contents(*index).get(key),
{
    index.get(&key).map(|slot| *slot)
}

/// `DashMap::entry` followed by `or_insert`: the slot of a key, which is `fresh` if the map
/// held none; then the map holds `fresh` for it afterwards. Nothing else in the map changes.
#[verifier::external_body]
pub(crate) fn index_get_or_insert(
    index: &mut DashMap<u128, usize>,
    key: u128,
    fresh: usize,
) -> (slot: usize)
    ensures
        index_contents(*old(index)).contains_key(key) ==> {
            &&& slot == index_contents(*old(index))[key]
            &&& index_contents(*final(index)) == index_contents(*old(index))
        },
        !index_contents(*old(index)).contains_key(key) ==> {
            &&& slot == fresh
            &&& index_contents(*final(index)) == index_contents(*old(index)).insert(key, fresh)
        },
        index_shards(*final(index)) == index_shards(*old(index)),
{
    *index.entry(key).or_insert(fresh)
}

/// `DashMap::remove`: takes a key out of the map, and returns the slot that the map held for
/// it, if any. Nothing else in the map changes.
#[verifier::external_body]
pub(crate) fn index_remove(index: &mut DashMap<u128, usize>, key: u128) -> (slot: Option<usize>)
    ensures
        slot == index_contents(*old(index)).get(key),
        index_contents(*final(index)) == index_contents(*old(index)).remove(key),
        index_shards(*final(index)) == index_shards(*old(index)),
{
    index.remove(&key).map(|pair| pair.1)
}

/// `DashMap::retain`: takes out of the map the keys whose slots are marked in `doomed`, and
/// no others.
#[verifier::external_body]
pub(crate) fn index_retain(index: &mut DashMap<u128, usize>, doomed: &Vec<bool>)
    requires
        forall|key: u128| #[trigger]
            index_contents(*old(index)).contains_key(key) ==> index_contents(*old(index))[key]
                < doomed@.len(),
    ensures
        index_contents(*final(index)) == index_without(index_contents(*old(index)), doomed@),
        index_shards(*final(index)) == index_shards(*old(index)),
{
    index.retain(|_, slot| is_spared(doomed, *slot))
}

/// What is left of a map when the keys whose slots are marked are taken out.
pub open spec fn index_without(contents: Map<u128, usize>, doomed: Seq<bool>) -> Map<u128, usize> {
    Map::new(
        |key: u128| contents.contains_key(key) && !doomed[contents[key] as int],
        |key: u128| contents[key],
    )
}

/// Whether a slot is not marked.
fn is_spared(doomed: &Vec<bool>, slot: usize) -> (spared: bool)
    requires
        slot < doomed@.len(),
    ensures
        spared == !doomed@[slot as int],
{
    !doomed[slot]
}

} // verus!
