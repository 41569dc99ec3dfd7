//! Hash tables: an estimate of the table from its capacity, then the
//! children of each entry and of the hasher.
//!
//! What a table holds is known to be what its iterator yields only for keys
//! that are hashed and compared as the table expects.

use crate::collections::{lists_map, lists_set, size_of_each_entry, size_of_each_ref};
use crate::context::{Context, Tally};
use crate::estimate::{capped_hash_table_bytes, capped_hashmap_size};
use crate::measure::{each_charged, SizeOf};
use std::collections::{HashMap, HashSet};
use vstd::layout::{align_of, size_of};
use vstd::prelude::*;
use vstd::std_specs::hash::{builds_valid_hashers, obeys_key_model};

verus! {

impl Tally {
    /// The tally after a hash table with `length` entries and room for
    /// `capacity` was charged: the bytes in use, then the rest of what is
    /// allocated as excess, and one allocation. A table holds at least what
    /// is in it, so only one without entries and without room has no heap
    /// block, and nothing is charged for it.
    pub open spec fn charge_table(
        self,
        element_size: nat,
        element_align: nat,
        length: nat,
        capacity: nat,
    ) -> Tally {
        if capacity != 0 || length != 0 {
            let bytes = capped_hash_table_bytes(element_size, element_align, length, capacity);
            self.charge(bytes.1).charge_excess((bytes.0 - bytes.1) as nat).allocate(1)
        } else {
            self
        }
    }
}

/// Charges to `context` a hash table from `K` to `V` with `length` entries
/// and room for `capacity`.
pub fn size_of_table<K, V>(context: &mut Context, length: usize, capacity: usize)
    ensures
        final(context)@ == old(context)@.charge_table(
            size_of::<(K, V)>(),
            align_of::<(K, V)>(),
            length as nat,
            capacity as nat,
        ),
        final(context)@.extends(old(context)@),
{
    if capacity != 0 || length != 0 {
        let (total_bytes, used_bytes) = capped_hashmap_size::<K, V>(length, capacity);
        context.add(used_bytes).add_excess(total_bytes - used_bytes).add_distinct_allocation();
    }
}

/// Whether charging the children of each of `items`, and then those of some
/// hasher, can turn `start` into `after`.
pub open spec fn each_then_hasher_charged<T: SizeOf, S: SizeOf>(
    items: Seq<T>,
    start: Tally,
    after: Tally,
) -> bool {
    exists|mid: Tally, hasher: S|
        {
            &&& #[trigger] each_charged(items, start, mid)
            &&& mid.extends(start)
            &&& #[trigger] hasher.children_charged(mid, after)
            &&& after.extends(mid)
        }
}

/// `HashSet::capacity`: the number of elements the set has room for.
/// Nothing is claimed of the number.
#[verifier::external_body]
fn hash_set_capacity<K, S>(set: &HashSet<K, S>) -> usize {
    set.capacity()
}

/// The elements that `HashSet::iter` yields, in whatever order it walks
/// them. Where the keys are hashed and compared as the set expects, there
/// are as many as the set holds, and together they are the set's contents.
#[verifier::external_body]
fn hash_set_items<K, S>(set: &HashSet<K, S>) -> (items: Vec<&K>)
    ensures
        obeys_key_model::<K>() && builds_valid_hashers::<S>() ==> lists_set(
            items@.map_values(|key: &K| *key),
            set@,
        ),
{
    set.iter().collect()
}

/// `HashSet::hasher`: the value that makes the set's hashers. Nothing is
/// claimed of it.
#[verifier::external_body]
fn hash_set_hasher<K, S>(set: &HashSet<K, S>) -> &S {
    set.hasher()
}

/// Whether charging a hash set with the elements `set` and a hasher `S` can
/// turn `before` into `after`: the table for as many elements as the set
/// yields, at some capacity, then the children of each element and of the
/// hasher. Where the keys are hashed and compared as the set expects, the
/// elements it yields are `set`.
pub open spec fn hash_set_charged<K: SizeOf, S: SizeOf>(
    set: Set<K>,
    before: Tally,
    after: Tally,
) -> bool {
    exists|capacity: usize, items: Seq<K>|
        #![trigger before.charge_table(size_of::<(K, ())>(), align_of::<(K, ())>(), items.len(), capacity as nat)]
        {
            &&& obeys_key_model::<K>() && builds_valid_hashers::<S>() ==> lists_set(items, set)
            &&& each_then_hasher_charged::<K, S>(
                items,
                before.charge_table(
                    size_of::<(K, ())>(),
                    align_of::<(K, ())>(),
                    items.len(),
                    capacity as nat,
                ),
                after,
            )
        }
}

impl<K: SizeOf, S: SizeOf> SizeOf for HashSet<K, S> {
    open spec fn children_charged(&self, before: Tally, after: Tally) -> bool {
        hash_set_charged::<K, S>(self@, before, after)
    }

    fn size_of_children(&self, context: &mut Context) {
        let capacity = hash_set_capacity(self);
        let items = hash_set_items(self);
        let ghost listed = items@.map_values(|key: &K| *key);
        let ghost planned = context@.charge_table(
            size_of::<(K, ())>(),
            align_of::<(K, ())>(),
            listed.len(),
            capacity as nat,
        );
        size_of_table::<K, ()>(context, items.len(), capacity);
        let ghost start = context@;
        size_of_each_ref(items.as_slice(), context);
        let ghost mid = context@;
        let hasher = hash_set_hasher(self);
        assert(each_charged(listed, start, mid));
        hasher.size_of_children(context);
        assert(hasher.children_charged(mid, context@));
        assert(each_then_hasher_charged::<K, S>(listed, start, context@));
    }
}

/// `HashMap::capacity`: the number of entries the map has room for.
/// Nothing is claimed of the number.
#[verifier::external_body]
fn hash_map_capacity<K, V, S>(map: &HashMap<K, V, S>) -> usize {
    map.capacity()
}

/// The entries that `HashMap::iter` yields, in whatever order it walks
/// them. Where the keys are hashed and compared as the map expects, there
/// are as many as the map holds, each of them is an entry of the map, and
/// every key is among them.
#[verifier::external_body]
fn hash_map_items<K, V, S>(map: &HashMap<K, V, S>) -> (items: Vec<(&K, &V)>)
    ensures
        obeys_key_model::<K>() && builds_valid_hashers::<S>() ==> lists_map(
            items@.map_values(|entry: (&K, &V)| (*entry.0, *entry.1)),
            map@,
        ),
{
    map.iter().collect()
}

/// `HashMap::hasher`: the value that makes the map's hashers. Nothing is
/// claimed of it.
#[verifier::external_body]
fn hash_map_hasher<K, V, S>(map: &HashMap<K, V, S>) -> &S {
    map.hasher()
}

/// Whether charging a hash map with the entries `map` and a hasher `S` can
/// turn `before` into `after`: the table for as many entries as the map
/// yields, at some capacity, then the children of each key and value and of
/// the hasher. Where the keys are hashed and compared as the map expects,
/// the entries it yields are `map`.
pub open spec fn hash_map_charged<K: SizeOf, V: SizeOf, S: SizeOf>(
    map: Map<K, V>,
    before: Tally,
    after: Tally,
) -> bool {
    exists|capacity: usize, entries: Seq<(K, V)>|
        #![trigger before.charge_table(size_of::<(K, V)>(), align_of::<(K, V)>(), entries.len(), capacity as nat)]
        {
            &&& obeys_key_model::<K>() && builds_valid_hashers::<S>() ==> lists_map(entries, map)
            &&& each_then_hasher_charged::<(K, V), S>(
                entries,
                before.charge_table(
                    size_of::<(K, V)>(),
                    align_of::<(K, V)>(),
                    entries.len(),
                    capacity as nat,
                ),
                after,
            )
        }
}

impl<K: SizeOf, V: SizeOf, S: SizeOf> SizeOf for HashMap<K, V, S> {
    open spec fn children_charged(&self, before: Tally, after: Tally) -> bool {
        hash_map_charged::<K, V, S>(self@, before, after)
    }

    fn size_of_children(&self, context: &mut Context) {
        let capacity = hash_map_capacity(self);
        let items = hash_map_items(self);
        let ghost listed = items@.map_values(|entry: (&K, &V)| (*entry.0, *entry.1));
        let ghost planned = context@.charge_table(
            size_of::<(K, V)>(),
            align_of::<(K, V)>(),
            listed.len(),
            capacity as nat,
        );
        size_of_table::<K, V>(context, items.len(), capacity);
        let ghost start = context@;
        size_of_each_entry(items.as_slice(), context);
        let ghost mid = context@;
        let hasher = hash_map_hasher(self);
        assert(each_charged(listed, start, mid));
        hasher.size_of_children(context);
        assert(hasher.children_charged(mid, context@));
        assert(each_then_hasher_charged::<(K, V), S>(listed, start, context@));
    }
}

} // verus!
