//! Ordered sets and maps: an estimate of the nodes, then the children of
//! each entry.
//!
//! What a collection holds is known to be what its iterator yields only for
//! keys that are ordered as the collection expects.

use crate::collections::{lists_map, lists_set, size_of_each_entry, size_of_each_ref};
use crate::context::{Context, Tally};
use crate::total::Totals;
use crate::estimate::{capped_btree_size, BTreeNode};
use crate::laws::{leaves_charge_nothing, owns_nothing};
use crate::measure::{each_charged, measured, SizeOf};
use std::collections::{BTreeMap, BTreeSet};
use vstd::layout::{size_of, spec_size_of_val};
use vstd::prelude::*;
use vstd::std_specs::btree::key_obeys_cmp_spec;

verus! {

/// The elements that `BTreeSet::iter` yields, in its order. Where the keys
/// are ordered as the set expects, there are as many as the set holds, and
/// together they are the set's contents.
#[verifier::external_body]
fn btree_set_items<K>(set: &BTreeSet<K>) -> (items: Vec<&K>)
    ensures
        key_obeys_cmp_spec::<K>() ==> lists_set(items@.map_values(|key: &K| *key), set@),
{
    set.iter().collect()
}

/// The entries that `BTreeMap::iter` yields, in its order. Where the keys
/// are ordered as the map expects, there are as many as the map holds, each
/// of them is an entry of the map, and every key is among them.
#[verifier::external_body]
fn btree_map_items<K, V>(map: &BTreeMap<K, V>) -> (items: Vec<(&K, &V)>)
    ensures
        key_obeys_cmp_spec::<K>() ==> lists_map(
            items@.map_values(|entry: (&K, &V)| (*entry.0, *entry.1)),
            map@,
        ),
{
    map.iter().collect()
}

/// Whether charging an ordered set with the elements `set`, nodes and
/// elements, can turn `before` into `after`: the nodes for as many elements
/// as the set yields, then the children of each. Where the keys are ordered
/// as the set expects, the elements it yields are `set`.
pub open spec fn ordered_set_charged<K: SizeOf>(set: Set<K>, before: Tally, after: Tally) -> bool {
    exists|items: Seq<K>|
        {
            &&& key_obeys_cmp_spec::<K>() ==> lists_set(items, set)
            &&& #[trigger] each_charged(
                items,
                before.charge_tree(items.len(), size_of::<BTreeNode<K, ()>>()),
                after,
            )
        }
}

impl<K: SizeOf> SizeOf for BTreeSet<K> {
    open spec fn children_charged(&self, before: Tally, after: Tally) -> bool {
        ordered_set_charged(self@, before, after)
    }

    fn size_of_children(&self, context: &mut Context) {
        let ghost before = context@;
        let items = btree_set_items(self);
        let ghost listed = items@.map_values(|key: &K| *key);
        if items.len() != 0 {
            context.add(capped_btree_size::<K, ()>(items.len())).add_distinct_allocation();
        }
        size_of_each_ref(items.as_slice(), context);
        assert(each_charged(
            listed,
            before.charge_tree(listed.len(), size_of::<BTreeNode<K, ()>>()),
            context@,
        ));
    }
}

/// Whether charging an ordered map with the entries `map`, nodes and
/// entries, can turn `before` into `after`: the nodes for as many entries as
/// the map yields, then the children of each key and value. Where the keys
/// are ordered as the map expects, the entries it yields are `map`.
pub open spec fn ordered_map_charged<K: SizeOf, V: SizeOf>(
    map: Map<K, V>,
    before: Tally,
    after: Tally,
) -> bool {
    exists|entries: Seq<(K, V)>|
        {
            &&& key_obeys_cmp_spec::<K>() ==> lists_map(entries, map)
            &&& #[trigger] each_charged(
                entries,
                before.charge_tree(entries.len(), size_of::<BTreeNode<K, V>>()),
                after,
            )
        }
}

impl<K: SizeOf, V: SizeOf> SizeOf for BTreeMap<K, V> {
    open spec fn children_charged(&self, before: Tally, after: Tally) -> bool {
        ordered_map_charged(self@, before, after)
    }

    fn size_of_children(&self, context: &mut Context) {
        let ghost before = context@;
        let items = btree_map_items(self);
        let ghost listed = items@.map_values(|entry: (&K, &V)| (*entry.0, *entry.1));
        if items.len() != 0 {
            context.add(capped_btree_size::<K, V>(items.len())).add_distinct_allocation();
        }
        size_of_each_entry(items.as_slice(), context);
        assert(each_charged(
            listed,
            before.charge_tree(listed.len(), size_of::<BTreeNode<K, V>>()),
            context@,
        ));
    }
}

/// An ordered set of values that own nothing, and that are ordered as the
/// set expects, measures as the set and the estimate for its nodes, with one
/// allocation unless it is empty.
pub proof fn ordered_set_of_leaves_measure<K: SizeOf>(set: &BTreeSet<K>, totals: Totals)
    requires
        key_obeys_cmp_spec::<K>(),
        forall|key: K| #[trigger] owns_nothing(&key),
        measured(set, totals),
    ensures
        totals == Tally::empty().charge(spec_size_of_val::<BTreeSet<K>>(set)).charge_tree(
            set@.len(),
            size_of::<BTreeNode<K, ()>>(),
        ).totals,
{
    let start = Tally::empty().charge(spec_size_of_val::<BTreeSet<K>>(set));
    let after = choose|after: Tally|
        {
            &&& #[trigger] set.children_charged(start, after)
            &&& after.extends(Tally::empty())
            &&& after.totals == totals
        };
    assert(ordered_set_charged(set@, start, after));
    let items = choose|items: Seq<K>|
        {
            &&& key_obeys_cmp_spec::<K>() ==> lists_set(items, set@)
            &&& #[trigger] each_charged(
                items,
                start.charge_tree(items.len(), size_of::<BTreeNode<K, ()>>()),
                after,
            )
        };
    leaves_charge_nothing(
        items,
        start.charge_tree(items.len(), size_of::<BTreeNode<K, ()>>()),
        after,
    );
}

} // verus!
