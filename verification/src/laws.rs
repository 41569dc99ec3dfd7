//! What holds of every measurement: of values that own nothing, of exclusive
//! handles, of growable buffers and of shared handles.

use crate::context::Tally;
use crate::collections::{buffer_and_each_charged, buffer_capacity, lists_map, lists_set};
use crate::estimate::{capped_table_bytes, capped_table_bytes_monotone};
use crate::hashing::{each_then_hasher_charged, hash_map_charged, hash_set_charged};
use crate::measure::{each_charged, measured, SizeOf};
use crate::pointers::shared_charged_at;
use crate::total::Totals;
use vstd::layout::{align_of, size_of, spec_size_of_val};
use vstd::prelude::*;

verus! {

/// Every tally extends itself, and one that extends a tally that extends a
/// third extends the third: traversals can be carried out one after the
/// other.
pub proof fn extends_is_an_order(first: Tally, second: Tally, third: Tally)
    ensures
        first.extends(first),
        third.extends(second) && second.extends(first) ==> third.extends(first),
{
}

/// Excess and shared bytes that are parts of the total before a traversal
/// are parts of it afterwards.
pub proof fn extending_keeps_consistent(before: Tally, after: Tally)
    requires
        before.totals.consistent(),
        after.extends(before),
    ensures
        after.totals.consistent(),
{
}

/// Bytes, excess, buffers and allocations that are charged, and addresses
/// that are recorded, extend a tally.
pub proof fn charging_extends(before: Tally, bytes: nat, address: usize)
    ensures
        before.charge(bytes).extends(before),
        before.charge_excess(bytes).extends(before),
        before.allocate(bytes).extends(before),
        before.mark(address).extends(before),
{
}

/// Whether `value` owns nothing: charging its children leaves every tally
/// as it is.
pub open spec fn owns_nothing<T: SizeOf + ?Sized>(value: &T) -> bool {
    forall|before: Tally, after: Tally| #[trigger]
        value.children_charged(before, after) <==> after == before
}

/// A value that owns nothing measures as its own size: so many bytes in
/// total, none of them excess or shared, and no allocation.
pub proof fn leaf_measures_own_size<T: SizeOf + ?Sized>(value: &T, totals: Totals)
    requires
        owns_nothing(value),
    ensures
        measured(value, totals) <==> totals == Totals::only(spec_size_of_val::<T>(value)),
{
    let start = Tally::empty().charge(spec_size_of_val::<T>(value));
    if totals == Totals::only(spec_size_of_val::<T>(value)) {
        assert(value.children_charged(start, start));
    }
}

/// Charging the children of values that own nothing changes nothing.
pub proof fn leaves_charge_nothing<T: SizeOf>(values: Seq<T>, before: Tally, after: Tally)
    requires
        forall|i: int| 0 <= i < values.len() ==> owns_nothing(&#[trigger] values[i]),
    ensures
        each_charged(values, before, after) <==> after == before,
    decreases values.len(),
{
    if values.len() != 0 {
        assert(owns_nothing(&values[0]));
        assert forall|i: int| 0 <= i < values.skip(1).len() implies owns_nothing(
            &#[trigger] values.skip(1)[i],
        ) by {
            assert(values.skip(1)[i] == values[i + 1]);
        }
        leaves_charge_nothing(values.skip(1), before, after);
        assert(values[0].children_charged(before, before));
        if each_charged(values, before, after) {
            let mid = choose|mid: Tally|
                {
                    &&& #[trigger] values[0].children_charged(before, mid)
                    &&& mid.extends(before)
                    &&& each_charged(values.skip(1), mid, after)
                };
            assert(mid == before);
        }
    }
}

/// What the children of values charged one after the other make of a tally
/// extends it.
pub proof fn each_charged_extends<T: SizeOf>(values: Seq<T>, before: Tally, after: Tally)
    requires
        each_charged(values, before, after),
    ensures
        after.extends(before),
    decreases values.len(),
{
    if values.len() != 0 {
        let mid = choose|mid: Tally|
            {
                &&& #[trigger] values[0].children_charged(before, mid)
                &&& mid.extends(before)
                &&& each_charged(values.skip(1), mid, after)
            };
        each_charged_extends(values.skip(1), mid, after);
    }
}

/// Whether the children of `value` add `added` to every tally outside a
/// shared region, whatever it holds.
pub open spec fn adds_alone<T: SizeOf + ?Sized>(value: &T, added: Totals) -> bool {
    forall|before: Tally, after: Tally|
        !before.is_shared && #[trigger] value.children_charged(before, after)
            ==> after.totals == before.totals.plus(added)
}

/// An exclusive handle to a value with size, whose children add the same to
/// every tally, measures as the sum of the handle, the value and what the
/// children add, with one allocation more than the children have.
pub proof fn boxed_measures_as_sum<T: SizeOf + ?Sized>(
    handle: &Box<T>,
    added: Totals,
    totals: Totals,
)
    requires
        spec_size_of_val::<T>(&**handle) != 0,
        adds_alone::<T>(&**handle, added),
        measured(handle, totals),
    ensures
        totals.total_bytes == spec_size_of_val::<Box<T>>(handle) + spec_size_of_val::<T>(
            &**handle,
        ) + added.total_bytes,
        totals.distinct_allocations == 1 + added.distinct_allocations,
        totals.excess_bytes == added.excess_bytes,
        totals.shared_bytes == added.shared_bytes,
{
    boxed_measure(handle, totals);
}

/// An exclusive handle measures as what the children of its pointee make of
/// a tally that holds the handle and, for a pointee with size, the pointee
/// and one allocation; for a pointee without size, nothing more than the
/// handle.
pub proof fn boxed_measure<T: SizeOf + ?Sized>(handle: &Box<T>, totals: Totals)
    ensures
        measured(handle, totals) <==> exists|after: Tally|
            {
                &&& #[trigger] (**handle).children_charged(
                    Tally::empty().charge(spec_size_of_val::<Box<T>>(handle)).charge_owned(
                        spec_size_of_val::<T>(&**handle),
                    ),
                    after,
                )
                &&& after.extends(Tally::empty())
                &&& after.totals == totals
            },
{
    let start = Tally::empty().charge(spec_size_of_val::<Box<T>>(handle));
    let inside = start.charge_owned(spec_size_of_val::<T>(&**handle));
    if measured(handle, totals) {
        let after = choose|after: Tally|
            {
                &&& #[trigger] handle.children_charged(start, after)
                &&& after.extends(Tally::empty())
                &&& after.totals == totals
            };
        assert((**handle).children_charged(inside, after));
    }
    if exists|after: Tally|
        {
            &&& #[trigger] (**handle).children_charged(inside, after)
            &&& after.extends(Tally::empty())
            &&& after.totals == totals
        } {
        let after = choose|after: Tally|
            {
                &&& #[trigger] (**handle).children_charged(inside, after)
                &&& after.extends(Tally::empty())
                &&& after.totals == totals
            };
        assert(handle.children_charged(start, after));
    }
}

/// An exclusive handle to a value with size that owns nothing measures as
/// the handle and the value, with one allocation. One to a value without
/// size that owns nothing measures as the handle alone, with no allocation.
pub proof fn boxed_leaf_measure<T: SizeOf + ?Sized>(handle: &Box<T>, totals: Totals)
    requires
        owns_nothing::<T>(&**handle),
        measured(handle, totals),
    ensures
        spec_size_of_val::<T>(&**handle) != 0 ==> totals == (Totals {
            total_bytes: spec_size_of_val::<Box<T>>(handle) + spec_size_of_val::<T>(&**handle),
            excess_bytes: 0,
            shared_bytes: 0,
            distinct_allocations: 1,
        }),
        spec_size_of_val::<T>(&**handle) == 0 ==> totals == Totals::only(
            spec_size_of_val::<Box<T>>(handle),
        ),
{
    boxed_measure(handle, totals);
}

/// Of a growable buffer with elements that have size: all of its capacity is
/// in the total, the unused part of it in the excess, nothing is shared,
/// and there is one allocation if there is any capacity at all.
pub proof fn buffer_measure(container_size: nat, len: nat, capacity: nat, element_size: nat)
    requires
        len <= capacity,
        element_size > 0,
    ensures
        Tally::empty().charge(container_size).charge_buffer(len, capacity, element_size).totals
            == (Totals {
            total_bytes: container_size + capacity * element_size,
            excess_bytes: ((capacity - len) * element_size) as nat,
            shared_bytes: 0,
            distinct_allocations: if capacity > 0 {
                1
            } else {
                0
            },
        }),
{
    assert(0 * element_size == 0);
    assert((capacity - len) * element_size >= 0) by (nonlinear_arith)
        requires
            len <= capacity,
            element_size > 0,
    ;
}

/// A vector of values that own nothing measures as the vector and its
/// buffer, at some capacity that std allows.
pub proof fn vec_of_leaves_measure<T: SizeOf>(vec: &Vec<T>, totals: Totals)
    requires
        forall|i: int| 0 <= i < vec@.len() ==> owns_nothing(&#[trigger] vec@[i]),
    ensures
        measured(vec, totals) <==> exists|capacity: usize|
            {
                &&& #[trigger] buffer_capacity(vec@.len(), capacity as nat, size_of::<T>())
                &&& totals == Tally::empty().charge(
                    spec_size_of_val::<Vec<T>>(vec),
                ).charge_buffer(vec@.len(), capacity as nat, size_of::<T>()).totals
            },
{
    let start = Tally::empty().charge(spec_size_of_val::<Vec<T>>(vec));
    if measured(vec, totals) {
        let after = choose|after: Tally|
            {
                &&& #[trigger] vec.children_charged(start, after)
                &&& after.extends(Tally::empty())
                &&& after.totals == totals
            };
        assert(buffer_and_each_charged(vec@, start, after));
        let capacity = choose|capacity: usize|
            {
                &&& #[trigger] buffer_capacity(vec@.len(), capacity as nat, size_of::<T>())
                &&& each_charged(
                    vec@,
                    start.charge_buffer(vec@.len(), capacity as nat, size_of::<T>()),
                    after,
                )
            };
        leaves_charge_nothing(
            vec@,
            start.charge_buffer(vec@.len(), capacity as nat, size_of::<T>()),
            after,
        );
    }
    if exists|capacity: usize|
        {
            &&& #[trigger] buffer_capacity(vec@.len(), capacity as nat, size_of::<T>())
            &&& totals == start.charge_buffer(vec@.len(), capacity as nat, size_of::<T>()).totals
        } {
        let capacity = choose|capacity: usize|
            {
                &&& #[trigger] buffer_capacity(vec@.len(), capacity as nat, size_of::<T>())
                &&& totals == start.charge_buffer(
                    vec@.len(),
                    capacity as nat,
                    size_of::<T>(),
                ).totals
            };
        let after = start.charge_buffer(vec@.len(), capacity as nat, size_of::<T>());
        leaves_charge_nothing(vec@, after, after);
        assert(buffer_and_each_charged(vec@, start, after));
        assert(vec.children_charged(start, after));
        assert(0 <= (capacity - vec@.len()) * size_of::<T>() <= capacity * size_of::<T>())
            by (nonlinear_arith)
            requires
                vec@.len() <= capacity,
        ;
        assert(after.extends(Tally::empty()));
    }
}

/// A hash set that holds elements, with keys that are hashed and compared
/// as it expects, is charged for its table: one allocation at least, and at
/// least the bytes of a table for the elements it holds.
pub proof fn set_with_entries_is_charged<K: SizeOf, S: SizeOf>(
    set: Set<K>,
    before: Tally,
    after: Tally,
)
    requires
        vstd::std_specs::hash::obeys_key_model::<K>(),
        vstd::std_specs::hash::builds_valid_hashers::<S>(),
        set.len() > 0,
        hash_set_charged::<K, S>(set, before, after),
    ensures
        after.totals.distinct_allocations >= before.totals.distinct_allocations + 1,
        after.totals.total_bytes >= before.totals.total_bytes + capped_table_bytes(
            size_of::<(K, ())>(),
            align_of::<(K, ())>(),
            set.len(),
        ),
{
    let (capacity, items) = choose|capacity: usize, items: Seq<K>|
        #![trigger before.charge_table(size_of::<(K, ())>(), align_of::<(K, ())>(), items.len(), capacity as nat)]
        {
            &&& lists_set(items, set)
            &&& each_then_hasher_charged::<K, S>(
                items,
                before.charge_table(
                    size_of::<(K, ())>(),
                    align_of::<(K, ())>(),
                    items.len(),
                    capacity as nat,
                ),
                after,
            )
        };
    let room: nat = if capacity < items.len() {
        items.len()
    } else {
        capacity as nat
    };
    capped_table_bytes_monotone(size_of::<(K, ())>(), align_of::<(K, ())>(), items.len(), room);
}

/// A hash map that holds entries, with keys that are hashed and compared
/// as it expects, is charged for its table: one allocation at least, and at
/// least the bytes of a table for the entries it holds.
pub proof fn map_with_entries_is_charged<K: SizeOf, V: SizeOf, S: SizeOf>(
    map: Map<K, V>,
    before: Tally,
    after: Tally,
)
    requires
        vstd::std_specs::hash::obeys_key_model::<K>(),
        vstd::std_specs::hash::builds_valid_hashers::<S>(),
        map.dom().len() > 0,
        hash_map_charged::<K, V, S>(map, before, after),
    ensures
        after.totals.distinct_allocations >= before.totals.distinct_allocations + 1,
        after.totals.total_bytes >= before.totals.total_bytes + capped_table_bytes(
            size_of::<(K, V)>(),
            align_of::<(K, V)>(),
            map.dom().len(),
        ),
{
    let (capacity, entries) = choose|capacity: usize, entries: Seq<(K, V)>|
        #![trigger before.charge_table(size_of::<(K, V)>(), align_of::<(K, V)>(), entries.len(), capacity as nat)]
        {
            &&& lists_map(entries, map)
            &&& each_then_hasher_charged::<(K, V), S>(
                entries,
                before.charge_table(
                    size_of::<(K, V)>(),
                    align_of::<(K, V)>(),
                    entries.len(),
                    capacity as nat,
                ),
                after,
            )
        };
    let room: nat = if capacity < entries.len() {
        entries.len()
    } else {
        capacity as nat
    };
    capped_table_bytes_monotone(size_of::<(K, V)>(), align_of::<(K, V)>(), entries.len(), room);
}

/// Whether charging `count` handles of `handle_size` bytes each, all of them
/// to the one shared `pointee` at `address`, can turn `before` into `after`.
pub open spec fn handles_charged<T: SizeOf + ?Sized>(
    pointee: &T,
    address: usize,
    handle_size: nat,
    count: nat,
    before: Tally,
    after: Tally,
) -> bool
    decreases count,
{
    if count == 0 {
        after == before
    } else {
        exists|mid: Tally|
            {
                &&& #[trigger] shared_charged_at(pointee, address, before.charge(handle_size), mid)
                &&& handles_charged(pointee, address, handle_size, (count - 1) as nat, mid, after)
            }
    }
}

/// Handles to an allocation that was charged already add their own bytes
/// and nothing else.
pub proof fn seen_handles_add_own_size<T: SizeOf + ?Sized>(
    pointee: &T,
    address: usize,
    handle_size: nat,
    count: nat,
    before: Tally,
    after: Tally,
)
    requires
        before.visited.contains(address),
        handles_charged(pointee, address, handle_size, count, before, after),
    ensures
        after == before.charge(count * handle_size),
    decreases count,
{
    if count != 0 {
        let mid = choose|mid: Tally|
            {
                &&& #[trigger] shared_charged_at(pointee, address, before.charge(handle_size), mid)
                &&& handles_charged(pointee, address, handle_size, (count - 1) as nat, mid, after)
            };
        seen_handles_add_own_size(pointee, address, handle_size, (count - 1) as nat, mid, after);
        assert(count * handle_size == handle_size + (count - 1) * handle_size)
            by (nonlinear_arith);
        assert((count - 1) * handle_size >= 0) by (nonlinear_arith)
            requires
                count >= 1,
                handle_size >= 0,
        ;
    } else {
        assert(count * handle_size == 0) by (nonlinear_arith)
            requires
                count == 0,
        ;
    }
}

/// Handles to one shared allocation, measured together, charge the payload
/// once: each handle adds its own bytes to the total, the payload and its
/// children are charged one time, inside a shared region, and the shared
/// allocation is counted once. Here `end` is the tally at the end of that
/// region, so that `end.totals.total_bytes - handle_size` is the full size
/// of the payload.
pub proof fn shared_payload_charged_once<T: SizeOf + ?Sized>(
    pointee: &T,
    address: usize,
    handle_size: nat,
    count: nat,
    after: Tally,
)
    requires
        count >= 1,
        handles_charged(pointee, address, handle_size, count, Tally::empty(), after),
    ensures
        exists|end: Tally|
            {
                &&& #[trigger] pointee.children_charged(
                    Tally::empty().charge(handle_size).enter_shared(
                        address,
                        spec_size_of_val::<T>(pointee),
                    ),
                    end,
                )
                &&& end.totals.total_bytes >= handle_size + spec_size_of_val::<T>(pointee)
                &&& after.totals.total_bytes == count * handle_size + (end.totals.total_bytes
                    - handle_size)
                &&& after.totals.shared_bytes == end.totals.total_bytes - handle_size
                &&& after.totals.excess_bytes == end.totals.excess_bytes
                &&& after.totals.distinct_allocations == end.totals.distinct_allocations + 1
            },
{
    let first = Tally::empty().charge(handle_size);
    let start = first.enter_shared(address, spec_size_of_val::<T>(pointee));
    let mid = choose|mid: Tally|
        {
            &&& #[trigger] shared_charged_at(pointee, address, first, mid)
            &&& handles_charged(pointee, address, handle_size, (count - 1) as nat, mid, after)
        };
    let end = choose|end: Tally|
        {
            &&& #[trigger] pointee.children_charged(start, end)
            &&& end.extends(start)
            &&& mid == end.leave_shared(first.is_shared)
        };
    seen_handles_add_own_size(pointee, address, handle_size, (count - 1) as nat, mid, after);
    assert(count * handle_size == handle_size + (count - 1) * handle_size) by (nonlinear_arith);
    assert((count - 1) * handle_size >= 0) by (nonlinear_arith)
        requires
            count >= 1,
            handle_size >= 0,
    ;
}

/// Handles to one shared value that owns nothing, measured together: the
/// total is the handles and the value, the shared bytes are the value, and
/// there is one allocation.
pub proof fn shared_leaf_charged_once<T: SizeOf + ?Sized>(
    pointee: &T,
    address: usize,
    handle_size: nat,
    count: nat,
    after: Tally,
)
    requires
        count >= 1,
        owns_nothing(pointee),
        handles_charged(pointee, address, handle_size, count, Tally::empty(), after),
    ensures
        after.totals == (Totals {
            total_bytes: count * handle_size + spec_size_of_val::<T>(pointee),
            excess_bytes: 0,
            shared_bytes: spec_size_of_val::<T>(pointee),
            distinct_allocations: 1,
        }),
{
    shared_payload_charged_once(pointee, address, handle_size, count, after);
}

} // verus!
