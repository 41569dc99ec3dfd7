//! Growable buffers and lists: a structural estimate of the heap block, then
//! the children of each element.

use crate::context::{Context, Tally};
use crate::estimate::capped_btree_bytes;
use crate::measure::{each_charged, size_of_each, SizeOf};
use std::collections::{BinaryHeap, VecDeque};
use vstd::layout::size_of;
use vstd::prelude::*;
use vstd::utf8::encode_utf8;

verus! {

impl Tally {
    /// The tally after the heap block of a growable buffer was charged. A
    /// buffer without capacity, or with elements without size, has no heap
    /// block: nothing is charged for it. Any other is charged as a whole,
    /// its unused part as excess, with one allocation.
    pub open spec fn charge_buffer(self, len: nat, capacity: nat, element_size: nat) -> Tally {
        if capacity != 0 && element_size != 0 {
            self.charge_vector(len, capacity, element_size).allocate(1)
        } else {
            self
        }
    }

    /// The tally after the nodes of an ordered collection of `length`
    /// entries were charged: nothing for an empty one, else the estimate for
    /// nodes of `node_size` bytes and one allocation.
    pub open spec fn charge_tree(self, length: nat, node_size: nat) -> Tally {
        if length != 0 {
            self.charge(capped_btree_bytes(length, node_size)).allocate(1)
        } else {
            self
        }
    }

    /// The tally after the nodes of a doubly linked list were charged: for
    /// each of `length` elements of `element_size` bytes a node with the
    /// element and two links, and an allocation of its own.
    pub open spec fn charge_list(self, length: nat, element_size: nat) -> Tally {
        if length != 0 {
            self.charge(length * (element_size + size_of::<usize>() * 2)).allocate(length)
        } else {
            self
        }
    }

    /// The tally after a string that ends in a zero byte was charged: its
    /// `length` bytes, the last one included, and one allocation.
    pub open spec fn charge_c_string(self, length: nat) -> Tally {
        if length != 0 {
            self.charge(length).allocate(1)
        } else {
            self
        }
    }
}

/// What std documents of the capacity of a buffer of `len` elements of
/// `element_size` bytes: it holds at least the elements that are there, and
/// no buffer takes more than `isize::MAX` bytes.
pub open spec fn buffer_capacity(len: nat, capacity: nat, element_size: nat) -> bool {
    &&& len <= capacity
    &&& capacity * element_size <= isize::MAX
}

/// Charges the heap block of a growable buffer with room for `capacity`
/// elements of `element_size` bytes, `len` of them in use.
pub fn size_of_buffer(context: &mut Context, len: usize, capacity: usize, element_size: usize)
    requires
        len <= capacity,
    ensures
        final(context)@ == old(context)@.charge_buffer(
            len as nat,
            capacity as nat,
            element_size as nat,
        ),
        final(context)@.extends(old(context)@),
{
    if capacity != 0 && element_size != 0 {
        proof {
            assert(0 <= (capacity - len) * element_size <= capacity * element_size)
                by (nonlinear_arith)
                requires
                    0 <= len <= capacity,
                    0 <= element_size,
            ;
        }
        context.add_vectorlike(len, capacity, element_size).add_distinct_allocation();
    }
}

/// `String::capacity`: the bytes of the string's buffer, which holds at
/// least the bytes of the text and never more than `isize::MAX`.
#[verifier::external_body]
fn string_capacity(text: &String) -> (capacity: usize)
    ensures
        buffer_capacity(encode_utf8(text@).len(), capacity as nat, 1),
{
    text.capacity()
}

impl SizeOf for String {
    open spec fn children_charged(&self, before: Tally, after: Tally) -> bool {
        exists|capacity: usize|
            {
                &&& #[trigger] buffer_capacity(encode_utf8(self@).len(), capacity as nat, 1)
                &&& after == before.charge_buffer(encode_utf8(self@).len(), capacity as nat, 1)
            }
    }

    fn size_of_children(&self, context: &mut Context) {
        let capacity = string_capacity(self);
        size_of_buffer(context, self.as_str().len(), capacity, 1);
    }
}

/// `Vec::capacity`: the number of elements the vector has room for, which
/// is at least its length; the buffer never takes more than `isize::MAX`
/// bytes.
#[verifier::external_body]
fn vec_capacity<T>(vec: &Vec<T>) -> (capacity: usize)
    ensures
        buffer_capacity(vec@.len(), capacity as nat, size_of::<T>()),
{
    vec.capacity()
}

/// Whether charging a buffer that holds `values`, block and elements, can
/// turn `before` into `after`, at some capacity.
pub open spec fn buffer_and_each_charged<T: SizeOf>(
    values: Seq<T>,
    before: Tally,
    after: Tally,
) -> bool {
    exists|capacity: usize|
        {
            &&& #[trigger] buffer_capacity(values.len(), capacity as nat, size_of::<T>())
            &&& each_charged(
                values,
                before.charge_buffer(values.len(), capacity as nat, size_of::<T>()),
                after,
            )
        }
}

impl<T: SizeOf> SizeOf for Vec<T> {
    open spec fn children_charged(&self, before: Tally, after: Tally) -> bool {
        buffer_and_each_charged(self@, before, after)
    }

    fn size_of_children(&self, context: &mut Context) {
        let capacity = vec_capacity(self);
        size_of_buffer(context, self.len(), capacity, core::mem::size_of::<T>());
        size_of_each(self.as_slice(), context);
    }
}

/// `VecDeque::capacity`: the number of elements the deque has room for,
/// which is at least its length; the buffer never takes more than
/// `isize::MAX` bytes.
#[verifier::external_body]
fn vec_deque_capacity<T>(deque: &VecDeque<T>) -> (capacity: usize)
    ensures
        buffer_capacity(deque@.len(), capacity as nat, size_of::<T>()),
{
    deque.capacity()
}

impl<T: SizeOf> SizeOf for VecDeque<T> {
    open spec fn children_charged(&self, before: Tally, after: Tally) -> bool {
        buffer_and_each_charged(self@, before, after)
    }

    fn size_of_children(&self, context: &mut Context) {
        let ghost before = context@;
        let capacity = vec_deque_capacity(self);
        size_of_buffer(context, self.len(), capacity, core::mem::size_of::<T>());
        let ghost start = context@;
        let mut i: usize = 0;
        assert(self@.skip(0) == self@);
        while i < self.len()
            invariant
                i <= self@.len(),
                context@.extends(before),
                forall|after: Tally|
                    each_charged(self@.skip(i as int), context@, after) ==> each_charged(
                        self@,
                        start,
                        after,
                    ),
            decreases self@.len() - i,
        {
            let ghost here = context@;
            let ghost rest = self@.skip(i as int);
            assert(rest[0] == self@[i as int]);
            assert(rest.skip(1) == self@.skip(i + 1));
            self[i].size_of_children(context);
            proof {
                let there = context@;
                assert forall|after: Tally| each_charged(rest.skip(1), there, after) implies each_charged(
                    self@,
                    start,
                    after,
                ) by {
                    assert(rest[0].children_charged(here, there));
                    assert(each_charged(rest, here, after));
                }
            }
            i = i + 1;
        }
        assert(self@.skip(i as int).len() == 0);
        assert(each_charged(self@, start, context@));
    }
}

/// A priority queue, kept in a `std::collections::BinaryHeap`: a buffer of
/// elements, the greatest of which is at hand.
#[verifier::external_body]
#[verifier::reject_recursive_types(T)]
pub struct Heap<T> {
    inner: BinaryHeap<T>,
}

/// `BinaryHeap::new`: a heap without elements.
#[verifier::external_body]
fn heap_new<T: Ord>() -> Heap<T> {
    Heap { inner: BinaryHeap::new() }
}

/// `BinaryHeap::with_capacity`: a heap without elements, with room for
/// `capacity` of them at least.
#[verifier::external_body]
fn heap_with_capacity<T: Ord>(capacity: usize) -> Heap<T> {
    Heap { inner: BinaryHeap::with_capacity(capacity) }
}

/// `BinaryHeap::push`: puts `value` into the heap.
#[verifier::external_body]
fn heap_push<T: Ord>(heap: &mut Heap<T>, value: T) {
    heap.inner.push(value)
}

/// `BinaryHeap::capacity`: the number of elements the heap has room for.
/// Nothing is claimed of the number.
#[verifier::external_body]
fn heap_capacity<T>(heap: &Heap<T>) -> usize {
    heap.inner.capacity()
}

/// The elements that `BinaryHeap::iter` yields, in whatever order it walks
/// them. Nothing is claimed of them.
#[verifier::external_body]
fn heap_items<T>(heap: &Heap<T>) -> Vec<&T> {
    heap.inner.iter().collect()
}

impl<T: Ord> Heap<T> {
    /// A heap without elements.
    pub fn new() -> Self {
        heap_new()
    }

    /// A heap without elements, with room for `capacity` of them at least.
    pub fn with_capacity(capacity: usize) -> Self {
        heap_with_capacity(capacity)
    }

    /// Puts `value` into the heap.
    pub fn push(&mut self, value: T) {
        heap_push(self, value)
    }
}

/// Whether charging a buffer that holds some elements of `T`, block and
/// elements, can turn `before` into `after`: the block at some capacity,
/// which is at least the number of elements, then the children of each.
pub open spec fn some_buffer_charged<T: SizeOf>(before: Tally, after: Tally) -> bool {
    exists|capacity: usize, items: Seq<T>|
        #![trigger before.charge_buffer(items.len(), capacity as nat, size_of::<T>())]
        {
            &&& items.len() <= capacity
            &&& each_charged(
                items,
                before.charge_buffer(items.len(), capacity as nat, size_of::<T>()),
                after,
            )
        }
}

// A heap is measured as the buffer it is: the block, then the children of
// each element. A heap has room at least for what it holds.
impl<T: SizeOf> SizeOf for Heap<T> {
    open spec fn children_charged(&self, before: Tally, after: Tally) -> bool {
        some_buffer_charged::<T>(before, after)
    }

    fn size_of_children(&self, context: &mut Context) {
        let ghost before = context@;
        let items = heap_items(self);
        let capacity = heap_capacity(self);
        let room: usize = if capacity < items.len() {
            items.len()
        } else {
            capacity
        };
        let ghost listed = items@.map_values(|item: &T| *item);
        size_of_buffer(context, items.len(), room, core::mem::size_of::<T>());
        size_of_each_ref(items.as_slice(), context);
        assert(each_charged(
            listed,
            before.charge_buffer(listed.len(), room as nat, size_of::<T>()),
            context@,
        ));
    }
}

/// Charges to `context` a doubly linked list with the given elements, in
/// their order: a node for each, then the children of each.
pub fn size_of_list<T: SizeOf>(elements: &[&T], context: &mut Context)
    ensures
        each_charged(
            elements@.map_values(|element: &T| *element),
            old(context)@.charge_list(elements@.len(), size_of::<T>()),
            final(context)@,
        ),
        final(context)@.extends(old(context)@),
{
    let length = elements.len();
    if length != 0 {
        vstd::layout::layout_for_type_is_valid::<T>();
        vstd::layout::layout_for_type_is_valid::<usize>();
        let node: usize = core::mem::size_of::<T>() + core::mem::size_of::<usize>() * 2;
        context.add_arraylike(length, node).add_distinct_allocations(length);
    }
    size_of_each_ref(elements, context);
}

/// Charges to `context` a string of `length` bytes that ends in a zero
/// byte, which is counted in `length`.
pub fn size_of_c_string(context: &mut Context, length: usize)
    ensures
        final(context)@ == old(context)@.charge_c_string(length as nat),
        final(context)@.extends(old(context)@),
{
    if length != 0 {
        assert(length * 1 == length);
        context.add_arraylike(length, 1).add_distinct_allocation();
    }
}

/// Whether `items` are the contents of `set`, each of them once.
pub open spec fn lists_set<K>(items: Seq<K>, set: Set<K>) -> bool {
    &&& items.len() == set.len()
    &&& items.to_set() == set
}

/// Whether `entries` are the contents of `map`, each of them once.
pub open spec fn lists_map<K, V>(entries: Seq<(K, V)>, map: Map<K, V>) -> bool {
    &&& entries.len() == map.dom().len()
    &&& entries.map_values(|entry: (K, V)| entry.0).to_set() == map.dom()
    &&& forall|i: int|
        0 <= i < entries.len() ==> map.contains_pair((#[trigger] entries[i]).0, entries[i].1)
}

/// Adds to `context` the children of what each of `values` points to, in
/// order.
pub fn size_of_each_ref<T: SizeOf>(values: &[&T], context: &mut Context)
    ensures
        each_charged(values@.map_values(|value: &T| *value), old(context)@, final(context)@),
        final(context)@.extends(old(context)@),
{
    let ghost all = values@.map_values(|value: &T| *value);
    let mut i: usize = 0;
    assert(all.skip(0) == all);
    while i < values.len()
        invariant
            i <= values.len(),
            all == values@.map_values(|value: &T| *value),
            context@.extends(old(context)@),
            forall|after: Tally|
                each_charged(all.skip(i as int), context@, after) ==> each_charged(
                    all,
                    old(context)@,
                    after,
                ),
        decreases values.len() - i,
    {
        let ghost here = context@;
        let ghost rest = all.skip(i as int);
        assert(rest[0] == *values@[i as int]);
        assert(rest.skip(1) == all.skip(i + 1));
        let value: &T = values[i];
        value.size_of_children(context);
        proof {
            let there = context@;
            assert forall|after: Tally| each_charged(rest.skip(1), there, after) implies each_charged(
                all,
                old(context)@,
                after,
            ) by {
                assert(rest[0].children_charged(here, there));
                assert(each_charged(rest, here, after));
            }
        }
        i = i + 1;
    }
    assert(all.skip(i as int).len() == 0);
}

/// Adds to `context` the children of the key and then of the value of each
/// of `entries`, in order.
pub fn size_of_each_entry<K: SizeOf, V: SizeOf>(entries: &[(&K, &V)], context: &mut Context)
    ensures
        each_charged(
            entries@.map_values(|entry: (&K, &V)| (*entry.0, *entry.1)),
            old(context)@,
            final(context)@,
        ),
        final(context)@.extends(old(context)@),
{
    let ghost all = entries@.map_values(|entry: (&K, &V)| (*entry.0, *entry.1));
    let mut i: usize = 0;
    assert(all.skip(0) == all);
    while i < entries.len()
        invariant
            i <= entries.len(),
            all == entries@.map_values(|entry: (&K, &V)| (*entry.0, *entry.1)),
            context@.extends(old(context)@),
            forall|after: Tally|
                each_charged(all.skip(i as int), context@, after) ==> each_charged(
                    all,
                    old(context)@,
                    after,
                ),
        decreases entries.len() - i,
    {
        let ghost here = context@;
        let ghost rest = all.skip(i as int);
        assert(rest[0] == (*entries@[i as int].0, *entries@[i as int].1));
        assert(rest.skip(1) == all.skip(i + 1));
        let key: &K = entries[i].0;
        let value: &V = entries[i].1;
        key.size_of_children(context);
        let ghost between = context@;
        assert(rest[0].0.children_charged(here, between));
        value.size_of_children(context);
        proof {
            let there = context@;
            assert(rest[0].children_charged(here, there));
            assert forall|after: Tally| each_charged(rest.skip(1), there, after) implies each_charged(
                all,
                old(context)@,
                after,
            ) by {
                assert(each_charged(rest, here, after));
            }
        }
        i = i + 1;
    }
    assert(all.skip(i as int).len() == 0);
}

} // verus!
