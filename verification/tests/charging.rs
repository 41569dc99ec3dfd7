use core::mem::size_of;
use size_of::collections::{
    size_of_buffer, size_of_c_string, size_of_each_entry, size_of_each_ref, size_of_list,
};
use std::collections::{BinaryHeap, LinkedList};
use size_of::estimate::estimate_hashmap_size;
use size_of::hashing::size_of_table;
use size_of::interior::size_of_inner;
use size_of::measure::size_of_each;
use size_of::pointers::{size_of_shared, size_of_shared_at};
use size_of::support::big_int::size_of_digits;
use size_of::support::decimal::size_of_decimal;
use size_of::support::shared_str::{size_of_shared_str, ArcStrHeader};
use size_of::{Context, SizeOf, TotalSize};

#[test]
fn buffers_by_capacity() {
    // Capacity 1000, nothing in use, one byte each.
    let mut context = Context::new();
    size_of_buffer(&mut context, 0, 1000, 1);
    assert_eq!(context.total_size(), TotalSize::new(1000, 1000, 0, 1));

    // 100 in use.
    let mut context = Context::new();
    size_of_buffer(&mut context, 100, 1000, 1);
    assert_eq!(context.total_size(), TotalSize::new(1000, 900, 0, 1));

    // Elements of 12 bytes.
    let mut context = Context::new();
    size_of_buffer(&mut context, 3, 8, 12);
    assert_eq!(context.total_size(), TotalSize::new(96, 60, 0, 1));

    // No capacity: no heap block.
    let mut context = Context::new();
    size_of_buffer(&mut context, 0, 0, 12);
    assert_eq!(context.total_size(), TotalSize::zero());

    // Elements without size: no heap block either.
    let mut context = Context::new();
    size_of_buffer(&mut context, 5, usize::MAX, 0);
    assert_eq!(context.total_size(), TotalSize::zero());
}

#[test]
fn buffers_inside_a_shared_region() {
    let mut context = Context::new();
    context.shared(|inner| size_of_buffer(inner, 2, 10, 4));
    assert_eq!(context.total_size(), TotalSize::new(40, 32, 40, 1));
}

#[test]
fn elements_in_order() {
    let values = [Box::new(1u16), Box::new(2u16), Box::new(3u16)];
    let mut context = Context::new();
    size_of_each(&values, &mut context);
    assert_eq!(context.total_size(), TotalSize::new(6, 0, 0, 3));

    let borrowed: Vec<&Box<u16>> = values.iter().collect();
    let mut context = Context::new();
    size_of_each_ref(&borrowed, &mut context);
    assert_eq!(context.total_size(), TotalSize::new(6, 0, 0, 3));

    let keys = [1u8, 2u8];
    let entries: Vec<(&u8, &Box<u16>)> = keys.iter().zip(values.iter()).collect();
    let mut context = Context::new();
    size_of_each_entry(&entries, &mut context);
    assert_eq!(context.total_size(), TotalSize::new(4, 0, 0, 2));

    let mut context = Context::new();
    size_of_each::<Box<u16>>(&[], &mut context);
    assert_eq!(context.total_size(), TotalSize::zero());
}

#[test]
fn tables_by_capacity() {
    let (allocated, used) = estimate_hashmap_size::<u64, u64>(3, 7);
    let mut context = Context::new();
    size_of_table::<u64, u64>(&mut context, 3, 7);
    assert_eq!(
        context.total_size(),
        TotalSize::new(allocated, allocated - used, 0, 1),
    );

    // No capacity: no heap block.
    let mut context = Context::new();
    size_of_table::<u64, u64>(&mut context, 0, 0);
    assert_eq!(context.total_size(), TotalSize::zero());

    // A capacity that no table can have counts as the most an allocation has.
    let limit = isize::MAX as usize;
    let (_, unused) = estimate_hashmap_size::<u64, u64>(0, 8);
    let mut context = Context::new();
    size_of_table::<u64, u64>(&mut context, 0, usize::MAX);
    assert_eq!(
        context.total_size(),
        TotalSize::new(limit, limit - unused, 0, 1),
    );
    // A table holds at least what is in it.
    let (room, _) = estimate_hashmap_size::<u64, u64>(9, 9);
    let mut context = Context::new();
    size_of_table::<u64, u64>(&mut context, 9, 7);
    assert_eq!(context.total_size(), TotalSize::new(room, 0, 0, 1));
    let mut context = Context::new();
    size_of_table::<u64, u64>(&mut context, 2, 0);
    assert_eq!(context.total_size().distinct_allocations(), 1);
}

#[test]
fn counters_stop_at_the_greatest_number() {
    let mut context = Context::new();
    context.add(usize::MAX).add(5);
    assert_eq!(context.total_size(), TotalSize::total(usize::MAX));
    context.add_excess(usize::MAX);
    assert_eq!(context.total_size(), TotalSize::new(usize::MAX, usize::MAX, 0, 0));
    context.add_arraylike(usize::MAX, usize::MAX);
    context.add_vectorlike(1, usize::MAX, 16);
    context.add_distinct_allocations(usize::MAX).add_distinct_allocation();
    context.shared(|inner| {
        inner.add(usize::MAX).add(1);
    });
    assert_eq!(
        context.total_size(),
        TotalSize::new(usize::MAX, usize::MAX, usize::MAX, usize::MAX),
    );

    let mut context = Context::new();
    context.add_arraylike(usize::MAX / 2, 3);
    assert_eq!(context.total_size(), TotalSize::total(usize::MAX));
    let mut context = Context::new();
    context.add_vectorlike(usize::MAX / 2, usize::MAX / 2 + 1, 2);
    assert_eq!(context.total_size(), TotalSize::new(usize::MAX, 2, 0, 0));
}

#[test]
fn shared_pointees() {
    let mut text = String::new();
    text.reserve_exact(5);
    text.push_str("hello");
    let mut context = Context::new();
    context.add(3);
    size_of_shared(&text, &mut context);
    let payload = size_of::<String>() + 5;
    assert_eq!(context.total_size(), TotalSize::new(3 + payload, 0, payload, 2));
    assert!(!context.is_shared());
}

#[test]
fn shared_strings_by_address() {
    let header = size_of::<ArcStrHeader>();
    assert_eq!(header, 2 * size_of::<usize>());

    let mut context = Context::new();
    size_of_shared_str(&mut context, 0x4000, 10, false);
    assert_eq!(
        context.total_size(),
        TotalSize::new(header + 10, 0, header + 10, 1),
    );
    // The same block again adds nothing.
    size_of_shared_str(&mut context, 0x4000, 10, false);
    assert_eq!(
        context.total_size(),
        TotalSize::new(header + 10, 0, header + 10, 1),
    );
    // A static text at another address takes no allocation.
    size_of_shared_str(&mut context, 0x8000, 6, true);
    assert_eq!(
        context.total_size(),
        TotalSize::new(2 * header + 16, 0, 2 * header + 16, 1),
    );
    assert!(context.contains_ptr(0x4000));
    assert!(context.contains_ptr(0x8000));
}

#[test]
fn digits_of_big_numbers() {
    let mut context = Context::new();
    size_of_digits(&mut context, 3);
    assert_eq!(context.total_size(), TotalSize::new(24, 0, 0, 1));
    size_of_digits(&mut context, 0);
    assert_eq!(context.total_size(), TotalSize::new(24, 0, 0, 2));

    let word = size_of::<usize>();
    let mut context = Context::new();
    size_of_decimal(&mut context, 5);
    assert_eq!(context.total_size(), TotalSize::new(5 * word, 0, 0, 1));
    // More digits than one allocation has words for count as the most an
    // allocation has.
    let mut context = Context::new();
    size_of_decimal(&mut context, u64::MAX);
    assert_eq!(
        context.total_size(),
        TotalSize::new(isize::MAX as usize, 0, 0, 1),
    );
}

#[test]
fn pinned_pointers() {
    let mut text = String::new();
    text.reserve_exact(8);
    text.push_str("01234567");
    let pinned = Box::pin(text);
    assert_eq!(
        pinned.size_of(),
        TotalSize::new(size_of::<usize>() + 8, 0, 0, 1),
    );
}

#[test]
fn linked_lists_by_their_elements() {
    let mut list = LinkedList::new();
    list.push_back(Box::new(1u32));
    list.push_back(Box::new(2u32));
    list.push_back(Box::new(3u32));
    let elements: Vec<&Box<u32>> = list.iter().collect();
    let mut context = Context::new();
    size_of_list(&elements, &mut context);
    // Three nodes of a pointer and two links, and three boxed numbers.
    assert_eq!(
        context.total_size(),
        TotalSize::new(3 * 3 * size_of::<usize>() + 12, 0, 0, 6),
    );

    let mut context = Context::new();
    size_of_list::<u8>(&[], &mut context);
    assert_eq!(context.total_size(), TotalSize::zero());
}

#[test]
fn heaps_are_buffers() {
    let mut heap = BinaryHeap::with_capacity(16);
    heap.push(5u64);
    heap.push(7u64);
    let mut context = Context::new();
    size_of_buffer(&mut context, heap.len(), heap.capacity(), size_of::<u64>());
    let capacity = heap.capacity();
    assert_eq!(
        context.total_size(),
        TotalSize::new(capacity * 8, (capacity - 2) * 8, 0, 1),
    );

    // A heap of values without size has no heap block.
    let mut units = BinaryHeap::new();
    units.extend([(), (), (), (), ()]);
    let mut context = Context::new();
    size_of_buffer(&mut context, units.len(), units.capacity(), size_of::<()>());
    assert_eq!(context.total_size(), TotalSize::zero());
}

#[test]
fn strings_that_end_in_zero() {
    let mut context = Context::new();
    // "hello" and the zero byte.
    size_of_c_string(&mut context, 6);
    assert_eq!(context.total_size(), TotalSize::new(6, 0, 0, 1));
    size_of_c_string(&mut context, 0);
    assert_eq!(context.total_size(), TotalSize::new(6, 0, 0, 1));
}

#[test]
fn what_a_cell_or_lock_gave_out() {
    let mut text = String::new();
    text.reserve_exact(8);
    text.push_str("01234567");

    // A value that was had is charged.
    let mut context = Context::new();
    context.add(3);
    size_of_inner(Some(&text), &mut context);
    assert_eq!(context.total_size(), TotalSize::new(11, 0, 0, 1));

    // Where none was had the context stays as it is.
    size_of_inner::<String>(None, &mut context);
    assert_eq!(context.total_size(), TotalSize::new(11, 0, 0, 1));

    // A value that owns nothing adds nothing either way.
    size_of_inner(Some(&5u64), &mut context);
    assert_eq!(context.total_size(), TotalSize::new(11, 0, 0, 1));

    // Text without a size of its own can be had as well.
    let mut context = Context::new();
    let boxed: Box<str> = "abc".into();
    size_of_inner(Some(&boxed), &mut context);
    assert_eq!(context.total_size(), TotalSize::new(3, 0, 0, 1));
}

#[test]
fn shared_handles_by_address() {
    let payload = 7u32;
    let mut context = Context::new();
    // Three handles of eight bytes each to one allocation.
    context.add(8);
    size_of_shared_at(&payload, 0x9000, &mut context);
    context.add(8);
    size_of_shared_at(&payload, 0x9000, &mut context);
    context.add(8);
    size_of_shared_at(&payload, 0x9000, &mut context);
    assert_eq!(context.total_size(), TotalSize::new(28, 0, 4, 1));
    // A handle to another allocation is charged again.
    size_of_shared_at(&payload, 0xa000, &mut context);
    assert_eq!(context.total_size(), TotalSize::new(32, 0, 8, 2));
}

#[test]
fn buffers_in_buffers() {
    // A vector that holds a vector, and a pair of strings, are measured
    // like any other value.
    let mut inner: Vec<u8> = Vec::new();
    inner.reserve_exact(1000);
    inner.extend(0u8..100);
    let mut outer = Vec::new();
    outer.reserve_exact(1);
    outer.push(inner);
    assert_eq!(
        outer.size_of(),
        TotalSize::new(size_of::<Vec<Vec<u8>>>() + size_of::<Vec<u8>>() + 1000, 900, 0, 2),
    );
    let mut first = String::new();
    first.reserve_exact(4);
    first.push_str("abcd");
    let mut second = String::new();
    second.reserve_exact(10);
    second.push_str("ef");
    assert_eq!(
        (first, second).size_of(),
        TotalSize::new(2 * size_of::<String>() + 14, 8, 0, 2),
    );
}
