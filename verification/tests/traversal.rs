use core::mem::size_of;
use size_of::collections::Heap;
use size_of::estimate::{estimate_btree_size, estimate_hashmap_size};
use size_of::interior::OnceWaiter;
use size_of::{size_of_values, Context, SizeOf, TotalSize};
use std::borrow::Cow;
use std::cell::{Cell, RefCell};
use std::collections::{BTreeMap, BTreeSet, HashMap, HashSet, VecDeque};
use std::rc::Rc;
use std::sync::{Arc, Mutex, Once, RwLock};

// A string of eight bytes with room for exactly eight.
fn eight() -> String {
    let mut text = String::new();
    text.reserve_exact(8);
    text.push_str("01234567");
    assert_eq!(text.capacity(), 8);
    text
}

#[test]
fn values_that_own_nothing() {
    assert_eq!(7u128.size_of(), TotalSize::total(16));
    assert_eq!(().size_of(), TotalSize::total(0));
    assert_eq!(
        core::time::Duration::from_secs(1).size_of(),
        TotalSize::total(size_of::<core::time::Duration>()),
    );
    assert_eq!(
        core::sync::atomic::AtomicU64::new(1).size_of(),
        TotalSize::total(8),
    );
    assert_eq!(
        core::marker::PhantomData::<String>.size_of(),
        TotalSize::total(0),
    );
    assert_eq!(
        TotalSize::zero().size_of(),
        TotalSize::total(size_of::<TotalSize>()),
    );
    assert_eq!([1u32, 2, 3].size_of(), TotalSize::total(12));
    assert_eq!((1u8, 2u64).size_of(), TotalSize::total(16));
}

#[test]
fn borrows_are_not_charged() {
    let text = eight();
    let borrow = &text;
    assert_eq!(borrow.size_of(), TotalSize::new(size_of::<String>() + 8, 0, 0, 1));
    // A borrow measured as a value of its own is a pointer and no more.
    assert_eq!(
        SizeOf::size_of(&borrow),
        TotalSize::total(size_of::<&String>()),
    );
    let mut owned = eight();
    let unique = &mut owned;
    assert_eq!(
        SizeOf::size_of(&unique),
        TotalSize::total(size_of::<&mut String>()),
    );
}

#[test]
fn boxes_charge_the_pointee_and_its_children() {
    // A box in a box: two allocations.
    assert_eq!(
        Box::new(Box::new(0u32)).size_of(),
        TotalSize::new(size_of::<usize>() * 2 + 4, 0, 0, 2),
    );
    assert_eq!(
        Box::new(eight()).size_of(),
        TotalSize::new(size_of::<usize>() + size_of::<String>() + 8, 0, 0, 2),
    );
    let text: Box<str> = "hello".into();
    assert_eq!(
        text.size_of(),
        TotalSize::new(size_of::<Box<str>>() + 5, 0, 0, 1),
    );
    // An empty slice has no size: no allocation.
    let empty: Box<[u64]> = Vec::new().into_boxed_slice();
    assert_eq!(empty.size_of(), TotalSize::total(size_of::<Box<[u64]>>()));
}

#[test]
fn options_and_results_charge_what_they_hold() {
    let none: Option<String> = None;
    assert_eq!(none.size_of(), TotalSize::total(size_of::<Option<String>>()));
    assert_eq!(
        Some(eight()).size_of(),
        TotalSize::new(size_of::<Option<String>>() + 8, 0, 0, 1),
    );
    let ok: Result<String, u8> = Ok(eight());
    assert_eq!(
        ok.size_of(),
        TotalSize::new(size_of::<Result<String, u8>>() + 8, 0, 0, 1),
    );
    let err: Result<u8, Box<u64>> = Err(Box::new(1));
    assert_eq!(
        err.size_of(),
        TotalSize::new(size_of::<Result<u8, Box<u64>>>() + 8, 0, 0, 1),
    );
    let poll = core::task::Poll::Ready(eight());
    assert_eq!(
        poll.size_of(),
        TotalSize::new(size_of::<core::task::Poll<String>>() + 8, 0, 0, 1),
    );
    let pending: core::task::Poll<String> = core::task::Poll::Pending;
    assert_eq!(
        pending.size_of(),
        TotalSize::total(size_of::<core::task::Poll<String>>()),
    );
    let flow: core::ops::ControlFlow<String, u8> = core::ops::ControlFlow::Break(eight());
    assert_eq!(
        flow.size_of(),
        TotalSize::new(size_of::<core::ops::ControlFlow<String, u8>>() + 8, 0, 0, 1),
    );
}

#[test]
fn wrappers_charge_what_they_wrap() {
    assert_eq!(
        core::num::Wrapping(5u32).size_of(),
        TotalSize::total(4),
    );
    assert_eq!(
        core::cmp::Reverse(eight()).size_of(),
        TotalSize::new(size_of::<String>() + 8, 0, 0, 1),
    );
    assert_eq!(
        core::mem::ManuallyDrop::new(Box::new(3u16)).size_of(),
        TotalSize::new(size_of::<usize>() + 2, 0, 0, 1),
    );
    let owned: Cow<'_, str> = Cow::Owned(eight());
    assert_eq!(
        owned.size_of(),
        TotalSize::new(size_of::<Cow<'_, str>>() + 8, 0, 0, 1),
    );
    let borrowed: Cow<'_, str> = Cow::Borrowed("01234567");
    assert_eq!(
        borrowed.size_of(),
        TotalSize::total(size_of::<Cow<'_, str>>()),
    );
}

#[test]
fn tuples_charge_every_field() {
    let pair = (eight(), Box::new(1u8));
    assert_eq!(
        pair.size_of(),
        TotalSize::new(size_of::<(String, Box<u8>)>() + 8 + 1, 0, 0, 2),
    );
    let many = (
        Box::new(1u8),
        Box::new(1u8),
        Box::new(1u8),
        Box::new(1u8),
        Box::new(1u8),
        Box::new(1u8),
        Box::new(1u8),
        Box::new(1u8),
        Box::new(1u8),
        Box::new(1u8),
        Box::new(1u8),
        Box::new(1u8),
        Box::new(1u8),
        Box::new(1u8),
        Box::new(1u8),
        Box::new(1u8),
    );
    assert_eq!(
        many.size_of(),
        TotalSize::new(size_of::<usize>() * 16 + 16, 0, 0, 16),
    );
}

#[test]
fn vectors_charge_buffer_and_elements() {
    let mut texts = Vec::new();
    texts.reserve_exact(4);
    texts.push(eight());
    texts.push(eight());
    texts.push(eight());
    assert_eq!(texts.capacity(), 4);
    assert_eq!(
        texts.size_of(),
        TotalSize::new(
            size_of::<Vec<String>>() + 4 * size_of::<String>() + 3 * 8,
            size_of::<String>(),
            0,
            4,
        ),
    );
    // A slice of it is the elements alone.
    assert_eq!(
        texts[1..].size_of(),
        TotalSize::new(2 * size_of::<String>() + 2 * 8, 0, 0, 2),
    );
    let array = [eight(), eight()];
    assert_eq!(
        array.size_of(),
        TotalSize::new(2 * size_of::<String>() + 2 * 8, 0, 0, 2),
    );
}

#[test]
fn deques_charge_buffer_and_elements() {
    let mut deque: VecDeque<Box<u32>> = VecDeque::with_capacity(8);
    let capacity = deque.capacity();
    deque.push_back(Box::new(1));
    deque.push_front(Box::new(2));
    deque.push_back(Box::new(3));
    assert_eq!(deque.capacity(), capacity);
    assert_eq!(
        deque.size_of(),
        TotalSize::new(
            size_of::<VecDeque<Box<u32>>>() + capacity * size_of::<usize>() + 3 * 4,
            (capacity - 3) * size_of::<usize>(),
            0,
            4,
        ),
    );
    let empty: VecDeque<u64> = VecDeque::new();
    assert_eq!(empty.size_of(), TotalSize::total(size_of::<VecDeque<u64>>()));
}

#[test]
fn heaps_charge_buffer_and_elements() {
    let mut heap: Heap<Box<u32>> = Heap::with_capacity(8);
    heap.push(Box::new(3));
    heap.push(Box::new(1));
    heap.push(Box::new(2));
    // With room for eight at least, three in use.
    let size = heap.size_of();
    let block = size.total_bytes() - size_of::<Heap<Box<u32>>>() - 3 * 4;
    assert!(block >= 8 * size_of::<usize>());
    assert_eq!(block % size_of::<usize>(), 0);
    assert_eq!(size.excess_bytes(), block - 3 * size_of::<usize>());
    assert_eq!(size.distinct_allocations(), 4);
    assert_eq!(size.shared_bytes(), 0);

    let empty: Heap<u64> = Heap::new();
    assert_eq!(empty.size_of(), TotalSize::total(size_of::<Heap<u64>>()));
}

#[test]
fn ordered_collections_charge_nodes_and_entries() {
    let mut set = BTreeSet::new();
    set.insert(Box::new(1u64));
    set.insert(Box::new(2u64));
    set.insert(Box::new(3u64));
    assert_eq!(
        set.size_of(),
        TotalSize::new(
            size_of::<BTreeSet<Box<u64>>>() + estimate_btree_size::<Box<u64>, ()>(3) + 3 * 8,
            0,
            0,
            4,
        ),
    );

    let mut map = BTreeMap::new();
    map.insert(1u8, eight());
    map.insert(2u8, eight());
    assert_eq!(
        map.size_of(),
        TotalSize::new(
            size_of::<BTreeMap<u8, String>>() + estimate_btree_size::<u8, String>(2) + 2 * 8,
            0,
            0,
            3,
        ),
    );
}

#[test]
fn hash_collections_charge_table_and_entries() {
    let mut set: HashSet<Box<u64>> = HashSet::with_capacity(16);
    set.insert(Box::new(1));
    set.insert(Box::new(2));
    let (total_bytes, used_bytes) =
        estimate_hashmap_size::<Box<u64>, ()>(set.len(), set.capacity());
    assert_eq!(
        set.size_of(),
        TotalSize::new(
            size_of::<HashSet<Box<u64>>>() + total_bytes + 2 * 8,
            total_bytes - used_bytes,
            0,
            3,
        ),
    );

    let mut map: HashMap<u32, String> = HashMap::with_capacity(100);
    map.insert(1, eight());
    map.insert(2, eight());
    map.insert(3, eight());
    let (total_bytes, used_bytes) =
        estimate_hashmap_size::<u32, String>(map.len(), map.capacity());
    assert_eq!(
        map.size_of(),
        TotalSize::new(
            size_of::<HashMap<u32, String>>() + total_bytes + 3 * 8,
            total_bytes - used_bytes,
            0,
            4,
        ),
    );
}

#[test]
fn shared_handles_are_charged_once() {
    let first = Rc::new(7u32);
    let second = Rc::clone(&first);
    let third = Rc::clone(&first);
    let fourth = Rc::clone(&first);
    // Four handles over one payload of four bytes.
    let size = size_of_values(&[
        &first as &dyn SizeOf,
        &second as &dyn SizeOf,
        &third as &dyn SizeOf,
        &fourth as &dyn SizeOf,
    ]);
    assert_eq!(size.shared_bytes(), 4);
    assert_eq!(size.distinct_allocations(), 1);
    assert_eq!(size, TotalSize::new(4 * size_of::<Rc<u32>>() + 4, 0, 4, 1));

    // Measured apart, each is charged in full.
    assert_eq!(
        first.size_of() + second.size_of(),
        TotalSize::new(2 * size_of::<Rc<u32>>() + 8, 0, 8, 2),
    );

    // Two payloads that are equal but distinct are both charged.
    let other = Rc::new(7u32);
    assert_eq!(
        (Rc::clone(&first), other).size_of(),
        TotalSize::new(2 * size_of::<Rc<u32>>() + 8, 0, 8, 2),
    );
}

#[test]
fn shared_payloads_with_children() {
    let mut text = String::with_capacity(32);
    text.push_str("0123456789");
    let payload = size_of::<String>() + 32;
    let handle = Arc::new(text);
    let clones = vec![Arc::clone(&handle), Arc::clone(&handle), handle];
    assert_eq!(clones.capacity(), 3);
    assert_eq!(
        clones.size_of(),
        TotalSize::new(
            size_of::<Vec<Arc<String>>>() + 3 * size_of::<Arc<String>>() + payload,
            22,
            payload,
            3,
        ),
    );
}

#[test]
fn nested_shared_handles() {
    // A shared handle inside a shared payload: both payloads are shared.
    let inner = Arc::new(1u64);
    let outer = Arc::new((Arc::clone(&inner), 2u8));
    let pair = size_of::<(Arc<u64>, u8)>();
    assert_eq!(
        outer.size_of(),
        TotalSize::new(size_of::<usize>() + pair + 8, 0, pair + 8, 2),
    );
    // Both handles together: the inner payload is charged once.
    assert_eq!(
        size_of_values(&[&inner as &dyn SizeOf, &outer as &dyn SizeOf]),
        TotalSize::new(2 * size_of::<usize>() + pair + 8, 0, pair + 8, 2),
    );
}

#[test]
fn values_of_many_types_are_measured_together() {
    let vector: Vec<u8> = vec![1, 2, 3, 4];
    let array: [u8; 10] = [255; 10];
    let size = size_of_values(&[&vector as &dyn SizeOf, &array as &dyn SizeOf]);
    assert_eq!(
        size.total_bytes(),
        size_of::<Vec<u8>>() + 4 + size_of::<[u8; 10]>(),
    );
    assert_eq!(size_of_values(&[]), TotalSize::zero());
}

#[test]
fn traversal_into_a_context() {
    let mut context = Context::new();
    let text = eight();
    text.size_of_with_context(&mut context);
    7u32.size_of_with_context(&mut context);
    text.size_of_children(&mut context);
    assert_eq!(
        context.total_size(),
        TotalSize::new(size_of::<String>() + 8 + 4 + 8, 0, 0, 2),
    );
}

#[test]
fn cells_are_looked_into_when_free() {
    assert_eq!(Cell::new(5u32).size_of(), TotalSize::total(4));
    let cell = RefCell::new(eight());
    assert_eq!(
        cell.size_of(),
        TotalSize::new(size_of::<RefCell<String>>() + 8, 0, 0, 1),
    );
    {
        // While it is borrowed uniquely the cell is passed over.
        let _held = cell.borrow_mut();
        assert_eq!(cell.size_of(), TotalSize::total(size_of::<RefCell<String>>()));
    }
    assert_eq!(
        cell.size_of(),
        TotalSize::new(size_of::<RefCell<String>>() + 8, 0, 0, 1),
    );
}

#[test]
fn locks_are_looked_into_when_free() {
    let mutex = Mutex::new(eight());
    assert_eq!(
        mutex.size_of(),
        TotalSize::new(size_of::<Mutex<String>>() + 8, 0, 0, 1),
    );
    {
        // A lock that is held is passed over, without waiting.
        let _held = mutex.lock().unwrap();
        assert_eq!(mutex.size_of(), TotalSize::total(size_of::<Mutex<String>>()));
    }

    let lock = RwLock::new(Box::new(1u16));
    assert_eq!(
        lock.size_of(),
        TotalSize::new(size_of::<RwLock<Box<u16>>>() + 2, 0, 0, 1),
    );
    {
        let _reader = lock.read().unwrap();
        // Readers do not keep other readers out.
        assert_eq!(
            lock.size_of(),
            TotalSize::new(size_of::<RwLock<Box<u16>>>() + 2, 0, 0, 1),
        );
    }
    {
        let _writer = lock.write().unwrap();
        assert_eq!(lock.size_of(), TotalSize::total(size_of::<RwLock<Box<u16>>>()));
    }
}

#[test]
fn a_once_points_to_one_waiter() {
    assert_eq!(
        Once::new().size_of(),
        TotalSize::new(size_of::<Once>() + size_of::<OnceWaiter>(), 0, 0, 1),
    );
    if size_of::<usize>() == 8 {
        assert_eq!(size_of::<OnceWaiter>(), 24);
    }
}

#[test]
fn a_context_owns_its_record_of_addresses() {
    let fresh = Context::new();
    assert_eq!(fresh.size_of(), TotalSize::total(size_of::<Context>()));

    let mut context = Context::new();
    context.add_ptr(8).add_ptr(16).add_ptr(24).add_ptr(8);
    assert_eq!(
        context.size_of(),
        TotalSize::new(
            size_of::<Context>() + estimate_btree_size::<usize, ()>(3),
            0,
            0,
            1,
        ),
    );
}
