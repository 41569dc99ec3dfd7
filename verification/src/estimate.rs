//! Estimates of what a container holds on the heap, from its length, its
//! capacity and the size of its elements alone.

use vstd::arithmetic::power2::is_pow2;
use vstd::layout::{align_of, size_of};
use vstd::prelude::*;

verus! {

/// The least number of key-value pairs in a tree node that is not the root.
pub const BTREE_MIN: usize = 5;

/// The greatest number of key-value pairs in a tree node.
pub const BTREE_MAX: usize = 11;

/// A stand-in for one node of an ordered map: a link to the parent, two
/// 16-bit fields, and room for [`BTREE_MAX`] keys and values.
pub struct BTreeNode<K, V> {
    parent: usize,
    parent_idx: u16,
    len: u16,
    keys: [K; BTREE_MAX],
    values: [V; BTREE_MAX],
}

/// The bytes of a tree of `length` pairs whose nodes take `node_size` bytes
/// each and are filled to the midpoint between [`BTREE_MIN`] and
/// [`BTREE_MAX`] pairs.
pub open spec fn btree_bytes(length: nat, node_size: nat) -> nat {
    length * node_size * 2 / ((BTREE_MAX + BTREE_MIN) as nat)
}

/// Estimates the bytes that an ordered map or set of `length` entries holds
/// on the heap.
pub fn estimate_btree_size<K, V>(length: usize) -> (bytes: usize)
    requires
        length * size_of::<BTreeNode<K, V>>() * 2 <= usize::MAX,
    ensures
        bytes == btree_bytes(length as nat, size_of::<BTreeNode<K, V>>()),
{
    let node_size: usize = core::mem::size_of::<BTreeNode<K, V>>();
    assert(length * node_size <= length * node_size * 2) by (nonlinear_arith)
        requires
            0 <= length,
            0 <= node_size,
    ;
    length * node_size * 2 / (BTREE_MAX + BTREE_MIN)
}

/// The estimate of [`btree_bytes`] where it can be computed in a `usize`,
/// and `isize::MAX`, more than any allocation has, where it cannot.
pub open spec fn capped_btree_bytes(length: nat, node_size: nat) -> nat {
    if length * node_size * 2 <= usize::MAX {
        btree_bytes(length, node_size)
    } else {
        isize::MAX as nat
    }
}

/// Estimates the bytes that an ordered map or set of `length` entries holds
/// on the heap, for every length: as [`estimate_btree_size`] does where
/// that can be computed, and as `isize::MAX` where it cannot.
pub fn capped_btree_size<K, V>(length: usize) -> (bytes: usize)
    ensures
        bytes == capped_btree_bytes(length as nat, size_of::<BTreeNode<K, V>>()),
{
    let node_size: usize = core::mem::size_of::<BTreeNode<K, V>>();
    assert(0 <= length * node_size) by (nonlinear_arith)
        requires
            0 <= length,
            0 <= node_size,
    ;
    match length.checked_mul(node_size) {
        Some(nodes) => match nodes.checked_mul(2) {
            Some(_) => estimate_btree_size::<K, V>(length),
            None => isize::MAX as usize,
        },
        None => isize::MAX as usize,
    }
}

/// A stand-in for a mutex that keeps its state on the heap, as the mutex of
/// an enclave does: a spin lock around a queue of waiting threads, and the
/// value.
pub struct HeapMutex<T> {
    inner: SpinMutex<WaitVariable<bool>>,
    value: T,
}

/// A stand-in for a spin lock around a value.
pub struct SpinMutex<T> {
    value: T,
    lock: bool,
}

/// A stand-in for a queue of waiting threads beside a value.
pub struct WaitVariable<T> {
    queue: WaitQueue,
    lock: T,
}

/// A stand-in for a queue of waiting threads.
pub struct WaitQueue {
    inner: WaitList<SpinMutex<WaitEntry>>,
}

/// A stand-in for one waiting thread: a link to its control block and a flag.
pub struct WaitEntry {
    tcs: usize,
    wake: bool,
}

/// A stand-in for a linked list that starts with an entry in place.
pub struct WaitList<T> {
    head_tail: usize,
    head_tail_entry: Option<WaitListEntry<T>>,
}

/// A stand-in for one entry of a linked list.
pub struct WaitListEntry<T> {
    next: usize,
    prev: usize,
    value: Option<T>,
}

/// Estimates the bytes of a mutex around a `T` that keeps its state on the
/// heap, with no thread waiting for it.
pub fn estimate_mutex_size_sgx<T>() -> (bytes: usize)
    ensures
        bytes == size_of::<HeapMutex<T>>(),
{
    core::mem::size_of::<HeapMutex<T>>()
}

/// `from`, doubled until it is at least `n`.
pub open spec fn doubled_until(from: nat, n: nat) -> nat
    decreases (if from < n { n - from } else { 0 }),
{
    if 0 < from < n {
        doubled_until(2 * from, n)
    } else {
        from
    }
}

/// The least power of two that is at least `n`.
pub open spec fn next_power_of_two(n: nat) -> nat {
    doubled_until(1, n)
}

/// Of two powers of two, the greater is at least twice the smaller.
pub proof fn lemma_pow2_gap(small: int, large: int)
    requires
        is_pow2(small),
        is_pow2(large),
        small < large,
    ensures
        2 * small <= large,
    decreases large,
{
    reveal(is_pow2);
    if small > 1 {
        lemma_pow2_gap(small / 2, large / 2);
    }
}

/// What doubling a power of two reaches: a power of two that is at least `n`
/// and whose half is below `n`, unless it is `from` itself.
proof fn lemma_doubled_until(from: nat, n: nat)
    requires
        is_pow2(from as int),
    ensures
        is_pow2(doubled_until(from, n) as int),
        doubled_until(from, n) >= n,
        doubled_until(from, n) >= from,
        doubled_until(from, n) == from || doubled_until(from, n) < 2 * n,
    decreases (if from < n { n - from } else { 0 }),
{
    reveal(is_pow2);
    if 0 < from < n {
        lemma_doubled_until(2 * from, n);
    }
}

/// [`next_power_of_two`] is what its name says: a power of two, at least
/// `n`, and no greater than any other power of two that is at least `n`.
pub proof fn next_power_of_two_is_least(n: nat)
    ensures
        is_pow2(next_power_of_two(n) as int),
        next_power_of_two(n) >= n,
        forall|other: int| is_pow2(other) && other >= n ==> next_power_of_two(n) <= other,
{
    reveal(is_pow2);
    lemma_doubled_until(1, n);
    let least = next_power_of_two(n);
    assert forall|other: int| is_pow2(other) && other >= n implies least <= other by {
        if other < least {
            lemma_pow2_gap(other, least as int);
        }
    }
}

/// The least power of two that is at least `n`.
pub fn power_of_two_at_least(n: usize) -> (power: usize)
    requires
        n <= usize::MAX / 2 + 1,
    ensures
        power == next_power_of_two(n as nat),
{
    let mut power: usize = 1;
    while power < n
        invariant
            0 < power,
            n <= usize::MAX / 2 + 1,
            doubled_until(power as nat, n as nat) == next_power_of_two(n as nat),
        decreases (if power < n { n - power } else { 0 }),
    {
        power = power * 2;
    }
    power
}

/// The number of buckets of a hash table that was asked to hold `capacity`
/// entries: none for none, 4 below 4, 8 below 8, and beyond that the least
/// power of two that leaves one bucket in eight free.
pub open spec fn buckets_for(capacity: nat) -> nat {
    if capacity == 0 {
        0
    } else if capacity < 4 {
        4
    } else if capacity < 8 {
        8
    } else {
        next_power_of_two(capacity * 8 / 7)
    }
}

/// The table has room for what it was asked to hold.
pub proof fn buckets_hold_capacity(capacity: nat)
    ensures
        buckets_for(capacity) >= capacity,
{
    next_power_of_two_is_least(capacity * 8 / 7);
}

/// A table that is asked to hold more gets no fewer buckets.
pub proof fn buckets_for_monotone(fewer: nat, more: nat)
    requires
        fewer <= more,
    ensures
        buckets_for(fewer) <= buckets_for(more),
{
    next_power_of_two_is_least(fewer * 8 / 7);
    next_power_of_two_is_least(more * 8 / 7);
}

/// Estimates the number of buckets of a hash table with room for `capacity`
/// entries.
pub fn capacity_to_buckets(capacity: usize) -> (buckets: usize)
    requires
        capacity * 8 <= usize::MAX,
    ensures
        buckets == buckets_for(capacity as nat),
{
    if capacity == 0 {
        0
    } else if capacity < 4 {
        4
    } else if capacity < 8 {
        8
    } else {
        power_of_two_at_least(capacity * 8 / 7)
    }
}

/// The width of a group of control bytes: 8 where a `usize` has 64 bits, 4
/// elsewhere.
pub open spec fn group_width() -> nat {
    if usize::BITS == 64 {
        8
    } else {
        4
    }
}

/// The width of a group of control bytes on this machine.
pub fn control_group_width() -> (width: usize)
    ensures
        width == group_width(),
{
    if usize::BITS == 64 {
        8
    } else {
        4
    }
}

/// `bytes` rounded up to a multiple of `align`.
pub open spec fn round_up(bytes: nat, align: nat) -> nat {
    ((bytes + align - 1) / (align as int) * align) as nat
}

/// The bytes of a hash table of `buckets` buckets, whose elements take
/// `element_size` bytes and are aligned to `element_align`: the elements,
/// rounded up to the greater of the element's alignment and the group width,
/// then one control byte for each bucket and one group of control bytes.
pub open spec fn table_bytes(element_size: nat, element_align: nat, buckets: nat) -> nat {
    let align = if element_align > group_width() {
        element_align
    } else {
        group_width()
    };
    round_up(element_size * buckets, align) + buckets + group_width()
}

/// A table with more buckets takes no fewer bytes.
pub proof fn table_bytes_monotone(element_size: nat, element_align: nat, fewer: nat, more: nat)
    requires
        fewer <= more,
    ensures
        table_bytes(element_size, element_align, fewer) <= table_bytes(
            element_size,
            element_align,
            more,
        ),
{
    let align: int = if element_align > group_width() {
        element_align as int
    } else {
        group_width() as int
    };
    let low: int = element_size * fewer + align - 1;
    let high: int = element_size * more + align - 1;
    assert(low <= high) by (nonlinear_arith)
        requires
            fewer <= more,
            low == element_size * fewer + align - 1,
            high == element_size * more + align - 1,
    ;
    assert(low / align * align <= high / align * align) by (nonlinear_arith)
        requires
            0 <= low <= high,
            align > 0,
    ;
}

/// Estimates the bytes of a hash table of `buckets` buckets with elements of
/// type `T`.
pub fn calculate_layout_for<T>(buckets: usize) -> (bytes: usize)
    requires
        size_of::<T>() * buckets + align_of::<T>() + buckets + 2 * group_width() <= usize::MAX,
    ensures
        bytes == table_bytes(size_of::<T>(), align_of::<T>(), buckets as nat),
{
    let group: usize = control_group_width();
    let element_align: usize = core::mem::align_of::<T>();
    let element_size: usize = core::mem::size_of::<T>();
    let align: usize = if element_align > group {
        element_align
    } else {
        group
    };
    assert(0 <= element_size * buckets) by (nonlinear_arith)
        requires
            0 <= element_size,
            0 <= buckets,
    ;
    let padded: usize = element_size * buckets + (align - 1);
    assert(0 <= (padded / align) * align <= padded) by (nonlinear_arith)
        requires
            0 <= padded,
            0 < align,
    ;
    let ctrl_offset: usize = padded / align * align;
    ctrl_offset + buckets + group
}

/// The bytes that a hash table of `capacity` entries has allocated, and the
/// part of them that `length` entries use: the bytes of a table with the
/// buckets for the capacity, and those of one with the buckets for the
/// length. A table without capacity has allocated nothing.
pub open spec fn hash_table_bytes(
    element_size: nat,
    element_align: nat,
    length: nat,
    capacity: nat,
) -> (nat, nat) {
    if capacity == 0 {
        (0, 0)
    } else {
        (
            table_bytes(element_size, element_align, buckets_for(capacity)),
            table_bytes(element_size, element_align, buckets_for(length)),
        )
    }
}

/// Of a table that holds no more than its capacity, the used bytes are a
/// part of the allocated bytes.
pub proof fn hash_table_used_within_allocated(
    element_size: nat,
    element_align: nat,
    length: nat,
    capacity: nat,
)
    requires
        length <= capacity,
    ensures
        hash_table_bytes(element_size, element_align, length, capacity).1 <= hash_table_bytes(
            element_size,
            element_align,
            length,
            capacity,
        ).0,
{
    buckets_for_monotone(length, capacity);
    table_bytes_monotone(element_size, element_align, buckets_for(length), buckets_for(capacity));
}

/// Whether the bytes of a table that is asked to hold `room` entries, with
/// elements of the given size and alignment, can be computed in a `usize`.
pub open spec fn hash_table_fits(element_size: nat, element_align: nat, room: nat) -> bool {
    &&& room * 8 <= usize::MAX
    &&& element_size * buckets_for(room) + element_align + buckets_for(room) + 2 * group_width()
        <= usize::MAX
}

/// Estimates the bytes of a hash map from `K` to `V` with `length` entries
/// and room for `capacity`: first the bytes allocated, then the bytes in use.
pub fn estimate_hashmap_size<K, V>(length: usize, capacity: usize) -> (bytes: (usize, usize))
    requires
        capacity != 0 ==> hash_table_fits(
            size_of::<(K, V)>(),
            align_of::<(K, V)>(),
            capacity as nat,
        ) && hash_table_fits(size_of::<(K, V)>(), align_of::<(K, V)>(), length as nat),
    ensures
        (bytes.0 as nat, bytes.1 as nat) == hash_table_bytes(
            size_of::<(K, V)>(),
            align_of::<(K, V)>(),
            length as nat,
            capacity as nat,
        ),
        length <= capacity ==> bytes.1 <= bytes.0,
{
    if capacity == 0 {
        (0, 0)
    } else {
        proof {
            if length <= capacity {
                hash_table_used_within_allocated(
                    size_of::<(K, V)>(),
                    align_of::<(K, V)>(),
                    length as nat,
                    capacity as nat,
                );
            }
        }
        // The buckets of the whole table, and those that the entries need
        let table_layout: usize = calculate_layout_for::<(K, V)>(capacity_to_buckets(capacity));
        let used_layout: usize = calculate_layout_for::<(K, V)>(capacity_to_buckets(length));
        (table_layout, used_layout)
    }
}

/// Whether a table that is asked to hold `room` entries is one that there
/// can be: its bytes can be computed in a `usize` and are no more than a
/// single allocation can have.
pub open spec fn table_possible(element_size: nat, element_align: nat, room: nat) -> bool {
    &&& hash_table_fits(element_size, element_align, room)
    &&& table_bytes(element_size, element_align, buckets_for(room)) <= isize::MAX
}

/// The bytes of a table that is asked to hold `room` entries: those of a
/// table with the buckets for `room`, or `isize::MAX`, the most that an
/// allocation can have, for a table that there cannot be.
pub open spec fn capped_table_bytes(element_size: nat, element_align: nat, room: nat) -> nat {
    if table_possible(element_size, element_align, room) {
        table_bytes(element_size, element_align, buckets_for(room))
    } else {
        isize::MAX as nat
    }
}

/// A table that is asked to hold more takes no fewer bytes, capped or not.
pub proof fn capped_table_bytes_monotone(
    element_size: nat,
    element_align: nat,
    fewer: nat,
    more: nat,
)
    requires
        fewer <= more,
    ensures
        capped_table_bytes(element_size, element_align, fewer) <= capped_table_bytes(
            element_size,
            element_align,
            more,
        ),
        capped_table_bytes(element_size, element_align, more) <= isize::MAX,
{
    buckets_for_monotone(fewer, more);
    table_bytes_monotone(element_size, element_align, buckets_for(fewer), buckets_for(more));
    if table_possible(element_size, element_align, more) {
        let small = buckets_for(fewer);
        let large = buckets_for(more);
        assert(element_size * small <= element_size * large) by (nonlinear_arith)
            requires
                small <= large,
        ;
    }
}

/// Estimates the bytes of a hash table with elements of type `T` that is
/// asked to hold `room` entries, for every `room`: the layout of the
/// buckets for `room`, or `isize::MAX` for a table that there cannot be.
pub fn capped_layout_for<T>(room: usize) -> (bytes: usize)
    ensures
        bytes == capped_table_bytes(size_of::<T>(), align_of::<T>(), room as nat),
{
    let limit: usize = isize::MAX as usize;
    if room > usize::MAX / 8 {
        return limit;
    }
    let buckets: usize = capacity_to_buckets(room);
    let group: usize = control_group_width();
    let elements: usize = match core::mem::size_of::<T>().checked_mul(buckets) {
        Some(elements) => elements,
        None => {
            return limit;
        },
    };
    let padded: usize = match elements.checked_add(core::mem::align_of::<T>()) {
        Some(padded) => padded,
        None => {
            return limit;
        },
    };
    let controlled: usize = match padded.checked_add(buckets) {
        Some(controlled) => controlled,
        None => {
            return limit;
        },
    };
    if controlled > usize::MAX - 2 * group {
        return limit;
    }
    let bytes: usize = calculate_layout_for::<T>(buckets);
    if bytes > limit {
        limit
    } else {
        bytes
    }
}

/// The bytes that are charged for a hash table with `length` entries that
/// says it has room for `capacity`: what is allocated for the room it has,
/// which is at least what it holds, and the part of it that the entries
/// use. Nothing is allocated for a table without room.
pub open spec fn capped_hash_table_bytes(
    element_size: nat,
    element_align: nat,
    length: nat,
    capacity: nat,
) -> (nat, nat) {
    let room = if capacity < length {
        length
    } else {
        capacity
    };
    if room == 0 {
        (0, 0)
    } else {
        (
            capped_table_bytes(element_size, element_align, room),
            capped_table_bytes(element_size, element_align, length),
        )
    }
}

/// Estimates the bytes of a hash map from `K` to `V` with `length` entries
/// and room for `capacity`, for every length and capacity: first the bytes
/// allocated, then the bytes in use, which are a part of them. Where
/// [`estimate_hashmap_size`] can be computed and yields no more than an
/// allocation can have, this is the same.
pub fn capped_hashmap_size<K, V>(length: usize, capacity: usize) -> (bytes: (usize, usize))
    ensures
        (bytes.0 as nat, bytes.1 as nat) == capped_hash_table_bytes(
            size_of::<(K, V)>(),
            align_of::<(K, V)>(),
            length as nat,
            capacity as nat,
        ),
        bytes.1 <= bytes.0,
{
    let room: usize = if capacity < length {
        length
    } else {
        capacity
    };
    if room == 0 {
        (0, 0)
    } else {
        proof {
            capped_table_bytes_monotone(
                size_of::<(K, V)>(),
                align_of::<(K, V)>(),
                length as nat,
                room as nat,
            );
        }
        (capped_layout_for::<(K, V)>(room), capped_layout_for::<(K, V)>(length))
    }
}

} // verus!
