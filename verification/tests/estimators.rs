use core::mem::size_of;
use size_of::estimate::{
    calculate_layout_for, capacity_to_buckets, capped_btree_size, capped_hashmap_size,
    capped_layout_for, control_group_width, estimate_btree_size, estimate_hashmap_size,
    estimate_mutex_size_sgx, power_of_two_at_least,
};

#[test]
fn powers_of_two() {
    assert_eq!(power_of_two_at_least(0), 1);
    assert_eq!(power_of_two_at_least(1), 1);
    assert_eq!(power_of_two_at_least(2), 2);
    assert_eq!(power_of_two_at_least(3), 4);
    assert_eq!(power_of_two_at_least(4), 4);
    assert_eq!(power_of_two_at_least(5), 8);
    assert_eq!(power_of_two_at_least(1000), 1024);
    assert_eq!(power_of_two_at_least(1 << 20), 1 << 20);
    assert_eq!(power_of_two_at_least((1 << 20) + 1), 1 << 21);
    for n in 0usize..5000 {
        assert_eq!(power_of_two_at_least(n), n.next_power_of_two());
    }
}

#[test]
fn buckets_follow_the_growth_table() {
    assert_eq!(capacity_to_buckets(0), 0);
    assert_eq!(capacity_to_buckets(1), 4);
    assert_eq!(capacity_to_buckets(3), 4);
    assert_eq!(capacity_to_buckets(4), 8);
    assert_eq!(capacity_to_buckets(7), 8);
    // 8 * 8 / 7 is 9, and the next power of two is 16.
    assert_eq!(capacity_to_buckets(8), 16);
    assert_eq!(capacity_to_buckets(14), 16);
    // 15 * 8 / 7 is 17.
    assert_eq!(capacity_to_buckets(15), 32);
    assert_eq!(capacity_to_buckets(896), 1024);
    // 897 * 8 / 7 is 1025.
    assert_eq!(capacity_to_buckets(897), 2048);
    assert_eq!(capacity_to_buckets(1024), 2048);
}

#[test]
fn group_width_follows_the_word() {
    if size_of::<usize>() == 8 {
        assert_eq!(control_group_width(), 8);
    } else {
        assert_eq!(control_group_width(), 4);
    }
}

#[test]
fn table_layout() {
    let group = control_group_width();
    // No buckets: only the closing group of control bytes.
    assert_eq!(calculate_layout_for::<u64>(0), group);
    // 16 elements of 8 bytes, 16 control bytes, one group.
    assert_eq!(calculate_layout_for::<u64>(16), 128 + 16 + group);
    // 4 elements of 1 byte are rounded up to the group width.
    assert_eq!(calculate_layout_for::<u8>(4), group + 4 + group);
    // 3 elements of 2 bytes are rounded up as well.
    assert_eq!(calculate_layout_for::<u16>(3), group + 3 + group);
    assert_eq!(calculate_layout_for::<(u32, ())>(2048), 4 * 2048 + 2048 + group);
    // An element that is aligned more strictly than the group decides.
    assert_eq!(calculate_layout_for::<u128>(1), 16 + 1 + group);
}

#[test]
fn hash_map_estimate() {
    let group = control_group_width();
    assert_eq!(estimate_hashmap_size::<u32, u32>(0, 0), (0, 0));
    // 1024 entries are given 2048 buckets.
    assert_eq!(
        estimate_hashmap_size::<u32, u32>(0, 1024),
        (8 * 2048 + 2048 + group, group),
    );
    assert_eq!(
        estimate_hashmap_size::<u32, ()>(0, 1024),
        (4 * 2048 + 2048 + group, group),
    );
    // 3 entries in use of 7: 8 buckets allocated, 4 of them needed.
    assert_eq!(
        estimate_hashmap_size::<u64, u64>(3, 7),
        (16 * 8 + 8 + group, 16 * 4 + 4 + group),
    );
    // One entry of 4: the buckets for one entry are 4 as well.
    assert_eq!(
        estimate_hashmap_size::<u32, u32>(1, 4),
        (8 * 8 + 8 + group, 8 * 4 + 4 + group),
    );
    let (allocated, used) = estimate_hashmap_size::<u8, u8>(100, 100);
    assert_eq!(used, allocated);
    // Without capacity nothing is allocated, whatever the length.
    assert_eq!(estimate_hashmap_size::<u32, u32>(5, 0), (0, 0));
    // More entries than room: both layouts are still computed.
    assert_eq!(
        estimate_hashmap_size::<u8, u8>(9, 3),
        (2 * 4 + 4 + group, 2 * 16 + 16 + group),
    );
}

#[test]
fn capped_hash_map_estimate() {
    let limit = isize::MAX as usize;
    let group = control_group_width();
    // A table that there can be is estimated exactly.
    assert_eq!(
        capped_hashmap_size::<u32, u32>(0, 1024),
        estimate_hashmap_size::<u32, u32>(0, 1024),
    );
    assert_eq!(
        capped_hashmap_size::<u64, u64>(3, 7),
        estimate_hashmap_size::<u64, u64>(3, 7),
    );
    assert_eq!(capped_hashmap_size::<u32, u32>(0, 0), (0, 0));
    // A table holds at least what is in it.
    assert_eq!(
        capped_hashmap_size::<u32, u32>(5, 4),
        (8 * 8 + 8 + group, 8 * 8 + 8 + group),
    );
    assert_eq!(
        capped_hashmap_size::<u32, u32>(3, 0),
        (8 * 4 + 4 + group, 8 * 4 + 4 + group),
    );
    // More than any table can hold counts as the most an allocation has.
    assert_eq!(capped_hashmap_size::<u32, u32>(0, usize::MAX), (limit, group));
    assert_eq!(capped_hashmap_size::<u32, u32>(0, usize::MAX / 8), (limit, group));
    assert_eq!(
        capped_hashmap_size::<[u64; 64], u8>(3, usize::MAX / 1024),
        (limit, calculate_layout_for::<([u64; 64], u8)>(4)),
    );
    assert_eq!(capped_hashmap_size::<u8, u8>(usize::MAX, 1), (limit, limit));

    assert_eq!(capped_layout_for::<u64>(0), group);
    assert_eq!(capped_layout_for::<u64>(14), 8 * 16 + 16 + group);
    assert_eq!(capped_layout_for::<u64>(usize::MAX), limit);
}

#[test]
fn tree_estimate() {
    assert_eq!(estimate_btree_size::<u32, ()>(0), 0);
    // A node with room for 11 keys of 4 bytes, a parent link and two 16-bit
    // fields takes 56 bytes where a link takes 8.
    if size_of::<usize>() == 8 {
        assert_eq!(estimate_btree_size::<u32, ()>(10), 10 * 56 * 2 / 16);
        assert_eq!(estimate_btree_size::<u32, ()>(10), 70);
        assert_eq!(estimate_btree_size::<u32, u32>(10), 10 * 104 * 2 / 16);
        assert_eq!(estimate_btree_size::<u32, u32>(1), 13);
    }
    assert!(estimate_btree_size::<u64, u64>(100) > estimate_btree_size::<u64, u64>(10));
}

#[test]
fn capped_tree_estimate() {
    assert_eq!(capped_btree_size::<u32, ()>(0), 0);
    assert_eq!(
        capped_btree_size::<u32, u32>(10),
        estimate_btree_size::<u32, u32>(10),
    );
    assert_eq!(
        capped_btree_size::<u64, String>(12345),
        estimate_btree_size::<u64, String>(12345),
    );
    // A length whose nodes cannot be counted in a `usize`.
    assert_eq!(capped_btree_size::<u32, u32>(usize::MAX), isize::MAX as usize);
    assert_eq!(capped_btree_size::<u32, u32>(usize::MAX / 100), isize::MAX as usize);
}

#[test]
fn heap_mutex_estimate() {
    let empty = estimate_mutex_size_sgx::<()>();
    assert!(empty > 0);
    assert!(estimate_mutex_size_sgx::<u64>() >= empty + 8);
    assert!(estimate_mutex_size_sgx::<[u8; 100]>() >= empty + 100);
    if size_of::<usize>() == 8 {
        assert_eq!(empty, 64);
        assert_eq!(estimate_mutex_size_sgx::<u32>(), 72);
    }
}
