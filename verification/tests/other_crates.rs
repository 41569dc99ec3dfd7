use ahash::{AHashMap, AHashSet};
use arcstr::{ArcStr, Substr};
use bigdecimal::BigDecimal;
use chrono::format::{Fixed, Item, Numeric, Pad};
use chrono::LocalResult;
use core::mem::size_of;
use core::str::FromStr;
use num_bigint::{BigInt, BigUint, Sign};
use rust_decimal::Decimal;
use size_of::estimate::estimate_hashmap_size;
use size_of::{size_of_values, SizeOf, TotalSize};
use std::sync::Arc;

// What precedes the text in the block of a shared string.
#[allow(dead_code)]
struct FakeThinInner {
    len_flags: usize,
    strong: usize,
    data: [u8; 0],
}

// A static string with the given text: a leaked string counts as static.
fn static_string(text: &str) -> ArcStr {
    let string = ArcStr::from(text);
    string.leak();
    string
}

#[test]
fn arcstr_smoke() {
    let empty = ArcStr::new();
    assert_eq!(
        empty.size_of(),
        TotalSize::new(
            size_of::<ArcStr>() + size_of::<FakeThinInner>(),
            0,
            size_of::<FakeThinInner>(),
            0,
        ),
    );

    let shared = size_of::<FakeThinInner>() + 4;
    let total = size_of::<ArcStr>() + shared;

    let static_string = static_string("whee");
    assert!(ArcStr::is_static(&static_string));
    assert_eq!(static_string.size_of(), TotalSize::new(total, 0, shared, 0));

    let allocated_string = ArcStr::from("whee");
    assert_eq!(
        allocated_string.size_of(),
        TotalSize::new(total, 0, shared, 1),
    );
}

#[test]
fn shared_arcstr() {
    let string1 = ArcStr::from("whee");
    let string2 = string1.clone();
    let string3 = string1.clone();
    let string4 = string1.clone();

    let size = size_of_values(&[&string1 as _, &string2 as _, &string3 as _, &string4 as _]);

    let shared = size_of::<FakeThinInner>() + 4;
    let total = size_of::<ArcStr>() * 4 + shared;
    assert_eq!(size, TotalSize::new(total, 0, shared, 1));
}

#[test]
fn substr_smoke() {
    let empty = Substr::new();
    assert_eq!(
        empty.size_of(),
        TotalSize::new(
            size_of::<Substr>() + size_of::<FakeThinInner>(),
            0,
            size_of::<FakeThinInner>(),
            0,
        ),
    );

    let shared = size_of::<FakeThinInner>() + 4;
    let total = size_of::<Substr>() + shared;

    let static_substr = Substr::full(static_string("whee"));
    assert_eq!(static_substr.size_of(), TotalSize::new(total, 0, shared, 0));

    let allocated_substr = Substr::full(ArcStr::from("whee"));
    assert_eq!(
        allocated_substr.size_of(),
        TotalSize::new(total, 0, shared, 1),
    );

    let sliced_allocated_substr = ArcStr::from("whee").substr(..2);
    assert_eq!(
        sliced_allocated_substr.size_of(),
        TotalSize::new(total, 0, shared, 1),
    );
}

#[test]
fn rust_decimal_is_u128() {
    let decimal = Decimal::MIN;
    assert_eq!(decimal.size_of(), TotalSize::total(size_of::<u128>()));
}

#[test]
fn shared_strings_in_a_shared_region() {
    // A shared string behind a shared handle: every byte is shared once.
    let text = ArcStr::from("whee");
    let handle = Arc::new(text);
    let shared = size_of::<ArcStr>() + size_of::<FakeThinInner>() + 4;
    assert_eq!(
        handle.size_of(),
        TotalSize::new(size_of::<usize>() + shared, 0, shared, 2),
    );
}

#[test]
fn shared_strings_by_length() {
    let short = ArcStr::from("a");
    let long = ArcStr::from("0123456789012345678901234567890123456789");
    assert_eq!(
        long.size_of().total_bytes() - short.size_of().total_bytes(),
        39,
    );
    // A range of a string is charged as the whole string.
    let range = long.substr(3..5);
    assert_eq!(
        range.size_of(),
        TotalSize::new(
            size_of::<Substr>() + size_of::<FakeThinInner>() + 40,
            0,
            size_of::<FakeThinInner>() + 40,
            1,
        ),
    );
    // The string and a range of it share one block.
    assert_eq!(
        size_of_values(&[&long as &dyn SizeOf, &range as &dyn SizeOf]),
        TotalSize::new(
            size_of::<ArcStr>() + size_of::<Substr>() + size_of::<FakeThinInner>() + 40,
            0,
            size_of::<FakeThinInner>() + 40,
            1,
        ),
    );
}

#[test]
fn big_integers_charge_their_digits() {
    let zero = BigUint::from(0u8);
    assert_eq!(zero.size_of(), TotalSize::new(size_of::<BigUint>(), 0, 0, 1));
    let one_digit = BigUint::from(u64::MAX);
    assert_eq!(
        one_digit.size_of(),
        TotalSize::new(size_of::<BigUint>() + 8, 0, 0, 1),
    );
    let three_digits = BigUint::from(u128::MAX) * BigUint::from(3u8);
    assert_eq!(
        three_digits.size_of(),
        TotalSize::new(size_of::<BigUint>() + 24, 0, 0, 1),
    );
    let negative = BigInt::from(i128::MIN);
    assert_eq!(
        negative.size_of(),
        TotalSize::new(size_of::<BigInt>() + 16, 0, 0, 1),
    );
    assert_eq!(Sign::Minus.size_of(), TotalSize::total(size_of::<Sign>()));
}

#[test]
fn big_decimals_charge_a_word_for_each_digit() {
    let word = size_of::<usize>();
    let number = BigDecimal::from_str("123.45").unwrap();
    assert_eq!(number.digits(), 5);
    assert_eq!(
        number.size_of(),
        TotalSize::new(size_of::<BigDecimal>() + 5 * word, 0, 0, 1),
    );
    let zero = BigDecimal::from(0);
    assert_eq!(
        zero.size_of(),
        TotalSize::new(size_of::<BigDecimal>() + word, 0, 0, 1),
    );
}

#[test]
fn hashers_and_times_own_nothing() {
    assert_eq!(
        fxhash::FxHasher::default().size_of(),
        TotalSize::total(size_of::<fxhash::FxHasher>()),
    );
    assert_eq!(
        ahash::RandomState::new().size_of(),
        TotalSize::total(size_of::<ahash::RandomState>()),
    );
    assert_eq!(
        xxhash_rust::xxh64::Xxh64::new(1).size_of(),
        TotalSize::total(size_of::<xxhash_rust::xxh64::Xxh64>()),
    );
    assert_eq!(
        time::Duration::seconds(5).size_of(),
        TotalSize::total(size_of::<time::Duration>()),
    );
    assert_eq!(
        time::Date::MIN.size_of(),
        TotalSize::total(size_of::<time::Date>()),
    );
    assert_eq!(
        chrono::NaiveDate::MIN.size_of(),
        TotalSize::total(size_of::<chrono::NaiveDate>()),
    );
    assert_eq!(chrono::Utc.size_of(), TotalSize::total(0));
}

#[test]
fn maps_of_ahash_are_measured_as_those_of_std() {
    let mut map: AHashMap<u32, Box<u64>> = AHashMap::new();
    map.insert(1, Box::new(1));
    map.insert(2, Box::new(2));
    let (total_bytes, used_bytes) =
        estimate_hashmap_size::<u32, Box<u64>>(map.len(), map.capacity());
    assert_eq!(
        map.size_of(),
        TotalSize::new(
            size_of::<AHashMap<u32, Box<u64>>>() + total_bytes + 16,
            total_bytes - used_bytes,
            0,
            3,
        ),
    );
    let empty: AHashSet<u8> = AHashSet::new();
    assert_eq!(empty.size_of(), TotalSize::total(size_of::<AHashSet<u8>>()));
}

#[test]
fn local_times_and_format_items() {
    let none: LocalResult<Box<u32>> = LocalResult::None;
    assert_eq!(
        none.size_of(),
        TotalSize::total(size_of::<LocalResult<Box<u32>>>()),
    );
    assert_eq!(
        LocalResult::Single(Box::new(1u32)).size_of(),
        TotalSize::new(size_of::<LocalResult<Box<u32>>>() + 4, 0, 0, 1),
    );
    assert_eq!(
        LocalResult::Ambiguous(Box::new(1u32), Box::new(2u32)).size_of(),
        TotalSize::new(size_of::<LocalResult<Box<u32>>>() + 8, 0, 0, 2),
    );

    let item = size_of::<Item<'_>>();
    assert_eq!(Item::Literal("abc").size_of(), TotalSize::total(item));
    assert_eq!(Item::Space(" ").size_of(), TotalSize::total(item));
    assert_eq!(
        Item::OwnedLiteral("abc".into()).size_of(),
        TotalSize::new(item + 3, 0, 0, 1),
    );
    assert_eq!(
        Item::OwnedSpace("  ".into()).size_of(),
        TotalSize::new(item + 2, 0, 0, 1),
    );
    assert_eq!(
        Item::Numeric(Numeric::Year, Pad::Zero).size_of(),
        TotalSize::total(item),
    );
    assert_eq!(Item::Fixed(Fixed::RFC3339).size_of(), TotalSize::total(item));
    assert_eq!(Item::Error.size_of(), TotalSize::total(item));
}
