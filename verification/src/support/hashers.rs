//! Hashers of `ahash`, `fxhash` and `xxhash_rust`: plain state, kept in
//! place. The maps and sets of `ahash` are those of std under another name.

use crate::context::{Context, Tally};
use crate::measure::SizeOf;
use std::collections::{HashMap, HashSet};
use vstd::prelude::*;

verus! {

/// `ahash::AHasher`, the state of a hasher.
#[verifier::external_type_specification]
#[verifier::external_body]
pub struct ExAHasher(ahash::AHasher);

/// `ahash::RandomState`, the keys from which hashers are made.
#[verifier::external_type_specification]
#[verifier::external_body]
pub struct ExAHashRandomState(ahash::RandomState);

/// `fxhash::FxHasher`, the state of a hasher.
#[verifier::external_type_specification]
#[verifier::external_body]
pub struct ExFxHasher(fxhash::FxHasher);

/// `fxhash::FxHasher32`, the state of a 32-bit hasher.
#[verifier::external_type_specification]
#[verifier::external_body]
pub struct ExFxHasher32(fxhash::FxHasher32);

/// `fxhash::FxHasher64`, the state of a 64-bit hasher.
#[verifier::external_type_specification]
#[verifier::external_body]
pub struct ExFxHasher64(fxhash::FxHasher64);

/// `xxhash_rust::xxh32::Xxh32`, the state of a 32-bit hasher.
#[verifier::external_type_specification]
#[verifier::external_body]
pub struct ExXxh32(xxhash_rust::xxh32::Xxh32);

/// `xxhash_rust::xxh64::Xxh64`, the state of a 64-bit hasher.
#[verifier::external_type_specification]
#[verifier::external_body]
pub struct ExXxh64(xxhash_rust::xxh64::Xxh64);

/// `xxhash_rust::xxh64::Xxh64Builder`, the seed from which hashers are made.
#[verifier::external_type_specification]
#[verifier::external_body]
pub struct ExXxh64Builder(xxhash_rust::xxh64::Xxh64Builder);

/// `xxhash_rust::xxh3::Xxh3`, the state of a hasher, kept in place.
#[verifier::external_type_specification]
#[verifier::external_body]
pub struct ExXxh3(xxhash_rust::xxh3::Xxh3);

/// `xxhash_rust::xxh3::Xxh3Builder`, the seed and secret from which hashers are made.
#[verifier::external_type_specification]
#[verifier::external_body]
pub struct ExXxh3Builder(xxhash_rust::xxh3::Xxh3Builder);

// The state of a hasher owns nothing.

impl SizeOf for ahash::AHasher {
    fn size_of_children(&self, _context: &mut Context) {
    }
}

impl SizeOf for ahash::RandomState {
    fn size_of_children(&self, _context: &mut Context) {
    }
}

impl SizeOf for fxhash::FxHasher {
    fn size_of_children(&self, _context: &mut Context) {
    }
}

impl SizeOf for fxhash::FxHasher32 {
    fn size_of_children(&self, _context: &mut Context) {
    }
}

impl SizeOf for fxhash::FxHasher64 {
    fn size_of_children(&self, _context: &mut Context) {
    }
}

impl SizeOf for xxhash_rust::xxh32::Xxh32 {
    fn size_of_children(&self, _context: &mut Context) {
    }
}

impl SizeOf for xxhash_rust::xxh64::Xxh64 {
    fn size_of_children(&self, _context: &mut Context) {
    }
}

impl SizeOf for xxhash_rust::xxh64::Xxh64Builder {
    fn size_of_children(&self, _context: &mut Context) {
    }
}

impl SizeOf for xxhash_rust::xxh3::Xxh3 {
    fn size_of_children(&self, _context: &mut Context) {
    }
}

impl SizeOf for xxhash_rust::xxh3::Xxh3Builder {
    fn size_of_children(&self, _context: &mut Context) {
    }
}

/// `ahash::AHashMap`, a hash map of std with the hasher of `ahash`.
#[verifier::external_type_specification]
#[verifier::external_body]
#[verifier::reject_recursive_types(K)]
#[verifier::reject_recursive_types(V)]
#[verifier::reject_recursive_types(S)]
pub struct ExAHashMap<K, V, S>(ahash::AHashMap<K, V, S>);

/// `ahash::AHashSet`, a hash set of std with the hasher of `ahash`.
#[verifier::external_type_specification]
#[verifier::external_body]
#[verifier::reject_recursive_types(T)]
#[verifier::reject_recursive_types(S)]
pub struct ExAHashSet<T, S>(ahash::AHashSet<T, S>);

/// The map of std that an `AHashMap` dereferences to. Nothing is claimed of
/// it.
#[verifier::external_body]
fn a_hash_map_inner<K, V, S>(map: &ahash::AHashMap<K, V, S>) -> &HashMap<K, V, S> {
    map
}

/// The set of std that an `AHashSet` dereferences to. Nothing is claimed of
/// it.
#[verifier::external_body]
fn a_hash_set_inner<T, S>(set: &ahash::AHashSet<T, S>) -> &HashSet<T, S> {
    set
}

impl<K: SizeOf, V: SizeOf, S: SizeOf> SizeOf for ahash::AHashMap<K, V, S> {
    open spec fn children_charged(&self, before: Tally, after: Tally) -> bool {
        exists|inner: HashMap<K, V, S>| #[trigger] inner.children_charged(before, after)
    }

    fn size_of_children(&self, context: &mut Context) {
        a_hash_map_inner(self).size_of_children(context);
    }
}

impl<T: SizeOf, S: SizeOf> SizeOf for ahash::AHashSet<T, S> {
    open spec fn children_charged(&self, before: Tally, after: Tally) -> bool {
        exists|inner: HashSet<T, S>| #[trigger] inner.children_charged(before, after)
    }

    fn size_of_children(&self, context: &mut Context) {
        a_hash_set_inner(self).size_of_children(context);
    }
}

} // verus!
