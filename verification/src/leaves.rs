//! Types that own nothing on the heap: measuring their children leaves
//! the context as it is.

use crate::context::Context;
use crate::measure::SizeOf;
use vstd::prelude::*;

verus! {

// Integers, `bool`, `char` and `str` own nothing.

impl SizeOf for bool {
    fn size_of_children(&self, _context: &mut Context) {
    }
}

impl SizeOf for char {
    fn size_of_children(&self, _context: &mut Context) {
    }
}

impl SizeOf for u8 {
    fn size_of_children(&self, _context: &mut Context) {
    }
}

impl SizeOf for i8 {
    fn size_of_children(&self, _context: &mut Context) {
    }
}

impl SizeOf for u16 {
    fn size_of_children(&self, _context: &mut Context) {
    }
}

impl SizeOf for i16 {
    fn size_of_children(&self, _context: &mut Context) {
    }
}

impl SizeOf for u32 {
    fn size_of_children(&self, _context: &mut Context) {
    }
}

impl SizeOf for i32 {
    fn size_of_children(&self, _context: &mut Context) {
    }
}

impl SizeOf for u64 {
    fn size_of_children(&self, _context: &mut Context) {
    }
}

impl SizeOf for i64 {
    fn size_of_children(&self, _context: &mut Context) {
    }
}

impl SizeOf for u128 {
    fn size_of_children(&self, _context: &mut Context) {
    }
}

impl SizeOf for i128 {
    fn size_of_children(&self, _context: &mut Context) {
    }
}

impl SizeOf for usize {
    fn size_of_children(&self, _context: &mut Context) {
    }
}

impl SizeOf for isize {
    fn size_of_children(&self, _context: &mut Context) {
    }
}

impl SizeOf for str {
    fn size_of_children(&self, _context: &mut Context) {
    }
}

// The unit value, a span of time and the type without values own nothing.

impl SizeOf for () {
    fn size_of_children(&self, _context: &mut Context) {
    }
}

impl SizeOf for core::time::Duration {
    fn size_of_children(&self, _context: &mut Context) {
    }
}

impl SizeOf for core::convert::Infallible {
    fn size_of_children(&self, _context: &mut Context) {
    }
}

// Atomic integers own nothing.

impl SizeOf for core::sync::atomic::AtomicBool {
    fn size_of_children(&self, _context: &mut Context) {
    }
}

impl SizeOf for core::sync::atomic::AtomicU8 {
    fn size_of_children(&self, _context: &mut Context) {
    }
}

impl SizeOf for core::sync::atomic::AtomicI8 {
    fn size_of_children(&self, _context: &mut Context) {
    }
}

impl SizeOf for core::sync::atomic::AtomicU16 {
    fn size_of_children(&self, _context: &mut Context) {
    }
}

impl SizeOf for core::sync::atomic::AtomicI16 {
    fn size_of_children(&self, _context: &mut Context) {
    }
}

impl SizeOf for core::sync::atomic::AtomicU32 {
    fn size_of_children(&self, _context: &mut Context) {
    }
}

impl SizeOf for core::sync::atomic::AtomicI32 {
    fn size_of_children(&self, _context: &mut Context) {
    }
}

impl SizeOf for core::sync::atomic::AtomicU64 {
    fn size_of_children(&self, _context: &mut Context) {
    }
}

impl SizeOf for core::sync::atomic::AtomicI64 {
    fn size_of_children(&self, _context: &mut Context) {
    }
}

impl SizeOf for core::sync::atomic::AtomicUsize {
    fn size_of_children(&self, _context: &mut Context) {
    }
}

impl SizeOf for core::sync::atomic::AtomicIsize {
    fn size_of_children(&self, _context: &mut Context) {
    }
}

// The seed of std's hasher owns nothing.

impl SizeOf for std::collections::hash_map::RandomState {
    fn size_of_children(&self, _context: &mut Context) {
    }
}

// A marker for a type holds no value of it.
impl<T> SizeOf for core::marker::PhantomData<T> {
    fn size_of_children(&self, _context: &mut Context) {
    }
}

// Storage that may not hold a value yet is not looked into.
impl<T> SizeOf for core::mem::MaybeUninit<T> {
    fn size_of_children(&self, _context: &mut Context) {
    }
}

/// `core::marker::PhantomPinned`, a marker for types that must not move.
#[verifier::external_type_specification]
#[verifier::external_body]
pub struct ExPhantomPinned(core::marker::PhantomPinned);

/// `core::alloc::Layout`, the size and alignment of a block of memory.
#[verifier::external_type_specification]
#[verifier::external_body]
pub struct ExLayout(core::alloc::Layout);

/// `core::any::TypeId`, the identity of a type.
#[verifier::external_type_specification]
#[verifier::external_body]
pub struct ExTypeId(core::any::TypeId);

/// `std::time::Instant`, a reading of a clock that never goes back.
#[verifier::external_type_specification]
#[verifier::external_body]
pub struct ExInstant(std::time::Instant);

/// `std::time::SystemTime`, a reading of the system's clock.
#[verifier::external_type_specification]
#[verifier::external_body]
pub struct ExSystemTime(std::time::SystemTime);

/// `std::sync::Barrier`, a point at which threads wait for each other.
#[verifier::external_type_specification]
#[verifier::external_body]
pub struct ExBarrier(std::sync::Barrier);

/// `std::sync::Condvar`, a condition on which threads wait.
#[verifier::external_type_specification]
#[verifier::external_body]
pub struct ExCondvar(std::sync::Condvar);

/// `core::future::Pending`, a future that never completes, without any value of `T`.
#[verifier::external_type_specification]
#[verifier::external_body]
#[verifier::reject_recursive_types(T)]
pub struct ExPending<T>(core::future::Pending<T>);

/// `core::hash::BuildHasherDefault`, a maker of default hashers, without any value of `T`.
#[verifier::external_type_specification]
#[verifier::external_body]
#[verifier::reject_recursive_types(T)]
pub struct ExBuildHasherDefault<T>(core::hash::BuildHasherDefault<T>);

/// `core::sync::atomic::AtomicPtr`, a raw pointer that is read and written atomically; what it points to is not owned.
#[verifier::external_type_specification]
#[verifier::external_body]
#[verifier::reject_recursive_types(T)]
pub struct ExAtomicPtr<T>(core::sync::atomic::AtomicPtr<T>);

/// `core::fmt::Arguments`, the pieces of a formatted message, borrowed.
#[verifier::external_type_specification]
#[verifier::external_body]
pub struct ExArguments<'a>(core::fmt::Arguments<'a>);

// What is borrowed is not owned.
impl<'a> SizeOf for core::fmt::Arguments<'a> {
    fn size_of_children(&self, _context: &mut Context) {
    }
}

// Markers, layouts, type identities, clock readings and the waiting points of
// threads own nothing.

impl SizeOf for core::marker::PhantomPinned {
    fn size_of_children(&self, _context: &mut Context) {
    }
}

impl SizeOf for core::alloc::Layout {
    fn size_of_children(&self, _context: &mut Context) {
    }
}

impl SizeOf for core::any::TypeId {
    fn size_of_children(&self, _context: &mut Context) {
    }
}

impl SizeOf for std::time::Instant {
    fn size_of_children(&self, _context: &mut Context) {
    }
}

impl SizeOf for std::time::SystemTime {
    fn size_of_children(&self, _context: &mut Context) {
    }
}

impl SizeOf for std::sync::Barrier {
    fn size_of_children(&self, _context: &mut Context) {
    }
}

impl SizeOf for std::sync::Condvar {
    fn size_of_children(&self, _context: &mut Context) {
    }
}

// These hold no value of their parameter.

impl<T> SizeOf for core::future::Pending<T> {
    fn size_of_children(&self, _context: &mut Context) {
    }
}

impl<T> SizeOf for core::hash::BuildHasherDefault<T> {
    fn size_of_children(&self, _context: &mut Context) {
    }
}

impl<T> SizeOf for core::sync::atomic::AtomicPtr<T> {
    fn size_of_children(&self, _context: &mut Context) {
    }
}

// What a query has counted is four numbers kept in place.
impl SizeOf for crate::total::TotalSize {
    fn size_of_children(&self, _context: &mut Context) {
    }
}

} // verus!
