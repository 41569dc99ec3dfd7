//! Cells and locks: what lies inside is looked at only if it can be had at
//! once. A cell that is borrowed, or a lock that is held or poisoned,
//! contributes nothing.

use crate::context::{Context, Tally};
use crate::measure::SizeOf;
use core::cell::{Cell, Ref, RefCell};
use std::sync::{Mutex, MutexGuard, Once, RwLock, RwLockReadGuard};
use vstd::layout::size_of;
use vstd::prelude::*;

verus! {

/// `core::cell::Cell`, a value that can be replaced through a shared borrow.
#[verifier::external_type_specification]
#[verifier::external_body]
#[verifier::reject_recursive_types(T)]
pub struct ExCell<T: ?Sized>(Cell<T>);

/// `core::cell::RefCell`, a value whose borrows are counted at run time.
#[verifier::external_type_specification]
#[verifier::external_body]
#[verifier::reject_recursive_types(T)]
pub struct ExRefCell<T: ?Sized>(RefCell<T>);

/// `core::cell::Ref`, a shared borrow of what a `RefCell` holds.
#[verifier::external_type_specification]
#[verifier::external_body]
#[verifier::reject_recursive_types(T)]
pub struct ExRef<'b, T: ?Sized>(Ref<'b, T>);

/// `std::sync::Mutex`, a value behind a lock.
#[verifier::external_type_specification]
#[verifier::external_body]
#[verifier::reject_recursive_types(T)]
pub struct ExMutex<T: ?Sized>(Mutex<T>);

/// `std::sync::MutexGuard`, the hold on a `Mutex`.
#[verifier::external_type_specification]
#[verifier::external_body]
#[verifier::reject_recursive_types(T)]
pub struct ExMutexGuard<'a, T: ?Sized + 'a>(MutexGuard<'a, T>);

/// `std::sync::RwLock`, a value behind a lock for many readers or one writer.
#[verifier::external_type_specification]
#[verifier::external_body]
#[verifier::reject_recursive_types(T)]
pub struct ExRwLock<T: ?Sized>(RwLock<T>);

/// `std::sync::RwLockReadGuard`, the hold of one reader on an `RwLock`.
#[verifier::external_type_specification]
#[verifier::external_body]
#[verifier::reject_recursive_types(T)]
pub struct ExRwLockReadGuard<'a, T: ?Sized>(RwLockReadGuard<'a, T>);

/// `std::sync::Once`, a flag for what must run one time only.
#[verifier::external_type_specification]
#[verifier::external_body]
pub struct ExOnce(Once);

/// Whether charging the children of whatever value of `T` lies inside, if it
/// can be had, can turn `before` into `after`.
pub open spec fn inner_charged<T: SizeOf>(before: Tally, after: Tally) -> bool {
    after == before || exists|inner: T| #[trigger] inner.children_charged(before, after)
}

/// `Cell::get`: a copy of the value in the cell. Nothing is claimed of it.
#[verifier::external_body]
fn cell_get<T: Copy>(cell: &Cell<T>) -> T {
    cell.get()
}

impl<T: Copy + SizeOf> SizeOf for Cell<T> {
    open spec fn children_charged(&self, before: Tally, after: Tally) -> bool {
        exists|inner: T| #[trigger] inner.children_charged(before, after)
    }

    fn size_of_children(&self, context: &mut Context) {
        cell_get(self).size_of_children(context);
    }
}

/// `RefCell::try_borrow`: a shared borrow of the value in the cell, or
/// `None` while it is borrowed uniquely.
#[verifier::external_body]
fn ref_cell_try_borrow<T>(cell: &RefCell<T>) -> Option<Ref<'_, T>> {
    cell.try_borrow().ok()
}

/// The value that a `Ref` dereferences to. Nothing is claimed of it.
#[verifier::external_body]
fn ref_target<'a, 'b, T>(borrow: &'a Ref<'b, T>) -> &'a T {
    borrow
}

impl<T: SizeOf> SizeOf for RefCell<T> {
    open spec fn children_charged(&self, before: Tally, after: Tally) -> bool {
        inner_charged::<T>(before, after)
    }

    fn size_of_children(&self, context: &mut Context) {
        match ref_cell_try_borrow(self) {
            Some(borrow) => size_of_inner(Some(ref_target(&borrow)), context),
            None => size_of_inner::<T>(None, context),
        }
    }
}

/// `Mutex::try_lock`: the hold on the lock, or `None` if another holds it
/// or it is poisoned. It does not wait.
#[verifier::external_body]
fn mutex_try_lock<T>(mutex: &Mutex<T>) -> Option<MutexGuard<'_, T>> {
    mutex.try_lock().ok()
}

/// The value that a `MutexGuard` dereferences to. Nothing is claimed of it.
#[verifier::external_body]
fn mutex_guard_target<'a, 'b, T>(guard: &'a MutexGuard<'b, T>) -> &'a T {
    guard
}

impl<T: SizeOf> SizeOf for Mutex<T> {
    open spec fn children_charged(&self, before: Tally, after: Tally) -> bool {
        inner_charged::<T>(before, after)
    }

    fn size_of_children(&self, context: &mut Context) {
        match mutex_try_lock(self) {
            Some(guard) => size_of_inner(Some(mutex_guard_target(&guard)), context),
            None => size_of_inner::<T>(None, context),
        }
    }
}

/// `RwLock::try_read`: the hold of a reader on the lock, or `None` if a
/// writer holds it or it is poisoned. It does not wait.
#[verifier::external_body]
fn rw_lock_try_read<T>(lock: &RwLock<T>) -> Option<RwLockReadGuard<'_, T>> {
    lock.try_read().ok()
}

/// The value that an `RwLockReadGuard` dereferences to. Nothing is claimed
/// of it.
#[verifier::external_body]
fn read_guard_target<'a, 'b, T>(guard: &'a RwLockReadGuard<'b, T>) -> &'a T {
    guard
}

impl<T: SizeOf> SizeOf for RwLock<T> {
    open spec fn children_charged(&self, before: Tally, after: Tally) -> bool {
        inner_charged::<T>(before, after)
    }

    fn size_of_children(&self, context: &mut Context) {
        match rw_lock_try_read(self) {
            Some(guard) => size_of_inner(Some(read_guard_target(&guard)), context),
            None => size_of_inner::<T>(None, context),
        }
    }
}

/// A stand-in for the record of one thread that waits on a `Once`: a handle
/// to the thread, a flag, and a link to the next record.
pub struct OnceWaiter {
    thread: Option<Box<u8>>,
    signaled: bool,
    next: usize,
}

// A `Once` is taken to point to one record of a waiting thread. How many
// there are, and what the thread holds, cannot be seen from outside.
impl SizeOf for Once {
    open spec fn children_charged(&self, before: Tally, after: Tally) -> bool {
        after == before.charge(size_of::<OnceWaiter>()).allocate(1)
    }

    fn size_of_children(&self, context: &mut Context) {
        context.add(core::mem::size_of::<OnceWaiter>()).add_distinct_allocation();
    }
}

/// Whether charging what a cell, a lock or an item gave out turns `before`
/// into `after`: the children of the value that was had, or nothing where
/// none was had.
pub open spec fn had_charged<T: SizeOf + ?Sized>(
    inner: Option<&T>,
    before: Tally,
    after: Tally,
) -> bool {
    match inner {
        Some(value) => value.children_charged(before, after),
        None => after == before,
    }
}

/// Charges to `context` the children of the value that a cell, a lock or an
/// item gave out. One that gave nothing, because it was borrowed, held or
/// poisoned, or owns nothing, is passed over: the context stays as it is.
pub fn size_of_inner<T: SizeOf + ?Sized>(inner: Option<&T>, context: &mut Context)
    ensures
        had_charged(inner, old(context)@, final(context)@),
        final(context)@.extends(old(context)@),
{
    if let Some(value) = inner {
        value.size_of_children(context);
    }
}

} // verus!
