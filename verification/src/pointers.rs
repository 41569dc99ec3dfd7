//! References and owning handles: what is borrowed is not charged, what is
//! owned alone is charged each time, and what is shared is charged once.

use crate::context::{Context, Tally};
use crate::measure::SizeOf;
use core::ops::Deref;
use core::pin::Pin;
use std::rc::Rc;
use std::sync::Arc;
use vstd::layout::spec_size_of_val;
use vstd::prelude::*;

verus! {

// A shared borrow does not own what it points to.
impl<T: SizeOf + ?Sized> SizeOf for &T {
    fn size_of_children(&self, _context: &mut Context) {
    }
}

// A unique borrow does not own what it points to either.
impl<T: SizeOf + ?Sized> SizeOf for &mut T {
    fn size_of_children(&self, _context: &mut Context) {
    }
}

impl Tally {
    /// The tally after the allocation of an exclusive handle was charged:
    /// `size` bytes and one allocation, or nothing at all for a pointee
    /// without size, for which no allocation exists.
    pub open spec fn charge_owned(self, size: nat) -> Tally {
        if size != 0 {
            self.charge(size).allocate(1)
        } else {
            self
        }
    }

    /// The tally at the start of a shared region that charges a pointee of
    /// `size` bytes found at `address`.
    pub open spec fn enter_shared(self, address: usize, size: nat) -> Tally {
        self.mark(address).sharing(true).charge(size)
    }

    /// The tally after a shared region that began at a tally whose flag was
    /// `shared` and ended at `self`: the flag is put back and the allocation
    /// counted.
    pub open spec fn leave_shared(self, shared: bool) -> Tally {
        self.sharing(shared).allocate(1)
    }
}

impl<T: SizeOf + ?Sized> SizeOf for Box<T> {
    open spec fn children_charged(&self, before: Tally, after: Tally) -> bool {
        (**self).children_charged(before.charge_owned(spec_size_of_val::<T>(&**self)), after)
    }

    fn size_of_children(&self, context: &mut Context) {
        let size: usize = core::mem::size_of_val::<T>(&**self);
        if size != 0 {
            context.add(size).add_distinct_allocation();
        }
        T::size_of_children(&**self, context);
    }
}

/// Whether charging a shared handle to `pointee`, whose allocation lies at
/// `address`, can turn `before` into `after`. An allocation that was seen
/// before adds nothing. One that is new is recorded, and the pointee and
/// its children are charged inside a shared region, with one allocation.
pub open spec fn shared_charged_at<T: SizeOf + ?Sized>(
    pointee: &T,
    address: usize,
    before: Tally,
    after: Tally,
) -> bool {
    if before.visited.contains(address) {
        after == before
    } else {
        let start = before.enter_shared(address, spec_size_of_val::<T>(pointee));
        exists|end: Tally|
            {
                &&& #[trigger] pointee.children_charged(start, end)
                &&& end.extends(start)
                &&& after == end.leave_shared(before.is_shared)
            }
    }
}

/// Whether charging a shared handle to `pointee` can turn `before` into
/// `after`, at some address.
pub open spec fn shared_charged<T: SizeOf + ?Sized>(pointee: &T, before: Tally, after: Tally) -> bool {
    exists|address: usize| #[trigger] shared_charged_at(pointee, address, before, after)
}

/// Charges the pointee of a shared handle whose allocation `context` has just
/// recorded as new: the pointee's own bytes and its children inside a shared
/// region, then one allocation.
pub fn size_of_shared<T: SizeOf + ?Sized>(pointee: &T, context: &mut Context)
    ensures
        exists|end: Tally|
            {
                &&& #[trigger] pointee.children_charged(
                    old(context)@.sharing(true).charge(spec_size_of_val::<T>(pointee)),
                    end,
                )
                &&& end.extends(old(context)@.sharing(true).charge(spec_size_of_val::<T>(pointee)))
                &&& final(context)@ == end.leave_shared(old(context)@.is_shared)
            },
        final(context)@.extends(old(context)@),
{
    let ghost start = context@.sharing(true).charge(spec_size_of_val::<T>(pointee));
    let ghost entered = context@.sharing(true);
    let charge_pointee = |inner: &mut Context|
        requires
            old(inner)@ == entered,
        ensures
            pointee.children_charged(start, final(inner)@),
            final(inner)@.extends(start),
        {
            inner.add(core::mem::size_of_val::<T>(pointee));
            pointee.size_of_children(inner);
        };
    context.shared(charge_pointee).add_distinct_allocation();
}

/// Charges a shared handle to `pointee` whose allocation lies at `address`:
/// nothing if `context` has seen the address, and else the pointee, once.
pub fn size_of_shared_at<T: SizeOf + ?Sized>(pointee: &T, address: usize, context: &mut Context)
    ensures
        shared_charged_at(pointee, address, old(context)@, final(context)@),
        final(context)@.extends(old(context)@),
{
    let ghost before = context@;
    if context.insert_ptr(address) {
        assert(before.enter_shared(address, spec_size_of_val::<T>(pointee)) == context@.sharing(
            true,
        ).charge(spec_size_of_val::<T>(pointee)));
        size_of_shared::<T>(pointee, context);
    } else {
        assert(before.mark(address).visited =~= before.visited);
    }
}

impl<T: SizeOf + ?Sized> SizeOf for Rc<T> {
    open spec fn children_charged(&self, before: Tally, after: Tally) -> bool {
        shared_charged::<T>(&**self, before, after)
    }

    fn size_of_children(&self, context: &mut Context) {
        let ghost before = context@;
        let fresh = context.insert_rc(self);
        let ghost address = choose|address: usize|
            fresh == !before.visited.contains(address) && context@ == #[trigger] before.mark(
                address,
            );
        if fresh {
            assert(before.enter_shared(address, spec_size_of_val::<T>(&**self)) == context@.sharing(
                true,
            ).charge(spec_size_of_val::<T>(&**self)));
            size_of_shared::<T>(&**self, context);
        } else {
            assert(before.mark(address).visited =~= before.visited);
        }
        assert(shared_charged_at::<T>(&**self, address, before, context@));
    }
}

impl<T: SizeOf + ?Sized> SizeOf for Arc<T> {
    open spec fn children_charged(&self, before: Tally, after: Tally) -> bool {
        shared_charged::<T>(&**self, before, after)
    }

    fn size_of_children(&self, context: &mut Context) {
        let ghost before = context@;
        let fresh = context.insert_arc(self);
        let ghost address = choose|address: usize|
            fresh == !before.visited.contains(address) && context@ == #[trigger] before.mark(
                address,
            );
        if fresh {
            assert(before.enter_shared(address, spec_size_of_val::<T>(&**self)) == context@.sharing(
                true,
            ).charge(spec_size_of_val::<T>(&**self)));
            size_of_shared::<T>(&**self, context);
        } else {
            assert(before.mark(address).visited =~= before.visited);
        }
        assert(shared_charged_at::<T>(&**self, address, before, context@));
    }
}

/// `core::pin::Pin`, a pointer to a value that will not move.
#[verifier::external_type_specification]
#[verifier::external_body]
#[verifier::reject_recursive_types(P)]
pub struct ExPin<P>(Pin<P>);

/// The value that a `Pin` dereferences to, through the pointer it holds.
/// Nothing is claimed of it.
#[verifier::external_body]
fn pin_target<'a, P: Deref>(pin: &'a Pin<P>) -> &'a P::Target {
    pin
}

// A pinned pointer is measured as what it points to, which it is taken to
// own.
impl<P: Deref> SizeOf for Pin<P> where P::Target: SizeOf {
    open spec fn children_charged(&self, before: Tally, after: Tally) -> bool {
        exists|target: &P::Target| #[trigger] target.children_charged(before, after)
    }

    fn size_of_children(&self, context: &mut Context) {
        let target = pin_target(self);
        <P::Target as SizeOf>::size_of_children(target, context);
    }
}

} // verus!
