//! Values made of other values: the children of the parts are the children
//! of the whole. The parts' own storage lies inside the whole and was
//! charged with it.

use crate::context::{Context, Tally};
use crate::measure::{each_charged, size_of_each, SizeOf};
use core::cmp::Reverse;
use core::mem::ManuallyDrop;
use core::num::Wrapping;
use core::ops::ControlFlow;
use core::task::Poll;
use std::borrow::Cow;
use vstd::prelude::*;

verus! {

/// `core::task::Poll`, a value that is ready or still pending.
#[verifier::external_type_specification]
#[verifier::reject_recursive_types(T)]
pub struct ExPoll<T>(Poll<T>);

/// `core::cmp::Reverse`, a value that is ordered the other way round.
#[verifier::external_type_specification]
#[verifier::reject_recursive_types(T)]
pub struct ExReverse<T>(Reverse<T>);

/// `core::num::Wrapping`, a number whose arithmetic wraps around.
#[verifier::external_type_specification]
#[verifier::reject_recursive_types(T)]
pub struct ExWrapping<T>(Wrapping<T>);

impl<T: SizeOf> SizeOf for [T] {
    open spec fn children_charged(&self, before: Tally, after: Tally) -> bool {
        each_charged(self@, before, after)
    }

    fn size_of_children(&self, context: &mut Context) {
        size_of_each(self, context);
    }
}

impl<T: SizeOf, const N: usize> SizeOf for [T; N] {
    open spec fn children_charged(&self, before: Tally, after: Tally) -> bool {
        each_charged(self@, before, after)
    }

    fn size_of_children(&self, context: &mut Context) {
        size_of_each(self.as_slice(), context);
    }
}

impl<T: SizeOf> SizeOf for Option<T> {
    open spec fn children_charged(&self, before: Tally, after: Tally) -> bool {
        match self {
            Some(inner) => inner.children_charged(before, after),
            None => after == before,
        }
    }

    fn size_of_children(&self, context: &mut Context) {
        if let Some(inner) = self {
            inner.size_of_children(context);
        }
    }
}

impl<T: SizeOf, E: SizeOf> SizeOf for Result<T, E> {
    open spec fn children_charged(&self, before: Tally, after: Tally) -> bool {
        match self {
            Ok(ok) => ok.children_charged(before, after),
            Err(err) => err.children_charged(before, after),
        }
    }

    fn size_of_children(&self, context: &mut Context) {
        match self {
            Ok(ok) => ok.size_of_children(context),
            Err(err) => err.size_of_children(context),
        }
    }
}

impl<C: SizeOf, B: SizeOf> SizeOf for ControlFlow<B, C> {
    open spec fn children_charged(&self, before: Tally, after: Tally) -> bool {
        match self {
            ControlFlow::Continue(cont) => cont.children_charged(before, after),
            ControlFlow::Break(brk) => brk.children_charged(before, after),
        }
    }

    fn size_of_children(&self, context: &mut Context) {
        match self {
            ControlFlow::Continue(cont) => cont.size_of_children(context),
            ControlFlow::Break(brk) => brk.size_of_children(context),
        }
    }
}

impl<T: SizeOf> SizeOf for ManuallyDrop<T> {
    open spec fn children_charged(&self, before: Tally, after: Tally) -> bool {
        self@.children_charged(before, after)
    }

    fn size_of_children(&self, context: &mut Context) {
        T::size_of_children(&**self, context);
    }
}


impl<T: SizeOf> SizeOf for Poll<T> {
    open spec fn children_charged(&self, before: Tally, after: Tally) -> bool {
        match self {
            Poll::Ready(ready) => ready.children_charged(before, after),
            Poll::Pending => after == before,
        }
    }

    fn size_of_children(&self, context: &mut Context) {
        if let Poll::Ready(ready) = self {
            ready.size_of_children(context);
        }
    }
}

impl<T: SizeOf> SizeOf for Wrapping<T> {
    open spec fn children_charged(&self, before: Tally, after: Tally) -> bool {
        self.0.children_charged(before, after)
    }

    fn size_of_children(&self, context: &mut Context) {
        self.0.size_of_children(context);
    }
}

impl<T: SizeOf> SizeOf for Reverse<T> {
    open spec fn children_charged(&self, before: Tally, after: Tally) -> bool {
        self.0.children_charged(before, after)
    }

    fn size_of_children(&self, context: &mut Context) {
        self.0.size_of_children(context);
    }
}

// Only what a `Cow` owns is charged: what it borrows belongs to another.
impl<'a, T: ToOwned + ?Sized + 'a> SizeOf for Cow<'a, T> where T::Owned: SizeOf {
    open spec fn children_charged(&self, before: Tally, after: Tally) -> bool {
        match self {
            Cow::Owned(owned) => owned.children_charged(before, after),
            Cow::Borrowed(_) => after == before,
        }
    }

    fn size_of_children(&self, context: &mut Context) {
        if let Cow::Owned(owned) = self {
            owned.size_of_children(context);
        }
    }
}

} // verus!
