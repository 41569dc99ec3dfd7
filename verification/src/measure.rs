//! The traversal protocol: what a value adds to a [`Context`] for itself and
//! for what it owns.

use crate::context::{Context, Tally};
use crate::total::{TotalSize, Totals};
use vstd::layout::spec_size_of_val;
use vstd::prelude::*;

verus! {

/// A value whose size can be asked for at run time.
///
/// A type says in a relation what the traversal of the things it owns does
/// to a tally: [`SizeOf::children_charged`] holds of the pairs of a tally
/// before and a tally after. It is a relation and not a function, because
/// the capacity of a buffer and the address of a shared allocation are not
/// part of a value's meaning. A type that owns nothing keeps the default:
/// the tally does not change.
///
/// Every value can be measured: the counters of a context do not overflow.
pub trait SizeOf {
    /// Whether charging the children of this value can turn `before` into
    /// `after`.
    open spec fn children_charged(&self, before: Tally, after: Tally) -> bool {
        after == before
    }

    /// Adds to `context` the size of everything this value owns, without the
    /// value's own storage.
    fn size_of_children(&self, context: &mut Context)
        ensures
            self.children_charged(old(context)@, final(context)@),
            final(context)@.extends(old(context)@),
    ;

    /// Adds to `context` the size of this value: its own storage, then
    /// everything it owns.
    fn size_of_with_context(&self, context: &mut Context)
        ensures
            self.children_charged(
                old(context)@.charge(spec_size_of_val::<Self>(self)),
                final(context)@,
            ),
            final(context)@.extends(old(context)@),
    {
        context.add(core::mem::size_of_val(self));
        self.size_of_children(context);
    }

    /// The total size of this value, measured on its own: what an empty
    /// tally holds after the value was charged to it, each counter as a
    /// `usize` can hold it.
    fn size_of(&self) -> (size: TotalSize)
        ensures
            exists|after: Tally|
                {
                    &&& #[trigger] self.children_charged(
                        Tally::empty().charge(spec_size_of_val::<Self>(self)),
                        after,
                    )
                    &&& after.extends(Tally::empty())
                    &&& after.totals.capped() == size@
                },
            size@.consistent(),
    {
        let mut context = Context::new();
        self.size_of_with_context(&mut context);
        context.total_size()
    }
}

/// Whether charging `value`, its own storage and then its children, can turn
/// `before` into `after`.
pub open spec fn whole_charged<T: SizeOf + ?Sized>(value: &T, before: Tally, after: Tally) -> bool {
    value.children_charged(before.charge(spec_size_of_val::<T>(value)), after)
}

/// Whether `totals` can be what `value` adds up to when it is measured on
/// its own: what an empty tally holds after the value was charged to it.
/// The size that is handed out is `totals.capped()`.
pub open spec fn measured<T: SizeOf + ?Sized>(value: &T, totals: Totals) -> bool {
    exists|after: Tally|
        {
            &&& #[trigger] value.children_charged(
                Tally::empty().charge(spec_size_of_val::<T>(value)),
                after,
            )
            &&& after.extends(Tally::empty())
            &&& after.totals == totals
        }
}

/// Whether charging the children of each of `values` in turn can turn
/// `before` into `after`.
pub open spec fn each_charged<T: SizeOf>(values: Seq<T>, before: Tally, after: Tally) -> bool
    decreases values.len(),
{
    if values.len() == 0 {
        after == before
    } else {
        exists|mid: Tally|
            {
                &&& #[trigger] values[0].children_charged(before, mid)
                &&& mid.extends(before)
                &&& each_charged(values.skip(1), mid, after)
            }
    }
}

/// Whether charging each of `values` in turn, own storage and children, can
/// turn `before` into `after`.
pub open spec fn all_charged(values: Seq<&dyn SizeOf>, before: Tally, after: Tally) -> bool
    decreases values.len(),
{
    if values.len() == 0 {
        after == before
    } else {
        exists|mid: Tally|
            {
                &&& #[trigger] whole_charged::<dyn SizeOf>(values[0], before, mid)
                &&& mid.extends(before)
                &&& all_charged(values.skip(1), mid, after)
            }
    }
}

/// Adds to `context` the children of each element of `values`, in order.
pub fn size_of_each<T: SizeOf>(values: &[T], context: &mut Context)
    ensures
        each_charged(values@, old(context)@, final(context)@),
        final(context)@.extends(old(context)@),
{
    let mut i: usize = 0;
    assert(values@.skip(0) == values@);
    while i < values.len()
        invariant
            i <= values.len(),
            context@.extends(old(context)@),
            forall|after: Tally|
                each_charged(values@.skip(i as int), context@, after) ==> each_charged(
                    values@,
                    old(context)@,
                    after,
                ),
        decreases values.len() - i,
    {
        let ghost here = context@;
        let ghost rest = values@.skip(i as int);
        assert(rest[0] == values@[i as int]);
        assert(rest.skip(1) == values@.skip(i + 1));
        values[i].size_of_children(context);
        proof {
            let there = context@;
            assert forall|after: Tally| each_charged(rest.skip(1), there, after) implies each_charged(
                values@,
                old(context)@,
                after,
            ) by {
                assert(rest[0].children_charged(here, there));
                assert(each_charged(rest, here, after));
            }
        }
        i = i + 1;
    }
    assert(values@.skip(i as int).len() == 0);
}

/// The total size of all the given values, measured together: an allocation
/// that several of them share is charged once.
pub fn size_of_values(values: &[&dyn SizeOf]) -> (size: TotalSize)
    ensures
        exists|after: Tally|
            {
                &&& #[trigger] all_charged(values@, Tally::empty(), after)
                &&& after.extends(Tally::empty())
                &&& after.totals.capped() == size@
            },
        size@.consistent(),
{
    let mut context = Context::new();
    let mut i: usize = 0;
    assert(values@.skip(0) == values@);
    while i < values.len()
        invariant
            i <= values.len(),
            context@.extends(Tally::empty()),
            forall|after: Tally|
                all_charged(values@.skip(i as int), context@, after) ==> all_charged(
                    values@,
                    Tally::empty(),
                    after,
                ),
        decreases values.len() - i,
    {
        let ghost here = context@;
        let ghost rest = values@.skip(i as int);
        assert(rest[0] == values@[i as int]);
        assert(rest.skip(1) == values@.skip(i + 1));
        let value = values[i];
        assert(value == rest[0]);
        <dyn SizeOf>::size_of_with_context(value, &mut context);
        proof {
            let there = context@;
            assert(whole_charged::<dyn SizeOf>(rest[0], here, there));
            assert forall|after: Tally| all_charged(rest.skip(1), there, after) implies all_charged(
                values@,
                Tally::empty(),
                after,
            ) by {
                assert(all_charged(rest, here, after));
            }
        }
        i = i + 1;
    }
    assert(values@.skip(i as int).len() == 0);
    assert(all_charged(values@.skip(i as int), context@, context@));
    assert(all_charged(values@, Tally::empty(), context@));
    context.total_size()
}

} // verus!
