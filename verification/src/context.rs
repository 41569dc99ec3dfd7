//! The accumulator of one size query: running totals, the set of shared
//! allocations that were already charged, and the flag of a shared region.

use crate::estimate::{capped_btree_size, BTreeNode};
use crate::measure::SizeOf;
use crate::total::{capped, TotalSize, Totals};
use std::collections::BTreeSet;
use std::rc::Rc;
use std::sync::Arc;
use vstd::layout::size_of;
use vstd::prelude::*;

verus! {

/// The mathematical value of a [`Context`].
pub struct Tally {
    /// The four counters.
    pub totals: Totals,
    /// Whether bytes that are charged now count as shared too.
    pub is_shared: bool,
    /// The addresses of the allocations that were charged already.
    pub visited: Set<usize>,
}

impl Tally {
    /// The value of a fresh context: nothing charged, nothing visited, not shared.
    pub open spec fn empty() -> Tally {
        Tally { totals: Totals::zero(), is_shared: false, visited: Set::empty() }
    }

    /// The bytes that a charge of `bytes` adds to the shared counter.
    pub open spec fn shared_part(self, bytes: nat) -> nat {
        if self.is_shared {
            bytes
        } else {
            0
        }
    }

    /// `bytes` more in the total and `excess` more in the excess, and `bytes`
    /// more in the shared bytes inside a shared region.
    pub open spec fn charge_both(self, bytes: nat, excess: nat) -> Tally {
        Tally {
            totals: Totals {
                total_bytes: self.totals.total_bytes + bytes,
                excess_bytes: self.totals.excess_bytes + excess,
                shared_bytes: self.totals.shared_bytes + self.shared_part(bytes),
                ..self.totals
            },
            ..self
        }
    }

    /// `bytes` more in the total, and in the shared bytes inside a shared region.
    pub open spec fn charge(self, bytes: nat) -> Tally {
        Tally {
            totals: Totals {
                total_bytes: self.totals.total_bytes + bytes,
                shared_bytes: self.totals.shared_bytes + self.shared_part(bytes),
                ..self.totals
            },
            ..self
        }
    }

    /// `bytes` more in the total and in the excess, and in the shared bytes
    /// inside a shared region.
    pub open spec fn charge_excess(self, bytes: nat) -> Tally {
        Tally {
            totals: Totals {
                total_bytes: self.totals.total_bytes + bytes,
                excess_bytes: self.totals.excess_bytes + bytes,
                shared_bytes: self.totals.shared_bytes + self.shared_part(bytes),
                ..self.totals
            },
            ..self
        }
    }

    /// `bytes` more in the shared bytes alone.
    pub open spec fn charge_shared(self, bytes: nat) -> Tally {
        Tally {
            totals: Totals { shared_bytes: self.totals.shared_bytes + bytes, ..self.totals },
            ..self
        }
    }

    /// A buffer of `capacity` elements of `element_size` bytes, `len` of them
    /// in use: all of it in the total, the unused part in the excess.
    pub open spec fn charge_vector(self, len: nat, capacity: nat, element_size: nat) -> Tally {
        Tally {
            totals: Totals {
                total_bytes: self.totals.total_bytes + capacity * element_size,
                excess_bytes: self.totals.excess_bytes + ((capacity - len) * element_size) as nat,
                shared_bytes: self.totals.shared_bytes + self.shared_part(
                    capacity * element_size,
                ),
                ..self.totals
            },
            ..self
        }
    }

    /// `count` more distinct allocations.
    pub open spec fn allocate(self, count: nat) -> Tally {
        Tally {
            totals: Totals {
                distinct_allocations: self.totals.distinct_allocations + count,
                ..self.totals
            },
            ..self
        }
    }

    /// The allocation at `address` counts as charged.
    pub open spec fn mark(self, address: usize) -> Tally {
        Tally { visited: self.visited.insert(address), ..self }
    }

    /// The same tally inside (`true`) or outside (`false`) a shared region.
    pub open spec fn sharing(self, shared: bool) -> Tally {
        Tally { is_shared: shared, ..self }
    }

    /// What holds of a tally `self` that a traversal made of `before`: the
    /// flag is as it was, nothing visited was forgotten, no counter went down,
    /// excess and shared bytes grew by no more than the total, and inside a
    /// shared region every new byte is a shared byte.
    pub open spec fn extends(self, before: Tally) -> bool {
        &&& self.is_shared == before.is_shared
        &&& before.visited.subset_of(self.visited)
        &&& self.totals.covers(before.totals)
        &&& self.totals.excess_bytes - before.totals.excess_bytes <= self.totals.total_bytes
            - before.totals.total_bytes
        &&& self.totals.shared_bytes - before.totals.shared_bytes <= self.totals.total_bytes
            - before.totals.total_bytes
        &&& before.is_shared ==> self.totals.shared_bytes - before.totals.shared_bytes
            == self.totals.total_bytes - before.totals.total_bytes
    }
}

/// The state of one size query. It is made empty, handed to the traversal of
/// one or more values, and read with [`Context::total_size`].
///
/// The counters never overflow: one that would exceed `usize::MAX` stays
/// there. The value of a context holds the sums as they are.
pub struct Context {
    counters: Counters,
    is_shared: bool,
    pointers: BTreeSet<usize>,
}

/// The four running counters, each beside the sum that it stands for. A
/// counter is its sum, or `usize::MAX` if the sum is greater. Of the sums,
/// the excess and the shared bytes never exceed the total.
struct Counters {
    total_bytes: usize,
    excess_bytes: usize,
    shared_bytes: usize,
    distinct_allocations: usize,
    sums: Ghost<Totals>,
}

impl Counters {
    #[verifier::type_invariant]
    spec fn well_formed(&self) -> bool {
        &&& self.sums@.consistent()
        &&& self.total_bytes == capped(self.sums@.total_bytes)
        &&& self.excess_bytes == capped(self.sums@.excess_bytes)
        &&& self.shared_bytes == capped(self.sums@.shared_bytes)
        &&& self.distinct_allocations == capped(self.sums@.distinct_allocations)
    }
}

impl View for Context {
    type V = Tally;

    closed spec fn view(&self) -> Tally {
        Tally { totals: self.counters.sums@, is_shared: self.is_shared, visited: self.pointers@ }
    }
}

/// The address of the allocation behind an `Rc`, from `Rc::as_ptr`. Nothing
/// is claimed of the number: two handles with equal contents may or may not
/// share an allocation.
#[verifier::external_body]
fn rc_address<T: ?Sized>(rc: &Rc<T>) -> usize {
    Rc::as_ptr(rc).addr()
}

/// The address of the allocation behind an `Arc`, from `Arc::as_ptr`. Nothing
/// is claimed of the number.
#[verifier::external_body]
fn arc_address<T: ?Sized>(arc: &Arc<T>) -> usize {
    Arc::as_ptr(arc).addr()
}

impl Context {
    /// A context that has charged nothing and visited nothing.
    pub fn new() -> (context: Self)
        ensures
            context@ == Tally::empty(),
    {
        Self {
            counters: Counters {
                total_bytes: 0,
                excess_bytes: 0,
                shared_bytes: 0,
                distinct_allocations: 0,
                sums: Ghost(Totals::zero()),
            },
            is_shared: false,
            pointers: BTreeSet::new(),
        }
    }

    /// Whether bytes that are charged now count as shared too.
    pub fn is_shared(&self) -> (shared: bool)
        ensures
            shared == self@.is_shared,
    {
        self.is_shared
    }

    /// Runs `with_shared` on this context inside a shared region, and puts
    /// the flag back to what it was before.
    pub fn shared<F>(&mut self, with_shared: F) -> (this: &mut Self) where F: FnOnce(&mut Self)
        requires
            forall|inner: &mut Context|
                inner@ == old(self)@.sharing(true) ==> #[trigger] call_requires(
                    with_shared,
                    (inner,),
                ),
        ensures
            exists|inner: &mut Context|
                {
                    &&& inner@ == old(self)@.sharing(true)
                    &&& #[trigger] call_ensures(with_shared, (inner,), ())
                    &&& this@ == final(inner)@.sharing(old(self)@.is_shared)
                },
            *final(self) == *final(this),
    {
        let prev = self.is_shared;
        self.is_shared = true;
        with_shared(self);
        self.is_shared = prev;
        self
    }

    /// Adds `bytes` to the total and `excess` to the excess, and `bytes` to
    /// the shared bytes inside a shared region. The numbers given are the
    /// amounts as a `usize` can hold them.
    fn charge(
        &mut self,
        bytes: usize,
        excess: usize,
        Ghost(exact_bytes): Ghost<nat>,
        Ghost(exact_excess): Ghost<nat>,
    )
        requires
            bytes == capped(exact_bytes),
            excess == capped(exact_excess),
            exact_excess <= exact_bytes,
        ensures
            final(self)@ == old(self)@.charge_both(exact_bytes, exact_excess),
    {
        proof {
            use_type_invariant(&self.counters);
        }
        let ghost sums = self@.charge_both(exact_bytes, exact_excess).totals;
        let shared_bytes = if self.is_shared {
            self.counters.shared_bytes.saturating_add(bytes)
        } else {
            self.counters.shared_bytes
        };
        self.counters = Counters {
            total_bytes: self.counters.total_bytes.saturating_add(bytes),
            excess_bytes: self.counters.excess_bytes.saturating_add(excess),
            shared_bytes,
            distinct_allocations: self.counters.distinct_allocations,
            sums: Ghost(sums),
        };
    }

    /// Counts one more distinct allocation.
    pub fn add_distinct_allocation(&mut self) -> (this: &mut Self)
        ensures
            this@ == old(self)@.allocate(1),
            *final(self) == *final(this),
    {
        self.add_distinct_allocations(1)
    }

    /// Counts `allocations` more distinct allocations.
    pub fn add_distinct_allocations(&mut self, allocations: usize) -> (this: &mut Self)
        ensures
            this@ == old(self)@.allocate(allocations as nat),
            *final(self) == *final(this),
    {
        proof {
            use_type_invariant(&self.counters);
        }
        let ghost sums = self@.allocate(allocations as nat).totals;
        self.counters = Counters {
            total_bytes: self.counters.total_bytes,
            excess_bytes: self.counters.excess_bytes,
            shared_bytes: self.counters.shared_bytes,
            distinct_allocations: self.counters.distinct_allocations.saturating_add(allocations),
            sums: Ghost(sums),
        };
        self
    }

    /// Adds `size` to the total bytes, and to the shared bytes inside a
    /// shared region.
    pub fn add(&mut self, size: usize) -> (this: &mut Self)
        ensures
            this@ == old(self)@.charge(size as nat),
            *final(self) == *final(this),
    {
        self.charge(size, 0, Ghost(size as nat), Ghost(0));
        self
    }

    /// Adds `size` to the shared bytes alone. The shared bytes stay a part of
    /// the total, so the total must have room for them.
    pub fn add_shared(&mut self, size: usize) -> (this: &mut Self)
        requires
            old(self)@.totals.shared_bytes + size <= old(self)@.totals.total_bytes,
        ensures
            this@ == old(self)@.charge_shared(size as nat),
            *final(self) == *final(this),
    {
        proof {
            use_type_invariant(&self.counters);
        }
        let ghost sums = self@.charge_shared(size as nat).totals;
        self.counters = Counters {
            total_bytes: self.counters.total_bytes,
            excess_bytes: self.counters.excess_bytes,
            shared_bytes: self.counters.shared_bytes.saturating_add(size),
            distinct_allocations: self.counters.distinct_allocations,
            sums: Ghost(sums),
        };
        self
    }

    /// Adds `size` to the total and to the excess bytes, and to the shared
    /// bytes inside a shared region.
    pub fn add_excess(&mut self, size: usize) -> (this: &mut Self)
        ensures
            this@ == old(self)@.charge_excess(size as nat),
            *final(self) == *final(this),
    {
        self.charge(size, size, Ghost(size as nat), Ghost(size as nat));
        self
    }

    /// Charges `len` elements of `element_size` bytes each, all of them in use.
    pub fn add_arraylike(&mut self, len: usize, element_size: usize) -> (this: &mut Self)
        ensures
            this@ == old(self)@.charge((len * element_size) as nat),
            *final(self) == *final(this),
    {
        proof {
            assert(0 <= len * element_size) by (nonlinear_arith);
        }
        let bytes: usize = match len.checked_mul(element_size) {
            Some(bytes) => bytes,
            None => usize::MAX,
        };
        self.charge(bytes, 0, Ghost((len * element_size) as nat), Ghost(0));
        self
    }

    /// Charges a buffer of `capacity` elements of `element_size` bytes each,
    /// of which `len` are in use: the whole buffer in the total, and the
    /// `capacity - len` unused elements in the excess.
    pub fn add_vectorlike(&mut self, len: usize, capacity: usize, element_size: usize) -> (this:
        &mut Self)
        requires
            len <= capacity,
        ensures
            this@ == old(self)@.charge_vector(len as nat, capacity as nat, element_size as nat),
            *final(self) == *final(this),
    {
        proof {
            assert(0 <= (capacity - len) * element_size <= capacity * element_size)
                by (nonlinear_arith)
                requires
                    0 <= len <= capacity,
                    0 <= element_size,
            ;
        }
        let allocated: usize = match capacity.checked_mul(element_size) {
            Some(allocated) => allocated,
            None => usize::MAX,
        };
        let unused: usize = match (capacity - len).checked_mul(element_size) {
            Some(unused) => unused,
            None => usize::MAX,
        };
        self.charge(
            allocated,
            unused,
            Ghost((capacity * element_size) as nat),
            Ghost(((capacity - len) * element_size) as nat),
        );
        self
    }

    /// Records the allocation at `address` as charged. Returns `true` if it
    /// was not recorded before, `false` if the context had seen it.
    pub fn insert_ptr(&mut self, address: usize) -> (fresh: bool)
        ensures
            fresh == !old(self)@.visited.contains(address),
            final(self)@ == old(self)@.mark(address),
    {
        self.pointers.insert(address)
    }

    /// Records the allocation at `address` as charged, whether or not the
    /// context had seen it.
    pub fn add_ptr(&mut self, address: usize) -> (this: &mut Self)
        ensures
            this@ == old(self)@.mark(address),
            *final(self) == *final(this),
    {
        self.insert_ptr(address);
        self
    }

    /// Whether the allocation at `address` was recorded as charged.
    pub fn contains_ptr(&self, address: usize) -> (seen: bool)
        ensures
            seen == self@.visited.contains(address),
    {
        self.pointers.contains(&address)
    }

    /// Records the allocation behind `rc`, under whatever address it has.
    /// Returns `true` if the context had not seen that address.
    pub fn insert_rc<T: ?Sized>(&mut self, rc: &Rc<T>) -> (fresh: bool)
        ensures
            exists|address: usize|
                {
                    &&& fresh == !old(self)@.visited.contains(address)
                    &&& final(self)@ == #[trigger] old(self)@.mark(address)
                },
    {
        let address = rc_address(rc);
        self.insert_ptr(address)
    }

    /// Records the allocation behind `arc`, under whatever address it has.
    /// Returns `true` if the context had not seen that address.
    pub fn insert_arc<T: ?Sized>(&mut self, arc: &Arc<T>) -> (fresh: bool)
        ensures
            exists|address: usize|
                {
                    &&& fresh == !old(self)@.visited.contains(address)
                    &&& final(self)@ == #[trigger] old(self)@.mark(address)
                },
    {
        let address = arc_address(arc);
        self.insert_ptr(address)
    }

    /// The four counters as they stand: each sum, or `usize::MAX` where the
    /// sum is greater. The context is left as it is, so a later reading
    /// minus an earlier one is what was charged in between.
    pub fn total_size(&self) -> (size: TotalSize)
        ensures
            size@ == self@.totals.capped(),
            self@.totals.consistent(),
            size@.consistent(),
    {
        proof {
            use_type_invariant(&self.counters);
        }
        TotalSize::new(
            self.counters.total_bytes,
            self.counters.excess_bytes,
            self.counters.shared_bytes,
            self.counters.distinct_allocations,
        )
    }
}

// A context owns the record of the addresses it has seen, an ordered set
// of numbers, which own nothing themselves.
impl SizeOf for Context {
    open spec fn children_charged(&self, before: Tally, after: Tally) -> bool {
        after == before.charge_tree(self@.visited.len(), size_of::<BTreeNode<usize, ()>>())
    }

    fn size_of_children(&self, context: &mut Context) {
        broadcast use vstd::std_specs::btree::group_btree_axioms;

        let length = self.pointers.len();
        if length != 0 {
            context.add(capped_btree_size::<usize, ()>(length)).add_distinct_allocation();
        }
    }
}

impl Clone for Context {
    fn clone(&self) -> (copy: Self)
        ensures
            copy@ == self@,
    {
        proof {
            use_type_invariant(&self.counters);
        }
        Self {
            counters: Counters {
                total_bytes: self.counters.total_bytes,
                excess_bytes: self.counters.excess_bytes,
                shared_bytes: self.counters.shared_bytes,
                distinct_allocations: self.counters.distinct_allocations,
                sums: Ghost(self.counters.sums@),
            },
            is_shared: self.is_shared,
            pointers: self.pointers.clone(),
        }
    }
}

impl core::default::Default for Context {
    fn default() -> (context: Self)
        ensures
            context@ == Tally::empty(),
    {
        Self::new()
    }
}

} // verus!
