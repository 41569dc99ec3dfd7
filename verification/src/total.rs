//! The result of a size query: four counters, frozen, and their algebra.

use vstd::prelude::*;

verus! {

/// The mathematical value of a [`TotalSize`]: four natural numbers.
pub struct Totals {
    /// All bytes that were charged.
    pub total_bytes: nat,
    /// The part of `total_bytes` that is allocated but unused.
    pub excess_bytes: nat,
    /// The part of `total_bytes` that was charged inside a shared region.
    pub shared_bytes: nat,
    /// The number of heap allocations that were charged.
    pub distinct_allocations: nat,
}

impl Totals {
    /// The identity of [`Totals::plus`].
    pub open spec fn zero() -> Totals {
        Totals { total_bytes: 0, excess_bytes: 0, shared_bytes: 0, distinct_allocations: 0 }
    }

    /// `total` bytes and nothing else.
    pub open spec fn only(total: nat) -> Totals {
        Totals { total_bytes: total, excess_bytes: 0, shared_bytes: 0, distinct_allocations: 0 }
    }

    /// The sum, counter by counter.
    pub open spec fn plus(self, rhs: Totals) -> Totals {
        Totals {
            total_bytes: self.total_bytes + rhs.total_bytes,
            excess_bytes: self.excess_bytes + rhs.excess_bytes,
            shared_bytes: self.shared_bytes + rhs.shared_bytes,
            distinct_allocations: self.distinct_allocations + rhs.distinct_allocations,
        }
    }

    /// Whether every counter of `self` is at least that of `rhs`, so that
    /// [`Totals::minus`] loses nothing.
    pub open spec fn covers(self, rhs: Totals) -> bool {
        &&& self.total_bytes >= rhs.total_bytes
        &&& self.excess_bytes >= rhs.excess_bytes
        &&& self.shared_bytes >= rhs.shared_bytes
        &&& self.distinct_allocations >= rhs.distinct_allocations
    }

    /// The difference, counter by counter; meaningful where `self.covers(rhs)`.
    pub open spec fn minus(self, rhs: Totals) -> Totals {
        Totals {
            total_bytes: (self.total_bytes - rhs.total_bytes) as nat,
            excess_bytes: (self.excess_bytes - rhs.excess_bytes) as nat,
            shared_bytes: (self.shared_bytes - rhs.shared_bytes) as nat,
            distinct_allocations: (self.distinct_allocations - rhs.distinct_allocations) as nat,
        }
    }

    /// Whether every counter can be held in a `usize`.
    pub open spec fn fits(self) -> bool {
        &&& self.total_bytes <= usize::MAX
        &&& self.excess_bytes <= usize::MAX
        &&& self.shared_bytes <= usize::MAX
        &&& self.distinct_allocations <= usize::MAX
    }

    /// The counters as a `usize` can hold them: each one that is greater
    /// than `usize::MAX` is put down to it.
    pub open spec fn capped(self) -> Totals {
        Totals {
            total_bytes: capped(self.total_bytes),
            excess_bytes: capped(self.excess_bytes),
            shared_bytes: capped(self.shared_bytes),
            distinct_allocations: capped(self.distinct_allocations),
        }
    }

    /// Excess and shared bytes are parts of the total.
    pub open spec fn consistent(self) -> bool {
        &&& self.excess_bytes <= self.total_bytes
        &&& self.shared_bytes <= self.total_bytes
    }

    /// The sum of a sequence of values, from the left.
    pub open spec fn sum(values: Seq<Totals>) -> Totals
        decreases values.len(),
    {
        if values.len() == 0 {
            Totals::zero()
        } else {
            Totals::sum(values.drop_last()).plus(values.last())
        }
    }
}

/// `count` as a `usize` can hold it: `usize::MAX` for any greater number.
pub open spec fn capped(count: nat) -> nat {
    if count > usize::MAX {
        usize::MAX as nat
    } else {
        count
    }
}

/// The total space taken up by a value, heap allocations included.
#[derive(Debug, Clone, Copy, PartialEq, Eq, Structural, PartialOrd, Ord, Hash)]
pub struct TotalSize {
    total_bytes: usize,
    excess_bytes: usize,
    shared_bytes: usize,
    distinct_allocations: usize,
}

impl View for TotalSize {
    type V = Totals;

    closed spec fn view(&self) -> Totals {
        Totals {
            total_bytes: self.total_bytes as nat,
            excess_bytes: self.excess_bytes as nat,
            shared_bytes: self.shared_bytes as nat,
            distinct_allocations: self.distinct_allocations as nat,
        }
    }
}

impl TotalSize {
    /// Two sizes with the same counters are the same size, and every counter
    /// of a size fits in a `usize`.
    pub proof fn view_is_exact(self, other: TotalSize)
        ensures
            self@.fits(),
            self@ == other@ <==> self == other,
    {
    }

    /// The size with the four given counters.
    pub fn new(
        total_bytes: usize,
        excess_bytes: usize,
        shared_bytes: usize,
        distinct_allocations: usize,
    ) -> (size: Self)
        ensures
            size@ == (Totals {
                total_bytes: total_bytes as nat,
                excess_bytes: excess_bytes as nat,
                shared_bytes: shared_bytes as nat,
                distinct_allocations: distinct_allocations as nat,
            }),
    {
        Self { total_bytes, excess_bytes, shared_bytes, distinct_allocations }
    }

    /// The size whose counters are all zero.
    pub fn zero() -> (size: Self)
        ensures
            size@ == Totals::zero(),
    {
        Self::new(0, 0, 0, 0)
    }

    /// `total` bytes, none of them excess or shared, and no allocation.
    pub fn total(total: usize) -> (size: Self)
        ensures
            size@ == Totals::only(total as nat),
    {
        Self::new(total, 0, 0, 0)
    }

    /// All bytes that were charged.
    pub fn total_bytes(&self) -> (bytes: usize)
        ensures
            bytes == self@.total_bytes,
    {
        self.total_bytes
    }

    /// The bytes that are allocated but unused.
    pub fn excess_bytes(&self) -> (bytes: usize)
        ensures
            bytes == self@.excess_bytes,
    {
        self.excess_bytes
    }

    /// The bytes behind shared handles.
    pub fn shared_bytes(&self) -> (bytes: usize)
        ensures
            bytes == self@.shared_bytes,
    {
        self.shared_bytes
    }

    /// The number of distinct heap allocations.
    pub fn distinct_allocations(&self) -> (count: usize)
        ensures
            count == self@.distinct_allocations,
    {
        self.distinct_allocations
    }

    /// The bytes in use: the total without the excess.
    pub fn used_bytes(&self) -> (bytes: usize)
        requires
            self@.excess_bytes <= self@.total_bytes,
        ensures
            bytes == self@.total_bytes - self@.excess_bytes,
    {
        self.total_bytes - self.excess_bytes
    }

    /// The sum of all the given sizes.
    pub fn sum(sizes: &[TotalSize]) -> (size: Self)
        requires
            Totals::sum(sizes@.map_values(|s: TotalSize| s@)).fits(),
        ensures
            size@ == Totals::sum(sizes@.map_values(|s: TotalSize| s@)),
    {
        let ghost values = sizes@.map_values(|s: TotalSize| s@);
        let mut size = Self::zero();
        let mut i: usize = 0;
        while i < sizes.len()
            invariant
                i <= sizes.len(),
                values == sizes@.map_values(|s: TotalSize| s@),
                Totals::sum(values).fits(),
                size@ == Totals::sum(values.take(i as int)),
            decreases sizes.len() - i,
        {
            proof {
                assert(values.take(i + 1).drop_last() == values.take(i as int));
                lemma_sum_grows(values, i + 1);
            }
            size = size + sizes[i];
            i = i + 1;
        }
        proof {
            assert(values.take(i as int) == values);
        }
        size
    }
}

/// Every prefix of a sequence sums to no more, in each counter, than the whole.
pub proof fn lemma_sum_grows(values: Seq<Totals>, n: int)
    requires
        0 <= n <= values.len(),
    ensures
        Totals::sum(values).covers(Totals::sum(values.take(n))),
    decreases values.len(),
{
    if n == values.len() {
        assert(values.take(n) == values);
    } else {
        lemma_sum_grows(values.drop_last(), n);
        assert(values.drop_last().take(n) == values.take(n));
    }
}

impl core::default::Default for TotalSize {
    fn default() -> (size: Self)
        ensures
            size@ == Totals::zero(),
    {
        Self::zero()
    }
}

impl vstd::std_specs::ops::AddSpecImpl for TotalSize {
    open spec fn obeys_add_spec() -> bool {
        true
    }

    open spec fn add_req(self, rhs: TotalSize) -> bool {
        self@.plus(rhs@).fits()
    }

    closed spec fn add_spec(self, rhs: TotalSize) -> TotalSize {
        TotalSize {
            total_bytes: (self.total_bytes + rhs.total_bytes) as usize,
            excess_bytes: (self.excess_bytes + rhs.excess_bytes) as usize,
            shared_bytes: (self.shared_bytes + rhs.shared_bytes) as usize,
            distinct_allocations: (self.distinct_allocations + rhs.distinct_allocations) as usize,
        }
    }
}

impl core::ops::Add for TotalSize {
    type Output = Self;

    fn add(self, rhs: Self) -> (size: Self)
        ensures
            size@ == self@.plus(rhs@),
    {
        Self {
            total_bytes: self.total_bytes + rhs.total_bytes,
            excess_bytes: self.excess_bytes + rhs.excess_bytes,
            shared_bytes: self.shared_bytes + rhs.shared_bytes,
            distinct_allocations: self.distinct_allocations + rhs.distinct_allocations,
        }
    }
}

impl vstd::std_specs::ops::SubSpecImpl for TotalSize {
    open spec fn obeys_sub_spec() -> bool {
        true
    }

    open spec fn sub_req(self, rhs: TotalSize) -> bool {
        self@.covers(rhs@)
    }

    closed spec fn sub_spec(self, rhs: TotalSize) -> TotalSize {
        TotalSize {
            total_bytes: (self.total_bytes - rhs.total_bytes) as usize,
            excess_bytes: (self.excess_bytes - rhs.excess_bytes) as usize,
            shared_bytes: (self.shared_bytes - rhs.shared_bytes) as usize,
            distinct_allocations: (self.distinct_allocations - rhs.distinct_allocations) as usize,
        }
    }
}

impl core::ops::Sub for TotalSize {
    type Output = Self;

    fn sub(self, rhs: Self) -> (size: Self)
        ensures
            size@ == self@.minus(rhs@),
    {
        Self {
            total_bytes: self.total_bytes - rhs.total_bytes,
            excess_bytes: self.excess_bytes - rhs.excess_bytes,
            shared_bytes: self.shared_bytes - rhs.shared_bytes,
            distinct_allocations: self.distinct_allocations - rhs.distinct_allocations,
        }
    }
}

impl core::ops::AddAssign for TotalSize {
    fn add_assign(&mut self, rhs: Self)
        requires
            old(self)@.plus(rhs@).fits(),
        ensures
            final(self)@ == old(self)@.plus(rhs@),
    {
        *self = *self + rhs;
    }
}

impl core::ops::SubAssign for TotalSize {
    fn sub_assign(&mut self, rhs: Self)
        requires
            old(self)@.covers(rhs@),
        ensures
            final(self)@ == old(self)@.minus(rhs@),
    {
        *self = *self - rhs;
    }
}

/// Addition of sizes is commutative.
pub proof fn plus_commutative(a: Totals, b: Totals)
    ensures
        a.plus(b) == b.plus(a),
{
}

/// Addition of sizes is associative.
pub proof fn plus_associative(a: Totals, b: Totals, c: Totals)
    ensures
        a.plus(b).plus(c) == a.plus(b.plus(c)),
{
}

/// The all-zero size is the identity of addition, on either side.
pub proof fn plus_zero_identity(a: Totals)
    ensures
        a.plus(Totals::zero()) == a,
        Totals::zero().plus(a) == a,
{
}

/// Subtraction undoes addition: `a + b - b` is `a`.
pub proof fn minus_undoes_plus(a: Totals, b: Totals)
    ensures
        a.plus(b).covers(b),
        a.plus(b).minus(b) == a,
{
}

/// Where `a` covers `b`, addition undoes subtraction: `a - b + b` is `a`.
pub proof fn plus_undoes_minus(a: Totals, b: Totals)
    requires
        a.covers(b),
    ensures
        a.minus(b).plus(b) == a,
{
}

} // verus!
