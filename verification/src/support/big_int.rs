//! Integers of any size of `num_bigint`, charged as a buffer of digits on the
//! heap. The crate may keep a number of one digit in place; it is charged
//! as a buffer all the same, since the place of the digits cannot be seen.

use crate::context::{Context, Tally};
use crate::measure::SizeOf;
use num_bigint::{BigInt, BigUint};
use vstd::prelude::*;

verus! {

/// `num_bigint::BigUint`, an unsigned integer of any size.
#[verifier::external_type_specification]
#[verifier::external_body]
pub struct ExBigUint(BigUint);

/// `num_bigint::BigInt`, a signed integer of any size.
#[verifier::external_type_specification]
#[verifier::external_body]
pub struct ExBigInt(BigInt);

/// `num_bigint::Sign`, the sign of an integer.
#[verifier::external_type_specification]
#[verifier::external_body]
pub struct ExSign(num_bigint::Sign);

/// `num_bigint::ParseBigIntError`, why text could not be read as an integer.
#[verifier::external_type_specification]
#[verifier::external_body]
pub struct ExParseBigIntError(num_bigint::ParseBigIntError);

/// `num_bigint::TryFromBigIntError`, an integer that did not fit a smaller
/// type, handed back.
#[verifier::external_type_specification]
#[verifier::external_body]
#[verifier::reject_recursive_types(T)]
pub struct ExTryFromBigIntError<T>(num_bigint::TryFromBigIntError<T>);

/// `num_bigint::U32Digits`, an iterator that borrows the digits of an integer.
#[verifier::external_type_specification]
#[verifier::external_body]
pub struct ExU32Digits<'a>(num_bigint::U32Digits<'a>);

/// `num_bigint::U64Digits`, an iterator that borrows the digits of an integer.
#[verifier::external_type_specification]
#[verifier::external_body]
pub struct ExU64Digits<'a>(num_bigint::U64Digits<'a>);

// A sign and a parsing failure own nothing; what did not convert is not
// looked into; the iterators borrow their digits.
impl SizeOf for num_bigint::Sign {
    fn size_of_children(&self, _context: &mut Context) {
    }
}

impl SizeOf for num_bigint::ParseBigIntError {
    fn size_of_children(&self, _context: &mut Context) {
    }
}

impl<T> SizeOf for num_bigint::TryFromBigIntError<T> {
    fn size_of_children(&self, _context: &mut Context) {
    }
}

impl<'a> SizeOf for num_bigint::U32Digits<'a> {
    fn size_of_children(&self, _context: &mut Context) {
    }
}

impl<'a> SizeOf for num_bigint::U64Digits<'a> {
    fn size_of_children(&self, _context: &mut Context) {
    }
}

/// The number of 64-bit digits of `number`, from the length of
/// `BigUint::iter_u64_digits`. Nothing is claimed of the number.
#[verifier::external_body]
fn big_uint_digits(number: &BigUint) -> usize {
    number.iter_u64_digits().len()
}

/// The number of 64-bit digits of the magnitude of `number`, from the length
/// of `BigInt::iter_u64_digits`. Nothing is claimed of the number.
#[verifier::external_body]
fn big_int_digits(number: &BigInt) -> usize {
    number.iter_u64_digits().len()
}

/// Whether charging the digits of an integer can turn `before` into
/// `after`: some number of 64-bit digits, and one allocation.
pub open spec fn digits_charged(before: Tally, after: Tally) -> bool {
    exists|digits: usize| after == #[trigger] before.charge((digits * 8) as nat).allocate(1)
}

/// Charges to `context` the buffer of an integer of `digits` 64-bit digits,
/// as one allocation. The capacity of the buffer cannot be seen, so only
/// the digits in use are charged.
pub fn size_of_digits(context: &mut Context, digits: usize)
    ensures
        final(context)@ == old(context)@.charge((digits * 8) as nat).allocate(1),
        final(context)@.extends(old(context)@),
{
    context.add_arraylike(digits, 8).add_distinct_allocation();
}

impl SizeOf for BigUint {
    open spec fn children_charged(&self, before: Tally, after: Tally) -> bool {
        digits_charged(before, after)
    }

    fn size_of_children(&self, context: &mut Context) {
        size_of_digits(context, big_uint_digits(self));
    }
}

impl SizeOf for BigInt {
    open spec fn children_charged(&self, before: Tally, after: Tally) -> bool {
        digits_charged(before, after)
    }

    fn size_of_children(&self, context: &mut Context) {
        size_of_digits(context, big_int_digits(self));
    }
}

} // verus!
