//! Decimal numbers of `rust_decimal`, kept in place, and of `bigdecimal`,
//! kept on the heap.

use crate::context::{Context, Tally};
use crate::measure::SizeOf;
use vstd::prelude::*;

verus! {

/// `rust_decimal::Decimal`, a number kept in four 32-bit words in place.
#[verifier::external_type_specification]
#[verifier::external_body]
pub struct ExDecimal(rust_decimal::Decimal);

// A decimal number owns nothing.
impl SizeOf for rust_decimal::Decimal {
    fn size_of_children(&self, _context: &mut Context) {
    }
}

/// `bigdecimal::BigDecimal`, a decimal number of any size.
#[verifier::external_type_specification]
#[verifier::external_body]
pub struct ExBigDecimal(bigdecimal::BigDecimal);

/// `BigDecimal::digits`: the number of decimal digits of the number without
/// its scale. Nothing is claimed of the number.
#[verifier::external_body]
fn big_decimal_digits(number: &bigdecimal::BigDecimal) -> u64 {
    number.digits()
}

/// The bytes of one word of a big number: 8 where a `usize` has 64 bits, 4
/// elsewhere.
pub open spec fn word_bytes() -> nat {
    if usize::BITS == 64 {
        8
    } else {
        4
    }
}

/// The bytes that are charged for a decimal number of `digits` digits: one
/// word for each digit, and no more than `isize::MAX`, the most that an
/// allocation can have.
pub open spec fn decimal_bytes(digits: nat) -> nat {
    if digits * word_bytes() <= isize::MAX {
        digits * word_bytes()
    } else {
        isize::MAX as nat
    }
}

/// Charges to `context` the buffer of a decimal number of `digits` digits,
/// as one allocation. The capacity of the buffer cannot be seen.
pub fn size_of_decimal(context: &mut Context, digits: u64)
    ensures
        final(context)@ == old(context)@.charge(decimal_bytes(digits as nat)).allocate(1),
        final(context)@.extends(old(context)@),
{
    let word: u64 = if usize::BITS == 64 {
        8
    } else {
        4
    };
    let limit: u64 = (isize::MAX as usize) as u64;
    let bytes: usize = if digits <= limit / word {
        assert(digits * word <= limit) by (nonlinear_arith)
            requires
                digits <= limit / word,
                word > 0,
        ;
        (digits * word) as usize
    } else {
        assert(digits * word > limit) by (nonlinear_arith)
            requires
                digits > limit / word,
                word > 0,
        ;
        isize::MAX as usize
    };
    context.add(bytes).add_distinct_allocation();
}

impl SizeOf for bigdecimal::BigDecimal {
    open spec fn children_charged(&self, before: Tally, after: Tally) -> bool {
        exists|digits: u64|
            after == #[trigger] before.charge(decimal_bytes(digits as nat)).allocate(1)
    }

    fn size_of_children(&self, context: &mut Context) {
        size_of_decimal(context, big_decimal_digits(self));
    }
}

} // verus!
