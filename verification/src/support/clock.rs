//! Dates and times of `time`: numbers, kept in place.

use crate::context::Context;
use crate::measure::SizeOf;
use vstd::prelude::*;

verus! {

/// `time::Date`, a date.
#[verifier::external_type_specification]
#[verifier::external_body]
pub struct ExDate(time::Date);

/// `time::Time`, a time of day.
#[verifier::external_type_specification]
#[verifier::external_body]
pub struct ExTime(time::Time);

/// `time::Month`, a month of the year.
#[verifier::external_type_specification]
#[verifier::external_body]
pub struct ExMonth(time::Month);

/// `time::Weekday`, a day of the week.
#[verifier::external_type_specification]
#[verifier::external_body]
pub struct ExWeekday(time::Weekday);

/// `time::Duration`, a span of time.
#[verifier::external_type_specification]
#[verifier::external_body]
pub struct ExDuration(time::Duration);

/// `time::UtcOffset`, an offset from UTC.
#[verifier::external_type_specification]
#[verifier::external_body]
pub struct ExUtcOffset(time::UtcOffset);

/// `time::OffsetDateTime`, a date and time with an offset.
#[verifier::external_type_specification]
#[verifier::external_body]
pub struct ExOffsetDateTime(time::OffsetDateTime);

/// `time::PrimitiveDateTime`, a date and time without an offset.
#[verifier::external_type_specification]
#[verifier::external_body]
pub struct ExPrimitiveDateTime(time::PrimitiveDateTime);

/// `time::Instant`, a reading of a clock that never goes back, around the one of std.
#[verifier::external_type_specification]
#[verifier::external_body]
pub struct ExInstant(time::Instant);

// Dates, times and spans of time own nothing.

impl SizeOf for time::Date {
    fn size_of_children(&self, _context: &mut Context) {
    }
}

impl SizeOf for time::Time {
    fn size_of_children(&self, _context: &mut Context) {
    }
}

impl SizeOf for time::Month {
    fn size_of_children(&self, _context: &mut Context) {
    }
}

impl SizeOf for time::Weekday {
    fn size_of_children(&self, _context: &mut Context) {
    }
}

impl SizeOf for time::Duration {
    fn size_of_children(&self, _context: &mut Context) {
    }
}

impl SizeOf for time::UtcOffset {
    fn size_of_children(&self, _context: &mut Context) {
    }
}

impl SizeOf for time::OffsetDateTime {
    fn size_of_children(&self, _context: &mut Context) {
    }
}

impl SizeOf for time::PrimitiveDateTime {
    fn size_of_children(&self, _context: &mut Context) {
    }
}

impl SizeOf for time::Instant {
    fn size_of_children(&self, _context: &mut Context) {
    }
}

} // verus!
