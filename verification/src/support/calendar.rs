//! Dates and times of `chrono`. Most are numbers kept in place; a
//! formatting item may own its text.

use crate::context::{Context, Tally};
use crate::measure::SizeOf;
use chrono::format::Item;
use chrono::LocalResult;
use vstd::prelude::*;

verus! {

/// `chrono::format::Pad`, how a number is padded.
#[verifier::external_type_specification]
#[verifier::external_body]
pub struct ExPad(chrono::format::Pad);

/// `chrono::Utc`, the UTC time zone.
#[verifier::external_type_specification]
#[verifier::external_body]
pub struct ExUtc(chrono::Utc);

/// `chrono::Local`, the local time zone.
#[verifier::external_type_specification]
#[verifier::external_body]
pub struct ExLocal(chrono::Local);

/// `chrono::format::Fixed`, a formatting item of fixed form.
#[verifier::external_type_specification]
#[verifier::external_body]
pub struct ExFixed(chrono::format::Fixed);

/// `chrono::Month`, a month of the year.
#[verifier::external_type_specification]
#[verifier::external_body]
pub struct ExMonth(chrono::Month);

/// `chrono::Months`, a number of months.
#[verifier::external_type_specification]
#[verifier::external_body]
pub struct ExMonths(chrono::Months);

/// `chrono::format::Parsed`, the fields that a parser has read so far.
#[verifier::external_type_specification]
#[verifier::external_body]
pub struct ExParsed(chrono::format::Parsed);

/// `chrono::format::Numeric`, a formatting item that is a number.
#[verifier::external_type_specification]
#[verifier::external_body]
pub struct ExNumeric(chrono::format::Numeric);

/// `chrono::IsoWeek`, a week of a year.
#[verifier::external_type_specification]
#[verifier::external_body]
pub struct ExIsoWeek(chrono::IsoWeek);

/// `chrono::Weekday`, a day of the week.
#[verifier::external_type_specification]
#[verifier::external_body]
pub struct ExWeekday(chrono::Weekday);

/// `chrono::Duration`, a span of time.
#[verifier::external_type_specification]
#[verifier::external_body]
pub struct ExDuration(chrono::Duration);

/// `chrono::NaiveDate`, a date without a time zone.
#[verifier::external_type_specification]
#[verifier::external_body]
pub struct ExNaiveDate(chrono::NaiveDate);

/// `chrono::NaiveTime`, a time of day without a time zone.
#[verifier::external_type_specification]
#[verifier::external_body]
pub struct ExNaiveTime(chrono::NaiveTime);

/// `chrono::NaiveWeek`, a week that begins on a chosen day.
#[verifier::external_type_specification]
#[verifier::external_body]
pub struct ExNaiveWeek(chrono::NaiveWeek);

/// `chrono::ParseError`, why a date or time could not be parsed.
#[verifier::external_type_specification]
#[verifier::external_body]
pub struct ExParseError(chrono::ParseError);

/// `chrono::FixedOffset`, a time zone at a fixed offset.
#[verifier::external_type_specification]
#[verifier::external_body]
pub struct ExFixedOffset(chrono::FixedOffset);

/// `chrono::format::InternalFixed`, a formatting item of the crate's own.
#[verifier::external_type_specification]
#[verifier::external_body]
pub struct ExInternalFixed(chrono::format::InternalFixed);

/// `chrono::NaiveDateTime`, a date and time without a time zone.
#[verifier::external_type_specification]
#[verifier::external_body]
pub struct ExNaiveDateTime(chrono::NaiveDateTime);

/// `chrono::RoundingError`, why a time could not be rounded.
#[verifier::external_type_specification]
#[verifier::external_body]
pub struct ExRoundingError(chrono::RoundingError);

/// `chrono::SecondsFormat`, how many digits of a second are shown.
#[verifier::external_type_specification]
#[verifier::external_body]
pub struct ExSecondsFormat(chrono::SecondsFormat);

/// `chrono::format::ParseErrorKind`, the kind of a parsing failure.
#[verifier::external_type_specification]
#[verifier::external_body]
pub struct ExParseErrorKind(chrono::format::ParseErrorKind);

/// `chrono::ParseMonthError`, why a month could not be parsed.
#[verifier::external_type_specification]
#[verifier::external_body]
pub struct ExParseMonthError(chrono::ParseMonthError);

/// `chrono::format::InternalNumeric`, a numeric formatting item of the crate's own.
#[verifier::external_type_specification]
#[verifier::external_body]
pub struct ExInternalNumeric(chrono::format::InternalNumeric);

/// `chrono::ParseWeekdayError`, why a day of the week could not be parsed.
#[verifier::external_type_specification]
#[verifier::external_body]
pub struct ExParseWeekdayError(chrono::ParseWeekdayError);

/// `chrono::LocalResult`, the local times that a time maps to: none, one,
/// or two where the clocks were put back.
#[verifier::external_type_specification]
#[verifier::reject_recursive_types(T)]
pub struct ExLocalResult<T>(LocalResult<T>);

/// `chrono::format::Item`, one item of a format: text that is borrowed or
/// owned, a number, a fixed form, or an error.
#[verifier::external_type_specification]
pub struct ExItem<'a>(Item<'a>);

// Dates, times, time zones at fixed offsets and the plain parts of formats
// own nothing.

impl SizeOf for chrono::format::Pad {
    fn size_of_children(&self, _context: &mut Context) {
    }
}

impl SizeOf for chrono::Utc {
    fn size_of_children(&self, _context: &mut Context) {
    }
}

impl SizeOf for chrono::Local {
    fn size_of_children(&self, _context: &mut Context) {
    }
}

impl SizeOf for chrono::format::Fixed {
    fn size_of_children(&self, _context: &mut Context) {
    }
}

impl SizeOf for chrono::Month {
    fn size_of_children(&self, _context: &mut Context) {
    }
}

impl SizeOf for chrono::Months {
    fn size_of_children(&self, _context: &mut Context) {
    }
}

impl SizeOf for chrono::format::Parsed {
    fn size_of_children(&self, _context: &mut Context) {
    }
}

impl SizeOf for chrono::format::Numeric {
    fn size_of_children(&self, _context: &mut Context) {
    }
}

impl SizeOf for chrono::IsoWeek {
    fn size_of_children(&self, _context: &mut Context) {
    }
}

impl SizeOf for chrono::Weekday {
    fn size_of_children(&self, _context: &mut Context) {
    }
}

impl SizeOf for chrono::Duration {
    fn size_of_children(&self, _context: &mut Context) {
    }
}

impl SizeOf for chrono::NaiveDate {
    fn size_of_children(&self, _context: &mut Context) {
    }
}

impl SizeOf for chrono::NaiveTime {
    fn size_of_children(&self, _context: &mut Context) {
    }
}

impl SizeOf for chrono::NaiveWeek {
    fn size_of_children(&self, _context: &mut Context) {
    }
}

impl SizeOf for chrono::ParseError {
    fn size_of_children(&self, _context: &mut Context) {
    }
}

impl SizeOf for chrono::FixedOffset {
    fn size_of_children(&self, _context: &mut Context) {
    }
}

impl SizeOf for chrono::format::InternalFixed {
    fn size_of_children(&self, _context: &mut Context) {
    }
}

impl SizeOf for chrono::NaiveDateTime {
    fn size_of_children(&self, _context: &mut Context) {
    }
}

impl SizeOf for chrono::RoundingError {
    fn size_of_children(&self, _context: &mut Context) {
    }
}

impl SizeOf for chrono::SecondsFormat {
    fn size_of_children(&self, _context: &mut Context) {
    }
}

impl SizeOf for chrono::format::ParseErrorKind {
    fn size_of_children(&self, _context: &mut Context) {
    }
}

impl SizeOf for chrono::ParseMonthError {
    fn size_of_children(&self, _context: &mut Context) {
    }
}

impl SizeOf for chrono::format::InternalNumeric {
    fn size_of_children(&self, _context: &mut Context) {
    }
}

impl SizeOf for chrono::ParseWeekdayError {
    fn size_of_children(&self, _context: &mut Context) {
    }
}

impl<T: SizeOf> SizeOf for LocalResult<T> {
    open spec fn children_charged(&self, before: Tally, after: Tally) -> bool {
        match self {
            LocalResult::None => after == before,
            LocalResult::Single(result) => result.children_charged(before, after),
            LocalResult::Ambiguous(first, second) => exists|mid: Tally|
                {
                    &&& #[trigger] first.children_charged(before, mid)
                    &&& mid.extends(before)
                    &&& second.children_charged(mid, after)
                },
        }
    }

    fn size_of_children(&self, context: &mut Context) {
        match self {
            LocalResult::None => {},
            LocalResult::Single(result) => result.size_of_children(context),
            LocalResult::Ambiguous(first, second) => {
                first.size_of_children(context);
                second.size_of_children(context);
            },
        }
    }
}

// Text that an item borrows is not its own, and numbers and fixed forms own
// nothing: only owned text is charged.
impl<'a> SizeOf for Item<'a> {
    open spec fn children_charged(&self, before: Tally, after: Tally) -> bool {
        match self {
            Item::OwnedLiteral(text) => text.children_charged(before, after),
            Item::OwnedSpace(text) => text.children_charged(before, after),
            Item::Literal(_) => after == before,
            Item::Space(_) => after == before,
            Item::Numeric(_, _) => after == before,
            Item::Fixed(_) => after == before,
            Item::Error => after == before,
        }
    }

    fn size_of_children(&self, context: &mut Context) {
        match self {
            Item::OwnedLiteral(text) => text.size_of_children(context),
            Item::OwnedSpace(text) => text.size_of_children(context),
            Item::Literal(text) => text.size_of_children(context),
            Item::Space(text) => text.size_of_children(context),
            Item::Numeric(numeric, pad) => {
                numeric.size_of_children(context);
                pad.size_of_children(context);
            },
            Item::Fixed(fixed) => fixed.size_of_children(context),
            Item::Error => {},
        }
    }
}

} // verus!
