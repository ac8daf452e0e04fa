//! A calendrical value library: dates, times of day, and combined datetimes,
//! each paired with a display pattern, with field-wise calendar arithmetic
//! (month clamping, leap years, day carry), parsing and rendering through a
//! strftime-style pattern mini-language, elapsed-duration computation, and
//! conversions between the three value kinds and Unix timestamps.

pub mod builder;
pub mod calendar;
pub mod clock;
pub mod date;
pub mod datetime;
pub mod error;
pub mod numeral;
pub mod pattern;
pub mod prelude;
pub mod time;
pub mod timestamp;
