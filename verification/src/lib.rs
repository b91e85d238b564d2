//! Validated calendar date and time components.
//!
//! The crate holds the values that a date and time formatter reads: six
//! bounded units (month, week day, day, hour, minute, second), a composite
//! date-time built from them, and the errors of building either from raw
//! numbers or from text. It validates ranges and reads one fixed text
//! layout; it knows nothing of calendars, time zones or locales.
//!
//! The code is verified with Verus: the contract of each function says
//! which inputs are accepted, which error each rejected input gets, and
//! what value comes back. Three small functions hand a text or an error to
//! the standard library's integer parsing and printing; their contracts are
//! trusted, and their documentation says what is taken on trust.
pub mod date;
