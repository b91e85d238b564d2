//! Date and time values, and their construction from numbers and text.
//!
//! * [`numeral`] reads and writes decimal numerals.
//! * [`error`] is the error type shared by every fallible constructor.
//! * [`month`], [`week_day`], [`day`], [`hour`], [`minute`] and [`second`]
//!   are the bounded units.
//! * [`layout`] cuts a text of the form `YYYY-MM-DDThh:mm:ss` into fields.
//! * [`datetime`] is the composite value and the accessor trait.
pub mod datetime;
pub mod day;
pub mod error;
pub mod hour;
pub mod layout;
pub mod minute;
pub mod month;
pub mod numeral;
pub mod second;
pub mod week_day;

pub use self::datetime::{DateTimeType, MockDateTime};
pub use self::day::Day;
pub use self::error::DateTimeError;
pub use self::hour::Hour;
pub use self::minute::Minute;
pub use self::month::Month;
pub use self::second::Second;
pub use self::week_day::WeekDay;
