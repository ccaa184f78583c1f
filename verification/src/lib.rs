//! Date and time transformation driven by a set of named parameters.
//!
//! One operation: an instant is built, changed, and written out, each step
//! chosen by the parameters that are given.
//!
//! - The initializer takes the first source that is given: a count since the
//!   epoch in one of four resolutions, an RFC 2822 or RFC 3339 text, a text
//!   under a pattern, or else the clock.
//! - The modifiers are applied in one fixed order: the display offset, the
//!   field setters, what is added, what is subtracted.
//! - The finalizer takes the first encoding that is asked for: a pattern,
//!   RFC 2822, a count since the epoch, the whole years since a base, or else
//!   RFC 3339.
//!
//! The first failure ends the transformation and is its result.
//!
//! The order of the steps, the reading of numbers, the arithmetic on instants
//! and the choice of failures are verified. The calendar itself, the formats
//! and the time zones are those of `chrono` and `chrono-tz`: the module
//! [`calendar`] holds the calls and says what is taken on trust from each.
//! What holds of every transformation stands in the module [`laws`].
//!
//! ```text
//! let mut params = ParameterSet::new();
//! params.set("from_timestamp", "618658211");
//! params.set("add_months", "24");
//! params.set("to_timestamp", "true");
//! assert_eq!(HandlebarsChronoDateTime.call(&params), Ok("681730211".to_string()));
//! ```

pub mod calendar;
pub mod decimal;
pub mod error;
pub mod finalizer;
pub mod helper;
pub mod initializer;
pub mod instant;
pub mod laws;
pub mod modifier;
pub mod params;
pub mod text;
pub mod zone;

pub use crate::error::Error;
pub use crate::helper::HandlebarsChronoDateTime;
pub use crate::instant::Instant;
pub use crate::params::ParameterSet;
pub use crate::zone::Capabilities;
