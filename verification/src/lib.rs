//! Running paces and distances: a pace converted between miles and
//! kilometres, and the distance covered in a time at a pace. Paces and times
//! are counted in whole seconds, so that every result is exact.

pub mod convert;
pub mod digits;
pub mod grammar;
pub mod laws;
pub mod parse;
pub mod pattern;
pub mod text;

pub use convert::{calculate_distance, convert_pace, FormatError};
pub use parse::{parse_pace, parse_time, ParseError};
