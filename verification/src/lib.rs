//! A parser for hand-written weekly time logs.
//!
//! A log is a text of week headers, tables of days and times, and numbered
//! task definitions. [`parser::parse`] turns its lines into weeks, days and
//! entries. The line patterns are regular expressions, searched for by the
//! `fancy_regex` engine; what the engine finds is taken on trust, and
//! everything that the parser makes of it is proved.

pub mod accumulate;
pub mod error;
pub mod extract;
pub mod model;
pub mod parser;
pub mod pattern;
pub mod quarter;
pub mod resolve;
pub mod text;

pub use error::ParseError;
pub use extract::{get_duration, get_task, TaskType};
pub use model::{Day, Hours, Week};
pub use parser::parse;
pub use pattern::Patterns;
pub use quarter::{get_rounded_duration, get_time_quater, nearest_quater_hour};
