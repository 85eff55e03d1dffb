//! Snowflake identifiers: 64-bit, time-sortable IDs built from a millisecond
//! timestamp, a node identity and a per-millisecond sequence number.
mod clock;
pub mod generator;
pub mod laws;
pub mod layout;

pub use generator::{ClockError, GeneratorState, Snowflake, Tick};
