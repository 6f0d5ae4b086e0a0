//! A process-local generator of collision-free, globally orderable 64-bit
//! Snowflake IDs: 41 bits of milliseconds since a configurable epoch, a
//! 10-bit node id, and a 12-bit per-millisecond sequence counter, advanced
//! lock-free through one packed atomic register.

mod clock;
pub mod snowflake;
