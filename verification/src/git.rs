//! Data model of the repository state the engine works on, and the pure
//! rules the engine applies to it.  The repository itself is read and
//! mutated by an external backend; it hands the engine plain values.

pub mod branch;
pub mod diff;
pub mod log;
pub mod ops;
pub mod status;
pub mod time;
