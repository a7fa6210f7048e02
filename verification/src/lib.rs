//! Verified core of a per-day keystroke counter: a deduplicator that drops
//! key-repeat presses, a frequency table keyed by stable key identifiers,
//! and a day-file format written and read byte by byte, with proofs that
//! repeats never count, that reading a written file restores the table, and
//! that distinct keys never share an identifier.

pub mod codec;
pub mod keys;
pub mod num;
pub mod paths;
pub mod session;
pub mod stats;
