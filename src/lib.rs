//! Numeric primitives for a sequence-numbered datagram transport: circular
//! ordering of wrapping counters, timestamp field encodings, and allocation
//! of adjacent connection identifiers.

mod order;
mod ident;
mod timestamp;

pub use order::{circle_dist, is_low_mask, lemma_precedes_antisymmetric, precedes, wrapping_lt};
pub use timestamp::{
    as_ms, as_wrapping_micros, ms_of, wrapping_micros_of, Elapsed, MICROS_PER_SEC, MS_CAP,
    MS_CAP_SECS, NANOS_PER_MICRO, NANOS_PER_MS, NANOS_PER_SEC,
};
pub use ident::{adjacent_pair, generate_sequential_identifiers, rand, sequential_identifiers_from};
