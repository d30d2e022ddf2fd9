use vstd::arithmetic::div_mod::{lemma_add_mod_noop, lemma_fundamental_div_mod_converse, lemma_mod_mod, lemma_small_mod};
use vstd::prelude::*;

verus! {

pub const NANOS_PER_SEC: u32 = 1_000_000_000;
pub const NANOS_PER_MS: u32 = 1_000_000;
pub const NANOS_PER_MICRO: u32 = 1_000;
pub const MICROS_PER_SEC: u32 = 1_000_000;

/// Longest time, in whole seconds, that `as_ms` reports as it is.
pub const MS_CAP_SECS: u64 = 30;

/// What `as_ms` reports for anything longer than `MS_CAP_SECS`.
pub const MS_CAP: u64 = 30_000;

/// A span of elapsed time: whole seconds plus a sub-second part in
/// nanoseconds.
#[derive(Clone, Copy, Debug, PartialEq, Eq, Structural)]
pub struct Elapsed {
    pub secs: u64,
    pub nanos: u32,
}

impl Elapsed {
    /// The sub-second part is less than one second.
    pub open spec fn wf(&self) -> bool {
        self.nanos < NANOS_PER_SEC
    }

    /// The whole span in nanoseconds.
    pub open spec fn total_nanos(&self) -> int {
        self.secs * NANOS_PER_SEC + self.nanos
    }

    /// A span of `secs` seconds plus `nanos` nanoseconds; whole seconds held
    /// in `nanos` are carried into the seconds.
    pub fn new(secs: u64, nanos: u32) -> (r: Elapsed)
        requires
            secs + nanos / NANOS_PER_SEC <= u64::MAX,
        ensures
            r.wf(),
            r.total_nanos() == secs * NANOS_PER_SEC + nanos,
    {
        let extra: u32 = nanos / NANOS_PER_SEC;
        let rest: u32 = nanos % NANOS_PER_SEC;
        Elapsed { secs: secs + extra as u64, nanos: rest }
    }

    /// A span of whole seconds.
    pub fn from_secs(secs: u64) -> (r: Elapsed)
        ensures
            r.wf(),
            r.secs == secs,
            r.nanos == 0,
    {
        Elapsed { secs, nanos: 0 }
    }

    /// Whole seconds in the span.
    pub fn as_secs(&self) -> (r: u64)
        ensures
            r == self.secs,
    {
        self.secs
    }

    /// Sub-second part of the span, in nanoseconds.
    pub fn subsec_nanos(&self) -> (r: u32)
        ensures
            r == self.nanos,
    {
        self.nanos
    }
}

/// Milliseconds reported for `d`: the span truncated to whole
/// milliseconds, but `MS_CAP` once the whole seconds exceed `MS_CAP_SECS`.
pub open spec fn ms_of(d: Elapsed) -> int {
    if d.secs > MS_CAP_SECS {
        MS_CAP as int
    } else {
        d.secs * 1000 + d.nanos / NANOS_PER_MS
    }
}

/// The span in whole microseconds, reduced modulo `2^32`.
pub open spec fn wrapping_micros_of(d: Elapsed) -> int {
    (d.secs * MICROS_PER_SEC + d.nanos / NANOS_PER_MICRO) % 0x1_0000_0000
}

/// Milliseconds in `duration`, truncated, capped at thirty seconds.
pub fn as_ms(duration: Elapsed) -> (r: u64)
    ensures
        r == ms_of(duration),
{
    if duration.secs > MS_CAP_SECS {
        MS_CAP
    } else {
        let sub_ms: u32 = duration.nanos / NANOS_PER_MS;
        duration.secs * 1000 + sub_ms as u64
    }
}

/// Microseconds in `duration` as a 32-bit wrapping counter, the width of
/// the wire field.
pub fn as_wrapping_micros(duration: Elapsed) -> (r: u32)
    ensures
        r == wrapping_micros_of(duration),
{
    let wide: u64 = duration.secs.wrapping_mul(MICROS_PER_SEC as u64);
    let low: u32 = #[verifier::truncate] (wide as u32);
    let sub_micros: u32 = duration.nanos / NANOS_PER_MICRO;
    let ret: u32 = low.wrapping_add(sub_micros);
    proof {
        let m32: int = 0x1_0000_0000;
        let x: int = duration.secs * MICROS_PER_SEC;
        assert(low == wide % 0x1_0000_0000) by (bit_vector)
            requires
                low == wide as u32,
        ;
        lemma_mod_mod(x, m32, m32);
        assert(low as int == x % m32);
        lemma_small_mod(sub_micros as nat, m32 as nat);
        lemma_add_mod_noop(x, sub_micros as int, m32);
        if low + sub_micros > u32::MAX {
            lemma_fundamental_div_mod_converse(low + sub_micros, m32, 1, low + sub_micros - m32);
        } else {
            lemma_fundamental_div_mod_converse(low + sub_micros, m32, 0, low + sub_micros);
        }
    }
    ret
}

} // verus!
