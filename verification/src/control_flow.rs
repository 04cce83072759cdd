//! Durations for pacing action sequences.
//!
//! A `wait` step accepts several numeric encodings of a duration; all of them
//! normalize to one internal representation, [`Duration`], before use. The
//! blocking sleep itself is platform work and lives outside this library;
//! here live the representation and the normalization.

use vstd::prelude::*;

verus! {

pub const NANOS_PER_SEC: u32 = 1_000_000_000;

pub const NANOS_PER_MILLI: u32 = 1_000_000;

pub const MILLIS_PER_SEC: u64 = 1_000;

/// A span of time: whole seconds plus a sub-second remainder in nanoseconds.
///
/// The remainder is always below one second, so each span has exactly one
/// representation and derived equality coincides with equality of the
/// normalized value.
#[derive(Debug, Clone, Copy, PartialEq, Eq, Hash, Structural)]
pub struct Duration {
    secs: u64,
    nanos: u32,
}

impl View for Duration {
    type V = int;

    /// The duration as a total count of nanoseconds.
    closed spec fn view(&self) -> int {
        self.secs * (NANOS_PER_SEC as int) + self.nanos
    }
}

impl Duration {
    #[verifier::type_invariant]
    spec fn well_formed(self) -> bool {
        self.nanos < NANOS_PER_SEC
    }

    /// A duration of `secs` whole seconds.
    pub fn from_secs(secs: u64) -> (r: Duration)
        ensures
            r@ == secs * (NANOS_PER_SEC as int),
    {
        Duration { secs, nanos: 0 }
    }

    /// A duration of `millis` milliseconds.
    pub fn from_millis(millis: u64) -> (r: Duration)
        ensures
            r@ == millis * (NANOS_PER_MILLI as int),
    {
        let secs = millis / MILLIS_PER_SEC;
        let nanos = (millis % MILLIS_PER_SEC) as u32 * NANOS_PER_MILLI;
        let r = Duration { secs, nanos };
        proof {
            assert(r@ == millis * (NANOS_PER_MILLI as int)) by (nonlinear_arith)
                requires
                    r.secs == millis / 1000,
                    r.nanos == (millis % 1000) * 1_000_000,
                    r@ == r.secs * 1_000_000_000int + r.nanos,
            ;
        }
        r
    }

    /// A duration of `nanos` nanoseconds.
    pub fn from_nanos(nanos: u64) -> (r: Duration)
        ensures
            r@ == nanos,
    {
        let secs = nanos / (NANOS_PER_SEC as u64);
        let rem = (nanos % (NANOS_PER_SEC as u64)) as u32;
        let r = Duration { secs, nanos: rem };
        proof {
            assert(r@ == nanos) by (nonlinear_arith)
                requires
                    r.secs == nanos / 1_000_000_000,
                    r.nanos == nanos % 1_000_000_000,
                    r@ == r.secs * 1_000_000_000int + r.nanos,
            ;
        }
        r
    }

    /// The whole-second part of the duration.
    pub fn as_secs(&self) -> (r: u64)
        ensures
            r == self@ / (NANOS_PER_SEC as int),
    {
        proof {
            use_type_invariant(self);
            assert(self.secs == self@ / 1_000_000_000int) by (nonlinear_arith)
                requires
                    self@ == self.secs * 1_000_000_000int + self.nanos,
                    self.nanos < 1_000_000_000,
            ;
        }
        self.secs
    }

    /// The sub-second part of the duration, in nanoseconds.
    pub fn subsec_nanos(&self) -> (r: u32)
        ensures
            r == self@ % (NANOS_PER_SEC as int),
    {
        proof {
            use_type_invariant(self);
            assert(self.nanos == self@ % 1_000_000_000int) by (nonlinear_arith)
                requires
                    self@ == self.secs * 1_000_000_000int + self.nanos,
                    self.nanos < 1_000_000_000,
            ;
        }
        self.nanos
    }
}

/// A numeric encoding of a duration accepted at a `wait` call site.
///
/// Every implementation normalizes to [`Duration`]; `duration_nanos` is the
/// encoded value as nanoseconds, and `into_duration` must return exactly it.
pub trait IntoDuration: Sized {
    spec fn duration_nanos(self) -> int;

    fn into_duration(self) -> (r: Duration)
        ensures
            r@ == self.duration_nanos(),
    ;
}

impl IntoDuration for Duration {
    open spec fn duration_nanos(self) -> int {
        self@
    }

    /// A `Duration` is already the normalized representation: the identity.
    fn into_duration(self) -> (r: Duration)
        ensures
            r == self,
            r@ == self.duration_nanos(),
    {
        self
    }
}

/// Whole seconds.
impl IntoDuration for u64 {
    open spec fn duration_nanos(self) -> int {
        self * (NANOS_PER_SEC as int)
    }

    fn into_duration(self) -> (r: Duration)
        ensures
            r@ == self.duration_nanos(),
    {
        Duration::from_secs(self)
    }
}

} // verus!
