use vstd::prelude::*;

verus! {

/// The longest duration, in milliseconds: `u64::MAX` seconds and 999
/// milliseconds, as far as `std::time::Duration` reaches in whole
/// milliseconds.
pub open spec fn max_millis() -> int {
    u64::MAX as int * 1000 + 999
}

/// A span of time with millisecond resolution, the unit every interval,
/// timeout and backoff of the agent is configured in; it reaches as far as
/// `std::time::Duration` does.
#[derive(Clone, Copy, Debug, PartialEq, Eq, Structural)]
pub struct Duration {
    millis: u128,
}

impl View for Duration {
    type V = int;

    open spec fn view(&self) -> int {
        self.spec_millis() as int
    }
}

pub open spec fn imin(a: int, b: int) -> int {
    if a <= b {
        a
    } else {
        b
    }
}

pub open spec fn imax(a: int, b: int) -> int {
    if a >= b {
        a
    } else {
        b
    }
}

impl Duration {
    #[verifier::type_invariant]
    closed spec fn inv(self) -> bool {
        self.millis <= max_millis()
    }

    pub closed spec fn spec_millis(&self) -> u128 {
        self.millis
    }

    /// The duration of `millis` milliseconds, for `0 <= millis <= u128::MAX`.
    pub closed spec fn spec_from_millis(millis: int) -> Duration {
        Duration { millis: millis as u128 }
    }

    pub proof fn lemma_from_millis_view(millis: int)
        requires
            0 <= millis <= u128::MAX,
        ensures
            Duration::spec_from_millis(millis)@ == millis,
    {
    }

    /// Durations are equal when they have the same length.
    pub proof fn lemma_view_injective(a: Duration, b: Duration)
        requires
            a@ == b@,
        ensures
            a == b,
    {
    }

    /// `secs` seconds.
    pub fn from_secs(secs: u64) -> (d: Duration)
        ensures
            d@ == secs * 1000,
    {
        Duration { millis: secs as u128 * 1000 }
    }

    pub fn from_millis(millis: u64) -> (d: Duration)
        ensures
            d@ == millis,
    {
        Duration { millis: millis as u128 }
    }

    pub fn zero() -> (d: Duration)
        ensures
            d@ == 0,
    {
        Duration { millis: 0 }
    }

    pub fn as_millis(&self) -> (m: u128)
        ensures
            m == self@,
            m <= max_millis(),
    {
        proof {
            use_type_invariant(self);
        }
        self.millis
    }

    pub fn as_secs(&self) -> (s: u64)
        ensures
            s == self@ / 1000,
    {
        proof {
            use_type_invariant(self);
        }
        (self.millis / 1000) as u64
    }

    pub fn is_zero(&self) -> (b: bool)
        ensures
            b == (self@ == 0),
    {
        self.millis == 0
    }

    pub fn saturating_sub(&self, other: Duration) -> (d: Duration)
        ensures
            d@ == (if self@ >= other@ { self@ - other@ } else { 0 }),
    {
        proof {
            use_type_invariant(self);
        }
        if self.millis >= other.millis {
            Duration { millis: self.millis - other.millis }
        } else {
            Duration { millis: 0 }
        }
    }

    /// `self + other`, saturating at the longest duration as
    /// `std::time::Duration::saturating_add` does.
    pub fn saturating_add(&self, other: Duration) -> (d: Duration)
        ensures
            d@ == imin(self@ + other@, max_millis()),
            self@ <= d@,
            other@ <= d@,
    {
        proof {
            use_type_invariant(self);
            use_type_invariant(&other);
        }
        if self.millis + other.millis > u64::MAX as u128 * 1000 + 999 {
            Duration { millis: u64::MAX as u128 * 1000 + 999 }
        } else {
            Duration { millis: self.millis + other.millis }
        }
    }

    pub fn max(&self, other: Duration) -> (d: Duration)
        ensures
            d@ == imax(self@, other@),
    {
        if self.millis >= other.millis {
            *self
        } else {
            other
        }
    }

    pub fn min(&self, other: Duration) -> (d: Duration)
        ensures
            d@ == imin(self@, other@),
    {
        if self.millis <= other.millis {
            *self
        } else {
            other
        }
    }

    /// `(self * 2).min(cap)`, the doubling step of every backoff.
    pub fn doubled_capped(&self, cap: Duration) -> (d: Duration)
        ensures
            d@ == imin(self@ * 2, cap@),
    {
        proof {
            use_type_invariant(self);
            use_type_invariant(&cap);
        }
        if self.millis * 2 > cap.millis {
            cap
        } else {
            Duration { millis: self.millis * 2 }
        }
    }
}

#[verifier::external_type_specification]
#[verifier::external_body]
pub struct ExSystemTime(std::time::SystemTime);

/// `SystemTime::now`: the reading of the system clock. Nothing is claimed
/// of it.
#[verifier::external_body]
pub(crate) fn system_now() -> (t: std::time::SystemTime) {
    std::time::SystemTime::now()
}

/// `SystemTime::duration_since(UNIX_EPOCH)` as whole seconds and the
/// nanoseconds past them, zero for a time before the epoch. The contract
/// claims what `Duration::subsec_nanos` documents: the nanoseconds are
/// below one second.
#[verifier::external_body]
pub(crate) fn since_unix_epoch(t: std::time::SystemTime) -> (r: (u64, u32))
    ensures
        r.1 < 1_000_000_000,
{
    match t.duration_since(std::time::UNIX_EPOCH) {
        Ok(d) => (d.as_secs(), d.subsec_nanos()),
        Err(_) => (0, 0),
    }
}

/// Milliseconds since the Unix epoch of a clock reading of `secs` seconds
/// and `nanos` nanoseconds.
pub open spec fn epoch_millis(secs: u64, nanos: u32) -> int {
    secs * 1000 + nanos / 1_000_000
}

/// Milliseconds since the Unix epoch of a clock reading of `secs` seconds
/// and `nanos` nanoseconds past it.
pub fn epoch_millis_of(secs: u64, nanos: u32) -> (m: u128)
    requires
        nanos < 1_000_000_000,
    ensures
        m == epoch_millis(secs, nanos),
        m <= max_millis(),
{
    secs as u128 * 1000 + (nanos / 1_000_000) as u128
}

/// Milliseconds since the Unix epoch on the system clock (zero when the
/// clock reads before the epoch). The reading itself is not claimed.
pub fn unix_now_millis() -> (m: u128)
    ensures
        m <= max_millis(),
{
    let (secs, nanos) = since_unix_epoch(system_now());
    epoch_millis_of(secs, nanos)
}

} // verus!
