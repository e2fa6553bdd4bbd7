//! The timestamp codec.
//!
//! The wire format carries every point in time as a count of
//! milliseconds since the epoch, truncated to integer precision. An
//! instant before the epoch is unrepresentable here, matching the
//! domain invariant that no administrative timestamp precedes it.

use vstd::arithmetic::div_mod::{
    lemma_div_multiples_vanish, lemma_fundamental_div_mod, lemma_fundamental_div_mod_converse,
    lemma_mod_bound,
};
use vstd::prelude::*;

verus! {

/// A point in time at or after the epoch: whole seconds since the
/// epoch plus the nanoseconds within that second, the way the platform
/// clock reports it.
#[derive(Debug, Clone, Copy, PartialEq, Eq, Structural)]
pub struct Timestamp {
    pub secs: u64,
    pub nanos: u32,
}

impl Timestamp {
    /// Well-formed: the nanoseconds never reach a full second.
    pub open spec fn wf(self) -> bool {
        self.nanos < 1_000_000_000
    }

    /// Whether this instant lies exactly on a millisecond boundary.
    pub open spec fn millisecond_granularity(self) -> bool {
        self.nanos % 1_000_000 == 0
    }

    /// The count of whole milliseconds since the epoch, truncated.
    pub open spec fn spec_millis(self) -> int {
        self.secs * 1000 + self.nanos / 1_000_000
    }

    /// Whether `self` is strictly after `other`.
    pub open spec fn spec_after(self, other: Timestamp) -> bool {
        self.secs > other.secs || (self.secs == other.secs && self.nanos > other.nanos)
    }

    /// Compares two instants.
    pub fn after(&self, other: &Timestamp) -> (r: bool)
        ensures
            r == self.spec_after(*other),
    {
        self.secs > other.secs || (self.secs == other.secs && self.nanos > other.nanos)
    }
}

/// What encoding an instant yields: its truncated millisecond count.
pub open spec fn spec_encode(t: Timestamp) -> int {
    t.spec_millis()
}

/// What a millisecond count decodes to: the instant that many whole
/// milliseconds after the epoch.
pub open spec fn spec_decode(x: int) -> Timestamp
    recommends
        0 <= x <= i64::MAX,
{
    Timestamp { secs: (x / 1000) as u64, nanos: ((x % 1000) * 1_000_000) as u32 }
}

/// Encodes an instant as milliseconds since the epoch, truncated (not
/// rounded) to integer precision.
pub fn encode_millis(t: &Timestamp) -> (r: i64)
    requires
        t.wf(),
        t.spec_millis() <= i64::MAX,
    ensures
        r == spec_encode(*t),
{
    let ms: u64 = t.secs * 1000 + (t.nanos / 1_000_000) as u64;
    ms as i64
}

/// Decodes a non-negative count of milliseconds since the epoch into
/// the instant it denotes.
pub fn decode_millis(x: i64) -> (t: Timestamp)
    requires
        0 <= x,
    ensures
        t == spec_decode(x as int),
        t.wf(),
        t.millisecond_granularity(),
{
    let secs: u64 = (x / 1000) as u64;
    let nanos: u32 = ((x % 1000) as u32) * 1_000_000;
    Timestamp { secs, nanos }
}

/// Round trip, first direction: every non-negative millisecond count
/// is recovered exactly by encoding what it decodes to.
pub proof fn lemma_encode_decode(x: int)
    requires
        0 <= x <= i64::MAX,
    ensures
        spec_encode(spec_decode(x)) == x,
        spec_decode(x).wf(),
        spec_decode(x).millisecond_granularity(),
{
    lemma_mod_bound(x, 1000);
    lemma_fundamental_div_mod(x, 1000);
    lemma_div_multiples_vanish(x % 1000, 1_000_000);
}

/// Round trip, second direction: every representable instant that lies
/// on a millisecond boundary is recovered exactly by decoding its
/// encoding.
pub proof fn lemma_decode_encode(t: Timestamp)
    requires
        t.wf(),
        t.millisecond_granularity(),
        t.spec_millis() <= i64::MAX,
    ensures
        spec_decode(spec_encode(t)) == t,
{
    let k = t.nanos / 1_000_000;
    lemma_fundamental_div_mod(t.nanos as int, 1_000_000);
    assert(t.nanos == k * 1_000_000);
    assert(0 <= k < 1000);
    lemma_fundamental_div_mod_converse(spec_encode(t), 1000, t.secs as int, k as int);
}

} // verus!
