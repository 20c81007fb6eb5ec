//! Instants on the UTC time line.

use std::cmp::Ordering;
use vstd::prelude::*;
use vstd::std_specs::cmp::PartialOrdSpecImpl;

verus! {

/// An instant: whole seconds since 1970-01-01T00:00:00Z, and the nanoseconds
/// past that second.
///
/// Instants are ordered by `secs` first and `nanos` second. This is the order
/// that `chrono::DateTime<Utc>` has on the values it reports through
/// `timestamp()` and `timestamp_subsec_nanos()`, a leap second included, where
/// `nanos` runs past 999,999,999.
#[derive(Clone, Copy, Debug, PartialEq, Eq, Structural, Hash, Ord)]
pub struct Timestamp {
    pub secs: i64,
    pub nanos: u32,
}

impl Timestamp {
    /// `self` is strictly earlier than `other`.
    pub open spec fn is_before(self, other: Timestamp) -> bool {
        self.secs < other.secs || (self.secs == other.secs && self.nanos < other.nanos)
    }

    /// `self` is `other` or later.
    pub open spec fn is_at_or_after(self, other: Timestamp) -> bool {
        !self.is_before(other)
    }

    pub fn new(secs: i64, nanos: u32) -> (t: Timestamp)
        ensures
            t.secs == secs,
            t.nanos == nanos,
    {
        Timestamp { secs, nanos }
    }

    /// The current instant, read from the system clock by `chrono::Utc::now`
    /// and taken apart with `DateTime::timestamp` and
    /// `DateTime::timestamp_subsec_nanos`.
    ///
    /// Nothing is claimed of the value: it is whatever the clock says.
    /// `Utc::now` panics when the system clock is set before 1970.
    #[verifier::external_body]
    pub(crate) fn now() -> (t: Timestamp) {
        let now = chrono::Utc::now();
        Timestamp { secs: now.timestamp(), nanos: now.timestamp_subsec_nanos() }
    }
}

impl PartialOrd for Timestamp {
    fn partial_cmp(&self, other: &Timestamp) -> (r: Option<Ordering>) {
        if self.secs < other.secs {
            Some(Ordering::Less)
        } else if self.secs > other.secs {
            Some(Ordering::Greater)
        } else if self.nanos < other.nanos {
            Some(Ordering::Less)
        } else if self.nanos > other.nanos {
            Some(Ordering::Greater)
        } else {
            Some(Ordering::Equal)
        }
    }
}

impl PartialOrdSpecImpl for Timestamp {
    open spec fn obeys_partial_cmp_spec() -> bool {
        true
    }

    open spec fn partial_cmp_spec(&self, other: &Timestamp) -> Option<Ordering> {
        if self.is_before(*other) {
            Some(Ordering::Less)
        } else if other.is_before(*self) {
            Some(Ordering::Greater)
        } else {
            Some(Ordering::Equal)
        }
    }
}

/// Instants lie on a line: of two instants exactly one is before the other
/// unless they are the same, and what is before an earlier instant is before
/// a later one.
pub proof fn instants_are_totally_ordered(a: Timestamp, b: Timestamp, c: Timestamp)
    ensures
        a.is_before(b) || b.is_before(a) || a == b,
        !(a.is_before(b) && b.is_before(a)),
        !a.is_before(a),
        a.is_before(b) && b.is_before(c) ==> a.is_before(c),
{
}

} // verus!
