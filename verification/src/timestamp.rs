//! Modification times as plain values.

use vstd::prelude::*;

verus! {

/// Nanoseconds in one second.
pub const NANOS_PER_SEC: i128 = 1_000_000_000;

/// A file's modification time: a signed count of nanoseconds from the Unix
/// epoch, negative for times before it.
///
/// Two timestamps are equal exactly when they name the same instant, which is
/// all a session ever asks of them.
#[derive(Clone, Copy, Debug, PartialEq, Eq, Structural)]
pub struct Timestamp {
    nanos: i128,
}

impl View for Timestamp {
    type V = int;

    closed spec fn view(&self) -> int {
        self.nanos as int
    }
}

impl Timestamp {
    /// The instant `nanos` nanoseconds from the Unix epoch.
    pub fn from_unix_nanos(nanos: i128) -> (t: Timestamp)
        ensures
            t@ == nanos,
    {
        Timestamp { nanos }
    }

    /// The instant `secs` whole seconds and `subsec_nanos` nanoseconds after
    /// the Unix epoch.
    pub fn after_epoch(secs: u64, subsec_nanos: u32) -> (t: Timestamp)
        ensures
            t@ == secs * NANOS_PER_SEC + subsec_nanos,
    {
        Timestamp { nanos: (secs as i128) * NANOS_PER_SEC + (subsec_nanos as i128) }
    }

    /// The instant `secs` whole seconds and `subsec_nanos` nanoseconds before
    /// the Unix epoch.
    pub fn before_epoch(secs: u64, subsec_nanos: u32) -> (t: Timestamp)
        ensures
            t@ == -(secs * NANOS_PER_SEC + subsec_nanos),
    {
        Timestamp { nanos: -((secs as i128) * NANOS_PER_SEC + (subsec_nanos as i128)) }
    }

    /// The signed count of nanoseconds from the Unix epoch.
    pub fn unix_nanos(&self) -> (nanos: i128)
        ensures
            nanos == self@,
    {
        self.nanos
    }

    /// Whether both name the same instant.
    pub fn same_instant(&self, other: &Timestamp) -> (same: bool)
        ensures
            same == (self@ == other@),
    {
        self.nanos == other.nanos
    }
}

/// Timestamps with the same offset from the epoch are the same value.
pub proof fn timestamp_determined_by_offset(a: Timestamp, b: Timestamp)
    ensures
        (a@ == b@) == (a == b),
{
}

} // verus!
