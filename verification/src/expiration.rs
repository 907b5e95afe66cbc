use vstd::prelude::*;

verus! {

/// The current position of the host: its block height and its clock, in
/// nanoseconds since the epoch.
#[derive(Clone, Copy, Debug, PartialEq, Eq, Structural)]
pub struct Moment {
    pub height: u64,
    pub time: u64,
}

/// The point after which an allowance counts as zero.
#[derive(Clone, Copy, Debug, PartialEq, Eq, Structural)]
pub enum Expiration {
    /// Lapses once the block height has passed this height.
    AtHeight(u64),
    /// Lapses once the clock has passed this time.
    AtTime(u64),
    /// Never lapses. This is what a record holds when no expiration was set.
    Never,
}

impl Expiration {
    /// Whether the point lies strictly before `now`. An expiration is never
    /// written back: it is evaluated afresh on every read.
    pub open spec fn expired_at(self, now: Moment) -> bool {
        match self {
            Expiration::AtHeight(height) => now.height > height,
            Expiration::AtTime(time) => now.time > time,
            Expiration::Never => false,
        }
    }

    /// Whether the point lies strictly before `now`.
    pub fn is_expired(&self, now: &Moment) -> (lapsed: bool)
        ensures
            lapsed == self.expired_at(*now),
    {
        match self {
            Expiration::AtHeight(height) => now.height > *height,
            Expiration::AtTime(time) => now.time > *time,
            Expiration::Never => false,
        }
    }
}

impl Default for Expiration {
    fn default() -> (e: Expiration)
        ensures
            e == Expiration::Never,
    {
        Expiration::Never
    }
}

} // verus!
