use vstd::prelude::*;

verus! {

/// A point in time, in whole seconds since the Unix epoch.
#[derive(Clone, Copy, Debug, PartialEq, Eq, Structural)]
pub struct Timestamp {
    pub secs: u64,
}

impl View for Timestamp {
    type V = int;

    open spec fn view(&self) -> int {
        self.secs as int
    }
}

/// Seconds from `last` to `now`, zero when `now` lies before `last`.
pub open spec fn spec_elapsed(last: int, now: int) -> int {
    if now >= last {
        now - last
    } else {
        0
    }
}

impl Timestamp {
    /// Relies on std::time::SystemTime::now and duration_since(UNIX_EPOCH):
    /// the current time, in whole seconds since the Unix epoch.
    #[verifier::external_body]
    pub fn now() -> Timestamp {
        let secs = std::time::SystemTime::now()
            .duration_since(std::time::UNIX_EPOCH)
            .map_or(0, |d| d.as_secs());
        Timestamp { secs }
    }

    /// Seconds elapsed between this timestamp and the given clock reading.
    pub fn elapsed_at(&self, now: Timestamp) -> (r: u64)
        ensures
            r as int == spec_elapsed(self@, now@),
    {
        if now.secs >= self.secs {
            now.secs - self.secs
        } else {
            0
        }
    }

    /// Seconds elapsed since this timestamp, against the current clock.
    pub fn elapsed(&self) -> (r: u64)
        ensures
            exists|t: int| 0 <= t && r as int == spec_elapsed(self@, t),
    {
        let n = Timestamp::now();
        self.elapsed_at(n)
    }
}

} // verus!
