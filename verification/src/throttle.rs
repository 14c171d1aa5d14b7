//! The rule that keeps a storm of accept failures from flooding the log:
//! a repeated line is suppressed until a fixed window has passed since the
//! last one emitted.

use vstd::prelude::*;

verus! {

/// How many seconds the accept-error log line is suppressed after one has
/// been emitted.
pub const ACCEPT_LOG_THROTTLE_SECS: u64 = 300;

/// Suppresses repeated log lines within a fixed window: a line may be
/// emitted only when none has been emitted within the window before now.
pub struct LogThrottle {
    window_secs: u64,
    last_emitted: Option<u64>,
}

impl LogThrottle {
    /// The width of the suppression window, in seconds.
    pub closed spec fn window(self) -> u64 {
        self.window_secs
    }

    /// When a line was last emitted, if one ever was.
    pub closed spec fn last(self) -> Option<u64> {
        self.last_emitted
    }

    /// Whether a line may be emitted at `now`: always for the first, and
    /// afterwards only once the window has passed since the last one.
    pub open spec fn permits(self, now: u64) -> bool {
        match self.last() {
            Option::None => true,
            Option::Some(t) => now >= t + self.window(),
        }
    }

    /// A throttle that has emitted nothing yet.
    pub fn new(window_secs: u64) -> (t: Self)
        ensures
            t.window() == window_secs,
            t.last() is None,
    {
        LogThrottle { window_secs, last_emitted: None }
    }

    /// Decides whether to emit a line at `now`, and remembers the emission
    /// when it permits one. A clock reading before the last emission does
    /// not permit a line.
    pub fn should_log(&mut self, now: u64) -> (emit: bool)
        ensures
            emit == old(self).permits(now),
            final(self).window() == old(self).window(),
            emit ==> final(self).last() == Some(now),
            !emit ==> final(self).last() == old(self).last(),
    {
        let emit: bool = match self.last_emitted {
            None => true,
            Some(t) => now >= t && now - t >= self.window_secs,
        };
        if emit {
            self.last_emitted = Some(now);
        }
        emit
    }
}

} // verus!
