use vstd::prelude::*;

verus! {

/// The poll floor of the change feed: the shorter of the configured minimum
/// poll interval and the alert refire interval, so that the percentage is
/// read often enough for the alert to refire; either one alone if only one
/// is set; none if neither is.
pub open spec fn poll_floor(min_poll: Option<u64>, refire: Option<u64>) -> Option<u64> {
    match (min_poll, refire) {
        (Some(a), Some(b)) => Some(if a <= b { a } else { b }),
        (Some(a), None) => Some(a),
        (None, Some(b)) => Some(b),
        (None, None) => None,
    }
}

/// The effective poll floor for the given minimum poll interval and alert
/// refire interval.
pub fn min_poll_interval(min_poll: Option<u64>, refire: Option<u64>) -> (r: Option<u64>)
    ensures
        r == poll_floor(min_poll, refire),
{
    match (min_poll, refire) {
        (Some(a), Some(b)) => Some(if a <= b {
            a
        } else {
            b
        }),
        (Some(a), None) => Some(a),
        (None, Some(b)) => Some(b),
        (None, None) => None,
    }
}

/// A property of the power source whose change notification wakes the feed.
#[derive(Clone, Copy, Debug, PartialEq, Eq, Structural)]
pub enum ChangeKind {
    Energy,
    Percentage,
    ChargeState,
    BatteryLevel,
}

/// What woke a waiting feed: a change notification, or its timer.
#[derive(Clone, Copy, Debug, PartialEq, Eq, Structural)]
pub enum Wake {
    Signal(ChangeKind),
    Timer,
}

/// The time at which the poll floor runs out after a read at `last_read`:
/// none without a floor, so that only change notifications wake the feed.
pub open spec fn deadline_of(floor: Option<u64>, last_read: u64) -> Option<u64> {
    match floor {
        None => None,
        Some(f) => Some(
            if last_read + f <= u64::MAX {
                (last_read + f) as u64
            } else {
                u64::MAX
            },
        ),
    }
}

/// Whether a wake at time `now` calls for a fresh read: every change
/// notification does; the timer only once the deadline has come.
pub open spec fn reads_on(floor: Option<u64>, last_read: u64, wake: Wake, now: u64) -> bool {
    match wake {
        Wake::Signal(_) => true,
        Wake::Timer => match deadline_of(floor, last_read) {
            Some(d) => now >= d,
            None => false,
        },
    }
}

/// The decisions of the change feed: when to wake for a fresh read of the
/// power source. Times are milliseconds of a monotonic clock.
pub struct ChangeFeed {
    floor: Option<u64>,
    last_read: u64,
}

impl ChangeFeed {
    pub closed spec fn spec_floor(&self) -> Option<u64> {
        self.floor
    }

    pub closed spec fn spec_last_read(&self) -> u64 {
        self.last_read
    }

    /// A feed with the given poll floor, whose last read was at `now`.
    pub fn new(floor: Option<u64>, now: u64) -> (r: ChangeFeed)
        ensures
            r.spec_floor() == floor,
            r.spec_last_read() == now,
    {
        ChangeFeed { floor, last_read: now }
    }

    /// The poll floor.
    pub fn floor(&self) -> (r: Option<u64>)
        ensures
            r == self.spec_floor(),
    {
        self.floor
    }

    /// When the timer should wake the feed, if at all.
    pub fn deadline(&self) -> (r: Option<u64>)
        ensures
            r == deadline_of(self.spec_floor(), self.spec_last_read()),
    {
        match self.floor {
            None => None,
            Some(f) => Some(self.last_read.saturating_add(f)),
        }
    }

    /// Decides whether a wake at time `now` calls for a fresh read; if it
    /// does, the read counts as made at `now`.
    pub fn on_wake(&mut self, wake: Wake, now: u64) -> (read: bool)
        ensures
            read == reads_on(old(self).spec_floor(), old(self).spec_last_read(), wake, now),
            final(self).spec_floor() == old(self).spec_floor(),
            final(self).spec_last_read() == if read {
                now
            } else {
                old(self).spec_last_read()
            },
    {
        let read = match wake {
            Wake::Signal(_) => true,
            Wake::Timer => match self.deadline() {
                Some(d) => now >= d,
                None => false,
            },
        };
        if read {
            self.last_read = now;
        }
        read
    }
}

/// Without a poll floor the feed never wakes by itself: it has no deadline,
/// and no timer wake at any time calls for a read, so only a change
/// notification resolves a wait.
pub proof fn lemma_no_floor_no_spurious_wake(last_read: u64)
    ensures
        deadline_of(None, last_read) is None,
        forall|now: u64| !reads_on(None, last_read, Wake::Timer, now),
{
}

/// With a floor, a timer wake reads exactly once the floor has run out since
/// the last read, so no reading is older than the floor.
pub proof fn lemma_floor_bounds_staleness(f: u64, last_read: u64, now: u64)
    requires
        last_read + f <= u64::MAX,
    ensures
        reads_on(Some(f), last_read, Wake::Timer, now) <==> now >= last_read + f,
{
}

} // verus!
