use vstd::prelude::*;

verus! {

/// What to do with the alert command on a new reading.
#[derive(Clone, Copy, Debug, PartialEq, Eq, Structural)]
pub enum Decision {
    Fire,
    Suppress,
}

/// The abstract state of a throttler: its configuration and the time of the
/// last alert since the percentage was last above the threshold.
pub struct ThrottlerModel {
    pub threshold: u64,
    pub refire_interval: Option<u64>,
    pub has_command: bool,
    pub last_fired_at: Option<u64>,
}

/// The time from `last` to `now`, zero if the clock reads earlier.
pub open spec fn elapsed(last: u64, now: u64) -> nat {
    if now >= last {
        (now - last) as nat
    } else {
        0
    }
}

/// The decision on percentage `p` (hundredths) read at time `now`.
pub open spec fn decide(m: ThrottlerModel, p: u64, now: u64) -> Decision {
    if p > m.threshold {
        Decision::Suppress
    } else if !m.has_command {
        Decision::Suppress
    } else {
        match m.last_fired_at {
            None => Decision::Fire,
            Some(last) => match m.refire_interval {
                None => Decision::Suppress,
                Some(interval) => if elapsed(last, now) >= interval {
                    Decision::Fire
                } else {
                    Decision::Suppress
                },
            },
        }
    }
}

/// The state after percentage `p` is read at time `now`: above the threshold
/// the throttler is re-armed, and each alert records its time.
pub open spec fn after(m: ThrottlerModel, p: u64, now: u64) -> ThrottlerModel {
    if p > m.threshold {
        ThrottlerModel { last_fired_at: None, ..m }
    } else if decide(m, p, now) == Decision::Fire {
        ThrottlerModel { last_fired_at: Some(now), ..m }
    } else {
        m
    }
}

/// The decisions on a sequence of `(percentage, time)` readings.
pub open spec fn decisions(m: ThrottlerModel, readings: Seq<(u64, u64)>) -> Seq<Decision>
    decreases readings.len(),
{
    if readings.len() == 0 {
        Seq::empty()
    } else {
        let (p, now) = readings[0];
        seq![decide(m, p, now)] + decisions(after(m, p, now), readings.drop_first())
    }
}

/// Decides when a low-battery alert fires: once on crossing to or below the
/// threshold, then again after each refire interval while the percentage
/// stays low. Percentages are in hundredths of a percent; times and the
/// interval in milliseconds of a monotonic clock.
pub struct AlertThrottler {
    threshold: u64,
    refire_interval: Option<u64>,
    has_command: bool,
    last_fired_at: Option<u64>,
}

impl View for AlertThrottler {
    type V = ThrottlerModel;

    closed spec fn view(&self) -> ThrottlerModel {
        ThrottlerModel {
            threshold: self.threshold,
            refire_interval: self.refire_interval,
            has_command: self.has_command,
            last_fired_at: self.last_fired_at,
        }
    }
}

impl AlertThrottler {
    /// A throttler that has never fired.
    pub fn new(threshold: u64, refire_interval: Option<u64>, has_command: bool) -> (r:
        AlertThrottler)
        ensures
            r@ == (ThrottlerModel { threshold, refire_interval, has_command, last_fired_at: None }),
    {
        AlertThrottler { threshold, refire_interval, has_command, last_fired_at: None }
    }

    /// The time of the last alert since the throttler was last armed.
    pub fn last_fired_at(&self) -> (r: Option<u64>)
        ensures
            r == self@.last_fired_at,
    {
        self.last_fired_at
    }

    /// Takes percentage `percentage` read at time `now` and decides whether
    /// the alert fires.
    pub fn observe(&mut self, percentage: u64, now: u64) -> (d: Decision)
        ensures
            d == decide(old(self)@, percentage, now),
            final(self)@ == after(old(self)@, percentage, now),
    {
        if percentage > self.threshold {
            self.last_fired_at = None;
            return Decision::Suppress;
        }
        if !self.has_command {
            return Decision::Suppress;
        }
        let fire = match self.last_fired_at {
            None => true,
            Some(last) => match self.refire_interval {
                None => false,
                Some(interval) => {
                    let gone: u64 = if now >= last {
                        now - last
                    } else {
                        0
                    };
                    gone >= interval
                },
            },
        };
        if fire {
            self.last_fired_at = Some(now);
            Decision::Fire
        } else {
            Decision::Suppress
        }
    }
}

/// Without an alert command the throttler never fires, whatever sequence of
/// readings it is given.
pub proof fn lemma_never_fires_without_command(m: ThrottlerModel, readings: Seq<(u64, u64)>)
    requires
        !m.has_command,
    ensures
        decisions(m, readings).len() == readings.len(),
        forall|i: int|
            0 <= i < readings.len() ==> #[trigger] decisions(m, readings)[i] == Decision::Suppress,
    decreases readings.len(),
{
    if readings.len() > 0 {
        let (p, now) = readings[0];
        lemma_never_fires_without_command(after(m, p, now), readings.drop_first());
        let rest = decisions(after(m, p, now), readings.drop_first());
        assert forall|i: int| 0 <= i < readings.len() implies #[trigger] decisions(
            m,
            readings,
        )[i] == Decision::Suppress by {
            if i > 0 {
                assert(decisions(m, readings)[i] == rest[i - 1]);
            }
        }
    }
}

/// A reading above the threshold re-arms the alert: with a command
/// configured, the next reading at or below the threshold fires at once,
/// however recently the alert last fired.
pub proof fn lemma_rise_rearms(m: ThrottlerModel, high: u64, t1: u64, low: u64, t2: u64)
    requires
        m.has_command,
        high > m.threshold,
        low <= m.threshold,
    ensures
        decide(after(m, high, t1), low, t2) == Decision::Fire,
{
}

/// While the percentage stays at or below the threshold, the alert fires
/// only once the refire interval has run out since the last alert, and never
/// again when no interval is set.
pub proof fn lemma_refire_spacing(m: ThrottlerModel, p: u64, now: u64)
    requires
        p <= m.threshold,
        m.last_fired_at is Some,
        decide(m, p, now) == Decision::Fire,
    ensures
        m.refire_interval is Some,
        elapsed(m.last_fired_at->0, now) >= m.refire_interval->0,
{
}

} // verus!
