//! A holder for the latest bag of metrics, emitted while it is recent
//! enough: with a hold period, metrics older than it are no longer given
//! out; with a fresh period, they are always given out, marked fresh or
//! stale. Times are nanoseconds on one monotonic clock.

use vstd::prelude::*;

verus! {

/// The latest metrics, the time they were recorded, and the periods that
/// govern when they are given out.
#[derive(Debug)]
pub struct SharedMetricsHolder<T> {
    pub metrics: Option<(T, u128)>,
    pub hold_period: Option<u128>,
    pub fresh_period: Option<u128>,
}

/// How long ago `recorded` was at `now`, zero when `now` is earlier.
pub open spec fn elapsed(recorded: u128, now: u128) -> u128 {
    if now >= recorded {
        (now - recorded) as u128
    } else {
        0
    }
}

/// What a holder gives out at `now`: the metrics and, under a fresh
/// period, whether they are fresh; nothing when there are no metrics or
/// they are no longer newer than the hold period.
pub open spec fn available<T>(
    metrics: Option<(T, u128)>,
    hold: Option<u128>,
    fresh: Option<u128>,
    now: u128,
) -> Option<(T, Option<bool>)> {
    match metrics {
        None => None,
        Some((m, t)) => {
            let e = elapsed(t, now);
            if hold matches Some(h) && e >= h {
                None
            } else {
                Some(
                    (
                        m,
                        match fresh {
                            Some(f) => Some(e < f),
                            None => None,
                        },
                    ),
                )
            }
        },
    }
}

impl<T> SharedMetricsHolder<T> {
    /// A holder that gives metrics out only for `hold_period` after they
    /// were recorded.
    pub fn with_hold_period(hold_period: u128) -> (h: Self)
        ensures
            h.metrics is None,
            h.hold_period == Some(hold_period),
            h.fresh_period is None,
    {
        SharedMetricsHolder { metrics: None, hold_period: Some(hold_period), fresh_period: None }
    }

    /// A holder that always gives metrics out, marked fresh while they are
    /// younger than `fresh_period`.
    pub fn with_fresh_period(fresh_period: u128) -> (h: Self)
        ensures
            h.metrics is None,
            h.hold_period is None,
            h.fresh_period == Some(fresh_period),
    {
        SharedMetricsHolder { metrics: None, hold_period: None, fresh_period: Some(fresh_period) }
    }

    /// Replaces the metrics with `new_metrics`, recorded at `now`.
    pub fn update(&mut self, new_metrics: T, now: u128)
        ensures
            final(self).metrics == Some((new_metrics, now)),
            final(self).hold_period == old(self).hold_period,
            final(self).fresh_period == old(self).fresh_period,
    {
        self.metrics = Some((new_metrics, now));
    }

    /// The metrics, if they are given out at `now`, and whether they are
    /// fresh under a fresh period.
    pub fn if_available(&self, now: u128) -> (r: Option<(&T, Option<bool>)>)
        ensures
            match available(self.metrics, self.hold_period, self.fresh_period, now) {
                None => r is None,
                Some((m, fresh)) => r matches Some((rm, rf)) && *rm == m && rf == fresh,
            },
    {
        match &self.metrics {
            None => None,
            Some((m, t)) => {
                let e: u128 = if now >= *t {
                    now - *t
                } else {
                    0
                };
                if let Some(h) = self.hold_period {
                    if e >= h {
                        return None;
                    }
                }
                let fresh = match self.fresh_period {
                    Some(f) => Some(e < f),
                    None => None,
                };
                Some((m, fresh))
            },
        }
    }
}

/// Metrics just recorded are given out for as long as the hold period
/// lasts (always, without one), marked fresh while younger than the fresh
/// period.
pub proof fn lemma_update_then_available<T>(
    hold: Option<u128>,
    fresh: Option<u128>,
    m: T,
    recorded: u128,
    now: u128,
)
    requires
        recorded <= now,
        hold matches Some(h) ==> now - recorded < h,
    ensures
        available(Some((m, recorded)), hold, fresh, now) == Some(
            (
                m,
                match fresh {
                    Some(f) => Some(now - recorded < f),
                    None => None,
                },
            ),
        ),
{
}

/// Metrics no longer newer than the hold period are not given out.
pub proof fn lemma_expired_hidden<T>(hold: u128, fresh: Option<u128>, m: T, recorded: u128, now: u128)
    requires
        recorded <= now,
        now - recorded >= hold,
    ensures
        available(Some((m, recorded)), Some(hold), fresh, now) is None,
{
}

} // verus!
