//! The break record of one task: three tiers that run one after another.

use crate::clock::{gap, instant_view, FIFTEEN_MINUTES, FIVE_MINUTES};
use vstd::prelude::*;

verus! {

/// Where a whole break stands.
#[derive(Debug, Clone, Copy, PartialEq, Eq, Structural)]
pub enum BreakStatus {
    /// The first tier has not begun.
    Started,
    /// One of the tiers is running.
    Ongoing,
    /// A tier has run its full length. A whole break is never reported so:
    /// the next tier begins at the instant the one before it completes.
    Completed,
    /// All three tiers have run their full length.
    Exceeded,
}

/// Where one tier stands.
#[derive(Debug, Clone, Copy, PartialEq, Eq, Structural)]
pub enum TierStatus {
    /// Not begun.
    Idle,
    /// Begun, and short of its length.
    Ongoing,
    /// Run to its full length.
    Completed,
}

/// The status of a tier of length `limit` that began at `started_at`, if it
/// has, and of which `elapsed` has been seen to pass.
pub open spec fn tier_status(started_at: Option<nat>, elapsed: nat, limit: nat) -> TierStatus {
    if started_at is None {
        TierStatus::Idle
    } else if elapsed >= limit {
        TierStatus::Completed
    } else {
        TierStatus::Ongoing
    }
}

/// Mathematical model of one tier.
pub struct TierView {
    /// When the tier began, if it has.
    pub started_at: Option<nat>,
    /// The tier's length once it has completed, zero before.
    pub interval: nat,
    /// How much of the tier has been seen to pass, never more than its length.
    pub elapsed: nat,
}

impl TierView {
    /// A tier that has not begun.
    pub open spec fn idle() -> TierView {
        TierView { started_at: None, interval: 0, elapsed: 0 }
    }

    /// A tier that begins at `now`.
    pub open spec fn begun(now: nat) -> TierView {
        TierView { started_at: Some(now), interval: 0, elapsed: 0 }
    }

    /// The tier's status, for a tier of length `limit`.
    pub open spec fn status(self, limit: nat) -> TierStatus {
        tier_status(self.started_at, self.elapsed, limit)
    }

    /// The tier is within its length `limit`; it shows no time before it
    /// has begun; its interval is its length once it has completed, and
    /// zero before.
    pub open spec fn wf(self, limit: nat) -> bool {
        &&& self.elapsed <= limit
        &&& self.started_at is None ==> self.elapsed == 0
        &&& self.interval == if self.elapsed == limit { limit } else { 0 }
    }

    /// What the tier shows lies at or before `clock`: if it has begun, it
    /// began that much before `clock` at least as it has been seen to run.
    pub open spec fn within(self, clock: nat) -> bool {
        self.started_at matches Some(since) ==> since + self.elapsed <= clock
    }

    /// The tier as seen at `now`: its elapsed time is the time since it
    /// began, clamped at `limit`, and never less than was seen before.
    pub open spec fn advance(self, limit: nat, now: nat) -> TierView {
        match self.started_at {
            None => self,
            Some(since) => {
                let clamped = if gap(now, since) >= limit { limit } else { gap(now, since) };
                let elapsed = if clamped >= self.elapsed { clamped } else { self.elapsed };
                TierView {
                    started_at: self.started_at,
                    interval: if elapsed == limit { limit } else { self.interval },
                    elapsed,
                }
            },
        }
    }

    /// The tier after the one before it, `prev` of length `prev_limit`, has
    /// been looked at: an idle tier begins at the instant `prev` completed.
    pub open spec fn follow(self, prev: TierView, prev_limit: nat) -> TierView {
        if self.started_at is None && prev.status(prev_limit) == TierStatus::Completed {
            TierView {
                started_at: Some(prev.started_at->0 + prev_limit),
                interval: self.interval,
                elapsed: self.elapsed,
            }
        } else {
            self
        }
    }
}

/// What an evaluation reports: the status of each tier and of the whole.
#[derive(Debug, Clone, Copy, PartialEq, Eq, Structural)]
pub struct BreakReport {
    pub tier1: TierStatus,
    pub tier2: TierStatus,
    pub tier3: TierStatus,
    pub overall: BreakStatus,
}

/// The status of the whole break, from the statuses of its tiers.
pub open spec fn overall_status(tier1: TierStatus, tier2: TierStatus, tier3: TierStatus)
    -> BreakStatus {
    if tier1 == TierStatus::Completed && tier2 == TierStatus::Completed && tier3
        == TierStatus::Completed {
        BreakStatus::Exceeded
    } else if tier1 == TierStatus::Idle {
        BreakStatus::Started
    } else {
        BreakStatus::Ongoing
    }
}

/// Mathematical model of a break record.
pub struct BreakView {
    pub status: BreakStatus,
    pub first: TierView,
    pub second: TierView,
    pub third: TierView,
}

impl BreakView {
    /// The record made at the first pause: the first tier begins at `now`.
    pub open spec fn begun(now: nat) -> BreakView {
        BreakView {
            status: BreakStatus::Ongoing,
            first: TierView::begun(now),
            second: TierView::idle(),
            third: TierView::idle(),
        }
    }

    /// Tier `k`, for `k` from 1 to 3.
    pub open spec fn tier(self, k: int) -> TierView {
        if k == 1 {
            self.first
        } else if k == 2 {
            self.second
        } else {
            self.third
        }
    }

    /// The length of tier `k`, for `k` from 1 to 3.
    pub open spec fn limit(k: int) -> nat {
        if k == 3 {
            FIFTEEN_MINUTES as nat
        } else {
            FIVE_MINUTES as nat
        }
    }

    /// The status of tier `k`, for `k` from 1 to 3.
    pub open spec fn tier_status(self, k: int) -> TierStatus {
        self.tier(k).status(Self::limit(k))
    }

    /// What the record reports: the status of each tier, and of the whole.
    pub open spec fn report(self) -> BreakReport {
        BreakReport {
            tier1: self.tier_status(1),
            tier2: self.tier_status(2),
            tier3: self.tier_status(3),
            overall: overall_status(self.tier_status(1), self.tier_status(2), self.tier_status(3)),
        }
    }

    /// Each tier is within its length; a tier has begun exactly when the one
    /// before it has completed, and began at that instant; the stored status
    /// is the one the tiers give.
    pub open spec fn wf(self) -> bool {
        &&& self.first.wf(Self::limit(1))
        &&& self.second.wf(Self::limit(2))
        &&& self.third.wf(Self::limit(3))
        &&& self.second.started_at is Some <==> self.tier_status(1) == TierStatus::Completed
        &&& self.third.started_at is Some <==> self.tier_status(2) == TierStatus::Completed
        &&& self.second.started_at matches Some(t) ==> t == self.first.started_at->0 + Self::limit(1)
        &&& self.third.started_at matches Some(t) ==> t == self.second.started_at->0 + Self::limit(2)
        &&& self.status == self.report().overall
    }

    /// What the record shows lies at or before `clock`: no tier has been
    /// seen to run past it.
    pub open spec fn within(self, clock: nat) -> bool {
        &&& self.first.within(clock)
        &&& self.second.within(clock)
        &&& self.third.within(clock)
    }

    /// The record as seen at `now`. The tiers are taken in order: each
    /// advances to `now`, and the next begins at the instant it completed.
    pub open spec fn evaluate(self, now: nat) -> BreakView {
        let first = self.first.advance(Self::limit(1), now);
        let second = self.second.follow(first, Self::limit(1)).advance(Self::limit(2), now);
        let third = self.third.follow(second, Self::limit(2)).advance(Self::limit(3), now);
        BreakView {
            status: overall_status(
                first.status(Self::limit(1)),
                second.status(Self::limit(2)),
                third.status(Self::limit(3)),
            ),
            first,
            second,
            third,
        }
    }
}

impl BreakView {
    /// A record that has just begun is well formed.
    pub proof fn begun_is_wf(now: nat)
        ensures
            Self::begun(now).wf(),
    {
    }

    /// Looking at a well-formed record leaves it well formed.
    pub proof fn evaluate_keeps_wf(self, now: nat)
        requires
            self.wf(),
        ensures
            self.evaluate(now).wf(),
    {
    }

    /// A record that has just begun shows nothing past the time at which it
    /// began.
    pub proof fn begun_is_within(now: nat)
        ensures
            Self::begun(now).within(now),
    {
    }

    /// A record that shows nothing past `clock` shows nothing past any
    /// later time.
    pub proof fn within_any_later(self, clock: nat, later: nat)
        requires
            self.within(clock),
            clock <= later,
        ensures
            self.within(later),
    {
    }

    /// A record that shows nothing past `clock`, looked at no earlier than
    /// that, shows nothing past the time at which it is looked at.
    pub proof fn evaluate_keeps_within(self, clock: nat, now: nat)
        requires
            self.wf(),
            self.within(clock),
            clock <= now,
        ensures
            self.evaluate(now).within(now),
    {
    }

    /// A record that shows nothing past `clock`, looked at no earlier than
    /// that, shows of each tier that has begun the time since it began,
    /// clamped at the tier's length.
    pub proof fn evaluate_clamps(self, clock: nat, now: nat, k: int)
        requires
            self.wf(),
            self.within(clock),
            clock <= now,
            1 <= k <= 3,
            self.evaluate(now).tier(k).started_at is Some,
        ensures
            self.evaluate(now).tier(k).elapsed == if gap(
                now,
                self.evaluate(now).tier(k).started_at->0,
            ) >= Self::limit(k) {
                Self::limit(k)
            } else {
                gap(now, self.evaluate(now).tier(k).started_at->0)
            },
    {
    }
}

/// The break record of one task.
#[derive(Debug, Clone, Copy, PartialEq, Eq)]
pub struct Break {
    pub break_status: BreakStatus,
    pub break1_started_at: Option<u64>,
    pub break2_started_at: Option<u64>,
    pub break3_started_at: Option<u64>,
    pub break_interval_1: u64,
    pub break_interval_2: u64,
    pub break_interval_3: u64,
    pub elapsed_time_1: u64,
    pub elapsed_time_2: u64,
    pub elapsed_time_3: u64,
}

impl View for Break {
    type V = BreakView;

    open spec fn view(&self) -> BreakView {
        BreakView {
            status: self.break_status,
            first: TierView {
                started_at: instant_view(self.break1_started_at),
                interval: self.break_interval_1 as nat,
                elapsed: self.elapsed_time_1 as nat,
            },
            second: TierView {
                started_at: instant_view(self.break2_started_at),
                interval: self.break_interval_2 as nat,
                elapsed: self.elapsed_time_2 as nat,
            },
            third: TierView {
                started_at: instant_view(self.break3_started_at),
                interval: self.break_interval_3 as nat,
                elapsed: self.elapsed_time_3 as nat,
            },
        }
    }
}

/// One tier seen at `now`: its frozen interval and its elapsed time.
fn advance_tier(started_at: Option<u64>, interval: u64, elapsed: u64, limit: u64, now: u64) -> (r:
    (u64, u64))
    ensures
        (TierView {
            started_at: instant_view(started_at),
            interval: r.0 as nat,
            elapsed: r.1 as nat,
        }) == (TierView {
            started_at: instant_view(started_at),
            interval: interval as nat,
            elapsed: elapsed as nat,
        }).advance(limit as nat, now as nat),
{
    match started_at {
        None => (interval, elapsed),
        Some(since) => {
            let passed: u64 = if now >= since { now - since } else { 0 };
            let clamped: u64 = if passed >= limit { limit } else { passed };
            let seen: u64 = if clamped >= elapsed { clamped } else { elapsed };
            if seen == limit {
                (limit, seen)
            } else {
                (interval, seen)
            }
        },
    }
}

/// The status of a tier of length `limit`.
fn status_of(started_at: Option<u64>, elapsed: u64, limit: u64) -> (r: TierStatus)
    ensures
        r == tier_status(instant_view(started_at), elapsed as nat, limit as nat),
{
    if started_at.is_none() {
        TierStatus::Idle
    } else if elapsed >= limit {
        TierStatus::Completed
    } else {
        TierStatus::Ongoing
    }
}

/// Whether a tier of length `limit` is well formed.
fn tier_is_wf(started_at: Option<u64>, interval: u64, elapsed: u64, limit: u64) -> (ok: bool)
    ensures
        ok == (TierView {
            started_at: instant_view(started_at),
            interval: interval as nat,
            elapsed: elapsed as nat,
        }).wf(limit as nat),
{
    elapsed <= limit && (started_at.is_some() || elapsed == 0) && interval == (if elapsed == limit {
        limit
    } else {
        0
    })
}

/// Whether what a tier shows lies at or before `clock`.
fn tier_is_within(started_at: Option<u64>, elapsed: u64, clock: u64) -> (ok: bool)
    ensures
        ok == (TierView {
            started_at: instant_view(started_at),
            interval: 0,
            elapsed: elapsed as nat,
        }).within(clock as nat),
{
    match started_at {
        Some(since) => since <= clock && elapsed <= clock - since,
        None => true,
    }
}

/// Whether a tier that began at `next`, if it has, follows rightly on one
/// of length `limit` that began at `started_at` and has the status
/// `status`: it has begun exactly if that one has completed, and at the
/// instant at which it did.
fn follows(started_at: Option<u64>, status: TierStatus, next: Option<u64>, limit: u64) -> (ok: bool)
    requires
        status == TierStatus::Completed ==> started_at is Some,
    ensures
        ok == {
            &&& next is Some <==> status == TierStatus::Completed
            &&& instant_view(next) matches Some(t) ==> t == instant_view(started_at)->0 + limit
        },
{
    match next {
        None => status != TierStatus::Completed,
        Some(t) => status == TierStatus::Completed && match started_at {
            Some(since) => t >= limit && t - limit == since,
            None => false,
        },
    }
}

/// The status of a whole break whose tiers have the given statuses.
fn overall_of(tier1: TierStatus, tier2: TierStatus, tier3: TierStatus) -> (r: BreakStatus)
    ensures
        r == overall_status(tier1, tier2, tier3),
{
    if tier1 == TierStatus::Completed && tier2 == TierStatus::Completed && tier3
        == TierStatus::Completed {
        BreakStatus::Exceeded
    } else if tier1 == TierStatus::Idle {
        BreakStatus::Started
    } else {
        BreakStatus::Ongoing
    }
}

impl Break {
    /// The record made when a task is first paused, at `now`: the first tier
    /// begins then, the other two wait.
    pub fn new(now: u64) -> (b: Break)
        ensures
            b@ == BreakView::begun(now as nat),
            b@.wf(),
            b@.within(now as nat),
    {
        Break {
            break_status: BreakStatus::Ongoing,
            break1_started_at: Some(now),
            break2_started_at: None,
            break3_started_at: None,
            break_interval_1: 0,
            break_interval_2: 0,
            break_interval_3: 0,
            elapsed_time_1: 0,
            elapsed_time_2: 0,
            elapsed_time_3: 0,
        }
    }

    /// Whether the record is well formed.
    pub fn is_wf(&self) -> (ok: bool)
        ensures
            ok == self@.wf(),
    {
        let report = self.report();
        tier_is_wf(
            self.break1_started_at,
            self.break_interval_1,
            self.elapsed_time_1,
            FIVE_MINUTES,
        ) && tier_is_wf(
            self.break2_started_at,
            self.break_interval_2,
            self.elapsed_time_2,
            FIVE_MINUTES,
        ) && tier_is_wf(
            self.break3_started_at,
            self.break_interval_3,
            self.elapsed_time_3,
            FIFTEEN_MINUTES,
        ) && follows(self.break1_started_at, report.tier1, self.break2_started_at, FIVE_MINUTES)
            && follows(self.break2_started_at, report.tier2, self.break3_started_at, FIVE_MINUTES)
            && self.break_status == report.overall
    }

    /// Whether what the record shows lies at or before `clock`.
    pub fn is_within(&self, clock: u64) -> (ok: bool)
        ensures
            ok == self@.within(clock as nat),
    {
        tier_is_within(self.break1_started_at, self.elapsed_time_1, clock) && tier_is_within(
            self.break2_started_at,
            self.elapsed_time_2,
            clock,
        ) && tier_is_within(self.break3_started_at, self.elapsed_time_3, clock)
    }

    /// The statuses that the record holds, without looking at the clock.
    pub fn report(&self) -> (r: BreakReport)
        ensures
            r == self@.report(),
    {
        let tier1 = status_of(self.break1_started_at, self.elapsed_time_1, FIVE_MINUTES);
        let tier2 = status_of(self.break2_started_at, self.elapsed_time_2, FIVE_MINUTES);
        let tier3 = status_of(self.break3_started_at, self.elapsed_time_3, FIFTEEN_MINUTES);
        BreakReport { tier1, tier2, tier3, overall: overall_of(tier1, tier2, tier3) }
    }

    /// Brings the record up to `now` and reports where it stands.
    ///
    /// This is the one place where looking changes what is looked at: a tier
    /// that is seen to have completed starts the clock of the next one.
    pub fn evaluate(&mut self, now: u64) -> (r: BreakReport)
        requires
            old(self)@.wf(),
        ensures
            final(self)@ == old(self)@.evaluate(now as nat),
            final(self)@.wf(),
            r == final(self)@.report(),
    {
        proof {
            old(self)@.evaluate_keeps_wf(now as nat);
        }
        let (interval_1, elapsed_1) = advance_tier(
            self.break1_started_at,
            self.break_interval_1,
            self.elapsed_time_1,
            FIVE_MINUTES,
            now,
        );
        self.break_interval_1 = interval_1;
        self.elapsed_time_1 = elapsed_1;
        if self.break2_started_at.is_none() && elapsed_1 >= FIVE_MINUTES {
            if let Some(since) = self.break1_started_at {
                self.break2_started_at = Some(since + FIVE_MINUTES);
            }
        }
        let (interval_2, elapsed_2) = advance_tier(
            self.break2_started_at,
            self.break_interval_2,
            self.elapsed_time_2,
            FIVE_MINUTES,
            now,
        );
        self.break_interval_2 = interval_2;
        self.elapsed_time_2 = elapsed_2;
        if self.break3_started_at.is_none() && elapsed_2 >= FIVE_MINUTES {
            if let Some(since) = self.break2_started_at {
                self.break3_started_at = Some(since + FIVE_MINUTES);
            }
        }
        let (interval_3, elapsed_3) = advance_tier(
            self.break3_started_at,
            self.break_interval_3,
            self.elapsed_time_3,
            FIFTEEN_MINUTES,
            now,
        );
        self.break_interval_3 = interval_3;
        self.elapsed_time_3 = elapsed_3;
        let r = self.report();
        self.break_status = r.overall;
        r
    }
}

} // verus!
