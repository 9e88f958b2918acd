use vstd::prelude::*;
use vstd::arithmetic::div_mod::{lemma_div_is_ordered, lemma_mod_multiples_basic};
use crate::error::RegistryError;

verus! {

/// Length of one vesting period of a daily lockup, in seconds.
pub const SECS_PER_DAY: u64 = 86_400;

/// Length of one vesting period of a monthly lockup: a twelfth of a
/// 365-day year, in seconds.
pub const SECS_PER_MONTH: u64 = 2_628_000;

/// The shape of a vesting curve.
#[derive(Clone, Copy, Debug, PartialEq, Eq, Structural)]
pub enum LockupKind {
    /// No lockup: everything is vested at once.
    NoLockup,
    /// Vests in equal steps, one per day.
    Daily,
    /// Vests in equal steps, one per month.
    Monthly,
    /// Nothing vests before the end, everything at the end.
    Cliff,
    /// A pure time lock: nothing vests while it runs, everything once
    /// its end has passed.
    Constant,
}

impl LockupKind {
    /// Seconds in one period of this kind; 0 for `NoLockup`, whose duration is
    /// always empty. `Cliff` and `Constant` lockups are measured in days.
    pub open spec fn period_secs_spec(self) -> int {
        match self {
            LockupKind::NoLockup => 0,
            LockupKind::Daily => SECS_PER_DAY as int,
            LockupKind::Monthly => SECS_PER_MONTH as int,
            LockupKind::Cliff => SECS_PER_DAY as int,
            LockupKind::Constant => SECS_PER_DAY as int,
        }
    }

    /// Whether vesting proceeds in period steps.
    pub open spec fn is_periodic_spec(self) -> bool {
        self == LockupKind::Daily || self == LockupKind::Monthly
    }

    pub fn period_secs(self) -> (r: u64)
        ensures
            r == self.period_secs_spec(),
    {
        match self {
            LockupKind::NoLockup => 0,
            LockupKind::Daily => SECS_PER_DAY,
            LockupKind::Monthly => SECS_PER_MONTH,
            LockupKind::Cliff => SECS_PER_DAY,
            LockupKind::Constant => SECS_PER_DAY,
        }
    }

    pub fn is_periodic(self) -> (r: bool)
        ensures
            r == self.is_periodic_spec(),
    {
        match self {
            LockupKind::Daily => true,
            LockupKind::Monthly => true,
            _ => false,
        }
    }
}

/// Seconds from `from` to `to`, or 0 where `to` is not later.
pub open spec fn span_spec(from: int, to: int) -> int {
    if to > from {
        to - from
    } else {
        0
    }
}

/// Seconds from `from` to `to`, or 0 where `to` is not later. The
/// difference of two `i64` always fits a `u64`.
pub fn span(from: i64, to: i64) -> (r: u64)
    ensures
        r == span_spec(from as int, to as int),
{
    if to <= from {
        0
    } else {
        let d: i128 = to as i128 - from as i128;
        d as u64
    }
}

/// A vesting schedule: a kind and the interval over which it runs.
#[derive(Clone, Copy, Debug, PartialEq, Eq, Structural)]
pub struct Lockup {
    pub kind: LockupKind,
    pub start_ts: i64,
    pub end_ts: i64,
}

impl Lockup {
    /// A lockup never ends before it starts, and one that vests in steps
    /// lasts a whole number of periods.
    pub open spec fn wf(self) -> bool {
        &&& self.start_ts <= self.end_ts
        &&& self.kind.is_periodic_spec() ==> (self.end_ts - self.start_ts)
            % self.kind.period_secs_spec() == 0
    }

    /// `max(0, end_ts - now)`.
    pub open spec fn seconds_remaining_spec(self, now: int) -> int {
        span_spec(now, self.end_ts as int)
    }

    /// Whole periods between start and end. 0 for a kind without periods.
    pub open spec fn total_periods_spec(self) -> int {
        if self.kind.period_secs_spec() > 0 {
            span_spec(self.start_ts as int, self.end_ts as int) / self.kind.period_secs_spec()
        } else {
            0
        }
    }

    /// Whole periods that have passed at `now`, never more than there are.
    /// A `now` before the start counts as the start.
    pub open spec fn periods_elapsed_spec(self, now: int) -> int {
        if self.kind.period_secs_spec() > 0 {
            let passed = span_spec(self.start_ts as int, now) / self.kind.period_secs_spec();
            if passed > self.total_periods_spec() {
                self.total_periods_spec()
            } else {
                passed
            }
        } else {
            0
        }
    }

    /// Whether this lockup vests in steps: a periodic kind that holds at
    /// least one whole period. A periodic kind shorter than one period
    /// vests like a cliff.
    pub open spec fn steps_spec(self) -> bool {
        self.kind.is_periodic_spec() && self.total_periods_spec() > 0
    }

    /// Denominator of the vested fraction. It does not depend on `now`.
    pub open spec fn vested_den_spec(self) -> int {
        if self.steps_spec() {
            self.total_periods_spec()
        } else {
            1
        }
    }

    /// Numerator of the vested fraction at `now`, over `vested_den_spec`.
    pub open spec fn vested_num_spec(self, now: int) -> int {
        if self.kind == LockupKind::NoLockup {
            1
        } else if self.steps_spec() {
            self.periods_elapsed_spec(now)
        } else if now < self.end_ts {
            0
        } else {
            1
        }
    }

    /// Where a lockup of `periods` periods of `kind` ends that starts at
    /// `start_ts`.
    pub open spec fn end_spec(kind: LockupKind, start_ts: i64, periods: u32) -> int {
        start_ts + periods * kind.period_secs_spec()
    }

    /// A lockup of `periods` periods of `kind` that starts at `start_ts`.
    /// A `NoLockup` lockup is empty whatever `periods` says. Fails with
    /// `ArithmeticOverflow` exactly where the end does not fit an `i64`.
    pub fn new(kind: LockupKind, start_ts: i64, periods: u32) -> (r: Result<Lockup, RegistryError>)
        ensures
            Self::end_spec(kind, start_ts, periods) <= i64::MAX ==> r == Ok::<
                Lockup,
                RegistryError,
            >((Lockup { kind, start_ts, end_ts: Self::end_spec(kind, start_ts, periods) as i64 })),
            Self::end_spec(kind, start_ts, periods) > i64::MAX ==> r == Err::<
                Lockup,
                RegistryError,
            >(RegistryError::ArithmeticOverflow),
            r is Ok ==> r->Ok_0.wf() && r->Ok_0.end_ts == Self::end_spec(kind, start_ts, periods),
    {
        let secs: u64 = kind.period_secs();
        assert(periods * secs <= 0xffff_ffff * 2_628_000) by (nonlinear_arith)
            requires
                0 <= periods <= 0xffff_ffff,
                0 <= secs <= 2_628_000,
        ;
        proof {
            if secs > 0 {
                lemma_mod_multiples_basic(periods as int, secs as int);
            }
        }
        let duration: i128 = periods as i128 * secs as i128;
        let end: i128 = start_ts as i128 + duration;
        if end > i64::MAX as i128 {
            Err(RegistryError::ArithmeticOverflow)
        } else {
            Ok(Lockup { kind, start_ts, end_ts: end as i64 })
        }
    }

    /// Whether the lockup is in order.
    pub fn is_well_formed(&self) -> (r: bool)
        ensures
            r == self.wf(),
    {
        if self.start_ts > self.end_ts {
            false
        } else if self.kind.is_periodic() {
            span(self.start_ts, self.end_ts) % self.kind.period_secs() == 0
        } else {
            true
        }
    }

    /// `max(0, end_ts - now)`.
    pub fn seconds_remaining(&self, now: i64) -> (r: u64)
        ensures
            r == self.seconds_remaining_spec(now as int),
    {
        span(now, self.end_ts)
    }

    /// Whether time is left on the lockup at `now`.
    pub fn is_active(&self, now: i64) -> (r: bool)
        ensures
            r == (self.seconds_remaining_spec(now as int) > 0),
            r == (now < self.end_ts),
    {
        now < self.end_ts
    }

    /// The vested fraction at `now` as numerator and denominator. The
    /// fraction lies between 0 and 1 and the denominator is positive.
    pub fn vested_fraction(&self, now: i64) -> (r: (u64, u64))
        ensures
            r.0 == self.vested_num_spec(now as int),
            r.1 == self.vested_den_spec(),
            r.0 <= r.1,
            r.1 > 0,
    {
        let cliff: (u64, u64) = if now < self.end_ts {
            (0, 1)
        } else {
            (1, 1)
        };
        match self.kind {
            LockupKind::NoLockup => (1, 1),
            LockupKind::Cliff => cliff,
            LockupKind::Constant => cliff,
            _ => {
                let secs: u64 = self.kind.period_secs();
                let total: u64 = span(self.start_ts, self.end_ts) / secs;
                if total == 0 {
                    cliff
                } else {
                    let passed: u64 = span(self.start_ts, now) / secs;
                    if passed > total {
                        (total, total)
                    } else {
                        (passed, total)
                    }
                }
            },
        }
    }
}

/// The vested fraction never shrinks as time goes on: between two moments
/// the denominator is the same and the numerator does not fall.
pub proof fn lemma_vested_fraction_monotonic(lockup: Lockup, earlier: int, later: int)
    requires
        earlier <= later,
    ensures
        lockup.vested_num_spec(earlier) <= lockup.vested_num_spec(later),
        lockup.vested_num_spec(earlier) * lockup.vested_den_spec() <= lockup.vested_num_spec(later)
            * lockup.vested_den_spec(),
{
    let secs = lockup.kind.period_secs_spec();
    if secs > 0 {
        lemma_div_is_ordered(
            span_spec(lockup.start_ts as int, earlier),
            span_spec(lockup.start_ts as int, later),
            secs,
        );
    }
    let a = lockup.vested_num_spec(earlier);
    let b = lockup.vested_num_spec(later);
    let d = lockup.vested_den_spec();
    assert(a * d <= b * d) by (nonlinear_arith)
        requires
            a <= b,
            d > 0,
    ;
}

/// The vested fraction lies between 0 and 1 at every moment.
pub proof fn lemma_vested_fraction_bounds(lockup: Lockup, now: int)
    ensures
        0 <= lockup.vested_num_spec(now) <= lockup.vested_den_spec(),
        lockup.vested_den_spec() > 0,
{
    let secs = lockup.kind.period_secs_spec();
    if secs > 0 {
        let s = span_spec(lockup.start_ts as int, now);
        assert(s / secs >= 0) by (nonlinear_arith)
            requires
                s >= 0,
                secs > 0,
        ;
    }
}

} // verus!
