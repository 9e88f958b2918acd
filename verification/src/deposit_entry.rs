use vstd::prelude::*;
use crate::arith::{lemma_product_fits, lemma_share_bounded, lemma_share_monotonic};
use crate::error::RegistryError;
use crate::lockup::{
    lemma_vested_fraction_bounds,
    lemma_vested_fraction_monotonic,
    Lockup,
    LockupKind,
};

verus! {

/// One slot of a voter's deposits: a balance under one lockup.
#[derive(Clone, Copy, Debug, PartialEq, Eq, Structural)]
pub struct DepositEntry {
    /// An unused slot holds no funds and counts nowhere.
    pub is_used: bool,
    /// Whether the administrator may still claw back the locked part.
    pub allow_clawback: bool,
    /// Index of this deposit's mint in the registrar's rate table.
    pub voting_mint_config_idx: u8,
    /// The live balance.
    pub amount_deposited_native: u64,
    /// The amount that the vesting schedule applies to.
    pub amount_initially_locked_native: u64,
    /// Timestamp of the latest deposit into this slot.
    pub last_deposit_ts: i64,
    pub lockup: Lockup,
}

impl DepositEntry {
    /// The lockup is in order and an unused slot is empty.
    pub open spec fn wf(self) -> bool {
        &&& self.lockup.wf()
        &&& !self.is_used ==> self.amount_deposited_native == 0
    }

    /// The empty slot.
    pub open spec fn unused_spec() -> DepositEntry {
        DepositEntry {
            is_used: false,
            allow_clawback: false,
            voting_mint_config_idx: 0,
            amount_deposited_native: 0,
            amount_initially_locked_native: 0,
            last_deposit_ts: 0,
            lockup: Lockup { kind: LockupKind::NoLockup, start_ts: 0, end_ts: 0 },
        }
    }

    /// The share of the initially locked amount that the schedule has
    /// released at `now`, rounded down.
    pub open spec fn vested_spec(self, now: int) -> int {
        (self.amount_initially_locked_native * self.lockup.vested_num_spec(now))
            / self.lockup.vested_den_spec()
    }

    /// What can be withdrawn at `now`: the vested share, but never more
    /// than the balance; the whole balance where there is no lockup.
    pub open spec fn amount_unlocked_spec(self, now: int) -> int {
        if self.lockup.kind == LockupKind::NoLockup {
            self.amount_deposited_native as int
        } else if self.vested_spec(now) > self.amount_deposited_native {
            self.amount_deposited_native as int
        } else {
            self.vested_spec(now)
        }
    }

    /// What is still locked at `now`: the rest of the balance.
    pub open spec fn amount_locked_spec(self, now: int) -> int {
        self.amount_deposited_native - self.amount_unlocked_spec(now)
    }

    /// The entry after a deposit of `amount` at `now`: the balance grows,
    /// and so does the amount under the schedule while the lockup runs.
    pub open spec fn after_deposit(self, amount: u64, now: i64) -> DepositEntry {
        DepositEntry {
            amount_deposited_native: (self.amount_deposited_native + amount) as u64,
            amount_initially_locked_native: if now < self.lockup.end_ts {
                (self.amount_initially_locked_native + amount) as u64
            } else {
                self.amount_initially_locked_native
            },
            last_deposit_ts: now,
            ..self
        }
    }

    /// Whether a deposit of `amount` at `now` would leave a field too
    /// large for its type.
    pub open spec fn deposit_overflows(self, amount: u64, now: i64) -> bool {
        ||| self.amount_deposited_native + amount > u64::MAX
        ||| (now < self.lockup.end_ts && self.amount_initially_locked_native + amount > u64::MAX)
    }

    /// What `deposit` answers, by the state before the call.
    pub open spec fn deposit_outcome(self, amount: u64, now: i64) -> Result<(), RegistryError> {
        if !self.is_used {
            Err(RegistryError::InvalidState)
        } else if self.deposit_overflows(amount, now) {
            Err(RegistryError::ArithmeticOverflow)
        } else {
            Ok(())
        }
    }

    /// What `clawback` answers, by the state before the call.
    pub open spec fn clawback_outcome(self, now: i64) -> Result<u64, RegistryError> {
        if !self.is_used {
            Err(RegistryError::InvalidState)
        } else if !self.allow_clawback {
            Err(RegistryError::NotClawbackEligible)
        } else {
            Ok(self.amount_locked_spec(now as int) as u64)
        }
    }

    /// By how much a withdrawal of `amount` lowers the amount under the
    /// schedule: in proportion to the balance that leaves.
    pub open spec fn withdraw_reduction(self, amount: u64) -> int {
        if self.amount_deposited_native > 0 {
            (amount * self.amount_initially_locked_native) / (self.amount_deposited_native as int)
        } else {
            0
        }
    }

    /// The entry after a withdrawal of `amount`. A slot that is drained
    /// becomes unused.
    pub open spec fn after_withdraw(self, amount: u64) -> DepositEntry {
        DepositEntry {
            is_used: self.amount_deposited_native - amount > 0,
            amount_deposited_native: (self.amount_deposited_native - amount) as u64,
            amount_initially_locked_native: (self.amount_initially_locked_native
                - self.withdraw_reduction(amount)) as u64,
            ..self
        }
    }

    /// Where a lockup restarts when it is reset at `now`: at `now`, kept
    /// inside the lockup's own interval.
    pub open spec fn restart_ts(self, now: i64) -> i64 {
        if now < self.lockup.start_ts {
            self.lockup.start_ts
        } else if now > self.lockup.end_ts {
            self.lockup.end_ts
        } else {
            now
        }
    }

    /// The entry after a clawback at `now`: only what was vested stays,
    /// and it stays vested, so the lockup no longer holds anything back;
    /// its start moves to `now`, its end stays, and no second clawback is
    /// possible. A slot left empty becomes unused.
    pub open spec fn after_clawback(self, now: i64) -> DepositEntry {
        DepositEntry {
            is_used: self.amount_unlocked_spec(now as int) > 0,
            allow_clawback: false,
            amount_deposited_native: self.amount_unlocked_spec(now as int) as u64,
            amount_initially_locked_native: self.amount_unlocked_spec(now as int) as u64,
            lockup: Lockup {
                kind: LockupKind::NoLockup,
                start_ts: self.restart_ts(now),
                end_ts: self.lockup.end_ts,
            },
            ..self
        }
    }

    /// The lockup that `change_lockup` would install.
    pub open spec fn changed_lockup(kind: LockupKind, periods: u32, now: i64) -> Lockup {
        Lockup { kind, start_ts: now, end_ts: (now + periods * kind.period_secs_spec()) as i64 }
    }

    /// A change is allowed where it drops the lockup or leaves strictly
    /// less time locked than before.
    pub open spec fn change_allowed(self, kind: LockupKind, periods: u32, now: i64) -> bool {
        ||| kind == LockupKind::NoLockup
        ||| Self::changed_lockup(kind, periods, now).seconds_remaining_spec(now as int)
            < self.lockup.seconds_remaining_spec(now as int)
    }

    /// The empty slot.
    pub fn unused() -> (r: DepositEntry)
        ensures
            r == Self::unused_spec(),
            r.wf(),
    {
        DepositEntry {
            is_used: false,
            allow_clawback: false,
            voting_mint_config_idx: 0,
            amount_deposited_native: 0,
            amount_initially_locked_native: 0,
            last_deposit_ts: 0,
            lockup: Lockup { kind: LockupKind::NoLockup, start_ts: 0, end_ts: 0 },
        }
    }

    /// A fresh deposit of `amount` into an empty slot, under `lockup`,
    /// made at `now`. Every field is set anew.
    pub fn activate(
        lockup: Lockup,
        voting_mint_config_idx: u8,
        amount: u64,
        allow_clawback: bool,
        now: i64,
    ) -> (r: DepositEntry)
        requires
            lockup.wf(),
        ensures
            r == (DepositEntry {
                is_used: true,
                allow_clawback,
                voting_mint_config_idx,
                amount_deposited_native: amount,
                amount_initially_locked_native: amount,
                last_deposit_ts: now,
                lockup,
            }),
            r.wf(),
    {
        DepositEntry {
            is_used: true,
            allow_clawback,
            voting_mint_config_idx,
            amount_deposited_native: amount,
            amount_initially_locked_native: amount,
            last_deposit_ts: now,
            lockup,
        }
    }

    /// What can be withdrawn at `now`.
    pub fn amount_unlocked(&self, now: i64) -> (r: u64)
        ensures
            r == self.amount_unlocked_spec(now as int),
            r <= self.amount_deposited_native,
    {
        match self.lockup.kind {
            LockupKind::NoLockup => self.amount_deposited_native,
            _ => {
                let (num, den) = self.lockup.vested_fraction(now);
                let locked: u64 = self.amount_initially_locked_native;
                proof {
                    lemma_product_fits(locked, num);
                    lemma_share_bounded(locked as int, num as int, den as int);
                }
                let vested: u128 = (locked as u128 * num as u128) / (den as u128);
                if vested > self.amount_deposited_native as u128 {
                    self.amount_deposited_native
                } else {
                    vested as u64
                }
            },
        }
    }

    /// What is still locked at `now`. Together with `amount_unlocked` it
    /// makes up the balance.
    pub fn amount_locked(&self, now: i64) -> (r: u64)
        ensures
            r == self.amount_locked_spec(now as int),
            r + self.amount_unlocked_spec(now as int) == self.amount_deposited_native,
    {
        self.amount_deposited_native - self.amount_unlocked(now)
    }

    /// Adds `amount` to a used slot at `now`. Fails with `InvalidState`
    /// on an unused slot and with `ArithmeticOverflow` where a field
    /// would not hold the sum; the entry is then unchanged.
    pub fn deposit(&mut self, amount: u64, now: i64) -> (r: Result<(), RegistryError>)
        requires
            old(self).wf(),
        ensures
            final(self).wf(),
            r == old(self).deposit_outcome(amount, now),
            r is Ok ==> *final(self) == old(self).after_deposit(amount, now),
            r is Err ==> *final(self) == *old(self),
    {
        if !self.is_used {
            return Err(RegistryError::InvalidState);
        }
        let deposited: u64 = match self.amount_deposited_native.checked_add(amount) {
            Some(sum) => sum,
            None => {
                return Err(RegistryError::ArithmeticOverflow);
            },
        };
        let mut locked: u64 = self.amount_initially_locked_native;
        if self.lockup.is_active(now) {
            locked =
            match locked.checked_add(amount) {
                Some(sum) => sum,
                None => {
                    return Err(RegistryError::ArithmeticOverflow);
                },
            };
        }
        self.amount_deposited_native = deposited;
        self.amount_initially_locked_native = locked;
        self.last_deposit_ts = now;
        Ok(())
    }

    /// Takes `amount` out of the vested part at `now`. The errors, in
    /// this order: `InvalidState` on an unused slot;
    /// `SameTimestampAsDeposit` where the latest deposit was made at
    /// `now`; `InsufficientUnvested` where `amount` is more than is
    /// unlocked. On an error the entry is unchanged.
    pub fn withdraw(&mut self, amount: u64, now: i64) -> (r: Result<(), RegistryError>)
        requires
            old(self).wf(),
        ensures
            final(self).wf(),
            r == old(self).withdraw_outcome(amount, now),
            r is Ok ==> *final(self) == old(self).after_withdraw(amount),
            r is Ok ==> final(self).amount_deposited_native == old(self).amount_deposited_native
                - amount,
            r is Err ==> *final(self) == *old(self),
    {
        if !self.is_used {
            return Err(RegistryError::InvalidState);
        }
        if self.last_deposit_ts == now {
            return Err(RegistryError::SameTimestampAsDeposit);
        }
        if amount > self.amount_unlocked(now) {
            return Err(RegistryError::InsufficientUnvested);
        }
        let deposited: u64 = self.amount_deposited_native;
        let locked: u64 = self.amount_initially_locked_native;
        let mut reduction: u64 = 0;
        if deposited > 0 {
            proof {
                lemma_product_fits(locked, amount);
                lemma_share_bounded(locked as int, amount as int, deposited as int);
                assert(locked * amount == amount * locked) by (nonlinear_arith);
            }
            reduction = ((amount as u128 * locked as u128) / (deposited as u128)) as u64;
        }
        self.amount_deposited_native = deposited - amount;
        self.amount_initially_locked_native = locked - reduction;
        self.is_used = deposited - amount > 0;
        Ok(())
    }

    /// What `withdraw` answers, by the state before the call.
    pub open spec fn withdraw_outcome(self, amount: u64, now: i64) -> Result<(), RegistryError> {
        if !self.is_used {
            Err(RegistryError::InvalidState)
        } else if self.last_deposit_ts == now {
            Err(RegistryError::SameTimestampAsDeposit)
        } else if amount > self.amount_unlocked_spec(now as int) {
            Err(RegistryError::InsufficientUnvested)
        } else {
            Ok(())
        }
    }

    /// Removes the part that is locked at `now` and returns its amount,
    /// for the administrator to take. What stays is unlocked from then
    /// on. The errors, in this order:
    /// `InvalidState` on an unused slot; `NotClawbackEligible` where the
    /// entry does not allow clawback. On an error the entry is unchanged.
    pub fn clawback(&mut self, now: i64) -> (r: Result<u64, RegistryError>)
        requires
            old(self).wf(),
        ensures
            final(self).wf(),
            r == old(self).clawback_outcome(now),
            r is Ok ==> r->Ok_0 == old(self).amount_locked_spec(now as int),
            r is Ok ==> *final(self) == old(self).after_clawback(now),
            r is Err ==> *final(self) == *old(self),
    {
        if !self.is_used {
            return Err(RegistryError::InvalidState);
        }
        if !self.allow_clawback {
            return Err(RegistryError::NotClawbackEligible);
        }
        let unlocked: u64 = self.amount_unlocked(now);
        let locked: u64 = self.amount_deposited_native - unlocked;
        let restart: i64 = if now < self.lockup.start_ts {
            self.lockup.start_ts
        } else if now > self.lockup.end_ts {
            self.lockup.end_ts
        } else {
            now
        };
        self.amount_deposited_native = unlocked;
        self.amount_initially_locked_native = unlocked;
        self.lockup =
        Lockup { kind: LockupKind::NoLockup, start_ts: restart, end_ts: self.lockup.end_ts };
        self.allow_clawback = false;
        self.is_used = unlocked > 0;
        Ok(locked)
    }

    /// Replaces the lockup by one of `periods` periods of `kind` that
    /// starts at `now`. The errors, in this order: `InvalidState` on an
    /// unused slot; `ArithmeticOverflow` where the new end does not fit;
    /// `InvalidLockupChange` where the change neither drops the lockup
    /// nor shortens the time that is left. On an error the entry is
    /// unchanged.
    pub fn change_lockup(&mut self, kind: LockupKind, periods: u32, now: i64) -> (r: Result<
        (),
        RegistryError,
    >)
        requires
            old(self).wf(),
        ensures
            final(self).wf(),
            r == old(self).change_outcome(kind, periods, now),
            r is Ok ==> *final(self) == (DepositEntry {
                lockup: Self::changed_lockup(kind, periods, now),
                ..*old(self)
            }),
            r is Err ==> *final(self) == *old(self),
    {
        if !self.is_used {
            return Err(RegistryError::InvalidState);
        }
        let lockup: Lockup = match Lockup::new(kind, now, periods) {
            Ok(l) => l,
            Err(_) => {
                return Err(RegistryError::ArithmeticOverflow);
            },
        };
        let relaxes: bool = match kind {
            LockupKind::NoLockup => true,
            _ => lockup.seconds_remaining(now) < self.lockup.seconds_remaining(now),
        };
        if !relaxes {
            return Err(RegistryError::InvalidLockupChange);
        }
        self.lockup = lockup;
        Ok(())
    }

    /// What `change_lockup` answers, by the state before the call.
    pub open spec fn change_outcome(self, kind: LockupKind, periods: u32, now: i64) -> Result<
        (),
        RegistryError,
    > {
        if !self.is_used {
            Err(RegistryError::InvalidState)
        } else if now + periods * kind.period_secs_spec() > i64::MAX {
            Err(RegistryError::ArithmeticOverflow)
        } else if !self.change_allowed(kind, periods, now) {
            Err(RegistryError::InvalidLockupChange)
        } else {
            Ok(())
        }
    }

    /// Frees a used slot that holds nothing. Fails with `InvalidState`
    /// on an unused slot or one that still holds funds.
    pub fn deactivate(&mut self) -> (r: Result<(), RegistryError>)
        requires
            old(self).wf(),
        ensures
            final(self).wf(),
            r is Ok <==> old(self).is_used && old(self).amount_deposited_native == 0,
            r is Ok ==> *final(self) == Self::unused_spec(),
            r is Err ==> r == Err::<(), RegistryError>(RegistryError::InvalidState) && *final(self)
                == *old(self),
    {
        if !self.is_used || self.amount_deposited_native != 0 {
            return Err(RegistryError::InvalidState);
        }
        *self = Self::unused();
        Ok(())
    }
}

/// At every moment the unlocked and the locked amount make up the
/// balance, and neither is negative.
pub proof fn lemma_unlocked_plus_locked(entry: DepositEntry, now: int)
    ensures
        entry.amount_unlocked_spec(now) + entry.amount_locked_spec(now)
            == entry.amount_deposited_native,
        0 <= entry.amount_unlocked_spec(now) <= entry.amount_deposited_native,
        0 <= entry.amount_locked_spec(now) <= entry.amount_deposited_native,
{
    lemma_vested_fraction_bounds(entry.lockup, now);
    lemma_share_bounded(
        entry.amount_initially_locked_native as int,
        entry.lockup.vested_num_spec(now),
        entry.lockup.vested_den_spec(),
    );
}

/// The unlocked amount never shrinks as time goes on, whatever the kind
/// of lockup.
pub proof fn lemma_unlocked_monotonic(entry: DepositEntry, earlier: int, later: int)
    requires
        earlier <= later,
    ensures
        entry.amount_unlocked_spec(earlier) <= entry.amount_unlocked_spec(later),
        entry.amount_locked_spec(earlier) >= entry.amount_locked_spec(later),
{
    lemma_vested_fraction_monotonic(entry.lockup, earlier, later);
    lemma_vested_fraction_bounds(entry.lockup, earlier);
    lemma_share_monotonic(
        entry.amount_initially_locked_native as int,
        entry.lockup.vested_num_spec(earlier),
        entry.lockup.vested_num_spec(later),
        entry.lockup.vested_den_spec(),
    );
}

/// Without a lockup the whole balance is unlocked at every moment.
pub proof fn lemma_no_lockup_all_unlocked(entry: DepositEntry, now: int)
    requires
        entry.lockup.kind == LockupKind::NoLockup,
    ensures
        entry.amount_unlocked_spec(now) == entry.amount_deposited_native,
        entry.amount_locked_spec(now) == 0,
{
}

/// Under a cliff nothing is unlocked before the end. From the end on the
/// whole amount under the schedule is, capped at the balance: the whole
/// balance where the balance does not exceed that amount.
pub proof fn lemma_cliff_unlocked(entry: DepositEntry, now: int)
    requires
        entry.lockup.kind == LockupKind::Cliff,
    ensures
        now < entry.lockup.end_ts ==> entry.amount_unlocked_spec(now) == 0,
        now >= entry.lockup.end_ts && entry.amount_deposited_native
            <= entry.amount_initially_locked_native ==> entry.amount_unlocked_spec(now)
            == entry.amount_deposited_native,
        now >= entry.lockup.end_ts && entry.amount_deposited_native
            > entry.amount_initially_locked_native ==> entry.amount_unlocked_spec(now)
            == entry.amount_initially_locked_native,
{
    let locked = entry.amount_initially_locked_native as int;
    assert(locked * 0 == 0);
    assert(locked * 1 == locked);
}

/// A withdrawal at the timestamp of a deposit fails, whatever its amount:
/// right after a deposit at `now`, a withdrawal at `now` answers
/// `SameTimestampAsDeposit`. At any other timestamp, a withdrawal of no
/// more than is unlocked succeeds and lowers the balance by exactly its
/// amount.
pub proof fn lemma_withdraw_after_deposit(
    entry: DepositEntry,
    deposited: u64,
    now: i64,
    withdrawn: u64,
    later: i64,
)
    requires
        entry.wf(),
        entry.is_used,
        !entry.deposit_overflows(deposited, now),
    ensures
        entry.after_deposit(deposited, now).withdraw_outcome(withdrawn, now) == Err::<
            (),
            RegistryError,
        >(RegistryError::SameTimestampAsDeposit),
        later != now && withdrawn <= entry.after_deposit(deposited, now).amount_unlocked_spec(
            later as int,
        ) ==> entry.after_deposit(deposited, now).withdraw_outcome(withdrawn, later) == Ok::<
            (),
            RegistryError,
        >(()) && entry.after_deposit(deposited, now).after_withdraw(
            withdrawn,
        ).amount_deposited_native == entry.after_deposit(deposited, now).amount_deposited_native
            - withdrawn,
{
    lemma_unlocked_plus_locked(entry.after_deposit(deposited, now), later as int);
}

/// A clawback takes exactly what is locked and leaves exactly what is
/// unlocked, and what it leaves can be withdrawn at every moment from
/// then on.
pub proof fn lemma_clawback_leaves_unlocked(entry: DepositEntry, now: i64, later: int)
    ensures
        entry.after_clawback(now).amount_deposited_native + entry.amount_locked_spec(now as int)
            == entry.amount_deposited_native,
        entry.after_clawback(now).amount_unlocked_spec(later) == entry.amount_unlocked_spec(
            now as int,
        ),
        entry.after_clawback(now).amount_locked_spec(later) == 0,
        !entry.after_clawback(now).allow_clawback,
{
    lemma_unlocked_plus_locked(entry, now as int);
}

} // verus!
