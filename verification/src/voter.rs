use vstd::prelude::*;
use vstd::arithmetic::div_mod::lemma_div_is_ordered;
use crate::arith::{lemma_product_fits, lemma_share_bounded};
use crate::deposit_entry::DepositEntry;
use crate::error::RegistryError;
use crate::lockup::{Lockup, LockupKind};
use crate::registrar::{
    lemma_bonus_monotonic,
    lemma_bonus_strictly_monotonic,
    ExchangeRateEntry,
    Registrar,
    BONUS_SCALE,
};

verus! {

/// The number of deposit slots of every voter.
pub const MAX_DEPOSITS: usize = 32;

/// Voting units of one deposit: the unlocked part counts once, the locked
/// part times the bonus multiplier, rounded down.
pub open spec fn weighted_spec(unlocked_units: u64, locked_units: u64, bonus: u64) -> int {
    unlocked_units + (locked_units * bonus) / (BONUS_SCALE as int)
}

/// Voting units of one deposit from its converted parts and its bonus
/// multiplier.
pub fn weighted(unlocked_units: u64, locked_units: u64, bonus: u64) -> (r: u128)
    ensures
        r == weighted_spec(unlocked_units, locked_units, bonus),
{
    proof {
        lemma_product_fits(locked_units, bonus);
        lemma_share_bounded(locked_units * bonus, 1, BONUS_SCALE as int);
        assert(locked_units * bonus <= u64::MAX * u64::MAX) by (nonlinear_arith)
            requires
                0 <= locked_units <= u64::MAX,
                0 <= bonus <= u64::MAX,
        ;
    }
    let boosted: u128 = (locked_units as u128 * bonus as u128) / (BONUS_SCALE as u128);
    unlocked_units as u128 + boosted
}

/// What one used deposit adds to the weight at `now`: `UnknownMint` where
/// its mint is not configured, `ArithmeticOverflow` where a conversion or
/// the bonus cannot be computed, else its voting units.
pub open spec fn entry_weight_spec(entry: DepositEntry, registrar: Registrar, now: i64) -> Result<
    int,
    RegistryError,
> {
    let unlocked = entry.amount_unlocked_spec(now as int) as u64;
    let locked = entry.amount_locked_spec(now as int) as u64;
    let remaining = entry.lockup.seconds_remaining_spec(now as int) as u64;
    match registrar.rate_spec(entry.voting_mint_config_idx) {
        None => Err(RegistryError::UnknownMint),
        Some(rate) => if rate.convert_overflows(registrar.vote_decimals, unlocked)
            || rate.convert_overflows(registrar.vote_decimals, locked) || rate.bonus_spec(remaining)
            > u64::MAX {
            Err(RegistryError::ArithmeticOverflow)
        } else {
            Ok(
                weighted_spec(
                    rate.convert_spec(registrar.vote_decimals, unlocked) as u64,
                    rate.convert_spec(registrar.vote_decimals, locked) as u64,
                    rate.bonus_spec(remaining) as u64,
                ),
            )
        },
    }
}

/// What one used deposit adds to the weight at `now`.
pub fn entry_weight(entry: &DepositEntry, registrar: &Registrar, now: i64) -> (r: Result<
    u128,
    RegistryError,
>)
    ensures
        match entry_weight_spec(*entry, *registrar, now) {
            Ok(units) => r is Ok && r->Ok_0 == units,
            Err(e) => r == Err::<u128, RegistryError>(e),
        },
{
    let rate = match registrar.rate(entry.voting_mint_config_idx) {
        Ok(rate) => rate,
        Err(_) => {
            return Err(RegistryError::UnknownMint);
        },
    };
    let unlocked: u64 = entry.amount_unlocked(now);
    let locked: u64 = entry.amount_deposited_native - unlocked;
    let remaining: u64 = entry.lockup.seconds_remaining(now);
    let unlocked_units: u64 = match rate.convert(registrar.vote_decimals, unlocked) {
        Ok(units) => units,
        Err(_) => {
            return Err(RegistryError::ArithmeticOverflow);
        },
    };
    let locked_units: u64 = match rate.convert(registrar.vote_decimals, locked) {
        Ok(units) => units,
        Err(_) => {
            return Err(RegistryError::ArithmeticOverflow);
        },
    };
    let bonus: u64 = match rate.lockup_bonus(remaining) {
        Ok(bonus) => bonus,
        Err(_) => {
            return Err(RegistryError::ArithmeticOverflow);
        },
    };
    Ok(weighted(unlocked_units, locked_units, bonus))
}

/// The weight of the first `n` slots: the sum over the used ones, in slot
/// order. The first slot that fails decides the error; a sum beyond 64
/// bits is an `ArithmeticOverflow`. Unused slots are passed over.
pub open spec fn weight_prefix_spec(
    deposits: Seq<DepositEntry>,
    registrar: Registrar,
    now: i64,
    n: nat,
) -> Result<int, RegistryError>
    decreases n,
{
    if n == 0 {
        Ok(0)
    } else {
        match weight_prefix_spec(deposits, registrar, now, (n - 1) as nat) {
            Err(e) => Err(e),
            Ok(sum) => if !deposits[n - 1].is_used {
                Ok(sum)
            } else {
                match entry_weight_spec(deposits[n - 1], registrar, now) {
                    Err(e) => Err(e),
                    Ok(units) => if sum + units > u64::MAX {
                        Err(RegistryError::ArithmeticOverflow)
                    } else {
                        Ok(sum + units)
                    },
                }
            },
        }
    }
}

/// The voting weight of all of `deposits` at `now`.
pub open spec fn weight_spec(deposits: Seq<DepositEntry>, registrar: Registrar, now: i64) -> Result<
    int,
    RegistryError,
> {
    weight_prefix_spec(deposits, registrar, now, deposits.len())
}

/// Once a prefix fails, every longer prefix fails in the same way.
pub proof fn lemma_prefix_error_stays(
    deposits: Seq<DepositEntry>,
    registrar: Registrar,
    now: i64,
    n: nat,
    m: nat,
)
    requires
        n <= m,
        weight_prefix_spec(deposits, registrar, now, n) is Err,
    ensures
        weight_prefix_spec(deposits, registrar, now, m) == weight_prefix_spec(
            deposits,
            registrar,
            now,
            n,
        ),
    decreases m,
{
    if n < m {
        lemma_prefix_error_stays(deposits, registrar, now, n, (m - 1) as nat);
    }
}

/// A voter: who may act for it, which registrar it belongs to, and its
/// deposit slots.
#[derive(Clone, Debug)]
pub struct Voter {
    pub voter_authority: [u8; 32],
    pub registrar: [u8; 32],
    pub deposits: Vec<DepositEntry>,
}

impl Voter {
    /// A voter has exactly `MAX_DEPOSITS` slots, each in order.
    pub open spec fn wf(self) -> bool {
        &&& self.deposits@.len() == MAX_DEPOSITS
        &&& forall|i: int| 0 <= i < self.deposits@.len() ==> (#[trigger] self.deposits@[i]).wf()
    }

    /// The slots after an operation on slot `idx` that leaves `entry`
    /// there.
    pub open spec fn with_slot(self, idx: usize, entry: DepositEntry) -> Seq<DepositEntry> {
        self.deposits@.update(idx as int, entry)
    }

    /// A voter with every slot unused.
    pub fn new(voter_authority: [u8; 32], registrar: [u8; 32]) -> (r: Voter)
        ensures
            r.wf(),
            r.voter_authority == voter_authority,
            r.registrar == registrar,
            forall|i: int| 0 <= i < MAX_DEPOSITS ==> r.deposits@[i] == DepositEntry::unused_spec(),
    {
        let mut deposits: Vec<DepositEntry> = Vec::new();
        let mut i: usize = 0;
        while i < MAX_DEPOSITS
            invariant
                i <= MAX_DEPOSITS,
                deposits@.len() == i,
                forall|k: int| 0 <= k < i ==> deposits@[k] == DepositEntry::unused_spec(),
            decreases MAX_DEPOSITS - i,
        {
            deposits.push(DepositEntry::unused());
            i += 1;
        }
        Voter { voter_authority, registrar, deposits }
    }

    /// What `create_deposit` answers, by the state before the call.
    pub open spec fn create_outcome(
        self,
        idx: usize,
        kind: LockupKind,
        periods: u32,
        now: i64,
    ) -> Result<(), RegistryError> {
        if idx >= self.deposits@.len() || self.deposits@[idx as int].is_used {
            Err(RegistryError::InvalidState)
        } else if now + periods * kind.period_secs_spec() > i64::MAX {
            Err(RegistryError::ArithmeticOverflow)
        } else {
            Ok(())
        }
    }

    /// Puts a fresh deposit of `amount` into the unused slot `idx`, under
    /// a lockup of `periods` periods of `kind` that starts at `now`.
    /// Fails with `InvalidState` where the slot does not exist or is in
    /// use, then with `ArithmeticOverflow` where the lockup's end does
    /// not fit. On an error nothing changes.
    pub fn create_deposit(
        &mut self,
        idx: usize,
        kind: LockupKind,
        periods: u32,
        voting_mint_config_idx: u8,
        amount: u64,
        allow_clawback: bool,
        now: i64,
    ) -> (r: Result<(), RegistryError>)
        requires
            old(self).wf(),
        ensures
            final(self).wf(),
            final(self).voter_authority == old(self).voter_authority,
            final(self).registrar == old(self).registrar,
            r == old(self).create_outcome(idx, kind, periods, now),
            r is Err ==> final(self).deposits@ == old(self).deposits@,
            r is Ok ==> final(self).deposits@ == old(self).with_slot(
                idx,
                (DepositEntry {
                    is_used: true,
                    allow_clawback,
                    voting_mint_config_idx,
                    amount_deposited_native: amount,
                    amount_initially_locked_native: amount,
                    last_deposit_ts: now,
                    lockup: DepositEntry::changed_lockup(kind, periods, now),
                }),
            ),
    {
        if idx >= self.deposits.len() {
            return Err(RegistryError::InvalidState);
        }
        if self.deposits[idx].is_used {
            return Err(RegistryError::InvalidState);
        }
        let lockup: Lockup = match Lockup::new(kind, now, periods) {
            Ok(lockup) => lockup,
            Err(_) => {
                return Err(RegistryError::ArithmeticOverflow);
            },
        };
        let entry = DepositEntry::activate(
            lockup,
            voting_mint_config_idx,
            amount,
            allow_clawback,
            now,
        );
        self.deposits.set(idx, entry);
        Ok(())
    }

    /// Adds `amount` to slot `idx` at `now`, as `DepositEntry::deposit`
    /// does. A slot that does not exist is an `InvalidState`.
    pub fn deposit(&mut self, idx: usize, amount: u64, now: i64) -> (r: Result<(), RegistryError>)
        requires
            old(self).wf(),
        ensures
            final(self).wf(),
            final(self).voter_authority == old(self).voter_authority,
            final(self).registrar == old(self).registrar,
            idx >= MAX_DEPOSITS ==> r == Err::<(), RegistryError>(RegistryError::InvalidState),
            idx < MAX_DEPOSITS ==> r == old(self).deposits@[idx as int].deposit_outcome(
                amount,
                now,
            ),
            r is Err ==> final(self).deposits@ == old(self).deposits@,
            r is Ok ==> final(self).deposits@ == old(self).with_slot(
                idx,
                old(self).deposits@[idx as int].after_deposit(amount, now),
            ),
    {
        if idx >= self.deposits.len() {
            return Err(RegistryError::InvalidState);
        }
        let mut entry: DepositEntry = self.deposits[idx];
        let r = entry.deposit(amount, now);
        self.deposits.set(idx, entry);
        assert(r is Err ==> self.deposits@ =~= old(self).deposits@);
        r
    }

    /// Withdraws `amount` from slot `idx` at `now`, as
    /// `DepositEntry::withdraw` does. A slot that does not exist is an
    /// `InvalidState`.
    pub fn withdraw(&mut self, idx: usize, amount: u64, now: i64) -> (r: Result<(), RegistryError>)
        requires
            old(self).wf(),
        ensures
            final(self).wf(),
            final(self).voter_authority == old(self).voter_authority,
            final(self).registrar == old(self).registrar,
            idx >= MAX_DEPOSITS ==> r == Err::<(), RegistryError>(RegistryError::InvalidState),
            idx < MAX_DEPOSITS ==> r == old(self).deposits@[idx as int].withdraw_outcome(
                amount,
                now,
            ),
            r is Err ==> final(self).deposits@ == old(self).deposits@,
            r is Ok ==> final(self).deposits@ == old(self).with_slot(
                idx,
                old(self).deposits@[idx as int].after_withdraw(amount),
            ),
    {
        if idx >= self.deposits.len() {
            return Err(RegistryError::InvalidState);
        }
        let mut entry: DepositEntry = self.deposits[idx];
        let r = entry.withdraw(amount, now);
        self.deposits.set(idx, entry);
        assert(r is Err ==> self.deposits@ =~= old(self).deposits@);
        r
    }

    /// Claws back what is locked in slot `idx` at `now`, as
    /// `DepositEntry::clawback` does, and returns the amount taken. A
    /// slot that does not exist is an `InvalidState`.
    pub fn clawback(&mut self, idx: usize, now: i64) -> (r: Result<u64, RegistryError>)
        requires
            old(self).wf(),
        ensures
            final(self).wf(),
            final(self).voter_authority == old(self).voter_authority,
            final(self).registrar == old(self).registrar,
            idx >= MAX_DEPOSITS ==> r == Err::<u64, RegistryError>(RegistryError::InvalidState),
            idx < MAX_DEPOSITS ==> r == old(self).deposits@[idx as int].clawback_outcome(now),
            r is Ok ==> r->Ok_0 == old(self).deposits@[idx as int].amount_locked_spec(now as int),
            r is Err ==> final(self).deposits@ == old(self).deposits@,
            r is Ok ==> final(self).deposits@ == old(self).with_slot(
                idx,
                old(self).deposits@[idx as int].after_clawback(now),
            ),
    {
        if idx >= self.deposits.len() {
            return Err(RegistryError::InvalidState);
        }
        let mut entry: DepositEntry = self.deposits[idx];
        let r = entry.clawback(now);
        self.deposits.set(idx, entry);
        assert(r is Err ==> self.deposits@ =~= old(self).deposits@);
        r
    }

    /// Changes the lockup of slot `idx` at `now`, as
    /// `DepositEntry::change_lockup` does. A slot that does not exist is
    /// an `InvalidState`.
    pub fn change_lockup(&mut self, idx: usize, kind: LockupKind, periods: u32, now: i64) -> (r:
        Result<(), RegistryError>)
        requires
            old(self).wf(),
        ensures
            final(self).wf(),
            final(self).voter_authority == old(self).voter_authority,
            final(self).registrar == old(self).registrar,
            idx >= MAX_DEPOSITS ==> r == Err::<(), RegistryError>(RegistryError::InvalidState),
            idx < MAX_DEPOSITS ==> r == old(self).deposits@[idx as int].change_outcome(
                kind,
                periods,
                now,
            ),
            r is Err ==> final(self).deposits@ == old(self).deposits@,
            r is Ok ==> final(self).deposits@ == old(self).with_slot(
                idx,
                (DepositEntry {
                    lockup: DepositEntry::changed_lockup(kind, periods, now),
                    ..old(self).deposits@[idx as int]
                }),
            ),
    {
        if idx >= self.deposits.len() {
            return Err(RegistryError::InvalidState);
        }
        let mut entry: DepositEntry = self.deposits[idx];
        let r = entry.change_lockup(kind, periods, now);
        self.deposits.set(idx, entry);
        assert(r is Err ==> self.deposits@ =~= old(self).deposits@);
        r
    }

    /// The voting weight at `now`: the sum over the used slots of what
    /// each adds. One slot with an unconfigured mint, or one overflow,
    /// fails the whole computation.
    pub fn weight(&self, registrar: &Registrar, now: i64) -> (r: Result<u64, RegistryError>)
        ensures
            match weight_spec(self.deposits@, *registrar, now) {
                Ok(units) => r is Ok && r->Ok_0 == units,
                Err(e) => r == Err::<u64, RegistryError>(e),
            },
    {
        let mut total: u64 = 0;
        let mut i: usize = 0;
        while i < self.deposits.len()
            invariant
                i <= self.deposits@.len(),
                weight_prefix_spec(self.deposits@, *registrar, now, i as nat) == Ok::<
                    int,
                    RegistryError,
                >(total as int),
            decreases self.deposits@.len() - i,
        {
            let entry: DepositEntry = self.deposits[i];
            if entry.is_used {
                let outcome = entry_weight(&entry, registrar, now);
                let units: u128 = match outcome {
                    Ok(units) => units,
                    Err(e) => {
                        proof {
                            lemma_prefix_error_stays(
                                self.deposits@,
                                *registrar,
                                now,
                                (i + 1) as nat,
                                self.deposits@.len(),
                            );
                        }
                        return Err(e);
                    },
                };
                if units > (u64::MAX - total) as u128 {
                    proof {
                        lemma_prefix_error_stays(
                            self.deposits@,
                            *registrar,
                            now,
                            (i + 1) as nat,
                            self.deposits@.len(),
                        );
                    }
                    return Err(RegistryError::ArithmeticOverflow);
                }
                total = total + units as u64;
            }
            i += 1;
        }
        Ok(total)
    }
}

/// The rate that the registrar holds for the mint of `entry`.
pub open spec fn rate_of(registrar: Registrar, entry: DepositEntry) -> ExchangeRateEntry {
    registrar.rate_spec(entry.voting_mint_config_idx)->Some_0
}

/// Whether the bonus of `rate` can be told apart, after rounding, at any
/// two lockup times within its saturation time, on a locked amount of
/// `locked` native units: the maximum extra is at least one scaled unit
/// per second of the saturation time, and the locked amount converts to
/// at least `BONUS_SCALE` voting units.
pub open spec fn bonus_is_visible(rate: ExchangeRateEntry, vote_decimals: u8, locked: u64) -> bool {
    &&& rate.max_extra_lockup_bonus_scaled >= rate.lockup_saturation_secs
    &&& rate.convert_spec(vote_decimals, locked) >= BONUS_SCALE
}

/// A voter without a used slot has weight 0, whatever the registrar holds.
pub proof fn lemma_weight_of_no_deposits(
    deposits: Seq<DepositEntry>,
    registrar: Registrar,
    now: i64,
)
    requires
        forall|i: int| 0 <= i < deposits.len() ==> !(#[trigger] deposits[i]).is_used,
    ensures
        weight_spec(deposits, registrar, now) == Ok::<int, RegistryError>(0),
{
    lemma_unused_prefix(deposits, registrar, now, deposits.len());
}

/// A prefix without a used slot has weight 0.
pub proof fn lemma_unused_prefix(
    deposits: Seq<DepositEntry>,
    registrar: Registrar,
    now: i64,
    n: nat,
)
    requires
        n <= deposits.len(),
        forall|i: int| 0 <= i < deposits.len() ==> !(#[trigger] deposits[i]).is_used,
    ensures
        weight_prefix_spec(deposits, registrar, now, n) == Ok::<int, RegistryError>(0),
    decreases n,
{
    if n > 0 {
        lemma_unused_prefix(deposits, registrar, now, (n - 1) as nat);
    }
}

/// Of two deposits of one mint that hold the same unlocked and the same
/// locked amount at `now`, the one with more lockup time left weighs at
/// least as much.
pub proof fn lemma_entry_weight_monotonic(
    shorter: DepositEntry,
    longer: DepositEntry,
    registrar: Registrar,
    now: i64,
)
    requires
        shorter.voting_mint_config_idx == longer.voting_mint_config_idx,
        shorter.amount_unlocked_spec(now as int) == longer.amount_unlocked_spec(now as int),
        shorter.amount_locked_spec(now as int) == longer.amount_locked_spec(now as int),
        shorter.lockup.seconds_remaining_spec(now as int) <= longer.lockup.seconds_remaining_spec(
            now as int,
        ),
        entry_weight_spec(shorter, registrar, now) is Ok,
        entry_weight_spec(longer, registrar, now) is Ok,
    ensures
        entry_weight_spec(shorter, registrar, now)->Ok_0 <= entry_weight_spec(
            longer,
            registrar,
            now,
        )->Ok_0,
{
    let rate = registrar.rate_spec(shorter.voting_mint_config_idx)->Some_0;
    let locked = shorter.amount_locked_spec(now as int) as u64;
    let units = rate.convert_spec(registrar.vote_decimals, locked) as u64;
    let less = shorter.lockup.seconds_remaining_spec(now as int) as u64;
    let more = longer.lockup.seconds_remaining_spec(now as int) as u64;
    lemma_bonus_monotonic(rate, less, more);
    let low = rate.bonus_spec(less);
    let high = rate.bonus_spec(more);
    assert(units * low <= units * high) by (nonlinear_arith)
        requires
            0 <= units,
            low <= high,
    ;
    lemma_div_is_ordered(units * low, units * high, BONUS_SCALE as int);
}

/// Of two deposits of one mint that hold the same unlocked and the same
/// locked amount at `now`, the one with more lockup time left weighs
/// strictly more, as long as the bonus still grows and rounding cannot
/// hide the growth: both times lie within the saturation time, the
/// maximum extra is at least one scaled unit per second of it, and the
/// locked part converts to at least `BONUS_SCALE` voting units.
pub proof fn lemma_entry_weight_strictly_monotonic(
    shorter: DepositEntry,
    longer: DepositEntry,
    registrar: Registrar,
    now: i64,
)
    requires
        shorter.voting_mint_config_idx == longer.voting_mint_config_idx,
        shorter.amount_unlocked_spec(now as int) == longer.amount_unlocked_spec(now as int),
        shorter.amount_locked_spec(now as int) == longer.amount_locked_spec(now as int),
        shorter.lockup.seconds_remaining_spec(now as int) < longer.lockup.seconds_remaining_spec(
            now as int,
        ),
        entry_weight_spec(shorter, registrar, now) is Ok,
        entry_weight_spec(longer, registrar, now) is Ok,
        longer.lockup.seconds_remaining_spec(now as int) <= rate_of(
            registrar,
            shorter,
        ).lockup_saturation_secs,
        bonus_is_visible(
            rate_of(registrar, shorter),
            registrar.vote_decimals,
            shorter.amount_locked_spec(now as int) as u64,
        ),
    ensures
        entry_weight_spec(shorter, registrar, now)->Ok_0 < entry_weight_spec(
            longer,
            registrar,
            now,
        )->Ok_0,
{
    let rate = registrar.rate_spec(shorter.voting_mint_config_idx)->Some_0;
    let locked = shorter.amount_locked_spec(now as int) as u64;
    let units = rate.convert_spec(registrar.vote_decimals, locked) as u64;
    let less = shorter.lockup.seconds_remaining_spec(now as int) as u64;
    let more = longer.lockup.seconds_remaining_spec(now as int) as u64;
    lemma_bonus_strictly_monotonic(rate, less, more);
    let low = rate.bonus_spec(less);
    let high = rate.bonus_spec(more);
    let scale = BONUS_SCALE as int;
    assert(units * low + scale <= units * high) by (nonlinear_arith)
        requires
            units >= scale,
            scale > 0,
            low < high,
    ;
    lemma_div_is_ordered(units * low + scale, units * high, scale);
    assert((units * low + scale) / scale == (units * low) / scale + 1) by (nonlinear_arith)
        requires
            scale > 0,
    ;
}

/// Two sets of slots that differ in one used slot only, where the second
/// weighs `gain` more in that slot: from that slot on every prefix of the
/// second weighs `gain` more, as long as both can be computed.
pub proof fn lemma_prefix_gain(
    first: Seq<DepositEntry>,
    second: Seq<DepositEntry>,
    registrar: Registrar,
    now: i64,
    idx: int,
    gain: int,
    n: nat,
)
    requires
        first.len() == second.len(),
        0 <= idx < first.len(),
        n <= first.len(),
        forall|i: int| 0 <= i < first.len() && i != idx ==> first[i] == second[i],
        first[idx].is_used,
        second[idx].is_used,
        entry_weight_spec(first[idx], registrar, now) is Ok,
        entry_weight_spec(second[idx], registrar, now) is Ok,
        entry_weight_spec(second[idx], registrar, now)->Ok_0 == entry_weight_spec(
            first[idx],
            registrar,
            now,
        )->Ok_0 + gain,
        weight_prefix_spec(first, registrar, now, n) is Ok,
        weight_prefix_spec(second, registrar, now, n) is Ok,
    ensures
        weight_prefix_spec(second, registrar, now, n)->Ok_0 == weight_prefix_spec(
            first,
            registrar,
            now,
            n,
        )->Ok_0 + if n > idx {
            gain
        } else {
            0
        },
    decreases n,
{
    if n > 0 {
        lemma_prefix_gain(first, second, registrar, now, idx, gain, (n - 1) as nat);
    }
}

/// The weight of a voter grows with the lockup time that is left on one
/// of its deposits: where two sets of slots differ in one used slot only
/// and the second weighs more there, the second voter weighs more by the
/// same amount.
pub proof fn lemma_weight_gain(
    first: Seq<DepositEntry>,
    second: Seq<DepositEntry>,
    registrar: Registrar,
    now: i64,
    idx: int,
)
    requires
        first.len() == second.len(),
        0 <= idx < first.len(),
        forall|i: int| 0 <= i < first.len() && i != idx ==> first[i] == second[i],
        first[idx].is_used,
        second[idx].is_used,
        entry_weight_spec(first[idx], registrar, now) is Ok,
        entry_weight_spec(second[idx], registrar, now) is Ok,
        entry_weight_spec(first[idx], registrar, now)->Ok_0 <= entry_weight_spec(
            second[idx],
            registrar,
            now,
        )->Ok_0,
        weight_spec(first, registrar, now) is Ok,
        weight_spec(second, registrar, now) is Ok,
    ensures
        weight_spec(second, registrar, now)->Ok_0 - weight_spec(first, registrar, now)->Ok_0
            == entry_weight_spec(second[idx], registrar, now)->Ok_0 - entry_weight_spec(
            first[idx],
            registrar,
            now,
        )->Ok_0,
{
    let gain = entry_weight_spec(second[idx], registrar, now)->Ok_0 - entry_weight_spec(
        first[idx],
        registrar,
        now,
    )->Ok_0;
    lemma_prefix_gain(first, second, registrar, now, idx, gain, first.len());
}

/// The weight of a voter grows strictly with the lockup time that is left
/// on a deposit. Of two voters that differ in one used slot only, where
/// both deposits are of one mint and hold the same unlocked and the same
/// locked amount at `now`, the voter whose deposit has more time left
/// weighs strictly more, as long as the bonus still grows and rounding
/// cannot hide the growth: both times lie within the saturation time,
/// the maximum extra is at least one scaled unit per second of it, and
/// the locked part converts to at least `BONUS_SCALE` voting units.
pub proof fn lemma_weight_strictly_monotonic(
    first: Seq<DepositEntry>,
    second: Seq<DepositEntry>,
    registrar: Registrar,
    now: i64,
    idx: int,
)
    requires
        first.len() == second.len(),
        0 <= idx < first.len(),
        forall|i: int| 0 <= i < first.len() && i != idx ==> first[i] == second[i],
        first[idx].is_used,
        second[idx].is_used,
        first[idx].voting_mint_config_idx == second[idx].voting_mint_config_idx,
        first[idx].amount_unlocked_spec(now as int) == second[idx].amount_unlocked_spec(now as int),
        first[idx].amount_locked_spec(now as int) == second[idx].amount_locked_spec(now as int),
        first[idx].lockup.seconds_remaining_spec(now as int)
            < second[idx].lockup.seconds_remaining_spec(now as int),
        second[idx].lockup.seconds_remaining_spec(now as int) <= rate_of(
            registrar,
            first[idx],
        ).lockup_saturation_secs,
        bonus_is_visible(
            rate_of(registrar, first[idx]),
            registrar.vote_decimals,
            first[idx].amount_locked_spec(now as int) as u64,
        ),
        weight_spec(first, registrar, now) is Ok,
        weight_spec(second, registrar, now) is Ok,
    ensures
        weight_spec(first, registrar, now)->Ok_0 < weight_spec(second, registrar, now)->Ok_0,
{
    lemma_prefix_ok(first, registrar, now, (idx + 1) as nat);
    lemma_prefix_ok(second, registrar, now, (idx + 1) as nat);
    lemma_entry_weight_strictly_monotonic(first[idx], second[idx], registrar, now);
    lemma_weight_gain(first, second, registrar, now, idx);
}

/// The weight of a voter never falls as the lockup time that is left on
/// a deposit grows: of two voters that differ in one used slot only,
/// where both deposits are of one mint and hold the same unlocked and
/// the same locked amount at `now`, the voter whose deposit has more
/// time left weighs at least as much.
pub proof fn lemma_weight_monotonic(
    first: Seq<DepositEntry>,
    second: Seq<DepositEntry>,
    registrar: Registrar,
    now: i64,
    idx: int,
)
    requires
        first.len() == second.len(),
        0 <= idx < first.len(),
        forall|i: int| 0 <= i < first.len() && i != idx ==> first[i] == second[i],
        first[idx].is_used,
        second[idx].is_used,
        first[idx].voting_mint_config_idx == second[idx].voting_mint_config_idx,
        first[idx].amount_unlocked_spec(now as int) == second[idx].amount_unlocked_spec(now as int),
        first[idx].amount_locked_spec(now as int) == second[idx].amount_locked_spec(now as int),
        first[idx].lockup.seconds_remaining_spec(now as int)
            <= second[idx].lockup.seconds_remaining_spec(now as int),
        weight_spec(first, registrar, now) is Ok,
        weight_spec(second, registrar, now) is Ok,
    ensures
        weight_spec(first, registrar, now)->Ok_0 <= weight_spec(second, registrar, now)->Ok_0,
{
    lemma_prefix_ok(first, registrar, now, (idx + 1) as nat);
    lemma_prefix_ok(second, registrar, now, (idx + 1) as nat);
    lemma_entry_weight_monotonic(first[idx], second[idx], registrar, now);
    lemma_weight_gain(first, second, registrar, now, idx);
}

/// Where the whole weight can be computed, so can that of every prefix.
pub proof fn lemma_prefix_ok(deposits: Seq<DepositEntry>, registrar: Registrar, now: i64, n: nat)
    requires
        n <= deposits.len(),
        weight_spec(deposits, registrar, now) is Ok,
    ensures
        weight_prefix_spec(deposits, registrar, now, n) is Ok,
{
    if weight_prefix_spec(deposits, registrar, now, n) is Err {
        lemma_prefix_error_stays(deposits, registrar, now, n, deposits.len());
    }
}

} // verus!
