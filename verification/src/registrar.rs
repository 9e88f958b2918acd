use vstd::prelude::*;
use vstd::arithmetic::div_mod::lemma_div_is_ordered;
use crate::arith::{lemma_product_fits, lemma_share_bounded, lemma_share_monotonic};
use crate::error::RegistryError;

verus! {

/// The bonus multiplier is a fixed-point number: this value stands for 1.0.
pub const BONUS_SCALE: u64 = 1_000_000_000;

/// `10^e`.
pub open spec fn pow10_spec(e: nat) -> nat
    decreases e,
{
    if e == 0 {
        1
    } else {
        10 * pow10_spec((e - 1) as nat)
    }
}

/// Powers of ten are positive and grow with the exponent.
pub proof fn lemma_pow10_monotonic(a: nat, b: nat)
    requires
        a <= b,
    ensures
        1 <= pow10_spec(a) <= pow10_spec(b),
    decreases b,
{
    if a == 0 {
        if b > 0 {
            lemma_pow10_monotonic(0, (b - 1) as nat);
        }
    } else {
        lemma_pow10_monotonic((a - 1) as nat, (b - 1) as nat);
    }
}

/// `10^e`, or `None` exactly where it does not fit 64 bits.
pub fn pow10(e: u8) -> (r: Option<u64>)
    ensures
        pow10_spec(e as nat) <= u64::MAX ==> r == Some(pow10_spec(e as nat) as u64),
        pow10_spec(e as nat) > u64::MAX ==> r is None,
{
    let mut power: u64 = 1;
    let mut i: u8 = 0;
    while i < e
        invariant
            i <= e,
            power == pow10_spec(i as nat),
        decreases e - i,
    {
        match power.checked_mul(10) {
            Some(next) => {
                power = next;
            },
            None => {
                proof {
                    lemma_pow10_monotonic((i + 1) as nat, e as nat);
                }
                return None;
            },
        }
        i += 1;
    }
    Some(power)
}

/// Whether two 32-byte identities are the same.
pub fn same_identity(a: &[u8; 32], b: &[u8; 32]) -> (r: bool)
    ensures
        r == (a@ == b@),
{
    let mut i: usize = 0;
    while i < 32
        invariant
            i <= 32,
            forall|k: int| 0 <= k < i ==> a@[k] == b@[k],
        decreases 32 - i,
    {
        if a[i] != b[i] {
            return false;
        }
        i += 1;
    }
    assert(a@ =~= b@);
    true
}

/// How one mint counts towards voting weight.
#[derive(Clone, Copy, Debug)]
pub struct ExchangeRateEntry {
    /// Identity of the token.
    pub mint: [u8; 32],
    /// Decimal places of the token's native unit.
    pub decimals: u8,
    /// The conversion rate to voting units, as a fraction.
    pub rate_numerator: u64,
    pub rate_denominator: u64,
    /// What a lockup of at least `lockup_saturation_secs` adds to the
    /// multiplier, in units of `1 / BONUS_SCALE`.
    pub max_extra_lockup_bonus_scaled: u64,
    /// The remaining lockup time from which the bonus no longer grows.
    pub lockup_saturation_secs: u64,
}

impl ExchangeRateEntry {
    /// Field-wise equality.
    pub open spec fn same_as(self, other: ExchangeRateEntry) -> bool {
        &&& self.mint@ == other.mint@
        &&& self.decimals == other.decimals
        &&& self.rate_numerator == other.rate_numerator
        &&& self.rate_denominator == other.rate_denominator
        &&& self.max_extra_lockup_bonus_scaled == other.max_extra_lockup_bonus_scaled
        &&& self.lockup_saturation_secs == other.lockup_saturation_secs
    }

    /// The factor that lifts an amount of this mint to `vote_decimals`
    /// decimal places, where the mint has fewer.
    pub open spec fn scale_up_spec(self, vote_decimals: u8) -> nat {
        if vote_decimals >= self.decimals {
            pow10_spec((vote_decimals - self.decimals) as nat)
        } else {
            1
        }
    }

    /// The divisor that brings an amount of this mint down to
    /// `vote_decimals` decimal places, where the mint has more.
    pub open spec fn scale_down_spec(self, vote_decimals: u8) -> nat {
        if self.decimals > vote_decimals {
            pow10_spec((self.decimals - vote_decimals) as nat)
        } else {
            1
        }
    }

    /// Voting units for `amount` native units: the amount times the rate,
    /// shifted from the mint's decimals to the voting unit's, rounded
    /// down once at the end.
    pub open spec fn convert_spec(self, vote_decimals: u8, amount: u64) -> int {
        (amount * self.rate_numerator * self.scale_up_spec(vote_decimals)) / (
        self.rate_denominator * self.scale_down_spec(vote_decimals))
    }

    /// Whether the conversion cannot be carried out: a zero denominator,
    /// a decimal shift beyond 64 bits, a numerator beyond 128 bits, or a
    /// result beyond 64 bits.
    pub open spec fn convert_overflows(self, vote_decimals: u8, amount: u64) -> bool {
        ||| self.rate_denominator == 0
        ||| self.scale_up_spec(vote_decimals) > u64::MAX
        ||| self.scale_down_spec(vote_decimals) > u64::MAX
        ||| amount * self.rate_numerator * self.scale_up_spec(vote_decimals) > u128::MAX
        ||| self.convert_spec(vote_decimals, amount) > u64::MAX
    }

    /// What the lockup adds to the multiplier at `remaining` seconds: a
    /// linear ramp from nothing to the maximum over the saturation time,
    /// flat after it. With a saturation time of 0 any time that is left
    /// earns the maximum.
    pub open spec fn extra_bonus_spec(self, remaining: u64) -> int {
        if self.lockup_saturation_secs == 0 {
            if remaining > 0 {
                self.max_extra_lockup_bonus_scaled as int
            } else {
                0
            }
        } else if remaining >= self.lockup_saturation_secs {
            self.max_extra_lockup_bonus_scaled as int
        } else {
            (self.max_extra_lockup_bonus_scaled * remaining) / (self.lockup_saturation_secs as int)
        }
    }

    /// The multiplier at `remaining` seconds of lockup, in units of
    /// `1 / BONUS_SCALE`.
    pub open spec fn bonus_spec(self, remaining: u64) -> int {
        BONUS_SCALE + self.extra_bonus_spec(remaining)
    }

    /// Voting units for `amount` native units. Fails with
    /// `ArithmeticOverflow` exactly where `convert_overflows` holds.
    pub fn convert(&self, vote_decimals: u8, amount: u64) -> (r: Result<u64, RegistryError>)
        ensures
            self.convert_overflows(vote_decimals, amount) ==> r == Err::<u64, RegistryError>(
                RegistryError::ArithmeticOverflow,
            ),
            !self.convert_overflows(vote_decimals, amount) ==> r is Ok && r->Ok_0
                == self.convert_spec(vote_decimals, amount),
    {
        if self.rate_denominator == 0 {
            return Err(RegistryError::ArithmeticOverflow);
        }
        let mut shift_up: u8 = 0;
        let mut shift_down: u8 = 0;
        if vote_decimals >= self.decimals {
            shift_up = vote_decimals - self.decimals;
        } else {
            shift_down = self.decimals - vote_decimals;
        }
        assert(pow10_spec(0) == 1);
        let up: u64 = match pow10(shift_up) {
            Some(p) => p,
            None => {
                return Err(RegistryError::ArithmeticOverflow);
            },
        };
        let down: u64 = match pow10(shift_down) {
            Some(p) => p,
            None => {
                return Err(RegistryError::ArithmeticOverflow);
            },
        };
        proof {
            lemma_product_fits(amount, self.rate_numerator);
            lemma_product_fits(self.rate_denominator, down);
            lemma_pow10_monotonic(0, shift_down as nat);
            assert(self.rate_denominator * down > 0) by (nonlinear_arith)
                requires
                    self.rate_denominator > 0,
                    down > 0,
            ;
        }
        let product: u128 = amount as u128 * self.rate_numerator as u128;
        let numerator: u128 = match product.checked_mul(up as u128) {
            Some(n) => n,
            None => {
                return Err(RegistryError::ArithmeticOverflow);
            },
        };
        let denominator: u128 = self.rate_denominator as u128 * down as u128;
        let units: u128 = numerator / denominator;
        if units > u64::MAX as u128 {
            Err(RegistryError::ArithmeticOverflow)
        } else {
            Ok(units as u64)
        }
    }

    /// The multiplier at `remaining` seconds of lockup, in units of
    /// `1 / BONUS_SCALE`. It is at least `BONUS_SCALE`, that is 1.0. Fails
    /// with `ArithmeticOverflow` exactly where it does not fit 64 bits.
    pub fn lockup_bonus(&self, remaining: u64) -> (r: Result<u64, RegistryError>)
        ensures
            self.bonus_spec(remaining) > u64::MAX ==> r == Err::<u64, RegistryError>(
                RegistryError::ArithmeticOverflow,
            ),
            self.bonus_spec(remaining) <= u64::MAX ==> r is Ok && r->Ok_0 == self.bonus_spec(
                remaining,
            ),
            r is Ok ==> r->Ok_0 >= BONUS_SCALE,
    {
        let most: u64 = self.max_extra_lockup_bonus_scaled;
        let saturation: u64 = self.lockup_saturation_secs;
        let mut extra: u64 = most;
        if saturation == 0 {
            if remaining == 0 {
                extra = 0;
            }
        } else if remaining < saturation {
            proof {
                lemma_product_fits(most, remaining);
                lemma_share_bounded(most as int, remaining as int, saturation as int);
            }
            extra = ((most as u128 * remaining as u128) / (saturation as u128)) as u64;
        }
        match BONUS_SCALE.checked_add(extra) {
            Some(bonus) => Ok(bonus),
            None => Err(RegistryError::ArithmeticOverflow),
        }
    }
}

/// The table of exchange rates, one slot per mint index, with the decimal
/// places of the voting unit and a clock offset for simulation.
#[derive(Clone, Debug)]
pub struct Registrar {
    /// The slots, by mint index. An empty slot is an unconfigured mint.
    pub mints: Vec<Option<ExchangeRateEntry>>,
    /// Decimal places of the voting unit that every mint is brought to.
    pub vote_decimals: u8,
    /// What is added to the host's clock to get "now".
    pub time_offset: i64,
}

impl Registrar {
    /// The rate configured at `idx`, if there is one.
    pub open spec fn rate_spec(self, idx: u8) -> Option<ExchangeRateEntry> {
        if idx < self.mints@.len() {
            self.mints@[idx as int]
        } else {
            None
        }
    }

    /// A table of `capacity` unconfigured slots, with no clock offset.
    pub fn new(capacity: u8, vote_decimals: u8) -> (r: Registrar)
        ensures
            r.mints@.len() == capacity,
            forall|idx: u8| r.rate_spec(idx) is None,
            r.vote_decimals == vote_decimals,
            r.time_offset == 0,
    {
        let mut mints: Vec<Option<ExchangeRateEntry>> = Vec::new();
        let mut i: u8 = 0;
        while i < capacity
            invariant
                i <= capacity,
                mints@.len() == i,
                forall|k: int| 0 <= k < i ==> mints@[k] is None,
            decreases capacity - i,
        {
            mints.push(None);
            i += 1;
        }
        Registrar { mints, vote_decimals, time_offset: 0 }
    }

    /// The rate configured at `idx`. Fails with `UnknownMint` where `idx`
    /// is out of range or the slot is empty.
    pub fn rate(&self, idx: u8) -> (r: Result<ExchangeRateEntry, RegistryError>)
        ensures
            match self.rate_spec(idx) {
                Some(rate) => r == Ok::<ExchangeRateEntry, RegistryError>(rate),
                None => r == Err::<ExchangeRateEntry, RegistryError>(RegistryError::UnknownMint),
            },
    {
        if (idx as usize) < self.mints.len() {
            match self.mints[idx as usize] {
                Some(rate) => Ok(rate),
                None => Err(RegistryError::UnknownMint),
            }
        } else {
            Err(RegistryError::UnknownMint)
        }
    }

    /// Configures the mint at `idx`. Doing so again with the same entry
    /// changes nothing and succeeds. Fails with `UnknownMint` where `idx`
    /// is out of range and with `InvalidState` where the slot holds a
    /// different entry; the table is then unchanged.
    pub fn add_mint(&mut self, idx: u8, entry: ExchangeRateEntry) -> (r: Result<(), RegistryError>)
        ensures
            final(self).vote_decimals == old(self).vote_decimals,
            final(self).time_offset == old(self).time_offset,
            idx >= old(self).mints@.len() ==> r == Err::<(), RegistryError>(
                RegistryError::UnknownMint,
            ),
            idx < old(self).mints@.len() ==> match old(self).mints@[idx as int] {
                None => r is Ok,
                Some(present) => if present.same_as(entry) {
                    r is Ok
                } else {
                    r == Err::<(), RegistryError>(RegistryError::InvalidState)
                },
            },
            r is Ok ==> final(self).mints@.len() == old(self).mints@.len(),
            r is Ok ==> final(self).rate_spec(idx) is Some && final(self).rate_spec(
                idx,
            )->Some_0.same_as(entry),
            r is Ok ==> forall|other: u8|
                other != idx ==> final(self).rate_spec(other) == old(self).rate_spec(other),
            r is Err ==> final(self).mints@ == old(self).mints@,
    {
        if (idx as usize) >= self.mints.len() {
            return Err(RegistryError::UnknownMint);
        }
        match self.mints[idx as usize] {
            Some(present) => {
                let same: bool = same_identity(&present.mint, &entry.mint) && present.decimals
                    == entry.decimals && present.rate_numerator == entry.rate_numerator
                    && present.rate_denominator == entry.rate_denominator
                    && present.max_extra_lockup_bonus_scaled == entry.max_extra_lockup_bonus_scaled
                    && present.lockup_saturation_secs == entry.lockup_saturation_secs;
                if same {
                    Ok(())
                } else {
                    Err(RegistryError::InvalidState)
                }
            },
            None => {
                self.mints.set(idx as usize, Some(entry));
                Ok(())
            },
        }
    }

    /// Replaces the rate of the mint at `idx` and nothing else. Fails
    /// with `UnknownMint` exactly where the mint is not configured.
    pub fn set_rate(&mut self, idx: u8, numerator: u64, denominator: u64) -> (r: Result<
        (),
        RegistryError,
    >)
        ensures
            final(self).vote_decimals == old(self).vote_decimals,
            final(self).time_offset == old(self).time_offset,
            old(self).rate_spec(idx) is None ==> r == Err::<(), RegistryError>(
                RegistryError::UnknownMint,
            ) && final(self).mints@ == old(self).mints@,
            old(self).rate_spec(idx) is Some ==> r is Ok,
            old(self).rate_spec(idx) is Some ==> final(self).mints@ == old(self).mints@.update(
                idx as int,
                Some(
                    (ExchangeRateEntry {
                        rate_numerator: numerator,
                        rate_denominator: denominator,
                        ..old(self).rate_spec(idx)->Some_0
                    }),
                ),
            ),
    {
        match self.rate(idx) {
            Ok(rate) => {
                let updated = ExchangeRateEntry {
                    mint: rate.mint,
                    decimals: rate.decimals,
                    rate_numerator: numerator,
                    rate_denominator: denominator,
                    max_extra_lockup_bonus_scaled: rate.max_extra_lockup_bonus_scaled,
                    lockup_saturation_secs: rate.lockup_saturation_secs,
                };
                self.mints.set(idx as usize, Some(updated));
                Ok(())
            },
            Err(_) => Err(RegistryError::UnknownMint),
        }
    }

    /// What `convert` answers.
    pub open spec fn convert_spec(self, idx: u8, amount: u64) -> Result<u64, RegistryError> {
        match self.rate_spec(idx) {
            None => Err(RegistryError::UnknownMint),
            Some(rate) => if rate.convert_overflows(self.vote_decimals, amount) {
                Err(RegistryError::ArithmeticOverflow)
            } else {
                Ok(rate.convert_spec(self.vote_decimals, amount) as u64)
            },
        }
    }

    /// What `lockup_bonus` answers.
    pub open spec fn lockup_bonus_spec(self, idx: u8, remaining: u64) -> Result<
        u64,
        RegistryError,
    > {
        match self.rate_spec(idx) {
            None => Err(RegistryError::UnknownMint),
            Some(rate) => if rate.bonus_spec(remaining) > u64::MAX {
                Err(RegistryError::ArithmeticOverflow)
            } else {
                Ok(rate.bonus_spec(remaining) as u64)
            },
        }
    }

    /// Voting units for `amount` native units of the mint at `idx`.
    pub fn convert(&self, idx: u8, amount: u64) -> (r: Result<u64, RegistryError>)
        ensures
            r == self.convert_spec(idx, amount),
            r is Ok ==> r->Ok_0 == self.rate_spec(idx)->Some_0.convert_spec(
                self.vote_decimals,
                amount,
            ),
    {
        match self.rate(idx) {
            Ok(rate) => rate.convert(self.vote_decimals, amount),
            Err(_) => Err(RegistryError::UnknownMint),
        }
    }

    /// The bonus multiplier of the mint at `idx` for `remaining` seconds
    /// of lockup, in units of `1 / BONUS_SCALE`.
    pub fn lockup_bonus(&self, idx: u8, remaining: u64) -> (r: Result<u64, RegistryError>)
        ensures
            r == self.lockup_bonus_spec(idx, remaining),
            r is Ok ==> r->Ok_0 == self.rate_spec(idx)->Some_0.bonus_spec(remaining),
    {
        match self.rate(idx) {
            Ok(rate) => rate.lockup_bonus(remaining),
            Err(_) => Err(RegistryError::UnknownMint),
        }
    }

    /// Sets the clock offset and nothing else.
    pub fn set_time_offset(&mut self, offset: i64)
        ensures
            final(self).time_offset == offset,
            final(self).vote_decimals == old(self).vote_decimals,
            final(self).mints@ == old(self).mints@,
    {
        self.time_offset = offset;
    }

    /// "Now" for this registrar: the host's clock plus the offset. Fails
    /// with `ArithmeticOverflow` exactly where the sum does not fit.
    pub fn clock(&self, host_now: i64) -> (r: Result<i64, RegistryError>)
        ensures
            i64::MIN <= host_now + self.time_offset <= i64::MAX ==> r is Ok && r->Ok_0 == host_now
                + self.time_offset,
            !(i64::MIN <= host_now + self.time_offset <= i64::MAX) ==> r == Err::<
                i64,
                RegistryError,
            >(RegistryError::ArithmeticOverflow),
    {
        match host_now.checked_add(self.time_offset) {
            Some(now) => Ok(now),
            None => Err(RegistryError::ArithmeticOverflow),
        }
    }
}

/// The bonus multiplier is at least 1.0, is exactly 1.0 when no lockup
/// time is left, never exceeds its configured maximum, and reaches the
/// maximum from the saturation time on.
pub proof fn lemma_bonus_bounds(rate: ExchangeRateEntry, remaining: u64)
    ensures
        BONUS_SCALE <= rate.bonus_spec(remaining) <= BONUS_SCALE
            + rate.max_extra_lockup_bonus_scaled,
        rate.bonus_spec(0) == BONUS_SCALE,
        remaining > 0 && remaining >= rate.lockup_saturation_secs ==> rate.bonus_spec(remaining)
            == BONUS_SCALE + rate.max_extra_lockup_bonus_scaled,
{
    let most = rate.max_extra_lockup_bonus_scaled as int;
    let saturation = rate.lockup_saturation_secs as int;
    if saturation > 0 {
        if remaining < saturation {
            lemma_share_bounded(most, remaining as int, saturation);
        }
        assert(most * 0 == 0);
        assert(0int / saturation == 0) by {
            lemma_share_bounded(0, 0, saturation);
        }
    }
}

/// The bonus multiplier never falls as the remaining lockup time grows.
pub proof fn lemma_bonus_monotonic(rate: ExchangeRateEntry, shorter: u64, longer: u64)
    requires
        shorter <= longer,
    ensures
        rate.bonus_spec(shorter) <= rate.bonus_spec(longer),
{
    let most = rate.max_extra_lockup_bonus_scaled as int;
    let saturation = rate.lockup_saturation_secs as int;
    if saturation > 0 {
        if longer < saturation {
            lemma_share_monotonic(most, shorter as int, longer as int, saturation);
        } else if shorter < saturation {
            lemma_share_bounded(most, shorter as int, saturation);
        }
    }
}

/// Below saturation the bonus multiplier grows strictly with the
/// remaining lockup time, provided the maximum extra is at least one
/// scaled unit for each second of the saturation time.
pub proof fn lemma_bonus_strictly_monotonic(rate: ExchangeRateEntry, shorter: u64, longer: u64)
    requires
        shorter < longer <= rate.lockup_saturation_secs,
        rate.max_extra_lockup_bonus_scaled >= rate.lockup_saturation_secs,
    ensures
        rate.bonus_spec(shorter) < rate.bonus_spec(longer),
{
    let most = rate.max_extra_lockup_bonus_scaled as int;
    let saturation = rate.lockup_saturation_secs as int;
    let a = most * shorter;
    let b = most * longer;
    // One more second adds at least `saturation` to the numerator, which
    // is a whole step of the quotient.
    assert(a + saturation <= b) by (nonlinear_arith)
        requires
            a == most * shorter,
            b == most * longer,
            shorter < longer,
            most >= saturation,
            saturation > 0,
    ;
    lemma_div_is_ordered(a + saturation, b, saturation);
    assert((a + saturation) / saturation == a / saturation + 1) by (nonlinear_arith)
        requires
            saturation > 0,
    ;
    if longer == saturation {
        assert(b / saturation == most) by (nonlinear_arith)
            requires
                b == most * saturation,
                saturation > 0,
        ;
    }
}

} // verus!
