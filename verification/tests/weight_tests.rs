use vote_lockup::error::RegistryError;
use vote_lockup::lockup::LockupKind;
use vote_lockup::registrar::{pow10, same_identity, ExchangeRateEntry, Registrar, BONUS_SCALE};
use vote_lockup::voter::{entry_weight, weighted, Voter};

const T: i64 = 1_600_000_000;
const DAY: i64 = 86_400;

fn rate(decimals: u8, num: u64, den: u64, max_extra: u64, saturation: u64) -> ExchangeRateEntry {
    ExchangeRateEntry {
        mint: [decimals; 32],
        decimals,
        rate_numerator: num,
        rate_denominator: den,
        max_extra_lockup_bonus_scaled: max_extra,
        lockup_saturation_secs: saturation,
    }
}

fn registrar_with(entry: ExchangeRateEntry) -> Registrar {
    let mut r = Registrar::new(2, 6);
    assert_eq!(r.add_mint(0, entry), Ok(()));
    r
}

#[test]
fn powers_of_ten() {
    assert_eq!(pow10(0), Some(1));
    assert_eq!(pow10(1), Some(10));
    assert_eq!(pow10(6), Some(1_000_000));
    assert_eq!(pow10(19), Some(10_000_000_000_000_000_000));
    assert_eq!(pow10(20), None);
    assert_eq!(pow10(255), None);
}

#[test]
fn identities_compare_by_value() {
    let mut a = [3u8; 32];
    let b = [3u8; 32];
    assert!(same_identity(&a, &b));
    a[31] = 4;
    assert!(!same_identity(&a, &b));
}

#[test]
fn convert_applies_rate_and_decimals() {
    assert_eq!(rate(6, 1, 1, 0, 0).convert(6, 12_345), Ok(12_345));
    assert_eq!(rate(6, 3, 2, 0, 0).convert(6, 5), Ok(7));
    assert_eq!(rate(4, 1, 1, 0, 0).convert(6, 5), Ok(500));
    assert_eq!(rate(9, 1, 1, 0, 0).convert(6, 1_234_567), Ok(1_234));
    assert_eq!(rate(9, 2, 3, 0, 0).convert(6, 10_000), Ok(6));
    assert_eq!(rate(6, 1, 1, 0, 0).convert(6, 0), Ok(0));
}

#[test]
fn convert_overflow_is_an_error() {
    assert_eq!(rate(6, 1, 0, 0, 0).convert(6, 5), Err(RegistryError::ArithmeticOverflow));
    assert_eq!(rate(6, 2, 1, 0, 0).convert(6, u64::MAX), Err(RegistryError::ArithmeticOverflow));
    assert_eq!(rate(0, 1, 1, 0, 0).convert(20, 1), Err(RegistryError::ArithmeticOverflow));
    assert_eq!(rate(20, 1, 1, 0, 0).convert(0, 1), Err(RegistryError::ArithmeticOverflow));
    assert_eq!(
        rate(0, u64::MAX, u64::MAX, 0, 0).convert(19, u64::MAX),
        Err(RegistryError::ArithmeticOverflow)
    );
    assert_eq!(rate(6, u64::MAX, u64::MAX, 0, 0).convert(6, u64::MAX), Ok(u64::MAX));
}

#[test]
fn bonus_ramps_and_saturates() {
    let r = rate(6, 1, 1, 2 * BONUS_SCALE, 1_000);
    assert_eq!(r.lockup_bonus(0), Ok(BONUS_SCALE));
    assert_eq!(r.lockup_bonus(250), Ok(BONUS_SCALE + BONUS_SCALE / 2));
    assert_eq!(r.lockup_bonus(500), Ok(2 * BONUS_SCALE));
    assert_eq!(r.lockup_bonus(1_000), Ok(3 * BONUS_SCALE));
    assert_eq!(r.lockup_bonus(5_000), Ok(3 * BONUS_SCALE));
    let odd = rate(6, 1, 1, 10, 3);
    assert_eq!(odd.lockup_bonus(1), Ok(BONUS_SCALE + 3));
    assert_eq!(odd.lockup_bonus(2), Ok(BONUS_SCALE + 6));
    let instant = rate(6, 1, 1, 7, 0);
    assert_eq!(instant.lockup_bonus(0), Ok(BONUS_SCALE));
    assert_eq!(instant.lockup_bonus(1), Ok(BONUS_SCALE + 7));
    let huge = rate(6, 1, 1, u64::MAX, 10);
    assert_eq!(huge.lockup_bonus(10), Err(RegistryError::ArithmeticOverflow));
    assert_eq!(huge.lockup_bonus(0), Ok(BONUS_SCALE));
}

#[test]
fn bonus_never_falls_with_remaining_time() {
    let r = rate(6, 1, 1, 1_234_567_891, 777);
    let mut last = r.lockup_bonus(0).unwrap();
    for remaining in 1..2_000u64 {
        let b = r.lockup_bonus(remaining).unwrap();
        assert!(b >= last);
        assert!(b >= BONUS_SCALE);
        last = b;
    }
    assert_eq!(last, BONUS_SCALE + 1_234_567_891);
}

#[test]
fn weighted_counts_locked_with_bonus() {
    assert_eq!(weighted(100, 0, 3 * BONUS_SCALE), 100);
    assert_eq!(weighted(100, 50, BONUS_SCALE), 150);
    assert_eq!(weighted(100, 50, 3 * BONUS_SCALE), 250);
    assert_eq!(weighted(0, 3, BONUS_SCALE + BONUS_SCALE / 2), 4);
    assert_eq!(
        weighted(u64::MAX, u64::MAX, u64::MAX),
        u64::MAX as u128 + (u64::MAX as u128 * u64::MAX as u128) / 1_000_000_000
    );
}

#[test]
fn registrar_lookup() {
    let mut r = Registrar::new(2, 6);
    assert_eq!(r.mints.len(), 2);
    assert_eq!(r.time_offset, 0);
    assert_eq!(r.vote_decimals, 6);
    assert_eq!(r.rate(0).err(), Some(RegistryError::UnknownMint));
    assert_eq!(r.convert(0, 5), Err(RegistryError::UnknownMint));
    assert_eq!(r.lockup_bonus(0, 5), Err(RegistryError::UnknownMint));
    assert_eq!(r.convert(2, 5), Err(RegistryError::UnknownMint));
    assert_eq!(r.add_mint(2, rate(6, 1, 1, 0, 0)), Err(RegistryError::UnknownMint));
    assert_eq!(r.add_mint(1, rate(6, 2, 1, BONUS_SCALE, 100)), Ok(()));
    assert_eq!(r.convert(1, 5), Ok(10));
    assert_eq!(r.lockup_bonus(1, 50), Ok(BONUS_SCALE + BONUS_SCALE / 2));
    assert_eq!(r.convert(0, 5), Err(RegistryError::UnknownMint));
    assert_eq!(r.rate(1).unwrap().rate_numerator, 2);
}

#[test]
fn add_mint_is_idempotent() {
    let mut r = Registrar::new(2, 6);
    assert_eq!(r.add_mint(0, rate(6, 2, 1, 0, 0)), Ok(()));
    assert_eq!(r.add_mint(0, rate(6, 2, 1, 0, 0)), Ok(()));
    assert_eq!(r.convert(0, 5), Ok(10));
    assert_eq!(r.add_mint(0, rate(6, 3, 1, 0, 0)), Err(RegistryError::InvalidState));
    assert_eq!(r.convert(0, 5), Ok(10));
}

#[test]
fn set_rate_changes_the_rate_only() {
    let mut r = registrar_with(rate(4, 2, 1, 9, 8));
    assert_eq!(r.set_rate(1, 1, 1), Err(RegistryError::UnknownMint));
    assert_eq!(r.set_rate(0, 5, 2), Ok(()));
    let e = r.rate(0).unwrap();
    assert_eq!(e.rate_numerator, 5);
    assert_eq!(e.rate_denominator, 2);
    assert_eq!(e.decimals, 4);
    assert_eq!(e.max_extra_lockup_bonus_scaled, 9);
    assert_eq!(e.lockup_saturation_secs, 8);
    assert_eq!(e.mint, [4u8; 32]);
}

#[test]
fn clock_adds_the_offset() {
    let mut r = Registrar::new(1, 6);
    assert_eq!(r.clock(100), Ok(100));
    r.set_time_offset((3 * 24 - 1) * 60 * 60);
    assert_eq!(r.clock(100), Ok(100 + 255_600));
    r.set_time_offset(-200);
    assert_eq!(r.clock(100), Ok(-100));
    r.set_time_offset(1);
    assert_eq!(r.clock(i64::MAX), Err(RegistryError::ArithmeticOverflow));
    r.set_time_offset(-1);
    assert_eq!(r.clock(i64::MIN), Err(RegistryError::ArithmeticOverflow));
}

#[test]
fn weight_of_no_deposits_is_zero() {
    let v = Voter::new([1u8; 32], [2u8; 32]);
    assert_eq!(v.weight(&Registrar::new(0, 6), T), Ok(0));
    assert_eq!(v.weight(&registrar_with(rate(6, 1, 1, BONUS_SCALE, 100)), T), Ok(0));
}

#[test]
fn weight_sums_used_entries() {
    let r = registrar_with(rate(6, 1, 1, BONUS_SCALE, 10 * 86_400));
    let mut v = Voter::new([1u8; 32], [2u8; 32]);
    assert_eq!(v.create_deposit(0, LockupKind::Daily, 10, 0, 10_000, false, T), Ok(()));
    assert_eq!(v.create_deposit(5, LockupKind::NoLockup, 0, 0, 700, false, T), Ok(()));
    // slot 0: all locked, full bonus 2.0; slot 5: unlocked
    assert_eq!(v.weight(&r, T), Ok(20_000 + 700));
    // after 5 days: 5000 unlocked, 5000 locked at bonus 1.5
    assert_eq!(v.weight(&r, T + 5 * DAY), Ok(5_000 + 7_500 + 700));
    // after the end: everything counts once
    assert_eq!(v.weight(&r, T + 10 * DAY), Ok(10_700));
    assert_eq!(entry_weight(&v.deposits[0], &r, T + 5 * DAY), Ok(12_500));
}

#[test]
fn weight_fails_closed_on_unknown_mint() {
    let r = registrar_with(rate(6, 1, 1, BONUS_SCALE, 10 * 86_400));
    let mut v = Voter::new([1u8; 32], [2u8; 32]);
    assert_eq!(v.create_deposit(0, LockupKind::Daily, 10, 0, 10_000, false, T), Ok(()));
    assert_eq!(v.create_deposit(1, LockupKind::Daily, 10, 1, 10_000, false, T), Ok(()));
    assert_eq!(v.weight(&r, T), Err(RegistryError::UnknownMint));
    assert_eq!(v.create_deposit(2, LockupKind::Daily, 10, 9, 10_000, false, T), Ok(()));
    assert_eq!(v.weight(&r, T), Err(RegistryError::UnknownMint));
}

#[test]
fn weight_overflow_is_an_error() {
    let r = registrar_with(rate(6, 1, 1, 0, 0));
    let mut v = Voter::new([1u8; 32], [2u8; 32]);
    assert_eq!(v.create_deposit(0, LockupKind::NoLockup, 0, 0, u64::MAX, false, T), Ok(()));
    assert_eq!(v.weight(&r, T), Ok(u64::MAX));
    assert_eq!(v.create_deposit(1, LockupKind::NoLockup, 0, 0, 1, false, T), Ok(()));
    assert_eq!(v.weight(&r, T), Err(RegistryError::ArithmeticOverflow));
}

#[test]
fn weight_grows_with_remaining_lockup() {
    let r = registrar_with(rate(0, 1, 1, 4 * BONUS_SCALE, 100 * 86_400));
    let mut last: u64 = 0;
    for periods in 0..=100u32 {
        let mut v = Voter::new([1u8; 32], [2u8; 32]);
        assert_eq!(v.create_deposit(0, LockupKind::Cliff, periods, 0, 1_000, false, T), Ok(()));
        let w = v.weight(&r, T).unwrap();
        if periods == 0 {
            assert_eq!(w, 1_000_000_000);
        } else {
            assert!(w > last);
        }
        last = w;
    }
    assert_eq!(last, 5_000_000_000);
}
