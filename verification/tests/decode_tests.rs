use vote_lockup::decode::{
    check_record, decode_line, decode_voter, display_entry, display_voter, is_comment,
    registrar_discriminator, report, voter_discriminator, DisplayDepositEntry, PairReader,
    SECS_PER_YEAR,
};
use vote_lockup::deposit_entry::DepositEntry;
use vote_lockup::error::RegistryError;
use vote_lockup::lockup::{Lockup, LockupKind};
use vote_lockup::record::{
    decode_pair, kind_of, le_i64, le_u64, parse_registrar, parse_voter, read_entry, read_identity,
};
use vote_lockup::registrar::{ExchangeRateEntry, Registrar, BONUS_SCALE};
use vote_lockup::voter::Voter;

const T: i64 = 1_600_000_000;

#[test]
fn discriminators() {
    assert_eq!(voter_discriminator(), [241, 93, 35, 191, 254, 147, 17, 202]);
    assert_eq!(registrar_discriminator(), [193, 202, 205, 51, 78, 168, 150, 128]);
}

#[test]
fn short_or_unknown_records_are_malformed() {
    let tag = voter_discriminator();
    assert_eq!(check_record(&[], &tag), Err(RegistryError::MalformedRecord));
    assert_eq!(check_record(&tag[..7], &tag), Err(RegistryError::MalformedRecord));
    assert_eq!(check_record(&tag, &tag), Ok(()));
    let mut longer = tag.to_vec();
    longer.push(5);
    assert_eq!(check_record(&longer, &tag), Ok(()));
    longer[7] = 0;
    assert_eq!(check_record(&longer, &tag), Err(RegistryError::MalformedRecord));
    assert_eq!(
        check_record(&registrar_discriminator(), &tag),
        Err(RegistryError::MalformedRecord)
    );
}

#[test]
fn base64_lines() {
    assert_eq!(decode_line("aGVsbG8gd29ybGQ="), Ok(b"hello world".to_vec()));
    assert_eq!(decode_line(""), Ok(vec![]));
    assert_eq!(decode_line("8V0jv/6TEco="), Ok(voter_discriminator().to_vec()));
    assert_eq!(decode_line("not base64!"), Err(RegistryError::MalformedRecord));
    assert_eq!(decode_line("aGVsbG8"), Ok(b"hello".to_vec()));
    assert_eq!(decode_line("a"), Err(RegistryError::MalformedRecord));
    assert_eq!(decode_line(" aGVsbG8="), Err(RegistryError::MalformedRecord));
}

#[test]
fn report_lists_used_entries_with_year_marks() {
    let mut v = Voter::new([1u8; 32], [2u8; 32]);
    assert_eq!(v.create_deposit(2, LockupKind::Monthly, 36, 0, 3_600, true, T), Ok(()));
    assert_eq!(v.create_deposit(7, LockupKind::NoLockup, 0, 1, 50, false, T), Ok(()));
    let shown = display_voter(&v, T);
    assert_eq!(shown.voter_authority, [1u8; 32]);
    assert_eq!(shown.registrar, [2u8; 32]);
    assert_eq!(
        shown.deposit_entries,
        vec![
            DisplayDepositEntry {
                allow_clawback: true,
                mint_index: 0,
                unlocked_now: 0,
                locked_now: 3_600,
                locked_1y: 2_400,
                locked_2y: 1_200,
                locked_3y: 0,
                locked_4y: 0,
                locked_5y: 0,
            },
            DisplayDepositEntry {
                allow_clawback: false,
                mint_index: 1,
                unlocked_now: 50,
                locked_now: 0,
                locked_1y: 0,
                locked_2y: 0,
                locked_3y: 0,
                locked_4y: 0,
                locked_5y: 0,
            },
        ]
    );
    assert_eq!(display_entry(&v.deposits[2], T + SECS_PER_YEAR).unlocked_now, 1_200);
    assert_eq!(SECS_PER_YEAR, 365 * 24 * 60 * 60);
}

#[test]
fn report_carries_the_weight_or_its_error() {
    let mut v = Voter::new([1u8; 32], [2u8; 32]);
    assert_eq!(v.create_deposit(0, LockupKind::Cliff, 10, 0, 1_000, false, T), Ok(()));
    let mut r = Registrar::new(1, 6);
    let (shown, weight) = report(&v, &r, T).unwrap();
    assert_eq!(shown.deposit_entries.len(), 1);
    assert_eq!(weight, Err(RegistryError::UnknownMint));
    let entry = ExchangeRateEntry {
        mint: [0u8; 32],
        decimals: 6,
        rate_numerator: 1,
        rate_denominator: 1,
        max_extra_lockup_bonus_scaled: BONUS_SCALE,
        lockup_saturation_secs: 10 * 86_400,
    };
    assert_eq!(r.add_mint(0, entry), Ok(()));
    let (_, weight) = report(&v, &r, T).unwrap();
    assert_eq!(weight, Ok(2_000));
    assert_eq!(
        report(&v, &r, i64::MAX - 5 * SECS_PER_YEAR + 1).err(),
        Some(RegistryError::ArithmeticOverflow)
    );
    assert!(report(&v, &r, i64::MAX - 5 * SECS_PER_YEAR).is_ok());
}

fn entry_bytes(
    used: u8,
    clawback: u8,
    mint: u8,
    deposited: u64,
    locked: u64,
    last: i64,
    kind: u8,
    start: i64,
    end: i64,
) -> Vec<u8> {
    let mut out = vec![used, clawback, mint];
    out.extend_from_slice(&deposited.to_le_bytes());
    out.extend_from_slice(&locked.to_le_bytes());
    out.extend_from_slice(&last.to_le_bytes());
    out.push(kind);
    out.extend_from_slice(&start.to_le_bytes());
    out.extend_from_slice(&end.to_le_bytes());
    out
}

fn voter_bytes(entries: &[(usize, Vec<u8>)]) -> Vec<u8> {
    let mut out = voter_discriminator().to_vec();
    out.extend_from_slice(&[0xaa; 32]);
    out.extend_from_slice(&[0xbb; 32]);
    for i in 0..32 {
        match entries.iter().find(|(at, _)| *at == i) {
            Some((_, bytes)) => out.extend_from_slice(bytes),
            None => out.extend_from_slice(&entry_bytes(0, 0, 0, 0, 0, 0, 0, 0, 0)),
        }
    }
    out
}

fn registrar_bytes(
    vote_decimals: u8,
    offset: i64,
    slots: &[Option<(u8, u64, u64, u64, u64)>],
) -> Vec<u8> {
    let mut out = registrar_discriminator().to_vec();
    out.push(vote_decimals);
    out.extend_from_slice(&offset.to_le_bytes());
    out.push(slots.len() as u8);
    for slot in slots {
        match slot {
            None => out.extend_from_slice(&[0u8; 66]),
            Some((decimals, num, den, extra, saturation)) => {
                out.push(1);
                out.extend_from_slice(&[0xcc; 32]);
                out.push(*decimals);
                out.extend_from_slice(&num.to_le_bytes());
                out.extend_from_slice(&den.to_le_bytes());
                out.extend_from_slice(&extra.to_le_bytes());
                out.extend_from_slice(&saturation.to_le_bytes());
            }
        }
    }
    out
}

#[test]
fn little_endian_fields() {
    let mut data = vec![9u8];
    data.extend_from_slice(&0x0102_0304_0506_0708u64.to_le_bytes());
    data.extend_from_slice(&(-2i64).to_le_bytes());
    data.extend_from_slice(&i64::MIN.to_le_bytes());
    data.extend_from_slice(&i64::MAX.to_le_bytes());
    data.extend_from_slice(&u64::MAX.to_le_bytes());
    assert_eq!(le_u64(&data, 1), 0x0102_0304_0506_0708);
    assert_eq!(le_i64(&data, 1), 0x0102_0304_0506_0708);
    assert_eq!(le_i64(&data, 9), -2);
    assert_eq!(le_i64(&data, 17), i64::MIN);
    assert_eq!(le_i64(&data, 25), i64::MAX);
    assert_eq!(le_u64(&data, 33), u64::MAX);
    assert_eq!(le_i64(&data, 33), -1);
    let id: Vec<u8> = (0..40u8).collect();
    assert_eq!(read_identity(&id, 3).to_vec(), (3..35u8).collect::<Vec<u8>>());
}

#[test]
fn lockup_kind_tags() {
    assert_eq!(kind_of(0), Some(LockupKind::NoLockup));
    assert_eq!(kind_of(1), Some(LockupKind::Daily));
    assert_eq!(kind_of(2), Some(LockupKind::Monthly));
    assert_eq!(kind_of(3), Some(LockupKind::Cliff));
    assert_eq!(kind_of(4), Some(LockupKind::Constant));
    assert_eq!(kind_of(5), None);
}

#[test]
fn stored_entry_is_read_back() {
    let bytes = entry_bytes(1, 1, 3, 900, 1_000, T - 5, 1, T, T + 864_000);
    assert_eq!(
        read_entry(&bytes, 0),
        Some(DepositEntry {
            is_used: true,
            allow_clawback: true,
            voting_mint_config_idx: 3,
            amount_deposited_native: 900,
            amount_initially_locked_native: 1_000,
            last_deposit_ts: T - 5,
            lockup: Lockup { kind: LockupKind::Daily, start_ts: T, end_ts: T + 864_000 },
        })
    );
    assert_eq!(read_entry(&entry_bytes(2, 0, 0, 0, 0, 0, 0, 0, 0), 0), None);
    assert_eq!(read_entry(&entry_bytes(1, 2, 0, 0, 0, 0, 0, 0, 0), 0), None);
    assert_eq!(read_entry(&entry_bytes(1, 0, 0, 0, 0, 0, 5, 0, 0), 0), None);
    assert_eq!(read_entry(&entry_bytes(1, 0, 0, 0, 0, 0, 1, 10, 9), 0), None);
    assert_eq!(read_entry(&entry_bytes(0, 0, 0, 1, 0, 0, 1, 0, 0), 0), None);
    assert_eq!(read_entry(&entry_bytes(1, 0, 0, 0, 0, 0, 1, 0, 86_401), 0), None);
    assert_eq!(read_entry(&entry_bytes(1, 0, 0, 0, 0, 0, 2, 0, 2_628_000 * 2 - 1), 0), None);
    assert!(read_entry(&entry_bytes(1, 0, 0, 0, 0, 0, 2, 5, 2_628_000 * 2 + 5), 0).is_some());
    assert!(read_entry(&entry_bytes(1, 0, 0, 0, 0, 0, 3, 0, 86_401), 0).is_some());
}

#[test]
fn voter_record_round_trip() {
    let data = voter_bytes(&[(4, entry_bytes(1, 0, 0, 10_000, 10_000, T, 1, T, T + 864_000))]);
    assert_eq!(data.len(), 1480);
    let voter = parse_voter(&data).unwrap();
    assert_eq!(voter.voter_authority, [0xaa; 32]);
    assert_eq!(voter.registrar, [0xbb; 32]);
    assert_eq!(voter.deposits.len(), 32);
    assert!(voter.deposits[4].is_used);
    assert_eq!(voter.deposits[4].amount_unlocked(T + 3 * 86_400), 3_000);
    assert_eq!(voter.deposits[3], DepositEntry::unused());
    let mut short = data.clone();
    short.pop();
    assert_eq!(parse_voter(&short).err(), Some(RegistryError::MalformedRecord));
    let mut long = data.clone();
    long.push(0);
    assert_eq!(parse_voter(&long).err(), Some(RegistryError::MalformedRecord));
    let mut bad = data.clone();
    bad[72 + 44 * 31] = 7;
    assert_eq!(parse_voter(&bad).err(), Some(RegistryError::MalformedRecord));
}

#[test]
fn registrar_record_round_trip() {
    let data = registrar_bytes(6, -40, &[None, Some((9, 2, 3, BONUS_SCALE, 1_000))]);
    let registrar = parse_registrar(&data).unwrap();
    assert_eq!(registrar.vote_decimals, 6);
    assert_eq!(registrar.time_offset, -40);
    assert_eq!(registrar.mints.len(), 2);
    assert!(registrar.mints[0].is_none());
    let rate = registrar.rate(1).unwrap();
    assert_eq!(rate.mint, [0xcc; 32]);
    assert_eq!(rate.decimals, 9);
    assert_eq!(rate.rate_numerator, 2);
    assert_eq!(rate.rate_denominator, 3);
    assert_eq!(rate.max_extra_lockup_bonus_scaled, BONUS_SCALE);
    assert_eq!(rate.lockup_saturation_secs, 1_000);
    let mut short = data.clone();
    short.pop();
    assert_eq!(parse_registrar(&short).err(), Some(RegistryError::MalformedRecord));
    let mut bad = data.clone();
    bad[18] = 2;
    assert_eq!(parse_registrar(&bad).err(), Some(RegistryError::MalformedRecord));
    assert_eq!(
        parse_registrar(&registrar_discriminator()).err(),
        Some(RegistryError::MalformedRecord)
    );
    assert!(parse_registrar(&registrar_bytes(0, 0, &[])).is_ok());
}

#[test]
fn decode_voter_reports_on_stored_records() {
    let voter = voter_bytes(&[(0, entry_bytes(1, 1, 0, 10_000, 10_000, T, 3, T, T + 864_000))]);
    let registrar = registrar_bytes(6, 0, &[Some((6, 1, 1, BONUS_SCALE, 864_000))]);
    let (shown, weight) = decode_voter(&voter, &registrar, T).unwrap();
    assert_eq!(shown.voter_authority, [0xaa; 32]);
    assert_eq!(shown.deposit_entries.len(), 1);
    assert_eq!(shown.deposit_entries[0].locked_now, 10_000);
    assert_eq!(shown.deposit_entries[0].locked_1y, 0);
    assert!(shown.deposit_entries[0].allow_clawback);
    assert_eq!(weight, Ok(20_000));
    assert_eq!(
        decode_voter(&registrar, &voter, T).err(),
        Some(RegistryError::MalformedRecord)
    );
    assert_eq!(
        decode_voter(&voter[..7], &registrar, T).err(),
        Some(RegistryError::MalformedRecord)
    );
    assert_eq!(
        decode_voter(&voter, &registrar, i64::MAX).err(),
        Some(RegistryError::ArithmeticOverflow)
    );
    let (a, b) = decode_pair(&voter, &registrar).unwrap();
    assert_eq!(a.deposits[0].lockup.kind, LockupKind::Cliff);
    assert_eq!(b.mints.len(), 1);
}

#[test]
fn a_malformed_record_does_not_affect_the_next() {
    let voter = voter_bytes(&[(0, entry_bytes(1, 0, 0, 500, 500, T, 0, T, T))]);
    let registrar = registrar_bytes(6, 0, &[Some((6, 1, 1, 0, 0))]);
    let mut unknown = voter.clone();
    unknown[0] ^= 0xff;
    let batch: Vec<(Vec<u8>, Vec<u8>)> = vec![
        (voter.clone(), registrar.clone()),
        (vec![1, 2, 3], registrar.clone()),
        (voter.clone(), vec![0; 7]),
        (unknown, registrar.clone()),
        (registrar.clone(), registrar.clone()),
        (voter.clone(), voter.clone()),
        (voter.clone(), registrar.clone()),
    ];
    let outcomes: Vec<Result<u64, RegistryError>> = batch
        .iter()
        .map(|(v, r)| decode_voter(v, r, T).and_then(|(_, weight)| weight))
        .collect();
    assert_eq!(
        outcomes,
        vec![
            Ok(500),
            Err(RegistryError::MalformedRecord),
            Err(RegistryError::MalformedRecord),
            Err(RegistryError::MalformedRecord),
            Err(RegistryError::MalformedRecord),
            Err(RegistryError::MalformedRecord),
            Ok(500),
        ]
    );
}

#[test]
fn lines_are_paired_and_comments_skipped() {
    assert!(is_comment("# a comment"));
    assert!(is_comment("#"));
    assert!(!is_comment(""));
    assert!(!is_comment("abc#"));
    let mut reader = PairReader::new();
    assert_eq!(reader.feed("# header".to_string()), None);
    assert_eq!(reader.feed("voter-1".to_string()), None);
    assert_eq!(reader.pending_voter, Some("voter-1".to_string()));
    assert_eq!(reader.feed("# between".to_string()), None);
    assert_eq!(
        reader.feed("registrar-1".to_string()),
        Some(("voter-1".to_string(), "registrar-1".to_string()))
    );
    assert_eq!(reader.pending_voter, None);
    assert_eq!(reader.feed("".to_string()), None);
    assert_eq!(reader.feed("x".to_string()), Some(("".to_string(), "x".to_string())));
}
