use vstd::prelude::*;
use vstd::array::*;
use crate::decode::{
    check_record,
    has_discriminator,
    registrar_discriminator,
    registrar_discriminator_spec,
    voter_discriminator,
    voter_discriminator_spec,
};
use crate::deposit_entry::DepositEntry;
use crate::error::RegistryError;
use crate::lockup::{Lockup, LockupKind};
use crate::registrar::{ExchangeRateEntry, Registrar};
use crate::voter::{Voter, MAX_DEPOSITS};

verus! {

/// Bytes of one stored deposit entry: three flag and index bytes, three
/// 64-bit fields, the kind and the two ends of the lockup.
pub const ENTRY_LEN: usize = 44;

/// Where the deposit entries start in a voter record: after the tag and
/// two identities.
pub const VOTER_HEADER_LEN: usize = 72;

/// Bytes of a whole voter record.
pub const VOTER_RECORD_LEN: usize = 1480;

/// Where the rate slots start in a registrar record: after the tag, the
/// voting unit's decimals, the clock offset and the slot count.
pub const REGISTRAR_HEADER_LEN: usize = 18;

/// Bytes of one stored rate slot: a tag, the mint, its decimals and four
/// 64-bit fields.
pub const RATE_LEN: usize = 66;

/// The unsigned 64-bit value stored at `at`, least significant byte first.
pub open spec fn le_u64_spec(data: Seq<u8>, at: int) -> int {
    data[at] + data[at + 1] * 0x100 + data[at + 2] * 0x1_0000 + data[at + 3] * 0x100_0000 + data[at
        + 4] * 0x1_0000_0000 + data[at + 5] * 0x100_0000_0000 + data[at + 6] * 0x1_0000_0000_0000
        + data[at + 7] * 0x100_0000_0000_0000
}

/// The signed 64-bit value stored at `at` in two's complement, least
/// significant byte first.
pub open spec fn le_i64_spec(data: Seq<u8>, at: int) -> int {
    if le_u64_spec(data, at) < 0x8000_0000_0000_0000 {
        le_u64_spec(data, at)
    } else {
        le_u64_spec(data, at) - 0x1_0000_0000_0000_0000
    }
}

/// Reads an unsigned 64-bit value, least significant byte first.
pub fn le_u64(data: &[u8], at: usize) -> (r: u64)
    requires
        at + 8 <= data@.len(),
    ensures
        r == le_u64_spec(data@, at as int),
{
    let b0: u64 = data[at] as u64;
    let b1: u64 = data[at + 1] as u64;
    let b2: u64 = data[at + 2] as u64;
    let b3: u64 = data[at + 3] as u64;
    let b4: u64 = data[at + 4] as u64;
    let b5: u64 = data[at + 5] as u64;
    let b6: u64 = data[at + 6] as u64;
    let b7: u64 = data[at + 7] as u64;
    b0 + b1 * 0x100 + b2 * 0x1_0000 + b3 * 0x100_0000 + b4 * 0x1_0000_0000 + b5 * 0x100_0000_0000
        + b6 * 0x1_0000_0000_0000 + b7 * 0x100_0000_0000_0000
}

/// Reads a signed 64-bit value, least significant byte first.
pub fn le_i64(data: &[u8], at: usize) -> (r: i64)
    requires
        at + 8 <= data@.len(),
    ensures
        r == le_i64_spec(data@, at as int),
{
    let raw: u64 = le_u64(data, at);
    if raw < 0x8000_0000_0000_0000 {
        raw as i64
    } else {
        ((raw - 0x8000_0000_0000_0000) as i64) + i64::MIN
    }
}

/// Reads the 32 bytes of an identity.
pub fn read_identity(data: &[u8], at: usize) -> (r: [u8; 32])
    requires
        at + 32 <= data@.len(),
    ensures
        r@ == data@.subrange(at as int, at + 32),
{
    let len: usize = data.len();
    let mut out: [u8; 32] = array_fill_for_copy_types(0u8);
    let mut i: usize = 0;
    while i < 32
        invariant
            i <= 32,
            at + 32 <= len,
            len == data@.len(),
            out@.len() == 32,
            forall|k: int| 0 <= k < i ==> out@[k] == data@[at + k],
        decreases 32 - i,
    {
        out[i] = data[at + i];
        i += 1;
    }
    assert(out@ =~= data@.subrange(at as int, at + 32));
    out
}

/// The lockup kind that a stored tag stands for.
pub open spec fn kind_of_spec(tag: u8) -> Option<LockupKind> {
    if tag == 0 {
        Some(LockupKind::NoLockup)
    } else if tag == 1 {
        Some(LockupKind::Daily)
    } else if tag == 2 {
        Some(LockupKind::Monthly)
    } else if tag == 3 {
        Some(LockupKind::Cliff)
    } else if tag == 4 {
        Some(LockupKind::Constant)
    } else {
        None
    }
}

/// The lockup kind that a stored tag stands for.
pub fn kind_of(tag: u8) -> (r: Option<LockupKind>)
    ensures
        r == kind_of_spec(tag),
{
    if tag == 0 {
        Some(LockupKind::NoLockup)
    } else if tag == 1 {
        Some(LockupKind::Daily)
    } else if tag == 2 {
        Some(LockupKind::Monthly)
    } else if tag == 3 {
        Some(LockupKind::Cliff)
    } else if tag == 4 {
        Some(LockupKind::Constant)
    } else {
        None
    }
}

/// The fields stored at `at`, taken as they are.
pub open spec fn raw_entry_spec(data: Seq<u8>, at: int) -> DepositEntry {
    DepositEntry {
        is_used: data[at] == 1,
        allow_clawback: data[at + 1] == 1,
        voting_mint_config_idx: data[at + 2],
        amount_deposited_native: le_u64_spec(data, at + 3) as u64,
        amount_initially_locked_native: le_u64_spec(data, at + 11) as u64,
        last_deposit_ts: le_i64_spec(data, at + 19) as i64,
        lockup: Lockup {
            kind: kind_of_spec(data[at + 27])->Some_0,
            start_ts: le_i64_spec(data, at + 28) as i64,
            end_ts: le_i64_spec(data, at + 36) as i64,
        },
    }
}

/// The deposit entry stored at `at`, or `None` where a flag is neither 0
/// nor 1, the kind is unknown, the lockup ends before it starts or does
/// not last a whole number of its periods, or an unused slot holds funds.
pub open spec fn entry_at_spec(data: Seq<u8>, at: int) -> Option<DepositEntry> {
    if data[at] > 1 || data[at + 1] > 1 || kind_of_spec(data[at + 27]) is None {
        None
    } else if !raw_entry_spec(data, at).wf() {
        None
    } else {
        Some(raw_entry_spec(data, at))
    }
}

/// Reads the deposit entry stored at `at`.
pub fn read_entry(data: &[u8], at: usize) -> (r: Option<DepositEntry>)
    requires
        at + ENTRY_LEN <= data@.len(),
    ensures
        r == entry_at_spec(data@, at as int),
        r is Some ==> r->Some_0.wf(),
{
    if data[at] > 1 || data[at + 1] > 1 {
        return None;
    }
    let kind: LockupKind = match kind_of(data[at + 27]) {
        Some(kind) => kind,
        None => {
            return None;
        },
    };
    let entry = DepositEntry {
        is_used: data[at] == 1,
        allow_clawback: data[at + 1] == 1,
        voting_mint_config_idx: data[at + 2],
        amount_deposited_native: le_u64(data, at + 3),
        amount_initially_locked_native: le_u64(data, at + 11),
        last_deposit_ts: le_i64(data, at + 19),
        lockup: Lockup { kind, start_ts: le_i64(data, at + 28), end_ts: le_i64(data, at + 36) },
    };
    if !entry.lockup.is_well_formed() {
        return None;
    }
    if !entry.is_used && entry.amount_deposited_native != 0 {
        return None;
    }
    Some(entry)
}

/// Whether `data` is a voter record: the voter tag, the exact length, and
/// a valid entry in each slot.
pub open spec fn voter_record_valid(data: Seq<u8>) -> bool {
    &&& has_discriminator(data, voter_discriminator_spec())
    &&& data.len() == VOTER_RECORD_LEN
    &&& forall|i: int|
        0 <= i < MAX_DEPOSITS ==> (#[trigger] entry_at_spec(
            data,
            VOTER_HEADER_LEN + ENTRY_LEN * i,
        )) is Some
}

/// Whether `voter` holds what the record `data` stores.
pub open spec fn voter_matches(voter: Voter, data: Seq<u8>) -> bool {
    &&& voter.wf()
    &&& voter.voter_authority@ == data.subrange(8, 40)
    &&& voter.registrar@ == data.subrange(40, 72)
    &&& forall|i: int|
        0 <= i < MAX_DEPOSITS ==> Some(#[trigger] voter.deposits@[i]) == entry_at_spec(
            data,
            VOTER_HEADER_LEN + ENTRY_LEN * i,
        )
}

/// Reads a voter record. Fails with `MalformedRecord` exactly where the
/// tag or the length is wrong or a slot does not hold a valid entry.
pub fn parse_voter(data: &[u8]) -> (r: Result<Voter, RegistryError>)
    ensures
        r is Ok <==> voter_record_valid(data@),
        r is Ok ==> voter_matches(r->Ok_0, data@),
        r is Err ==> r == Err::<Voter, RegistryError>(RegistryError::MalformedRecord),
{
    let tag = voter_discriminator();
    if check_record(data, &tag).is_err() || data.len() != VOTER_RECORD_LEN {
        return Err(RegistryError::MalformedRecord);
    }
    let voter_authority = read_identity(data, 8);
    let registrar = read_identity(data, 40);
    let mut deposits: Vec<DepositEntry> = Vec::new();
    let mut i: usize = 0;
    while i < MAX_DEPOSITS
        invariant
            i <= MAX_DEPOSITS,
            data@.len() == VOTER_RECORD_LEN,
            deposits@.len() == i,
            forall|k: int|
                0 <= k < i ==> Some(#[trigger] deposits@[k]) == entry_at_spec(
                    data@,
                    VOTER_HEADER_LEN + ENTRY_LEN * k,
                ) && deposits@[k].wf(),
        decreases MAX_DEPOSITS - i,
    {
        match read_entry(data, VOTER_HEADER_LEN + ENTRY_LEN * i) {
            Some(entry) => {
                deposits.push(entry);
            },
            None => {
                assert(entry_at_spec(data@, VOTER_HEADER_LEN + ENTRY_LEN * (i as int)) is None);
                return Err(RegistryError::MalformedRecord);
            },
        }
        i += 1;
    }
    assert forall|k: int| 0 <= k < MAX_DEPOSITS implies (#[trigger] entry_at_spec(
        data@,
        VOTER_HEADER_LEN + ENTRY_LEN * k,
    )) is Some by {
        assert(Some(deposits@[k]) == entry_at_spec(data@, VOTER_HEADER_LEN + ENTRY_LEN * k));
    }
    Ok(Voter { voter_authority, registrar, deposits })
}

/// Whether `data` is a registrar record: the registrar tag, a length
/// that fits the slot count, and a tag of 0 or 1 on each slot.
pub open spec fn registrar_record_valid(data: Seq<u8>) -> bool {
    &&& has_discriminator(data, registrar_discriminator_spec())
    &&& data.len() >= REGISTRAR_HEADER_LEN
    &&& data.len() == REGISTRAR_HEADER_LEN + RATE_LEN * data[17]
    &&& forall|i: int|
        0 <= i < data[17] ==> #[trigger] data[REGISTRAR_HEADER_LEN + RATE_LEN * i] <= 1
}

/// Whether `slot` holds what is stored at `at`: nothing under the tag 0,
/// the stored fields under the tag 1.
pub open spec fn rate_matches(slot: Option<ExchangeRateEntry>, data: Seq<u8>, at: int) -> bool {
    match slot {
        None => data[at] == 0,
        Some(rate) => {
            &&& data[at] == 1
            &&& rate.mint@ == data.subrange(at + 1, at + 33)
            &&& rate.decimals == data[at + 33]
            &&& rate.rate_numerator == le_u64_spec(data, at + 34)
            &&& rate.rate_denominator == le_u64_spec(data, at + 42)
            &&& rate.max_extra_lockup_bonus_scaled == le_u64_spec(data, at + 50)
            &&& rate.lockup_saturation_secs == le_u64_spec(data, at + 58)
        },
    }
}

/// Whether `registrar` holds what the record `data` stores.
pub open spec fn registrar_matches(registrar: Registrar, data: Seq<u8>) -> bool {
    &&& registrar.vote_decimals == data[8]
    &&& registrar.time_offset == le_i64_spec(data, 9)
    &&& registrar.mints@.len() == data[17]
    &&& forall|i: int|
        0 <= i < data[17] ==> rate_matches(
            #[trigger] registrar.mints@[i],
            data,
            REGISTRAR_HEADER_LEN + RATE_LEN * i,
        )
}

/// Reads the rate slot stored at `at`, or `None` where its tag is
/// neither 0 nor 1.
pub fn read_rate(data: &[u8], at: usize) -> (r: Option<Option<ExchangeRateEntry>>)
    requires
        at + RATE_LEN <= data@.len(),
    ensures
        r is Some <==> data@[at as int] <= 1,
        r is Some ==> rate_matches(r->Some_0, data@, at as int),
{
    if data[at] > 1 {
        None
    } else if data[at] == 0 {
        Some(None)
    } else {
        Some(
            Some(
                ExchangeRateEntry {
                    mint: read_identity(data, at + 1),
                    decimals: data[at + 33],
                    rate_numerator: le_u64(data, at + 34),
                    rate_denominator: le_u64(data, at + 42),
                    max_extra_lockup_bonus_scaled: le_u64(data, at + 50),
                    lockup_saturation_secs: le_u64(data, at + 58),
                },
            ),
        )
    }
}

/// Reads a registrar record. Fails with `MalformedRecord` exactly where
/// the tag is wrong, the length does not fit the slot count, or a
/// slot's tag is neither 0 nor 1.
pub fn parse_registrar(data: &[u8]) -> (r: Result<Registrar, RegistryError>)
    ensures
        r is Ok <==> registrar_record_valid(data@),
        r is Ok ==> registrar_matches(r->Ok_0, data@),
        r is Err ==> r == Err::<Registrar, RegistryError>(RegistryError::MalformedRecord),
{
    let tag = registrar_discriminator();
    if check_record(data, &tag).is_err() || data.len() < REGISTRAR_HEADER_LEN {
        return Err(RegistryError::MalformedRecord);
    }
    let count: usize = data[17] as usize;
    if data.len() != REGISTRAR_HEADER_LEN + RATE_LEN * count {
        return Err(RegistryError::MalformedRecord);
    }
    let vote_decimals: u8 = data[8];
    let time_offset: i64 = le_i64(data, 9);
    let mut mints: Vec<Option<ExchangeRateEntry>> = Vec::new();
    let mut i: usize = 0;
    while i < count
        invariant
            i <= count,
            count == data@[17],
            data@.len() == REGISTRAR_HEADER_LEN + RATE_LEN * count,
            mints@.len() == i,
            forall|k: int|
                0 <= k < i ==> rate_matches(
                    #[trigger] mints@[k],
                    data@,
                    REGISTRAR_HEADER_LEN + RATE_LEN * k,
                ),
            forall|k: int|
                0 <= k < i ==> #[trigger] data@[REGISTRAR_HEADER_LEN + RATE_LEN * k] <= 1,
        decreases count - i,
    {
        match read_rate(data, REGISTRAR_HEADER_LEN + RATE_LEN * i) {
            Some(slot) => {
                mints.push(slot);
            },
            None => {
                return Err(RegistryError::MalformedRecord);
            },
        }
        i += 1;
    }
    Ok(Registrar { mints, vote_decimals, time_offset })
}

/// Reads a voter record and its registrar record. Fails with
/// `MalformedRecord` exactly where one of the two is not a valid record
/// of its kind.
pub fn decode_pair(data_voter: &[u8], data_registrar: &[u8]) -> (r: Result<
    (Voter, Registrar),
    RegistryError,
>)
    ensures
        r is Ok <==> voter_record_valid(data_voter@) && registrar_record_valid(data_registrar@),
        r is Ok ==> voter_matches(r->Ok_0.0, data_voter@) && registrar_matches(
            r->Ok_0.1,
            data_registrar@,
        ),
        r is Err ==> r == Err::<(Voter, Registrar), RegistryError>(RegistryError::MalformedRecord),
{
    let voter = match parse_voter(data_voter) {
        Ok(voter) => voter,
        Err(_) => {
            return Err(RegistryError::MalformedRecord);
        },
    };
    let registrar = match parse_registrar(data_registrar) {
        Ok(registrar) => registrar,
        Err(_) => {
            return Err(RegistryError::MalformedRecord);
        },
    };
    Ok((voter, registrar))
}

} // verus!
