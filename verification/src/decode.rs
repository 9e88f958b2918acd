use vstd::prelude::*;
use crate::deposit_entry::DepositEntry;
use crate::error::RegistryError;
use crate::record::{
    decode_pair,
    registrar_matches,
    registrar_record_valid,
    voter_matches,
    voter_record_valid,
};
use crate::registrar::Registrar;
use crate::voter::{weight_spec, Voter};

verus! {

/// Length of the tag that every stored record starts with.
pub const DISCRIMINATOR_LEN: usize = 8;

/// Seconds in a year of 365 days.
pub const SECS_PER_YEAR: i64 = 31_536_000;

/// The tag of a stored voter record: the first eight bytes of the
/// SHA-256 hash of `account:Voter`.
pub open spec fn voter_discriminator_spec() -> Seq<u8> {
    seq![241u8, 93u8, 35u8, 191u8, 254u8, 147u8, 17u8, 202u8]
}

/// The tag of a stored registrar record: the first eight bytes of the
/// SHA-256 hash of `account:Registrar`.
pub open spec fn registrar_discriminator_spec() -> Seq<u8> {
    seq![193u8, 202u8, 205u8, 51u8, 78u8, 168u8, 150u8, 128u8]
}

/// The tag of a stored voter record.
pub fn voter_discriminator() -> (r: [u8; 8])
    ensures
        r@ == voter_discriminator_spec(),
{
    let tag: [u8; 8] = [241, 93, 35, 191, 254, 147, 17, 202];
    assert(tag@ =~= voter_discriminator_spec());
    tag
}

/// The tag of a stored registrar record.
pub fn registrar_discriminator() -> (r: [u8; 8])
    ensures
        r@ == registrar_discriminator_spec(),
{
    let tag: [u8; 8] = [193, 202, 205, 51, 78, 168, 150, 128];
    assert(tag@ =~= registrar_discriminator_spec());
    tag
}

/// Whether `data` is long enough for a tag and starts with `tag`.
pub open spec fn has_discriminator(data: Seq<u8>, tag: Seq<u8>) -> bool {
    data.len() >= DISCRIMINATOR_LEN && data.subrange(0, DISCRIMINATOR_LEN as int) == tag
}

/// Checks the frame of a stored record: `MalformedRecord` exactly where
/// `data` is shorter than a tag or does not start with `tag`.
pub fn check_record(data: &[u8], tag: &[u8; 8]) -> (r: Result<(), RegistryError>)
    ensures
        has_discriminator(data@, tag@) ==> r is Ok,
        !has_discriminator(data@, tag@) ==> r == Err::<(), RegistryError>(
            RegistryError::MalformedRecord,
        ),
{
    if data.len() < DISCRIMINATOR_LEN {
        return Err(RegistryError::MalformedRecord);
    }
    let mut i: usize = 0;
    while i < DISCRIMINATOR_LEN
        invariant
            i <= DISCRIMINATOR_LEN,
            data@.len() >= DISCRIMINATOR_LEN,
            forall|k: int| 0 <= k < i ==> data@[k] == tag@[k],
        decreases DISCRIMINATOR_LEN - i,
    {
        if data[i] != tag[i] {
            assert(data@.subrange(0, DISCRIMINATOR_LEN as int)[i as int] == data@[i as int]);
            return Err(RegistryError::MalformedRecord);
        }
        i += 1;
    }
    assert(data@.subrange(0, DISCRIMINATOR_LEN as int) =~= tag@);
    Ok(())
}

/// The error of `base64::decode`, carried through as a value that
/// nothing is read from.
#[verifier::external_type_specification]
#[verifier::external_body]
pub struct ExDecodeError(base64::DecodeError);

/// The bytes that a text stands for in base64 with the standard
/// alphabet, or `None` where the text is not such an encoding.
pub uninterp spec fn base64_decoded(text: Seq<char>) -> Option<Seq<u8>>;

/// `base64::decode`: the bytes that `text` encodes in the standard
/// alphabet, or the crate's error where `text` is no such encoding. The
/// result depends on `text` alone, which is all that is claimed here.
/// The crate gives up only on a length that no text in memory can have.
#[verifier::external_body]
fn base64_decode(text: &str) -> (r: Result<Vec<u8>, base64::DecodeError>)
    ensures
        match r {
            Ok(bytes) => base64_decoded(text@) == Some(bytes@),
            Err(_) => base64_decoded(text@) is None,
        },
{
    base64::decode(text)
}

/// The bytes of one line of base64 text. Fails with `MalformedRecord`
/// exactly where the line is not valid base64.
pub fn decode_line(text: &str) -> (r: Result<Vec<u8>, RegistryError>)
    ensures
        match base64_decoded(text@) {
            Some(bytes) => r is Ok && r->Ok_0@ == bytes,
            None => r == Err::<Vec<u8>, RegistryError>(RegistryError::MalformedRecord),
        },
{
    match base64_decode(text) {
        Ok(bytes) => Ok(bytes),
        Err(_) => Err(RegistryError::MalformedRecord),
    }
}

/// What the report says of one used deposit: its flags and its amounts
/// now and at the next five year marks.
#[derive(Clone, Copy, Debug, PartialEq, Eq, Structural)]
pub struct DisplayDepositEntry {
    pub allow_clawback: bool,
    pub mint_index: u8,
    pub unlocked_now: u64,
    pub locked_now: u64,
    pub locked_1y: u64,
    pub locked_2y: u64,
    pub locked_3y: u64,
    pub locked_4y: u64,
    pub locked_5y: u64,
}

/// The report on a voter: its identities and its used deposits, in slot
/// order.
#[derive(Clone, Debug)]
pub struct DisplayVoter {
    pub voter_authority: [u8; 32],
    pub registrar: [u8; 32],
    pub deposit_entries: Vec<DisplayDepositEntry>,
}

/// The report line of `entry` at `now`.
pub open spec fn display_entry_spec(entry: DepositEntry, now: i64) -> DisplayDepositEntry {
    DisplayDepositEntry {
        allow_clawback: entry.allow_clawback,
        mint_index: entry.voting_mint_config_idx,
        unlocked_now: entry.amount_unlocked_spec(now as int) as u64,
        locked_now: entry.amount_locked_spec(now as int) as u64,
        locked_1y: entry.amount_locked_spec(now + SECS_PER_YEAR) as u64,
        locked_2y: entry.amount_locked_spec(now + 2 * SECS_PER_YEAR) as u64,
        locked_3y: entry.amount_locked_spec(now + 3 * SECS_PER_YEAR) as u64,
        locked_4y: entry.amount_locked_spec(now + 4 * SECS_PER_YEAR) as u64,
        locked_5y: entry.amount_locked_spec(now + 5 * SECS_PER_YEAR) as u64,
    }
}

/// The report lines of the first `n` slots: one for each used slot, in
/// slot order.
pub open spec fn display_prefix_spec(deposits: Seq<DepositEntry>, now: i64, n: nat) -> Seq<
    DisplayDepositEntry,
>
    decreases n,
{
    if n == 0 {
        Seq::empty()
    } else if deposits[n - 1].is_used {
        display_prefix_spec(deposits, now, (n - 1) as nat).push(
            display_entry_spec(deposits[n - 1], now),
        )
    } else {
        display_prefix_spec(deposits, now, (n - 1) as nat)
    }
}

/// The report line of `entry` at `now`. The five year marks must fit
/// the clock.
pub fn display_entry(entry: &DepositEntry, now: i64) -> (r: DisplayDepositEntry)
    requires
        now + 5 * SECS_PER_YEAR <= i64::MAX,
    ensures
        r == display_entry_spec(*entry, now),
{
    DisplayDepositEntry {
        allow_clawback: entry.allow_clawback,
        mint_index: entry.voting_mint_config_idx,
        unlocked_now: entry.amount_unlocked(now),
        locked_now: entry.amount_locked(now),
        locked_1y: entry.amount_locked(now + SECS_PER_YEAR),
        locked_2y: entry.amount_locked(now + 2 * SECS_PER_YEAR),
        locked_3y: entry.amount_locked(now + 3 * SECS_PER_YEAR),
        locked_4y: entry.amount_locked(now + 4 * SECS_PER_YEAR),
        locked_5y: entry.amount_locked(now + 5 * SECS_PER_YEAR),
    }
}

/// The report on `voter` at `now`: a line for each used slot and none
/// for an unused one. The five year marks must fit the clock.
pub fn display_voter(voter: &Voter, now: i64) -> (r: DisplayVoter)
    requires
        now + 5 * SECS_PER_YEAR <= i64::MAX,
    ensures
        r.voter_authority == voter.voter_authority,
        r.registrar == voter.registrar,
        r.deposit_entries@ == display_prefix_spec(voter.deposits@, now, voter.deposits@.len()),
{
    let mut lines: Vec<DisplayDepositEntry> = Vec::new();
    let mut i: usize = 0;
    while i < voter.deposits.len()
        invariant
            now + 5 * SECS_PER_YEAR <= i64::MAX,
            i <= voter.deposits@.len(),
            lines@ == display_prefix_spec(voter.deposits@, now, i as nat),
        decreases voter.deposits@.len() - i,
    {
        let entry: DepositEntry = voter.deposits[i];
        if entry.is_used {
            lines.push(display_entry(&entry, now));
        }
        i += 1;
    }
    DisplayVoter {
        voter_authority: voter.voter_authority,
        registrar: voter.registrar,
        deposit_entries: lines,
    }
}

/// The report on `voter` at `now`, with its voting weight under
/// `registrar` or the reason why there is none. Fails with
/// `ArithmeticOverflow` exactly where a year mark does not fit the clock.
pub fn report(voter: &Voter, registrar: &Registrar, now: i64) -> (r: Result<
    (DisplayVoter, Result<u64, RegistryError>),
    RegistryError,
>)
    ensures
        now + 5 * SECS_PER_YEAR > i64::MAX ==> r == Err::<
            (DisplayVoter, Result<u64, RegistryError>),
            RegistryError,
        >(RegistryError::ArithmeticOverflow),
        now + 5 * SECS_PER_YEAR <= i64::MAX ==> r is Ok && r->Ok_0.0.voter_authority
            == voter.voter_authority && r->Ok_0.0.registrar == voter.registrar
            && r->Ok_0.0.deposit_entries@ == display_prefix_spec(
            voter.deposits@,
            now,
            voter.deposits@.len(),
        ) && match weight_spec(voter.deposits@, *registrar, now) {
            Ok(units) => r->Ok_0.1 is Ok && r->Ok_0.1->Ok_0 == units,
            Err(e) => r->Ok_0.1 == Err::<u64, RegistryError>(e),
        },
{
    if now > i64::MAX - 5 * SECS_PER_YEAR {
        return Err(RegistryError::ArithmeticOverflow);
    }
    let lines = display_voter(voter, now);
    let weight = voter.weight(registrar, now);
    Ok((lines, weight))
}

/// A line whose first character is `#` is a comment.
pub open spec fn is_comment_spec(line: Seq<char>) -> bool {
    line.len() > 0 && line[0] == '#'
}

/// Whether a trimmed line is a comment.
pub fn is_comment(line: &str) -> (r: bool)
    ensures
        r == is_comment_spec(line@),
{
    line.unicode_len() > 0 && line.get_char(0) == '#'
}

/// Pairs the lines of a batch: of the lines that are no comments, the
/// first is a voter record, the second its registrar record, the third
/// a voter record again, and so on.
pub struct PairReader {
    /// The voter line that still waits for its registrar line.
    pub pending_voter: Option<String>,
}

impl PairReader {
    /// A reader that holds no line.
    pub fn new() -> (r: PairReader)
        ensures
            r.pending_voter is None,
    {
        PairReader { pending_voter: None }
    }

    /// The pair that a line completes, if it completes one.
    pub open spec fn handed_out(self, line: String) -> Option<(String, String)> {
        if is_comment_spec(line@) || self.pending_voter is None {
            None
        } else {
            Some((self.pending_voter->Some_0, line))
        }
    }

    /// The voter line that is held once a line has been taken.
    pub open spec fn held_after(self, line: String) -> Option<String> {
        if is_comment_spec(line@) {
            self.pending_voter
        } else if self.pending_voter is None {
            Some(line)
        } else {
            None
        }
    }

    /// Takes the next trimmed line. A comment changes nothing. Another
    /// line is held as the voter line where none is held, and otherwise
    /// completes the pair, which is handed out: the voter line first.
    pub fn feed(&mut self, line: String) -> (r: Option<(String, String)>)
        ensures
            r == old(self).handed_out(line),
            final(self).pending_voter == old(self).held_after(line),
    {
        if is_comment(line.as_str()) {
            return None;
        }
        match self.pending_voter.take() {
            None => {
                self.pending_voter = Some(line);
                None
            },
            Some(voter) => Some((voter, line)),
        }
    }
}

/// Reads a voter record and its registrar record and reports on the
/// voter at `now`. Fails with `MalformedRecord` exactly where one of the
/// records is not valid, and otherwise with `ArithmeticOverflow` exactly
/// where a year mark does not fit the clock. The report is that of the
/// voter and the registrar that the records store.
pub fn decode_voter(data_voter: &[u8], data_registrar: &[u8], now: i64) -> (r: Result<
    (DisplayVoter, Result<u64, RegistryError>),
    RegistryError,
>)
    ensures
        !(voter_record_valid(data_voter@) && registrar_record_valid(data_registrar@)) ==> r
            == Err::<(DisplayVoter, Result<u64, RegistryError>), RegistryError>(
            RegistryError::MalformedRecord,
        ),
        voter_record_valid(data_voter@) && registrar_record_valid(data_registrar@) && now + 5
            * SECS_PER_YEAR > i64::MAX ==> r == Err::<
            (DisplayVoter, Result<u64, RegistryError>),
            RegistryError,
        >(RegistryError::ArithmeticOverflow),
        voter_record_valid(data_voter@) && registrar_record_valid(data_registrar@) && now + 5
            * SECS_PER_YEAR <= i64::MAX ==> r is Ok && exists|voter: Voter, registrar: Registrar|
            {
                &&& #[trigger] voter_matches(voter, data_voter@)
                &&& #[trigger] registrar_matches(registrar, data_registrar@)
                &&& r->Ok_0.0.voter_authority == voter.voter_authority
                &&& r->Ok_0.0.registrar == voter.registrar
                &&& r->Ok_0.0.deposit_entries@ == display_prefix_spec(
                    voter.deposits@,
                    now,
                    voter.deposits@.len(),
                )
                &&& match weight_spec(voter.deposits@, registrar, now) {
                    Ok(units) => r->Ok_0.1 is Ok && r->Ok_0.1->Ok_0 == units,
                    Err(e) => r->Ok_0.1 == Err::<u64, RegistryError>(e),
                }
            },
{
    let (voter, registrar) = match decode_pair(data_voter, data_registrar) {
        Ok(pair) => pair,
        Err(_) => {
            return Err(RegistryError::MalformedRecord);
        },
    };
    let r = report(&voter, &registrar, now);
    proof {
        if r is Ok {
            assert(voter_matches(voter, data_voter@) && registrar_matches(
                registrar,
                data_registrar@,
            ));
        }
    }
    r
}

} // verus!
