//! The transition engine: `Initialize` creates a stream record in the stream
//! account, `Terminate` settles it. Accounts come in the order
//! `[stream, sender, receiver]`. Every check comes before the one write, so a
//! refused request leaves every account as it was.

use crate::codec::{
    RECORD_LEN, decoded_instruction, decoded_record, encode_instruction, encode_record,
    is_instruction_bytes, is_record_bytes, lemma_instruction_round_trip, lemma_record_injective,
};
use crate::state::{lemma_pubkey_eq, Pubkey, StreamConfig, StreamError, StreamInstruction};
use solana_program::clock::Clock;
use solana_program::program_error::ProgramError;
use solana_program::sysvar::Sysvar;
use vstd::prelude::*;

verus! {

#[verifier::external_type_specification]
#[verifier::external_body]
pub struct ExProgramError(ProgramError);

/// Relies on solana_program's `Clock::get`: reads the host's clock sysvar and
/// hands back its `unix_timestamp`. Nothing is known of the time it reads, nor
/// whether the read succeeds.
#[verifier::external_body]
fn clock_unix_timestamp() -> (r: Result<i64, ProgramError>) {
    Clock::get().map(|c| c.unix_timestamp)
}

/// What the engine sees of an account: its address, the program that owns it,
/// whether it signed the request, and its stored bytes.
pub struct Account {
    pub key: Pubkey,
    pub owner: Pubkey,
    pub is_signer: bool,
    pub data: Vec<u8>,
}

/// What `Terminate` deducts at time `now`: elapsed seconds times the rate.
pub open spec fn streamed_amount(c: StreamConfig, now: i64) -> int {
    (now - c.start_time) * c.flow_rate
}

/// `balance` less `streamed`, floored at zero. A `streamed` that is not positive
/// (a negative rate, or a clock behind `start_time`) deducts nothing.
pub open spec fn drained(balance: u64, streamed: int) -> u64 {
    if streamed <= 0 {
        balance
    } else if streamed >= balance {
        0
    } else {
        (balance - streamed) as u64
    }
}

/// The record after settling at time `now`: only the balance changes.
pub open spec fn settle(c: StreamConfig, now: i64) -> StreamConfig {
    StreamConfig {
        sender: c.sender,
        receiver: c.receiver,
        flow_rate: c.flow_rate,
        static_balance: drained(c.static_balance, streamed_amount(c, now)),
        start_time: c.start_time,
    }
}

/// Either party of the record signed, from its own account slot.
pub open spec fn is_authorized(c: StreamConfig, sender: Account, receiver: Account) -> bool {
    ||| (sender.is_signer && sender.key == c.sender)
    ||| (receiver.is_signer && receiver.key == c.receiver)
}

/// The record that `Initialize` writes at clock reading `now`, or why it refuses.
pub open spec fn initialize_outcome(
    program_id: Pubkey,
    accounts: Seq<Account>,
    flow_rate: i64,
    initial_balance: u64,
    now: Option<i64>,
) -> Result<StreamConfig, StreamError> {
    if accounts.len() < 3 {
        Err(StreamError::NotEnoughAccountKeys)
    } else if accounts[0].owner != program_id {
        Err(StreamError::IncorrectOwner)
    } else if !accounts[1].is_signer {
        Err(StreamError::MissingSignature)
    } else {
        match now {
            None => Err(StreamError::ClockUnavailable),
            Some(t) => if accounts[0].data@.len() < RECORD_LEN {
                Err(StreamError::AccountDataTooSmall)
            } else {
                Ok(
                StreamConfig {
                    sender: accounts[1].key,
                    receiver: accounts[2].key,
                    flow_rate,
                    static_balance: initial_balance,
                    start_time: t,
                },
            )
            },
        }
    }
}

/// The record that `Terminate` writes at clock reading `now`, or why it refuses.
pub open spec fn terminate_outcome(
    program_id: Pubkey,
    accounts: Seq<Account>,
    now: Option<i64>,
) -> Result<StreamConfig, StreamError> {
    if accounts.len() < 3 {
        Err(StreamError::NotEnoughAccountKeys)
    } else if accounts[0].owner != program_id {
        Err(StreamError::IncorrectOwner)
    } else if !is_record_bytes(accounts[0].data@) {
        Err(StreamError::MalformedRecord)
    } else if !is_authorized(decoded_record(accounts[0].data@), accounts[1], accounts[2]) {
        Err(StreamError::MissingSignature)
    } else {
        match now {
            None => Err(StreamError::ClockUnavailable),
            Some(t) => Ok(settle(decoded_record(accounts[0].data@), t)),
        }
    }
}

/// The record that the request `data` writes at clock reading `now`, or why it
/// refuses.
pub open spec fn instruction_outcome(
    program_id: Pubkey,
    accounts: Seq<Account>,
    data: Seq<u8>,
    now: Option<i64>,
) -> Result<StreamConfig, StreamError> {
    if !is_instruction_bytes(data) {
        Err(StreamError::MalformedInstruction)
    } else {
        match decoded_instruction(data) {
            StreamInstruction::Initialize { flow_rate, initial_balance } => initialize_outcome(
                program_id,
                accounts,
                flow_rate,
                initial_balance,
                now,
            ),
            StreamInstruction::Terminate => terminate_outcome(program_id, accounts, now),
        }
    }
}

/// `after` is `before` with the first bytes of the stream account's data
/// overwritten by `data`; the rest of its data, and its length, stay.
pub open spec fn stores(before: Seq<Account>, after: Seq<Account>, data: Seq<u8>) -> bool {
    &&& before.len() >= 1
    &&& before[0].data@.len() >= data.len()
    &&& after.len() == before.len()
    &&& after[0].key == before[0].key
    &&& after[0].owner == before[0].owner
    &&& after[0].is_signer == before[0].is_signer
    &&& after[0].data@ == data + before[0].data@.subrange(data.len() as int, before[0].data@.len() as int)
    &&& forall|i: int| 1 <= i < before.len() ==> after[i] == before[i]
}

/// A call returned `r` and left `after` as `outcome` says: on success the record
/// is written to the stream account, on a refusal nothing changes.
pub open spec fn applied(
    outcome: Result<StreamConfig, StreamError>,
    r: Result<(), StreamError>,
    before: Seq<Account>,
    after: Seq<Account>,
) -> bool {
    match outcome {
        Ok(c) => r == Ok::<(), StreamError>(()) && stores(before, after, encode_record(c)),
        Err(e) => r == Err::<(), StreamError>(e) && after == before,
    }
}

fn store_record(accounts: &mut Vec<Account>, c: &StreamConfig)
    requires
        old(accounts)@.len() >= 1,
        old(accounts)@[0].data@.len() >= RECORD_LEN,
    ensures
        stores(old(accounts)@, final(accounts)@, encode_record(*c)),
{
    let mut bytes = c.to_bytes();
    let n = accounts[0].data.len();
    let mut i: usize = RECORD_LEN;
    while i < n
        invariant
            RECORD_LEN <= i <= n,
            accounts@.len() >= 1,
            accounts@ == old(accounts)@,
            n == accounts@[0].data@.len(),
            bytes@ == encode_record(*c) + accounts@[0].data@.subrange(RECORD_LEN as int, i as int),
        decreases n - i,
    {
        bytes.push(accounts[0].data[i]);
        assert(accounts@[0].data@.subrange(RECORD_LEN as int, i + 1) =~= accounts@[0].data@.subrange(
            RECORD_LEN as int,
            i as int,
        ).push(accounts@[0].data@[i as int]));
        i = i + 1;
    }
    proof {
        crate::codec::lemma_record_len(*c);
    }
    accounts[0].data = bytes;
}

fn same_key(a: &Pubkey, b: &Pubkey) -> (r: bool)
    ensures
        r == (*a == *b),
{
    proof {
        lemma_pubkey_eq(*a, *b);
    }
    *a == *b
}

/// The record `c` settled at time `now`.
fn settle_at(c: &StreamConfig, now: i64) -> (r: StreamConfig)
    ensures
        r == settle(*c, now),
{
    let elapsed: i128 = now as i128 - c.start_time as i128;
    let rate: i128 = c.flow_rate as i128;
    proof {
        assert(-0x1_0000_0000_0000_0000 < elapsed < 0x1_0000_0000_0000_0000);
        assert(-0x8000_0000_0000_0000 <= rate <= 0x7fff_ffff_ffff_ffff);
        assert(-0x8000_0000_0000_0000_0000_0000_0000_0000 < elapsed * rate
            < 0x8000_0000_0000_0000_0000_0000_0000_0000) by (nonlinear_arith)
            requires
                -0x1_0000_0000_0000_0000 < elapsed < 0x1_0000_0000_0000_0000,
                -0x8000_0000_0000_0000 <= rate <= 0x8000_0000_0000_0000,
        ;
    }
    let streamed: i128 = elapsed * rate;
    let balance: u64 = if streamed <= 0 {
        c.static_balance
    } else if streamed >= c.static_balance as i128 {
        0
    } else {
        c.static_balance - streamed as u64
    };
    StreamConfig {
        sender: c.sender,
        receiver: c.receiver,
        flow_rate: c.flow_rate,
        static_balance: balance,
        start_time: c.start_time,
    }
}

/// `Initialize`: writes a fresh record into the first bytes of the stream
/// account, with `now` as the clock's reading (`None`: it could not be read).
pub fn process_initialize(
    program_id: &Pubkey,
    accounts: &mut Vec<Account>,
    flow_rate: i64,
    initial_balance: u64,
    now: Option<i64>,
) -> (r: Result<(), StreamError>)
    ensures
        applied(
            initialize_outcome(*program_id, old(accounts)@, flow_rate, initial_balance, now),
            r,
            old(accounts)@,
            final(accounts)@,
        ),
{
    if accounts.len() < 3 {
        return Err(StreamError::NotEnoughAccountKeys);
    }
    if !same_key(&accounts[0].owner, program_id) {
        return Err(StreamError::IncorrectOwner);
    }
    if !accounts[1].is_signer {
        return Err(StreamError::MissingSignature);
    }
    let start_time = match now {
        Some(t) => t,
        None => return Err(StreamError::ClockUnavailable),
    };
    if accounts[0].data.len() < RECORD_LEN {
        return Err(StreamError::AccountDataTooSmall);
    }
    let stream = StreamConfig::initialize(
        accounts[1].key,
        accounts[2].key,
        flow_rate,
        initial_balance,
        start_time,
    );
    store_record(accounts, &stream);
    Ok(())
}

/// `Terminate`: settles the stored record at the clock's reading `now`
/// (`None`: it could not be read) and writes it back.
pub fn process_terminate(program_id: &Pubkey, accounts: &mut Vec<Account>, now: Option<i64>) -> (r:
    Result<(), StreamError>)
    ensures
        applied(
            terminate_outcome(*program_id, old(accounts)@, now),
            r,
            old(accounts)@,
            final(accounts)@,
        ),
{
    if accounts.len() < 3 {
        return Err(StreamError::NotEnoughAccountKeys);
    }
    if !same_key(&accounts[0].owner, program_id) {
        return Err(StreamError::IncorrectOwner);
    }
    let stream = match StreamConfig::try_from_slice(accounts[0].data.as_slice()) {
        Ok(c) => c,
        Err(e) => return Err(e),
    };
    proof {
        let d = decoded_record(accounts@[0].data@);
        lemma_record_injective(stream, d);
    }
    let by_sender = accounts[1].is_signer && same_key(&stream.sender, &accounts[1].key);
    let by_receiver = accounts[2].is_signer && same_key(&stream.receiver, &accounts[2].key);
    if !(by_sender || by_receiver) {
        return Err(StreamError::MissingSignature);
    }
    let current_time = match now {
        Some(t) => t,
        None => return Err(StreamError::ClockUnavailable),
    };
    let settled = settle_at(&stream, current_time);
    store_record(accounts, &settled);
    Ok(())
}

/// Carries out the request `instruction_data` against
/// `accounts = [stream, sender, receiver]`, where `now` is the clock's reading,
/// or `None` where the clock could not be read.
pub fn process_instruction_at(
    program_id: &Pubkey,
    accounts: &mut Vec<Account>,
    instruction_data: &[u8],
    now: Option<i64>,
) -> (r: Result<(), StreamError>)
    ensures
        applied(
            instruction_outcome(*program_id, old(accounts)@, instruction_data@, now),
            r,
            old(accounts)@,
            final(accounts)@,
        ),
{
    let instruction = match StreamInstruction::try_from_slice(instruction_data) {
        Ok(i) => i,
        Err(e) => return Err(e),
    };
    proof {
        lemma_instruction_round_trip(instruction, decoded_instruction(instruction_data@));
    }
    match instruction {
        StreamInstruction::Initialize { flow_rate, initial_balance } => process_initialize(
            program_id,
            accounts,
            flow_rate,
            initial_balance,
            now,
        ),
        StreamInstruction::Terminate => process_terminate(program_id, accounts, now),
    }
}

/// Carries out the request `instruction_data` against
/// `accounts = [stream, sender, receiver]` at the time that the host's clock
/// reads; `ClockUnavailable` where it cannot be read. The clock is read once the
/// request has decoded.
pub fn process_instruction(
    program_id: &Pubkey,
    accounts: &mut Vec<Account>,
    instruction_data: &[u8],
) -> (r: Result<(), StreamError>)
    ensures
        exists|now: Option<i64>|
            applied(
                #[trigger] instruction_outcome(*program_id, old(accounts)@, instruction_data@, now),
                r,
                old(accounts)@,
                final(accounts)@,
            ),
{
    if let Err(e) = StreamInstruction::try_from_slice(instruction_data) {
        proof {
            assert(applied(
                instruction_outcome(*program_id, old(accounts)@, instruction_data@, None),
                Err(e),
                old(accounts)@,
                accounts@,
            ));
        }
        return Err(e);
    }
    let now = match clock_unix_timestamp() {
        Ok(t) => Some(t),
        Err(_) => None,
    };
    process_instruction_at(program_id, accounts, instruction_data, now)
}

/// After a successful `Initialize`, the record holds the initial balance and
/// starts at the clock's reading, whatever the rate and balance.
pub proof fn lemma_initialize_sets_balance_and_start(
    program_id: Pubkey,
    accounts: Seq<Account>,
    flow_rate: i64,
    initial_balance: u64,
    t: i64,
)
    requires
        accounts.len() >= 3,
        accounts[0].owner == program_id,
        accounts[1].is_signer,
        accounts[0].data@.len() >= RECORD_LEN,
    ensures
        instruction_outcome(
            program_id,
            accounts,
            encode_instruction(StreamInstruction::Initialize { flow_rate, initial_balance }),
            Some(t),
        ) matches Ok(c) && c.static_balance == initial_balance && c.start_time == t
            && c.flow_rate == flow_rate,
{
    let i = StreamInstruction::Initialize { flow_rate, initial_balance };
    lemma_instruction_round_trip(i, decoded_instruction(encode_instruction(i)));
}

/// `Terminate` never raises the balance: the record it writes holds at most the
/// balance that was stored.
pub proof fn lemma_terminate_never_raises_balance(
    program_id: Pubkey,
    accounts: Seq<Account>,
    now: Option<i64>,
)
    ensures
        terminate_outcome(program_id, accounts, now) matches Ok(c) ==> c.static_balance
            <= decoded_record(accounts[0].data@).static_balance,
{
}

/// Once the streamed amount reaches the stored balance, `Terminate` leaves a
/// balance of exactly zero.
pub proof fn lemma_terminate_clamps_to_zero(program_id: Pubkey, accounts: Seq<Account>, t: i64)
    requires
        accounts.len() >= 1,
        streamed_amount(decoded_record(accounts[0].data@), t) >= decoded_record(
            accounts[0].data@,
        ).static_balance,
    ensures
        terminate_outcome(program_id, accounts, Some(t)) matches Ok(c) ==> c.static_balance == 0,
{
}

/// `Terminate` at the record's own start time writes back the very record that
/// it read.
pub proof fn lemma_terminate_at_start_keeps_record(program_id: Pubkey, accounts: Seq<Account>)
    requires
        terminate_outcome(
            program_id,
            accounts,
            Some(decoded_record(accounts[0].data@).start_time),
        ).is_ok(),
    ensures
        terminate_outcome(program_id, accounts, Some(decoded_record(accounts[0].data@).start_time))
            == Ok::<StreamConfig, StreamError>(decoded_record(accounts[0].data@)),
{
}

/// `Terminate` asks one signature, from either party of the record in its own
/// slot: the sender's alone suffices, the receiver's alone suffices, and with
/// neither (a signer that is no party included) it is refused with
/// `MissingSignature`.
pub proof fn lemma_terminate_authorization(program_id: Pubkey, accounts: Seq<Account>, t: i64)
    requires
        accounts.len() >= 3,
        accounts[0].owner == program_id,
        is_record_bytes(accounts[0].data@),
    ensures
        (accounts[1].is_signer && accounts[1].key == decoded_record(accounts[0].data@).sender)
            ==> terminate_outcome(program_id, accounts, Some(t)).is_ok(),
        (accounts[2].is_signer && accounts[2].key == decoded_record(accounts[0].data@).receiver)
            ==> terminate_outcome(program_id, accounts, Some(t)).is_ok(),
        !(accounts[1].is_signer && accounts[1].key == decoded_record(accounts[0].data@).sender)
            && !(accounts[2].is_signer && accounts[2].key == decoded_record(
            accounts[0].data@,
        ).receiver) ==> terminate_outcome(program_id, accounts, Some(t)) == Err::<
            StreamConfig,
            StreamError,
        >(StreamError::MissingSignature),
{
}

/// Against a stream account that the program does not own, every well-formed
/// request is refused with `IncorrectOwner` and leaves every account unchanged.
pub proof fn lemma_owner_checked(
    program_id: Pubkey,
    before: Seq<Account>,
    after: Seq<Account>,
    data: Seq<u8>,
    now: Option<i64>,
    r: Result<(), StreamError>,
)
    requires
        before.len() >= 3,
        before[0].owner != program_id,
        is_instruction_bytes(data),
        applied(instruction_outcome(program_id, before, data, now), r, before, after),
    ensures
        r == Err::<(), StreamError>(StreamError::IncorrectOwner),
        after == before,
{
}

} // verus!
