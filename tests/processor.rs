use token_stream::codec::RECORD_LEN;
use token_stream::processor::{process_initialize, process_terminate};
use token_stream::{
    process_instruction, process_instruction_at, Account, Pubkey, StreamConfig, StreamError,
    StreamInstruction,
};

const ONE_DAY: i64 = 86400;

fn key(b: u8) -> Pubkey {
    Pubkey::new_from_array([b; 32])
}

fn account(k: Pubkey, owner: Pubkey, is_signer: bool, data: Vec<u8>) -> Account {
    Account { key: k, owner, is_signer, data }
}

fn bytes_of(instr: StreamInstruction) -> Vec<u8> {
    let mut out = vec![];
    instr.serialize(&mut out);
    out
}

/// `[stream, sender, receiver]` with a blank stream slot owned by `program_id`.
fn fresh_accounts(program_id: Pubkey, sender: Pubkey, receiver: Pubkey) -> Vec<Account> {
    vec![
        account(key(9), program_id, false, vec![0; RECORD_LEN]),
        account(sender, program_id, true, vec![]),
        account(receiver, program_id, false, vec![]),
    ]
}

fn init_bytes(flow_rate: i64, initial_balance: u64) -> Vec<u8> {
    bytes_of(StreamInstruction::Initialize { flow_rate, initial_balance })
}

#[test]
fn test_initialization() {
    let program_id = Pubkey::default();
    let sender_key = Pubkey::default();
    let receiver_key = key(1);
    let mut accounts = fresh_accounts(program_id, sender_key, receiver_key);
    let instr_data = init_bytes(100, 1000);

    assert_eq!(process_instruction_at(&program_id, &mut accounts, &instr_data, Some(1000)), Ok(()));

    let stream = StreamConfig::try_from_slice(&accounts[0].data).unwrap();
    assert_eq!(stream.flow_rate, 100);
    assert_eq!(stream.static_balance, 1000);
    assert_eq!(stream.sender, sender_key);
    assert_eq!(stream.receiver, receiver_key);
    assert_eq!(stream.start_time, 1000);
}

#[test]
fn test_termination() {
    let program_id = Pubkey::default();
    let sender_key = Pubkey::default();
    let receiver_key = key(1);
    let mut accounts = fresh_accounts(program_id, sender_key, receiver_key);

    assert_eq!(
        process_instruction_at(&program_id, &mut accounts, &init_bytes(100, 1000), Some(1000)),
        Ok(())
    );

    accounts[1].is_signer = false;
    accounts[2].is_signer = true;
    let term_data = bytes_of(StreamInstruction::Terminate);
    assert_eq!(
        process_instruction_at(&program_id, &mut accounts, &term_data, Some(1000 + ONE_DAY)),
        Ok(())
    );

    let stream = StreamConfig::try_from_slice(&accounts[0].data).unwrap();
    assert_eq!(stream.flow_rate, 100);
    assert_eq!(stream.static_balance, 0);
    assert_eq!(stream.sender, sender_key);
    assert_eq!(stream.receiver, receiver_key);
    assert_eq!(stream.start_time, 1000);
}

/// Initializes a stream from `key(1)` to `key(2)` and hands back the accounts.
fn started(flow_rate: i64, initial_balance: u64, at: i64) -> (Pubkey, Vec<Account>) {
    let program_id = key(7);
    let mut accounts = fresh_accounts(program_id, key(1), key(2));
    assert_eq!(
        process_instruction_at(&program_id, &mut accounts, &init_bytes(flow_rate, initial_balance), Some(at)),
        Ok(())
    );
    (program_id, accounts)
}

fn balance(accounts: &[Account]) -> u64 {
    StreamConfig::try_from_slice(&accounts[0].data).unwrap().static_balance
}

#[test]
fn terminate_partway_deducts_streamed_amount() {
    let (program_id, mut accounts) = started(1, 100, 0);
    let term = bytes_of(StreamInstruction::Terminate);
    assert_eq!(process_instruction_at(&program_id, &mut accounts, &term, Some(50)), Ok(()));
    assert_eq!(balance(&accounts), 50);
    let stream = StreamConfig::try_from_slice(&accounts[0].data).unwrap();
    assert_eq!(stream.start_time, 0);
    assert_eq!(stream.flow_rate, 1);
}

#[test]
fn terminate_at_exact_exhaustion_gives_zero() {
    let (program_id, mut accounts) = started(10, 100, 0);
    let term = bytes_of(StreamInstruction::Terminate);
    assert_eq!(process_instruction_at(&program_id, &mut accounts, &term, Some(10)), Ok(()));
    assert_eq!(balance(&accounts), 0);
}

#[test]
fn terminate_twice_never_raises_balance() {
    let (program_id, mut accounts) = started(1, 100, 0);
    let term = bytes_of(StreamInstruction::Terminate);
    assert_eq!(process_instruction_at(&program_id, &mut accounts, &term, Some(30)), Ok(()));
    assert_eq!(balance(&accounts), 70);
    assert_eq!(process_instruction_at(&program_id, &mut accounts, &term, Some(40)), Ok(()));
    assert_eq!(balance(&accounts), 30);
    assert_eq!(process_instruction_at(&program_id, &mut accounts, &term, Some(1000)), Ok(()));
    assert_eq!(balance(&accounts), 0);
    assert_eq!(process_instruction_at(&program_id, &mut accounts, &term, Some(2000)), Ok(()));
    assert_eq!(balance(&accounts), 0);
}

#[test]
fn terminate_before_start_or_with_negative_rate_deducts_nothing() {
    let (program_id, mut accounts) = started(5, 100, 1000);
    let term = bytes_of(StreamInstruction::Terminate);
    assert_eq!(process_instruction_at(&program_id, &mut accounts, &term, Some(900)), Ok(()));
    assert_eq!(balance(&accounts), 100);

    let (program_id, mut accounts) = started(-5, 100, 0);
    assert_eq!(process_instruction_at(&program_id, &mut accounts, &term, Some(10)), Ok(()));
    assert_eq!(balance(&accounts), 100);
}

#[test]
fn terminate_with_extreme_values_clamps() {
    let (program_id, mut accounts) = started(i64::MAX, u64::MAX, i64::MIN);
    let term = bytes_of(StreamInstruction::Terminate);
    assert_eq!(process_instruction_at(&program_id, &mut accounts, &term, Some(i64::MAX)), Ok(()));
    assert_eq!(balance(&accounts), 0);
}

#[test]
fn terminate_signed_by_sender_alone_succeeds() {
    let (program_id, mut accounts) = started(1, 100, 0);
    accounts[1].is_signer = true;
    accounts[2].is_signer = false;
    let term = bytes_of(StreamInstruction::Terminate);
    assert_eq!(process_instruction_at(&program_id, &mut accounts, &term, Some(10)), Ok(()));
    assert_eq!(balance(&accounts), 90);
}

#[test]
fn terminate_signed_by_receiver_alone_succeeds() {
    let (program_id, mut accounts) = started(1, 100, 0);
    accounts[1].is_signer = false;
    accounts[2].is_signer = true;
    let term = bytes_of(StreamInstruction::Terminate);
    assert_eq!(process_instruction_at(&program_id, &mut accounts, &term, Some(10)), Ok(()));
    assert_eq!(balance(&accounts), 90);
}

#[test]
fn terminate_signed_by_neither_fails() {
    let (program_id, mut accounts) = started(1, 100, 0);
    accounts[1].is_signer = false;
    accounts[2].is_signer = false;
    let before = accounts[0].data.clone();
    let term = bytes_of(StreamInstruction::Terminate);
    assert_eq!(
        process_instruction_at(&program_id, &mut accounts, &term, Some(10)),
        Err(StreamError::MissingSignature)
    );
    assert_eq!(accounts[0].data, before);
}

#[test]
fn terminate_signed_by_unrelated_signer_fails() {
    let (program_id, mut accounts) = started(1, 100, 0);
    accounts[1].key = key(5);
    accounts[1].is_signer = true;
    accounts[2].is_signer = false;
    let before = accounts[0].data.clone();
    let term = bytes_of(StreamInstruction::Terminate);
    assert_eq!(
        process_instruction_at(&program_id, &mut accounts, &term, Some(10)),
        Err(StreamError::MissingSignature)
    );
    assert_eq!(accounts[0].data, before);
}

#[test]
fn initialize_without_sender_signature_fails() {
    let program_id = key(7);
    let mut accounts = fresh_accounts(program_id, key(1), key(2));
    accounts[1].is_signer = false;
    assert_eq!(
        process_instruction_at(&program_id, &mut accounts, &init_bytes(1, 1), Some(0)),
        Err(StreamError::MissingSignature)
    );
    assert_eq!(accounts[0].data, vec![0; RECORD_LEN]);
}

#[test]
fn foreign_owner_is_refused_and_storage_kept() {
    let program_id = key(7);
    let mut accounts = fresh_accounts(key(8), key(1), key(2));
    assert_eq!(
        process_instruction_at(&program_id, &mut accounts, &init_bytes(1, 1), Some(0)),
        Err(StreamError::IncorrectOwner)
    );
    assert_eq!(accounts[0].data, vec![0; RECORD_LEN]);

    let (program_id, mut accounts) = started(1, 100, 0);
    let before = accounts[0].data.clone();
    accounts[0].owner = key(8);
    let term = bytes_of(StreamInstruction::Terminate);
    assert_eq!(
        process_instruction_at(&program_id, &mut accounts, &term, Some(10)),
        Err(StreamError::IncorrectOwner)
    );
    assert_eq!(accounts[0].data, before);
}

#[test]
fn terminate_on_blank_slot_is_malformed_record() {
    let program_id = Pubkey::default();
    let mut accounts = fresh_accounts(program_id, Pubkey::default(), key(1));
    let term = bytes_of(StreamInstruction::Terminate);
    assert_eq!(
        process_instruction_at(&program_id, &mut accounts, &term, Some(10)),
        Err(StreamError::MalformedRecord)
    );
    assert_eq!(accounts[0].data, vec![0; RECORD_LEN]);
}

#[test]
fn terminate_on_short_slot_is_malformed_record() {
    let program_id = key(7);
    let mut accounts = fresh_accounts(program_id, key(1), key(2));
    accounts[0].data = vec![3; 10];
    let term = bytes_of(StreamInstruction::Terminate);
    assert_eq!(
        process_instruction_at(&program_id, &mut accounts, &term, Some(10)),
        Err(StreamError::MalformedRecord)
    );
}

#[test]
fn malformed_instruction_touches_nothing() {
    let program_id = key(7);
    let mut accounts = fresh_accounts(program_id, key(1), key(2));
    for data in [vec![], vec![2], vec![0, 1, 2], vec![1, 0]] {
        assert_eq!(
            process_instruction_at(&program_id, &mut accounts, &data, Some(0)),
            Err(StreamError::MalformedInstruction)
        );
    }
    assert_eq!(accounts[0].data, vec![0; RECORD_LEN]);
}

#[test]
fn missing_accounts_are_refused() {
    let program_id = key(7);
    let mut accounts = fresh_accounts(program_id, key(1), key(2));
    accounts.pop();
    assert_eq!(
        process_instruction_at(&program_id, &mut accounts, &init_bytes(1, 1), Some(0)),
        Err(StreamError::NotEnoughAccountKeys)
    );
}

#[test]
fn clock_unavailable_is_refused_and_storage_kept() {
    let program_id = key(7);
    let mut accounts = fresh_accounts(program_id, key(1), key(2));
    assert_eq!(
        process_instruction_at(&program_id, &mut accounts, &init_bytes(1, 1), None),
        Err(StreamError::ClockUnavailable)
    );
    assert_eq!(accounts[0].data, vec![0; RECORD_LEN]);
}

#[test]
fn without_a_host_clock_initialize_reports_clock_unavailable() {
    // Outside a validator no clock sysvar can be read.
    let program_id = key(7);
    let mut accounts = fresh_accounts(program_id, key(1), key(2));
    assert_eq!(
        process_instruction(&program_id, &mut accounts, &init_bytes(1, 1)),
        Err(StreamError::ClockUnavailable)
    );
    assert_eq!(accounts[0].data, vec![0; RECORD_LEN]);
    assert_eq!(
        process_instruction(&program_id, &mut accounts, &[9]),
        Err(StreamError::MalformedInstruction)
    );
}

#[test]
fn initialize_overwrites_only_the_record_bytes_of_a_longer_slot() {
    let program_id = key(7);
    let mut accounts = fresh_accounts(program_id, key(1), key(2));
    accounts[0].data = vec![5; 100];
    assert_eq!(
        process_instruction_at(&program_id, &mut accounts, &init_bytes(3, 30), Some(12)),
        Ok(())
    );
    assert_eq!(accounts[0].data.len(), 100);
    assert_eq!(&accounts[0].data[RECORD_LEN..], &[5u8; 12][..]);
    let c = StreamConfig::try_from_slice(&accounts[0].data[..RECORD_LEN]).unwrap();
    assert_eq!(c.static_balance, 30);
    assert_eq!(c.start_time, 12);
    // A slot longer than a record holds no record that Terminate can read.
    let term = bytes_of(StreamInstruction::Terminate);
    let before = accounts[0].data.clone();
    assert_eq!(
        process_instruction_at(&program_id, &mut accounts, &term, Some(20)),
        Err(StreamError::MalformedRecord)
    );
    assert_eq!(accounts[0].data, before);
}

#[test]
fn initialize_into_a_short_slot_is_refused() {
    let program_id = key(7);
    let mut accounts = fresh_accounts(program_id, key(1), key(2));
    accounts[0].data = vec![0; RECORD_LEN - 1];
    assert_eq!(
        process_instruction_at(&program_id, &mut accounts, &init_bytes(3, 30), Some(12)),
        Err(StreamError::AccountDataTooSmall)
    );
    assert_eq!(accounts[0].data, vec![0; RECORD_LEN - 1]);
}

#[test]
fn initialize_replaces_an_earlier_record() {
    let (program_id, mut accounts) = started(1, 100, 0);
    assert_eq!(
        process_initialize(&program_id, &mut accounts, 2, 500, Some(77)),
        Ok(())
    );
    let c = StreamConfig::try_from_slice(&accounts[0].data).unwrap();
    assert_eq!(c.static_balance, 500);
    assert_eq!(c.start_time, 77);
    assert_eq!(c.flow_rate, 2);
}

#[test]
fn terminate_at_start_time_rewrites_the_same_bytes() {
    let (program_id, mut accounts) = started(4, 100, 60);
    let before = accounts[0].data.clone();
    assert_eq!(process_terminate(&program_id, &mut accounts, Some(60)), Ok(()));
    assert_eq!(accounts[0].data, before);
}
