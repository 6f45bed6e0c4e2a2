use token_ledger::account::AccountHandle;
use token_ledger::codec::TokenInstruction;
use token_ledger::error::TokenError;
use token_ledger::layout::{read_balance, write_balance, MintAccount, TokenAccount};
use token_ledger::processor::{burn_tokens, initialize_token, mint_tokens, process_instruction, transfer_tokens};

fn handle(id: u8, is_signer: bool, is_writable: bool, data: Vec<u8>) -> AccountHandle {
    AccountHandle { key: [id; 32], is_signer, is_writable, lamports: 0, data }
}

fn token(id: u8, balance: u64) -> AccountHandle {
    handle(id, false, true, balance.to_le_bytes().to_vec())
}

fn balance(a: &AccountHandle) -> u64 {
    u64::from_le_bytes(a.data[0..8].try_into().unwrap())
}

#[test]
fn pack_layouts() {
    let init = TokenInstruction::Initialize { decimals: 2, total_supply: 1_000_000 };
    assert_eq!(init.pack(), vec![0, 2, 0x40, 0x42, 0x0f, 0, 0, 0, 0, 0]);
    assert_eq!(TokenInstruction::Mint { amount: 1 }.pack(), vec![1, 1, 0, 0, 0, 0, 0, 0, 0]);
    assert_eq!(TokenInstruction::Transfer { amount: 256 }.pack(), vec![2, 0, 1, 0, 0, 0, 0, 0, 0]);
    assert_eq!(TokenInstruction::Burn { amount: u64::MAX }.pack(), vec![3, 255, 255, 255, 255, 255, 255, 255, 255]);
}

#[test]
fn round_trip_every_variant() {
    let cases = [
        TokenInstruction::Initialize { decimals: 0, total_supply: 0 },
        TokenInstruction::Initialize { decimals: 255, total_supply: u64::MAX },
        TokenInstruction::Mint { amount: 0 },
        TokenInstruction::Mint { amount: u64::MAX },
        TokenInstruction::Transfer { amount: 50 },
        TokenInstruction::Burn { amount: 0x0102_0304_0506_0708 },
    ];
    for ix in cases.iter() {
        assert_eq!(TokenInstruction::unpack(&ix.pack()), Ok(*ix));
    }
}

#[test]
fn unpack_rejects_malformed() {
    assert_eq!(TokenInstruction::unpack(&[]), Err(TokenError::MalformedInstruction));
    assert_eq!(TokenInstruction::unpack(&[0, 2, 1, 0, 0, 0, 0, 0, 0]), Err(TokenError::MalformedInstruction));
    assert_eq!(TokenInstruction::unpack(&[1, 1, 0, 0, 0, 0, 0, 0]), Err(TokenError::MalformedInstruction));
    assert_eq!(TokenInstruction::unpack(&[4, 1, 0, 0, 0, 0, 0, 0, 0]), Err(TokenError::MalformedInstruction));
    assert_eq!(TokenInstruction::unpack(&[255]), Err(TokenError::MalformedInstruction));
}

#[test]
fn unpack_ignores_trailing_bytes() {
    assert_eq!(
        TokenInstruction::unpack(&[3, 7, 0, 0, 0, 0, 0, 0, 0, 9, 9]),
        Ok(TokenInstruction::Burn { amount: 7 })
    );
}

#[test]
fn initialize_writes_mint_record() {
    let mut accounts = vec![handle(1, false, true, vec![0u8; 41]), handle(7, true, false, vec![])];
    assert_eq!(initialize_token(&mut accounts, 2, 1_000_000), Ok(()));
    let data = &accounts[0].data;
    assert_eq!(data[0], 2);
    assert_eq!(&data[1..9], &1_000_000u64.to_le_bytes());
    assert_eq!(&data[9..41], &[7u8; 32]);
    let record = MintAccount::unpack(data).unwrap();
    assert_eq!(record, MintAccount { decimals: 2, total_supply: 1_000_000, mint_authority: [7; 32] });
}

#[test]
fn initialize_through_dispatch() {
    let mut accounts = vec![handle(1, false, true, vec![0u8; 50]), handle(7, true, false, vec![])];
    let ix = TokenInstruction::Initialize { decimals: 2, total_supply: 1_000_000 }.pack();
    assert_eq!(process_instruction(&mut accounts, &ix), Ok(()));
    assert_eq!(accounts[0].data[0], 2);
    assert_eq!(&accounts[0].data[1..9], &[0x40, 0x42, 0x0f, 0, 0, 0, 0, 0]);
    assert_eq!(&accounts[0].data[41..], &[0u8; 9]);
}

#[test]
fn initialize_errors() {
    let mut unsigned = vec![handle(1, false, true, vec![0u8; 41]), handle(7, false, false, vec![])];
    assert_eq!(initialize_token(&mut unsigned, 2, 5), Err(TokenError::MissingSignature));
    assert_eq!(unsigned[0].data, vec![0u8; 41]);
    let mut small = vec![handle(1, false, true, vec![0u8; 40]), handle(7, true, false, vec![])];
    assert_eq!(initialize_token(&mut small, 2, 5), Err(TokenError::AccountTooSmall));
    let mut readonly = vec![handle(1, false, false, vec![0u8; 41]), handle(7, true, false, vec![])];
    assert_eq!(initialize_token(&mut readonly, 2, 5), Err(TokenError::IncorrectAccountRole));
    let mut short = vec![handle(1, false, true, vec![0u8; 41])];
    assert_eq!(initialize_token(&mut short, 2, 5), Err(TokenError::NotEnoughAccountKeys));
}

#[test]
fn transfer_moves_balance() {
    let mut accounts = vec![token(1, 100), token(2, 10), handle(3, true, false, vec![])];
    assert_eq!(transfer_tokens(&mut accounts, 50), Ok(()));
    assert_eq!(balance(&accounts[0]), 50);
    assert_eq!(balance(&accounts[1]), 60);
}

#[test]
fn transfer_insufficient_funds() {
    let mut accounts = vec![token(1, 100), token(2, 10), handle(3, true, false, vec![])];
    assert_eq!(transfer_tokens(&mut accounts, 150), Err(TokenError::InsufficientFunds));
    assert_eq!(balance(&accounts[0]), 100);
    assert_eq!(balance(&accounts[1]), 10);
}

#[test]
fn transfer_conserves_total() {
    for (s, d, a) in [(100u64, 10u64, 50u64), (7, 0, 7), (u64::MAX, 0, u64::MAX), (5, u64::MAX - 5, 5)] {
        let mut accounts = vec![token(1, s), token(2, d), handle(3, true, false, vec![])];
        assert_eq!(transfer_tokens(&mut accounts, a), Ok(()));
        let after = balance(&accounts[0]) as u128 + balance(&accounts[1]) as u128;
        assert_eq!(after, s as u128 + d as u128);
    }
}

#[test]
fn transfer_destination_overflow_keeps_source() {
    let mut accounts = vec![token(1, 100), token(2, u64::MAX - 10), handle(3, true, false, vec![])];
    assert_eq!(transfer_tokens(&mut accounts, 11), Err(TokenError::ArithmeticOverflow));
    assert_eq!(balance(&accounts[0]), 100);
    assert_eq!(balance(&accounts[1]), u64::MAX - 10);
}

#[test]
fn transfer_requires_owner_signature() {
    let mut accounts = vec![token(1, 100), token(2, 10), handle(3, false, false, vec![])];
    assert_eq!(transfer_tokens(&mut accounts, 1), Err(TokenError::MissingSignature));
    assert_eq!(balance(&accounts[0]), 100);
    assert_eq!(balance(&accounts[1]), 10);
}

#[test]
fn transfer_other_errors() {
    let mut readonly = vec![token(1, 100), handle(2, false, false, vec![0u8; 8]), handle(3, true, false, vec![])];
    assert_eq!(transfer_tokens(&mut readonly, 1), Err(TokenError::IncorrectAccountRole));
    let mut small = vec![token(1, 100), handle(2, false, true, vec![0u8; 7]), handle(3, true, false, vec![])];
    assert_eq!(transfer_tokens(&mut small, 1), Err(TokenError::AccountTooSmall));
    let mut four = vec![token(1, 100), token(2, 0), handle(3, true, false, vec![]), token(4, 0)];
    assert_eq!(transfer_tokens(&mut four, 1), Err(TokenError::NotEnoughAccountKeys));
}

#[test]
fn mint_overflow_leaves_balance() {
    let mut accounts = vec![handle(1, false, false, vec![]), handle(2, true, false, vec![]), token(3, 1)];
    assert_eq!(mint_tokens(&mut accounts, u64::MAX), Err(TokenError::ArithmeticOverflow));
    assert_eq!(balance(&accounts[2]), 1);
}

#[test]
fn mint_credits_destination() {
    let mut accounts = vec![handle(1, false, false, vec![]), handle(2, true, false, vec![]), token(3, 1)];
    assert_eq!(mint_tokens(&mut accounts, u64::MAX - 1), Ok(()));
    assert_eq!(balance(&accounts[2]), u64::MAX);
}

#[test]
fn mint_requires_authority_signature() {
    let mut accounts = vec![handle(1, false, false, vec![]), handle(2, false, false, vec![]), token(3, 1)];
    assert_eq!(mint_tokens(&mut accounts, 5), Err(TokenError::MissingSignature));
    assert_eq!(balance(&accounts[2]), 1);
}

#[test]
fn burn_to_zero() {
    let mut accounts = vec![token(1, 30), handle(2, true, false, vec![])];
    assert_eq!(burn_tokens(&mut accounts, 30), Ok(()));
    assert_eq!(balance(&accounts[0]), 0);
}

#[test]
fn burn_insufficient_and_unsigned() {
    let mut accounts = vec![token(1, 30), handle(2, true, false, vec![])];
    assert_eq!(burn_tokens(&mut accounts, 31), Err(TokenError::InsufficientFunds));
    assert_eq!(balance(&accounts[0]), 30);
    let mut unsigned = vec![token(1, 30), handle(2, false, false, vec![])];
    assert_eq!(burn_tokens(&mut unsigned, 1), Err(TokenError::MissingSignature));
    assert_eq!(balance(&unsigned[0]), 30);
}

#[test]
fn unknown_tag_touches_nothing() {
    for tag in [4u8, 5, 128, 255] {
        let mut accounts = vec![token(1, 100), token(2, 10), handle(3, true, false, vec![])];
        let mut ix = TokenInstruction::Transfer { amount: 5 }.pack();
        ix[0] = tag;
        assert_eq!(process_instruction(&mut accounts, &ix), Err(TokenError::MalformedInstruction));
        assert_eq!(balance(&accounts[0]), 100);
        assert_eq!(balance(&accounts[1]), 10);
    }
}

#[test]
fn dispatch_routes_each_instruction() {
    let mut accounts = vec![token(1, 100), token(2, 10), handle(3, true, false, vec![])];
    assert_eq!(process_instruction(&mut accounts, &TokenInstruction::Transfer { amount: 50 }.pack()), Ok(()));
    assert_eq!(balance(&accounts[0]), 50);
    let mut burn = vec![token(1, 30), handle(2, true, false, vec![])];
    assert_eq!(process_instruction(&mut burn, &TokenInstruction::Burn { amount: 10 }.pack()), Ok(()));
    assert_eq!(balance(&burn[0]), 20);
    let mut mint = vec![handle(1, false, false, vec![]), handle(2, true, false, vec![]), token(3, 1)];
    assert_eq!(process_instruction(&mut mint, &TokenInstruction::Mint { amount: 9 }.pack()), Ok(()));
    assert_eq!(balance(&mint[2]), 10);
}

#[test]
fn balance_accessors() {
    assert_eq!(read_balance(&[1, 2, 3]), Err(TokenError::BufferTooSmall));
    assert_eq!(read_balance(&[1, 1, 0, 0, 0, 0, 0, 0, 9]), Ok(257));
    let mut short = vec![0u8; 7];
    assert_eq!(write_balance(&mut short, 5), Err(TokenError::BufferTooSmall));
    assert_eq!(short, vec![0u8; 7]);
    let mut data = vec![9u8; 10];
    assert_eq!(write_balance(&mut data, 258), Ok(()));
    assert_eq!(data, vec![2, 1, 0, 0, 0, 0, 0, 0, 9, 9]);
}

#[test]
fn token_account_record() {
    let record = TokenAccount { balance: 42, owner: [5; 32], mint: [6; 32] };
    let mut data = vec![0u8; 80];
    assert_eq!(record.pack_into(&mut data), Ok(()));
    assert_eq!(&data[0..8], &42u64.to_le_bytes());
    assert_eq!(&data[8..40], &[5u8; 32]);
    assert_eq!(&data[40..72], &[6u8; 32]);
    assert_eq!(TokenAccount::unpack(&data), Ok(record));
    assert_eq!(TokenAccount::unpack(&data[..71]), Err(TokenError::BufferTooSmall));
    let mut small = vec![0u8; 71];
    assert_eq!(record.pack_into(&mut small), Err(TokenError::BufferTooSmall));
    assert_eq!(MintAccount::unpack(&[0u8; 40]), Err(TokenError::BufferTooSmall));
}
