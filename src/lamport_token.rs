use vstd::prelude::*;
use vstd::bytes::{spec_u64_to_le_bytes, u64_to_le_bytes, lemma_auto_spec_u64_to_from_le_bytes};
use crate::account::{AccountHandle, AccountState, states, committed, require_signer};
use crate::codec::{u64_at, read_u64_le};
use crate::error::TokenError;

verus! {

// A second, smaller ledger that keeps balances in the accounts' native
// lamports rather than in their data.

/// Native balance handed to a newly created token account.
pub const NEW_ACCOUNT_LAMPORTS: u64 = 1_000_000;
/// Data size of a newly created token account.
pub const NEW_ACCOUNT_SPACE: u64 = 165;

/// The instructions of the lamport ledger.
#[derive(Clone, Copy, Debug, PartialEq, Eq, Structural)]
pub enum TokenInstruction {
    /// Creates a token account through the system program. Accounts: payer,
    /// new token account, system program.
    InitializeAccount,
    /// Moves lamports. Accounts: source, destination, authority (signer), mint.
    Transfer { amount: u64 },
    /// Credits lamports. Accounts: mint, destination, authority (signer).
    Mint { amount: u64 },
}

/// Wire form: tag 0, 1 or 2, then the amount as a little-endian `u64`.
pub open spec fn encoded(ix: TokenInstruction) -> Seq<u8> {
    match ix {
        TokenInstruction::InitializeAccount => seq![0u8],
        TokenInstruction::Transfer { amount } => seq![1u8] + spec_u64_to_le_bytes(amount),
        TokenInstruction::Mint { amount } => seq![2u8] + spec_u64_to_le_bytes(amount),
    }
}

/// What a buffer decodes to. Bytes past the payload are ignored.
pub open spec fn decoded(b: Seq<u8>) -> Result<TokenInstruction, TokenError> {
    if b.len() == 0 {
        Err(TokenError::MalformedInstruction)
    } else if b[0] == 0 {
        Ok(TokenInstruction::InitializeAccount)
    } else if b[0] == 1 || b[0] == 2 {
        if b.len() < 9 {
            Err(TokenError::MalformedInstruction)
        } else if b[0] == 1 {
            Ok(TokenInstruction::Transfer { amount: u64_at(b, 1) })
        } else {
            Ok(TokenInstruction::Mint { amount: u64_at(b, 1) })
        }
    } else {
        Err(TokenError::MalformedInstruction)
    }
}

impl TokenInstruction {
    /// Serializes the instruction into its wire form.
    pub fn pack(&self) -> (r: Vec<u8>)
        ensures
            r@ == encoded(*self),
    {
        match self {
            TokenInstruction::InitializeAccount => vec![0u8],
            TokenInstruction::Transfer { amount } => {
                let mut data = vec![1u8];
                let mut tail = u64_to_le_bytes(*amount);
                data.append(&mut tail);
                assert(data@ =~= encoded(*self));
                data
            },
            TokenInstruction::Mint { amount } => {
                let mut data = vec![2u8];
                let mut tail = u64_to_le_bytes(*amount);
                data.append(&mut tail);
                assert(data@ =~= encoded(*self));
                data
            },
        }
    }

    /// Parses an instruction from its wire form.
    pub fn unpack(input: &[u8]) -> (r: Result<TokenInstruction, TokenError>)
        ensures
            r == decoded(input@),
    {
        if input.len() == 0 {
            return Err(TokenError::MalformedInstruction);
        }
        let tag = input[0];
        if tag == 0 {
            Ok(TokenInstruction::InitializeAccount)
        } else if tag == 1 || tag == 2 {
            if input.len() < 9 {
                return Err(TokenError::MalformedInstruction);
            }
            let amount = read_u64_le(input, 1);
            if tag == 1 {
                Ok(TokenInstruction::Transfer { amount })
            } else {
                Ok(TokenInstruction::Mint { amount })
            }
        } else {
            Err(TokenError::MalformedInstruction)
        }
    }
}

/// Decoding an encoded lamport-ledger instruction gives it back.
pub proof fn lemma_round_trip(ix: TokenInstruction)
    ensures
        decoded(encoded(ix)) == Ok::<TokenInstruction, TokenError>(ix),
{
    lemma_auto_spec_u64_to_from_le_bytes();
    match ix {
        TokenInstruction::InitializeAccount => {},
        TokenInstruction::Transfer { amount } => {
            assert(encoded(ix).subrange(1, 9) =~= spec_u64_to_le_bytes(amount));
        },
        TokenInstruction::Mint { amount } => {
            assert(encoded(ix).subrange(1, 9) =~= spec_u64_to_le_bytes(amount));
        },
    }
}

/// The system program's identity: 32 zero bytes.
pub open spec fn is_system_program_key(key: Seq<u8>) -> bool {
    key.len() == 32 && forall|i: int| 0 <= i < 32 ==> key[i] == 0
}

/// Relies on solana_program::system_program::check_id: true exactly for the
/// system program's id, "11111111111111111111111111111111" in base58, which
/// is 32 zero bytes.
#[verifier::external_body]
#[allow(deprecated)]
fn is_system_program(key: &[u8; 32]) -> (r: bool)
    ensures
        r == is_system_program_key(key@),
{
    solana_program::system_program::check_id(&solana_program::pubkey::Pubkey::new_from_array(*key))
}

/// The account that the system program is asked to create.
#[derive(Clone, Copy, Debug, PartialEq, Eq)]
pub struct CreateAccountRequest {
    pub payer: [u8; 32],
    pub new_account: [u8; 32],
    pub lamports: u64,
    pub space: u64,
}

/// What InitializeAccount asks of the system program, given the accounts.
pub open spec fn initialize_account_outcome(s: Seq<AccountState>) -> Result<CreateAccountRequest, TokenError> {
    if s.len() != 3 {
        Err(TokenError::NotEnoughAccountKeys)
    } else if !is_system_program_key(s[2].key@) {
        Err(TokenError::IncorrectProgramId)
    } else {
        Ok(CreateAccountRequest {
            payer: s[0].key,
            new_account: s[1].key,
            lamports: NEW_ACCOUNT_LAMPORTS,
            space: NEW_ACCOUNT_SPACE,
        })
    }
}

/// Checks the accounts of InitializeAccount and says which account the
/// system program must create. Accounts: payer, new token account, system
/// program.
pub fn process_initialize_account(accounts: &Vec<AccountHandle>) -> (r: Result<CreateAccountRequest, TokenError>)
    ensures
        r == initialize_account_outcome(states(accounts@)),
{
    if accounts.len() != 3 {
        return Err(TokenError::NotEnoughAccountKeys);
    }
    assert(states(accounts@)[2] == accounts@[2]@);
    if !is_system_program(&accounts[2].key) {
        return Err(TokenError::IncorrectProgramId);
    }
    assert(states(accounts@)[0] == accounts@[0]@);
    assert(states(accounts@)[1] == accounts@[1]@);
    Ok(CreateAccountRequest {
        payer: accounts[0].key,
        new_account: accounts[1].key,
        lamports: NEW_ACCOUNT_LAMPORTS,
        space: NEW_ACCOUNT_SPACE,
    })
}

/// What a lamport transfer does to `s`.
pub open spec fn transfer_outcome(s: Seq<AccountState>, amount: u64) -> Result<Seq<AccountState>, TokenError> {
    if s.len() != 4 {
        Err(TokenError::NotEnoughAccountKeys)
    } else if !s[2].is_signer {
        Err(TokenError::MissingSignature)
    } else if s[0].lamports < amount {
        Err(TokenError::InsufficientFunds)
    } else if s[1].lamports + amount > u64::MAX {
        Err(TokenError::ArithmeticOverflow)
    } else {
        Ok(s.update(0, s[0].with_lamports((s[0].lamports - amount) as u64))
            .update(1, s[1].with_lamports((s[1].lamports + amount) as u64)))
    }
}

/// What a lamport mint does to `s`.
pub open spec fn mint_outcome(s: Seq<AccountState>, amount: u64) -> Result<Seq<AccountState>, TokenError> {
    if s.len() != 3 {
        Err(TokenError::NotEnoughAccountKeys)
    } else if !s[2].is_signer {
        Err(TokenError::MissingSignature)
    } else if s[1].lamports + amount > u64::MAX {
        Err(TokenError::ArithmeticOverflow)
    } else {
        Ok(s.update(1, s[1].with_lamports((s[1].lamports + amount) as u64)))
    }
}

/// Sets the native balance of account `i`, keeping everything else.
fn set_lamports(accounts: &mut Vec<AccountHandle>, i: usize, lamports: u64)
    requires
        i < old(accounts)@.len(),
    ensures
        final(accounts)@.len() == old(accounts)@.len(),
        states(final(accounts)@) == states(old(accounts)@).update(i as int, old(accounts)@[i as int]@.with_lamports(lamports)),
{
    accounts[i].lamports = lamports;
    assert(states(accounts@) =~= states(old(accounts)@).update(i as int, old(accounts)@[i as int]@.with_lamports(lamports)));
}

/// Moves `amount` lamports from the source to the destination, both checked
/// before either is written.
pub fn process_transfer(accounts: &mut Vec<AccountHandle>, amount: u64) -> (r: Result<(), TokenError>)
    ensures
        committed(transfer_outcome(states(old(accounts)@), amount), states(old(accounts)@), r, states(final(accounts)@)),
{
    if accounts.len() != 4 {
        return Err(TokenError::NotEnoughAccountKeys);
    }
    require_signer(&accounts[2])?;
    let source = accounts[0].lamports;
    let destination = accounts[1].lamports;
    if source < amount {
        return Err(TokenError::InsufficientFunds);
    }
    let new_destination = match destination.checked_add(amount) {
        Some(v) => v,
        None => return Err(TokenError::ArithmeticOverflow),
    };
    let ghost pre = states(accounts@);
    set_lamports(accounts, 0, source - amount);
    assert(states(accounts@)[1] == accounts@[1]@);
    assert(accounts@[1]@ == pre[1]);
    set_lamports(accounts, 1, new_destination);
    Ok(())
}

/// Credits `amount` lamports to the destination, failing on overflow.
pub fn process_mint(accounts: &mut Vec<AccountHandle>, amount: u64) -> (r: Result<(), TokenError>)
    ensures
        committed(mint_outcome(states(old(accounts)@), amount), states(old(accounts)@), r, states(final(accounts)@)),
{
    if accounts.len() != 3 {
        return Err(TokenError::NotEnoughAccountKeys);
    }
    require_signer(&accounts[2])?;
    let new_destination = match accounts[1].lamports.checked_add(amount) {
        Some(v) => v,
        None => return Err(TokenError::ArithmeticOverflow),
    };
    set_lamports(accounts, 1, new_destination);
    Ok(())
}

/// `r` and `post` are what running `input` on `pre` must leave: on failure
/// the error with every account as it was; InitializeAccount changes no
/// account and returns the creation to perform; the others change balances.
pub open spec fn processed(
    input: Seq<u8>,
    pre: Seq<AccountState>,
    r: Result<Option<CreateAccountRequest>, TokenError>,
    post: Seq<AccountState>,
) -> bool {
    match decoded(input) {
        Err(e) => r == Err::<Option<CreateAccountRequest>, TokenError>(e) && post == pre,
        Ok(TokenInstruction::InitializeAccount) => post == pre && match initialize_account_outcome(pre) {
            Ok(req) => r == Ok::<Option<CreateAccountRequest>, TokenError>(Some(req)),
            Err(e) => r == Err::<Option<CreateAccountRequest>, TokenError>(e),
        },
        Ok(TokenInstruction::Transfer { amount }) => match transfer_outcome(pre, amount) {
            Ok(s) => r == Ok::<Option<CreateAccountRequest>, TokenError>(None) && post == s,
            Err(e) => r == Err::<Option<CreateAccountRequest>, TokenError>(e) && post == pre,
        },
        Ok(TokenInstruction::Mint { amount }) => match mint_outcome(pre, amount) {
            Ok(s) => r == Ok::<Option<CreateAccountRequest>, TokenError>(None) && post == s,
            Err(e) => r == Err::<Option<CreateAccountRequest>, TokenError>(e) && post == pre,
        },
    }
}

/// Decodes an instruction and runs it. InitializeAccount changes no account
/// and returns the creation that the system program must perform.
pub fn process_instruction(accounts: &mut Vec<AccountHandle>, instruction_data: &[u8]) -> (r: Result<Option<CreateAccountRequest>, TokenError>)
    ensures
        processed(instruction_data@, states(old(accounts)@), r, states(final(accounts)@)),
{
    let instruction = TokenInstruction::unpack(instruction_data)?;
    match instruction {
        TokenInstruction::InitializeAccount => {
            let request = process_initialize_account(accounts)?;
            Ok(Some(request))
        },
        TokenInstruction::Transfer { amount } => {
            process_transfer(accounts, amount)?;
            Ok(None)
        },
        TokenInstruction::Mint { amount } => {
            process_mint(accounts, amount)?;
            Ok(None)
        },
    }
}

/// One account reference of an instruction for the host.
#[derive(Clone, Copy, Debug, PartialEq, Eq)]
pub struct AccountMetaEntry {
    pub pubkey: [u8; 32],
    pub is_signer: bool,
    pub is_writable: bool,
}

/// An instruction for the host: the program to run, its accounts in order,
/// and its data.
pub struct InstructionParts {
    pub program_id: [u8; 32],
    pub accounts: Vec<AccountMetaEntry>,
    pub data: Vec<u8>,
}

/// A writable account reference.
pub open spec fn writable_meta(pubkey: [u8; 32], is_signer: bool) -> AccountMetaEntry {
    AccountMetaEntry { pubkey, is_signer, is_writable: true }
}

/// Builds a Transfer instruction: source, destination, authority (the only
/// signer) and mint, all writable, with the encoded amount as data.
pub fn create_transfer_instruction(
    program_id: &[u8; 32],
    source_account: &[u8; 32],
    destination_account: &[u8; 32],
    authority: &[u8; 32],
    token_mint: &[u8; 32],
    amount: u64,
) -> (r: InstructionParts)
    ensures
        r.program_id == *program_id,
        r.accounts@ == seq![
            writable_meta(*source_account, false),
            writable_meta(*destination_account, false),
            writable_meta(*authority, true),
            writable_meta(*token_mint, false),
        ],
        r.data@ == encoded(TokenInstruction::Transfer { amount }),
{
    let accounts = vec![
        AccountMetaEntry { pubkey: *source_account, is_signer: false, is_writable: true },
        AccountMetaEntry { pubkey: *destination_account, is_signer: false, is_writable: true },
        AccountMetaEntry { pubkey: *authority, is_signer: true, is_writable: true },
        AccountMetaEntry { pubkey: *token_mint, is_signer: false, is_writable: true },
    ];
    let data = TokenInstruction::Transfer { amount }.pack();
    InstructionParts { program_id: *program_id, accounts, data }
}

} // verus!
