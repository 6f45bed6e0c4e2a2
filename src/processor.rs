use vstd::prelude::*;
use crate::account::{AccountHandle, AccountState, states, committed, require_signer, require_writable};
use crate::codec::{TokenInstruction, TAG_BURN, decoded, encoded, lemma_round_trip};
use crate::error::TokenError;
use crate::layout::{
    BALANCE_END, MINT_ACCOUNT_LEN, MintAccount, balance_of, with_balance, mint_bytes, spliced,
    read_balance, write_balance, lemma_balance_written,
};

verus! {

/// What Initialize does to `s`: the mint record with the authority's
/// identity is written over the start of account 0.
pub open spec fn initialize_outcome(s: Seq<AccountState>, decimals: u8, total_supply: u64) -> Result<Seq<AccountState>, TokenError> {
    if s.len() != 2 {
        Err(TokenError::NotEnoughAccountKeys)
    } else if !s[1].is_signer {
        Err(TokenError::MissingSignature)
    } else if !s[0].is_writable {
        Err(TokenError::IncorrectAccountRole)
    } else if s[0].data.len() < MINT_ACCOUNT_LEN {
        Err(TokenError::AccountTooSmall)
    } else {
        let m = MintAccount { decimals, total_supply, mint_authority: s[1].key };
        Ok(s.update(0, s[0].with_data(spliced(s[0].data, 0, mint_bytes(m)))))
    }
}

/// What Mint does to `s`: account 2's balance grows by `amount`.
pub open spec fn mint_outcome(s: Seq<AccountState>, amount: u64) -> Result<Seq<AccountState>, TokenError> {
    if s.len() != 3 {
        Err(TokenError::NotEnoughAccountKeys)
    } else if !s[1].is_signer {
        Err(TokenError::MissingSignature)
    } else if !s[2].is_writable {
        Err(TokenError::IncorrectAccountRole)
    } else if s[2].data.len() < BALANCE_END {
        Err(TokenError::AccountTooSmall)
    } else if balance_of(s[2].data) + amount > u64::MAX {
        Err(TokenError::ArithmeticOverflow)
    } else {
        let b = (balance_of(s[2].data) + amount) as u64;
        Ok(s.update(2, s[2].with_data(with_balance(s[2].data, b))))
    }
}

/// What Transfer does to `s`: `amount` moves from account 0 to account 1.
pub open spec fn transfer_outcome(s: Seq<AccountState>, amount: u64) -> Result<Seq<AccountState>, TokenError> {
    if s.len() != 3 {
        Err(TokenError::NotEnoughAccountKeys)
    } else if !s[2].is_signer {
        Err(TokenError::MissingSignature)
    } else if !s[0].is_writable || !s[1].is_writable {
        Err(TokenError::IncorrectAccountRole)
    } else if s[0].data.len() < BALANCE_END || s[1].data.len() < BALANCE_END {
        Err(TokenError::AccountTooSmall)
    } else if balance_of(s[0].data) < amount {
        Err(TokenError::InsufficientFunds)
    } else if balance_of(s[1].data) + amount > u64::MAX {
        Err(TokenError::ArithmeticOverflow)
    } else {
        let src = (balance_of(s[0].data) - amount) as u64;
        let dst = (balance_of(s[1].data) + amount) as u64;
        Ok(s.update(0, s[0].with_data(with_balance(s[0].data, src)))
            .update(1, s[1].with_data(with_balance(s[1].data, dst))))
    }
}

/// What Burn does to `s`: account 0's balance shrinks by `amount`.
pub open spec fn burn_outcome(s: Seq<AccountState>, amount: u64) -> Result<Seq<AccountState>, TokenError> {
    if s.len() != 2 {
        Err(TokenError::NotEnoughAccountKeys)
    } else if !s[1].is_signer {
        Err(TokenError::MissingSignature)
    } else if !s[0].is_writable {
        Err(TokenError::IncorrectAccountRole)
    } else if s[0].data.len() < BALANCE_END {
        Err(TokenError::AccountTooSmall)
    } else if balance_of(s[0].data) < amount {
        Err(TokenError::InsufficientFunds)
    } else {
        let b = (balance_of(s[0].data) - amount) as u64;
        Ok(s.update(0, s[0].with_data(with_balance(s[0].data, b))))
    }
}

/// What an instruction does to `s`.
pub open spec fn instruction_outcome(ix: TokenInstruction, s: Seq<AccountState>) -> Result<Seq<AccountState>, TokenError> {
    match ix {
        TokenInstruction::Initialize { decimals, total_supply } => initialize_outcome(s, decimals, total_supply),
        TokenInstruction::Mint { amount } => mint_outcome(s, amount),
        TokenInstruction::Transfer { amount } => transfer_outcome(s, amount),
        TokenInstruction::Burn { amount } => burn_outcome(s, amount),
    }
}

/// What a raw instruction buffer does to `s`.
pub open spec fn process_outcome(input: Seq<u8>, s: Seq<AccountState>) -> Result<Seq<AccountState>, TokenError> {
    match decoded(input) {
        Ok(ix) => instruction_outcome(ix, s),
        Err(e) => Err(e),
    }
}

/// Replaces the data of account `i`, keeping everything else.
fn set_data(accounts: &mut Vec<AccountHandle>, i: usize, data: Vec<u8>)
    requires
        i < old(accounts)@.len(),
    ensures
        final(accounts)@.len() == old(accounts)@.len(),
        states(final(accounts)@) == states(old(accounts)@).update(i as int, old(accounts)@[i as int]@.with_data(data@)),
{
    let a = AccountHandle {
        key: accounts[i].key,
        is_signer: accounts[i].is_signer,
        is_writable: accounts[i].is_writable,
        lamports: accounts[i].lamports,
        data,
    };
    accounts.set(i, a);
    assert(states(accounts@) =~= states(old(accounts)@).update(i as int, old(accounts)@[i as int]@.with_data(data@)));
}

/// A copy of account `i`'s data with its balance set to `v`.
fn rebalanced(accounts: &Vec<AccountHandle>, i: usize, v: u64) -> (r: Vec<u8>)
    requires
        i < accounts@.len(),
        accounts@[i as int].data@.len() >= BALANCE_END,
    ensures
        r@ == with_balance(accounts@[i as int].data@, v),
{
    let mut data = accounts[i].data.clone();
    assert(data@ == accounts@[i as int].data@);
    // The size was checked by the caller, so the write succeeds.
    let _ = write_balance(&mut data, v);
    data
}

/// Records a new mint: decimals, total supply and the authority's identity
/// are written into the mint account. Accounts: mint (writable), authority
/// (signer).
pub fn initialize_token(accounts: &mut Vec<AccountHandle>, decimals: u8, total_supply: u64) -> (r: Result<(), TokenError>)
    ensures
        committed(initialize_outcome(states(old(accounts)@), decimals, total_supply), states(old(accounts)@), r, states(final(accounts)@)),
{
    if accounts.len() != 2 {
        return Err(TokenError::NotEnoughAccountKeys);
    }
    require_signer(&accounts[1])?;
    require_writable(&accounts[0])?;
    if accounts[0].data.len() < MINT_ACCOUNT_LEN {
        return Err(TokenError::AccountTooSmall);
    }
    let record = MintAccount { decimals, total_supply, mint_authority: accounts[1].key };
    let mut data = accounts[0].data.clone();
    assert(data@ == accounts@[0].data@);
    // The size was checked above, so the write succeeds.
    let _ = record.pack_into(&mut data);
    set_data(accounts, 0, data);
    Ok(())
}

/// Credits `amount` to the destination token account, failing on overflow.
/// Accounts: mint, authority (signer), destination (writable). The mint's
/// recorded total supply is left as it is.
pub fn mint_tokens(accounts: &mut Vec<AccountHandle>, amount: u64) -> (r: Result<(), TokenError>)
    ensures
        committed(mint_outcome(states(old(accounts)@), amount), states(old(accounts)@), r, states(final(accounts)@)),
{
    if accounts.len() != 3 {
        return Err(TokenError::NotEnoughAccountKeys);
    }
    require_signer(&accounts[1])?;
    require_writable(&accounts[2])?;
    let balance = match read_balance(accounts[2].data.as_slice()) {
        Ok(b) => b,
        Err(_) => return Err(TokenError::AccountTooSmall),
    };
    let new_balance = match balance.checked_add(amount) {
        Some(b) => b,
        None => return Err(TokenError::ArithmeticOverflow),
    };
    let data = rebalanced(accounts, 2, new_balance);
    set_data(accounts, 2, data);
    Ok(())
}

/// Moves `amount` from the source to the destination token account. Both new
/// balances are computed and checked before either is written. Accounts:
/// source (writable), destination (writable), source owner (signer).
pub fn transfer_tokens(accounts: &mut Vec<AccountHandle>, amount: u64) -> (r: Result<(), TokenError>)
    ensures
        committed(transfer_outcome(states(old(accounts)@), amount), states(old(accounts)@), r, states(final(accounts)@)),
{
    if accounts.len() != 3 {
        return Err(TokenError::NotEnoughAccountKeys);
    }
    require_signer(&accounts[2])?;
    require_writable(&accounts[0])?;
    require_writable(&accounts[1])?;
    let (source_balance, destination_balance) = match (
        read_balance(accounts[0].data.as_slice()),
        read_balance(accounts[1].data.as_slice()),
    ) {
        (Ok(s), Ok(d)) => (s, d),
        _ => return Err(TokenError::AccountTooSmall),
    };
    if source_balance < amount {
        return Err(TokenError::InsufficientFunds);
    }
    let new_source = source_balance - amount;
    let new_destination = match destination_balance.checked_add(amount) {
        Some(b) => b,
        None => return Err(TokenError::ArithmeticOverflow),
    };
    let source_data = rebalanced(accounts, 0, new_source);
    let destination_data = rebalanced(accounts, 1, new_destination);
    let ghost pre = states(accounts@);
    set_data(accounts, 0, source_data);
    assert(states(accounts@)[1] == accounts@[1]@);
    assert(accounts@[1]@ == pre[1]);
    set_data(accounts, 1, destination_data);
    Ok(())
}

/// Removes `amount` from a token account; a balance of exactly `amount`
/// becomes zero. Accounts: token account (writable), owner (signer).
pub fn burn_tokens(accounts: &mut Vec<AccountHandle>, amount: u64) -> (r: Result<(), TokenError>)
    ensures
        committed(burn_outcome(states(old(accounts)@), amount), states(old(accounts)@), r, states(final(accounts)@)),
{
    if accounts.len() != 2 {
        return Err(TokenError::NotEnoughAccountKeys);
    }
    require_signer(&accounts[1])?;
    require_writable(&accounts[0])?;
    let balance = match read_balance(accounts[0].data.as_slice()) {
        Ok(b) => b,
        Err(_) => return Err(TokenError::AccountTooSmall),
    };
    if balance < amount {
        return Err(TokenError::InsufficientFunds);
    }
    let data = rebalanced(accounts, 0, balance - amount);
    set_data(accounts, 0, data);
    Ok(())
}

/// Decodes an instruction and runs it on the accounts. On any failure no
/// account is changed.
pub fn process_instruction(accounts: &mut Vec<AccountHandle>, instruction_data: &[u8]) -> (r: Result<(), TokenError>)
    ensures
        committed(process_outcome(instruction_data@, states(old(accounts)@)), states(old(accounts)@), r, states(final(accounts)@)),
{
    let instruction = TokenInstruction::unpack(instruction_data)?;
    match instruction {
        TokenInstruction::Initialize { decimals, total_supply } => initialize_token(accounts, decimals, total_supply),
        TokenInstruction::Mint { amount } => mint_tokens(accounts, amount),
        TokenInstruction::Transfer { amount } => transfer_tokens(accounts, amount),
        TokenInstruction::Burn { amount } => burn_tokens(accounts, amount),
    }
}

/// A transfer that succeeds keeps the sum of the two balances: whenever the
/// accounts are well formed, `amount` does not exceed the source balance and
/// the destination cannot overflow, the transfer succeeds and the source and
/// destination balances add up to what they did before.
pub proof fn lemma_transfer_conserves(s: Seq<AccountState>, amount: u64)
    requires
        s.len() == 3,
        s[2].is_signer,
        s[0].is_writable,
        s[1].is_writable,
        s[0].data.len() >= BALANCE_END,
        s[1].data.len() >= BALANCE_END,
        amount <= balance_of(s[0].data),
        balance_of(s[1].data) + amount <= u64::MAX,
    ensures
        transfer_outcome(s, amount) is Ok,
        balance_of(transfer_outcome(s, amount)->Ok_0[0].data) + balance_of(transfer_outcome(s, amount)->Ok_0[1].data)
            == balance_of(s[0].data) + balance_of(s[1].data),
{
    lemma_balance_written(s[0].data, (balance_of(s[0].data) - amount) as u64);
    lemma_balance_written(s[1].data, (balance_of(s[1].data) + amount) as u64);
}

/// Burning more than the balance fails with `InsufficientFunds` and leaves
/// every account, and so the balance, unchanged.
pub proof fn lemma_burn_never_negative(s: Seq<AccountState>, amount: u64, r: Result<(), TokenError>, post: Seq<AccountState>)
    requires
        s.len() == 2,
        s[1].is_signer,
        s[0].is_writable,
        s[0].data.len() >= BALANCE_END,
        amount > balance_of(s[0].data),
        committed(burn_outcome(s, amount), s, r, post),
    ensures
        r == Err::<(), TokenError>(TokenError::InsufficientFunds),
        post == s,
{
}

/// Transferring more than the source balance fails with `InsufficientFunds`
/// and leaves both balances unchanged.
pub proof fn lemma_transfer_never_negative(s: Seq<AccountState>, amount: u64, r: Result<(), TokenError>, post: Seq<AccountState>)
    requires
        s.len() == 3,
        s[2].is_signer,
        s[0].is_writable,
        s[1].is_writable,
        s[0].data.len() >= BALANCE_END,
        s[1].data.len() >= BALANCE_END,
        amount > balance_of(s[0].data),
        committed(transfer_outcome(s, amount), s, r, post),
    ensures
        r == Err::<(), TokenError>(TokenError::InsufficientFunds),
        post == s,
{
}

/// Minting past the largest balance fails with `ArithmeticOverflow` and
/// leaves every account unchanged.
pub proof fn lemma_mint_never_wraps(s: Seq<AccountState>, amount: u64, r: Result<(), TokenError>, post: Seq<AccountState>)
    requires
        s.len() == 3,
        s[1].is_signer,
        s[2].is_writable,
        s[2].data.len() >= BALANCE_END,
        balance_of(s[2].data) + amount > u64::MAX,
        committed(mint_outcome(s, amount), s, r, post),
    ensures
        r == Err::<(), TokenError>(TokenError::ArithmeticOverflow),
        post == s,
{
}

/// A transfer the source can cover but the destination cannot hold fails
/// with `ArithmeticOverflow` and leaves both balances unchanged.
pub proof fn lemma_transfer_never_wraps(s: Seq<AccountState>, amount: u64, r: Result<(), TokenError>, post: Seq<AccountState>)
    requires
        s.len() == 3,
        s[2].is_signer,
        s[0].is_writable,
        s[1].is_writable,
        s[0].data.len() >= BALANCE_END,
        s[1].data.len() >= BALANCE_END,
        amount <= balance_of(s[0].data),
        balance_of(s[1].data) + amount > u64::MAX,
        committed(transfer_outcome(s, amount), s, r, post),
    ensures
        r == Err::<(), TokenError>(TokenError::ArithmeticOverflow),
        post == s,
{
}

/// Mint, Transfer and Burn fail with `MissingSignature`, changing nothing,
/// whenever the designated authority or owner did not approve, whatever the
/// amount and the other accounts.
pub proof fn lemma_signature_required(ix: TokenInstruction, s: Seq<AccountState>, r: Result<(), TokenError>, post: Seq<AccountState>)
    requires
        match ix {
            TokenInstruction::Initialize { .. } => false,
            TokenInstruction::Mint { .. } => s.len() == 3 && !s[1].is_signer,
            TokenInstruction::Transfer { .. } => s.len() == 3 && !s[2].is_signer,
            TokenInstruction::Burn { .. } => s.len() == 2 && !s[1].is_signer,
        },
        committed(instruction_outcome(ix, s), s, r, post),
    ensures
        r == Err::<(), TokenError>(TokenError::MissingSignature),
        post == s,
{
}

/// A buffer whose tag is not one of the four instructions fails with
/// `MalformedInstruction` and changes no account.
pub proof fn lemma_unknown_tag_rejected(input: Seq<u8>, s: Seq<AccountState>, r: Result<(), TokenError>, post: Seq<AccountState>)
    requires
        input.len() > 0,
        input[0] > TAG_BURN,
        committed(process_outcome(input, s), s, r, post),
    ensures
        r == Err::<(), TokenError>(TokenError::MalformedInstruction),
        post == s,
{
}

/// Running the encoded form of an instruction does exactly what the
/// instruction does.
pub proof fn lemma_process_encoded(ix: TokenInstruction, s: Seq<AccountState>)
    ensures
        process_outcome(encoded(ix), s) == instruction_outcome(ix, s),
{
    lemma_round_trip(ix);
}

} // verus!
