use vstd::prelude::*;
use crate::error::TokenError;

verus! {

/// One account as handed to an invocation: its identity, the two capabilities
/// the host attached to it for this call, its native balance and its data.
pub struct AccountHandle {
    pub key: [u8; 32],
    pub is_signer: bool,
    pub is_writable: bool,
    pub lamports: u64,
    pub data: Vec<u8>,
}

/// The mathematical value of an account handle.
pub struct AccountState {
    pub key: [u8; 32],
    pub is_signer: bool,
    pub is_writable: bool,
    pub lamports: u64,
    pub data: Seq<u8>,
}

impl View for AccountHandle {
    type V = AccountState;

    open spec fn view(&self) -> AccountState {
        AccountState {
            key: self.key,
            is_signer: self.is_signer,
            is_writable: self.is_writable,
            lamports: self.lamports,
            data: self.data@,
        }
    }
}

impl AccountState {
    /// This account with its data replaced.
    pub open spec fn with_data(self, data: Seq<u8>) -> AccountState {
        AccountState { data, ..self }
    }

    /// This account with its native balance replaced.
    pub open spec fn with_lamports(self, lamports: u64) -> AccountState {
        AccountState { lamports, ..self }
    }
}

/// The values of a list of account handles.
pub open spec fn states(accounts: Seq<AccountHandle>) -> Seq<AccountState> {
    accounts.map_values(|a: AccountHandle| a@)
}

/// `post` and `r` are what running an operation whose outcome is `outcome`
/// on `pre` must leave: the new accounts on success, and on failure the error
/// with every account as it was.
pub open spec fn committed(
    outcome: Result<Seq<AccountState>, TokenError>,
    pre: Seq<AccountState>,
    r: Result<(), TokenError>,
    post: Seq<AccountState>,
) -> bool {
    match outcome {
        Ok(s) => r == Ok::<(), TokenError>(()) && post == s,
        Err(e) => r == Err::<(), TokenError>(e) && post == pre,
    }
}

/// Fails with `MissingSignature` unless the account approved the invocation.
pub fn require_signer(account: &AccountHandle) -> (r: Result<(), TokenError>)
    ensures
        r == (if account.is_signer {
            Ok::<(), TokenError>(())
        } else {
            Err(TokenError::MissingSignature)
        }),
{
    if account.is_signer {
        Ok(())
    } else {
        Err(TokenError::MissingSignature)
    }
}

/// Fails with `IncorrectAccountRole` unless the account may be written.
pub fn require_writable(account: &AccountHandle) -> (r: Result<(), TokenError>)
    ensures
        r == (if account.is_writable {
            Ok::<(), TokenError>(())
        } else {
            Err(TokenError::IncorrectAccountRole)
        }),
{
    if account.is_writable {
        Ok(())
    } else {
        Err(TokenError::IncorrectAccountRole)
    }
}

} // verus!
