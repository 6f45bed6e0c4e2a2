use vstd::prelude::*;
use crate::account::AccountHandle;
use crate::error::TokenError;

verus! {

/// The minimal program: it accepts any invocation that names at least one
/// account, and changes nothing.
pub fn process_instruction(accounts: &Vec<AccountHandle>, instruction_data: &[u8]) -> (r: Result<(), TokenError>)
    ensures
        r == (if accounts@.len() == 0 {
            Err::<(), TokenError>(TokenError::MissingSignature)
        } else {
            Ok(())
        }),
{
    if accounts.len() == 0 {
        return Err(TokenError::MissingSignature);
    }
    Ok(())
}

} // verus!
