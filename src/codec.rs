use vstd::prelude::*;
use vstd::bytes::{spec_u64_to_le_bytes, spec_u64_from_le_bytes, u64_to_le_bytes, u64_from_le_bytes, lemma_auto_spec_u64_to_from_le_bytes};
use vstd::slice::slice_subrange;
use crate::error::TokenError;

verus! {

// Tag byte of each instruction on the wire.
pub const TAG_INITIALIZE: u8 = 0;
pub const TAG_MINT: u8 = 1;
pub const TAG_TRANSFER: u8 = 2;
pub const TAG_BURN: u8 = 3;

/// The four instructions of the ledger.
#[derive(Clone, Copy, Debug, PartialEq, Eq, Structural)]
pub enum TokenInstruction {
    /// Writes a new mint record. Accounts: mint (writable), authority (signer).
    Initialize { decimals: u8, total_supply: u64 },
    /// Credits a token account. Accounts: mint, authority (signer),
    /// destination (writable).
    Mint { amount: u64 },
    /// Moves a balance. Accounts: source (writable), destination (writable),
    /// source owner (signer).
    Transfer { amount: u64 },
    /// Debits a token account. Accounts: token account (writable), owner (signer).
    Burn { amount: u64 },
}

/// The wire form of an instruction: a tag byte, then the fixed payload with
/// little-endian integers.
pub open spec fn encoded(ix: TokenInstruction) -> Seq<u8> {
    match ix {
        TokenInstruction::Initialize { decimals, total_supply } =>
            seq![TAG_INITIALIZE, decimals] + spec_u64_to_le_bytes(total_supply),
        TokenInstruction::Mint { amount } => seq![TAG_MINT] + spec_u64_to_le_bytes(amount),
        TokenInstruction::Transfer { amount } => seq![TAG_TRANSFER] + spec_u64_to_le_bytes(amount),
        TokenInstruction::Burn { amount } => seq![TAG_BURN] + spec_u64_to_le_bytes(amount),
    }
}

/// The little-endian `u64` stored at `b[at..at + 8]`.
pub open spec fn u64_at(b: Seq<u8>, at: int) -> u64 {
    spec_u64_from_le_bytes(b.subrange(at, at + 8))
}

/// What a buffer decodes to. Bytes past the payload are ignored.
pub open spec fn decoded(b: Seq<u8>) -> Result<TokenInstruction, TokenError> {
    if b.len() == 0 {
        Err(TokenError::MalformedInstruction)
    } else if b[0] == TAG_INITIALIZE {
        if b.len() < 10 {
            Err(TokenError::MalformedInstruction)
        } else {
            Ok(TokenInstruction::Initialize { decimals: b[1], total_supply: u64_at(b, 2) })
        }
    } else if b[0] == TAG_MINT || b[0] == TAG_TRANSFER || b[0] == TAG_BURN {
        if b.len() < 9 {
            Err(TokenError::MalformedInstruction)
        } else if b[0] == TAG_MINT {
            Ok(TokenInstruction::Mint { amount: u64_at(b, 1) })
        } else if b[0] == TAG_TRANSFER {
            Ok(TokenInstruction::Transfer { amount: u64_at(b, 1) })
        } else {
            Ok(TokenInstruction::Burn { amount: u64_at(b, 1) })
        }
    } else {
        Err(TokenError::MalformedInstruction)
    }
}

/// Reads the little-endian `u64` at `b[at..at + 8]`.
pub fn read_u64_le(b: &[u8], at: usize) -> (r: u64)
    requires
        at + 8 <= b@.len(),
    ensures
        r == u64_at(b@, at as int),
{
    let len = b.len();
    assert(at + 8 <= len);
    u64_from_le_bytes(slice_subrange(b, at, at + 8))
}

impl TokenInstruction {
    /// Serializes the instruction into its wire form.
    pub fn pack(&self) -> (r: Vec<u8>)
        ensures
            r@ == encoded(*self),
    {
        let (mut data, value) = match self {
            TokenInstruction::Initialize { decimals, total_supply } => (
                vec![TAG_INITIALIZE, *decimals],
                *total_supply,
            ),
            TokenInstruction::Mint { amount } => (vec![TAG_MINT], *amount),
            TokenInstruction::Transfer { amount } => (vec![TAG_TRANSFER], *amount),
            TokenInstruction::Burn { amount } => (vec![TAG_BURN], *amount),
        };
        let mut tail = u64_to_le_bytes(value);
        data.append(&mut tail);
        proof {
            assert(data@ =~= encoded(*self));
        }
        data
    }

    /// Parses an instruction from its wire form.
    pub fn unpack(input: &[u8]) -> (r: Result<TokenInstruction, TokenError>)
        ensures
            r == decoded(input@),
    {
        if input.len() == 0 {
            return Err(TokenError::MalformedInstruction);
        }
        let tag = input[0];
        if tag == TAG_INITIALIZE {
            if input.len() < 10 {
                return Err(TokenError::MalformedInstruction);
            }
            Ok(TokenInstruction::Initialize { decimals: input[1], total_supply: read_u64_le(input, 2) })
        } else if tag == TAG_MINT || tag == TAG_TRANSFER || tag == TAG_BURN {
            if input.len() < 9 {
                return Err(TokenError::MalformedInstruction);
            }
            let amount = read_u64_le(input, 1);
            if tag == TAG_MINT {
                Ok(TokenInstruction::Mint { amount })
            } else if tag == TAG_TRANSFER {
                Ok(TokenInstruction::Transfer { amount })
            } else {
                Ok(TokenInstruction::Burn { amount })
            }
        } else {
            Err(TokenError::MalformedInstruction)
        }
    }
}

/// Decoding an encoded instruction gives the instruction back, for every
/// variant and every parameter value.
pub proof fn lemma_round_trip(ix: TokenInstruction)
    ensures
        decoded(encoded(ix)) == Ok::<TokenInstruction, TokenError>(ix),
{
    lemma_auto_spec_u64_to_from_le_bytes();
    let b = encoded(ix);
    match ix {
        TokenInstruction::Initialize { decimals, total_supply } => {
            assert(b.subrange(2, 10) =~= spec_u64_to_le_bytes(total_supply));
        },
        TokenInstruction::Mint { amount } => {
            assert(b.subrange(1, 9) =~= spec_u64_to_le_bytes(amount));
        },
        TokenInstruction::Transfer { amount } => {
            assert(b.subrange(1, 9) =~= spec_u64_to_le_bytes(amount));
        },
        TokenInstruction::Burn { amount } => {
            assert(b.subrange(1, 9) =~= spec_u64_to_le_bytes(amount));
        },
    }
}

} // verus!
