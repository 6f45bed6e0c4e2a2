use vstd::prelude::*;
use vstd::bytes::{spec_u64_to_le_bytes, u64_to_le_bytes, lemma_auto_spec_u64_to_from_le_bytes};
use crate::codec::{u64_at, read_u64_le};
use crate::error::TokenError;

verus! {

/// End of the balance field, the first field of a token account.
pub const BALANCE_END: usize = 8;
/// Size of a mint record: decimals, total supply, authority.
pub const MINT_ACCOUNT_LEN: usize = 41;
/// Size of a full token account record: balance, owner, mint.
pub const TOKEN_ACCOUNT_LEN: usize = 72;

/// A mint record as stored at the start of a mint account.
#[derive(Clone, Copy, Debug, PartialEq, Eq)]
pub struct MintAccount {
    pub decimals: u8,
    pub total_supply: u64,
    pub mint_authority: [u8; 32],
}

/// A token account record: its balance and the identities it belongs to.
#[derive(Clone, Copy, Debug, PartialEq, Eq)]
pub struct TokenAccount {
    pub balance: u64,
    pub owner: [u8; 32],
    pub mint: [u8; 32],
}

/// `data` with `bytes` written over it from offset `at`.
pub open spec fn spliced(data: Seq<u8>, at: int, bytes: Seq<u8>) -> Seq<u8> {
    data.subrange(0, at) + bytes + data.subrange(at + bytes.len(), data.len() as int)
}

/// The balance held in a token account's buffer.
pub open spec fn balance_of(data: Seq<u8>) -> u64 {
    u64_at(data, 0)
}

/// A token account's buffer after its balance is set to `v`.
pub open spec fn with_balance(data: Seq<u8>, v: u64) -> Seq<u8> {
    spliced(data, 0, spec_u64_to_le_bytes(v))
}

/// The stored form of a mint record.
pub open spec fn mint_bytes(m: MintAccount) -> Seq<u8> {
    seq![m.decimals] + spec_u64_to_le_bytes(m.total_supply) + m.mint_authority@
}

/// The stored form of a token account record.
pub open spec fn token_account_bytes(t: TokenAccount) -> Seq<u8> {
    spec_u64_to_le_bytes(t.balance) + t.owner@ + t.mint@
}

/// The 32-byte identity stored at `data[at..at + 32]`.
pub open spec fn identity_at(data: Seq<u8>, at: int) -> Seq<u8> {
    data.subrange(at, at + 32)
}

/// Reading a balance back after writing it gives the written value, and the
/// bytes past the balance are untouched.
pub proof fn lemma_balance_written(data: Seq<u8>, v: u64)
    requires
        data.len() >= BALANCE_END,
    ensures
        with_balance(data, v).len() == data.len(),
        balance_of(with_balance(data, v)) == v,
        with_balance(data, v).subrange(8, data.len() as int) == data.subrange(8, data.len() as int),
{
    lemma_auto_spec_u64_to_from_le_bytes();
    let w = with_balance(data, v);
    assert(w.subrange(0, 8) =~= spec_u64_to_le_bytes(v));
    assert(w.subrange(8, data.len() as int) =~= data.subrange(8, data.len() as int));
}

/// Writes `bytes` into `data` from offset `at`; the length is unchanged.
pub fn write_bytes(data: &mut Vec<u8>, at: usize, bytes: &[u8])
    requires
        at + bytes@.len() <= old(data)@.len(),
    ensures
        final(data)@ == spliced(old(data)@, at as int, bytes@),
{
    let n = bytes.len();
    let len = data.len();
    let mut i: usize = 0;
    while i < n
        invariant
            data@.len() == len,
            n == bytes@.len(),
            at + n <= data@.len(),
            i <= n,
            data@.len() == old(data)@.len(),
            forall|j: int| 0 <= j < at ==> data@[j] == old(data)@[j],
            forall|j: int| at + i <= j < data@.len() ==> data@[j] == old(data)@[j],
            forall|j: int| 0 <= j < i ==> data@[at + j] == bytes@[j],
        decreases n - i,
    {
        data[at + i] = bytes[i];
        i = i + 1;
    }
    assert(data@ =~= spliced(old(data)@, at as int, bytes@));
}

/// Copies the 32 bytes at `data[at..at + 32]` into an identity.
pub fn read_identity(data: &[u8], at: usize) -> (r: [u8; 32])
    requires
        at + 32 <= data@.len(),
    ensures
        r@ == identity_at(data@, at as int),
{
    let mut r = [0u8; 32];
    let len = data.len();
    let mut i: usize = 0;
    while i < 32
        invariant
            data@.len() == len,
            at + 32 <= data@.len(),
            i <= 32,
            r@.len() == 32,
            forall|j: int| 0 <= j < i ==> r@[j] == data@[at + j],
        decreases 32 - i,
    {
        r[i] = data[at + i];
        i = i + 1;
    }
    assert(r@ =~= identity_at(data@, at as int));
    r
}

/// Reads the balance of a token account buffer.
pub fn read_balance(data: &[u8]) -> (r: Result<u64, TokenError>)
    ensures
        data@.len() < BALANCE_END ==> r == Err::<u64, TokenError>(TokenError::BufferTooSmall),
        data@.len() >= BALANCE_END ==> r == Ok::<u64, TokenError>(balance_of(data@)),
{
    if data.len() < BALANCE_END {
        return Err(TokenError::BufferTooSmall);
    }
    Ok(read_u64_le(data, 0))
}

/// Sets the balance of a token account buffer, leaving the rest as it was.
pub fn write_balance(data: &mut Vec<u8>, v: u64) -> (r: Result<(), TokenError>)
    ensures
        old(data)@.len() < BALANCE_END ==> r == Err::<(), TokenError>(TokenError::BufferTooSmall)
            && final(data)@ == old(data)@,
        old(data)@.len() >= BALANCE_END ==> r == Ok::<(), TokenError>(())
            && final(data)@ == with_balance(old(data)@, v),
{
    if data.len() < BALANCE_END {
        return Err(TokenError::BufferTooSmall);
    }
    let bytes = u64_to_le_bytes(v);
    write_bytes(data, 0, bytes.as_slice());
    Ok(())
}

impl MintAccount {
    /// Reads a mint record from the start of a mint account buffer.
    pub fn unpack(data: &[u8]) -> (r: Result<MintAccount, TokenError>)
        ensures
            data@.len() < MINT_ACCOUNT_LEN ==> r == Err::<MintAccount, TokenError>(TokenError::BufferTooSmall),
            data@.len() >= MINT_ACCOUNT_LEN ==> r is Ok
                && mint_bytes(r->Ok_0) == data@.subrange(0, MINT_ACCOUNT_LEN as int),
    {
        if data.len() < MINT_ACCOUNT_LEN {
            return Err(TokenError::BufferTooSmall);
        }
        let m = MintAccount {
            decimals: data[0],
            total_supply: read_u64_le(data, 1),
            mint_authority: read_identity(data, 9),
        };
        proof {
            lemma_auto_spec_u64_to_from_le_bytes();
            assert(data@.subrange(1, 9).len() == 8);
            assert(mint_bytes(m) =~= data@.subrange(0, MINT_ACCOUNT_LEN as int));
        }
        Ok(m)
    }

    /// Writes this record over the start of a mint account buffer.
    pub fn pack_into(&self, data: &mut Vec<u8>) -> (r: Result<(), TokenError>)
        ensures
            old(data)@.len() < MINT_ACCOUNT_LEN ==> r == Err::<(), TokenError>(TokenError::BufferTooSmall)
                && final(data)@ == old(data)@,
            old(data)@.len() >= MINT_ACCOUNT_LEN ==> r == Ok::<(), TokenError>(())
                && final(data)@ == spliced(old(data)@, 0, mint_bytes(*self)),
    {
        if data.len() < MINT_ACCOUNT_LEN {
            return Err(TokenError::BufferTooSmall);
        }
        let mut bytes = vec![self.decimals];
        let mut supply = u64_to_le_bytes(self.total_supply);
        bytes.append(&mut supply);
        bytes.extend_from_slice(&self.mint_authority);
        assert(bytes@ =~= mint_bytes(*self));
        write_bytes(data, 0, bytes.as_slice());
        Ok(())
    }
}

impl TokenAccount {
    /// Reads a token account record from the start of a buffer.
    pub fn unpack(data: &[u8]) -> (r: Result<TokenAccount, TokenError>)
        ensures
            data@.len() < TOKEN_ACCOUNT_LEN ==> r == Err::<TokenAccount, TokenError>(TokenError::BufferTooSmall),
            data@.len() >= TOKEN_ACCOUNT_LEN ==> r is Ok
                && token_account_bytes(r->Ok_0) == data@.subrange(0, TOKEN_ACCOUNT_LEN as int),
    {
        if data.len() < TOKEN_ACCOUNT_LEN {
            return Err(TokenError::BufferTooSmall);
        }
        let t = TokenAccount {
            balance: read_u64_le(data, 0),
            owner: read_identity(data, 8),
            mint: read_identity(data, 40),
        };
        proof {
            lemma_auto_spec_u64_to_from_le_bytes();
            assert(data@.subrange(0, 8).len() == 8);
            assert(token_account_bytes(t) =~= data@.subrange(0, TOKEN_ACCOUNT_LEN as int));
        }
        Ok(t)
    }

    /// Writes this record over the start of a buffer.
    pub fn pack_into(&self, data: &mut Vec<u8>) -> (r: Result<(), TokenError>)
        ensures
            old(data)@.len() < TOKEN_ACCOUNT_LEN ==> r == Err::<(), TokenError>(TokenError::BufferTooSmall)
                && final(data)@ == old(data)@,
            old(data)@.len() >= TOKEN_ACCOUNT_LEN ==> r == Ok::<(), TokenError>(())
                && final(data)@ == spliced(old(data)@, 0, token_account_bytes(*self)),
    {
        if data.len() < TOKEN_ACCOUNT_LEN {
            return Err(TokenError::BufferTooSmall);
        }
        let mut bytes = u64_to_le_bytes(self.balance);
        bytes.extend_from_slice(&self.owner);
        bytes.extend_from_slice(&self.mint);
        assert(bytes@ =~= token_account_bytes(*self));
        write_bytes(data, 0, bytes.as_slice());
        Ok(())
    }
}

} // verus!
