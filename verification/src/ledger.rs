//! The interface of the external fungible-token ledger, stated over plain
//! values.
//!
//! The ledger itself (balance bookkeeping, rent, signature checking) is an
//! external collaborator; this module pins down, account value in and account
//! value out, exactly what each primitive does and when it fails. The vault
//! operations are sequenced from these primitives, so their end-to-end
//! contracts follow from the contracts here.

use vstd::prelude::*;

use crate::address_eq;
use crate::authority::SignerProof;
use crate::error::VaultError;
use crate::Address;

verus! {

/// The balance of one asset held by one authority: the ledger's account
/// record, keyed by `address`. Created once; only the balance ever changes.
pub struct TokenAccount {
    /// The address the ledger files this account under.
    pub address: Address,
    /// The asset this account is bound to, fixed at creation.
    pub mint: Address,
    /// The authority allowed to move this account's balance.
    pub authority: Address,
    /// The non-negative balance.
    pub balance: u64,
}

/// Both accounts carry the same address, mint and authority: everything but
/// the balance.
pub open spec fn same_identity(a: TokenAccount, b: TokenAccount) -> bool {
    a.address@ == b.address@ && a.mint@ == b.mint@ && a.authority@ == b.authority@
}

/// What a caller presents to authorize a ledger operation: either the
/// identity of a user-held signing key, or a derived authority's
/// [`SignerProof`] capability.
///
/// For the `Signature` variant, checking the cryptographic signature itself
/// is the surrounding runtime's business; here the variant stands for an
/// identity whose signature has already been verified at the trust boundary.
pub enum LedgerAuthority {
    /// A user-held signing identity, external and opaque.
    Signature(Address),
    /// A derived authority presenting `(seed, nonce)` in place of a
    /// signature.
    Derived(SignerProof),
}

impl LedgerAuthority {
    /// A derived authority's proof must really derive its address; a
    /// signature is externally checked and carries no claim here.
    pub open spec fn wf(&self) -> bool {
        match self {
            LedgerAuthority::Signature(_) => true,
            LedgerAuthority::Derived(p) => p.wf(),
        }
    }

    /// The address this authorization claims to act as.
    pub open spec fn spec_presented(&self) -> Address {
        match self {
            LedgerAuthority::Signature(a) => *a,
            LedgerAuthority::Derived(p) => p.spec_address(),
        }
    }

    /// The address this authorization claims to act as.
    pub fn presented(&self) -> (r: &Address)
        ensures
            r == self.spec_presented(),
    {
        match self {
            LedgerAuthority::Signature(a) => a,
            LedgerAuthority::Derived(p) => p.address(),
        }
    }
}

/// Registers a new token account at `address`, bound to `mint`, controlled by
/// `authority`, with zero balance.
///
/// Mirrors the ledger's `createAccount`: the caller reports whether the
/// ledger already files an account at this address, and creation fails with
/// `AlreadyExists` exactly then — the idempotency boundary is the external
/// creation primitive's, not this core's. Rent funding is out of scope.
pub fn create_account(
    address: &Address,
    mint: &Address,
    authority: &Address,
    already_exists: bool,
) -> (r: Result<TokenAccount, VaultError>)
    ensures
        r is Ok <==> !already_exists,
        r matches Ok(acct) ==> acct.address@ == address@ && acct.mint@ == mint@ && acct.authority@
            == authority@ && acct.balance == 0,
        already_exists ==> r == Err::<TokenAccount, VaultError>(VaultError::AlreadyExists),
{
    if already_exists {
        Err(VaultError::AlreadyExists)
    } else {
        Ok(TokenAccount { address: *address, mint: *mint, authority: *authority, balance: 0 })
    }
}

/// Mints `amount` of `mint` into `dest`, authorized by the asset's registered
/// mint authority.
///
/// Mirrors the ledger's `mintTo`: fails `Unauthorized` when the presented
/// authority is not the registered one, `MintMismatch` when `dest` is bound
/// to another asset; on failure `dest` is untouched.
pub fn mint_to(
    mint: &Address,
    registered_authority: &Address,
    dest: &mut TokenAccount,
    amount: u64,
    auth: &LedgerAuthority,
) -> (r: Result<(), VaultError>)
    requires
        auth.wf(),
        old(dest).balance + amount <= u64::MAX,
    ensures
        r is Ok <==> auth.spec_presented()@ == registered_authority@ && old(dest).mint@ == mint@,
        r is Ok ==> final(dest).balance == old(dest).balance + amount,
        r is Err ==> *final(dest) == *old(dest),
        same_identity(*final(dest), *old(dest)),
        auth.spec_presented()@ != registered_authority@ ==> r == Err::<(), VaultError>(
            VaultError::Unauthorized,
        ),
        auth.spec_presented()@ == registered_authority@ && old(dest).mint@ != mint@ ==> r == Err::<
            (),
            VaultError,
        >(VaultError::MintMismatch),
{
    if !address_eq(auth.presented(), registered_authority) {
        return Err(VaultError::Unauthorized);
    }
    if !address_eq(&dest.mint, mint) {
        return Err(VaultError::MintMismatch);
    }
    dest.balance = dest.balance + amount;
    Ok(())
}

/// Moves `amount` from `source` to `dest`, authorized by `source`'s own
/// authority.
///
/// Mirrors the ledger's `transfer`: fails `Unauthorized` when the presented
/// authority does not control `source`, `MintMismatch` when the two accounts
/// are bound to different assets, `InsufficientBalance` when `source` does
/// not hold `amount`; on failure both accounts are untouched.
pub fn transfer(
    source: &mut TokenAccount,
    dest: &mut TokenAccount,
    amount: u64,
    auth: &LedgerAuthority,
) -> (r: Result<(), VaultError>)
    requires
        auth.wf(),
        old(dest).balance + amount <= u64::MAX,
    ensures
        r is Ok <==> auth.spec_presented()@ == old(source).authority@ && old(source).mint@ == old(
            dest,
        ).mint@ && old(source).balance >= amount,
        r is Ok ==> final(source).balance == old(source).balance - amount && final(dest).balance
            == old(dest).balance + amount,
        r is Err ==> *final(source) == *old(source) && *final(dest) == *old(dest),
        same_identity(*final(source), *old(source)),
        same_identity(*final(dest), *old(dest)),
        auth.spec_presented()@ != old(source).authority@ ==> r == Err::<(), VaultError>(
            VaultError::Unauthorized,
        ),
        auth.spec_presented()@ == old(source).authority@ && old(source).mint@ != old(dest).mint@
            ==> r == Err::<(), VaultError>(VaultError::MintMismatch),
        auth.spec_presented()@ == old(source).authority@ && old(source).mint@ == old(dest).mint@
            && old(source).balance < amount ==> r == Err::<(), VaultError>(
            VaultError::InsufficientBalance,
        ),
{
    if !address_eq(auth.presented(), &source.authority) {
        return Err(VaultError::Unauthorized);
    }
    if !address_eq(&source.mint, &dest.mint) {
        return Err(VaultError::MintMismatch);
    }
    if source.balance < amount {
        return Err(VaultError::InsufficientBalance);
    }
    source.balance = source.balance - amount;
    dest.balance = dest.balance + amount;
    Ok(())
}

/// Burns `amount` of `mint` out of `source`, authorized by `source`'s own
/// authority — only the holder may burn, no program authority is involved.
///
/// Mirrors the ledger's `burn`: fails `Unauthorized` when the presented
/// authority does not control `source`, `MintMismatch` when `source` is bound
/// to another asset, `InsufficientBalance` when `source` does not hold
/// `amount`; on failure `source` is untouched.
pub fn burn(
    mint: &Address,
    source: &mut TokenAccount,
    amount: u64,
    auth: &LedgerAuthority,
) -> (r: Result<(), VaultError>)
    requires
        auth.wf(),
    ensures
        r is Ok <==> auth.spec_presented()@ == old(source).authority@ && old(source).mint@ == mint@
            && old(source).balance >= amount,
        r is Ok ==> final(source).balance == old(source).balance - amount,
        r is Err ==> *final(source) == *old(source),
        same_identity(*final(source), *old(source)),
        auth.spec_presented()@ != old(source).authority@ ==> r == Err::<(), VaultError>(
            VaultError::Unauthorized,
        ),
        auth.spec_presented()@ == old(source).authority@ && old(source).mint@ != mint@ ==> r
            == Err::<(), VaultError>(VaultError::MintMismatch),
        auth.spec_presented()@ == old(source).authority@ && old(source).mint@ == mint@ && old(
            source,
        ).balance < amount ==> r == Err::<(), VaultError>(VaultError::InsufficientBalance),
{
    if !address_eq(auth.presented(), &source.authority) {
        return Err(VaultError::Unauthorized);
    }
    if !address_eq(&source.mint, mint) {
        return Err(VaultError::MintMismatch);
    }
    if source.balance < amount {
        return Err(VaultError::InsufficientBalance);
    }
    source.balance = source.balance - amount;
    Ok(())
}

} // verus!
