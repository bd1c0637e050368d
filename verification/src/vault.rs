//! The vault: bootstrap, stake and unstake.
//!
//! Each operation runs as a single, non-reentrant unit of work: every
//! precondition (including re-derivation of every derived authority it needs)
//! is re-checked per call before any balance moves, so a call either applies
//! all of its balance mutations or none of them. Nothing is cached between
//! calls beyond what the external ledger persists.

use vstd::prelude::*;

use crate::address_eq;
use crate::authority::authority_resolves;
use crate::authority::derived_address_some;
use crate::authority::prove_authority;
use crate::error::VaultError;
use crate::ledger::burn;
use crate::ledger::create_account;
use crate::ledger::mint_to;
use crate::ledger::same_identity;
use crate::ledger::transfer;
use crate::ledger::LedgerAuthority;
use crate::ledger::TokenAccount;
use crate::Address;

verus! {

/// The explicit configuration of one vault: the program identity and the two
/// asset identities it serves. Passed in at construction time rather than
/// compiled in.
#[derive(Clone, Copy)]
pub struct VaultConfig {
    /// The identity of the program that controls the derived authorities.
    pub program_id: Address,
    /// The collateral asset users lock into the vault.
    pub collateral_mint: Address,
    /// The receipt asset minted in exchange.
    pub receipt_mint: Address,
}

/// What the bootstrap hands back: the vault's freshly created token account
/// and the canonical nonce of its derived authority.
pub struct VaultHandle {
    /// The program-owned collateral account, self-owned by its own derived
    /// address.
    pub account: TokenAccount,
    /// The canonical nonce that re-derives the vault's address.
    pub authority_nonce: u8,
}

/// What a completed stake or unstake reports back: how much collateral moved
/// and how much receipt token was minted or burned.
#[derive(Clone, Copy, Debug, PartialEq, Eq, Structural)]
pub struct OperationReceipt {
    /// The collateral amount pulled into or released from the vault.
    pub collateral_amount: u64,
    /// The receipt-token amount minted or burned.
    pub receipt_amount: u64,
}

/// The exchange-rate policy: the receipt amount minted for a collateral
/// amount. The baseline is the identity function, an explicit placeholder; a
/// replacement must keep `policy_spec(0) == 0` and monotonicity (see the
/// policy laws).
pub open spec fn policy_spec(collateral_amount: u64) -> u64 {
    collateral_amount
}

/// Executable form of [`policy_spec`].
pub fn policy(collateral_amount: u64) -> (r: u64)
    ensures
        r == policy_spec(collateral_amount),
{
    collateral_amount
}

/// The inverse exchange-rate policy: the collateral amount released for a
/// receipt amount. Baseline identity, matching [`policy_spec`].
pub open spec fn inverse_policy_spec(receipt_amount: u64) -> u64 {
    receipt_amount
}

/// Executable form of [`inverse_policy_spec`].
pub fn inverse_policy(receipt_amount: u64) -> (r: u64)
    ensures
        r == inverse_policy_spec(receipt_amount),
{
    receipt_amount
}

/// The three balances a stake touches, after staking `amount`: the user's
/// collateral falls by `amount`, the user's receipt balance rises by the
/// policy's receipt amount, and the vault's collateral rises by `amount`.
pub open spec fn stake_post(user_collateral: int, user_receipt: int, vault: int, amount: u64) -> (
    int,
    int,
    int,
) {
    (user_collateral - amount, user_receipt + policy_spec(amount), vault + amount)
}

/// The stake transition stays within machine balances: the amount is positive
/// and covered, and neither credited account overflows.
pub open spec fn stake_fits(user_collateral: int, user_receipt: int, vault: int, amount: u64) -> bool {
    0 < amount <= user_collateral && user_receipt + policy_spec(amount) <= u64::MAX && vault
        + amount <= u64::MAX
}

/// The three balances an unstake touches, after redeeming `amount` of receipt
/// token: the user's collateral rises by the inverse policy's collateral
/// amount, the user's receipt balance falls by `amount`, and the vault's
/// collateral falls by the same collateral amount.
pub open spec fn unstake_post(user_collateral: int, user_receipt: int, vault: int, amount: u64) -> (
    int,
    int,
    int,
) {
    (
        user_collateral + inverse_policy_spec(amount),
        user_receipt - amount,
        vault - inverse_policy_spec(amount),
    )
}

/// The unstake transition stays within machine balances: the amount is
/// positive and covered by the user's receipt balance, the vault covers the
/// released collateral, and the credited account does not overflow.
pub open spec fn unstake_fits(
    user_collateral: int,
    user_receipt: int,
    vault: int,
    amount: u64,
) -> bool {
    0 < amount <= user_receipt && inverse_policy_spec(amount) <= vault && user_collateral
        + inverse_policy_spec(amount) <= u64::MAX
}

/// Both derived authorities a stake depends on re-derive from their
/// caller-asserted nonces: the receipt asset's mint authority (seeded by the
/// receipt asset) reproduces the presented address, and the vault's own
/// address (seeded by the collateral asset) reproduces itself.
pub open spec fn stake_authorities_resolve(
    cfg: VaultConfig,
    vault: TokenAccount,
    claimed_mint_authority: Address,
    authority_nonce: u8,
    vault_nonce: u8,
) -> bool {
    authority_resolves(cfg.program_id@, cfg.receipt_mint@, authority_nonce, claimed_mint_authority@)
        && authority_resolves(cfg.program_id@, cfg.collateral_mint@, vault_nonce, vault.address@)
}

/// Every account a stake touches is bound to the asset the operation expects.
pub open spec fn stake_accounts_bound(
    cfg: VaultConfig,
    user_collateral: TokenAccount,
    user_receipt: TokenAccount,
    vault: TokenAccount,
) -> bool {
    user_collateral.mint@ == cfg.collateral_mint@ && user_receipt.mint@ == cfg.receipt_mint@
        && vault.mint@ == cfg.collateral_mint@
}

/// The presented mint authority is the one the ledger registered for the
/// receipt asset, and the signing user controls the collateral account.
pub open spec fn stake_signers_match(
    user_collateral: TokenAccount,
    user_authority: Address,
    claimed_mint_authority: Address,
    registered_mint_authority: Address,
) -> bool {
    claimed_mint_authority@ == registered_mint_authority@ && user_collateral.authority@
        == user_authority@
}

/// Exactly when a stake call succeeds.
pub open spec fn stake_allowed(
    cfg: VaultConfig,
    user_collateral: TokenAccount,
    user_receipt: TokenAccount,
    vault: TokenAccount,
    user_authority: Address,
    claimed_mint_authority: Address,
    registered_mint_authority: Address,
    collateral_amount: u64,
    authority_nonce: u8,
    vault_nonce: u8,
) -> bool {
    0 < collateral_amount && stake_authorities_resolve(
        cfg,
        vault,
        claimed_mint_authority,
        authority_nonce,
        vault_nonce,
    ) && stake_accounts_bound(cfg, user_collateral, user_receipt, vault) && stake_signers_match(
        user_collateral,
        user_authority,
        claimed_mint_authority,
        registered_mint_authority,
    ) && user_collateral.balance >= collateral_amount
}

/// The vault's derived authority re-derives from the caller-asserted nonce to
/// the vault account's own address.
pub open spec fn unstake_authority_resolves(
    cfg: VaultConfig,
    vault: TokenAccount,
    vault_nonce: u8,
) -> bool {
    authority_resolves(cfg.program_id@, cfg.collateral_mint@, vault_nonce, vault.address@)
}

/// Every account an unstake touches is bound to the asset the operation
/// expects.
pub open spec fn unstake_accounts_bound(
    cfg: VaultConfig,
    user_stake: TokenAccount,
    user_collateral: TokenAccount,
    vault: TokenAccount,
) -> bool {
    user_stake.mint@ == cfg.receipt_mint@ && user_collateral.mint@ == cfg.collateral_mint@
        && vault.mint@ == cfg.collateral_mint@
}

/// The vault is self-owned (its authority is its own derived address), and
/// the signing user controls the receipt account being burned from.
pub open spec fn unstake_signers_match(
    user_stake: TokenAccount,
    vault: TokenAccount,
    user_authority: Address,
) -> bool {
    vault.authority@ == vault.address@ && user_stake.authority@ == user_authority@
}

/// Exactly when an unstake call succeeds.
pub open spec fn unstake_allowed(
    cfg: VaultConfig,
    user_stake: TokenAccount,
    user_collateral: TokenAccount,
    vault: TokenAccount,
    user_authority: Address,
    receipt_amount: u64,
    vault_nonce: u8,
) -> bool {
    0 < receipt_amount && unstake_authority_resolves(cfg, vault, vault_nonce)
        && unstake_accounts_bound(cfg, user_stake, user_collateral, vault) && unstake_signers_match(
        user_stake,
        vault,
        user_authority,
    ) && user_stake.balance >= receipt_amount && vault.balance >= inverse_policy_spec(
        receipt_amount,
    )
}

/// First-use creation of the program-owned collateral account, bound
/// permanently to the configured collateral asset and owned by its own
/// derived address.
///
/// The caller reports whether a vault for this collateral asset already
/// exists; the second creation fails `AlreadyExists` and touches nothing. No
/// balance is minted or moved. The `_payer` funds account creation in the
/// external ledger; rent mechanics are out of scope, so it is a
/// capability-only identity here.
pub fn create_vault(cfg: &VaultConfig, _payer: &Address, already_exists: bool) -> (r: Result<
    VaultHandle,
    VaultError,
>)
    ensures
        already_exists ==> r == Err::<VaultHandle, VaultError>(VaultError::AlreadyExists),
        r is Ok <==> !already_exists && (exists|n: u8|
            derived_address_some(cfg.program_id@, cfg.collateral_mint@, n)),
        r matches Ok(h) ==> authority_resolves(
            cfg.program_id@,
            cfg.collateral_mint@,
            h.authority_nonce,
            h.account.address@,
        ) && (forall|m: u8|
            h.authority_nonce < m ==> !derived_address_some(cfg.program_id@, cfg.collateral_mint@, m))
            && h.account.mint@ == cfg.collateral_mint@ && h.account.authority@
            == h.account.address@ && h.account.balance == 0,
        !already_exists && !(exists|n: u8|
            derived_address_some(cfg.program_id@, cfg.collateral_mint@, n)) ==> r == Err::<
            VaultHandle,
            VaultError,
        >(VaultError::AuthorityMismatch),
{
    if already_exists {
        return Err(VaultError::AlreadyExists);
    }
    match crate::authority::find_authority(&cfg.program_id, &cfg.collateral_mint) {
        Some((vault_address, nonce)) => {
            proof {
                assert(derived_address_some(cfg.program_id@, cfg.collateral_mint@, nonce));
            }
            match create_account(&vault_address, &cfg.collateral_mint, &vault_address, false) {
                Ok(account) => Ok(VaultHandle { account, authority_nonce: nonce }),
                Err(e) => Err(e),
            }
        },
        None => Err(VaultError::AuthorityMismatch),
    }
}

/// Stakes `collateral_amount`: mints the policy's receipt amount into the
/// user's receipt account under the receipt asset's derived mint authority,
/// then pulls the collateral from the user's account into the vault under the
/// user's own signature — all of it or none of it.
///
/// Both derived authorities are re-derived from the caller-asserted nonces
/// and compared byte for byte before any balance moves; a stale nonce or a
/// forged address fails `AuthorityMismatch`. A zero amount fails
/// `InvalidAmount` before any ledger operation.
pub fn stake(
    cfg: &VaultConfig,
    user_collateral: &mut TokenAccount,
    user_receipt: &mut TokenAccount,
    vault: &mut TokenAccount,
    user_authority: &Address,
    receipt_mint_authority: &Address,
    registered_mint_authority: &Address,
    collateral_amount: u64,
    authority_nonce: u8,
    vault_nonce: u8,
) -> (r: Result<OperationReceipt, VaultError>)
    requires
        old(user_receipt).balance + policy_spec(collateral_amount) <= u64::MAX,
        old(vault).balance + collateral_amount <= u64::MAX,
    ensures
        r is Ok <==> stake_allowed(
            *cfg,
            *old(user_collateral),
            *old(user_receipt),
            *old(vault),
            *user_authority,
            *receipt_mint_authority,
            *registered_mint_authority,
            collateral_amount,
            authority_nonce,
            vault_nonce,
        ),
        r matches Ok(rc) ==> rc.collateral_amount == collateral_amount && rc.receipt_amount
            == policy_spec(collateral_amount),
        r is Ok ==> (
            final(user_collateral).balance as int,
            final(user_receipt).balance as int,
            final(vault).balance as int,
        ) == stake_post(
            old(user_collateral).balance as int,
            old(user_receipt).balance as int,
            old(vault).balance as int,
            collateral_amount,
        ),
        same_identity(*final(user_collateral), *old(user_collateral)),
        same_identity(*final(user_receipt), *old(user_receipt)),
        same_identity(*final(vault), *old(vault)),
        r is Err ==> *final(user_collateral) == *old(user_collateral) && *final(user_receipt)
            == *old(user_receipt) && *final(vault) == *old(vault),
        collateral_amount == 0 ==> r == Err::<OperationReceipt, VaultError>(
            VaultError::InvalidAmount,
        ),
        collateral_amount > 0 && !stake_authorities_resolve(
            *cfg,
            *old(vault),
            *receipt_mint_authority,
            authority_nonce,
            vault_nonce,
        ) ==> r == Err::<OperationReceipt, VaultError>(VaultError::AuthorityMismatch),
        collateral_amount > 0 && stake_authorities_resolve(
            *cfg,
            *old(vault),
            *receipt_mint_authority,
            authority_nonce,
            vault_nonce,
        ) && !stake_accounts_bound(*cfg, *old(user_collateral), *old(user_receipt), *old(vault))
            ==> r == Err::<OperationReceipt, VaultError>(VaultError::MintMismatch),
        collateral_amount > 0 && stake_authorities_resolve(
            *cfg,
            *old(vault),
            *receipt_mint_authority,
            authority_nonce,
            vault_nonce,
        ) && stake_accounts_bound(*cfg, *old(user_collateral), *old(user_receipt), *old(vault))
            && !stake_signers_match(
            *old(user_collateral),
            *user_authority,
            *receipt_mint_authority,
            *registered_mint_authority,
        ) ==> r == Err::<OperationReceipt, VaultError>(VaultError::Unauthorized),
        collateral_amount > 0 && stake_authorities_resolve(
            *cfg,
            *old(vault),
            *receipt_mint_authority,
            authority_nonce,
            vault_nonce,
        ) && stake_accounts_bound(*cfg, *old(user_collateral), *old(user_receipt), *old(vault))
            && stake_signers_match(
            *old(user_collateral),
            *user_authority,
            *receipt_mint_authority,
            *registered_mint_authority,
        ) && old(user_collateral).balance < collateral_amount ==> r == Err::<
            OperationReceipt,
            VaultError,
        >(VaultError::InsufficientBalance),
{
    if collateral_amount == 0 {
        return Err(VaultError::InvalidAmount);
    }
    let mint_proof = match prove_authority(
        &cfg.program_id,
        &cfg.receipt_mint,
        authority_nonce,
        receipt_mint_authority,
    ) {
        Ok(p) => p,
        Err(_) => {
            return Err(VaultError::AuthorityMismatch);
        },
    };
    match crate::authority::resolve(
        &cfg.program_id,
        &cfg.collateral_mint,
        vault_nonce,
        &vault.address,
    ) {
        Ok(_) => (),
        Err(_) => {
            return Err(VaultError::AuthorityMismatch);
        },
    }
    if !address_eq(&user_collateral.mint, &cfg.collateral_mint) {
        return Err(VaultError::MintMismatch);
    }
    if !address_eq(&user_receipt.mint, &cfg.receipt_mint) {
        return Err(VaultError::MintMismatch);
    }
    if !address_eq(&vault.mint, &cfg.collateral_mint) {
        return Err(VaultError::MintMismatch);
    }
    if !address_eq(receipt_mint_authority, registered_mint_authority) {
        return Err(VaultError::Unauthorized);
    }
    if !address_eq(&user_collateral.authority, user_authority) {
        return Err(VaultError::Unauthorized);
    }
    if user_collateral.balance < collateral_amount {
        return Err(VaultError::InsufficientBalance);
    }
    let receipt_amount = policy(collateral_amount);
    let mint_auth = LedgerAuthority::Derived(mint_proof);
    match mint_to(
        &cfg.receipt_mint,
        registered_mint_authority,
        user_receipt,
        receipt_amount,
        &mint_auth,
    ) {
        Ok(_) => (),
        Err(e) => {
            return Err(e);
        },
    }
    let user_auth = LedgerAuthority::Signature(*user_authority);
    match transfer(user_collateral, vault, collateral_amount, &user_auth) {
        Ok(_) => (),
        Err(e) => {
            return Err(e);
        },
    }
    Ok(OperationReceipt { collateral_amount, receipt_amount })
}

/// Unstakes `receipt_amount`: burns it from the user's receipt account under
/// the user's own signature, then releases the inverse policy's collateral
/// amount from the vault to the user under the vault's own derived
/// authority — all of it or none of it.
///
/// The vault's authority is re-derived from the caller-asserted nonce and
/// compared byte for byte before any balance moves. A vault too poor to
/// cover the release is a systemic invariant violation and is surfaced as
/// `InsufficientVaultBalance`, never clamped.
pub fn unstake(
    cfg: &VaultConfig,
    user_stake: &mut TokenAccount,
    user_collateral: &mut TokenAccount,
    vault: &mut TokenAccount,
    user_authority: &Address,
    receipt_amount: u64,
    vault_nonce: u8,
) -> (r: Result<OperationReceipt, VaultError>)
    requires
        old(user_collateral).balance + inverse_policy_spec(receipt_amount) <= u64::MAX,
    ensures
        r is Ok <==> unstake_allowed(
            *cfg,
            *old(user_stake),
            *old(user_collateral),
            *old(vault),
            *user_authority,
            receipt_amount,
            vault_nonce,
        ),
        r matches Ok(rc) ==> rc.receipt_amount == receipt_amount && rc.collateral_amount
            == inverse_policy_spec(receipt_amount),
        r is Ok ==> (
            final(user_collateral).balance as int,
            final(user_stake).balance as int,
            final(vault).balance as int,
        ) == unstake_post(
            old(user_collateral).balance as int,
            old(user_stake).balance as int,
            old(vault).balance as int,
            receipt_amount,
        ),
        same_identity(*final(user_stake), *old(user_stake)),
        same_identity(*final(user_collateral), *old(user_collateral)),
        same_identity(*final(vault), *old(vault)),
        r is Err ==> *final(user_stake) == *old(user_stake) && *final(user_collateral) == *old(
            user_collateral,
        ) && *final(vault) == *old(vault),
        receipt_amount == 0 ==> r == Err::<OperationReceipt, VaultError>(VaultError::InvalidAmount),
        receipt_amount > 0 && !unstake_authority_resolves(*cfg, *old(vault), vault_nonce) ==> r
            == Err::<OperationReceipt, VaultError>(VaultError::AuthorityMismatch),
        receipt_amount > 0 && unstake_authority_resolves(*cfg, *old(vault), vault_nonce)
            && !unstake_accounts_bound(*cfg, *old(user_stake), *old(user_collateral), *old(vault))
            ==> r == Err::<OperationReceipt, VaultError>(VaultError::MintMismatch),
        receipt_amount > 0 && unstake_authority_resolves(*cfg, *old(vault), vault_nonce)
            && unstake_accounts_bound(*cfg, *old(user_stake), *old(user_collateral), *old(vault))
            && !unstake_signers_match(*old(user_stake), *old(vault), *user_authority) ==> r
            == Err::<OperationReceipt, VaultError>(VaultError::Unauthorized),
        receipt_amount > 0 && unstake_authority_resolves(*cfg, *old(vault), vault_nonce)
            && unstake_accounts_bound(*cfg, *old(user_stake), *old(user_collateral), *old(vault))
            && unstake_signers_match(*old(user_stake), *old(vault), *user_authority) && old(
            user_stake,
        ).balance < receipt_amount ==> r == Err::<OperationReceipt, VaultError>(
            VaultError::InsufficientBalance,
        ),
        receipt_amount > 0 && unstake_authority_resolves(*cfg, *old(vault), vault_nonce)
            && unstake_accounts_bound(*cfg, *old(user_stake), *old(user_collateral), *old(vault))
            && unstake_signers_match(*old(user_stake), *old(vault), *user_authority) && old(
            user_stake,
        ).balance >= receipt_amount && old(vault).balance < inverse_policy_spec(receipt_amount)
            ==> r == Err::<OperationReceipt, VaultError>(VaultError::InsufficientVaultBalance),
{
    if receipt_amount == 0 {
        return Err(VaultError::InvalidAmount);
    }
    let vault_proof = match prove_authority(
        &cfg.program_id,
        &cfg.collateral_mint,
        vault_nonce,
        &vault.address,
    ) {
        Ok(p) => p,
        Err(_) => {
            return Err(VaultError::AuthorityMismatch);
        },
    };
    if !address_eq(&user_stake.mint, &cfg.receipt_mint) {
        return Err(VaultError::MintMismatch);
    }
    if !address_eq(&user_collateral.mint, &cfg.collateral_mint) {
        return Err(VaultError::MintMismatch);
    }
    if !address_eq(&vault.mint, &cfg.collateral_mint) {
        return Err(VaultError::MintMismatch);
    }
    if !address_eq(&vault.authority, &vault.address) {
        return Err(VaultError::Unauthorized);
    }
    if !address_eq(&user_stake.authority, user_authority) {
        return Err(VaultError::Unauthorized);
    }
    if user_stake.balance < receipt_amount {
        return Err(VaultError::InsufficientBalance);
    }
    let collateral_amount = inverse_policy(receipt_amount);
    if vault.balance < collateral_amount {
        return Err(VaultError::InsufficientVaultBalance);
    }
    let user_auth = LedgerAuthority::Signature(*user_authority);
    match burn(&cfg.receipt_mint, user_stake, receipt_amount, &user_auth) {
        Ok(_) => (),
        Err(e) => {
            return Err(e);
        },
    }
    let vault_auth = LedgerAuthority::Derived(vault_proof);
    match transfer(vault, user_collateral, collateral_amount, &vault_auth) {
        Ok(_) => (),
        Err(e) => {
            return Err(e);
        },
    }
    Ok(OperationReceipt { collateral_amount, receipt_amount })
}

} // verus!
