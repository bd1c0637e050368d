use staker::authority::find_authority;
use staker::error::VaultError;
use staker::ledger::TokenAccount;
use staker::vault::{create_vault, stake, unstake, VaultConfig};
use staker::Address;

struct Setup {
    cfg: VaultConfig,
    vault: TokenAccount,
    vault_nonce: u8,
    mint_authority: Address,
    authority_nonce: u8,
    user: Address,
    user_collateral: TokenAccount,
    user_receipt: TokenAccount,
}

fn setup(collateral_balance: u64) -> Setup {
    let cfg = VaultConfig {
        program_id: [1u8; 32],
        collateral_mint: [2u8; 32],
        receipt_mint: [3u8; 32],
    };
    let payer: Address = [4u8; 32];
    let handle = create_vault(&cfg, &payer, false).unwrap();
    let (mint_authority, authority_nonce) =
        find_authority(&cfg.program_id, &cfg.receipt_mint).unwrap();
    let user: Address = [9u8; 32];
    let user_collateral = TokenAccount {
        address: [10u8; 32],
        mint: cfg.collateral_mint,
        authority: user,
        balance: collateral_balance,
    };
    let user_receipt = TokenAccount {
        address: [11u8; 32],
        mint: cfg.receipt_mint,
        authority: user,
        balance: 0,
    };
    Setup {
        cfg,
        vault: handle.account,
        vault_nonce: handle.authority_nonce,
        mint_authority,
        authority_nonce,
        user,
        user_collateral,
        user_receipt,
    }
}

fn do_stake(s: &mut Setup, amount: u64) -> Result<staker::vault::OperationReceipt, VaultError> {
    stake(
        &s.cfg,
        &mut s.user_collateral,
        &mut s.user_receipt,
        &mut s.vault,
        &s.user,
        &s.mint_authority,
        &s.mint_authority,
        amount,
        s.authority_nonce,
        s.vault_nonce,
    )
}

fn do_unstake(s: &mut Setup, amount: u64) -> Result<staker::vault::OperationReceipt, VaultError> {
    unstake(
        &s.cfg,
        &mut s.user_receipt,
        &mut s.user_collateral,
        &mut s.vault,
        &s.user,
        amount,
        s.vault_nonce,
    )
}

#[test]
fn create_vault_binds_the_collateral_asset() {
    let s = setup(0);
    assert_eq!(s.vault.mint, s.cfg.collateral_mint);
    assert_eq!(s.vault.authority, s.vault.address);
    assert_eq!(s.vault.balance, 0);
}

#[test]
fn create_vault_twice_fails_already_exists() {
    let cfg = VaultConfig {
        program_id: [1u8; 32],
        collateral_mint: [2u8; 32],
        receipt_mint: [3u8; 32],
    };
    let payer: Address = [4u8; 32];
    let first = create_vault(&cfg, &payer, false).unwrap();
    let vault_before = (first.account.address, first.account.balance);
    let second = create_vault(&cfg, &payer, true);
    assert_eq!(second.err(), Some(VaultError::AlreadyExists));
    // The vault from the first call is untouched.
    assert_eq!(first.account.address, vault_before.0);
    assert_eq!(first.account.balance, vault_before.1);
    assert_eq!(first.account.mint, cfg.collateral_mint);
}

#[test]
fn stake_and_unstake_walkthrough() {
    // Collateral asset C, receipt asset R, user holds 100 C.
    let mut s = setup(100);
    // stake(50): user 50 C and 50 R, vault 50 C.
    let receipt = do_stake(&mut s, 50).unwrap();
    assert_eq!(receipt.collateral_amount, 50);
    assert_eq!(receipt.receipt_amount, 50);
    assert_eq!(s.user_collateral.balance, 50);
    assert_eq!(s.user_receipt.balance, 50);
    assert_eq!(s.vault.balance, 50);
    // unstake(20): user 70 C and 30 R, vault 30 C.
    let receipt = do_unstake(&mut s, 20).unwrap();
    assert_eq!(receipt.collateral_amount, 20);
    assert_eq!(receipt.receipt_amount, 20);
    assert_eq!(s.user_collateral.balance, 70);
    assert_eq!(s.user_receipt.balance, 30);
    assert_eq!(s.vault.balance, 30);
}

#[test]
fn stake_then_unstake_restores_balances() {
    let mut s = setup(100);
    do_stake(&mut s, 37).unwrap();
    do_unstake(&mut s, 37).unwrap();
    assert_eq!(s.user_collateral.balance, 100);
    assert_eq!(s.user_receipt.balance, 0);
    assert_eq!(s.vault.balance, 0);
}

#[test]
fn stake_zero_fails_invalid_amount() {
    let mut s = setup(100);
    let r = do_stake(&mut s, 0);
    assert_eq!(r, Err(VaultError::InvalidAmount));
    assert_eq!(s.user_collateral.balance, 100);
    assert_eq!(s.user_receipt.balance, 0);
    assert_eq!(s.vault.balance, 0);
}

#[test]
fn unstake_zero_fails_invalid_amount() {
    let mut s = setup(100);
    do_stake(&mut s, 40).unwrap();
    let r = do_unstake(&mut s, 0);
    assert_eq!(r, Err(VaultError::InvalidAmount));
    assert_eq!(s.user_collateral.balance, 60);
    assert_eq!(s.user_receipt.balance, 40);
    assert_eq!(s.vault.balance, 40);
}

#[test]
fn two_stakes_equal_one_combined_stake() {
    let mut split = setup(100);
    do_stake(&mut split, 30).unwrap();
    do_stake(&mut split, 45).unwrap();
    let mut combined = setup(100);
    do_stake(&mut combined, 75).unwrap();
    assert_eq!(split.user_collateral.balance, combined.user_collateral.balance);
    assert_eq!(split.user_receipt.balance, combined.user_receipt.balance);
    assert_eq!(split.vault.balance, combined.vault.balance);
}

#[test]
fn overdrawn_unstake_fails_insufficient_balance() {
    let mut s = setup(100);
    do_stake(&mut s, 30).unwrap();
    let r = do_unstake(&mut s, 31);
    assert_eq!(r, Err(VaultError::InsufficientBalance));
    assert_eq!(s.user_collateral.balance, 70);
    assert_eq!(s.user_receipt.balance, 30);
    assert_eq!(s.vault.balance, 30);
}

#[test]
fn overdrawn_stake_fails_insufficient_balance() {
    let mut s = setup(10);
    let r = do_stake(&mut s, 11);
    assert_eq!(r, Err(VaultError::InsufficientBalance));
    assert_eq!(s.user_collateral.balance, 10);
    assert_eq!(s.user_receipt.balance, 0);
    assert_eq!(s.vault.balance, 0);
}

#[test]
fn stale_nonce_fails_authority_mismatch() {
    let mut s = setup(100);
    s.authority_nonce = s.authority_nonce.wrapping_add(1);
    let r = do_stake(&mut s, 10);
    assert_eq!(r, Err(VaultError::AuthorityMismatch));
    assert_eq!(s.user_collateral.balance, 100);
    assert_eq!(s.user_receipt.balance, 0);
    assert_eq!(s.vault.balance, 0);
}

#[test]
fn stale_vault_nonce_fails_authority_mismatch() {
    let mut s = setup(100);
    do_stake(&mut s, 10).unwrap();
    s.vault_nonce = s.vault_nonce.wrapping_add(1);
    let r = do_unstake(&mut s, 5);
    assert_eq!(r, Err(VaultError::AuthorityMismatch));
    assert_eq!(s.user_collateral.balance, 90);
    assert_eq!(s.user_receipt.balance, 10);
    assert_eq!(s.vault.balance, 10);
}

#[test]
fn wrong_collateral_asset_fails_mint_mismatch() {
    let mut s = setup(100);
    s.user_collateral.mint = [77u8; 32];
    let r = do_stake(&mut s, 10);
    assert_eq!(r, Err(VaultError::MintMismatch));
    assert_eq!(s.user_collateral.balance, 100);
}

#[test]
fn wrong_receipt_asset_fails_mint_mismatch() {
    let mut s = setup(100);
    s.user_receipt.mint = [77u8; 32];
    let r = do_stake(&mut s, 10);
    assert_eq!(r, Err(VaultError::MintMismatch));
    assert_eq!(s.user_receipt.balance, 0);
}

#[test]
fn foreign_signer_fails_unauthorized() {
    let mut s = setup(100);
    s.user = [66u8; 32];
    let r = do_stake(&mut s, 10);
    assert_eq!(r, Err(VaultError::Unauthorized));
    assert_eq!(s.user_collateral.balance, 100);
    let r = do_unstake(&mut s, 1);
    assert_eq!(r, Err(VaultError::Unauthorized));
}

#[test]
fn wrong_registered_mint_authority_fails_unauthorized() {
    let mut s = setup(100);
    // The presented authority re-derives, but it is not the authority the
    // ledger registered for the receipt asset.
    let registered: Address = [55u8; 32];
    let r = stake(
        &s.cfg,
        &mut s.user_collateral,
        &mut s.user_receipt,
        &mut s.vault,
        &s.user,
        &s.mint_authority,
        &registered,
        10,
        s.authority_nonce,
        s.vault_nonce,
    );
    assert_eq!(r, Err(VaultError::Unauthorized));
    assert_eq!(s.user_receipt.balance, 0);
}

#[test]
fn drained_vault_fails_insufficient_vault_balance() {
    let mut s = setup(100);
    do_stake(&mut s, 30).unwrap();
    // Something outside the stake/unstake pair drained the vault: the
    // systemic invariant is violated and must be surfaced.
    s.vault.balance = 5;
    let r = do_unstake(&mut s, 30);
    assert_eq!(r, Err(VaultError::InsufficientVaultBalance));
    assert_eq!(s.user_collateral.balance, 70);
    assert_eq!(s.user_receipt.balance, 30);
    assert_eq!(s.vault.balance, 5);
}

#[test]
fn error_names_are_stable() {
    assert_eq!(VaultError::AuthorityMismatch.name(), "AuthorityMismatch");
    assert_eq!(VaultError::AlreadyExists.name(), "AlreadyExists");
    assert_eq!(VaultError::InsufficientBalance.name(), "InsufficientBalance");
    assert_eq!(
        VaultError::InsufficientVaultBalance.name(),
        "InsufficientVaultBalance"
    );
    assert_eq!(VaultError::InvalidAmount.name(), "InvalidAmount");
    assert_eq!(VaultError::Unauthorized.name(), "Unauthorized");
    assert_eq!(VaultError::MintMismatch.name(), "MintMismatch");
}
