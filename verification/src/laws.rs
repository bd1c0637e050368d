//! The laws the vault core obeys, stated and proved over the same spec
//! functions the operations' contracts use.

use vstd::prelude::*;

use crate::authority::authority_resolves;
use crate::authority::derived_address;
use crate::vault::inverse_policy_spec;
use crate::vault::policy_spec;
use crate::vault::stake_fits;
use crate::vault::stake_post;
use crate::vault::unstake_fits;
use crate::vault::unstake_post;

verus! {

/// Determinism of derivation: one `(program, seed, nonce)` triple resolves to
/// at most one address, so re-deriving with the same inputs always yields the
/// identical address and every call site agrees on the canonical pair.
pub proof fn lemma_resolution_deterministic(
    program: Seq<u8>,
    seed: Seq<u8>,
    nonce: u8,
    addr1: Seq<u8>,
    addr2: Seq<u8>,
)
    requires
        authority_resolves(program, seed, nonce, addr1),
        authority_resolves(program, seed, nonce, addr2),
    ensures
        addr1 == addr2,
{
}

/// Forgery resistance at the re-check: a nonce whose derivation differs from
/// the canonical one is never accepted for the canonical address. (That two
/// distinct nonces in fact derive distinct addresses is a probabilistic
/// property of the hash and is exercised by tests, not proved.)
pub proof fn lemma_forged_nonce_rejected(
    program: Seq<u8>,
    seed: Seq<u8>,
    nonce: u8,
    forged_nonce: u8,
    addr: Seq<u8>,
)
    requires
        authority_resolves(program, seed, nonce, addr),
        derived_address(program, seed, forged_nonce) != derived_address(program, seed, nonce),
    ensures
        !authority_resolves(program, seed, forged_nonce, addr),
{
}

/// The baseline policy maps zero to zero, as any replacement must.
pub proof fn lemma_policy_zero()
    ensures
        policy_spec(0) == 0,
        inverse_policy_spec(0) == 0,
{
}

/// The baseline policy is monotone, as any replacement must be.
pub proof fn lemma_policy_monotone(amount1: u64, amount2: u64)
    requires
        amount1 < amount2,
    ensures
        policy_spec(amount1) <= policy_spec(amount2),
{
}

/// The baseline inverse policy really inverts the baseline policy; this is
/// what makes staking reversible amount for amount.
pub proof fn lemma_policy_inverse(amount: u64)
    ensures
        inverse_policy_spec(policy_spec(amount)) == amount,
{
}

/// Round trip: under the baseline identity policy, a stake of `amount`
/// followed by an unstake of the same amount is always allowed and restores
/// the user's collateral balance, the user's receipt balance and the vault's
/// balance to their original values.
pub proof fn lemma_stake_unstake_round_trip(
    user_collateral: int,
    user_receipt: int,
    vault: int,
    amount: u64,
)
    requires
        0 <= user_collateral <= u64::MAX,
        0 <= user_receipt <= u64::MAX,
        0 <= vault <= u64::MAX,
        stake_fits(user_collateral, user_receipt, vault, amount),
    ensures
        ({
            let (staked_collateral, staked_receipt, staked_vault) = stake_post(
                user_collateral,
                user_receipt,
                vault,
                amount,
            );
            unstake_fits(staked_collateral, staked_receipt, staked_vault, amount)
                && unstake_post(staked_collateral, staked_receipt, staked_vault, amount) == (
            user_collateral,
            user_receipt,
            vault,
            )
        }),
{
}

/// Additivity: under the baseline identity policy, two sequential stakes of
/// positive amounts `amount1` and `amount2` are allowed exactly when one
/// stake of `amount1 + amount2` is, and both produce the same end state.
pub proof fn lemma_stake_additive(
    user_collateral: int,
    user_receipt: int,
    vault: int,
    amount1: u64,
    amount2: u64,
)
    requires
        0 < amount1,
        0 < amount2,
        amount1 + amount2 <= u64::MAX,
        stake_fits(user_collateral, user_receipt, vault, (amount1 + amount2) as u64),
    ensures
        stake_fits(user_collateral, user_receipt, vault, amount1),
        ({
            let (mid_collateral, mid_receipt, mid_vault) = stake_post(
                user_collateral,
                user_receipt,
                vault,
                amount1,
            );
            stake_fits(mid_collateral, mid_receipt, mid_vault, amount2) && stake_post(
                mid_collateral,
                mid_receipt,
                mid_vault,
                amount2,
            ) == stake_post(user_collateral, user_receipt, vault, (amount1 + amount2) as u64)
        }),
{
}

/// Collateral conservation: a stake moves collateral between the user and the
/// vault without creating or destroying any, and (under the baseline policy)
/// mints exactly as much receipt token as the vault gained; an unstake
/// reverses both. This is why a vault too poor to cover a release is a
/// systemic invariant violation when stake and unstake are the only movers.
pub proof fn lemma_collateral_conserved(
    user_collateral: int,
    user_receipt: int,
    vault: int,
    amount: u64,
)
    ensures
        ({
            let (staked_collateral, staked_receipt, staked_vault) = stake_post(
                user_collateral,
                user_receipt,
                vault,
                amount,
            );
            staked_collateral + staked_vault == user_collateral + vault && staked_receipt
                - user_receipt == staked_vault - vault
        }),
        ({
            let (released_collateral, released_receipt, released_vault) = unstake_post(
                user_collateral,
                user_receipt,
                vault,
                amount,
            );
            released_collateral + released_vault == user_collateral + vault && user_receipt
                - released_receipt == vault - released_vault
        }),
{
}

/// The converse direction of additivity: whenever two sequential stakes of
/// positive amounts are allowed, the single combined stake is allowed too.
pub proof fn lemma_stake_additive_converse(
    user_collateral: int,
    user_receipt: int,
    vault: int,
    amount1: u64,
    amount2: u64,
)
    requires
        amount1 + amount2 <= u64::MAX,
        stake_fits(user_collateral, user_receipt, vault, amount1),
        ({
            let (mid_collateral, mid_receipt, mid_vault) = stake_post(
                user_collateral,
                user_receipt,
                vault,
                amount1,
            );
            stake_fits(mid_collateral, mid_receipt, mid_vault, amount2)
        }),
    ensures
        stake_fits(user_collateral, user_receipt, vault, (amount1 + amount2) as u64),
{
}

} // verus!
