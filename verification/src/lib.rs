//! A token-staking vault core.
//!
//! Users lock a fungible asset ("collateral") into a program-controlled
//! account and receive a second fungible asset ("receipt token") minted in
//! exchange; reversing the operation burns the receipt token and returns the
//! collateral.
//!
//! The heart of the library is the authority and account-derivation core: the
//! vault proves exclusive, signature-free control over program-owned token
//! accounts and mint authorities through deterministically derived addresses,
//! and the stake/unstake transitions are sequenced as sub-operations with
//! strict precondition checks. The underlying fungible-token ledger is an
//! external collaborator; [`ledger`] states its interface over plain values.

use vstd::prelude::*;

pub mod authority;
pub mod error;
pub mod laws;
pub mod ledger;
pub mod vault;

verus! {

/// A 32-byte address: the identity of an asset, an account, or an authority.
/// Assets and authorities are compared by identity, byte for byte.
pub type Address = [u8; 32];

/// Returns true exactly when the two addresses agree byte for byte.
pub fn address_eq(a: &Address, b: &Address) -> (r: bool)
    ensures
        r == (a@ == b@),
{
    let mut i: usize = 0;
    while i < 32
        invariant
            i <= 32,
            forall|j: int| 0 <= j < i ==> a@[j] == b@[j],
        decreases 32 - i,
    {
        if a[i] != b[i] {
            return false;
        }
        i = i + 1;
    }
    proof {
        assert(a@ =~= b@);
    }
    true
}

} // verus!
