//! The derived-authority resolver.
//!
//! A derived authority is an address with no associated private key, computed
//! deterministically from a program identity, a 32-byte seed and a small
//! integer nonce. Derivation fails for nonces whose result would be a valid
//! signing key (an on-curve point), which is exactly what guarantees that no
//! external party can ever hold the matching private key.
//!
//! The nonce is supplied per call by an untrusted caller, so every operation
//! re-derives the address and compares it byte for byte against the address
//! the caller presents; there is no trust on first use.

use vstd::prelude::*;

use crate::address_eq;
use crate::error::VaultError;
use crate::Address;

verus! {

/// The address derived from a program identity, a seed and a nonce, or
/// `None` when derivation fails for that nonce (the result would lie on the
/// signing-key curve). The result is a pure function of the three inputs;
/// its value is fixed by the outside derivation routine alone.
pub uninterp spec fn derived_address(program: Seq<u8>, seed: Seq<u8>, nonce: u8) -> Option<Seq<u8>>;

/// Relies on `solana_address::Address::create_program_address` (reached as
/// `anchor_lang::prelude::Pubkey`): it deterministically hashes the seeds and
/// the program identity, returns the hash as the derived address, and fails
/// exactly when that hash is a valid on-curve signing key. With one 32-byte
/// seed and a one-byte nonce the seed-count and seed-length limits (16 seeds
/// of at most 32 bytes) can never be exceeded, so no other failure occurs.
#[verifier::external_body]
fn derive_address(program: &Address, seed: &Address, nonce: u8) -> (r: Option<Address>)
    ensures
        r matches Some(a) ==> derived_address(program@, seed@, nonce) == Some(a@),
        r is None ==> derived_address(program@, seed@, nonce) is None,
{
    let program_id = anchor_lang::prelude::Pubkey::new_from_array(*program);
    let bump = [nonce];
    let seeds: [&[u8]; 2] = [seed.as_ref(), bump.as_ref()];
    match anchor_lang::prelude::Pubkey::create_program_address(&seeds, &program_id) {
        Ok(pk) => Some(pk.to_bytes()),
        Err(_) => None,
    }
}

/// True exactly when the nonce reproduces the claimed address: the canonical
/// acceptance condition that every operation re-checks per call.
pub open spec fn authority_resolves(
    program: Seq<u8>,
    seed: Seq<u8>,
    nonce: u8,
    claimed: Seq<u8>,
) -> bool {
    derived_address(program, seed, nonce) == Some(claimed)
}

/// Derivation succeeds for this nonce: some address exists for it.
pub open spec fn derived_address_some(program: Seq<u8>, seed: Seq<u8>, nonce: u8) -> bool {
    derived_address(program, seed, nonce) is Some
}

/// Re-derives the address for a caller-asserted `nonce` and compares it byte
/// for byte against the address the caller presents as that authority.
///
/// Returns the validated address exactly when the derivation for `nonce`
/// succeeds and reproduces `claimed`; any discrepancy, including a nonce for
/// which no address derives at all, is `AuthorityMismatch`.
pub fn resolve(program: &Address, seed: &Address, nonce: u8, claimed: &Address) -> (r: Result<
    Address,
    VaultError,
>)
    ensures
        r is Ok <==> authority_resolves(program@, seed@, nonce, claimed@),
        r matches Ok(a) ==> a@ == claimed@,
        r matches Err(e) ==> e is AuthorityMismatch,
{
    match derive_address(program, seed, nonce) {
        Some(derived) => {
            if address_eq(&derived, claimed) {
                Ok(*claimed)
            } else {
                Err(VaultError::AuthorityMismatch)
            }
        },
        None => Err(VaultError::AuthorityMismatch),
    }
}

/// Searches the bounded nonce space, from the largest nonce down, for the
/// canonical derived authority of `(program, seed)`.
///
/// Returns the first address that derives, together with its nonce; every
/// larger nonce is proven to derive nothing. All call sites that re-derive
/// with the returned nonce therefore agree on one canonical pair.
pub fn find_authority(program: &Address, seed: &Address) -> (r: Option<(Address, u8)>)
    ensures
        r matches Some(p) ==> authority_resolves(program@, seed@, p.1, p.0@) && (forall|m: u8|
            p.1 < m ==> !derived_address_some(program@, seed@, m)),
        r is None ==> forall|m: u8| !derived_address_some(program@, seed@, m),
{
    let mut nonce: u8 = 255;
    loop
        invariant
            forall|m: u8| nonce < m ==> !derived_address_some(program@, seed@, m),
        decreases nonce,
    {
        match derive_address(program, seed, nonce) {
            Some(found) => {
                return Some((found, nonce));
            },
            None => {
                if nonce == 0 {
                    return None;
                }
                nonce = nonce - 1;
            },
        }
    }
}

/// A capability standing in for a signature of a derived authority.
///
/// Downstream ledger operations accept it in place of a cryptographic
/// signature. It can only be produced by [`prove_authority`], after the
/// presented address has been re-derived and checked, and it is meant for the
/// single call frame in which it was produced: it is neither copyable nor
/// clonable, so it cannot be stashed and replayed across calls.
pub struct SignerProof {
    program: Address,
    seed: Address,
    nonce: u8,
    address: Address,
}

impl SignerProof {
    /// The proof is well-formed: its recorded nonce really derives its
    /// recorded address. Every constructed proof satisfies this.
    pub closed spec fn wf(&self) -> bool {
        authority_resolves(self.program@, self.seed@, self.nonce, self.address@)
    }

    /// The derived address this proof authorizes for.
    pub closed spec fn spec_address(&self) -> Address {
        self.address
    }

    /// The seed the authority was derived from.
    pub closed spec fn spec_seed(&self) -> Address {
        self.seed
    }

    /// The nonce that completes the derivation.
    pub closed spec fn spec_nonce(&self) -> u8 {
        self.nonce
    }

    /// The program identity the authority belongs to.
    pub closed spec fn spec_program(&self) -> Address {
        self.program
    }

    /// The derived address this proof authorizes for.
    pub fn address(&self) -> (r: &Address)
        ensures
            r == self.spec_address(),
    {
        &self.address
    }

    /// The seed and nonce a holder presents in place of a signature.
    pub fn seeds(&self) -> (r: (&Address, u8))
        ensures
            r.0 == self.spec_seed(),
            r.1 == self.spec_nonce(),
    {
        (&self.seed, self.nonce)
    }
}

/// Validates a caller-asserted `(seed, nonce)` pair against the address it is
/// claimed to derive, and on success hands back a [`SignerProof`] capability
/// for exactly that authority.
pub fn prove_authority(program: &Address, seed: &Address, nonce: u8, claimed: &Address) -> (r:
    Result<SignerProof, VaultError>)
    ensures
        r is Ok <==> authority_resolves(program@, seed@, nonce, claimed@),
        r matches Ok(p) ==> p.wf() && p.spec_address()@ == claimed@ && p.spec_seed()@ == seed@
            && p.spec_nonce() == nonce && p.spec_program()@ == program@,
        r matches Err(e) ==> e is AuthorityMismatch,
{
    match resolve(program, seed, nonce, claimed) {
        Ok(validated) => Ok(
            SignerProof { program: *program, seed: *seed, nonce, address: validated },
        ),
        Err(e) => Err(e),
    }
}

} // verus!
