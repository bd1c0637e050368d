use vstd::prelude::*;

verus! {

/// Every way an operation of the vault core can fail.
///
/// No error is recovered or masked internally: each one is surfaced
/// synchronously to the caller, which decides whether to resubmit.
#[derive(Clone, Copy, Debug, PartialEq, Eq, Structural)]
pub enum VaultError {
    /// A derived-address re-check failed: the caller-asserted nonce does not
    /// reproduce the address the caller presented, or no valid nonce exists.
    /// Always fatal to the call; indicates a stale nonce or a forged address.
    AuthorityMismatch,
    /// A vault for this collateral asset has already been created. Raised at
    /// the idempotency boundary of the bootstrap operation.
    AlreadyExists,
    /// A token account does not hold enough balance for the requested
    /// debit. User-correctable.
    InsufficientBalance,
    /// The vault itself does not hold enough collateral to satisfy a
    /// release. A systemic invariant violation, surfaced, never clamped.
    InsufficientVaultBalance,
    /// A zero amount was supplied. Rejected before any ledger operation is
    /// attempted.
    InvalidAmount,
    /// The presented authority does not control the account or mint that the
    /// ledger operation touches.
    Unauthorized,
    /// A token account is bound to a different asset than the operation
    /// expects.
    MintMismatch,
}

impl VaultError {
    /// A short stable name for the error, for callers that report it.
    pub fn name(&self) -> (r: &'static str)
        ensures
            self is AuthorityMismatch ==> r@ == "AuthorityMismatch"@,
            self is AlreadyExists ==> r@ == "AlreadyExists"@,
            self is InsufficientBalance ==> r@ == "InsufficientBalance"@,
            self is InsufficientVaultBalance ==> r@ == "InsufficientVaultBalance"@,
            self is InvalidAmount ==> r@ == "InvalidAmount"@,
            self is Unauthorized ==> r@ == "Unauthorized"@,
            self is MintMismatch ==> r@ == "MintMismatch"@,
    {
        match self {
            VaultError::AuthorityMismatch => "AuthorityMismatch",
            VaultError::AlreadyExists => "AlreadyExists",
            VaultError::InsufficientBalance => "InsufficientBalance",
            VaultError::InsufficientVaultBalance => "InsufficientVaultBalance",
            VaultError::InvalidAmount => "InvalidAmount",
            VaultError::Unauthorized => "Unauthorized",
            VaultError::MintMismatch => "MintMismatch",
        }
    }
}

} // verus!
