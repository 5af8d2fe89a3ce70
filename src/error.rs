//! Why an instruction is refused.
use vstd::prelude::*;

verus! {

/// The reasons for which an instruction is rejected before it moves anything.
#[derive(Clone, Copy, Debug, PartialEq, Eq, Structural)]
pub enum EscrowError {
    /// Fewer accounts than the instruction names.
    NotEnoughAccountKeys,
    /// Unknown operation tag, or a payload too short for its fields.
    InvalidInstructionData,
    /// A party that must sign did not.
    MissingRequiredSignature,
    /// The escrow slot holds data but does not belong to the program.
    AccountAlreadyInitialized,
    /// An account's data is too short to hold what it should.
    InvalidAccountData,
    /// An account is not owned by the program that should own it.
    InvalidAccountOwner,
    /// No program address exists for the seeds.
    InvalidSeeds,
    /// The escrow account is not the address derived for the maker and nonce.
    EscrowAddressMismatch,
    /// A mint account is not owned by the token program.
    MintOwnerMismatch,
    /// A supplied mint differs from the one the escrow records.
    MintMismatch,
    /// The vault's authority is not the escrow address.
    VaultAuthorityMismatch,
    /// The signer is not the maker that the escrow records.
    MakerMismatch,
}

} // verus!
