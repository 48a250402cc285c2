//! Plain-value model of the ledger accounts that the mint-creation
//! instruction reads and writes.
//!
//! Every persistent effect of the instruction lives in external ledger
//! accounts; this module models the slice of each account that the
//! instruction's rules depend on: the mint account being created, the
//! destination token-holding account, the signing authority, and the rent
//! sysvar.

use vstd::prelude::*;

verus! {

/// The exact storage size, in bytes, of a standard mint record slot.
pub const MINT_RECORD_SIZE: u64 = 82;

/// A public key on the host ledger, reduced to its raw identity.
#[derive(Clone, Copy, PartialEq, Eq, Structural, Debug)]
pub struct Pubkey {
    pub id: u64,
}

/// The token type definition that the token service writes into a mint
/// account: decimal precision and the two authorities, fixed at creation.
#[derive(Clone, Copy, PartialEq, Eq, Structural, Debug)]
pub struct MintRecord {
    pub decimals: u8,
    pub mint_authority: Pubkey,
    pub freeze_authority: Pubkey,
}

/// Whether a mint account's storage already holds an initialized record.
#[derive(Clone, Copy, PartialEq, Eq, Structural, Debug)]
pub enum MintState {
    Uninitialized,
    Initialized(MintRecord),
}

/// The account that is to become the new mint: its address, its allocated
/// storage, the lamports funding it, and its (un)initialized state.
#[derive(Clone, Copy, PartialEq, Eq, Structural, Debug)]
pub struct MintAccount {
    pub key: Pubkey,
    pub storage_size: u64,
    pub lamports: u64,
    pub state: MintState,
}

/// The destination token-holding account: which mint it belongs to and its
/// current balance. `initialized` says whether it exists as a valid holding
/// account at all.
#[derive(Clone, Copy, PartialEq, Eq, Structural, Debug)]
pub struct HoldingAccount {
    pub initialized: bool,
    pub mint: Pubkey,
    pub balance: u64,
}

/// The transaction signer who becomes the mint's permanent authority.
#[derive(Clone, Copy, PartialEq, Eq, Structural, Debug)]
pub struct AuthorityAccount {
    pub key: Pubkey,
    pub is_signer: bool,
}

/// The rent sysvar: the minimum funding an account of the standard mint
/// size needs in order to persist.
#[derive(Clone, Copy, PartialEq, Eq, Structural, Debug)]
pub struct RentSysvar {
    pub minimum_balance: u64,
}

/// The six accounts a caller supplies to the instruction, in their fixed
/// order. `token_program` and `system_program` are read-only capability
/// handles; nothing beyond their identity is read here.
#[derive(Clone, Copy, PartialEq, Eq, Structural, Debug)]
pub struct InitializeMintCtx {
    pub mint: MintAccount,
    pub destination: HoldingAccount,
    pub authority: AuthorityAccount,
    pub rent: RentSysvar,
    pub token_program: Pubkey,
    pub system_program: Pubkey,
}

/// Every way the instruction can fail: the account-constraint violations
/// detected before the delegated calls run, then the failures the token
/// service itself reports.
#[derive(Clone, Copy, PartialEq, Eq, Structural, Debug)]
pub enum MintError {
    /// `authority` did not sign the transaction.
    MissingSignature,
    /// The mint account already holds an initialized record.
    AlreadyInitialized,
    /// The mint account's storage is not the standard mint size.
    WrongMintSize,
    /// The mint account is not funded up to the rent-exemption minimum.
    NotRentExempt,
    /// The destination is not an existing, valid token-holding account.
    InvalidHoldingAccount,
    /// A mint-to was asked of a mint account that holds no record.
    UninitializedMint,
    /// The destination's recorded mint is not the mint being operated on.
    MintMismatch,
    /// The presented authority is not the record's mint authority.
    AuthorityMismatch,
    /// The minted amount would overflow the destination's balance.
    BalanceOverflow,
}

} // verus!
