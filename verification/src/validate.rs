//! The account-validation layer: one predicate per constraint, and the
//! checklist that runs them in a fixed order before the instruction body.
//!
//! Signer verification comes first (the ledger runtime checks signatures
//! before anything else runs), then the constraints on the mint account
//! being created, then the destination holding account.

use vstd::prelude::*;

use crate::model::AuthorityAccount;
use crate::model::HoldingAccount;
use crate::model::InitializeMintCtx;
use crate::model::MintAccount;
use crate::model::MintError;
use crate::model::MintState;
use crate::model::RentSysvar;
use crate::model::MINT_RECORD_SIZE;

verus! {

/// The mint account does not yet hold an initialized record.
pub open spec fn mint_uninitialized(mint: MintAccount) -> bool {
    mint.state is Uninitialized
}

/// The mint account has exactly the standard mint storage size.
pub open spec fn mint_standard_size(mint: MintAccount) -> bool {
    mint.storage_size == MINT_RECORD_SIZE
}

/// The mint account is funded up to the rent-exemption minimum.
pub open spec fn mint_rent_funded(mint: MintAccount, rent: RentSysvar) -> bool {
    mint.lamports >= rent.minimum_balance
}

/// The destination exists and is a valid token-holding account.
pub open spec fn holding_account_valid(destination: HoldingAccount) -> bool {
    destination.initialized
}

/// The authority signed the enclosing transaction.
pub open spec fn authority_signed(authority: AuthorityAccount) -> bool {
    authority.is_signer
}

/// The first constraint the supplied accounts violate, or `None` when the
/// whole checklist passes.
pub open spec fn first_constraint_error(ctx: InitializeMintCtx) -> Option<MintError> {
    if !authority_signed(ctx.authority) {
        Some(MintError::MissingSignature)
    } else if !mint_uninitialized(ctx.mint) {
        Some(MintError::AlreadyInitialized)
    } else if !mint_standard_size(ctx.mint) {
        Some(MintError::WrongMintSize)
    } else if !mint_rent_funded(ctx.mint, ctx.rent) {
        Some(MintError::NotRentExempt)
    } else if !holding_account_valid(ctx.destination) {
        Some(MintError::InvalidHoldingAccount)
    } else {
        None
    }
}

/// Constraint check: the mint account holds no record yet.
pub fn check_mint_uninitialized(mint: &MintAccount) -> (r: bool)
    ensures
        r == mint_uninitialized(*mint),
{
    match mint.state {
        MintState::Uninitialized => true,
        MintState::Initialized(_) => false,
    }
}

/// Constraint check: the mint account's storage is the standard mint size.
pub fn check_mint_standard_size(mint: &MintAccount) -> (r: bool)
    ensures
        r == mint_standard_size(*mint),
{
    mint.storage_size == MINT_RECORD_SIZE
}

/// Constraint check: the mint account meets the rent-exemption minimum.
pub fn check_mint_rent_funded(mint: &MintAccount, rent: &RentSysvar) -> (r: bool)
    ensures
        r == mint_rent_funded(*mint, *rent),
{
    mint.lamports >= rent.minimum_balance
}

/// Constraint check: the destination is a valid token-holding account.
pub fn check_holding_account_valid(destination: &HoldingAccount) -> (r: bool)
    ensures
        r == holding_account_valid(*destination),
{
    destination.initialized
}

/// Constraint check: the authority signed the transaction.
pub fn check_authority_signed(authority: &AuthorityAccount) -> (r: bool)
    ensures
        r == authority_signed(*authority),
{
    authority.is_signer
}

/// Runs the whole checklist, returning the first violated constraint's
/// error, and `Ok` exactly when every constraint holds.
pub fn validate_accounts(ctx: &InitializeMintCtx) -> (r: Result<(), MintError>)
    ensures
        r is Ok <==> first_constraint_error(*ctx) is None,
        r matches Err(e) ==> Some(e) == first_constraint_error(*ctx),
{
    if !check_authority_signed(&ctx.authority) {
        Err(MintError::MissingSignature)
    } else if !check_mint_uninitialized(&ctx.mint) {
        Err(MintError::AlreadyInitialized)
    } else if !check_mint_standard_size(&ctx.mint) {
        Err(MintError::WrongMintSize)
    } else if !check_mint_rent_funded(&ctx.mint, &ctx.rent) {
        Err(MintError::NotRentExempt)
    } else if !check_holding_account_valid(&ctx.destination) {
        Err(MintError::InvalidHoldingAccount)
    } else {
        Ok(())
    }
}

} // verus!
