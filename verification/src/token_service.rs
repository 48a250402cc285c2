//! A model of the two token-service operations the instruction delegates
//! to: `initialize_mint`, which writes a fresh record into an empty mint
//! account, and `mint_to`, which raises a holding account's balance.
//!
//! Each operation is all-or-nothing: it either performs exactly its stated
//! effect or reports its first failure and changes nothing.

use vstd::prelude::*;

use crate::model::HoldingAccount;
use crate::model::MintAccount;
use crate::model::MintError;
use crate::model::MintRecord;
use crate::model::MintState;
use crate::model::Pubkey;
use crate::model::RentSysvar;
use crate::validate::holding_account_valid;
use crate::validate::mint_rent_funded;
use crate::validate::mint_standard_size;
use crate::validate::mint_uninitialized;

verus! {

/// The record a successful `initialize_mint` writes: the given decimal
/// precision and the two authorities as passed.
pub open spec fn fresh_record(decimals: u8, mint_authority: Pubkey, freeze_authority: Pubkey) -> MintRecord {
    MintRecord { decimals, mint_authority, freeze_authority }
}

/// Why `initialize_mint` fails on the given mint account, or `None` when
/// it succeeds: the account must hold no record yet, have the standard
/// mint size, and be funded up to the rent-exemption minimum.
pub open spec fn initialize_mint_error(mint: MintAccount, rent: RentSysvar) -> Option<MintError> {
    if !mint_uninitialized(mint) {
        Some(MintError::AlreadyInitialized)
    } else if !mint_standard_size(mint) {
        Some(MintError::WrongMintSize)
    } else if !mint_rent_funded(mint, rent) {
        Some(MintError::NotRentExempt)
    } else {
        None
    }
}

/// Why `mint_to` fails, or `None` when it succeeds: the mint must hold a
/// record, the destination must be a valid holding account recorded for
/// this very mint, the presented authority must be the record's mint
/// authority, and the raised balance must still fit in a `u64`.
pub open spec fn mint_to_error(
    mint: MintAccount,
    destination: HoldingAccount,
    authority: Pubkey,
    amount: u64,
) -> Option<MintError> {
    match mint.state {
        MintState::Uninitialized => Some(MintError::UninitializedMint),
        MintState::Initialized(record) => {
            if !holding_account_valid(destination) {
                Some(MintError::InvalidHoldingAccount)
            } else if destination.mint != mint.key {
                Some(MintError::MintMismatch)
            } else if authority != record.mint_authority {
                Some(MintError::AuthorityMismatch)
            } else if destination.balance + amount > u64::MAX {
                Some(MintError::BalanceOverflow)
            } else {
                None
            }
        },
    }
}

/// Initializes `mint` as a new mint record with the given decimal
/// precision and authorities, or reports the first reason it cannot and
/// leaves the account untouched.
pub fn initialize_mint(
    mint: &mut MintAccount,
    rent: &RentSysvar,
    decimals: u8,
    mint_authority: Pubkey,
    freeze_authority: Pubkey,
) -> (r: Result<(), MintError>)
    ensures
        r is Ok <==> initialize_mint_error(*old(mint), *rent) is None,
        r matches Err(e) ==> Some(e) == initialize_mint_error(*old(mint), *rent)
            && *final(mint) == *old(mint),
        r is Ok ==> *final(mint) == (MintAccount {
            state: MintState::Initialized(fresh_record(decimals, mint_authority, freeze_authority)),
            ..*old(mint)
        }),
{
    if !crate::validate::check_mint_uninitialized(mint) {
        Err(MintError::AlreadyInitialized)
    } else if !crate::validate::check_mint_standard_size(mint) {
        Err(MintError::WrongMintSize)
    } else if !crate::validate::check_mint_rent_funded(mint, rent) {
        Err(MintError::NotRentExempt)
    } else {
        mint.state = MintState::Initialized(MintRecord {
            decimals,
            mint_authority,
            freeze_authority,
        });
        Ok(())
    }
}

/// Mints `amount` base units into `destination` on behalf of `authority`,
/// raising its balance by exactly `amount`, or reports the first reason it
/// cannot and leaves the account untouched.
pub fn mint_to(
    mint: &MintAccount,
    destination: &mut HoldingAccount,
    authority: Pubkey,
    amount: u64,
) -> (r: Result<(), MintError>)
    ensures
        r is Ok <==> mint_to_error(*mint, *old(destination), authority, amount) is None,
        r matches Err(e) ==> Some(e) == mint_to_error(*mint, *old(destination), authority, amount)
            && *final(destination) == *old(destination),
        r is Ok ==> *final(destination) == (HoldingAccount {
            balance: (old(destination).balance + amount) as u64,
            ..*old(destination)
        }),
{
    let record: MintRecord = match mint.state {
        MintState::Uninitialized => {
            return Err(MintError::UninitializedMint);
        },
        MintState::Initialized(record) => record,
    };
    if !crate::validate::check_holding_account_valid(destination) {
        Err(MintError::InvalidHoldingAccount)
    } else if destination.mint != mint.key {
        Err(MintError::MintMismatch)
    } else if authority != record.mint_authority {
        Err(MintError::AuthorityMismatch)
    } else if amount > u64::MAX - destination.balance {
        Err(MintError::BalanceOverflow)
    } else {
        destination.balance = destination.balance + amount;
        Ok(())
    }
}

} // verus!
