//! The instruction: validate the supplied accounts, then delegate to the
//! token service twice in strict sequence — initialize the mint record,
//! then mint the initial supply into the destination — propagating the
//! first failure.
//!
//! `initialize_mint` is the instruction body itself; a failure of the
//! second delegated call leaves the record written by the first in place,
//! exactly as the body would on the ledger. `execute_transaction` adds the
//! enclosing transaction's atomicity: on any failure every effect is
//! rolled back.

use vstd::prelude::*;

use crate::model::HoldingAccount;
use crate::model::InitializeMintCtx;
use crate::model::MintAccount;
use crate::model::MintError;
use crate::model::MintState;
use crate::model::Pubkey;
use crate::token_service;
use crate::token_service::fresh_record;
use crate::token_service::mint_to_error;
use crate::validate::first_constraint_error;
use crate::validate::validate_accounts;

verus! {

/// The mint account after a successful first delegated call: its record is
/// written with the given decimals, and both authorities bound to the
/// signer's key.
pub open spec fn mint_after_initialize(mint: MintAccount, decimals: u8, authority: Pubkey) -> MintAccount {
    MintAccount {
        state: MintState::Initialized(fresh_record(decimals, authority, authority)),
        ..mint
    }
}

/// The first error the whole instruction hits, or `None` when it succeeds:
/// the first violated account constraint if any, otherwise whatever the
/// mint-to call reports against the freshly initialized mint.
pub open spec fn instruction_error(ctx: InitializeMintCtx, decimals: u8, amount: u64) -> Option<MintError> {
    match first_constraint_error(ctx) {
        Some(e) => Some(e),
        None => mint_to_error(
            mint_after_initialize(ctx.mint, decimals, ctx.authority.key),
            ctx.destination,
            ctx.authority.key,
            amount,
        ),
    }
}

/// The accounts after a successful run: the mint record is written, the
/// destination balance is raised by exactly `amount`, and nothing else
/// changes.
pub open spec fn success_state(ctx: InitializeMintCtx, decimals: u8, amount: u64) -> InitializeMintCtx {
    InitializeMintCtx {
        mint: mint_after_initialize(ctx.mint, decimals, ctx.authority.key),
        destination: HoldingAccount {
            balance: (ctx.destination.balance + amount) as u64,
            ..ctx.destination
        },
        ..ctx
    }
}

/// The accounts after the enclosing transaction completes: the success
/// state on success, the starting state on any failure (full rollback).
pub open spec fn transaction_state(ctx: InitializeMintCtx, decimals: u8, amount: u64) -> InitializeMintCtx {
    if instruction_error(ctx, decimals, amount) is None {
        success_state(ctx, decimals, amount)
    } else {
        ctx
    }
}

/// The instruction body: run the account-constraint checklist, then
/// initialize the mint with both authorities bound to the signer's key,
/// then mint `amount` into the destination, stopping at the first failure.
///
/// A constraint failure changes nothing; a mint-to failure leaves the
/// record written by the first delegated call (the enclosing transaction,
/// not this body, rolls it back).
pub fn initialize_mint(ctx: &mut InitializeMintCtx, decimals: u8, amount: u64) -> (r: Result<(), MintError>)
    ensures
        r is Ok <==> instruction_error(*old(ctx), decimals, amount) is None,
        r matches Err(e) ==> Some(e) == instruction_error(*old(ctx), decimals, amount),
        r is Ok ==> *final(ctx) == success_state(*old(ctx), decimals, amount),
        r is Err && first_constraint_error(*old(ctx)) is Some ==> *final(ctx) == *old(ctx),
        r is Err && first_constraint_error(*old(ctx)) is None ==> *final(ctx) == (InitializeMintCtx {
            mint: mint_after_initialize(old(ctx).mint, decimals, old(ctx).authority.key),
            ..*old(ctx)
        }),
{
    match validate_accounts(ctx) {
        Err(e) => {
            return Err(e);
        },
        Ok(()) => {},
    }
    let authority_key: Pubkey = ctx.authority.key;
    match token_service::initialize_mint(&mut ctx.mint, &ctx.rent, decimals, authority_key, authority_key) {
        Err(e) => {
            return Err(e);
        },
        Ok(()) => {},
    }
    match token_service::mint_to(&ctx.mint, &mut ctx.destination, authority_key, amount) {
        Err(e) => Err(e),
        Ok(()) => Ok(()),
    }
}

/// One whole transaction around the instruction: the ledger runtime
/// discards every effect when the instruction fails, so the accounts end
/// in `transaction_state` — changed only on success.
pub fn execute_transaction(ctx: &mut InitializeMintCtx, decimals: u8, amount: u64) -> (r: Result<(), MintError>)
    ensures
        r is Ok <==> instruction_error(*old(ctx), decimals, amount) is None,
        r matches Err(e) ==> Some(e) == instruction_error(*old(ctx), decimals, amount),
        *final(ctx) == transaction_state(*old(ctx), decimals, amount),
{
    let saved: InitializeMintCtx = *ctx;
    let r = initialize_mint(ctx, decimals, amount);
    if r.is_err() {
        *ctx = saved;
    }
    r
}

/// Repeating the call on the same mint fails. Once a run of the
/// instruction has succeeded, any further signed run handed the same mint
/// account — whatever its other accounts, decimals and amount — reports
/// the mint as already initialized, changes nothing, and in particular
/// leaves the first run's record in place.
pub proof fn lemma_idempotent_failure(
    ctx: InitializeMintCtx,
    decimals1: u8,
    amount1: u64,
    ctx2: InitializeMintCtx,
    decimals2: u8,
    amount2: u64,
)
    requires
        instruction_error(ctx, decimals1, amount1) is None,
        ctx2.mint == success_state(ctx, decimals1, amount1).mint,
        ctx2.authority.is_signer,
    ensures
        instruction_error(ctx2, decimals2, amount2) == Some(MintError::AlreadyInitialized),
        transaction_state(ctx2, decimals2, amount2) == ctx2,
        transaction_state(ctx2, decimals2, amount2).mint == success_state(
            ctx,
            decimals1,
            amount1,
        ).mint,
{
}

/// Authority binding. After any successful run, the resulting mint
/// record's mint authority and freeze authority both equal the signer's
/// key, and its decimals are exactly those asked for — for every input the
/// instruction accepts.
pub proof fn lemma_authority_binding(ctx: InitializeMintCtx, decimals: u8, amount: u64)
    requires
        instruction_error(ctx, decimals, amount) is None,
    ensures
        success_state(ctx, decimals, amount).mint.state matches MintState::Initialized(record)
            && record.mint_authority == ctx.authority.key
            && record.freeze_authority == ctx.authority.key
            && record.decimals == decimals,
{
}

/// Balance accounting. After any successful run, the destination's balance
/// is its old balance plus exactly `amount` — no rounding, no deduction.
pub proof fn lemma_balance_accounting(ctx: InitializeMintCtx, decimals: u8, amount: u64)
    requires
        instruction_error(ctx, decimals, amount) is None,
    ensures
        success_state(ctx, decimals, amount).destination.balance
            == ctx.destination.balance + amount,
{
}

/// Side-effect discipline. A successful run creates one mint record and
/// raises one balance; the authority, the rent sysvar and the two service
/// handles are left exactly as they were, and the destination stays the
/// same holding account for the same mint.
pub proof fn lemma_success_touches_only_mint_and_destination(
    ctx: InitializeMintCtx,
    decimals: u8,
    amount: u64,
)
    requires
        instruction_error(ctx, decimals, amount) is None,
    ensures
        success_state(ctx, decimals, amount).authority == ctx.authority,
        success_state(ctx, decimals, amount).rent == ctx.rent,
        success_state(ctx, decimals, amount).token_program == ctx.token_program,
        success_state(ctx, decimals, amount).system_program == ctx.system_program,
        success_state(ctx, decimals, amount).destination.mint == ctx.destination.mint,
        success_state(ctx, decimals, amount).destination.initialized
            == ctx.destination.initialized,
        success_state(ctx, decimals, amount).mint.key == ctx.mint.key,
        success_state(ctx, decimals, amount).mint.lamports == ctx.mint.lamports,
        success_state(ctx, decimals, amount).mint.storage_size == ctx.mint.storage_size,
{
}

/// Atomicity under failure. Whenever the instruction fails, the
/// transaction leaves every account as it was; in particular, when the
/// failure comes from the mint-to step — the constraints all held — the
/// mint account holds no record afterwards: the record written by the
/// first step does not survive.
pub proof fn lemma_atomic_failure(ctx: InitializeMintCtx, decimals: u8, amount: u64)
    requires
        instruction_error(ctx, decimals, amount) is Some,
    ensures
        transaction_state(ctx, decimals, amount) == ctx,
        first_constraint_error(ctx) is None ==> transaction_state(
            ctx,
            decimals,
            amount,
        ).mint.state is Uninitialized,
{
}

/// Unsigned authority rejection. When the authority has not signed, the
/// instruction fails with exactly the missing-signature error — before
/// either delegated call — and the transaction changes nothing.
pub proof fn lemma_unsigned_authority_rejected(ctx: InitializeMintCtx, decimals: u8, amount: u64)
    requires
        !ctx.authority.is_signer,
    ensures
        instruction_error(ctx, decimals, amount) == Some(MintError::MissingSignature),
        transaction_state(ctx, decimals, amount) == ctx,
{
}

} // verus!
