use apple_stock_tokenizer::model::AuthorityAccount;
use apple_stock_tokenizer::model::HoldingAccount;
use apple_stock_tokenizer::model::InitializeMintCtx;
use apple_stock_tokenizer::model::MintAccount;
use apple_stock_tokenizer::model::MintError;
use apple_stock_tokenizer::model::MintRecord;
use apple_stock_tokenizer::model::MintState;
use apple_stock_tokenizer::model::Pubkey;
use apple_stock_tokenizer::model::RentSysvar;
use apple_stock_tokenizer::validate::check_authority_signed;
use apple_stock_tokenizer::validate::check_holding_account_valid;
use apple_stock_tokenizer::validate::check_mint_rent_funded;
use apple_stock_tokenizer::validate::check_mint_standard_size;
use apple_stock_tokenizer::validate::check_mint_uninitialized;
use apple_stock_tokenizer::validate::validate_accounts;

fn fresh_mint() -> MintAccount {
    MintAccount {
        key: Pubkey { id: 5 },
        storage_size: 82,
        lamports: 1_000,
        state: MintState::Uninitialized,
    }
}

fn valid_ctx() -> InitializeMintCtx {
    InitializeMintCtx {
        mint: fresh_mint(),
        destination: HoldingAccount {
            initialized: true,
            mint: Pubkey { id: 5 },
            balance: 0,
        },
        authority: AuthorityAccount {
            key: Pubkey { id: 6 },
            is_signer: true,
        },
        rent: RentSysvar { minimum_balance: 1_000 },
        token_program: Pubkey { id: 1 },
        system_program: Pubkey { id: 2 },
    }
}

#[test]
fn each_constraint_predicate_answers_for_itself() {
    let mint = fresh_mint();
    assert!(check_mint_uninitialized(&mint));
    let mut taken = mint;
    taken.state = MintState::Initialized(MintRecord {
        decimals: 0,
        mint_authority: Pubkey { id: 6 },
        freeze_authority: Pubkey { id: 6 },
    });
    assert!(!check_mint_uninitialized(&taken));

    assert!(check_mint_standard_size(&mint));
    let mut small = mint;
    small.storage_size = 0;
    assert!(!check_mint_standard_size(&small));

    let rent = RentSysvar { minimum_balance: 1_000 };
    assert!(check_mint_rent_funded(&mint, &rent));
    let mut poor = mint;
    poor.lamports = 999;
    assert!(!check_mint_rent_funded(&poor, &rent));

    let destination = HoldingAccount {
        initialized: true,
        mint: Pubkey { id: 5 },
        balance: 0,
    };
    assert!(check_holding_account_valid(&destination));
    let mut missing = destination;
    missing.initialized = false;
    assert!(!check_holding_account_valid(&missing));

    let authority = AuthorityAccount {
        key: Pubkey { id: 6 },
        is_signer: true,
    };
    assert!(check_authority_signed(&authority));
    let mut silent = authority;
    silent.is_signer = false;
    assert!(!check_authority_signed(&silent));
}

#[test]
fn checklist_accepts_a_fully_valid_account_set() {
    let ctx = valid_ctx();
    assert_eq!(validate_accounts(&ctx), Ok(()));
}

#[test]
fn checklist_reports_the_first_violated_constraint() {
    let mut ctx = valid_ctx();
    ctx.authority.is_signer = false;
    ctx.mint.storage_size = 1;
    ctx.destination.initialized = false;
    assert_eq!(validate_accounts(&ctx), Err(MintError::MissingSignature));

    ctx.authority.is_signer = true;
    assert_eq!(validate_accounts(&ctx), Err(MintError::WrongMintSize));

    ctx.mint.storage_size = 82;
    ctx.mint.lamports = 0;
    assert_eq!(validate_accounts(&ctx), Err(MintError::NotRentExempt));

    ctx.mint.lamports = 1_000;
    assert_eq!(validate_accounts(&ctx), Err(MintError::InvalidHoldingAccount));
}
