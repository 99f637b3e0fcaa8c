use vstd::prelude::*;
use crate::events::{status_ok, WithdrawEvent};
use crate::pubkey::Pubkey;
use crate::state::{ConfigAccount, ErrorCode, TokenAccount};

verus! {

/// Accounts presented to a withdrawal of tokens from the token vault.
#[derive(Clone, Copy, Debug, PartialEq, Eq)]
pub struct Withdrawal {
    /// This program's own identity.
    pub program_id: Pubkey,
    /// The caller, who receives the tokens.
    pub signer: Pubkey,
    /// The caller's token account.
    pub recipient_token: TokenAccount,
    pub sol_vault: Pubkey,
    pub token_vault: TokenAccount,
    pub config: ConfigAccount,
    pub mint: Pubkey,
}

/// The first reason a withdrawal of `amount` is refused, if any.
pub open spec fn withdraw_check(ctx: Withdrawal, amount: u64) -> Result<(), ErrorCode> {
    let s = ctx.config.settings;
    if ctx.config.owner != ctx.program_id {
        Err(ErrorCode::InvalidOwner)
    } else if s.initializer != ctx.signer {
        Err(ErrorCode::Unauthorized)
    } else if s.sol_vault != ctx.sol_vault || s.token_vault != ctx.token_vault.key {
        Err(ErrorCode::VaultMismatch)
    } else if s.mint != ctx.mint {
        Err(ErrorCode::InvalidMintMismatch)
    } else if ctx.token_vault.owner != ctx.sol_vault || ctx.token_vault.mint != ctx.mint
        || ctx.recipient_token.owner != ctx.signer || ctx.recipient_token.mint != ctx.mint {
        Err(ErrorCode::AssociatedAccountMismatch)
    } else if ctx.recipient_token.key == ctx.token_vault.key {
        Err(ErrorCode::SelfTransfer)
    } else if ctx.token_vault.amount < amount {
        Err(ErrorCode::InsufficientTokenBalance)
    } else if ctx.recipient_token.amount + amount > u64::MAX {
        Err(ErrorCode::ArithmeticFailure)
    } else {
        Ok(())
    }
}

/// The accounts after `amount` tokens moved from the token vault to the
/// caller's token account.
pub open spec fn withdrawn(ctx: Withdrawal, amount: u64) -> Withdrawal {
    Withdrawal {
        recipient_token: TokenAccount {
            amount: (ctx.recipient_token.amount + amount) as u64,
            ..ctx.recipient_token
        },
        token_vault: TokenAccount {
            amount: (ctx.token_vault.amount - amount) as u64,
            ..ctx.token_vault
        },
        ..ctx
    }
}

/// Validates a withdrawal of `amount` tokens without moving anything.
pub fn check_withdraw(ctx: &Withdrawal, amount: u64) -> (r: Result<(), ErrorCode>)
    ensures
        r == withdraw_check(*ctx, amount),
{
    let s = &ctx.config.settings;
    if ctx.config.owner != ctx.program_id {
        return Err(ErrorCode::InvalidOwner);
    }
    if s.initializer != ctx.signer {
        return Err(ErrorCode::Unauthorized);
    }
    if s.sol_vault != ctx.sol_vault || s.token_vault != ctx.token_vault.key {
        return Err(ErrorCode::VaultMismatch);
    }
    if s.mint != ctx.mint {
        return Err(ErrorCode::InvalidMintMismatch);
    }
    if ctx.token_vault.owner != ctx.sol_vault || ctx.token_vault.mint != ctx.mint
        || ctx.recipient_token.owner != ctx.signer || ctx.recipient_token.mint != ctx.mint {
        return Err(ErrorCode::AssociatedAccountMismatch);
    }
    if ctx.recipient_token.key == ctx.token_vault.key {
        return Err(ErrorCode::SelfTransfer);
    }
    if ctx.token_vault.amount < amount {
        return Err(ErrorCode::InsufficientTokenBalance);
    }
    if ctx.recipient_token.amount > u64::MAX - amount {
        return Err(ErrorCode::ArithmeticFailure);
    }
    Ok(())
}

/// Moves `amount` tokens from the token vault to the initializer's token
/// account. Prices play no part. On an error nothing changes.
pub fn withdraw(ctx: &mut Withdrawal, amount: u64) -> (r: Result<WithdrawEvent, ErrorCode>)
    ensures
        match withdraw_check(*old(ctx), amount) {
            Ok(()) => {
                &&& r is Ok
                &&& *final(ctx) == withdrawn(*old(ctx), amount)
                &&& r->Ok_0.status@ == "ok"@
                &&& r->Ok_0.amount == amount
                &&& r->Ok_0.recipient == old(ctx).signer
            },
            Err(e) => r == Err::<WithdrawEvent, ErrorCode>(e) && *final(ctx) == *old(ctx),
        },
{
    match check_withdraw(ctx, amount) {
        Err(e) => return Err(e),
        Ok(()) => {},
    }
    ctx.token_vault.amount = ctx.token_vault.amount - amount;
    ctx.recipient_token.amount = ctx.recipient_token.amount + amount;
    Ok(WithdrawEvent { status: status_ok(), amount, recipient: ctx.signer })
}

} // verus!
