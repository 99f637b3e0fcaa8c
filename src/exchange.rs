use vstd::prelude::*;
use crate::events::{status_ok, SwapEvent};
use crate::pubkey::Pubkey;
use crate::state::{ConfigAccount, ErrorCode, LamportAccount, TokenAccount};

verus! {

/// Accounts presented to an exchange of tokens for base currency.
#[derive(Clone, Copy, Debug, PartialEq, Eq)]
pub struct GYCtoSOL {
    /// This program's own identity.
    pub program_id: Pubkey,
    /// The caller.
    pub signer: Pubkey,
    /// Receives the base currency.
    pub recipient: LamportAccount,
    /// The recipient's token account, debited through its delegation.
    pub recipient_token: TokenAccount,
    pub mint: Pubkey,
    pub sol_vault: LamportAccount,
    pub token_vault: TokenAccount,
    pub config: ConfigAccount,
}

/// `floor(amount * gyc_price / sol_price)`, or an arithmetic failure when the
/// product exceeds `u64` or `sol_price` is zero.
pub open spec fn exchange_quote(amount: u64, gyc_price: u64, sol_price: u64) -> Result<u64, ErrorCode> {
    let product = amount * gyc_price;
    if product > u64::MAX || sol_price == 0 {
        Err(ErrorCode::ArithmeticFailure)
    } else {
        Ok((product / (sol_price as int)) as u64)
    }
}

/// The first account check an exchange fails, if any: the record must be
/// owned by this program, the caller must be its price authority, the
/// presented vaults and token type must be the record's, and each token
/// account must belong to its owner and hold that token type, and neither leg
/// may move value from an account to itself.
pub open spec fn exchange_accounts_error(ctx: GYCtoSOL) -> Option<ErrorCode> {
    let s = ctx.config.settings;
    if ctx.config.owner != ctx.program_id {
        Some(ErrorCode::InvalidOwner)
    } else if s.authority != ctx.signer {
        Some(ErrorCode::Unauthorized)
    } else if s.sol_vault != ctx.sol_vault.key || s.token_vault != ctx.token_vault.key {
        Some(ErrorCode::VaultMismatch)
    } else if s.mint != ctx.mint {
        Some(ErrorCode::InvalidMintMismatch)
    } else if ctx.token_vault.owner != ctx.sol_vault.key || ctx.token_vault.mint != ctx.mint
        || ctx.recipient_token.owner != ctx.recipient.key || ctx.recipient_token.mint != ctx.mint {
        Some(ErrorCode::AssociatedAccountMismatch)
    } else if ctx.recipient_token.key == ctx.token_vault.key || ctx.recipient.key == ctx.sol_vault.key {
        Some(ErrorCode::SelfTransfer)
    } else {
        None
    }
}

/// The recipient's token account lets the base-currency vault spend `amount`.
pub open spec fn delegates_to_vault(ctx: GYCtoSOL, amount: u64) -> bool {
    ctx.recipient_token.delegate == Some(ctx.sol_vault.key)
        && ctx.recipient_token.delegated_amount >= amount
}

/// The base-currency amount an exchange of `amount` tokens pays out, or the
/// first reason it is refused.
pub open spec fn exchange_check(ctx: GYCtoSOL, amount: u64) -> Result<u64, ErrorCode> {
    if let Some(e) = exchange_accounts_error(ctx) {
        Err(e)
    } else if ctx.recipient_token.amount < amount {
        Err(ErrorCode::InsufficientTokenBalance)
    } else if !delegates_to_vault(ctx, amount) {
        Err(ErrorCode::InvalidPrivileges)
    } else {
        let s = ctx.config.settings;
        match exchange_quote(amount, s.gyc_price, s.sol_price) {
            Err(e) => Err(e),
            Ok(sol_amount) => {
                if sol_amount > ctx.sol_vault.lamports {
                    Err(ErrorCode::InsufficientSolBalance)
                } else if ctx.token_vault.amount + amount > u64::MAX
                    || ctx.recipient.lamports + sol_amount > u64::MAX {
                    Err(ErrorCode::ArithmeticFailure)
                } else {
                    Ok(sol_amount)
                }
            },
        }
    }
}

/// The accounts after both legs of an exchange: `amount` tokens from the
/// recipient (through the delegation) into the token vault, and `sol_amount`
/// from the base-currency vault to the recipient.
pub open spec fn exchanged(ctx: GYCtoSOL, amount: u64, sol_amount: u64) -> GYCtoSOL {
    let left = (ctx.recipient_token.delegated_amount - amount) as u64;
    GYCtoSOL {
        recipient: LamportAccount {
            lamports: (ctx.recipient.lamports + sol_amount) as u64,
            ..ctx.recipient
        },
        recipient_token: TokenAccount {
            amount: (ctx.recipient_token.amount - amount) as u64,
            delegate: if left == 0 { None } else { ctx.recipient_token.delegate },
            delegated_amount: left,
            ..ctx.recipient_token
        },
        sol_vault: LamportAccount {
            lamports: (ctx.sol_vault.lamports - sol_amount) as u64,
            ..ctx.sol_vault
        },
        token_vault: TokenAccount {
            amount: (ctx.token_vault.amount + amount) as u64,
            ..ctx.token_vault
        },
        ..ctx
    }
}

/// The event of an exchange that left the accounts as `after`.
pub open spec fn is_swap_event(ev: SwapEvent, after: GYCtoSOL, amount: u64, sol_amount: u64) -> bool {
    &&& ev.status@ == "ok"@
    &&& ev.recipient_token == after.recipient_token.key
    &&& ev.recipient == after.recipient.key
    &&& ev.mint == after.mint
    &&& ev.token_amount == amount
    &&& ev.sol_amount == sol_amount
    &&& ev.sol_vault_amount == after.sol_vault.lamports
    &&& ev.token_vault_amount == after.token_vault.amount
}

/// Base currency paid for `amount` tokens at the rate `gyc_price / sol_price`,
/// rounded down.
pub fn exchange_amount(amount: u64, gyc_price: u64, sol_price: u64) -> (r: Result<u64, ErrorCode>)
    ensures
        r == exchange_quote(amount, gyc_price, sol_price),
{
    match amount.checked_mul(gyc_price) {
        None => Err(ErrorCode::ArithmeticFailure),
        Some(product) => match product.checked_div(sol_price) {
            None => Err(ErrorCode::ArithmeticFailure),
            Some(sol_amount) => Ok(sol_amount),
        },
    }
}

/// Validates an exchange of `amount` tokens without moving anything, and
/// returns the base-currency amount it pays out.
pub fn check_exchange(ctx: &GYCtoSOL, amount: u64) -> (r: Result<u64, ErrorCode>)
    ensures
        r == exchange_check(*ctx, amount),
{
    let s = &ctx.config.settings;
    if ctx.config.owner != ctx.program_id {
        return Err(ErrorCode::InvalidOwner);
    }
    if s.authority != ctx.signer {
        return Err(ErrorCode::Unauthorized);
    }
    if s.sol_vault != ctx.sol_vault.key || s.token_vault != ctx.token_vault.key {
        return Err(ErrorCode::VaultMismatch);
    }
    if s.mint != ctx.mint {
        return Err(ErrorCode::InvalidMintMismatch);
    }
    if ctx.token_vault.owner != ctx.sol_vault.key || ctx.token_vault.mint != ctx.mint
        || ctx.recipient_token.owner != ctx.recipient.key || ctx.recipient_token.mint != ctx.mint {
        return Err(ErrorCode::AssociatedAccountMismatch);
    }
    if ctx.recipient_token.key == ctx.token_vault.key || ctx.recipient.key == ctx.sol_vault.key {
        return Err(ErrorCode::SelfTransfer);
    }
    if ctx.recipient_token.amount < amount {
        return Err(ErrorCode::InsufficientTokenBalance);
    }
    let delegated = match ctx.recipient_token.delegate {
        Some(delegate) => delegate == ctx.sol_vault.key,
        None => false,
    };
    if !delegated || ctx.recipient_token.delegated_amount < amount {
        return Err(ErrorCode::InvalidPrivileges);
    }
    let sol_amount = match exchange_amount(amount, s.gyc_price, s.sol_price) {
        Err(e) => return Err(e),
        Ok(v) => v,
    };
    if sol_amount > ctx.sol_vault.lamports {
        return Err(ErrorCode::InsufficientSolBalance);
    }
    if ctx.token_vault.amount > u64::MAX - amount
        || ctx.recipient.lamports > u64::MAX - sol_amount {
        return Err(ErrorCode::ArithmeticFailure);
    }
    Ok(sol_amount)
}

/// Exchanges `amount` of the recipient's tokens for base currency at the
/// record's rate. Both legs happen, or, on an error, nothing changes.
pub fn gyc_to_sol(ctx: &mut GYCtoSOL, amount: u64) -> (r: Result<SwapEvent, ErrorCode>)
    ensures
        match exchange_check(*old(ctx), amount) {
            Ok(sol_amount) => {
                &&& r is Ok
                &&& *final(ctx) == exchanged(*old(ctx), amount, sol_amount)
                &&& is_swap_event(r->Ok_0, *final(ctx), amount, sol_amount)
            },
            Err(e) => r == Err::<SwapEvent, ErrorCode>(e) && *final(ctx) == *old(ctx),
        },
{
    let sol_amount = match check_exchange(ctx, amount) {
        Err(e) => return Err(e),
        Ok(v) => v,
    };
    let left = ctx.recipient_token.delegated_amount - amount;
    ctx.recipient_token.amount = ctx.recipient_token.amount - amount;
    ctx.recipient_token.delegated_amount = left;
    if left == 0 {
        ctx.recipient_token.delegate = None;
    }
    ctx.token_vault.amount = ctx.token_vault.amount + amount;
    ctx.sol_vault.lamports = ctx.sol_vault.lamports - sol_amount;
    ctx.recipient.lamports = ctx.recipient.lamports + sol_amount;
    Ok(SwapEvent {
        status: status_ok(),
        recipient_token: ctx.recipient_token.key,
        recipient: ctx.recipient.key,
        mint: ctx.mint,
        token_amount: amount,
        sol_amount,
        sol_vault_amount: ctx.sol_vault.lamports,
        token_vault_amount: ctx.token_vault.amount,
    })
}

} // verus!
