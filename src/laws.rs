use vstd::prelude::*;
use crate::exchange::{delegates_to_vault, exchange_accounts_error, exchange_check, exchange_quote, exchanged, GYCtoSOL};
use crate::initialize::{initialize_allowed, initialized, Initialize};
use crate::pubkey::Pubkey;
use crate::state::{ConfigAccount, ErrorCode, SwapSettings};
use crate::update_price::{update_price_check, UpdatePrice};
use crate::withdraw::{withdraw_check, withdrawn, Withdrawal};

verus! {

/// A deployment is created once: after a successful Initialize, a second one
/// on the resulting accounts is refused (and so, by `initialize`'s contract,
/// fails with `AlreadyInitialized` and changes nothing).
pub proof fn lemma_initialize_once(ctx: Initialize, config_nonce: u8, vault_nonce: u8, authority: Pubkey)
    requires
        initialize_allowed(ctx),
    ensures
        !initialize_allowed(initialized(ctx, config_nonce, vault_nonce, authority)),
{
}

/// Roles are separate: only the price authority may update prices, and only
/// the initializer may withdraw, even where the caller is the price authority.
pub proof fn lemma_authority_separation(update: UpdatePrice, withdrawal: Withdrawal, amount: u64)
    ensures
        update.config.owner == update.program_id
            && update.signer != update.config.settings.authority
            ==> update_price_check(update) == Err::<(), ErrorCode>(ErrorCode::Unauthorized),
        withdrawal.config.owner == withdrawal.program_id
            && withdrawal.signer != withdrawal.config.settings.initializer
            ==> withdraw_check(withdrawal, amount) == Err::<(), ErrorCode>(ErrorCode::Unauthorized),
{
}

/// A rate whose base-currency side is zero never pays out: the quote fails
/// with an arithmetic failure, and so does an exchange that passes every
/// account, balance and delegation check before the computation.
pub proof fn lemma_zero_rate_fails(ctx: GYCtoSOL, amount: u64)
    requires
        ctx.config.settings.sol_price == 0,
    ensures
        exchange_quote(amount, ctx.config.settings.gyc_price, 0)
            == Err::<u64, ErrorCode>(ErrorCode::ArithmeticFailure),
        exchange_accounts_error(ctx) is None && ctx.recipient_token.amount >= amount
            && delegates_to_vault(ctx, amount) ==> exchange_check(ctx, amount) == Err::<u64, ErrorCode>(ErrorCode::ArithmeticFailure),
{
}

/// An exchange by the price authority, on a record owned by this program, with
/// a vault or token type other than the record's, fails with the mismatch
/// error whatever the presented accounts hold.
pub proof fn lemma_exchange_rejects_foreign_accounts(ctx: GYCtoSOL, amount: u64)
    requires
        ctx.config.owner == ctx.program_id,
        ctx.config.settings.authority == ctx.signer,
    ensures
        ctx.config.settings.sol_vault != ctx.sol_vault.key
            || ctx.config.settings.token_vault != ctx.token_vault.key
            ==> exchange_check(ctx, amount) == Err::<u64, ErrorCode>(ErrorCode::VaultMismatch),
        ctx.config.settings.sol_vault == ctx.sol_vault.key
            && ctx.config.settings.token_vault == ctx.token_vault.key
            && ctx.config.settings.mint != ctx.mint
            ==> exchange_check(ctx, amount) == Err::<u64, ErrorCode>(ErrorCode::InvalidMintMismatch),
{
}

/// A withdrawal by the initializer, on a record owned by this program, with a
/// vault or token type other than the record's, fails with the mismatch error
/// whatever the presented accounts hold.
pub proof fn lemma_withdraw_rejects_foreign_accounts(ctx: Withdrawal, amount: u64)
    requires
        ctx.config.owner == ctx.program_id,
        ctx.config.settings.initializer == ctx.signer,
    ensures
        ctx.config.settings.sol_vault != ctx.sol_vault
            || ctx.config.settings.token_vault != ctx.token_vault.key
            ==> withdraw_check(ctx, amount) == Err::<(), ErrorCode>(ErrorCode::VaultMismatch),
        ctx.config.settings.sol_vault == ctx.sol_vault
            && ctx.config.settings.token_vault == ctx.token_vault.key
            && ctx.config.settings.mint != ctx.mint
            ==> withdraw_check(ctx, amount) == Err::<(), ErrorCode>(ErrorCode::InvalidMintMismatch),
{
}

/// The withdrawal accounts with the record's rate replaced.
pub open spec fn with_prices(ctx: Withdrawal, gyc_price: u64, sol_price: u64) -> Withdrawal {
    Withdrawal {
        config: ConfigAccount {
            settings: SwapSettings { gyc_price, sol_price, ..ctx.config.settings },
            ..ctx.config
        },
        ..ctx
    }
}

/// Withdrawal does not depend on the rate: whatever the prices (zero
/// included), it is refused or allowed alike and moves the same tokens.
pub proof fn lemma_withdraw_ignores_prices(ctx: Withdrawal, amount: u64, gyc_price: u64, sol_price: u64)
    ensures
        withdraw_check(with_prices(ctx, gyc_price, sol_price), amount) == withdraw_check(ctx, amount),
        withdrawn(with_prices(ctx, gyc_price, sol_price), amount)
            == with_prices(withdrawn(ctx, amount), gyc_price, sol_price),
{
}

/// A withdrawal by the initializer, between the record's own accounts and
/// within the balances, succeeds when both prices are zero.
pub proof fn lemma_withdraw_succeeds_at_zero_prices(ctx: Withdrawal, amount: u64)
    requires
        ctx.config.owner == ctx.program_id,
        ctx.config.settings.initializer == ctx.signer,
        ctx.config.settings.sol_vault == ctx.sol_vault,
        ctx.config.settings.token_vault == ctx.token_vault.key,
        ctx.config.settings.mint == ctx.mint,
        ctx.token_vault.owner == ctx.sol_vault,
        ctx.token_vault.mint == ctx.mint,
        ctx.recipient_token.owner == ctx.signer,
        ctx.recipient_token.mint == ctx.mint,
        ctx.recipient_token.key != ctx.token_vault.key,
        ctx.token_vault.amount >= amount,
        ctx.recipient_token.amount + amount <= u64::MAX,
    ensures
        withdraw_check(with_prices(ctx, 0, 0), amount) is Ok,
        withdrawn(with_prices(ctx, 0, 0), amount).token_vault.amount == ctx.token_vault.amount - amount,
        withdrawn(with_prices(ctx, 0, 0), amount).recipient_token.amount
            == ctx.recipient_token.amount + amount,
{
}

/// An exchange moves value without creating or destroying it: the tokens of
/// the recipient and the token vault, and the base currency of the recipient
/// and the base-currency vault, keep their totals.
pub proof fn lemma_exchange_conserves(ctx: GYCtoSOL, amount: u64)
    requires
        exchange_check(ctx, amount) is Ok,
    ensures
        ({
            let after = exchanged(ctx, amount, exchange_check(ctx, amount)->Ok_0);
            &&& after.recipient_token.amount + after.token_vault.amount
                == ctx.recipient_token.amount + ctx.token_vault.amount
            &&& after.recipient.lamports + after.sol_vault.lamports
                == ctx.recipient.lamports + ctx.sol_vault.lamports
        }),
{
}

} // verus!
