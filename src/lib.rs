//! Custody and exchange rules of a two-asset vault: a base-currency vault and
//! a token vault, both controlled by a derived authority, exchanged at a rate
//! pushed by a price authority.
//!
//! The host ledger (signatures, address derivation, account storage) stays
//! outside: each operation receives the accounts the host presents as plain
//! values, validates them, and applies its effects to them atomically.

mod events;
mod exchange;
mod initialize;
mod laws;
mod pubkey;
mod state;
mod update_price;
mod withdraw;

pub use events::{InitEvent, SwapEvent, UpdateEvent, WithdrawEvent};
pub use exchange::{
    check_exchange, delegates_to_vault, exchange_accounts_error, exchange_amount, exchange_check,
    exchange_quote, exchanged, gyc_to_sol, is_swap_event, GYCtoSOL,
};
pub use initialize::{initialize, initialize_allowed, initialized, Initialize};
pub use laws::{
    lemma_authority_separation, lemma_exchange_conserves, lemma_exchange_rejects_foreign_accounts,
    lemma_initialize_once, lemma_withdraw_ignores_prices, lemma_withdraw_rejects_foreign_accounts,
    lemma_withdraw_succeeds_at_zero_prices, lemma_zero_rate_fails, with_prices,
};
pub use pubkey::Pubkey;
pub use state::{ConfigAccount, ErrorCode, LamportAccount, SwapSettings, TokenAccount};
pub use update_price::{price_updated, update_price, update_price_check, UpdatePrice};
pub use withdraw::{check_withdraw, withdraw, withdraw_check, withdrawn, Withdrawal};
