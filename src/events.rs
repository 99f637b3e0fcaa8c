use vstd::prelude::*;
use crate::pubkey::Pubkey;

verus! {

/// Emitted by a successful Initialize.
#[derive(Clone, Debug, PartialEq, Eq)]
pub struct InitEvent {
    pub status: String,
    pub initializer: Pubkey,
    pub config: Pubkey,
    pub sol_vault: Pubkey,
    pub token_vault: Pubkey,
    pub mint: Pubkey,
}

/// Emitted by a successful price update.
#[derive(Clone, Debug, PartialEq, Eq)]
pub struct UpdateEvent {
    pub status: String,
    pub gyc_price: u64,
    pub sol_price: u64,
    pub timestamp: i64,
}

/// Emitted by a successful exchange; the vault amounts are those after it.
#[derive(Clone, Debug, PartialEq, Eq)]
pub struct SwapEvent {
    pub status: String,
    pub recipient_token: Pubkey,
    pub recipient: Pubkey,
    pub mint: Pubkey,
    pub token_amount: u64,
    pub sol_amount: u64,
    pub sol_vault_amount: u64,
    pub token_vault_amount: u64,
}

/// Emitted by a successful withdrawal.
#[derive(Clone, Debug, PartialEq, Eq)]
pub struct WithdrawEvent {
    pub status: String,
    pub amount: u64,
    pub recipient: Pubkey,
}

/// The status every event carries.
pub(crate) fn status_ok() -> (r: String)
    ensures
        r@ == "ok"@,
{
    "ok".to_string()
}

} // verus!
