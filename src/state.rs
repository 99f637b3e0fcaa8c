use vstd::prelude::*;
use crate::pubkey::Pubkey;

verus! {

/// The configuration record: one per deployment.
#[derive(Clone, Copy, Debug, PartialEq, Eq)]
pub struct SwapSettings {
    /// Creator of the record; the only identity allowed to withdraw.
    pub initializer: Pubkey,
    /// Identity allowed to update prices (and to exchange).
    pub authority: Pubkey,
    /// Base-currency vault, an address derived from the record's address.
    pub sol_vault: Pubkey,
    /// Token vault, a token account whose authority is `sol_vault`.
    pub token_vault: Pubkey,
    /// Token type accepted by the exchange.
    pub mint: Pubkey,
    /// Token side of the rate.
    pub gyc_price: u64,
    /// Base-currency side of the rate.
    pub sol_price: u64,
    /// Time of the last price update (or of creation).
    pub timestamp: i64,
    /// Derivation parameter of the record's address.
    pub config_nonce: u8,
    /// Derivation parameter of the base-currency vault's address.
    pub vault_nonce: u8,
}

/// The record as the host presents it: its address, the program that owns
/// it, and its contents.
#[derive(Clone, Copy, Debug, PartialEq, Eq)]
pub struct ConfigAccount {
    pub key: Pubkey,
    pub owner: Pubkey,
    pub settings: SwapSettings,
}

/// A token-holding account of the token sub-ledger.
#[derive(Clone, Copy, Debug, PartialEq, Eq)]
pub struct TokenAccount {
    pub key: Pubkey,
    pub mint: Pubkey,
    /// Identity that controls the account.
    pub owner: Pubkey,
    pub amount: u64,
    /// Identity allowed to spend from the account on the owner's behalf.
    pub delegate: Option<Pubkey>,
    /// How much the delegate may still spend.
    pub delegated_amount: u64,
}

/// An account holding the base currency.
#[derive(Clone, Copy, Debug, PartialEq, Eq)]
pub struct LamportAccount {
    pub key: Pubkey,
    pub lamports: u64,
}

/// Why an operation was refused. A refused operation changes nothing.
#[derive(Clone, Copy, Debug, PartialEq, Eq, Structural)]
pub enum ErrorCode {
    /// The record is not owned by this program.
    InvalidOwner,
    /// The caller does not hold the role the operation needs.
    Unauthorized,
    /// A token account holds less than the amount to move.
    InsufficientTokenBalance,
    /// A presented vault is not the one the record names.
    VaultMismatch,
    /// The base-currency vault holds less than the exchange pays out.
    InsufficientSolBalance,
    /// The recipient's token account has not delegated the amount to the vault.
    InvalidPrivileges,
    /// The presented token type is not the one the record names.
    InvalidMintMismatch,
    /// A record or token vault already exists where Initialize would create one.
    AlreadyInitialized,
    /// A token account does not belong to the expected owner and token type.
    AssociatedAccountMismatch,
    /// A transfer would move value from an account to itself.
    SelfTransfer,
    /// A multiplication or addition overflowed, or a rate of zero was divided by.
    ArithmeticFailure,
}

} // verus!
