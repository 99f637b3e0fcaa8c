use vstd::prelude::*;
use crate::events::{status_ok, InitEvent};
use crate::pubkey::Pubkey;
use crate::state::{ConfigAccount, ErrorCode, SwapSettings, TokenAccount};

verus! {

/// Accounts presented to the creation of a deployment.
#[derive(Clone, Copy, Debug, PartialEq, Eq)]
pub struct Initialize {
    /// This program's own identity; it will own the record.
    pub program_id: Pubkey,
    /// The caller, who pays for creation and becomes the initializer.
    pub signer: Pubkey,
    /// The record's derived address.
    pub config_key: Pubkey,
    /// What is stored at `config_key`, if anything.
    pub config: Option<ConfigAccount>,
    /// The base-currency vault's derived address.
    pub sol_vault: Pubkey,
    /// The token vault's derived address.
    pub token_vault_key: Pubkey,
    /// What is stored at `token_vault_key`, if anything.
    pub token_vault: Option<TokenAccount>,
    pub mint: Pubkey,
    /// Current host time.
    pub unix_timestamp: i64,
}

/// Creation is possible only where neither the record nor the token vault
/// exists yet.
pub open spec fn initialize_allowed(ctx: Initialize) -> bool {
    ctx.config is None && ctx.token_vault is None
}

/// The accounts after creation: a record with zero prices, owned by this
/// program, and an empty token vault controlled by the base-currency vault.
pub open spec fn initialized(ctx: Initialize, config_nonce: u8, vault_nonce: u8, authority: Pubkey) -> Initialize {
    Initialize {
        config: Some(ConfigAccount {
            key: ctx.config_key,
            owner: ctx.program_id,
            settings: SwapSettings {
                initializer: ctx.signer,
                authority,
                sol_vault: ctx.sol_vault,
                token_vault: ctx.token_vault_key,
                mint: ctx.mint,
                gyc_price: 0,
                sol_price: 0,
                timestamp: ctx.unix_timestamp,
                config_nonce,
                vault_nonce,
            },
        }),
        token_vault: Some(TokenAccount {
            key: ctx.token_vault_key,
            mint: ctx.mint,
            owner: ctx.sol_vault,
            amount: 0,
            delegate: None,
            delegated_amount: 0,
        }),
        ..ctx
    }
}

/// Creates the record and the token vault. Fails, changing nothing, where
/// either already exists.
pub fn initialize(ctx: &mut Initialize, config_nonce: u8, vault_nonce: u8, authority: Pubkey) -> (r: Result<InitEvent, ErrorCode>)
    ensures
        r is Ok <==> initialize_allowed(*old(ctx)),
        r is Ok ==> {
            &&& *final(ctx) == initialized(*old(ctx), config_nonce, vault_nonce, authority)
            &&& r->Ok_0.status@ == "ok"@
            &&& r->Ok_0.initializer == old(ctx).signer
            &&& r->Ok_0.config == old(ctx).config_key
            &&& r->Ok_0.sol_vault == old(ctx).sol_vault
            &&& r->Ok_0.token_vault == old(ctx).token_vault_key
            &&& r->Ok_0.mint == old(ctx).mint
        },
        r is Err ==> r->Err_0 == ErrorCode::AlreadyInitialized && *final(ctx) == *old(ctx),
{
    if ctx.config.is_some() || ctx.token_vault.is_some() {
        return Err(ErrorCode::AlreadyInitialized);
    }
    let settings = SwapSettings {
        initializer: ctx.signer,
        authority,
        sol_vault: ctx.sol_vault,
        token_vault: ctx.token_vault_key,
        mint: ctx.mint,
        gyc_price: 0,
        sol_price: 0,
        timestamp: ctx.unix_timestamp,
        config_nonce,
        vault_nonce,
    };
    ctx.config = Some(ConfigAccount { key: ctx.config_key, owner: ctx.program_id, settings });
    ctx.token_vault = Some(TokenAccount {
        key: ctx.token_vault_key,
        mint: ctx.mint,
        owner: ctx.sol_vault,
        amount: 0,
        delegate: None,
        delegated_amount: 0,
    });
    Ok(InitEvent {
        status: status_ok(),
        initializer: ctx.signer,
        config: ctx.config_key,
        sol_vault: ctx.sol_vault,
        token_vault: ctx.token_vault_key,
        mint: ctx.mint,
    })
}

} // verus!
