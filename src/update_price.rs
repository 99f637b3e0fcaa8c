use vstd::prelude::*;
use crate::events::{status_ok, UpdateEvent};
use crate::pubkey::Pubkey;
use crate::state::{ConfigAccount, ErrorCode, SwapSettings};

verus! {

/// Accounts presented to a price update.
#[derive(Clone, Copy, Debug, PartialEq, Eq)]
pub struct UpdatePrice {
    /// This program's own identity.
    pub program_id: Pubkey,
    /// The caller.
    pub signer: Pubkey,
    pub config: ConfigAccount,
    /// Current host time.
    pub unix_timestamp: i64,
}

/// The first reason a price update is refused, if any: the record must be
/// owned by this program and the caller must be its price authority.
pub open spec fn update_price_check(ctx: UpdatePrice) -> Result<(), ErrorCode> {
    if ctx.config.owner != ctx.program_id {
        Err(ErrorCode::InvalidOwner)
    } else if ctx.config.settings.authority != ctx.signer {
        Err(ErrorCode::Unauthorized)
    } else {
        Ok(())
    }
}

/// The accounts after the rate became `gyc_price / sol_price` at the current
/// time. Zero prices are stored as given.
pub open spec fn price_updated(ctx: UpdatePrice, gyc_price: u64, sol_price: u64) -> UpdatePrice {
    UpdatePrice {
        config: ConfigAccount {
            settings: SwapSettings {
                gyc_price,
                sol_price,
                timestamp: ctx.unix_timestamp,
                ..ctx.config.settings
            },
            ..ctx.config
        },
        ..ctx
    }
}

/// Stores a new rate. On an error nothing changes.
pub fn update_price(ctx: &mut UpdatePrice, gyc_price: u64, sol_price: u64) -> (r: Result<UpdateEvent, ErrorCode>)
    ensures
        match update_price_check(*old(ctx)) {
            Ok(()) => {
                &&& r is Ok
                &&& *final(ctx) == price_updated(*old(ctx), gyc_price, sol_price)
                &&& r->Ok_0.status@ == "ok"@
                &&& r->Ok_0.gyc_price == gyc_price
                &&& r->Ok_0.sol_price == sol_price
                &&& r->Ok_0.timestamp == old(ctx).unix_timestamp
            },
            Err(e) => r == Err::<UpdateEvent, ErrorCode>(e) && *final(ctx) == *old(ctx),
        },
{
    if ctx.config.owner != ctx.program_id {
        return Err(ErrorCode::InvalidOwner);
    }
    if ctx.config.settings.authority != ctx.signer {
        return Err(ErrorCode::Unauthorized);
    }
    ctx.config.settings.gyc_price = gyc_price;
    ctx.config.settings.sol_price = sol_price;
    ctx.config.settings.timestamp = ctx.unix_timestamp;
    Ok(UpdateEvent {
        status: status_ok(),
        gyc_price,
        sol_price,
        timestamp: ctx.config.settings.timestamp,
    })
}

} // verus!
