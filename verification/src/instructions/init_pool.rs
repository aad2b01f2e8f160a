//! Creation of a pool for one staked token.

use crate::errors::StakeError;
use crate::state::{Mint, PoolState, TokenAccount};
use solana_program::pubkey::Pubkey;
use vstd::prelude::*;

verus! {

/// The nonces of the locations that a pool's creation derives.
#[derive(Clone, Copy, Debug, PartialEq, Eq)]
pub struct InitializePoolBumps {
    pub pool_authority: u8,
    pub pool_state: u8,
    pub token_vault: u8,
}

/// The accounts of a pool's creation.
#[derive(Clone, Copy, Debug, PartialEq, Eq)]
pub struct InitializePool {
    /// The vault authority.
    pub pool_authority: Pubkey,
    /// The pool's location: empty, or the pool that already stands there.
    pub pool_state: Option<PoolState>,
    /// The token to stake.
    pub token_mint: Mint,
    /// Where the pool's vault is to stand.
    pub token_vault: Pubkey,
    /// The reward token.
    pub staking_token_mint: Mint,
    /// The caller, who pays for the records.
    pub payer: Pubkey,
    /// The token program of both tokens.
    pub token_program: Pubkey,
    /// The nonces of the derived locations.
    pub bumps: InitializePoolBumps,
}

impl InitializePool {
    /// The descriptors of both tokens are in order: the caller may mint the
    /// token to stake, and the supplied token program runs both tokens.
    pub open spec fn token_types_in_order(self) -> bool {
        &&& self.token_mint.mint_authority == Some(self.payer)
        &&& self.token_mint.token_program == self.token_program
        &&& self.staking_token_mint.token_program == self.token_program
    }

    /// Why these accounts admit no pool, if they do not.
    pub open spec fn refusal(self) -> Option<StakeError> {
        if self.pool_state is Some {
            Some(StakeError::AlreadyInitialized)
        } else if !self.token_types_in_order() {
            Some(StakeError::InvalidTokenType)
        } else {
            None
        }
    }

    /// The pool that the creation writes: nothing staked, the two tokens, the
    /// vault authority and the nonces.
    pub open spec fn new_pool(self) -> PoolState {
        PoolState {
            bump: self.bumps.pool_state,
            amount: 0,
            token_mint: self.token_mint.key,
            staking_token_mint: self.staking_token_mint.key,
            staking_token_mint_bump: 0,
            vault_bump: self.bumps.token_vault,
            vault_auth_bump: self.bumps.pool_authority,
            vault_authority: self.pool_authority,
        }
    }

    /// The vault that the token ledger is to open with the pool: it holds the
    /// staked token and the vault authority controls it.
    pub open spec fn new_vault(self) -> TokenAccount {
        TokenAccount {
            key: self.token_vault,
            mint: self.token_mint.key,
            owner: self.pool_authority,
        }
    }
}

/// Creates the pool of the staked token with nothing staked, and returns the
/// vault that is to be opened with it. Refused, with no change, where a pool
/// already stands at the location or a token's descriptor is not in order.
pub fn handler_ip(ctx: &mut InitializePool) -> (res: Result<TokenAccount, StakeError>)
    ensures
        res is Err <==> old(ctx).refusal() is Some,
        res matches Err(e) ==> old(ctx).refusal() == Some(e) && *final(ctx) == *old(ctx),
        res matches Ok(vault) ==> vault == old(ctx).new_vault() && *final(ctx) == (InitializePool {
            pool_state: Some(old(ctx).new_pool()),
            ..*old(ctx)
        }),
{
    if ctx.pool_state.is_some() {
        return Err(StakeError::AlreadyInitialized);
    }
    let may_mint = match ctx.token_mint.mint_authority {
        Some(authority) => authority == ctx.payer,
        None => false,
    };
    if !may_mint || ctx.token_mint.token_program != ctx.token_program
        || ctx.staking_token_mint.token_program != ctx.token_program {
        return Err(StakeError::InvalidTokenType);
    }
    // initialize pool state
    let pool_state = PoolState {
        bump: ctx.bumps.pool_state,
        amount: 0,
        token_mint: ctx.token_mint.key,
        staking_token_mint: ctx.staking_token_mint.key,
        staking_token_mint_bump: 0,
        vault_bump: ctx.bumps.token_vault,
        vault_auth_bump: ctx.bumps.pool_authority,
        vault_authority: ctx.pool_authority,
    };
    ctx.pool_state = Some(pool_state);

    Ok(TokenAccount { key: ctx.token_vault, mint: ctx.token_mint.key, owner: ctx.pool_authority })
}

} // verus!
