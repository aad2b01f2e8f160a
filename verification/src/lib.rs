//! A token-staking ledger: one pool per staked token, one stake entry per
//! user and pool, and the rules that govern deposits and withdrawals.
//!
//! The ledger holds no tokens and stores no records. It is handed the records
//! that an operation touches, decides, and says what the token ledger is to
//! do; the host carries that out and reports back.

pub mod accounting;
pub mod errors;
pub mod instructions;
pub mod state;
pub mod token_ledger;

use crate::errors::StakeError;
use crate::instructions::init_pool::{handler_ip, InitializePool};
use crate::instructions::init_stake_entry::{handler_ise, InitializeStakeEntry};
use crate::instructions::stake::{handler_s, Stake, StakeAction, StakeEvent};
use crate::instructions::unstake::{handler_u, Unstake, UnstakeAction, UnstakeEvent};
use crate::state::TokenAccount;
use vstd::prelude::*;

verus! {

/// Creates a staking pool; see [`handler_ip`].
pub fn init_pool(ctx: &mut InitializePool) -> (res: Result<TokenAccount, StakeError>)
    ensures
        res is Err <==> old(ctx).refusal() is Some,
        res matches Err(e) ==> old(ctx).refusal() == Some(e) && *final(ctx) == *old(ctx),
        res matches Ok(vault) ==> vault == old(ctx).new_vault() && *final(ctx) == (InitializePool {
            pool_state: Some(old(ctx).new_pool()),
            ..*old(ctx)
        }),
{
    handler_ip(ctx)
}

/// Creates a stake entry; see [`handler_ise`].
pub fn init_stake_entry(ctx: &mut InitializeStakeEntry) -> (res: Result<(), StakeError>)
    ensures
        res is Err <==> old(ctx).user_stake_entry is Some,
        res matches Err(e) ==> e == StakeError::AlreadyInitialized && *final(ctx) == *old(ctx),
        res is Ok ==> *final(ctx) == (InitializeStakeEntry {
            user_stake_entry: Some(old(ctx).new_entry()),
            ..*old(ctx)
        }),
{
    handler_ise(ctx)
}

/// One step of a deposit of `amount`; see [`handler_s`].
pub fn stake(
    ctx: &mut Stake,
    amount: u64,
    event: StakeEvent,
    now: i64,
) -> (res: Result<StakeAction, StakeError>)
    ensures
        res is Err <==> old(ctx).failure(amount, event) is Some,
        res matches Err(e) ==> old(ctx).failure(amount, event) == Some(e)
            && *final(ctx) == *old(ctx),
        res matches Ok(action) ==> match event {
            StakeEvent::Requested => *final(ctx) == *old(ctx)
                && old(ctx).asks_transfer(action, amount),
            StakeEvent::Transferred => *final(ctx) == old(ctx).deposited(amount, now)
                && action is Done,
            StakeEvent::Rejected => false,
        },
{
    handler_s(ctx, amount, event, now)
}

/// One step of a withdrawal; see [`handler_u`].
pub fn unstake(
    ctx: &mut Unstake,
    event: UnstakeEvent,
    now: i64,
) -> (res: Result<UnstakeAction, StakeError>)
    ensures
        res is Err <==> old(ctx).failure(event) is Some,
        res matches Err(e) ==> old(ctx).failure(event) == Some(e) && *final(ctx) == *old(ctx),
        res matches Ok(action) ==> match event {
            UnstakeEvent::Requested => *final(ctx) == *old(ctx) && old(ctx).asks_transfer(action),
            UnstakeEvent::Transferred => *final(ctx) == *old(ctx) && old(ctx).asks_mint(action),
            UnstakeEvent::Minted => *final(ctx) == old(ctx).withdrawn(now) && action is Done,
            UnstakeEvent::Rejected => false,
        },
{
    handler_u(ctx, event, now)
}

} // verus!
