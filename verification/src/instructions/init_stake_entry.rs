//! Creation of a user's stake entry in a pool.

use crate::errors::StakeError;
use crate::state::{PoolState, StakeEntry};
use solana_program::pubkey::Pubkey;
use vstd::prelude::*;

verus! {

/// The nonce of the location that an entry's creation derives.
#[derive(Clone, Copy, Debug, PartialEq, Eq)]
pub struct InitializeStakeEntryBumps {
    pub user_stake_entry: u8,
}

/// The accounts of a stake entry's creation.
#[derive(Clone, Copy, Debug, PartialEq, Eq)]
pub struct InitializeStakeEntry {
    /// The user who will stake.
    pub user: Pubkey,
    /// The entry's location: empty, or the entry that already stands there.
    pub user_stake_entry: Option<StakeEntry>,
    /// The account that is to receive the user's rewards.
    pub user_stake_token_account: Pubkey,
    /// The pool that the entry belongs to.
    pub pool_state: PoolState,
    /// The nonce of the derived location.
    pub bumps: InitializeStakeEntryBumps,
}

impl InitializeStakeEntry {
    /// The entry that the creation writes: nothing staked, the user and the
    /// reward destination.
    pub open spec fn new_entry(self) -> StakeEntry {
        StakeEntry {
            user: self.user,
            user_stake_token_account: self.user_stake_token_account,
            bump: self.bumps.user_stake_entry,
            balance: 0,
            last_staked: 0,
        }
    }
}

/// Creates the user's stake entry in the pool with nothing staked. Refused,
/// with no change, where an entry already stands at the location.
pub fn handler_ise(ctx: &mut InitializeStakeEntry) -> (res: Result<(), StakeError>)
    ensures
        res is Err <==> old(ctx).user_stake_entry is Some,
        res matches Err(e) ==> e == StakeError::AlreadyInitialized && *final(ctx) == *old(ctx),
        res is Ok ==> *final(ctx) == (InitializeStakeEntry {
            user_stake_entry: Some(old(ctx).new_entry()),
            ..*old(ctx)
        }),
{
    if ctx.user_stake_entry.is_some() {
        return Err(StakeError::AlreadyInitialized);
    }
    // initialize user stake entry state
    let user_entry = StakeEntry {
        user: ctx.user,
        user_stake_token_account: ctx.user_stake_token_account,
        bump: ctx.bumps.user_stake_entry,
        balance: 0,
        last_staked: 0,
    };
    ctx.user_stake_entry = Some(user_entry);

    Ok(())
}

} // verus!
