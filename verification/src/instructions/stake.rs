//! Deposit: the user moves tokens into the pool's vault and the ledger
//! counts them.

use crate::errors::StakeError;
use crate::state::{Mint, PoolState, StakeEntry, TokenAccount};
use crate::token_ledger::{CpiContext, TransferChecked};
use solana_program::pubkey::Pubkey;
use vstd::prelude::*;

verus! {

/// The accounts of a deposit.
#[derive(Clone, Copy, Debug, PartialEq, Eq)]
pub struct Stake {
    /// The pool deposited into.
    pub pool_state: PoolState,
    /// The staked token, as supplied.
    pub token_mint: Mint,
    /// The vault authority.
    pub pool_authority: Pubkey,
    /// The pool's vault.
    pub token_vault: TokenAccount,
    /// The caller.
    pub user: Pubkey,
    /// The caller's account of the staked token, which the tokens leave.
    pub user_token_account: TokenAccount,
    /// The caller's stake entry.
    pub user_stake_entry: StakeEntry,
    /// The token program that carries out the transfer.
    pub token_program: Pubkey,
}

/// What the host reports to a deposit.
#[derive(Clone, Copy, Debug, PartialEq, Eq, Structural)]
pub enum StakeEvent {
    /// The deposit is asked for; the token ledger has done nothing yet.
    Requested,
    /// The token ledger carried out the transfer.
    Transferred,
    /// The token ledger refused the transfer.
    Rejected,
}

/// What a deposit asks of the host next.
#[derive(Debug, PartialEq, Eq)]
pub enum StakeAction {
    /// Transfer `amount` of the staked token from the caller to the vault.
    Transfer { accounts: CpiContext<TransferChecked>, amount: u64, decimals: u8 },
    /// Nothing more: the records are updated and may be stored.
    Done,
}

impl Stake {
    /// The entry claims no more than the pool holds.
    pub open spec fn solvent(self) -> bool {
        self.user_stake_entry.balance <= self.pool_state.amount
    }

    /// Which supplied account is not the one the records name, if any: the
    /// caller or the staked token, looked at in this order.
    pub open spec fn mismatch(self) -> Option<StakeError> {
        if self.user != self.user_stake_entry.user {
            Some(StakeError::InvalidAuthorization)
        } else if self.token_mint.key != self.pool_state.token_mint
            || self.user_token_account.mint != self.pool_state.token_mint {
            Some(StakeError::InvalidTokenType)
        } else {
            None
        }
    }

    /// Why these accounts admit no deposit of `amount`, if they do not: a
    /// mismatch, or else a total or a balance that would overflow.
    pub open spec fn refusal(self, amount: u64) -> Option<StakeError> {
        if self.mismatch() is Some {
            self.mismatch()
        } else if self.pool_state.amount + amount > u64::MAX
            || self.user_stake_entry.balance + amount > u64::MAX {
            Some(StakeError::ArithmeticOverflow)
        } else {
            None
        }
    }

    /// Why a step of the deposit fails, if it does: the accounts admit none,
    /// or else the token ledger refused.
    pub open spec fn failure(self, amount: u64, event: StakeEvent) -> Option<StakeError> {
        if self.refusal(amount) is Some {
            self.refusal(amount)
        } else if event == StakeEvent::Rejected {
            Some(StakeError::ExternalTransferFailure)
        } else {
            None
        }
    }

    /// The accounts of the transfer into the vault.
    pub open spec fn transfer_accounts(self) -> TransferChecked {
        TransferChecked {
            from: self.user_token_account.key,
            mint: self.token_mint.key,
            to: self.token_vault.key,
            authority: self.user,
        }
    }

    /// `action` asks for the transfer of `amount`, signed by the caller.
    pub open spec fn asks_transfer(self, action: StakeAction, stake_amount: u64) -> bool {
        &&& action matches StakeAction::Transfer { accounts, amount, decimals }
        &&& accounts.program == self.token_program
        &&& accounts.accounts == self.transfer_accounts()
        &&& accounts.seeds() == Seq::<Seq<u8>>::empty()
        &&& amount == stake_amount
        &&& decimals == self.token_mint.decimals
    }

    /// The accounts after the deposit of `amount` at time `now`: the pool and
    /// the balance are raised by it, the time is recorded.
    pub open spec fn deposited(self, amount: u64, now: i64) -> Stake {
        Stake {
            pool_state: PoolState {
                amount: (self.pool_state.amount + amount) as u64,
                ..self.pool_state
            },
            user_stake_entry: StakeEntry {
                balance: (self.user_stake_entry.balance + amount) as u64,
                last_staked: now,
                ..self.user_stake_entry
            },
            ..self
        }
    }

    /// The transfer of the staked tokens from the caller to the vault, which
    /// the caller signs.
    pub fn transfer_checked_ctx(&self) -> (cpi: CpiContext<TransferChecked>)
        ensures
            cpi.program == self.token_program,
            cpi.accounts == self.transfer_accounts(),
            cpi.seeds() == Seq::<Seq<u8>>::empty(),
    {
        let cpi_program = self.token_program;
        let cpi_accounts = TransferChecked {
            from: self.user_token_account.key,
            mint: self.token_mint.key,
            to: self.token_vault.key,
            authority: self.user,
        };
        CpiContext::new(cpi_program, cpi_accounts)
    }
}

/// One step of a deposit of `stake_amount`. The host starts with `Requested`,
/// carries out the transfer that is asked for and reports back, until `Done`.
///
/// Every check, that no counter overflows among them, is made before the
/// transfer is asked for, and at each step anew. The records change only at
/// the last step, when the transfer stands; a step that fails leaves them as
/// they were.
pub fn handler_s(
    ctx: &mut Stake,
    stake_amount: u64,
    event: StakeEvent,
    now: i64,
) -> (res: Result<StakeAction, StakeError>)
    ensures
        res is Err <==> old(ctx).failure(stake_amount, event) is Some,
        res matches Err(e) ==> old(ctx).failure(stake_amount, event) == Some(e)
            && *final(ctx) == *old(ctx),
        res matches Ok(action) ==> match event {
            StakeEvent::Requested => *final(ctx) == *old(ctx)
                && old(ctx).asks_transfer(action, stake_amount),
            StakeEvent::Transferred => *final(ctx) == old(ctx).deposited(stake_amount, now)
                && action is Done,
            StakeEvent::Rejected => false,
        },
        old(ctx).solvent() ==> final(ctx).solvent(),
        old(ctx).user != old(ctx).user_stake_entry.user ==> (res matches Err(e) && e
            == StakeError::InvalidAuthorization),
        old(ctx).mismatch() is None && old(ctx).pool_state.amount + stake_amount > u64::MAX
            ==> (res matches Err(e) && e == StakeError::ArithmeticOverflow),
{
    if ctx.user != ctx.user_stake_entry.user {
        return Err(StakeError::InvalidAuthorization);
    }
    if ctx.token_mint.key != ctx.pool_state.token_mint || ctx.user_token_account.mint
        != ctx.pool_state.token_mint {
        return Err(StakeError::InvalidTokenType);
    }
    let pool_amount = match ctx.pool_state.amount.checked_add(stake_amount) {
        Some(total) => total,
        None => {
            return Err(StakeError::ArithmeticOverflow);
        },
    };
    let balance = match ctx.user_stake_entry.balance.checked_add(stake_amount) {
        Some(total) => total,
        None => {
            return Err(StakeError::ArithmeticOverflow);
        },
    };

    match event {
        StakeEvent::Rejected => Err(StakeError::ExternalTransferFailure),
        StakeEvent::Requested => {
            let decimals = ctx.token_mint.decimals;
            Ok(
                StakeAction::Transfer {
                    accounts: ctx.transfer_checked_ctx(),
                    amount: stake_amount,
                    decimals,
                },
            )
        },
        StakeEvent::Transferred => {
            ctx.pool_state.amount = pool_amount;
            ctx.user_stake_entry.balance = balance;
            ctx.user_stake_entry.last_staked = now;
            Ok(StakeAction::Done)
        },
    }
}

} // verus!
