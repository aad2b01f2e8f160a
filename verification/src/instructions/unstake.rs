//! Withdrawal: the user takes back the whole staked balance and is minted
//! the reward for it.

use crate::errors::StakeError;
use crate::state::{Mint, PoolState, StakeEntry, TokenAccount, REWARD_MULTIPLIER};
use crate::token_ledger::{
    seeds_of, vault_authority_seeds, vault_authority_signer, CpiContext, MintTo, TransferChecked,
};
use solana_program::pubkey::Pubkey;
use vstd::prelude::*;

verus! {

/// The accounts of a withdrawal.
#[derive(Clone, Copy, Debug, PartialEq, Eq)]
pub struct Unstake {
    /// The pool withdrawn from.
    pub pool_state: PoolState,
    /// The staked token, as supplied.
    pub token_mint: Mint,
    /// The vault authority.
    pub pool_authority: Pubkey,
    /// The pool's vault.
    pub token_vault: TokenAccount,
    /// The caller.
    pub user: Pubkey,
    /// The caller's account of the staked token, which takes the tokens back.
    pub user_token_account: TokenAccount,
    /// The caller's stake entry.
    pub user_stake_entry: StakeEntry,
    /// The reward token, as supplied.
    pub staking_token_mint: Mint,
    /// The account that is to receive the reward.
    pub user_stake_token_account: TokenAccount,
    /// The token program that carries out the transfer and the mint.
    pub token_program: Pubkey,
}

/// What the host reports to a withdrawal.
#[derive(Clone, Copy, Debug, PartialEq, Eq, Structural)]
pub enum UnstakeEvent {
    /// The withdrawal is asked for; the token ledger has done nothing yet.
    Requested,
    /// The token ledger carried out the transfer.
    Transferred,
    /// The token ledger carried out the transfer and then the mint.
    Minted,
    /// The token ledger refused the transfer or the mint.
    Rejected,
}

/// What a withdrawal asks of the host next.
#[derive(Debug, PartialEq, Eq)]
#[allow(inconsistent_fields)]
pub enum UnstakeAction {
    /// Transfer `amount` of the staked token from the vault to the caller.
    Transfer { accounts: CpiContext<TransferChecked>, amount: u64, decimals: u8 },
    /// Mint `amount` of the reward token to the reward destination.
    MintTo { accounts: CpiContext<MintTo>, amount: u64 },
    /// Nothing more: the records are updated and may be stored.
    Done,
}

impl Unstake {
    /// The amount withdrawn: the whole balance of the entry.
    pub open spec fn amount(self) -> u64 {
        self.user_stake_entry.balance
    }

    /// The reward for the withdrawal, as a mathematical integer.
    pub open spec fn reward(self) -> int {
        self.user_stake_entry.balance * REWARD_MULTIPLIER
    }

    /// The entry claims no more than the pool holds.
    pub open spec fn solvent(self) -> bool {
        self.user_stake_entry.balance <= self.pool_state.amount
    }

    /// Which supplied account is not the one the records name, if any: the
    /// caller, the staked token, the reward token or the reward destination,
    /// looked at in this order.
    pub open spec fn mismatch(self) -> Option<StakeError> {
        if self.user != self.user_stake_entry.user {
            Some(StakeError::InvalidAuthorization)
        } else if self.token_mint.key != self.pool_state.token_mint
            || self.user_token_account.mint != self.pool_state.token_mint {
            Some(StakeError::InvalidTokenType)
        } else if self.staking_token_mint.key != self.pool_state.staking_token_mint {
            Some(StakeError::InvalidTokenType)
        } else if self.user_stake_token_account.key
            != self.user_stake_entry.user_stake_token_account {
            Some(StakeError::InvalidAuthorization)
        } else {
            None
        }
    }

    /// Why these accounts admit no withdrawal, if they do not: a mismatch,
    /// or else a balance above the pool's total, or else a reward that
    /// overflows.
    pub open spec fn refusal(self) -> Option<StakeError> {
        if self.mismatch() is Some {
            self.mismatch()
        } else if !self.solvent() {
            Some(StakeError::OverdrawError)
        } else if self.reward() > u64::MAX {
            Some(StakeError::ArithmeticOverflow)
        } else {
            None
        }
    }

    /// Why a step of the withdrawal fails, if it does: the accounts admit
    /// none, or else the token ledger refused.
    pub open spec fn failure(self, event: UnstakeEvent) -> Option<StakeError> {
        if self.refusal() is Some {
            self.refusal()
        } else if event == UnstakeEvent::Rejected {
            Some(StakeError::ExternalTransferFailure)
        } else {
            None
        }
    }

    /// The accounts of the transfer back to the caller.
    pub open spec fn transfer_accounts(self) -> TransferChecked {
        TransferChecked {
            from: self.token_vault.key,
            mint: self.token_mint.key,
            to: self.user_token_account.key,
            authority: self.pool_authority,
        }
    }

    /// The accounts of the mint of the reward.
    pub open spec fn mint_accounts(self) -> MintTo {
        MintTo {
            mint: self.staking_token_mint.key,
            to: self.user_stake_token_account.key,
            authority: self.pool_authority,
        }
    }

    /// `action` asks for the transfer of the whole balance, signed for the
    /// vault authority.
    pub open spec fn asks_transfer(self, action: UnstakeAction) -> bool {
        &&& action matches UnstakeAction::Transfer { accounts, amount, decimals }
        &&& accounts.program == self.token_program
        &&& accounts.accounts == self.transfer_accounts()
        &&& accounts.seeds() == vault_authority_seeds(self.pool_state.vault_auth_bump)
        &&& amount == self.amount()
        &&& decimals == self.token_mint.decimals
    }

    /// `action` asks for the mint of the reward, signed for the vault
    /// authority.
    pub open spec fn asks_mint(self, action: UnstakeAction) -> bool {
        &&& action matches UnstakeAction::MintTo { accounts, amount }
        &&& accounts.program == self.token_program
        &&& accounts.accounts == self.mint_accounts()
        &&& accounts.seeds() == vault_authority_seeds(self.pool_state.vault_auth_bump)
        &&& amount == self.reward()
    }

    /// The accounts after the withdrawal at time `now`: the pool is lowered
    /// by the balance, the balance is zero, the time is recorded.
    pub open spec fn withdrawn(self, now: i64) -> Unstake {
        Unstake {
            pool_state: PoolState {
                amount: (self.pool_state.amount - self.user_stake_entry.balance) as u64,
                ..self.pool_state
            },
            user_stake_entry: StakeEntry { balance: 0, last_staked: now, ..self.user_stake_entry },
            ..self
        }
    }

    /// The transfer of the staked tokens from the vault to the caller, signed
    /// by `seeds`.
    pub fn transfer_checked_ctx(&self, seeds: Vec<Vec<u8>>) -> (cpi: CpiContext<TransferChecked>)
        ensures
            cpi.program == self.token_program,
            cpi.accounts == self.transfer_accounts(),
            cpi.seeds() == seeds_of(seeds),
    {
        let cpi_program = self.token_program;
        let cpi_accounts = TransferChecked {
            from: self.token_vault.key,
            mint: self.token_mint.key,
            to: self.user_token_account.key,
            authority: self.pool_authority,
        };
        CpiContext::new_with_signer(cpi_program, cpi_accounts, seeds)
    }

    /// The mint of the reward to the reward destination, signed by `seeds`.
    pub fn mint_to_ctx(&self, seeds: Vec<Vec<u8>>) -> (cpi: CpiContext<MintTo>)
        ensures
            cpi.program == self.token_program,
            cpi.accounts == self.mint_accounts(),
            cpi.seeds() == seeds_of(seeds),
    {
        let cpi_program = self.token_program;
        let cpi_accounts = MintTo {
            mint: self.staking_token_mint.key,
            to: self.user_stake_token_account.key,
            authority: self.pool_authority,
        };
        CpiContext::new_with_signer(cpi_program, cpi_accounts, seeds)
    }
}

/// One step of a withdrawal. The host starts with `Requested`, carries out
/// what is asked of the token ledger and reports back, until `Done`.
///
/// Every check is made before anything is asked of the token ledger, at each
/// step anew. The records change only at the last step, when the transfer and
/// the mint both stand; a step that fails leaves them as they were.
pub fn handler_u(
    ctx: &mut Unstake,
    event: UnstakeEvent,
    now: i64,
) -> (res: Result<UnstakeAction, StakeError>)
    ensures
        res is Err <==> old(ctx).failure(event) is Some,
        res matches Err(e) ==> old(ctx).failure(event) == Some(e) && *final(ctx) == *old(ctx),
        res matches Ok(action) ==> match event {
            UnstakeEvent::Requested => *final(ctx) == *old(ctx) && old(ctx).asks_transfer(action),
            UnstakeEvent::Transferred => *final(ctx) == *old(ctx) && old(ctx).asks_mint(action),
            UnstakeEvent::Minted => *final(ctx) == old(ctx).withdrawn(now) && action is Done,
            UnstakeEvent::Rejected => false,
        },
        old(ctx).solvent() ==> final(ctx).solvent(),
        old(ctx).user != old(ctx).user_stake_entry.user ==> (res matches Err(e) && e
            == StakeError::InvalidAuthorization),
        old(ctx).mismatch() is None && !old(ctx).solvent() ==> (res matches Err(e) && e
            == StakeError::OverdrawError),
{
    let amount = ctx.user_stake_entry.balance;
    let total_pool_balance = ctx.pool_state.amount;

    if ctx.user != ctx.user_stake_entry.user {
        return Err(StakeError::InvalidAuthorization);
    }
    if ctx.token_mint.key != ctx.pool_state.token_mint || ctx.user_token_account.mint
        != ctx.pool_state.token_mint {
        return Err(StakeError::InvalidTokenType);
    }
    if ctx.staking_token_mint.key != ctx.pool_state.staking_token_mint {
        return Err(StakeError::InvalidTokenType);
    }
    if ctx.user_stake_token_account.key != ctx.user_stake_entry.user_stake_token_account {
        return Err(StakeError::InvalidAuthorization);
    }
    if amount > total_pool_balance {
        return Err(StakeError::OverdrawError);
    }
    // the reward is ten times the amount withdrawn
    let stake_rewards = match amount.checked_mul(REWARD_MULTIPLIER) {
        Some(rewards) => rewards,
        None => {
            return Err(StakeError::ArithmeticOverflow);
        },
    };

    match event {
        UnstakeEvent::Rejected => Err(StakeError::ExternalTransferFailure),
        UnstakeEvent::Requested => {
            let signer = vault_authority_signer(ctx.pool_state.vault_auth_bump);
            let decimals = ctx.token_mint.decimals;
            Ok(UnstakeAction::Transfer { accounts: ctx.transfer_checked_ctx(signer), amount, decimals })
        },
        UnstakeEvent::Transferred => {
            let signer = vault_authority_signer(ctx.pool_state.vault_auth_bump);
            Ok(UnstakeAction::MintTo { accounts: ctx.mint_to_ctx(signer), amount: stake_rewards })
        },
        UnstakeEvent::Minted => {
            let pool_amount = match ctx.pool_state.amount.checked_sub(amount) {
                Some(left) => left,
                None => {
                    return Err(StakeError::ArithmeticUnderflow);
                },
            };
            let balance = match ctx.user_stake_entry.balance.checked_sub(amount) {
                Some(left) => left,
                None => {
                    return Err(StakeError::ArithmeticUnderflow);
                },
            };
            ctx.pool_state.amount = pool_amount;
            ctx.user_stake_entry.balance = balance;
            ctx.user_stake_entry.last_staked = now;
            Ok(UnstakeAction::Done)
        },
    }
}

} // verus!
