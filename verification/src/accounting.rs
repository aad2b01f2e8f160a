//! The books of a pool: its total against the balances of its stake entries,
//! and what a deposit followed by a withdrawal comes to.

use crate::instructions::init_pool::InitializePool;
use crate::instructions::init_stake_entry::InitializeStakeEntry;
use crate::instructions::stake::Stake;
use crate::instructions::unstake::Unstake;
use crate::state::{PoolState, StakeEntry, REWARD_MULTIPLIER};
use vstd::prelude::*;

verus! {

/// The sum of the balances of `entries`.
pub open spec fn total_balance(entries: Seq<StakeEntry>) -> int
    decreases entries.len(),
{
    if entries.len() == 0 {
        0
    } else {
        total_balance(entries.drop_last()) + entries.last().balance
    }
}

/// The pool's total is the sum of the balances of `entries`, the stake
/// entries that belong to it.
pub open spec fn balanced(pool: PoolState, entries: Seq<StakeEntry>) -> bool {
    pool.amount == total_balance(entries)
}

/// Replacing one entry changes the sum by the difference of the two balances.
proof fn lemma_total_after_update(entries: Seq<StakeEntry>, i: int, entry: StakeEntry)
    requires
        0 <= i < entries.len(),
    ensures
        total_balance(entries.update(i, entry)) == total_balance(entries) - entries[i].balance
            + entry.balance,
    decreases entries.len(),
{
    let updated = entries.update(i, entry);
    if i == entries.len() - 1 {
        assert(updated.drop_last() =~= entries.drop_last());
    } else {
        assert(updated.drop_last() =~= entries.drop_last().update(i, entry));
        lemma_total_after_update(entries.drop_last(), i, entry);
    }
}

/// A sum of balances is not negative.
proof fn lemma_total_not_negative(entries: Seq<StakeEntry>)
    ensures
        0 <= total_balance(entries),
    decreases entries.len(),
{
    if entries.len() > 0 {
        lemma_total_not_negative(entries.drop_last());
    }
}

/// No balance is above the sum of all of them.
proof fn lemma_balance_within_sum(entries: Seq<StakeEntry>, i: int)
    requires
        0 <= i < entries.len(),
    ensures
        0 <= entries[i].balance <= total_balance(entries),
    decreases entries.len(),
{
    if i == entries.len() - 1 {
        lemma_total_not_negative(entries.drop_last());
    } else {
        lemma_balance_within_sum(entries.drop_last(), i);
    }
}

/// The balances of the first `n` entries sum to no more than all of them.
proof fn lemma_prefix_within_sum(entries: Seq<StakeEntry>, n: int)
    requires
        0 <= n <= entries.len(),
    ensures
        total_balance(entries.take(n)) <= total_balance(entries),
    decreases entries.len(),
{
    if n == entries.len() {
        assert(entries.take(n) =~= entries);
    } else {
        assert(entries.drop_last().take(n) =~= entries.take(n));
        lemma_prefix_within_sum(entries.drop_last(), n);
    }
}

/// Whether the pool's total is the sum of the balances of `entries`, the
/// stake entries that belong to it.
pub fn is_balanced(pool: &PoolState, entries: &Vec<StakeEntry>) -> (ok: bool)
    ensures
        ok == balanced(*pool, entries@),
{
    let mut sum: u64 = 0;
    let mut i: usize = 0;
    while i < entries.len()
        invariant
            i <= entries.len(),
            sum == total_balance(entries@.take(i as int)),
            sum <= pool.amount,
        decreases entries.len() - i,
    {
        let balance: u64 = entries[i].balance;
        proof {
            assert(entries@.take(i + 1).drop_last() =~= entries@.take(i as int));
        }
        if balance > pool.amount - sum {
            proof {
                lemma_prefix_within_sum(entries@, i + 1);
            }
            return false;
        }
        sum = sum + balance;
        i = i + 1;
    }
    proof {
        assert(entries@.take(i as int) =~= entries@);
    }
    sum == pool.amount
}

/// A pool that was just created is balanced: it has no entries and nothing
/// is staked in it.
pub proof fn new_pool_is_balanced(ctx: InitializePool)
    ensures
        balanced(ctx.new_pool(), Seq::<StakeEntry>::empty()),
{
}

/// A new stake entry leaves its pool balanced: it joins the pool's entries
/// with nothing staked.
pub proof fn new_entry_keeps_balance(ctx: InitializeStakeEntry, entries: Seq<StakeEntry>)
    requires
        balanced(ctx.pool_state, entries),
    ensures
        balanced(ctx.pool_state, entries.push(ctx.new_entry())),
{
    assert(entries.push(ctx.new_entry()).drop_last() =~= entries);
}

/// A deposit leaves the pool balanced. `entries` are the pool's entries
/// before the deposit, the caller's at index `i`.
pub proof fn deposit_keeps_balance(
    ctx: Stake,
    entries: Seq<StakeEntry>,
    i: int,
    amount: u64,
    now: i64,
)
    requires
        0 <= i < entries.len(),
        entries[i] == ctx.user_stake_entry,
        balanced(ctx.pool_state, entries),
        ctx.refusal(amount) is None,
    ensures
        balanced(
            ctx.deposited(amount, now).pool_state,
            entries.update(i, ctx.deposited(amount, now).user_stake_entry),
        ),
{
    lemma_total_after_update(entries, i, ctx.deposited(amount, now).user_stake_entry);
}

/// A withdrawal leaves the pool balanced. `entries` are the pool's entries
/// before the withdrawal, the caller's at index `i`.
pub proof fn withdrawal_keeps_balance(ctx: Unstake, entries: Seq<StakeEntry>, i: int, now: i64)
    requires
        0 <= i < entries.len(),
        entries[i] == ctx.user_stake_entry,
        balanced(ctx.pool_state, entries),
        ctx.refusal() is None,
    ensures
        balanced(
            ctx.withdrawn(now).pool_state,
            entries.update(i, ctx.withdrawn(now).user_stake_entry),
        ),
{
    lemma_total_after_update(entries, i, ctx.withdrawn(now).user_stake_entry);
}

/// In a balanced pool no entry's balance is negative or above the pool's
/// total.
pub proof fn balance_within_total(pool: PoolState, entries: Seq<StakeEntry>, i: int)
    requires
        0 <= i < entries.len(),
        balanced(pool, entries),
    ensures
        0 <= entries[i].balance <= pool.amount,
{
    lemma_balance_within_sum(entries, i);
}

/// A deposit of `amount` followed by a withdrawal on the records that the
/// deposit left: the balance is zero again, the pool's total is what it was
/// without the entry, and the reward is ten times all that was staked, which
/// is ten times `amount` where nothing was staked before.
pub proof fn deposit_then_withdrawal(deposit: Stake, amount: u64, then: i64, withdrawal: Unstake, now: i64)
    requires
        deposit.refusal(amount) is None,
        withdrawal.pool_state == deposit.deposited(amount, then).pool_state,
        withdrawal.user_stake_entry == deposit.deposited(amount, then).user_stake_entry,
        withdrawal.refusal() is None,
    ensures
        withdrawal.amount() == deposit.user_stake_entry.balance + amount,
        withdrawal.reward() == REWARD_MULTIPLIER * (deposit.user_stake_entry.balance + amount),
        deposit.user_stake_entry.balance == 0 ==> withdrawal.amount() == amount
            && withdrawal.reward() == amount * 10,
        withdrawal.withdrawn(now).user_stake_entry.balance == 0,
        withdrawal.withdrawn(now).pool_state.amount == deposit.pool_state.amount
            - deposit.user_stake_entry.balance,
{
}

/// With nothing staked and every account in place, a withdrawal is admitted
/// and asks for a transfer of zero and a mint of zero.
pub proof fn empty_withdrawal_is_admitted(ctx: Unstake)
    requires
        ctx.mismatch() is None,
        ctx.user_stake_entry.balance == 0,
    ensures
        ctx.refusal() is None,
        ctx.amount() == 0,
        ctx.reward() == 0,
{
}

} // verus!
