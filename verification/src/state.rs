//! The records of the ledger and the identities they name.

use solana_program::pubkey::Pubkey;
use vstd::prelude::*;

verus! {

/// `solana_program::pubkey::Pubkey`, an identity on the chain. Its bytes are
/// hidden from the verifier: the ledger only carries keys and compares them.
#[verifier::external_type_specification]
#[verifier::external_body]
pub struct ExPubkey(Pubkey);

/// `<Pubkey as PartialEq>::eq`, which the outside crate derives over the 32
/// bytes of the key: it answers whether the two keys are the same identity.
pub assume_specification[ <Pubkey as PartialEq>::eq ](a: &Pubkey, b: &Pubkey) -> (same: bool)
    ensures
        same == (*a == *b),
;

/// Seed of a pool record's location.
pub const STAKE_POOL_STATE_SEED: &'static str = "state";

/// Seed of a vault's location.
pub const VAULT_SEED: &'static str = "vault";

/// Seed of the vault authority, the keyless identity that controls every vault.
pub const VAULT_AUTH_SEED: &'static str = "vault_authority";

/// Seed of a stake entry's location.
pub const STAKE_ENTRY_SEED: &'static str = "stake_entry";

/// Reward tokens minted for each staked token that is withdrawn.
pub const REWARD_MULTIPLIER: u64 = 10;

/// The aggregate record of one staked token.
#[derive(Clone, Copy, Debug, PartialEq, Eq)]
pub struct PoolState {
    /// Nonce of the pool record's own location.
    pub bump: u8,
    /// Total staked: the sum of the balances of the pool's stake entries.
    pub amount: u64,
    /// The staked token.
    pub token_mint: Pubkey,
    /// The reward token.
    pub staking_token_mint: Pubkey,
    /// Nonce of the reward token's location.
    pub staking_token_mint_bump: u8,
    /// Nonce of the vault's location.
    pub vault_bump: u8,
    /// Nonce of the vault authority's location.
    pub vault_auth_bump: u8,
    /// The keyless authority that controls the vault.
    pub vault_authority: Pubkey,
}

/// What one user has staked in one pool.
#[derive(Clone, Copy, Debug, PartialEq, Eq)]
pub struct StakeEntry {
    /// The staking user.
    pub user: Pubkey,
    /// The account that receives the minted rewards.
    pub user_stake_token_account: Pubkey,
    /// Nonce of the entry's own location.
    pub bump: u8,
    /// The amount currently staked.
    pub balance: u64,
    /// Time of the latest deposit or withdrawal.
    pub last_staked: i64,
}

/// A token type as its descriptor shows it.
#[derive(Clone, Copy, Debug, PartialEq, Eq)]
pub struct Mint {
    /// The identifier of the token type.
    pub key: Pubkey,
    /// Who may mint it, if anyone.
    pub mint_authority: Option<Pubkey>,
    /// Decimal places of an amount.
    pub decimals: u8,
    /// The token program that runs it.
    pub token_program: Pubkey,
}

/// An account of the token ledger that holds one token type.
#[derive(Clone, Copy, Debug, PartialEq, Eq)]
pub struct TokenAccount {
    /// The account's own identity.
    pub key: Pubkey,
    /// The token type it holds.
    pub mint: Pubkey,
    /// Who controls it.
    pub owner: Pubkey,
}

} // verus!
