//! What the ledger asks of the token ledger: the accounts of a transfer or a
//! mint, the program to call and the seeds that sign for a derived authority.

use crate::state::VAULT_AUTH_SEED;
use solana_program::pubkey::Pubkey;
use vstd::prelude::*;
use vstd::string::*;

verus! {

/// The accounts of a checked transfer.
#[derive(Clone, Copy, Debug, PartialEq, Eq)]
pub struct TransferChecked {
    pub from: Pubkey,
    pub mint: Pubkey,
    pub to: Pubkey,
    pub authority: Pubkey,
}

/// The accounts of a mint.
#[derive(Clone, Copy, Debug, PartialEq, Eq)]
pub struct MintTo {
    pub mint: Pubkey,
    pub to: Pubkey,
    pub authority: Pubkey,
}

/// One call into the token program: its accounts, the program, and the seeds
/// of the derived authority that signs (none where the authority signs itself).
#[derive(Debug, PartialEq, Eq)]
pub struct CpiContext<T> {
    pub accounts: T,
    pub program: Pubkey,
    pub signer_seeds: Vec<Vec<u8>>,
}

/// The seeds held in a vector, as a sequence of byte sequences.
pub open spec fn seeds_of(seeds: Vec<Vec<u8>>) -> Seq<Seq<u8>> {
    seeds@.map_values(|s: Vec<u8>| s@)
}

/// The seeds that sign for the vault authority: its fixed seed and its nonce.
pub open spec fn vault_authority_seeds(bump: u8) -> Seq<Seq<u8>> {
    seq![VAULT_AUTH_SEED.spec_bytes(), seq![bump]]
}

impl<T> CpiContext<T> {
    /// The signer seeds as a sequence of byte sequences.
    pub open spec fn seeds(self) -> Seq<Seq<u8>> {
        seeds_of(self.signer_seeds)
    }

    /// A call that the authority among `accounts` signs itself.
    pub fn new(program: Pubkey, accounts: T) -> (cpi: Self)
        ensures
            cpi.program == program,
            cpi.accounts == accounts,
            cpi.seeds() == Seq::<Seq<u8>>::empty(),
    {
        let cpi = CpiContext { accounts, program, signer_seeds: Vec::new() };
        assert(cpi.seeds() =~= Seq::<Seq<u8>>::empty());
        cpi
    }

    /// A call signed for a derived authority by `signer_seeds`.
    pub fn new_with_signer(program: Pubkey, accounts: T, signer_seeds: Vec<Vec<u8>>) -> (cpi: Self)
        ensures
            cpi.program == program,
            cpi.accounts == accounts,
            cpi.seeds() == seeds_of(signer_seeds),
    {
        CpiContext { accounts, program, signer_seeds }
    }
}

/// Builds the seeds that sign for the vault authority.
pub fn vault_authority_signer(bump: u8) -> (seeds: Vec<Vec<u8>>)
    ensures
        seeds_of(seeds) == vault_authority_seeds(bump),
{
    let mut nonce: Vec<u8> = Vec::new();
    nonce.push(bump);
    let mut seeds: Vec<Vec<u8>> = Vec::new();
    seeds.push(VAULT_AUTH_SEED.as_bytes_vec());
    seeds.push(nonce);
    assert(seeds_of(seeds) =~= vault_authority_seeds(bump));
    seeds
}

} // verus!
