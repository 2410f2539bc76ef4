use crate::address::Address;
use crate::derivation::{build_vault_signer_seeds, vault_signer_seeds};
use vstd::prelude::*;

verus! {

/// Who authorises a transfer.
#[derive(Clone, Copy, Debug, PartialEq, Eq)]
pub enum Authority {
    /// The holder of the funds, by its own signature.
    Signer(Address),
    /// The vault authority of `project`, which has no key: it signs with the
    /// seeds of its address and the bump seed found with them.
    Vault { address: Address, project: Address, bump: u8 },
}

impl Authority {
    pub open spec fn spec_address(self) -> Address {
        match self {
            Authority::Signer(address) => address,
            Authority::Vault { address, .. } => address,
        }
    }

    /// The seeds this authority signs with; none where it signs by key.
    pub open spec fn spec_signer_seeds(self) -> Seq<Seq<u8>> {
        match self {
            Authority::Signer(_) => Seq::empty(),
            Authority::Vault { project, bump, .. } => vault_signer_seeds(project, bump),
        }
    }

    /// The address that stands as the authority of the transfer.
    pub fn address(&self) -> (address: Address)
        ensures
            address == self.spec_address(),
    {
        match self {
            Authority::Signer(address) => *address,
            Authority::Vault { address, .. } => *address,
        }
    }

    /// The seeds to sign with, byte for byte; empty for a signer by key.
    pub fn signer_seeds(&self) -> (seeds: Vec<Vec<u8>>)
        ensures
            seeds.deep_view() == self.spec_signer_seeds(),
    {
        match self {
            Authority::Signer(_) => {
                let seeds: Vec<Vec<u8>> = Vec::new();
                assert(seeds.deep_view() =~~= Seq::<Seq<u8>>::empty());
                seeds
            },
            Authority::Vault { project, bump, .. } => build_vault_signer_seeds(project, *bump),
        }
    }
}

/// A request to move `amount` of the token from one holding account to
/// another. The escrow only asks; the token ledger carries it out, and an
/// operation counts only if its transfer went through.
#[derive(Clone, Copy, Debug, PartialEq, Eq)]
pub struct Transfer {
    pub from: Address,
    pub to: Address,
    pub authority: Authority,
    pub amount: u64,
}

} // verus!
