use crate::address::Address;
use crate::derivation::{
    derived_at, derived_at_with_bump, found_at, found_at_with_bump, found_is_derived,
    milestone_address, milestone_seeds, project_address, project_seeds, vault_authority_address,
    vault_authority_seeds, vault_token_address, vault_token_seeds,
};
use crate::state::{ErrorCode, Milestone, Project};
use crate::transfer::{Authority, Transfer};
use vstd::prelude::*;

verus! {

/// A stored record together with the address it is stored at.
#[derive(Clone, Debug, PartialEq, Eq)]
pub struct Account<T> {
    pub address: Address,
    pub data: T,
}

/// What the escrow reads of a token holding account: where it is, which
/// token it holds and who may move its funds.
#[derive(Clone, Copy, Debug, PartialEq, Eq)]
pub struct TokenAccount {
    pub address: Address,
    pub mint: Address,
    pub owner: Address,
}

/// The accounts of `initialize_project`.
#[derive(Clone, Debug, PartialEq, Eq)]
pub struct InitializeProject {
    /// The signer, who becomes the project's owner.
    pub client: Address,
    /// The record to fill, at the address derived from the client.
    pub project: Account<Project>,
    /// The vault to set up for the project.
    pub vault_token_account: TokenAccount,
    /// The derived authority that will control the vault.
    pub vault_authority: Address,
    /// The token in which the project is paid.
    pub mint: Address,
}

impl InitializeProject {
    /// The accounts after the project was opened under the label
    /// `project_id`: the record is new, and the vault holds the project's
    /// token under the control of the vault authority.
    pub open spec fn opened(self, project_id: String) -> InitializeProject {
        InitializeProject {
            project: Account {
                address: self.project.address,
                data: Project::created(self.client, project_id),
            },
            vault_token_account: TokenAccount {
                address: self.vault_token_account.address,
                mint: self.mint,
                owner: self.vault_authority,
            },
            ..self
        }
    }

    /// Whether project, vault and vault authority stand at the addresses
    /// derived for them under `program_id`: the project's from the client,
    /// the other two from the project's.
    pub open spec fn well_addressed(self, program_id: Address) -> bool {
        &&& derived_at(project_seeds(self.client), program_id, self.project.address)
        &&& derived_at(
            vault_token_seeds(self.project.address),
            program_id,
            self.vault_token_account.address,
        )
        &&& derived_at(
            vault_authority_seeds(self.project.address),
            program_id,
            self.vault_authority,
        )
    }

    /// Derives the three addresses anew and compares.
    pub fn check_addresses(&self, program_id: &Address) -> (ok: bool)
        ensures
            ok == self.well_addressed(*program_id),
    {
        let project = project_address(&self.client, program_id);
        let vault = vault_token_address(&self.project.address, program_id);
        let authority = vault_authority_address(&self.project.address, program_id);
        proof {
            found_is_derived(
                project,
                project_seeds(self.client),
                *program_id,
                self.project.address,
                0,
            );
            found_is_derived(
                vault,
                vault_token_seeds(self.project.address),
                *program_id,
                self.vault_token_account.address,
                0,
            );
            found_is_derived(
                authority,
                vault_authority_seeds(self.project.address),
                *program_id,
                self.vault_authority,
                0,
            );
        }
        found_at(&project, &self.project.address) && found_at(
            &vault,
            &self.vault_token_account.address,
        ) && found_at(&authority, &self.vault_authority)
    }
}

/// The accounts of `add_milestone`.
#[derive(Clone, Debug, PartialEq, Eq)]
pub struct AddMilestone {
    /// The signer, who pays for the milestone.
    pub client: Address,
    pub project: Account<Project>,
    /// The record to fill, at the address derived from project and number.
    pub milestone: Account<Milestone>,
    /// Where the deposit comes from.
    pub client_token_account: TokenAccount,
    /// The project's vault, where the deposit goes.
    pub vault_token_account: TokenAccount,
}

impl AddMilestone {
    /// Why the milestone cannot be added, or `None` if it can.
    pub open spec fn refusal(self) -> Option<ErrorCode> {
        self.project.data.funding_refusal(self.client)
    }

    /// The accounts after the milestone was recorded as pending.
    pub open spec fn funded(self, milestone_id: u8, amount: u64) -> AddMilestone {
        AddMilestone {
            milestone: Account {
                address: self.milestone.address,
                data: Milestone::pending(self.project.address, milestone_id, amount),
            },
            ..self
        }
    }

    /// The deposit: from the client's holding account into the vault, signed
    /// by the client.
    pub open spec fn deposit(self, amount: u64) -> Transfer {
        Transfer {
            from: self.client_token_account.address,
            to: self.vault_token_account.address,
            authority: Authority::Signer(self.client),
            amount,
        }
    }

    /// Whether the milestone numbered `milestone_id` and the vault stand at
    /// the addresses derived for them from the project's address.
    pub open spec fn well_addressed(self, program_id: Address, milestone_id: u8) -> bool {
        &&& derived_at(
            milestone_seeds(self.project.address, milestone_id),
            program_id,
            self.milestone.address,
        )
        &&& derived_at(
            vault_token_seeds(self.project.address),
            program_id,
            self.vault_token_account.address,
        )
    }

    /// Derives the two addresses anew and compares.
    pub fn check_addresses(&self, program_id: &Address, milestone_id: u8) -> (ok: bool)
        ensures
            ok == self.well_addressed(*program_id, milestone_id),
    {
        let milestone = milestone_address(&self.project.address, milestone_id, program_id);
        let vault = vault_token_address(&self.project.address, program_id);
        proof {
            found_is_derived(
                milestone,
                milestone_seeds(self.project.address, milestone_id),
                *program_id,
                self.milestone.address,
                0,
            );
            found_is_derived(
                vault,
                vault_token_seeds(self.project.address),
                *program_id,
                self.vault_token_account.address,
                0,
            );
        }
        found_at(&milestone, &self.milestone.address) && found_at(
            &vault,
            &self.vault_token_account.address,
        )
    }
}

/// The accounts of `accept_project`.
#[derive(Clone, Debug, PartialEq, Eq)]
pub struct AcceptProject {
    /// The signer, who takes the project on.
    pub freelancer: Address,
    pub project: Account<Project>,
}

impl AcceptProject {
    /// Why the project cannot be accepted, or `None` if it can.
    pub open spec fn refusal(self) -> Option<ErrorCode> {
        self.project.data.acceptance_refusal()
    }

    /// The accounts after the signer accepted the project.
    pub open spec fn accepted(self) -> AcceptProject {
        AcceptProject {
            project: Account {
                address: self.project.address,
                data: self.project.data.accepted_by(self.freelancer),
            },
            ..self
        }
    }
}

/// The accounts of `release_funds`.
#[derive(Clone, Debug, PartialEq, Eq)]
pub struct ReleaseFunds {
    /// The signer, who must own the project.
    pub client: Address,
    /// The project's vault, which pays.
    pub vault_token_account: TokenAccount,
    /// The derived authority that controls the vault.
    pub vault_authority: Address,
    /// The bump seed that was found with the vault authority's address.
    pub vault_authority_bump: u8,
    pub project: Account<Project>,
    pub milestone: Account<Milestone>,
    /// Where the payment goes.
    pub freelancer_token_account: TokenAccount,
}

impl ReleaseFunds {
    /// Why the milestone cannot be released, or `None` if it can.
    pub open spec fn refusal(self) -> Option<ErrorCode> {
        self.milestone.data.release_refusal(
            self.project.address,
            self.project.data,
            self.client,
            self.freelancer_token_account.owner,
        )
    }

    /// The accounts after the milestone was marked as released.
    pub open spec fn released(self) -> ReleaseFunds {
        ReleaseFunds {
            milestone: Account {
                address: self.milestone.address,
                data: self.milestone.data.released(),
            },
            ..self
        }
    }

    /// The payment: the milestone's whole amount, from the vault to the
    /// freelancer's holding account, signed by the vault authority.
    pub open spec fn payout(self) -> Transfer {
        Transfer {
            from: self.vault_token_account.address,
            to: self.freelancer_token_account.address,
            authority: Authority::Vault {
                address: self.vault_authority,
                project: self.project.address,
                bump: self.vault_authority_bump,
            },
            amount: self.milestone.data.amount,
        }
    }

    /// Whether the vault and its authority stand at the addresses derived
    /// for them from the project's address, the authority with the bump seed
    /// that these accounts carry.
    pub open spec fn well_addressed(self, program_id: Address) -> bool {
        &&& derived_at(
            vault_token_seeds(self.project.address),
            program_id,
            self.vault_token_account.address,
        )
        &&& derived_at_with_bump(
            vault_authority_seeds(self.project.address),
            program_id,
            self.vault_authority,
            self.vault_authority_bump,
        )
    }

    /// Derives the two addresses anew and compares.
    pub fn check_addresses(&self, program_id: &Address) -> (ok: bool)
        ensures
            ok == self.well_addressed(*program_id),
    {
        let vault = vault_token_address(&self.project.address, program_id);
        let authority = vault_authority_address(&self.project.address, program_id);
        proof {
            found_is_derived(
                vault,
                vault_token_seeds(self.project.address),
                *program_id,
                self.vault_token_account.address,
                0,
            );
            found_is_derived(
                authority,
                vault_authority_seeds(self.project.address),
                *program_id,
                self.vault_authority,
                self.vault_authority_bump,
            );
        }
        found_at(&vault, &self.vault_token_account.address) && found_at_with_bump(
            &authority,
            &self.vault_authority,
            self.vault_authority_bump,
        )
    }
}

} // verus!
