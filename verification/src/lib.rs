pub mod accounts;
pub mod address;
pub mod derivation;
pub mod instructions;
pub mod laws;
pub mod ledger;
pub mod state;
pub mod transfer;

pub use accounts::{
    AcceptProject, Account, AddMilestone, InitializeProject, ReleaseFunds, TokenAccount,
};
pub use address::Address;
pub use instructions::{accept_project, add_milestone, initialize_project, release_funds};
pub use state::{ErrorCode, Milestone, MilestoneStatus, Project, ProjectStatus};
pub use transfer::{Authority, Transfer};
