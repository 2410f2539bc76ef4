use crate::address::Address;
use vstd::prelude::*;

verus! {

/// Lifecycle of a project. The only transition is `Created` to `Accepted`.
#[derive(Clone, Copy, Debug, PartialEq, Eq, Hash, Structural)]
pub enum ProjectStatus {
    Created,
    Accepted,
}

/// Lifecycle of a milestone. The only transition is `Pending` to `Released`.
#[derive(Clone, Copy, Debug, PartialEq, Eq, Hash, Structural)]
pub enum MilestoneStatus {
    Pending,
    Released,
}

/// Why an operation was refused. A refused operation changes nothing.
#[derive(Clone, Copy, Debug, PartialEq, Eq, Hash, Structural)]
pub enum ErrorCode {
    ProjectAlreadyAccepted,
    Unauthorized,
    ProjectNotAccepted,
    MilestoneAlreadyReleased,
    InvalidFreelancer,
}

impl ErrorCode {
    /// The text shown to a caller for each refusal.
    pub open spec fn text(self) -> Seq<char> {
        match self {
            ErrorCode::ProjectAlreadyAccepted => "Project has already been accepted."@,
            ErrorCode::Unauthorized => "Unauthorized access."@,
            ErrorCode::ProjectNotAccepted => "Project has not been accepted yet."@,
            ErrorCode::MilestoneAlreadyReleased => "Milestone has already been released."@,
            ErrorCode::InvalidFreelancer => "Invalid freelancer specified."@,
        }
    }

    pub fn message(&self) -> (text: &'static str)
        ensures
            text@ == self.text(),
    {
        match self {
            ErrorCode::ProjectAlreadyAccepted => "Project has already been accepted.",
            ErrorCode::Unauthorized => "Unauthorized access.",
            ErrorCode::ProjectNotAccepted => "Project has not been accepted yet.",
            ErrorCode::MilestoneAlreadyReleased => "Milestone has already been released.",
            ErrorCode::InvalidFreelancer => "Invalid freelancer specified.",
        }
    }
}

/// The escrow record that ties one client to at most one freelancer.
#[derive(Clone, Debug, PartialEq, Eq)]
pub struct Project {
    /// The owner: the identity that opened the project and funds it.
    pub client: Address,
    /// The assignee: absent until the project is accepted, then fixed.
    pub freelancer: Option<Address>,
    pub status: ProjectStatus,
    /// The label the client chose; stored as given.
    pub project_id: String,
}

impl Project {
    /// A project has an assignee exactly when it has been accepted.
    pub open spec fn wf(self) -> bool {
        (self.status == ProjectStatus::Accepted) == self.freelancer.is_some()
    }

    /// The record as it stands right after the client opened the project.
    pub open spec fn created(client: Address, project_id: String) -> Project {
        Project { client, freelancer: None, status: ProjectStatus::Created, project_id }
    }

    /// The record after `freelancer` accepted it; owner and label stay.
    pub open spec fn accepted_by(self, freelancer: Address) -> Project {
        Project { freelancer: Some(freelancer), status: ProjectStatus::Accepted, ..self }
    }

    /// Why `caller` may not add a milestone, or `None` if they may.
    pub open spec fn funding_refusal(self, caller: Address) -> Option<ErrorCode> {
        if self.client != caller {
            Some(ErrorCode::Unauthorized)
        } else {
            None
        }
    }

    /// Why the project cannot be accepted, or `None` if it can.
    pub open spec fn acceptance_refusal(self) -> Option<ErrorCode> {
        if self.status != ProjectStatus::Created {
            Some(ErrorCode::ProjectAlreadyAccepted)
        } else {
            None
        }
    }
}

/// A fixed-amount payment tranche of one project.
#[derive(Clone, Copy, Debug, PartialEq, Eq)]
pub struct Milestone {
    /// The address of the project this milestone belongs to.
    pub project: Address,
    pub milestone_id: u8,
    /// What was deposited for the milestone and what its release pays out.
    pub amount: u64,
    pub status: MilestoneStatus,
}

impl Milestone {
    /// The record of a milestone that was just funded.
    pub open spec fn pending(project: Address, milestone_id: u8, amount: u64) -> Milestone {
        Milestone { project, milestone_id, amount, status: MilestoneStatus::Pending }
    }

    /// The record after its funds were released; nothing else changes.
    pub open spec fn released(self) -> Milestone {
        Milestone { status: MilestoneStatus::Released, ..self }
    }

    /// Why `caller` may not release this milestone of the project stored at
    /// `project_address` to a token account owned by `destination_owner`, or
    /// `None` if they may. The checks run in this order and the first that
    /// fails decides.
    pub open spec fn release_refusal(
        self,
        project_address: Address,
        project: Project,
        caller: Address,
        destination_owner: Address,
    ) -> Option<ErrorCode> {
        if project.client != caller {
            Some(ErrorCode::Unauthorized)
        } else if self.project != project_address {
            Some(ErrorCode::Unauthorized)
        } else if project.status != ProjectStatus::Accepted {
            Some(ErrorCode::ProjectNotAccepted)
        } else if self.status != MilestoneStatus::Pending {
            Some(ErrorCode::MilestoneAlreadyReleased)
        } else if project.freelancer != Some(destination_owner) {
            Some(ErrorCode::InvalidFreelancer)
        } else {
            None
        }
    }
}

} // verus!
