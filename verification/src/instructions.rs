use crate::accounts::{AcceptProject, AddMilestone, InitializeProject, ReleaseFunds};
use crate::state::{ErrorCode, MilestoneStatus, ProjectStatus};
use crate::transfer::{Authority, Transfer};
use vstd::prelude::*;

verus! {

/// Releases one milestone: marks it as released and asks for its whole
/// amount to be paid from the vault to the freelancer's holding account.
///
/// The caller must own the project, the milestone must belong to it, the
/// project must be accepted, the milestone still pending, and the
/// destination must be owned by the accepted freelancer; the first of these
/// that fails decides the refusal, and nothing changes. The milestone is
/// marked before the payment is asked for, so that a repeated call cannot
/// ask twice. The payment itself is the caller's to carry out: a release
/// counts only if it went through.
pub fn release_funds(ctx: &mut ReleaseFunds) -> (r: Result<Transfer, ErrorCode>)
    ensures
        match old(ctx).refusal() {
            Some(e) => r == Err::<Transfer, ErrorCode>(e),
            None => r == Ok::<Transfer, ErrorCode>(old(ctx).payout())
                && *final(ctx) == old(ctx).released(),
        },
        r is Err ==> *final(ctx) == *old(ctx),
        // A caller who is not the owner, or a milestone of another project:
        old(ctx).client != old(ctx).project.data.client
            || old(ctx).milestone.data.project != old(ctx).project.address
            ==> r == Err::<Transfer, ErrorCode>(ErrorCode::Unauthorized),
        // A destination that the accepted freelancer does not own:
        old(ctx).project.data.freelancer != Some(old(ctx).freelancer_token_account.owner)
            ==> r is Err,
        // The same, where nothing else is wrong:
        old(ctx).client == old(ctx).project.data.client
            && old(ctx).milestone.data.project == old(ctx).project.address
            && old(ctx).project.data.status == ProjectStatus::Accepted
            && old(ctx).milestone.data.status == MilestoneStatus::Pending
            && old(ctx).project.data.freelancer != Some(old(ctx).freelancer_token_account.owner)
            ==> r == Err::<Transfer, ErrorCode>(ErrorCode::InvalidFreelancer),
{
    if ctx.project.data.client != ctx.client {
        return Err(ErrorCode::Unauthorized);
    }
    if ctx.milestone.data.project != ctx.project.address {
        return Err(ErrorCode::Unauthorized);
    }
    if ctx.project.data.status != ProjectStatus::Accepted {
        return Err(ErrorCode::ProjectNotAccepted);
    }
    if ctx.milestone.data.status != MilestoneStatus::Pending {
        return Err(ErrorCode::MilestoneAlreadyReleased);
    }
    let paid_to_assignee = match ctx.project.data.freelancer {
        Some(freelancer) => freelancer == ctx.freelancer_token_account.owner,
        None => false,
    };
    if !paid_to_assignee {
        return Err(ErrorCode::InvalidFreelancer);
    }
    ctx.milestone.data.status = MilestoneStatus::Released;

    Ok(
        Transfer {
            from: ctx.vault_token_account.address,
            to: ctx.freelancer_token_account.address,
            authority: Authority::Vault {
                address: ctx.vault_authority,
                project: ctx.project.address,
                bump: ctx.vault_authority_bump,
            },
            amount: ctx.milestone.data.amount,
        },
    )
}

/// Records a milestone as pending and asks for its amount to be deposited
/// from the client's holding account into the project's vault.
///
/// Only the owner of the project may add a milestone; for anyone else the
/// call is refused and nothing changes. The milestone's amount is fixed from
/// here on. An amount of zero is taken as it is. The deposit itself is the
/// caller's to carry out: a milestone counts only if its deposit went
/// through.
pub fn add_milestone(ctx: &mut AddMilestone, milestone_id: u8, amount: u64) -> (r: Result<
    Transfer,
    ErrorCode,
>)
    ensures
        match old(ctx).refusal() {
            Some(e) => r == Err::<Transfer, ErrorCode>(e),
            None => r == Ok::<Transfer, ErrorCode>(old(ctx).deposit(amount))
                && *final(ctx) == old(ctx).funded(milestone_id, amount),
        },
        r is Err ==> *final(ctx) == *old(ctx),
        // A caller who is not the owner:
        old(ctx).client != old(ctx).project.data.client
            ==> r == Err::<Transfer, ErrorCode>(ErrorCode::Unauthorized),
        old(ctx).client == old(ctx).project.data.client ==> r is Ok,
{
    if ctx.project.data.client != ctx.client {
        return Err(ErrorCode::Unauthorized);
    }
    ctx.milestone.data.project = ctx.project.address;
    ctx.milestone.data.milestone_id = milestone_id;
    ctx.milestone.data.amount = amount;
    ctx.milestone.data.status = MilestoneStatus::Pending;

    Ok(
        Transfer {
            from: ctx.client_token_account.address,
            to: ctx.vault_token_account.address,
            authority: Authority::Signer(ctx.client),
            amount,
        },
    )
}

/// Opens a project for the signing client under the label `project_id`:
/// the record starts without a freelancer, in the state `Created`, and the
/// vault is set up for the project's token under the vault authority. No
/// funds move. Whatever the record held before is replaced; that a project
/// is opened only once at an address is the store's part.
pub fn initialize_project(ctx: &mut InitializeProject, project_id: String) -> (r: Result<
    (),
    ErrorCode,
>)
    ensures
        r is Ok,
        *final(ctx) == old(ctx).opened(project_id),
        final(ctx).project.data.wf(),
{
    ctx.project.data.client = ctx.client;
    ctx.project.data.freelancer = None;
    ctx.project.data.status = ProjectStatus::Created;
    ctx.project.data.project_id = project_id;
    ctx.vault_token_account.mint = ctx.mint;
    ctx.vault_token_account.owner = ctx.vault_authority;
    Ok(())
}

/// Assigns the project to the signing freelancer and marks it as accepted.
///
/// A project is accepted once: on a project that is no longer `Created` the
/// call is refused, whoever makes it, and nothing changes.
pub fn accept_project(ctx: &mut AcceptProject) -> (r: Result<(), ErrorCode>)
    ensures
        match old(ctx).refusal() {
            Some(e) => r == Err::<(), ErrorCode>(e),
            None => r is Ok && *final(ctx) == old(ctx).accepted(),
        },
        r is Err ==> *final(ctx) == *old(ctx),
        r is Ok <==> old(ctx).project.data.status == ProjectStatus::Created,
        old(ctx).project.data.wf() ==> final(ctx).project.data.wf(),
{
    if ctx.project.data.status != ProjectStatus::Created {
        return Err(ErrorCode::ProjectAlreadyAccepted);
    }
    ctx.project.data.freelancer = Some(ctx.freelancer);
    ctx.project.data.status = ProjectStatus::Accepted;
    Ok(())
}

} // verus!
