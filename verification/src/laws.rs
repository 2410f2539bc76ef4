use crate::accounts::{AcceptProject, ReleaseFunds};
use crate::address::Address;
use crate::derivation::{derived_at_with_bump, vault_authority_seeds, vault_signer_seeds};
use crate::state::ErrorCode;
use crate::transfer::Authority;
use vstd::prelude::*;

verus! {

/// A project is accepted once. After an acceptance that went through, the
/// record names the freelancer who accepted, and every further attempt on
/// that record, by the same identity or another, is refused as already
/// accepted. A refused call changes nothing, so the freelancer stays.
pub proof fn second_acceptance_is_refused(first: AcceptProject, second: AcceptProject)
    requires
        first.refusal() is None,
        second.project == first.accepted().project,
    ensures
        first.accepted().project.data.freelancer == Some(first.freelancer),
        second.refusal() == Some(ErrorCode::ProjectAlreadyAccepted),
{
}

/// A milestone is released once. After a release that went through, every
/// further attempt on the same milestone record is refused, whatever the
/// other accounts are; with the same caller and project the refusal is that
/// the milestone has already been released. A refused call asks for no
/// transfer.
pub proof fn second_release_is_refused(first: ReleaseFunds, second: ReleaseFunds)
    requires
        first.refusal() is None,
        second.milestone == first.released().milestone,
    ensures
        second.refusal() is Some,
        second.client == first.client && second.project == first.project ==> second.refusal()
            == Some(ErrorCode::MilestoneAlreadyReleased),
        first.released().refusal() == Some(ErrorCode::MilestoneAlreadyReleased),
{
}

/// A release pays the milestone's amount as it was fixed when the milestone
/// was added, and leaves that amount on the record.
pub proof fn release_pays_the_fixed_amount(ctx: ReleaseFunds)
    ensures
        ctx.payout().amount == ctx.milestone.data.amount,
        ctx.released().milestone.data.amount == ctx.milestone.data.amount,
{
}

/// Where the accounts of a release stand at their derived addresses, the
/// payment is signed by the authority derived from the project's address,
/// with the seeds of that address and the bump seed found with it: anyone
/// can recompute it, and no key stands behind it.
pub proof fn payout_is_signed_by_the_derived_authority(ctx: ReleaseFunds, program_id: Address)
    requires
        ctx.well_addressed(program_id),
    ensures
        ctx.payout().authority matches Authority::Vault { address, project, bump } && {
            &&& project == ctx.project.address
            &&& derived_at_with_bump(vault_authority_seeds(project), program_id, address, bump)
            &&& ctx.payout().authority.spec_signer_seeds() == vault_signer_seeds(project, bump)
        },
{
}

} // verus!
