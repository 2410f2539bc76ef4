use crate::accounts::{AcceptProject, Account, AddMilestone, ReleaseFunds};
use crate::address::Address;
use crate::state::{Milestone, MilestoneStatus, Project, ProjectStatus};
use vstd::prelude::*;

verus! {

/// One project's escrow seen as a whole: its record, the milestones that
/// were added to it, by number, and the token balances that its operations
/// move. This is a model for reasoning; the operations themselves work on
/// the accounts they are handed.
pub struct Escrow {
    /// The address the project is stored at.
    pub address: Address,
    pub project: Project,
    pub milestones: Map<u8, Milestone>,
    /// What the vault holds.
    pub vault: nat,
    /// What has been paid out of the vault so far.
    pub paid: nat,
}

/// One call against an escrow. `settled` says whether the token ledger
/// carried out the transfer that the operation asked for; an operation whose
/// transfer fails is undone as a whole.
pub enum Call {
    AddMilestone { caller: Address, milestone_id: u8, amount: u64, settled: bool },
    AcceptProject { caller: Address },
    ReleaseFunds { caller: Address, milestone_id: u8, destination_owner: Address, settled: bool },
}

/// What the milestone numbered `id` contributes to the milestones in
/// `status`: its amount if it exists and is in that state, else nothing.
pub open spec fn amount_in(milestones: Map<u8, Milestone>, status: MilestoneStatus, id: u8) -> nat {
    if milestones.contains_key(id) && milestones[id].status == status {
        milestones[id].amount as nat
    } else {
        0
    }
}

/// The sum of the amounts of the milestones in `status` with a number below `n`.
pub open spec fn total_below(milestones: Map<u8, Milestone>, status: MilestoneStatus, n: nat) -> nat
    decreases n,
{
    if n == 0 {
        0
    } else {
        total_below(milestones, status, (n - 1) as nat) + amount_in(
            milestones,
            status,
            (n - 1) as u8,
        )
    }
}

/// The sum of the amounts of all milestones in `status`.
pub open spec fn total(milestones: Map<u8, Milestone>, status: MilestoneStatus) -> nat {
    total_below(milestones, status, 256)
}

impl Escrow {
    /// The escrow right after `client` opened the project: no milestone, an
    /// empty vault, nothing paid.
    pub open spec fn opened(address: Address, client: Address, project_id: String) -> Escrow {
        Escrow {
            address,
            project: Project::created(client, project_id),
            milestones: Map::empty(),
            vault: 0,
            paid: 0,
        }
    }

    /// The escrow after one call. A call that is refused, that names a
    /// milestone number already taken (on adding) or unknown (on releasing),
    /// or whose transfer does not go through, leaves the escrow as it was.
    pub open spec fn step(self, call: Call) -> Escrow {
        match call {
            Call::AddMilestone { caller, milestone_id, amount, settled } => {
                if self.milestones.contains_key(milestone_id) || self.project.funding_refusal(
                    caller,
                ) is Some || !settled {
                    self
                } else {
                    Escrow {
                        milestones: self.milestones.insert(
                            milestone_id,
                            Milestone::pending(self.address, milestone_id, amount),
                        ),
                        vault: self.vault + amount as nat,
                        ..self
                    }
                }
            },
            Call::AcceptProject { caller } => {
                if self.project.acceptance_refusal() is Some {
                    self
                } else {
                    Escrow { project: self.project.accepted_by(caller), ..self }
                }
            },
            Call::ReleaseFunds { caller, milestone_id, destination_owner, settled } => {
                if !self.milestones.contains_key(milestone_id) {
                    self
                } else {
                    let milestone = self.milestones[milestone_id];
                    if milestone.release_refusal(
                        self.address,
                        self.project,
                        caller,
                        destination_owner,
                    ) is Some || !settled || self.vault < milestone.amount {
                        self
                    } else {
                        Escrow {
                            milestones: self.milestones.insert(milestone_id, milestone.released()),
                            vault: (self.vault - milestone.amount) as nat,
                            paid: self.paid + milestone.amount as nat,
                            ..self
                        }
                    }
                }
            },
        }
    }

    /// The escrow after a history of calls, the first call first.
    pub open spec fn run(self, calls: Seq<Call>) -> Escrow
        decreases calls.len(),
    {
        if calls.len() == 0 {
            self
        } else {
            self.run(calls.drop_last()).step(calls.last())
        }
    }

    /// What holds of an escrow at all times: the vault holds exactly the
    /// amounts of the pending milestones, what was paid out is exactly the
    /// amounts of the released ones, every milestone refers back to this
    /// project under its own number, and the project has a freelancer
    /// exactly when it is accepted.
    pub open spec fn sound(self) -> bool {
        &&& self.vault == total(self.milestones, MilestoneStatus::Pending)
        &&& self.paid == total(self.milestones, MilestoneStatus::Released)
        &&& self.project.wf()
        &&& forall|id: u8| #[trigger]
            self.milestones.contains_key(id) ==> self.milestones[id].project == self.address
                && self.milestones[id].milestone_id == id
    }

    /// Whether `later` can have come from `self`: nothing that is fixed has
    /// changed and no state has gone back.
    pub open spec fn leads_to(self, later: Escrow) -> bool {
        &&& later.address == self.address
        &&& later.project.client == self.project.client
        &&& later.project.project_id == self.project.project_id
        &&& self.project.status == ProjectStatus::Accepted ==> later.project.status
            == ProjectStatus::Accepted && later.project.freelancer == self.project.freelancer
        &&& forall|id: u8| #[trigger]
            self.milestones.contains_key(id) ==> {
                &&& later.milestones.contains_key(id)
                &&& later.milestones[id].amount == self.milestones[id].amount
                &&& later.milestones[id].project == self.milestones[id].project
                &&& later.milestones[id].milestone_id == self.milestones[id].milestone_id
                &&& self.milestones[id].status == MilestoneStatus::Released
                    ==> later.milestones[id].status == MilestoneStatus::Released
            }
    }
}

/// Putting a record at number `id` changes the sum of a state's amounts by
/// what that number contributed before and contributes after.
proof fn total_below_after_insert(
    milestones: Map<u8, Milestone>,
    status: MilestoneStatus,
    id: u8,
    milestone: Milestone,
    n: nat,
)
    requires
        n <= 256,
    ensures
        total_below(milestones.insert(id, milestone), status, n) == if id < n {
            total_below(milestones, status, n) - amount_in(milestones, status, id) + amount_in(
                milestones.insert(id, milestone),
                status,
                id,
            )
        } else {
            total_below(milestones, status, n) as int
        },
        id < n ==> total_below(milestones, status, n) >= amount_in(milestones, status, id),
    decreases n,
{
    if n > 0 {
        total_below_after_insert(milestones, status, id, milestone, (n - 1) as nat);
    }
}

/// A new escrow is sound.
pub proof fn opened_is_sound(address: Address, client: Address, project_id: String)
    ensures
        Escrow::opened(address, client, project_id).sound(),
{
    total_of_none(MilestoneStatus::Pending, 256);
    total_of_none(MilestoneStatus::Released, 256);
}

proof fn total_of_none(status: MilestoneStatus, n: nat)
    ensures
        total_below(Map::<u8, Milestone>::empty(), status, n) == 0,
    decreases n,
{
    if n > 0 {
        total_of_none(status, (n - 1) as nat);
    }
}

/// Every call keeps a sound escrow sound, whoever makes it and whether or
/// not it is refused.
pub proof fn step_keeps_sound(escrow: Escrow, call: Call)
    requires
        escrow.sound(),
    ensures
        escrow.step(call).sound(),
{
    let after = escrow.step(call);
    match call {
        Call::AddMilestone { caller, milestone_id, amount, settled } => {
            let milestone = Milestone::pending(escrow.address, milestone_id, amount);
            total_below_after_insert(
                escrow.milestones,
                MilestoneStatus::Pending,
                milestone_id,
                milestone,
                256,
            );
            total_below_after_insert(
                escrow.milestones,
                MilestoneStatus::Released,
                milestone_id,
                milestone,
                256,
            );
        },
        Call::AcceptProject { caller } => {},
        Call::ReleaseFunds { caller, milestone_id, destination_owner, settled } => {
            if escrow.milestones.contains_key(milestone_id) {
                let milestone = escrow.milestones[milestone_id].released();
                total_below_after_insert(
                    escrow.milestones,
                    MilestoneStatus::Pending,
                    milestone_id,
                    milestone,
                    256,
                );
                total_below_after_insert(
                    escrow.milestones,
                    MilestoneStatus::Released,
                    milestone_id,
                    milestone,
                    256,
                );
            }
        },
    }
}

/// Every history of calls keeps a sound escrow sound.
pub proof fn run_keeps_sound(escrow: Escrow, calls: Seq<Call>)
    requires
        escrow.sound(),
    ensures
        escrow.run(calls).sound(),
    decreases calls.len(),
{
    if calls.len() > 0 {
        run_keeps_sound(escrow, calls.drop_last());
        step_keeps_sound(escrow.run(calls.drop_last()), calls.last());
    }
}

/// After any history of calls on a newly opened project, in any order and
/// with any callers, the vault holds exactly the sum of the amounts of the
/// milestones that are still pending, and what was paid out is exactly the
/// sum of the amounts of the released ones.
pub proof fn vault_holds_what_is_pending(
    address: Address,
    client: Address,
    project_id: String,
    calls: Seq<Call>,
)
    ensures
        ({
            let escrow = Escrow::opened(address, client, project_id).run(calls);
            &&& escrow.vault == total(escrow.milestones, MilestoneStatus::Pending)
            &&& escrow.paid == total(escrow.milestones, MilestoneStatus::Released)
        }),
{
    opened_is_sound(address, client, project_id);
    run_keeps_sound(Escrow::opened(address, client, project_id), calls);
}

/// In a sound escrow the vault covers every pending milestone, so a release
/// that passes its checks never fails for want of funds.
pub proof fn vault_covers_each_pending(escrow: Escrow, milestone_id: u8)
    requires
        escrow.sound(),
        escrow.milestones.contains_key(milestone_id),
        escrow.milestones[milestone_id].status == MilestoneStatus::Pending,
    ensures
        escrow.vault >= escrow.milestones[milestone_id].amount,
{
    total_below_after_insert(
        escrow.milestones,
        MilestoneStatus::Pending,
        milestone_id,
        escrow.milestones[milestone_id],
        256,
    );
}

/// A deposit that the token ledger carries out always adds its milestone:
/// when the owner funds a number that is still free, the milestone is
/// recorded as pending with the amount given, and the vault grows by
/// exactly that amount.
pub proof fn funded_milestone_is_recorded(
    escrow: Escrow,
    milestone_id: u8,
    amount: u64,
)
    requires
        !escrow.milestones.contains_key(milestone_id),
    ensures
        ({
            let after = escrow.step(
                Call::AddMilestone {
                    caller: escrow.project.client,
                    milestone_id,
                    amount,
                    settled: true,
                },
            );
            &&& after.milestones.contains_key(milestone_id)
            &&& after.milestones[milestone_id] == Milestone::pending(
                escrow.address,
                milestone_id,
                amount,
            )
            &&& after.vault == escrow.vault + amount
            &&& after.paid == escrow.paid
        }),
{
}

/// A release in order always pays: in a sound escrow, when the owner
/// releases a pending milestone of an accepted project to a holding account
/// of its freelancer and the token ledger carries the payment out, the
/// milestone becomes released, the vault shrinks by exactly the milestone's
/// amount, what was paid out grows by the same, and every other milestone
/// stays as it was.
pub proof fn release_in_order_pays(escrow: Escrow, milestone_id: u8, freelancer: Address)
    requires
        escrow.sound(),
        escrow.project.status == ProjectStatus::Accepted,
        escrow.project.freelancer == Some(freelancer),
        escrow.milestones.contains_key(milestone_id),
        escrow.milestones[milestone_id].status == MilestoneStatus::Pending,
    ensures
        ({
            let after = escrow.step(
                Call::ReleaseFunds {
                    caller: escrow.project.client,
                    milestone_id,
                    destination_owner: freelancer,
                    settled: true,
                },
            );
            let amount = escrow.milestones[milestone_id].amount;
            &&& after.milestones[milestone_id] == escrow.milestones[milestone_id].released()
            &&& after.vault == escrow.vault - amount
            &&& after.paid == escrow.paid + amount
            &&& forall|other: u8|
                other != milestone_id ==> after.milestones.contains_key(other)
                    == escrow.milestones.contains_key(other) && after.milestones[other]
                    == escrow.milestones[other]
        }),
{
    vault_covers_each_pending(escrow, milestone_id);
}

/// A released milestone is never paid again: whoever asks, and whatever
/// destination they name, releasing it once more leaves the escrow and its
/// balances as they were.
pub proof fn released_milestone_is_not_paid_again(
    escrow: Escrow,
    caller: Address,
    milestone_id: u8,
    destination_owner: Address,
    settled: bool,
)
    requires
        escrow.milestones.contains_key(milestone_id),
        escrow.milestones[milestone_id].status == MilestoneStatus::Released,
    ensures
        escrow.step(Call::ReleaseFunds { caller, milestone_id, destination_owner, settled })
            == escrow,
{
}

/// Only the owner funds and releases: a call to add or to release a
/// milestone by anyone else leaves the escrow and its balances as they were.
pub proof fn stranger_changes_nothing(
    escrow: Escrow,
    caller: Address,
    milestone_id: u8,
    amount: u64,
    destination_owner: Address,
    settled: bool,
)
    requires
        caller != escrow.project.client,
    ensures
        escrow.step(Call::AddMilestone { caller, milestone_id, amount, settled }) == escrow,
        escrow.step(Call::ReleaseFunds { caller, milestone_id, destination_owner, settled })
            == escrow,
{
}

/// Funds go to the accepted freelancer only: a release to a holding
/// account that the project's freelancer does not own leaves the escrow and
/// its balances as they were.
pub proof fn other_destination_is_not_paid(
    escrow: Escrow,
    caller: Address,
    milestone_id: u8,
    destination_owner: Address,
    settled: bool,
)
    requires
        escrow.project.freelancer != Some(destination_owner),
    ensures
        escrow.step(Call::ReleaseFunds { caller, milestone_id, destination_owner, settled })
            == escrow,
{
}

/// No call undoes anything: owner, label and address stay, an accepted
/// project stays accepted by the same freelancer, a milestone stays with its
/// amount, and a released milestone stays released.
pub proof fn step_is_one_way(escrow: Escrow, call: Call)
    ensures
        escrow.leads_to(escrow.step(call)),
{
}

/// No history of calls undoes anything.
pub proof fn run_is_one_way(escrow: Escrow, calls: Seq<Call>)
    ensures
        escrow.leads_to(escrow.run(calls)),
    decreases calls.len(),
{
    if calls.len() > 0 {
        run_is_one_way(escrow, calls.drop_last());
        step_is_one_way(escrow.run(calls.drop_last()), calls.last());
    }
}

/// The model adds a milestone as `add_milestone` does: on accounts that show
/// this escrow's project, a call that the operation refuses leaves the
/// escrow as it was, and one that it lets through records the milestone
/// that the operation wrote and puts the deposit it asked for into the
/// vault, if the number is free and the deposit goes through.
pub proof fn step_adds_as_the_operation(
    escrow: Escrow,
    ctx: AddMilestone,
    milestone_id: u8,
    amount: u64,
    settled: bool,
)
    requires
        ctx.project == (Account { address: escrow.address, data: escrow.project }),
    ensures
        ({
            let after = escrow.step(
                Call::AddMilestone { caller: ctx.client, milestone_id, amount, settled },
            );
            if ctx.refusal() is Some || escrow.milestones.contains_key(milestone_id) || !settled {
                after == escrow
            } else {
                &&& after.milestones == escrow.milestones.insert(
                    milestone_id,
                    ctx.funded(milestone_id, amount).milestone.data,
                )
                &&& after.vault == escrow.vault + ctx.deposit(amount).amount
                &&& after.paid == escrow.paid
                &&& after.project == escrow.project
            }
        }),
{
}

/// The model accepts a project as `accept_project` does.
pub proof fn step_accepts_as_the_operation(escrow: Escrow, ctx: AcceptProject)
    requires
        ctx.project == (Account { address: escrow.address, data: escrow.project }),
    ensures
        ({
            let after = escrow.step(Call::AcceptProject { caller: ctx.freelancer });
            if ctx.refusal() is Some {
                after == escrow
            } else {
                &&& after.project == ctx.accepted().project.data
                &&& after.milestones == escrow.milestones
                &&& after.vault == escrow.vault
                &&& after.paid == escrow.paid
            }
        }),
{
}

/// The model releases a milestone as `release_funds` does: on accounts that
/// show this escrow's project and one of its milestones, a call that the
/// operation refuses leaves the escrow as it was, and one that it lets
/// through records the milestone as the operation wrote it and moves the
/// payment it asked for out of the vault, if the payment goes through.
pub proof fn step_releases_as_the_operation(
    escrow: Escrow,
    ctx: ReleaseFunds,
    milestone_id: u8,
    settled: bool,
)
    requires
        ctx.project == (Account { address: escrow.address, data: escrow.project }),
        escrow.milestones.contains_key(milestone_id),
        ctx.milestone.data == escrow.milestones[milestone_id],
    ensures
        ({
            let after = escrow.step(
                Call::ReleaseFunds {
                    caller: ctx.client,
                    milestone_id,
                    destination_owner: ctx.freelancer_token_account.owner,
                    settled,
                },
            );
            if ctx.refusal() is Some || !settled || escrow.vault < ctx.payout().amount {
                after == escrow
            } else {
                &&& after.milestones == escrow.milestones.insert(
                    milestone_id,
                    ctx.released().milestone.data,
                )
                &&& after.vault == escrow.vault - ctx.payout().amount
                &&& after.paid == escrow.paid + ctx.payout().amount
                &&& after.project == escrow.project
            }
        }),
{
}

} // verus!
