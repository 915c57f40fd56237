//! One reconciliation attempt: what to ask for next, given what has been
//! learned so far, until the subject's roles match its ticker or the attempt
//! has failed.
//!
//! The attempt itself performs nothing. It hands out a request, the driver
//! carries it out against the platform or the quote provider, and reports
//! back with a reply.

use crate::change::{is_quote_change, quote_change, DayPair};
use crate::error::ReconcileError;
use crate::roles::{
    applied, direction_of_bits, holds, lemma_reconciliation_is_idempotent, plan_roles, planned,
    Direction, RolePair, RolePlan,
};
use vstd::prelude::*;

verus! {

/// What the driver has to do next for the attempt.
#[derive(Clone, Copy, Debug, PartialEq, Eq)]
pub enum Request {
    /// Fetch the ids of the community's roles.
    CommunityRoles,
    /// Fetch the recent daily quotes of the subject's ticker.
    Quotes,
    /// Compute the change, in percent, from the close of the pair's previous
    /// quote to the close of its last quote.
    Change { pair: DayPair },
    /// Fetch the roles that the identity holds now.
    Membership,
    /// Add `role` to the identity.
    AddRole { role: u64 },
    /// Remove `role` from the identity.
    RemoveRole { role: u64 },
    /// Nothing: the attempt is over, with this result.
    Finish { result: Result<(), ReconcileError> },
}

/// What the driver reports back.
#[derive(Debug, PartialEq, Eq)]
pub enum Reply {
    /// The ids of the community's roles.
    CommunityRoles(Vec<u64>),
    /// The timestamps of the fetched quotes (seconds since the Unix epoch),
    /// in the order of the quotes.
    Quotes(Vec<i64>),
    /// The change that was asked for, in percent, as the IEEE 754 binary64
    /// encoding of its value.
    Change(u64),
    /// The roles that the identity holds.
    Membership(Vec<u64>),
    /// The mutation was carried out.
    Mutated,
    /// The request could not be carried out.
    Failed,
}

/// How far an attempt has come.
#[derive(Clone, Copy, Debug, PartialEq, Eq)]
pub enum Stage {
    /// Waiting for the community's roles.
    AwaitingCommunityRoles,
    /// Waiting for the quotes.
    AwaitingQuotes,
    /// Waiting for the change between the quotes of `pair`.
    AwaitingChange { pair: DayPair },
    /// Waiting for the identity's roles; `direction` is known.
    AwaitingMembership { direction: Direction },
    /// Waiting for `role` to be added; `remove` is still to be removed.
    AwaitingAdd { role: u64, remove: Option<u64> },
    /// Waiting for `role` to be removed; `add_ok` says that no add failed.
    AwaitingRemove { role: u64, add_ok: bool },
    /// Over, with this result.
    Finished { result: Result<(), ReconcileError> },
}

/// One attempt to reconcile one subject.
#[derive(Clone, Copy, Debug, PartialEq, Eq)]
pub struct Reconciliation {
    /// The role pair of the subject.
    pub roles: RolePair,
    /// How far the attempt has come.
    pub stage: Stage,
}

/// The request that a stage waits on.
pub open spec fn request_of(stage: Stage) -> Request {
    match stage {
        Stage::AwaitingCommunityRoles => Request::CommunityRoles,
        Stage::AwaitingQuotes => Request::Quotes,
        Stage::AwaitingChange { pair } => Request::Change { pair },
        Stage::AwaitingMembership { .. } => Request::Membership,
        Stage::AwaitingAdd { role, .. } => Request::AddRole { role },
        Stage::AwaitingRemove { role, .. } => Request::RemoveRole { role },
        Stage::Finished { result } => Request::Finish { result },
    }
}

/// Whether the community knows both roles, and if not, which one is missing:
/// the positive role is looked up first.
pub open spec fn roles_known(roles: RolePair, known: Seq<u64>) -> Result<(), ReconcileError> {
    if !known.contains(roles.positive) {
        Err(ReconcileError::RoleLookup { role: roles.positive })
    } else if !known.contains(roles.negative) {
        Err(ReconcileError::RoleLookup { role: roles.negative })
    } else {
        Ok(())
    }
}

/// The result of an attempt whose mutations ended like this. A mutation that
/// was not called for counts as one that succeeded.
pub open spec fn mutation_report(add_ok: bool, remove_ok: bool) -> Result<(), ReconcileError> {
    if add_ok && remove_ok {
        Ok(())
    } else {
        Err(ReconcileError::MembershipMutation { add_failed: !add_ok, remove_failed: !remove_ok })
    }
}

/// The stage once the add has been dealt with: the remove, if one is
/// planned, whatever became of the add; else the end.
pub open spec fn stage_after_add(remove: Option<u64>, add_ok: bool) -> Stage {
    match remove {
        Some(role) => Stage::AwaitingRemove { role, add_ok },
        None => Stage::Finished { result: mutation_report(add_ok, true) },
    }
}

/// The stage that carries out `plan`: first the add, then the remove. An
/// empty plan ends the attempt with success and without any mutation.
pub open spec fn stage_for_plan(plan: RolePlan) -> Stage {
    match plan.add {
        Some(role) => Stage::AwaitingAdd { role, remove: plan.remove },
        None => stage_after_add(plan.remove, true),
    }
}

/// `next` is the stage that follows `stage` on `reply`.
///
/// A reply that fails a fetch ends the attempt with the error of that fetch.
/// A reply that fails a mutation is noted and the attempt goes on. A reply
/// that answers another request than the one the stage waits on leaves the
/// stage as it is, and so does every reply once the attempt is over.
pub open spec fn follows(roles: RolePair, stage: Stage, reply: Reply, next: Stage) -> bool {
    match (stage, reply) {
        (Stage::AwaitingCommunityRoles, Reply::CommunityRoles(known)) => next == (match roles_known(
            roles,
            known@,
        ) {
            Ok(_) => Stage::AwaitingQuotes,
            Err(error) => Stage::Finished { result: Err(error) },
        }),
        (Stage::AwaitingCommunityRoles, Reply::Failed) => next == (Stage::Finished {
            result: Err(ReconcileError::Platform),
        }),
        (Stage::AwaitingQuotes, Reply::Quotes(timestamps)) => match next {
            Stage::AwaitingChange { pair } => is_quote_change(timestamps@, Ok(pair)),
            Stage::Finished { result: Err(error) } => is_quote_change(timestamps@, Err(error)),
            _ => false,
        },
        (Stage::AwaitingQuotes, Reply::Failed) => next == (Stage::Finished {
            result: Err(ReconcileError::Fetch),
        }),
        (Stage::AwaitingChange { .. }, Reply::Change(bits)) => next
            == (Stage::AwaitingMembership { direction: direction_of_bits(bits) }),
        (Stage::AwaitingChange { .. }, Reply::Failed) => next == (Stage::Finished {
            result: Err(ReconcileError::Fetch),
        }),
        (Stage::AwaitingMembership { direction }, Reply::Membership(held)) => next
            == stage_for_plan(planned(roles, direction, held@.to_set())),
        (Stage::AwaitingMembership { direction }, Reply::Failed) => next == (Stage::Finished {
            result: Err(ReconcileError::Platform),
        }),
        (Stage::AwaitingAdd { remove, .. }, Reply::Mutated) => next == stage_after_add(
            remove,
            true,
        ),
        (Stage::AwaitingAdd { remove, .. }, Reply::Failed) => next == stage_after_add(
            remove,
            false,
        ),
        (Stage::AwaitingRemove { add_ok, .. }, Reply::Mutated) => next == (Stage::Finished {
            result: mutation_report(add_ok, true),
        }),
        (Stage::AwaitingRemove { add_ok, .. }, Reply::Failed) => next == (Stage::Finished {
            result: mutation_report(add_ok, false),
        }),
        _ => next == stage,
    }
}

/// Looks both roles of the pair up in the community's role set, the positive
/// role first. A role that the community does not know is a `RoleLookup`
/// error that names it.
pub fn check_roles(roles: &RolePair, known: &Vec<u64>) -> (result: Result<(), ReconcileError>)
    ensures
        result == roles_known(*roles, known@),
{
    if !holds(known, roles.positive) {
        return Err(ReconcileError::RoleLookup { role: roles.positive });
    }
    if !holds(known, roles.negative) {
        return Err(ReconcileError::RoleLookup { role: roles.negative });
    }
    Ok(())
}

/// Sums up the two mutations of a plan once both have been dealt with. Each
/// flag says that its mutation succeeded or was not called for. The attempt
/// succeeded if both did; otherwise the error tells which mutation failed,
/// and both failures are reported when both failed.
pub fn report_mutations(add_ok: bool, remove_ok: bool) -> (result: Result<(), ReconcileError>)
    ensures
        result == mutation_report(add_ok, remove_ok),
{
    if add_ok && remove_ok {
        Ok(())
    } else {
        Err(ReconcileError::MembershipMutation { add_failed: !add_ok, remove_failed: !remove_ok })
    }
}

/// The stage once the add has been dealt with.
fn after_add(remove: Option<u64>, add_ok: bool) -> (stage: Stage)
    ensures
        stage == stage_after_add(remove, add_ok),
{
    match remove {
        Some(role) => Stage::AwaitingRemove { role, add_ok },
        None => Stage::Finished { result: report_mutations(add_ok, true) },
    }
}

impl Reconciliation {
    /// A fresh attempt for a subject with these roles. It starts from
    /// nothing: what an earlier attempt learned is not carried over.
    pub fn begin(roles: RolePair) -> (attempt: Reconciliation)
        ensures
            attempt == (Reconciliation { roles, stage: Stage::AwaitingCommunityRoles }),
    {
        Reconciliation { roles, stage: Stage::AwaitingCommunityRoles }
    }

    /// The request that the attempt waits on.
    pub fn request(&self) -> (request: Request)
        ensures
            request == request_of(self.stage),
    {
        match self.stage {
            Stage::AwaitingCommunityRoles => Request::CommunityRoles,
            Stage::AwaitingQuotes => Request::Quotes,
            Stage::AwaitingChange { pair } => Request::Change { pair },
            Stage::AwaitingMembership { .. } => Request::Membership,
            Stage::AwaitingAdd { role, .. } => Request::AddRole { role },
            Stage::AwaitingRemove { role, .. } => Request::RemoveRole { role },
            Stage::Finished { result } => Request::Finish { result },
        }
    }

    /// Takes the reply to the pending request and hands out the next one.
    ///
    /// In order: the community must know both roles; the quotes must yield a
    /// previous trading day; the sign of the change selects the desired
    /// role; the identity's roles decide what is left to do. The add, if
    /// any, comes before the remove, and the remove is asked for whether or
    /// not the add went through.
    pub fn step(&mut self, reply: Reply) -> (request: Request)
        ensures
            final(self).roles == old(self).roles,
            follows(old(self).roles, old(self).stage, reply, final(self).stage),
            request == request_of(final(self).stage),
    {
        let next = match self.stage {
            Stage::AwaitingCommunityRoles => match reply {
                Reply::CommunityRoles(known) => match check_roles(&self.roles, &known) {
                    Ok(_) => Stage::AwaitingQuotes,
                    Err(error) => Stage::Finished { result: Err(error) },
                },
                Reply::Failed => Stage::Finished { result: Err(ReconcileError::Platform) },
                _ => self.stage,
            },
            Stage::AwaitingQuotes => match reply {
                Reply::Quotes(timestamps) => match quote_change(&timestamps) {
                    Ok(pair) => Stage::AwaitingChange { pair },
                    Err(error) => Stage::Finished { result: Err(error) },
                },
                Reply::Failed => Stage::Finished { result: Err(ReconcileError::Fetch) },
                _ => self.stage,
            },
            Stage::AwaitingChange { .. } => match reply {
                Reply::Change(bits) => Stage::AwaitingMembership {
                    direction: Direction::from_bits(bits),
                },
                Reply::Failed => Stage::Finished { result: Err(ReconcileError::Fetch) },
                _ => self.stage,
            },
            Stage::AwaitingMembership { direction } => match reply {
                Reply::Membership(held) => {
                    let plan = plan_roles(&self.roles, direction, &held);
                    match plan.add {
                        Some(role) => Stage::AwaitingAdd { role, remove: plan.remove },
                        None => after_add(plan.remove, true),
                    }
                },
                Reply::Failed => Stage::Finished { result: Err(ReconcileError::Platform) },
                _ => self.stage,
            },
            Stage::AwaitingAdd { remove, .. } => match reply {
                Reply::Mutated => after_add(remove, true),
                Reply::Failed => after_add(remove, false),
                _ => self.stage,
            },
            Stage::AwaitingRemove { add_ok, .. } => match reply {
                Reply::Mutated => Stage::Finished { result: report_mutations(add_ok, true) },
                Reply::Failed => Stage::Finished { result: report_mutations(add_ok, false) },
                _ => self.stage,
            },
            Stage::Finished { .. } => self.stage,
        };
        self.stage = next;
        self.request()
    }
}

/// The request asks the platform to change the identity's roles.
pub open spec fn is_mutation(request: Request) -> bool {
    request is AddRole || request is RemoveRole
}

/// An attempt that is over stays over: whatever is reported to it, it keeps
/// its result and asks for nothing more.
pub proof fn lemma_finished_attempt_stays_finished(
    roles: RolePair,
    result: Result<(), ReconcileError>,
    reply: Reply,
    next: Stage,
)
    requires
        follows(roles, Stage::Finished { result }, reply, next),
    ensures
        next == (Stage::Finished { result }),
        !is_mutation(request_of(next)),
{
}

/// No mutation is asked for before the identity's roles are in: while the
/// attempt waits for the community's roles, the quotes or the change, no
/// reply makes it ask for one. So an attempt that fails at any of these,
/// be it on a fetch, on an unknown role or on quotes without a previous
/// day, ends without having touched the identity.
pub proof fn lemma_no_mutation_before_membership(
    roles: RolePair,
    stage: Stage,
    reply: Reply,
    next: Stage,
)
    requires
        stage is AwaitingCommunityRoles || stage is AwaitingQuotes || stage is AwaitingChange,
        follows(roles, stage, reply, next),
    ensures
        !is_mutation(request_of(next)),
        !(next is AwaitingAdd) && !(next is AwaitingRemove),
{
}

/// Every mutation that is asked for belongs to the plan for the direction
/// and the roles that the identity held: the add adds the desired role,
/// which was absent, and the remove removes the other role of the pair,
/// which was present.
pub proof fn lemma_mutations_follow_the_plan(
    roles: RolePair,
    direction: Direction,
    held: Vec<u64>,
    next: Stage,
)
    requires
        follows(
            roles,
            Stage::AwaitingMembership { direction },
            Reply::Membership(held),
            next,
        ),
    ensures
        match next {
            Stage::AwaitingAdd { role, remove } => {
                &&& role == roles.desired(direction)
                &&& !held@.contains(role)
                &&& remove == planned(roles, direction, held@.to_set()).remove
            },
            Stage::AwaitingRemove { role, add_ok } => {
                &&& role == roles.opposite(direction)
                &&& held@.contains(role)
                &&& held@.contains(roles.desired(direction))
                &&& add_ok
            },
            Stage::Finished { result } => {
                &&& result is Ok
                &&& held@.contains(roles.desired(direction))
                &&& !held@.contains(roles.opposite(direction))
            },
            _ => false,
        },
{
}

/// A failed add does not suppress the remove: the role that was planned for
/// removal is asked to be removed all the same, and the attempt then ends
/// with an error that reports the add.
pub proof fn lemma_failed_add_does_not_suppress_remove(
    roles: RolePair,
    role: u64,
    remove: u64,
    next: Stage,
)
    requires
        follows(roles, Stage::AwaitingAdd { role, remove: Some(remove) }, Reply::Failed, next),
    ensures
        request_of(next) == (Request::RemoveRole { role: remove }),
        forall|reply: Reply, last: Stage|
            (reply is Mutated || reply is Failed) && #[trigger] follows(roles, next, reply, last)
                ==> last == (Stage::Finished {
                result: Err(
                    ReconcileError::MembershipMutation {
                        add_failed: true,
                        remove_failed: reply is Failed,
                    },
                ),
            }),
{
}

/// A second attempt mutates nothing: with the same direction, and with the
/// roles as the mutations of the first attempt left them, the attempt ends
/// in success as soon as it learns the identity's roles.
pub proof fn lemma_second_attempt_mutates_nothing(
    roles: RolePair,
    direction: Direction,
    held: Set<u64>,
)
    requires
        roles.wf(),
    ensures
        stage_for_plan(
            planned(
                roles,
                direction,
                applied(planned(roles, direction, held), held, true, true),
            ),
        ) == (Stage::Finished { result: Ok(()) }),
{
    lemma_reconciliation_is_idempotent(roles, direction, held);
}

} // verus!
