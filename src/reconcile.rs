//! Turning what the DNS provider reports into the one action that makes the
//! record match its target, and classifying the provider's replies.
use vstd::prelude::*;

use crate::address::{merge, merged, Address};
use crate::config::ServiceConfig;

verus! {

/// Provider error code that means the record does not exist.
pub const NOT_FOUND: u32 = 404;

/// A reply of the DNS provider, as decoded from the wire.
#[derive(Clone, Debug)]
pub enum ProviderReply {
    /// The call did not complete (connection, timeout, undecodable body).
    TransportFailure,
    /// The provider answered with an error object carrying this code.
    Error { code: u32 },
    /// The provider answered with a record; each value is `None` when its
    /// text is not an IPv6 address.
    Record { values: Vec<Option<Address>>, ttl: u32 },
    /// The provider answered with a confirmation message.
    Message,
}

/// What the provider currently holds for a record.
#[derive(Clone, Debug)]
pub enum RemoteRecord {
    Absent,
    Present { addresses: Vec<Address>, ttl: u32 },
}

/// The change, if any, that makes the record hold the target address.
#[derive(Clone, Copy, Debug, PartialEq, Eq)]
pub enum ReconcileAction {
    Create { address: Address, ttl: u32 },
    Update { address: Address, ttl: u32 },
    NoOp,
}

/// Why one service could not be reconciled; other services are unaffected.
#[derive(Clone, Copy, Debug, PartialEq, Eq)]
pub enum ServiceError {
    /// The record could not be read; `code` is the provider's error code if
    /// it gave one.
    RecordFetchFailure { code: Option<u32> },
    /// The provider returned an address that is not valid IPv6.
    MalformedRemoteAddress,
    /// The create or replace call failed; `code` as above.
    RecordWriteFailure { code: Option<u32> },
}

/// Mathematical model of a record's state: addresses as segment sequences.
pub enum RecordState {
    Absent,
    Present { addresses: Seq<Seq<u16>>, ttl: u32 },
}

/// Mathematical model of an action.
pub enum ActionModel {
    Create { address: Seq<u16>, ttl: u32 },
    Update { address: Seq<u16>, ttl: u32 },
    NoOp,
}

impl RemoteRecord {
    pub open spec fn view(&self) -> RecordState {
        match self {
            RemoteRecord::Absent => RecordState::Absent,
            RemoteRecord::Present { addresses, ttl } => RecordState::Present {
                addresses: addresses@.map_values(|a: Address| a.view()),
                ttl: *ttl,
            },
        }
    }
}

impl ReconcileAction {
    pub open spec fn view(&self) -> ActionModel {
        match self {
            ReconcileAction::Create { address, ttl } => ActionModel::Create {
                address: address.view(),
                ttl: *ttl,
            },
            ReconcileAction::Update { address, ttl } => ActionModel::Update {
                address: address.view(),
                ttl: *ttl,
            },
            ReconcileAction::NoOp => ActionModel::NoOp,
        }
    }
}

/// The action for `target` given the provider's state: create when absent,
/// nothing when the first listed address is the target, else replace.
pub open spec fn decision(target: Seq<u16>, remote: RecordState, ttl: u32) -> ActionModel {
    match remote {
        RecordState::Absent => ActionModel::Create { address: target, ttl },
        RecordState::Present { addresses, .. } => {
            if addresses.len() > 0 && addresses[0] == target {
                ActionModel::NoOp
            } else {
                ActionModel::Update { address: target, ttl }
            }
        },
    }
}

/// The provider's state once `action` has been written successfully.
pub open spec fn written(remote: RecordState, action: ActionModel) -> RecordState {
    match action {
        ActionModel::Create { address, ttl } => RecordState::Present { addresses: seq![address], ttl },
        ActionModel::Update { address, ttl } => RecordState::Present { addresses: seq![address], ttl },
        ActionModel::NoOp => remote,
    }
}

/// Decides the single action that makes the record hold `target` with `ttl`.
/// Only the first listed address is compared; any others are overwritten by
/// an update.
pub fn decide(target: &Address, remote: &RemoteRecord, ttl: u32) -> (r: ReconcileAction)
    ensures
        r.view() == decision(target.view(), remote.view(), ttl),
        remote.view() is Absent ==> r.view() == (ActionModel::Create { address: target.view(), ttl }),
        remote.view() matches RecordState::Present { addresses, .. }
            && addresses.len() > 0 && addresses[0] == target.view() ==> r.view() is NoOp,
        remote.view() matches RecordState::Present { addresses, .. }
            && addresses.len() > 0 && addresses[0] != target.view()
            ==> r.view() == (ActionModel::Update { address: target.view(), ttl }),
{
    match remote {
        RemoteRecord::Absent => ReconcileAction::Create { address: *target, ttl },
        RemoteRecord::Present { addresses, .. } => {
            if addresses.len() > 0 && addresses[0].same_as(target) {
                ReconcileAction::NoOp
            } else {
                ReconcileAction::Update { address: *target, ttl }
            }
        },
    }
}

/// What a reply to a fetch says of the record: a not-found error means
/// absent; a record whose first value parses means present with that
/// address, whatever values follow it (they are overwritten by any write);
/// a record with no value or an unparseable first value, like any other
/// reply, is a failure of this service.
pub open spec fn fetched_state(reply: ProviderReply) -> Result<RecordState, ServiceError> {
    match reply {
        ProviderReply::TransportFailure => Err(ServiceError::RecordFetchFailure { code: None }),
        ProviderReply::Error { code } => {
            if code == NOT_FOUND {
                Ok(RecordState::Absent)
            } else {
                Err(ServiceError::RecordFetchFailure { code: Some(code) })
            }
        },
        ProviderReply::Record { values, ttl } => {
            if values@.len() > 0 && values@[0] is Some {
                Ok(RecordState::Present { addresses: seq![values@[0]->Some_0.view()], ttl })
            } else {
                Err(ServiceError::MalformedRemoteAddress)
            }
        },
        ProviderReply::Message => Err(ServiceError::RecordFetchFailure { code: None }),
    }
}

/// What a reply to a create or replace call says: only a confirmation
/// message is success.
pub open spec fn write_status(reply: ProviderReply) -> Result<(), ServiceError> {
    match reply {
        ProviderReply::Message => Ok(()),
        ProviderReply::Error { code } => Err(ServiceError::RecordWriteFailure { code: Some(code) }),
        _ => Err(ServiceError::RecordWriteFailure { code: None }),
    }
}

pub open spec fn record_result_view(r: Result<RemoteRecord, ServiceError>) -> Result<RecordState, ServiceError> {
    match r {
        Ok(rec) => Ok(rec.view()),
        Err(e) => Err(e),
    }
}

pub open spec fn action_result_view(r: Result<ReconcileAction, ServiceError>) -> Result<ActionModel, ServiceError> {
    match r {
        Ok(a) => Ok(a.view()),
        Err(e) => Err(e),
    }
}

/// The planned action for a service with this suffix and ttl, given the
/// discovered prefix and the reply to the fetch of its record.
pub open spec fn planned(prefix: Seq<u16>, suffix: Seq<u16>, ttl: u32, reply: ProviderReply) -> Result<ActionModel, ServiceError> {
    match fetched_state(reply) {
        Ok(state) => Ok(decision(merged(prefix, suffix), state, ttl)),
        Err(e) => Err(e),
    }
}

/// The outcome of a service once its planned write, if any, has been
/// answered. A create or update with no reply to its write has failed.
pub open spec fn finished(plan: Result<ActionModel, ServiceError>, write: Option<ProviderReply>) -> Result<ActionModel, ServiceError> {
    match plan {
        Err(e) => Err(e),
        Ok(ActionModel::NoOp) => Ok(ActionModel::NoOp),
        Ok(action) => match write {
            None => Err(ServiceError::RecordWriteFailure { code: None }),
            Some(reply) => match write_status(reply) {
                Ok(_) => Ok(action),
                Err(e) => Err(e),
            },
        },
    }
}

/// Reads the provider's reply to a fetch as the record's state, or as the
/// error that stops this service.
pub fn classify_fetch(reply: &ProviderReply) -> (r: Result<RemoteRecord, ServiceError>)
    ensures
        record_result_view(r) == fetched_state(*reply),
{
    match reply {
        ProviderReply::TransportFailure => Err(ServiceError::RecordFetchFailure { code: None }),
        ProviderReply::Error { code } => {
            if *code == NOT_FOUND {
                Ok(RemoteRecord::Absent)
            } else {
                Err(ServiceError::RecordFetchFailure { code: Some(*code) })
            }
        },
        ProviderReply::Record { values, ttl } => {
            if values.len() == 0 {
                return Err(ServiceError::MalformedRemoteAddress);
            }
            match values[0] {
                Some(first) => {
                    let addresses = vec![first];
                    assert(addresses@.map_values(|a: Address| a.view()) =~= seq![first.view()]);
                    Ok(RemoteRecord::Present { addresses, ttl: *ttl })
                },
                None => Err(ServiceError::MalformedRemoteAddress),
            }
        },
        ProviderReply::Message => Err(ServiceError::RecordFetchFailure { code: None }),
    }
}

/// Reads the provider's reply to a create or replace call.
pub fn classify_write(reply: &ProviderReply) -> (r: Result<(), ServiceError>)
    ensures
        r == write_status(*reply),
        r is Ok <==> reply is Message,
{
    match reply {
        ProviderReply::Message => Ok(()),
        ProviderReply::Error { code } => Err(ServiceError::RecordWriteFailure { code: Some(*code) }),
        _ => Err(ServiceError::RecordWriteFailure { code: None }),
    }
}

/// Computes the service's target address from the discovered prefix and
/// decides what to write, from the reply to the fetch of its record.
pub fn plan_service(prefix: &Address, service: &ServiceConfig, reply: &ProviderReply) -> (r: Result<ReconcileAction, ServiceError>)
    ensures
        action_result_view(r) == planned(prefix.view(), service.suffix.view(), service.ttl, *reply),
{
    let target = merge(prefix, &service.suffix);
    match classify_fetch(reply) {
        Ok(remote) => Ok(decide(&target, &remote, service.ttl)),
        Err(e) => Err(e),
    }
}

/// The outcome of a service: its plan, checked against the reply to the
/// write it called for. A no-op or a failed plan ignores `write`.
pub fn finish_service(plan: &Result<ReconcileAction, ServiceError>, write: &Option<ProviderReply>) -> (r: Result<ReconcileAction, ServiceError>)
    ensures
        action_result_view(r) == finished(action_result_view(*plan), *write),
{
    match plan {
        Err(e) => Err(*e),
        Ok(ReconcileAction::NoOp) => Ok(ReconcileAction::NoOp),
        Ok(action) => match write {
            None => Err(ServiceError::RecordWriteFailure { code: None }),
            Some(reply) => match classify_write(reply) {
                Ok(_) => Ok(*action),
                Err(e) => Err(e),
            },
        },
    }
}

/// Plans every service of a run; the `i`-th plan depends on the `i`-th
/// service and reply alone.
pub fn plan_pass(prefix: &Address, services: &Vec<ServiceConfig>, replies: &Vec<ProviderReply>) -> (r: Vec<Result<ReconcileAction, ServiceError>>)
    requires
        services@.len() == replies@.len(),
    ensures
        r@.len() == services@.len(),
        forall|i: int| 0 <= i < r@.len() ==> action_result_view(#[trigger] r@[i])
            == planned(prefix.view(), services@[i].suffix.view(), services@[i].ttl, replies@[i]),
{
    let mut plans: Vec<Result<ReconcileAction, ServiceError>> = Vec::new();
    let mut i: usize = 0;
    while i < services.len()
        invariant
            services@.len() == replies@.len(),
            i <= services@.len(),
            plans@.len() == i,
            forall|j: int| 0 <= j < i ==> action_result_view(#[trigger] plans@[j])
                == planned(prefix.view(), services@[j].suffix.view(), services@[j].ttl, replies@[j]),
        decreases services@.len() - i,
    {
        let plan = plan_service(prefix, &services[i], &replies[i]);
        plans.push(plan);
        i = i + 1;
    }
    plans
}

/// Finishes every service of a run from its plan and the reply to its write.
pub fn finish_pass(plans: &Vec<Result<ReconcileAction, ServiceError>>, writes: &Vec<Option<ProviderReply>>) -> (r: Vec<Result<ReconcileAction, ServiceError>>)
    requires
        plans@.len() == writes@.len(),
    ensures
        r@.len() == plans@.len(),
        forall|i: int| 0 <= i < r@.len() ==> action_result_view(#[trigger] r@[i])
            == finished(action_result_view(plans@[i]), writes@[i]),
{
    let mut outcomes: Vec<Result<ReconcileAction, ServiceError>> = Vec::new();
    let mut i: usize = 0;
    while i < plans.len()
        invariant
            plans@.len() == writes@.len(),
            i <= plans@.len(),
            outcomes@.len() == i,
            forall|j: int| 0 <= j < i ==> action_result_view(#[trigger] outcomes@[j])
                == finished(action_result_view(plans@[j]), writes@[j]),
        decreases plans@.len() - i,
    {
        let outcome = finish_service(&plans[i], &writes[i]);
        outcomes.push(outcome);
        i = i + 1;
    }
    outcomes
}

/// Outcomes of a run over `services`, given the reply to each service's
/// fetch and to its write.
pub open spec fn pass_outcomes(
    prefix: Seq<u16>,
    services: Seq<ServiceConfig>,
    replies: Seq<ProviderReply>,
    writes: Seq<Option<ProviderReply>>,
) -> Seq<Result<ActionModel, ServiceError>> {
    Seq::new(
        services.len(),
        |i: int| finished(planned(prefix, services[i].suffix.view(), services[i].ttl, replies[i]), writes[i]),
    )
}

/// Reconciling twice with nothing changed in between: from an absent record
/// the first run creates the target, and whatever the first run wrote, the
/// second run finds the record correct and does nothing.
pub proof fn lemma_reconcile_idempotent(target: Address, remote: RecordState, ttl: u32)
    ensures
        remote is Absent ==> decision(target.view(), remote, ttl) == (ActionModel::Create { address: target.view(), ttl }),
        decision(target.view(), written(remote, decision(target.view(), remote, ttl)), ttl) == ActionModel::NoOp,
{
}

/// Services are isolated: a service's outcome in a run is its outcome alone,
/// and stays the same whatever the other services' fetches and writes
/// returned, failures included.
pub proof fn lemma_service_isolation(
    prefix: Seq<u16>,
    services: Seq<ServiceConfig>,
    replies: Seq<ProviderReply>,
    writes: Seq<Option<ProviderReply>>,
    other_replies: Seq<ProviderReply>,
    other_writes: Seq<Option<ProviderReply>>,
    i: int,
)
    requires
        replies.len() == services.len(),
        writes.len() == services.len(),
        other_replies.len() == services.len(),
        other_writes.len() == services.len(),
        0 <= i < services.len(),
        other_replies[i] == replies[i],
        other_writes[i] == writes[i],
    ensures
        pass_outcomes(prefix, services, replies, writes)[i]
            == finished(planned(prefix, services[i].suffix.view(), services[i].ttl, replies[i]), writes[i]),
        pass_outcomes(prefix, services, replies, writes)[i]
            == pass_outcomes(prefix, services, other_replies, other_writes)[i],
{
}

/// Only the first value of a fetched record counts: when it parses to the
/// target the plan is a no-op, when it parses to another address the plan
/// is an update to the target, whatever values follow it; when it is
/// missing or does not parse the service fails without a write.
pub proof fn lemma_first_value_decides(prefix: Address, service: ServiceConfig, reply: ProviderReply)
    requires
        reply is Record,
    ensures
        ({
            let target = merged(prefix.view(), service.suffix.view());
            let values = reply->Record_values@;
            let plan = planned(prefix.view(), service.suffix.view(), service.ttl, reply);
            &&& values.len() > 0 && values[0] is Some && values[0]->Some_0.view() == target
                ==> plan == Ok::<ActionModel, ServiceError>(ActionModel::NoOp)
            &&& values.len() > 0 && values[0] is Some && values[0]->Some_0.view() != target
                ==> plan == Ok::<ActionModel, ServiceError>(ActionModel::Update { address: target, ttl: service.ttl })
            &&& (values.len() == 0 || values[0] is None)
                ==> plan == Err::<ActionModel, ServiceError>(ServiceError::MalformedRemoteAddress)
        }),
{
}

} // verus!
