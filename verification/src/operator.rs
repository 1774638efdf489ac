//! The reconciliation pipeline: one watched event is taken through
//! identity extraction, owner validation, the authority lookup, readiness
//! derivation, and the registry write.
//!
//! The pipeline is a state machine. Each phase that waits on the outside
//! world names what it waits for; the surrounding process performs that
//! call and hands the result to the matching step function. [`reconcile`]
//! composes the same steps against the in-memory registry model, giving the
//! whole pipeline one exact contract.

use vstd::prelude::*;
use crate::api_types::{RecordDto, RecordSourceDto, ServiceDto, StatusDto};
use crate::endpoint_slice::{
    endpointslice_is_ready, extract_team_and_app_labels, has_service_owner, spec_any_endpoint_ready,
    spec_extract_labels, spec_has_service_owner, EndpointSlice,
};
use crate::registry::{
    lookup_service_id, report_status, resolve_or_create, spec_lookup_id, spec_resolve_or_create,
    spec_upsert, Registry, ServiceRecord,
};
use vstd::string::StringExecFns;

verus! {

/// The identity established for an event: the validated namespace and the
/// `app` and `team` label values.
pub struct Identity {
    pub namespace: String,
    pub app_name: String,
    pub team_name: String,
}

/// What the authority lookup said: the platform's application resource
/// exists, is absent, or could not be queried.
#[derive(Clone, Copy, PartialEq, Eq, Structural, Debug)]
pub enum AuthorityResult {
    Exists,
    Absent,
    LookupError,
}

/// Why an event was dropped without reaching the registry. None of these
/// is an error of the loop: the event is logged and the loop continues.
#[derive(Clone, Copy, PartialEq, Eq, Structural, Debug)]
pub enum SkipReason {
    MissingNamespace,
    MissingLabels,
    NoServiceOwner,
    AuthorityAbsent,
    AuthorityLookupFailed,
}

/// Which registry call failed for an event that had qualified.
#[derive(Clone, Copy, PartialEq, Eq, Structural, Debug)]
pub enum FailReason {
    ServiceListUnavailable,
    ServiceCreateFailed,
    StatusWriteFailed,
}

/// The terminal verdict of one reconciliation.
#[derive(Clone, Copy, PartialEq, Eq, Structural, Debug)]
pub enum Outcome {
    Reported,
    Skipped(SkipReason),
    Failed(FailReason),
}

/// Where one reconciliation stands. Every non-terminal phase names the one
/// outside call the driver must perform next.
pub enum Phase {
    /// Waiting for the authority lookup of the application resource in the
    /// identity's namespace.
    AwaitingAuthority { identity: Identity, ready: bool },
    /// Waiting for the registry's service list.
    AwaitingServiceList { identity: Identity, ready: bool },
    /// Waiting for the registry to create the service; the request body is
    /// [`create_request_body`] of the identity.
    AwaitingCreate { identity: Identity, ready: bool },
    /// Waiting for the status write for the resolved service.
    AwaitingReport { service_id: u128, ready: bool },
    /// Nothing is owed for this event.
    Done { outcome: Outcome },
}

/// The resource kind of the platform's application resource, the
/// authority consulted for each event. Resolved once at startup, not per
/// event.
pub struct AuthorityKind {
    pub group: String,
    pub version: String,
    pub kind: String,
}

/// The descriptor of the authority resource kind.
pub fn authority_kind() -> (r: AuthorityKind)
    ensures
        r.group@ == "nais.io"@,
        r.version@ == "v1alpha1"@,
        r.kind@ == "Application"@,
{
    AuthorityKind {
        group: String::from_str("nais.io"),
        version: String::from_str("v1alpha1"),
        kind: String::from_str("Application"),
    }
}

/// The label selector the watch passes to the server: only objects
/// carrying both required labels are delivered.
pub fn watch_label_selector() -> (r: String)
    ensures
        r@ == "app,team"@,
{
    String::from_str("app,team")
}

/// The identity an event carries, as (namespace, app, team): present
/// exactly when the event has a namespace and both labels, non-empty.
pub open spec fn spec_event_identity(event: &EndpointSlice) -> Option<(Seq<char>, Seq<char>, Seq<char>)> {
    match (event.namespace, spec_extract_labels(event.labels@)) {
        (Some(ns), Some(labels)) => Some((ns@, labels.0, labels.1)),
        _ => None,
    }
}

/// The first disqualification an event runs into, if any: a missing
/// namespace, a missing or empty required label, or the lack of a matching
/// `Service` owner reference.
pub open spec fn spec_skip_reason(event: &EndpointSlice) -> Option<SkipReason> {
    match spec_event_identity(event) {
        None => if event.namespace is None {
            Some(SkipReason::MissingNamespace)
        } else {
            Some(SkipReason::MissingLabels)
        },
        Some(identity) => if !spec_has_service_owner(event.owner_references@, identity.1) {
            Some(SkipReason::NoServiceOwner)
        } else {
            None
        },
    }
}

/// Begins a reconciliation: establishes the event's identity and readiness,
/// or skips the event.
pub fn start(event: &EndpointSlice) -> (p: Phase)
    ensures
        spec_skip_reason(event) matches Some(reason) ==> p == (Phase::Done {
            outcome: Outcome::Skipped(reason),
        }),
        spec_skip_reason(event) is None ==> ({
            &&& p matches Phase::AwaitingAuthority { identity, ready }
            &&& spec_event_identity(event) == Some(
                (identity.namespace@, identity.app_name@, identity.team_name@),
            )
            &&& ready == spec_any_endpoint_ready(event.endpoints@)
        }),
{
    let namespace = match &event.namespace {
        Some(ns) => ns.clone(),
        None => {
            return Phase::Done { outcome: Outcome::Skipped(SkipReason::MissingNamespace) };
        },
    };
    let (app_name, team_name) = match extract_team_and_app_labels(event) {
        Some(labels) => labels,
        None => {
            return Phase::Done { outcome: Outcome::Skipped(SkipReason::MissingLabels) };
        },
    };
    if !has_service_owner(event, app_name.as_str()) {
        return Phase::Done { outcome: Outcome::Skipped(SkipReason::NoServiceOwner) };
    }
    let ready = endpointslice_is_ready(event);
    Phase::AwaitingAuthority { identity: Identity { namespace, app_name, team_name }, ready }
}

/// Applies the authority lookup's answer: an existing application resource
/// lets the event proceed to the registry; an absent one, or a lookup that
/// errored, skips the event. Phases not waiting on the lookup pass through.
pub fn on_authority(p: Phase, result: AuthorityResult) -> (q: Phase)
    ensures
        !(p is AwaitingAuthority) ==> q == p,
        p matches Phase::AwaitingAuthority { identity, ready } ==> match result {
            AuthorityResult::Exists => q == (Phase::AwaitingServiceList { identity, ready }),
            AuthorityResult::Absent => q == (Phase::Done {
                outcome: Outcome::Skipped(SkipReason::AuthorityAbsent),
            }),
            AuthorityResult::LookupError => q == (Phase::Done {
                outcome: Outcome::Skipped(SkipReason::AuthorityLookupFailed),
            }),
        },
{
    match p {
        Phase::AwaitingAuthority { identity, ready } => match result {
            AuthorityResult::Exists => Phase::AwaitingServiceList { identity, ready },
            AuthorityResult::Absent => Phase::Done {
                outcome: Outcome::Skipped(SkipReason::AuthorityAbsent),
            },
            AuthorityResult::LookupError => Phase::Done {
                outcome: Outcome::Skipped(SkipReason::AuthorityLookupFailed),
            },
        },
        other => other,
    }
}

/// Applies the fetched service list: a known name is resolved to its
/// identifier and goes on to the status write; an unknown name goes on to
/// creation; an unavailable list fails the event. Phases not waiting on the
/// list pass through.
pub fn on_service_list(p: Phase, services: Option<Vec<ServiceRecord>>) -> (q: Phase)
    ensures
        !(p is AwaitingServiceList) ==> q == p,
        p matches Phase::AwaitingServiceList { identity, ready } ==> match services {
            None => q == (Phase::Done {
                outcome: Outcome::Failed(FailReason::ServiceListUnavailable),
            }),
            Some(list) => match spec_lookup_id(list@, identity.app_name@) {
                Some(id) => q == (Phase::AwaitingReport { service_id: id, ready }),
                None => q == (Phase::AwaitingCreate { identity, ready }),
            },
        },
{
    match p {
        Phase::AwaitingServiceList { identity, ready } => match services {
            None => Phase::Done { outcome: Outcome::Failed(FailReason::ServiceListUnavailable) },
            Some(list) => match lookup_service_id(&list, identity.app_name.as_str()) {
                Some(id) => Phase::AwaitingReport { service_id: id, ready },
                None => Phase::AwaitingCreate { identity, ready },
            },
        },
        other => other,
    }
}

/// Applies the creation response: the created record's identifier goes on
/// to the status write; a failed creation fails the event. Phases not
/// waiting on a creation pass through.
pub fn on_create(p: Phase, created: Option<ServiceRecord>) -> (q: Phase)
    ensures
        !(p is AwaitingCreate) ==> q == p,
        p matches Phase::AwaitingCreate { identity, ready } ==> match created {
            None => q == (Phase::Done { outcome: Outcome::Failed(FailReason::ServiceCreateFailed) }),
            Some(record) => q == (Phase::AwaitingReport { service_id: record.id, ready }),
        },
{
    match p {
        Phase::AwaitingCreate { identity: _, ready } => match created {
            None => Phase::Done { outcome: Outcome::Failed(FailReason::ServiceCreateFailed) },
            Some(record) => Phase::AwaitingReport { service_id: record.id, ready },
        },
        other => other,
    }
}

/// Applies the status write's outcome, finishing the reconciliation.
/// Phases not waiting on the write pass through.
pub fn on_report(p: Phase, success: bool) -> (q: Phase)
    ensures
        !(p is AwaitingReport) ==> q == p,
        p is AwaitingReport ==> q == (Phase::Done {
            outcome: if success {
                Outcome::Reported
            } else {
                Outcome::Failed(FailReason::StatusWriteFailed)
            },
        }),
{
    match p {
        Phase::AwaitingReport { .. } => Phase::Done {
            outcome: if success {
                Outcome::Reported
            } else {
                Outcome::Failed(FailReason::StatusWriteFailed)
            },
        },
        other => other,
    }
}

/// The status record written for a reconciliation: the resolved service,
/// `Okay` exactly when the event was ready, always attributed to cloud
/// polling.
pub fn make_status_record(service_id: u128, ready: bool, description: String) -> (r: RecordDto)
    ensures
        r == (RecordDto {
            service_id,
            status: if ready {
                StatusDto::Okay
            } else {
                StatusDto::Down
            },
            source: RecordSourceDto::GcpPoll,
            description,
        }),
{
    RecordDto {
        service_id,
        status: if ready {
            StatusDto::Okay
        } else {
            StatusDto::Down
        },
        source: RecordSourceDto::GcpPoll,
        description,
    }
}

/// The body of the creation request for an identity: the application name,
/// the event's namespace as the team, the fixed service type, and the
/// reserved collections all empty.
pub fn create_request_body(identity: &Identity) -> (r: ServiceDto)
    ensures
        r.name@ == identity.app_name@,
        r.team@ == identity.namespace@,
        r.typ@ == "TJENESTE"@,
        r.service_dependencies@.len() == 0,
        r.component_dependencies@.len() == 0,
        r.areas_containing_this_service@.len() == 0,
        r.services_dependent_on_this_component@.len() == 0,
{
    ServiceDto {
        name: identity.app_name.clone(),
        typ: String::from_str("TJENESTE"),
        team: identity.namespace.clone(),
        service_dependencies: Vec::new(),
        component_dependencies: Vec::new(),
        areas_containing_this_service: Vec::new(),
        services_dependent_on_this_component: Vec::new(),
    }
}

/// The team label is expected to equal the namespace. A mismatch is worth a
/// warning but does not disqualify the event.
pub fn team_matches_namespace(identity: &Identity) -> (r: bool)
    ensures
        r == (identity.team_name@ == identity.namespace@),
{
    crate::text::str_eq(identity.team_name.as_str(), identity.namespace.as_str())
}

/// The verdict a reconciliation ends in, given the event and the
/// authority's answer, when every registry call succeeds.
pub open spec fn spec_reconcile_outcome(event: &EndpointSlice, authority: AuthorityResult) -> Outcome {
    match spec_skip_reason(event) {
        Some(reason) => Outcome::Skipped(reason),
        None => match authority {
            AuthorityResult::Exists => Outcome::Reported,
            AuthorityResult::Absent => Outcome::Skipped(SkipReason::AuthorityAbsent),
            AuthorityResult::LookupError => Outcome::Skipped(SkipReason::AuthorityLookupFailed),
        },
    }
}

/// A reconciliation interacts with the registry exactly when the event
/// qualifies and the authority confirmed it.
pub open spec fn spec_registry_touched(event: &EndpointSlice, authority: AuthorityResult) -> bool {
    spec_skip_reason(event) is None && authority is Exists
}

/// The identifier a qualified event's status write goes to: the one the
/// name resolves to, or the one a creation would assign.
pub open spec fn spec_resolved_id(services: Seq<ServiceRecord>, name: Seq<char>, fresh_id: u128) -> u128 {
    match spec_lookup_id(services, name) {
        Some(id) => id,
        None => fresh_id,
    }
}

/// One whole reconciliation against the registry model: the event is taken
/// from identity to verdict, and the registry is touched only for a
/// qualified, confirmed event, which resolves or creates its service record
/// and then upserts one status record.
pub fn reconcile(
    event: &EndpointSlice,
    authority: AuthorityResult,
    registry: &mut Registry,
    description: String,
) -> (o: Outcome)
    requires
        old(registry).next_id < u128::MAX,
    ensures
        o == spec_reconcile_outcome(event, authority),
        !spec_registry_touched(event, authority) ==> *final(registry) == *old(registry),
        spec_registry_touched(event, authority) ==> (match spec_event_identity(event) {
            Some(identity) => ({
                let app = identity.1;
                let record = (RecordDto {
                    service_id: spec_resolved_id(old(registry).services@, app, old(registry).next_id),
                    status: if spec_any_endpoint_ready(event.endpoints@) {
                        StatusDto::Okay
                    } else {
                        StatusDto::Down
                    },
                    source: RecordSourceDto::GcpPoll,
                    description,
                });
                &&& final(registry).statuses@ == spec_upsert(old(registry).statuses@, record)
                &&& (spec_lookup_id(old(registry).services@, app) is Some ==> {
                    &&& final(registry).services@ == old(registry).services@
                    &&& final(registry).next_id == old(registry).next_id
                })
                &&& (spec_lookup_id(old(registry).services@, app) is None ==> ({
                    let created = final(registry).services@.last();
                    &&& created.name@ == app
                    &&& created.team@ == identity.0
                    &&& created.id == old(registry).next_id
                    &&& final(registry).services@ == spec_resolve_or_create(
                        old(registry).services@,
                        app,
                        created,
                    )
                    &&& final(registry).next_id == old(registry).next_id + 1
                }))
            }),
            None => false,
        }),
{
    let p = start(event);
    let p = on_authority(p, authority);
    match p {
        Phase::Done { outcome } => outcome,
        Phase::AwaitingServiceList { identity, ready } => {
            let service_id = resolve_or_create(
                registry,
                identity.app_name.as_str(),
                identity.namespace.as_str(),
            );
            let record = make_status_record(service_id, ready, description);
            report_status(registry, record);
            Outcome::Reported
        },
        _ => {
            proof {
                assert(false);
            }
            Outcome::Reported
        },
    }
}

/// An event that lacks the `app` or the `team` label is skipped, and a
/// skipped event never touches the registry.
pub proof fn lemma_missing_label_skips(event: &EndpointSlice, authority: AuthorityResult)
    requires
        crate::endpoint_slice::spec_label_value(event.labels@, "app"@) is None
            || crate::endpoint_slice::spec_label_value(event.labels@, "team"@) is None,
    ensures
        spec_reconcile_outcome(event, authority) matches Outcome::Skipped(_),
        !spec_registry_touched(event, authority),
{
}

/// An event whose owner references name no `{kind: Service, apiVersion: v1}`
/// entry matching its `app` label is skipped, and never touches the
/// registry.
pub proof fn lemma_unowned_event_skips(event: &EndpointSlice, authority: AuthorityResult)
    requires
        spec_extract_labels(event.labels@) matches Some(labels) && !spec_has_service_owner(
            event.owner_references@,
            labels.0,
        ),
    ensures
        spec_reconcile_outcome(event, authority) matches Outcome::Skipped(_),
        !spec_registry_touched(event, authority),
{
}

/// An event that passes identity and ownership, but whose application
/// resource the authority does not know, is skipped without any registry
/// write.
pub proof fn lemma_authority_absent_skips(event: &EndpointSlice)
    requires
        spec_skip_reason(event) is None,
    ensures
        spec_reconcile_outcome(event, AuthorityResult::Absent) == Outcome::Skipped(
            SkipReason::AuthorityAbsent,
        ),
        !spec_registry_touched(event, AuthorityResult::Absent),
{
}

} // verus!
