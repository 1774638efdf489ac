//! The library's model of a watched endpoint collection and the pure
//! functions that read it: readiness derivation, owner validation, and
//! label extraction.

use vstd::prelude::*;
use vstd::string::StrSliceExecFns;
use crate::text::str_eq;

verus! {

/// One key/value label on a watched object.
pub struct Label {
    pub key: String,
    pub value: String,
}

/// A declared parent-resource pointer on a watched object.
pub struct OwnerReference {
    pub api_version: String,
    pub kind: String,
    pub name: String,
}

/// The readiness conditions reported for one endpoint. An absent `ready`
/// condition counts as not ready.
#[derive(Clone, Copy, Debug)]
pub struct EndpointConditions {
    pub ready: Option<bool>,
}

/// One endpoint of the observed collection.
#[derive(Clone, Copy, Debug)]
pub struct Endpoint {
    pub conditions: Option<EndpointConditions>,
}

/// An observed endpoint collection: the data the reconciliation pipeline
/// reads from one watch event.
pub struct EndpointSlice {
    pub namespace: Option<String>,
    pub labels: Vec<Label>,
    pub owner_references: Vec<OwnerReference>,
    pub endpoints: Vec<Endpoint>,
}

/// An endpoint counts as ready exactly when it carries an explicit `ready`
/// condition evaluated true.
pub open spec fn spec_endpoint_ready(e: Endpoint) -> bool {
    e.conditions matches Some(c) && c.ready == Some(true)
}

/// At least one endpoint of the collection is ready.
pub open spec fn spec_any_endpoint_ready(endpoints: Seq<Endpoint>) -> bool {
    exists|i: int| 0 <= i < endpoints.len() && #[trigger] spec_endpoint_ready(endpoints[i])
}

/// Returns true if and only if at least one of the collection's endpoints
/// carries a `ready` condition evaluated true. Empty collections, absent
/// conditions and false conditions all yield false.
pub fn endpointslice_is_ready(endpoint_slice: &EndpointSlice) -> (r: bool)
    ensures
        r == spec_any_endpoint_ready(endpoint_slice.endpoints@),
{
    let n = endpoint_slice.endpoints.len();
    let mut i: usize = 0;
    while i < n
        invariant
            i <= n,
            n == endpoint_slice.endpoints@.len(),
            forall|j: int| 0 <= j < i ==> !#[trigger] spec_endpoint_ready(endpoint_slice.endpoints@[j]),
        decreases n - i,
    {
        let e = endpoint_slice.endpoints[i];
        if let Some(c) = e.conditions {
            if let Some(is_ready) = c.ready {
                if is_ready {
                    assert(spec_endpoint_ready(endpoint_slice.endpoints@[i as int]));
                    return true;
                }
            }
        }
        assert(!spec_endpoint_ready(endpoint_slice.endpoints@[i as int]));
        i += 1;
    }
    false
}

/// An owner reference that points at the core `Service` of the given name.
pub open spec fn spec_service_owner(o: OwnerReference, app_name: Seq<char>) -> bool {
    &&& o.api_version@ == "v1"@
    &&& o.kind@ == "Service"@
    &&& o.name@ == app_name
}

/// The owner-reference list contains a `{kind: Service, apiVersion: v1}`
/// entry named like the application.
pub open spec fn spec_has_service_owner(owners: Seq<OwnerReference>, app_name: Seq<char>) -> bool {
    exists|i: int| 0 <= i < owners.len() && #[trigger] spec_service_owner(owners[i], app_name)
}

/// Returns true if and only if the collection's owner references contain an
/// entry for a core (`apiVersion: v1`) `Service` whose name equals the
/// application name.
pub fn has_service_owner(endpoint_slice: &EndpointSlice, app_name: &str) -> (r: bool)
    ensures
        r == spec_has_service_owner(endpoint_slice.owner_references@, app_name@),
{
    let n = endpoint_slice.owner_references.len();
    let mut i: usize = 0;
    while i < n
        invariant
            i <= n,
            n == endpoint_slice.owner_references@.len(),
            forall|j: int| 0 <= j < i ==>
                !#[trigger] spec_service_owner(endpoint_slice.owner_references@[j], app_name@),
        decreases n - i,
    {
        let o = &endpoint_slice.owner_references[i];
        if str_eq(o.api_version.as_str(), "v1")
            && str_eq(o.kind.as_str(), "Service")
            && str_eq(o.name.as_str(), app_name) {
            assert(spec_service_owner(endpoint_slice.owner_references@[i as int], app_name@));
            return true;
        }
        assert(!spec_service_owner(endpoint_slice.owner_references@[i as int], app_name@));
        i += 1;
    }
    false
}

/// The value of the first label with the given key, if any.
pub open spec fn spec_label_value(labels: Seq<Label>, key: Seq<char>) -> Option<Seq<char>>
    decreases labels.len(),
{
    if labels.len() == 0 {
        None
    } else if labels[0].key@ == key {
        Some(labels[0].value@)
    } else {
        spec_label_value(labels.drop_first(), key)
    }
}

/// Looks a key up in a label list, returning the first match.
pub fn label_value<'a>(labels: &'a Vec<Label>, key: &str) -> (r: Option<&'a String>)
    ensures
        match r {
            Some(v) => spec_label_value(labels@, key@) == Some(v@),
            None => spec_label_value(labels@, key@) is None,
        },
{
    let n = labels.len();
    let mut i: usize = 0;
    proof {
        assert(labels@.subrange(0, n as int) =~= labels@);
    }
    while i < n
        invariant
            i <= n,
            n == labels@.len(),
            spec_label_value(labels@, key@) == spec_label_value(labels@.subrange(i as int, n as int), key@),
        decreases n - i,
    {
        proof {
            assert(labels@.subrange(i as int, n as int)[0] == labels@[i as int]);
        }
        if str_eq(labels[i].key.as_str(), key) {
            return Some(&labels[i].value);
        }
        proof {
            assert(labels@.subrange(i as int, n as int).drop_first()
                =~= labels@.subrange(i + 1, n as int));
        }
        i += 1;
    }
    None
}

/// The identity carried by the labels: the values of the `app` and `team`
/// labels, provided both are present and non-empty.
pub open spec fn spec_extract_labels(labels: Seq<Label>) -> Option<(Seq<char>, Seq<char>)> {
    match (spec_label_value(labels, "app"@), spec_label_value(labels, "team"@)) {
        (Some(app), Some(team)) => if app.len() > 0 && team.len() > 0 {
            Some((app, team))
        } else {
            None
        },
        _ => None,
    }
}

/// Extracts the `app` and `team` label values, in that order. Returns
/// `None`, disqualifying the event, when either label is absent or empty.
pub fn extract_team_and_app_labels(endpoint_slice: &EndpointSlice) -> (r: Option<(String, String)>)
    ensures
        match r {
            Some(p) => spec_extract_labels(endpoint_slice.labels@) == Some((p.0@, p.1@)),
            None => spec_extract_labels(endpoint_slice.labels@) is None,
        },
{
    let app = label_value(&endpoint_slice.labels, "app");
    let team = label_value(&endpoint_slice.labels, "team");
    match (app, team) {
        (Some(app), Some(team)) => {
            if !app.as_str().is_empty() && !team.as_str().is_empty() {
                Some((app.clone(), team.clone()))
            } else {
                None
            }
        },
        _ => None,
    }
}

} // verus!
