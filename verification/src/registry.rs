//! A model of the external status registry's visible state, together with
//! the client logic run against it: name resolution, lazy service creation,
//! and upsert-style status writes.
//!
//! The live process performs these operations over HTTP; the model gives
//! them exact meaning, carries the proofs about them, and lets tests
//! exercise whole reconciliations without a network.

use vstd::prelude::*;
use vstd::string::StringExecFns;
use crate::api_types::RecordDto;
use crate::text::str_eq;

verus! {

/// One service known to the registry: its name, the team recorded at
/// creation, and the stable identifier the registry assigned.
pub struct ServiceRecord {
    pub name: String,
    pub team: String,
    pub id: u128,
}

/// The number of service records carrying the given name.
pub open spec fn spec_count_named(services: Seq<ServiceRecord>, name: Seq<char>) -> nat
    decreases services.len(),
{
    if services.len() == 0 {
        0
    } else {
        (if services[0].name@ == name {
            1nat
        } else {
            0nat
        }) + spec_count_named(services.drop_first(), name)
    }
}

/// The identifier of the first service record carrying the given name.
pub open spec fn spec_lookup_id(services: Seq<ServiceRecord>, name: Seq<char>) -> Option<u128>
    decreases services.len(),
{
    if services.len() == 0 {
        None
    } else if services[0].name@ == name {
        Some(services[0].id)
    } else {
        spec_lookup_id(services.drop_first(), name)
    }
}

/// The service list after one resolve-or-create round: unchanged when the
/// name is already known, else extended by the created record.
pub open spec fn spec_resolve_or_create(
    services: Seq<ServiceRecord>,
    name: Seq<char>,
    created: ServiceRecord,
) -> Seq<ServiceRecord> {
    if spec_lookup_id(services, name) is Some {
        services
    } else {
        services.push(created)
    }
}

/// The status list after an upsert: the first record for the same service
/// is replaced, or the record is appended when the service had none.
pub open spec fn spec_upsert(statuses: Seq<RecordDto>, record: RecordDto) -> Seq<RecordDto>
    decreases statuses.len(),
{
    if statuses.len() == 0 {
        seq![record]
    } else if statuses[0].service_id == record.service_id {
        seq![record] + statuses.drop_first()
    } else {
        seq![statuses[0]] + spec_upsert(statuses.drop_first(), record)
    }
}

/// Appending a record adds one to the count of its own name and leaves
/// every other count unchanged.
pub proof fn lemma_count_push(services: Seq<ServiceRecord>, name: Seq<char>, record: ServiceRecord)
    ensures
        spec_count_named(services.push(record), name) == spec_count_named(services, name) + (
        if record.name@ == name {
            1nat
        } else {
            0nat
        }),
    decreases services.len(),
{
    if services.len() == 0 {
        assert(services.push(record).drop_first() =~= services);
    } else {
        assert(services.push(record).drop_first() =~= services.drop_first().push(record));
        lemma_count_push(services.drop_first(), name, record);
    }
}

/// A name resolves to no identifier exactly when no record carries it.
pub proof fn lemma_lookup_none_iff_none_named(services: Seq<ServiceRecord>, name: Seq<char>)
    ensures
        (spec_lookup_id(services, name) is None) <==> spec_count_named(services, name) == 0,
    decreases services.len(),
{
    if services.len() > 0 {
        lemma_lookup_none_iff_none_named(services.drop_first(), name);
    }
}

/// Two resolve-or-create rounds for the same, initially absent, name leave
/// exactly one record with that name, whichever round created a record.
pub proof fn lemma_resolve_or_create_creates_once(
    services: Seq<ServiceRecord>,
    name: Seq<char>,
    first_created: ServiceRecord,
    second_created: ServiceRecord,
)
    requires
        spec_count_named(services, name) == 0,
        first_created.name@ == name,
        second_created.name@ == name,
    ensures
        spec_count_named(
            spec_resolve_or_create(
                spec_resolve_or_create(services, name, first_created),
                name,
                second_created,
            ),
            name,
        ) == 1,
{
    lemma_lookup_none_iff_none_named(services, name);
    let after_first = services.push(first_created);
    lemma_count_push(services, name, first_created);
    lemma_lookup_none_iff_none_named(after_first, name);
}

/// No two service records carry the same name.
pub open spec fn spec_names_unique(services: Seq<ServiceRecord>) -> bool {
    forall|i: int, j: int| 0 <= i < j < services.len() ==> services[i].name@ != services[j].name@
}

/// A name resolves to no identifier exactly when no record carries it.
pub proof fn lemma_lookup_none_iff_absent(services: Seq<ServiceRecord>, name: Seq<char>)
    ensures
        (spec_lookup_id(services, name) is None) <==> (forall|i: int|
            0 <= i < services.len() ==> services[i].name@ != name),
    decreases services.len(),
{
    if services.len() > 0 && services[0].name@ != name {
        lemma_lookup_none_iff_absent(services.drop_first(), name);
        if spec_lookup_id(services, name) is None {
            assert forall|i: int| 0 <= i < services.len() implies services[i].name@ != name by {
                if i > 0 {
                    assert(services[i] == services.drop_first()[i - 1]);
                }
            }
        } else {
            assert forall|i: int|
                0 <= i < services.drop_first().len() implies services.drop_first()[i]
                == services[i + 1] by {}
        }
    }
}

/// A resolve-or-create round keeps service names unique: a known name
/// creates nothing, and a created record carries a name nothing carried.
pub proof fn lemma_resolve_or_create_keeps_names_unique(
    services: Seq<ServiceRecord>,
    name: Seq<char>,
    created: ServiceRecord,
)
    requires
        spec_names_unique(services),
        created.name@ == name,
    ensures
        spec_names_unique(spec_resolve_or_create(services, name, created)),
{
    if spec_lookup_id(services, name) is None {
        lemma_lookup_none_iff_absent(services, name);
        let extended = services.push(created);
        assert forall|i: int, j: int|
            0 <= i < j < extended.len() implies extended[i].name@ != extended[j].name@ by {
            assert(extended[i] == services[i]);
            if j < services.len() {
                assert(extended[j] == services[j]);
            } else {
                assert(extended[j] == created);
            }
        }
    }
}

/// Upserting the same record twice leaves the status list exactly as one
/// upsert does.
pub proof fn lemma_report_status_idempotent(statuses: Seq<RecordDto>, record: RecordDto)
    ensures
        spec_upsert(spec_upsert(statuses, record), record) == spec_upsert(statuses, record),
    decreases statuses.len(),
{
    if statuses.len() == 0 {
        assert(spec_upsert(spec_upsert(statuses, record), record) =~= spec_upsert(
            statuses,
            record,
        ));
    } else if statuses[0].service_id == record.service_id {
        let once = seq![record] + statuses.drop_first();
        assert(once[0] == record);
        assert(once.drop_first() =~= statuses.drop_first());
        assert(spec_upsert(once, record) =~= once);
    } else {
        lemma_report_status_idempotent(statuses.drop_first(), record);
        let once = seq![statuses[0]] + spec_upsert(statuses.drop_first(), record);
        assert(once[0] == statuses[0]);
        assert(once.len() > 0);
        assert(once.drop_first() =~= spec_upsert(statuses.drop_first(), record));
        assert(spec_upsert(once, record) =~= once);
    }
}

/// An upsert that finds its service at position `at`, and at no earlier
/// position, replaces exactly that record.
proof fn lemma_upsert_replaces_at(statuses: Seq<RecordDto>, record: RecordDto, at: int)
    requires
        0 <= at < statuses.len(),
        statuses[at].service_id == record.service_id,
        forall|j: int| 0 <= j < at ==> statuses[j].service_id != record.service_id,
    ensures
        spec_upsert(statuses, record) == statuses.update(at, record),
    decreases at,
{
    if at == 0 {
        assert(spec_upsert(statuses, record) =~= statuses.update(0, record));
    } else {
        lemma_upsert_replaces_at(statuses.drop_first(), record, at - 1);
        assert(spec_upsert(statuses, record) =~= statuses.update(at, record));
    }
}

/// An upsert that finds no record for its service appends.
proof fn lemma_upsert_appends(statuses: Seq<RecordDto>, record: RecordDto)
    requires
        forall|j: int| 0 <= j < statuses.len() ==> statuses[j].service_id != record.service_id,
    ensures
        spec_upsert(statuses, record) == statuses.push(record),
    decreases statuses.len(),
{
    if statuses.len() == 0 {
        assert(spec_upsert(statuses, record) =~= statuses.push(record));
    } else {
        lemma_upsert_appends(statuses.drop_first(), record);
        assert(spec_upsert(statuses, record) =~= statuses.push(record));
    }
}

/// The registry's visible state: the services it knows, the last status
/// written for each, and the identifier it will assign next.
pub struct Registry {
    pub services: Vec<ServiceRecord>,
    pub statuses: Vec<RecordDto>,
    pub next_id: u128,
}

/// Looks a service name up in a fetched service list, returning the
/// identifier of the first record with that name.
pub fn lookup_service_id(services: &Vec<ServiceRecord>, name: &str) -> (r: Option<u128>)
    ensures
        r == spec_lookup_id(services@, name@),
{
    let n = services.len();
    let mut i: usize = 0;
    proof {
        assert(services@.subrange(0, n as int) =~= services@);
    }
    while i < n
        invariant
            i <= n,
            n == services@.len(),
            spec_lookup_id(services@, name@) == spec_lookup_id(
                services@.subrange(i as int, n as int),
                name@,
            ),
        decreases n - i,
    {
        proof {
            assert(services@.subrange(i as int, n as int)[0] == services@[i as int]);
        }
        if str_eq(services[i].name.as_str(), name) {
            return Some(services[i].id);
        }
        proof {
            assert(services@.subrange(i as int, n as int).drop_first() =~= services@.subrange(
                i + 1,
                n as int,
            ));
        }
        i += 1;
    }
    None
}

/// Resolves a service name to its registry identifier, creating the record
/// with the given name and team when the name is not yet known. A created
/// record receives the registry's next identifier.
pub fn resolve_or_create(registry: &mut Registry, name: &str, team: &str) -> (id: u128)
    requires
        old(registry).next_id < u128::MAX,
    ensures
        spec_lookup_id(old(registry).services@, name@) matches Some(known) ==> *final(registry)
            == *old(registry) && id == known,
        spec_lookup_id(old(registry).services@, name@) is None ==> ({
            let created = final(registry).services@.last();
            &&& created.name@ == name@
            &&& created.team@ == team@
            &&& created.id == old(registry).next_id
            &&& id == old(registry).next_id
            &&& final(registry).services@ == spec_resolve_or_create(
                old(registry).services@,
                name@,
                created,
            )
            &&& final(registry).statuses@ == old(registry).statuses@
            &&& final(registry).next_id == old(registry).next_id + 1
        }),
{
    let found = lookup_service_id(&registry.services, name);
    match found {
        Some(known) => known,
        None => {
            let id = registry.next_id;
            let record = ServiceRecord {
                name: String::from_str(name),
                team: String::from_str(team),
                id,
            };
            registry.services.push(record);
            registry.next_id = registry.next_id + 1;
            id
        },
    }
}

/// Writes one status record, replacing the service's previous record or
/// appending the first one.
pub fn report_status(registry: &mut Registry, record: RecordDto)
    ensures
        final(registry).statuses@ == spec_upsert(old(registry).statuses@, record),
        final(registry).services@ == old(registry).services@,
        final(registry).next_id == old(registry).next_id,
{
    let n = registry.statuses.len();
    let mut i: usize = 0;
    while i < n
        invariant
            i <= n,
            n == registry.statuses@.len(),
            *registry == *old(registry),
            forall|j: int| 0 <= j < i ==> registry.statuses@[j].service_id != record.service_id,
        decreases n - i,
    {
        if registry.statuses[i].service_id == record.service_id {
            proof {
                lemma_upsert_replaces_at(registry.statuses@, record, i as int);
            }
            registry.statuses.set(i, record);
            return;
        }
        i += 1;
    }
    proof {
        lemma_upsert_appends(registry.statuses@, record);
    }
    registry.statuses.push(record);
}

} // verus!
