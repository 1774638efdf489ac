use readiness_operator::api_types::RecordDto;
use readiness_operator::api_types::RecordSourceDto;
use readiness_operator::api_types::StatusDto;
use readiness_operator::registry::lookup_service_id;
use readiness_operator::registry::report_status;
use readiness_operator::registry::resolve_or_create;
use readiness_operator::registry::Registry;
use readiness_operator::registry::ServiceRecord;

fn record(name: &str, team: &str, id: u128) -> ServiceRecord {
    ServiceRecord { name: String::from(name), team: String::from(team), id }
}

fn status(service_id: u128, status: StatusDto, description: &str) -> RecordDto {
    RecordDto {
        service_id,
        status,
        source: RecordSourceDto::GcpPoll,
        description: String::from(description),
    }
}

fn count_named(registry: &Registry, name: &str) -> usize {
    let mut count: usize = 0;
    let mut i: usize = 0;
    while i < registry.services.len() {
        if registry.services[i].name == name {
            count += 1;
        }
        i += 1;
    }
    count
}

#[test]
fn resolving_twice_creates_one_record() {
    let mut registry = Registry { services: Vec::new(), statuses: Vec::new(), next_id: 0 };
    let first = resolve_or_create(&mut registry, "foo", "teamA");
    let second = resolve_or_create(&mut registry, "foo", "teamA");
    assert_eq!(first, second);
    assert_eq!(count_named(&registry, "foo"), 1);
    assert_eq!(registry.services[0].team, "teamA");
}

#[test]
fn resolving_known_name_returns_its_id_without_create() {
    let mut registry = Registry {
        services: vec![record("foo", "teamA", 11), record("bar", "teamB", 12)],
        statuses: Vec::new(),
        next_id: 13,
    };
    let id = resolve_or_create(&mut registry, "bar", "teamB");
    assert_eq!(id, 12);
    assert_eq!(registry.services.len(), 2);
    assert_eq!(registry.next_id, 13);
}

#[test]
fn resolving_absent_name_assigns_the_next_id() {
    let mut registry =
        Registry { services: vec![record("foo", "teamA", 11)], statuses: Vec::new(), next_id: 20 };
    let id = resolve_or_create(&mut registry, "baz", "teamC");
    assert_eq!(id, 20);
    assert_eq!(registry.next_id, 21);
    assert_eq!(registry.services.len(), 2);
    assert_eq!(registry.services[1].name, "baz");
}

#[test]
fn lookup_returns_first_match() {
    let services = vec![record("foo", "teamA", 1), record("bar", "teamB", 2)];
    assert_eq!(lookup_service_id(&services, "bar"), Some(2));
    assert_eq!(lookup_service_id(&services, "foo"), Some(1));
    assert_eq!(lookup_service_id(&services, "baz"), None);
}

#[test]
fn reporting_twice_is_idempotent() {
    let mut registry =
        Registry { services: vec![record("foo", "teamA", 5)], statuses: Vec::new(), next_id: 6 };
    report_status(&mut registry, status(5, StatusDto::Okay, "all well"));
    assert_eq!(registry.statuses.len(), 1);
    report_status(&mut registry, status(5, StatusDto::Okay, "all well"));
    assert_eq!(registry.statuses.len(), 1);
    assert_eq!(registry.statuses[0].service_id, 5);
    assert_eq!(registry.statuses[0].status, StatusDto::Okay);
    assert_eq!(registry.statuses[0].description, "all well");
}

#[test]
fn reporting_replaces_only_the_matching_service() {
    let mut registry = Registry {
        services: vec![record("foo", "teamA", 5), record("bar", "teamB", 6)],
        statuses: Vec::new(),
        next_id: 7,
    };
    report_status(&mut registry, status(5, StatusDto::Okay, "up"));
    report_status(&mut registry, status(6, StatusDto::Down, "down"));
    report_status(&mut registry, status(5, StatusDto::Down, "broke"));
    assert_eq!(registry.statuses.len(), 2);
    assert_eq!(registry.statuses[0].service_id, 5);
    assert_eq!(registry.statuses[0].status, StatusDto::Down);
    assert_eq!(registry.statuses[0].description, "broke");
    assert_eq!(registry.statuses[1].service_id, 6);
    assert_eq!(registry.statuses[1].status, StatusDto::Down);
}
