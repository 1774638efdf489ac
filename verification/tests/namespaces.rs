use readiness_operator::config::Config;
use readiness_operator::namespace_filter::collate_excluded_namespaces;
use readiness_operator::namespace_filter::excluded_namespace_list;
use readiness_operator::namespace_filter::namespace_is_excluded;
use readiness_operator::text::request_url;
use readiness_operator::text::str_eq;

fn config_with_exclusions(excluded: &str) -> Config {
    Config {
        api_key: String::from("key"),
        excluded_namespaces: String::from(excluded),
        base_url: String::from("http://portalserver"),
    }
}

#[test]
fn empty_exclusion_list_collates_to_nothing() {
    let config = config_with_exclusions("");
    assert_eq!(collate_excluded_namespaces(&config), "");
}

#[test]
fn collate_formats_dedups_and_drops_empties() {
    let config = config_with_exclusions("a,b,a,,c");
    assert_eq!(collate_excluded_namespaces(&config), "namespace!=a,namespace!=b,namespace!=c");
}

#[test]
fn collate_single_namespace() {
    let config = config_with_exclusions("kube-system");
    assert_eq!(collate_excluded_namespaces(&config), "namespace!=kube-system");
}

#[test]
fn exclusion_list_keeps_first_occurrences_in_order() {
    let namespaces = excluded_namespace_list("x,y,x,z,y");
    assert_eq!(namespaces.len(), 3);
    assert_eq!(namespaces[0], "x");
    assert_eq!(namespaces[1], "y");
    assert_eq!(namespaces[2], "z");
}

#[test]
fn exclusion_predicate_matches_configured_namespaces() {
    let config = config_with_exclusions("kube-system,monitoring");
    assert!(namespace_is_excluded(&config, "kube-system"));
    assert!(namespace_is_excluded(&config, "monitoring"));
    assert!(!namespace_is_excluded(&config, "payments"));
    assert!(!namespace_is_excluded(&config, ""));
}

#[test]
fn config_requires_an_api_key() {
    assert!(readiness_operator::config::new(None, None, None).is_none());
}

#[test]
fn config_applies_defaults() {
    let config = readiness_operator::config::new(Some(String::from("key")), None, None)
        .expect("a key suffices");
    assert_eq!(config.api_key, "key");
    assert_eq!(config.excluded_namespaces, "");
    assert_eq!(config.base_url, "http://portalserver");
}

#[test]
fn config_keeps_supplied_values() {
    let config = readiness_operator::config::new(
        Some(String::from("key")),
        Some(String::from("a,b")),
        Some(String::from("http://elsewhere")),
    )
    .expect("a key suffices");
    assert_eq!(config.excluded_namespaces, "a,b");
    assert_eq!(config.base_url, "http://elsewhere");
}

#[test]
fn request_urls_join_base_and_endpoint() {
    assert_eq!(request_url("http://portalserver", "rest/Services"), "http://portalserver/rest/Services");
    assert_eq!(request_url("http://portalserver", "rest/ServiceStatus"), "http://portalserver/rest/ServiceStatus");
}

#[test]
fn string_equality_is_by_characters() {
    assert!(str_eq("app", "app"));
    assert!(!str_eq("app", "team"));
    assert!(!str_eq("app", "apps"));
    assert!(str_eq("", ""));
}
